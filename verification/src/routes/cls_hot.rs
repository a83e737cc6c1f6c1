//! `/cls_hot`: the hot articles of Cailianpress (cls.cn). The list API is
//! signed; each article's page is then fetched for its text and pictures.
use crate::connect::bytes_of;
use crate::dates::{or_else, timestamp_to_rss, ts_rfc2822};
use crate::easyuser::pair_views;
use crate::feed::{Feed, FeedItem, FeedItemView, FeedView};
use crate::json::{hex_lower, json_as_i64, json_as_str, json_index, Json};
use crate::order::{chars_le, chars_le_exec};
use crate::request_rules::RouteError;
use crate::routes::{feed_result_is, item_views, member_str, member_str_exec};
use crate::text::{cat, dec_int, i64_to_string, is_empty, join, push_str, to_chars, views};
use sha1::Digest;
use vstd::prelude::*;

verus! {

// ---------------------------------------------------------------------------
// The signature
// ---------------------------------------------------------------------------

/// The SHA-1 digest of some bytes, as the `sha1` crate computes it.
pub uninterp spec fn sha1_of(data: Seq<u8>) -> Seq<u8>;

/// The MD5 digest of some bytes, as the `md-5` crate computes it.
pub uninterp spec fn md5_of(data: Seq<u8>) -> Seq<u8>;

/// `sha1::Sha1`: the digest of `data` (named by [`sha1_of`]; 20 bytes).
#[verifier::external_body]
fn sha1_digest(data: &[u8]) -> (r: Vec<u8>)
    ensures
        r@ == sha1_of(data@),
        r@.len() == 20,
{
    sha1::Sha1::digest(data).to_vec()
}

/// `md5::Md5`: the digest of `data` (named by [`md5_of`]; 16 bytes).
#[verifier::external_body]
fn md5_digest(data: &[u8]) -> (r: Vec<u8>)
    ensures
        r@ == md5_of(data@),
        r@.len() == 16,
{
    md5::Md5::digest(data).to_vec()
}

/// Bytes in lower-case hexadecimal, two digits each.
pub open spec fn hex_text(b: Seq<u8>) -> Seq<char>
    decreases b.len(),
{
    if b.len() == 0 {
        seq![]
    } else {
        hex_text(b.drop_last()) + seq![
            hex_lower((b.last() / 16) as nat),
            hex_lower((b.last() % 16) as nat),
        ]
    }
}

/// `hex::encode`: each byte as two lower-case hexadecimal digits.
#[verifier::external_body]
fn hex_encode(data: &[u8]) -> (r: String)
    ensures
        r@ == hex_text(data@),
{
    hex::encode(data)
}

/// `p` put into a list sorted by key after every pair whose key is not
/// greater (a stable insertion).
pub open spec fn insert_by_key(sorted: Seq<(Seq<char>, Seq<char>)>, p: (Seq<char>, Seq<char>)) -> Seq<
    (Seq<char>, Seq<char>),
>
    decreases sorted.len(),
{
    if sorted.len() == 0 {
        seq![p]
    } else if chars_le(sorted.last().0, p.0) {
        sorted.push(p)
    } else {
        insert_by_key(sorted.drop_last(), p).push(sorted.last())
    }
}

/// The pairs sorted by key; pairs with equal keys keep their order.
pub open spec fn sorted_by_key(s: Seq<(Seq<char>, Seq<char>)>) -> Seq<(Seq<char>, Seq<char>)>
    decreases s.len(),
{
    if s.len() == 0 {
        seq![]
    } else {
        insert_by_key(sorted_by_key(s.drop_last()), s.last())
    }
}

/// Pairs written as `k=v` and joined with `&`.
pub open spec fn query_of(pairs: Seq<(Seq<char>, Seq<char>)>) -> Seq<char> {
    join(pairs.map_values(|p: (Seq<char>, Seq<char>)| p.0 + "="@ + p.1), "&"@)
}

/// `build_sign`: the pairs sorted by key and joined as a query; its SHA-1
/// in hexadecimal; the MD5 of that text, in hexadecimal.
pub open spec fn spec_sign(pairs: Seq<(Seq<char>, Seq<char>)>) -> Seq<char> {
    hex_text(
        md5_of(
            vstd::utf8::encode_utf8(
                hex_text(sha1_of(vstd::utf8::encode_utf8(query_of(sorted_by_key(pairs))))),
            ),
        ),
    )
}

proof fn lemma_insert_at(sorted: Seq<(Seq<char>, Seq<char>)>, p: (Seq<char>, Seq<char>), pos: int)
    requires
        0 <= pos <= sorted.len(),
        forall|j: int| pos <= j < sorted.len() ==> !chars_le(#[trigger] sorted[j].0, p.0),
        pos == 0 || chars_le(sorted[pos - 1].0, p.0),
    ensures
        insert_by_key(sorted, p) == sorted.insert(pos, p),
    decreases sorted.len() - pos,
{
    if pos == sorted.len() {
        if sorted.len() == 0 {
            assert(sorted.insert(pos, p) =~= seq![p]);
        } else {
            assert(sorted.insert(pos, p) =~= sorted.push(p));
        }
    } else {
        let d = sorted.drop_last();
        assert forall|j: int| pos <= j < d.len() implies !chars_le(#[trigger] d[j].0, p.0) by {
            assert(d[j] == sorted[j]);
        }
        if pos > 0 {
            assert(d[pos - 1] == sorted[pos - 1]);
        }
        lemma_insert_at(d, p, pos);
        assert(sorted.insert(pos, p) =~= d.insert(pos, p).push(sorted.last()));
    }
}

/// Keys do not decrease along `s`.
pub open spec fn key_ascending(s: Seq<(Seq<char>, Seq<char>)>) -> bool {
    forall|i: int, j: int| 0 <= i < j < s.len() ==> chars_le((#[trigger] s[i]).0, (#[trigger] s[j]).0)
}

/// No two pairs have the same key.
pub open spec fn distinct_keys(s: Seq<(Seq<char>, Seq<char>)>) -> bool {
    forall|i: int, j: int| 0 <= i < j < s.len() ==> (#[trigger] s[i]).0 != (#[trigger] s[j]).0
}

proof fn lemma_insert_key_bounded(sorted: Seq<(Seq<char>, Seq<char>)>, p: (Seq<char>, Seq<char>), b: Seq<char>)
    requires
        forall|i: int| 0 <= i < sorted.len() ==> chars_le((#[trigger] sorted[i]).0, b),
        chars_le(p.0, b),
    ensures
        forall|i: int| 0 <= i < insert_by_key(sorted, p).len() ==> chars_le((#[trigger] insert_by_key(sorted, p)[i]).0, b),
    decreases sorted.len(),
{
    if sorted.len() == 0 {
        assert forall|i: int| 0 <= i < seq![p].len() implies chars_le((#[trigger] seq![p][i]).0, b) by {}
    } else if chars_le(sorted.last().0, p.0) {
        assert forall|i: int| 0 <= i < sorted.push(p).len() implies chars_le((#[trigger] sorted.push(p)[i]).0, b) by {
            if i < sorted.len() {
                assert(sorted.push(p)[i] == sorted[i]);
            }
        }
    } else {
        let d = sorted.drop_last();
        assert forall|i: int| 0 <= i < d.len() implies chars_le((#[trigger] d[i]).0, b) by {
            assert(d[i] == sorted[i]);
        }
        lemma_insert_key_bounded(d, p, b);
        let t = insert_by_key(d, p);
        assert forall|i: int| 0 <= i < t.push(sorted.last()).len() implies chars_le((#[trigger] t.push(sorted.last())[i]).0, b) by {
            if i < t.len() {
                assert(t.push(sorted.last())[i] == t[i]);
            }
        }
    }
}

proof fn lemma_insert_by_key(sorted: Seq<(Seq<char>, Seq<char>)>, p: (Seq<char>, Seq<char>))
    requires
        key_ascending(sorted),
    ensures
        key_ascending(insert_by_key(sorted, p)),
        insert_by_key(sorted, p).to_multiset() == sorted.to_multiset().insert(p),
    decreases sorted.len(),
{
    broadcast use vstd::seq_lib::group_to_multiset_ensures;
    if sorted.len() == 0 {
        assert(seq![p] =~= Seq::<(Seq<char>, Seq<char>)>::empty().push(p));
    } else if chars_le(sorted.last().0, p.0) {
        let t = sorted.push(p);
        assert forall|i: int, j: int| 0 <= i < j < t.len() implies chars_le((#[trigger] t[i]).0, (#[trigger] t[j]).0) by {
            if j == t.len() - 1 && i < sorted.len() - 1 {
                crate::order::lemma_chars_le_trans(sorted[i].0, sorted.last().0, p.0);
            }
        }
    } else {
        let d = sorted.drop_last();
        let last = sorted.last();
        assert(key_ascending(d));
        lemma_insert_by_key(d, p);
        crate::order::lemma_chars_le_total(last.0, p.0);
        assert forall|i: int| 0 <= i < d.len() implies chars_le((#[trigger] d[i]).0, last.0) by {
            assert(d[i] == sorted[i]);
        }
        lemma_insert_key_bounded(d, p, last.0);
        let t = insert_by_key(d, p);
        assert(d.push(last) =~= sorted);
        assert(sorted.to_multiset() == d.to_multiset().insert(last));
        assert(t.to_multiset().insert(last) =~= d.to_multiset().insert(last).insert(p));
        let u = t.push(last);
        assert forall|i: int, j: int| 0 <= i < j < u.len() implies chars_le((#[trigger] u[i]).0, (#[trigger] u[j]).0) by {
            if j == u.len() - 1 {
                assert(u[i] == t[i]);
            } else {
                assert(u[i] == t[i] && u[j] == t[j]);
            }
        }
    }
}

proof fn lemma_sorted_by_key(s: Seq<(Seq<char>, Seq<char>)>)
    ensures
        key_ascending(sorted_by_key(s)),
        sorted_by_key(s).to_multiset() == s.to_multiset(),
    decreases s.len(),
{
    broadcast use vstd::seq_lib::group_to_multiset_ensures;
    if s.len() > 0 {
        lemma_sorted_by_key(s.drop_last());
        lemma_insert_by_key(sorted_by_key(s.drop_last()), s.last());
        assert(s.drop_last().push(s.last()) =~= s);
    }
}

/// With the same elements, distinct keys carry over.
proof fn lemma_distinct_carries(s: Seq<(Seq<char>, Seq<char>)>, t: Seq<(Seq<char>, Seq<char>)>)
    requires
        distinct_keys(s),
        t.to_multiset() == s.to_multiset(),
    ensures
        distinct_keys(t),
{
    broadcast use vstd::seq_lib::group_to_multiset_ensures;
    assert forall|a: int, b: int| 0 <= a < b < t.len() implies (#[trigger] t[a]).0 != (#[trigger] t[b]).0 by {
        if t[a].0 == t[b].0 {
            assert(t.to_multiset().count(t[a]) > 0);
            assert(s.contains(t[a]));
            let i = choose|i: int| 0 <= i < s.len() && s[i] == t[a];
            assert(t.contains(t[b]));
            assert(t.to_multiset().count(t[b]) > 0);
            assert(s.contains(t[b]));
            let j = choose|j: int| 0 <= j < s.len() && s[j] == t[b];
            if i != j {
                if i < j {
                    assert(s[i].0 != s[j].0);
                } else {
                    assert(s[j].0 != s[i].0);
                }
            }
            let x = t[a];
            assert(t[b] == x);
            vstd::seq_lib::to_multiset_remove(t, a);
            vstd::seq_lib::to_multiset_remove(s, i);
            let tr = t.remove(a);
            assert(tr[b - 1] == x);
            assert(tr.contains(x));
            assert(tr.to_multiset().count(x) > 0);
            assert(s.remove(i).to_multiset().count(x) > 0);
            assert(s.remove(i).contains(x));
            let k = choose|k: int| 0 <= k < s.remove(i).len() && s.remove(i)[k] == x;
            let k2 = if k < i { k } else { k + 1 };
            assert(s[k2] == x && k2 != i);
            if i < k2 {
                assert(s[i].0 != s[k2].0);
            } else {
                assert(s[k2].0 != s[i].0);
            }
        }
    }
}

/// Key-ascending sequences with distinct keys and the same elements are
/// equal.
proof fn lemma_key_sorted_unique(a: Seq<(Seq<char>, Seq<char>)>, b: Seq<(Seq<char>, Seq<char>)>)
    requires
        key_ascending(a),
        key_ascending(b),
        distinct_keys(a),
        distinct_keys(b),
        a.to_multiset() == b.to_multiset(),
    ensures
        a == b,
    decreases a.len(),
{
    broadcast use vstd::seq_lib::group_to_multiset_ensures;
    assert(a.len() == b.len()) by {
        assert(a.to_multiset().len() == a.len());
        assert(b.to_multiset().len() == b.len());
    }
    if a.len() == 0 {
        assert(a =~= b);
    } else {
        assert(a.to_multiset().count(a[0]) > 0);
        assert(b.contains(a[0]));
        let j = choose|j: int| 0 <= j < b.len() && b[j] == a[0];
        assert(b.to_multiset().count(b[0]) > 0);
        assert(a.contains(b[0]));
        let k = choose|k: int| 0 <= k < a.len() && a[k] == b[0];
        if j > 0 {
            assert(chars_le(b[0].0, b[j].0));
        } else {
            crate::order::lemma_chars_le_refl(b[0].0);
        }
        if k > 0 {
            assert(chars_le(a[0].0, a[k].0));
        } else {
            crate::order::lemma_chars_le_refl(a[0].0);
        }
        crate::order::lemma_chars_le_antisym(a[0].0, b[0].0);
        if k > 0 {
            assert(a[0].0 != a[k].0);
        }
        assert(a[0] == b[0]);
        let a1 = a.drop_first();
        let b1 = b.drop_first();
        vstd::seq_lib::to_multiset_remove(a, 0);
        vstd::seq_lib::to_multiset_remove(b, 0);
        assert(a.remove(0) =~= a1);
        assert(b.remove(0) =~= b1);
        assert(key_ascending(a1)) by {
            assert forall|x: int, y: int| 0 <= x < y < a1.len() implies chars_le((#[trigger] a1[x]).0, (#[trigger] a1[y]).0) by {
                assert(a1[x] == a[x + 1] && a1[y] == a[y + 1]);
            }
        }
        assert(key_ascending(b1)) by {
            assert forall|x: int, y: int| 0 <= x < y < b1.len() implies chars_le((#[trigger] b1[x]).0, (#[trigger] b1[y]).0) by {
                assert(b1[x] == b[x + 1] && b1[y] == b[y + 1]);
            }
        }
        assert(distinct_keys(a1)) by {
            assert forall|x: int, y: int| 0 <= x < y < a1.len() implies (#[trigger] a1[x]).0 != (#[trigger] a1[y]).0 by {
                assert(a1[x] == a[x + 1] && a1[y] == a[y + 1]);
            }
        }
        assert(distinct_keys(b1)) by {
            assert forall|x: int, y: int| 0 <= x < y < b1.len() implies (#[trigger] b1[x]).0 != (#[trigger] b1[y]).0 by {
                assert(b1[x] == b[x + 1] && b1[y] == b[y + 1]);
            }
        }
        lemma_key_sorted_unique(a1, b1);
        assert forall|x: int| 0 <= x < a.len() implies a[x] == b[x] by {
            if x > 0 {
                assert(a[x] == a1[x - 1] && b[x] == b1[x - 1]);
            }
        }
        assert(a =~= b);
    }
}

/// Law: the signature does not depend on the order of the parameters when
/// their keys are distinct: any rearrangement signs the same.
pub proof fn law_sign_order_free(params: Seq<(Seq<char>, Seq<char>)>, p: Seq<(Seq<char>, Seq<char>)>)
    requires
        distinct_keys(params),
        p.to_multiset() == params.to_multiset(),
    ensures
        spec_sign(p) == spec_sign(params),
{
    lemma_sorted_by_key(p);
    lemma_sorted_by_key(params);
    lemma_distinct_carries(params, sorted_by_key(params));
    lemma_distinct_carries(params, sorted_by_key(p));
    lemma_key_sorted_unique(sorted_by_key(p), sorted_by_key(params));
}

fn sort_pairs_by_key(params: &[(String, String)]) -> (r: Vec<(String, String)>)
    ensures
        pair_views(r@) == sorted_by_key(pair_views(params@)),
{
    let mut out: Vec<(String, String)> = Vec::new();
    let ghost pv = pair_views(params@);
    let mut i: usize = 0;
    assert(pair_views(out@) =~= sorted_by_key(pv.take(0)));
    while i < params.len()
        invariant
            i <= params.len(),
            pv == pair_views(params@),
            pair_views(out@) == sorted_by_key(pv.take(i as int)),
        decreases params.len() - i,
    {
        assert(pv.take(i + 1).drop_last() == pv.take(i as int));
        assert(pv.take(i + 1).last() == (params@[i as int].0@, params@[i as int].1@));
        let k = to_chars(params[i].0.as_str());
        let ghost cur = pair_views(out@);
        let ghost p = (params@[i as int].0@, params@[i as int].1@);
        let mut pos: usize = out.len();
        while pos > 0 && !chars_le_exec(to_chars(out[pos - 1].0.as_str()).as_slice(), k.as_slice())
            invariant
                pos <= out.len(),
                cur == pair_views(out@),
                k@ == p.0,
                forall|j: int| pos <= j < cur.len() ==> !chars_le(#[trigger] cur[j].0, p.0),
            decreases pos,
        {
            assert(cur[pos - 1] == (out@[pos - 1].0@, out@[pos - 1].1@));
            pos = pos - 1;
        }
        proof {
            if pos > 0 {
                assert(cur[pos - 1] == (out@[pos - 1].0@, out@[pos - 1].1@));
            }
            lemma_insert_at(cur, p, pos as int);
        }
        out.insert(pos, (params[i].0.clone(), params[i].1.clone()));
        assert(pair_views(out@) =~= cur.insert(pos as int, p));
        i = i + 1;
    }
    assert(pv.take(params.len() as int) == pv);
    out
}

fn query_exec(pairs: &Vec<(String, String)>) -> (r: String)
    ensures
        r@ == query_of(pair_views(pairs@)),
{
    let mut parts: Vec<String> = Vec::new();
    let mut i: usize = 0;
    while i < pairs.len()
        invariant
            i <= pairs.len(),
            parts@.len() == i,
            forall|k: int|
                0 <= k < i ==> (#[trigger] parts@[k])@ == pairs@[k].0@ + "="@ + pairs@[k].1@,
        decreases pairs.len() - i,
    {
        let mut s = pairs[i].0.clone();
        push_str(&mut s, "=");
        push_str(&mut s, pairs[i].1.as_str());
        parts.push(s);
        i = i + 1;
    }
    assert(views(parts@) =~= pair_views(pairs@).map_values(
        |p: (Seq<char>, Seq<char>)| p.0 + "="@ + p.1,
    ));
    crate::text::join_exec(parts.as_slice(), "&")
}

/// A lower-case hexadecimal digit.
pub open spec fn is_hex_lower(c: char) -> bool {
    ('0' <= c <= '9') || ('a' <= c <= 'f')
}

/// Bytes in hexadecimal take two lower-case digits each.
proof fn lemma_hex_text(b: Seq<u8>)
    ensures
        hex_text(b).len() == 2 * b.len(),
        forall|i: int| 0 <= i < hex_text(b).len() ==> is_hex_lower(#[trigger] hex_text(b)[i]),
    decreases b.len(),
{
    if b.len() > 0 {
        lemma_hex_text(b.drop_last());
        let d1 = (b.last() / 16) as nat;
        let d2 = (b.last() % 16) as nat;
        assert(is_hex_lower(hex_lower(d1)));
        assert(is_hex_lower(hex_lower(d2)));
        let prev = hex_text(b.drop_last());
        assert forall|i: int| 0 <= i < hex_text(b).len() implies is_hex_lower(#[trigger] hex_text(b)[i]) by {
            if i < prev.len() {
                assert(hex_text(b)[i] == prev[i]);
            }
        }
    }
}

/// `build_sign` (see [`spec_sign`]): 32 lower-case hexadecimal digits.
pub fn build_sign(params: &[(String, String)]) -> (r: String)
    ensures
        r@ == spec_sign(pair_views(params@)),
        r@.len() == 32,
        forall|i: int| 0 <= i < r@.len() ==> is_hex_lower(#[trigger] r@[i]),
{
    let sorted = sort_pairs_by_key(params);
    let query = query_exec(&sorted);
    let sha = sha1_digest(bytes_of(query.as_str()).as_slice());
    let sha_hex = hex_encode(sha.as_slice());
    let md = md5_digest(bytes_of(sha_hex.as_str()).as_slice());
    proof {
        lemma_hex_text(md@);
    }
    hex_encode(md.as_slice())
}

// ---------------------------------------------------------------------------
// The list and the feed
// ---------------------------------------------------------------------------

/// The list's query pairs.
pub open spec fn base_params() -> Seq<(Seq<char>, Seq<char>)> {
    seq![("appName"@, "CailianpressWeb"@), ("os"@, "web"@), ("sv"@, "8.7.9"@)]
}

/// The signed address of the hot list.
pub open spec fn list_url() -> Seq<char> {
    let ps = base_params().push(("sign"@, spec_sign(base_params())));
    "https://www.cls.cn/v2/article/hot/list?"@ + query_of(ps)
}

/// The signed address of the hot list (see [`list_url`]).
pub fn request_url() -> (r: String)
    ensures
        r@ == list_url(),
{
    let mut params: Vec<(String, String)> = Vec::new();
    params.push(("appName".to_owned(), "CailianpressWeb".to_owned()));
    params.push(("os".to_owned(), "web".to_owned()));
    params.push(("sv".to_owned(), "8.7.9".to_owned()));
    assert(pair_views(params@) =~= base_params());
    let sign = build_sign(params.as_slice());
    params.push(("sign".to_owned(), sign));
    assert(pair_views(params@) =~= base_params().push(("sign"@, spec_sign(base_params()))));
    cat("https://www.cls.cn/v2/article/hot/list?", query_exec(&params).as_str())
}

/// An article's title: `title`, else `brief`, else nothing.
pub open spec fn title_of(item: Json) -> Seq<char> {
    match json_as_str(json_index(item, "title"@)) {
        Some(t) => t,
        None => member_str(item, "brief"@),
    }
}

fn title_exec(item: &Json) -> (r: String)
    ensures
        r@ == title_of(*item),
{
    match item.str_at("title") {
        Some(t) => t.clone(),
        None => member_str_exec(item, "brief"),
    }
}

/// An article's page.
pub open spec fn detail_link(item: Json) -> Seq<char> {
    "https://www.cls.cn/detail/"@ + dec_int(
        match json_as_i64(json_index(item, "id"@)) {
            Some(n) => n as int,
            None => 0,
        },
    )
}

fn detail_link_exec(item: &Json) -> (r: String)
    ensures
        r@ == detail_link(*item),
{
    let id: i64 = match item.i64_at("id") {
        Some(n) => n,
        None => 0,
    };
    cat("https://www.cls.cn/detail/", i64_to_string(id).as_str())
}

/// The articles shown: those with a title.
pub open spec fn shown(list: Seq<Json>) -> Seq<Json>
    decreases list.len(),
{
    if list.len() == 0 {
        seq![]
    } else {
        shown(list.drop_last()) + if title_of(list.last()).len() > 0 {
            seq![list.last()]
        } else {
            seq![]
        }
    }
}

/// The articles in the list's answer (none where `data` is not a list).
pub open spec fn list_of(json: Json) -> Option<Seq<Json>> {
    match json_index(json, "data"@) {
        Json::Array(a) => Some(a@),
        _ => None,
    }
}

/// The pages to fetch, one per article shown, in order.
pub fn detail_links(json: &Json) -> (r: Vec<String>)
    ensures
        views(r@) == match list_of(*json) {
            Some(l) => shown(l).map_values(|it: Json| detail_link(it)),
            None => seq![],
        },
{
    let mut out: Vec<String> = Vec::new();
    let list = match json.get("data") {
        Some(Json::Array(a)) => a,
        _ => {
            assert(views(out@) =~= Seq::<Seq<char>>::empty());
            return out;
        },
    };
    let mut i: usize = 0;
    assert(views(out@) =~= shown(list@.take(0)).map_values(|it: Json| detail_link(it)));
    while i < list.len()
        invariant
            i <= list.len(),
            views(out@) == shown(list@.take(i as int)).map_values(|it: Json| detail_link(it)),
        decreases list.len() - i,
    {
        assert(list@.take(i + 1).drop_last() == list@.take(i as int));
        assert(list@.take(i + 1).last() == list@[i as int]);
        if !is_empty(title_exec(&list[i]).as_str()) {
            let l = detail_link_exec(&list[i]);
            let ghost before = views(out@);
            out.push(l);
            assert(views(out@) =~= before.push(l@));
            assert(shown(list@.take(i + 1)).map_values(|it: Json| detail_link(it))
                =~= shown(list@.take(i as int)).map_values(|it: Json| detail_link(it)).push(
                detail_link(list@[i as int]),
            ));
        } else {
            assert(shown(list@.take(i + 1)) =~= shown(list@.take(i as int)));
        }
        i = i + 1;
    }
    assert(list@.take(list.len() as int) == list@);
    out
}

/// The `__NEXT_DATA__` script of an article's page (its text), if the page
/// has one.
pub fn next_data_script(html: &str) -> (r: Option<String>)
    ensures
        crate::feed::opt_view(r) == crate::html::first_text(html@, "script#__NEXT_DATA__"@),
{
    crate::html::select_first_text(html, "script#__NEXT_DATA__")
}

/// An article's text from its page's `__NEXT_DATA__` JSON: each picture
/// as `<img src="..."><br>`, then the content; empty where the page had no
/// such data.
pub open spec fn spec_detail(next_data: Option<Json>) -> Seq<char> {
    match next_data {
        None => seq![],
        Some(d) => {
            let article = json_index(json_index(json_index(d, "props"@), "pageProps"@), "articleDetail"@);
            let images = match json_index(article, "images"@) {
                Json::Array(a) => str_images(a@),
                _ => seq![],
            };
            images + member_str(article, "content"@)
        },
    }
}

/// The image tags of the string elements.
pub open spec fn str_images(a: Seq<Json>) -> Seq<char>
    decreases a.len(),
{
    if a.len() == 0 {
        seq![]
    } else {
        str_images(a.drop_last()) + match json_as_str(a.last()) {
            Some(u) => "<img src=\""@ + u + "\"><br>"@,
            None => seq![],
        }
    }
}

/// An article's text (see [`spec_detail`]); `next_data` is the page's
/// `__NEXT_DATA__` script parsed as JSON, `None` where the page could not be
/// fetched, had no such script or it did not parse.
pub fn detail_description(next_data: Option<&Json>) -> (r: String)
    ensures
        r@ == spec_detail(
            match next_data {
                Some(d) => Some(*d),
                None => None,
            },
        ),
{
    let d = match next_data {
        Some(d) => d,
        None => {
            return String::new();
        },
    };
    let null = Json::Null;
    let props = match d.get("props") {
        Some(x) => x,
        None => &null,
    };
    let page = match props.get("pageProps") {
        Some(x) => x,
        None => &null,
    };
    let article = match page.get("articleDetail") {
        Some(x) => x,
        None => &null,
    };
    let mut desc = String::new();
    match article.get("images") {
        Some(Json::Array(a)) => {
            let mut i: usize = 0;
            assert(desc@ =~= str_images(a@.take(0)));
            while i < a.len()
                invariant
                    i <= a.len(),
                    desc@ == str_images(a@.take(i as int)),
                decreases a.len() - i,
            {
                assert(a@.take(i + 1).drop_last() == a@.take(i as int));
                assert(a@.take(i + 1).last() == a@[i as int]);
                let ghost d0 = desc@;
                match a[i].as_str() {
                    Some(u) => {
                        push_str(&mut desc, "<img src=\"");
                        push_str(&mut desc, u.as_str());
                        push_str(&mut desc, "\"><br>");
                        assert(desc@ =~= d0 + ("<img src=\""@ + u@ + "\"><br>"@));
                    },
                    None => {
                        assert(desc@ =~= d0 + Seq::<char>::empty());
                    },
                }
                i = i + 1;
            }
            assert(a@.take(a.len() as int) == a@);
        },
        _ => {},
    }
    push_str(&mut desc, member_str_exec(article, "content").as_str());
    desc
}

/// The item for an article, with its text.
pub open spec fn article_item(item: Json, desc: Seq<char>, now: Seq<char>) -> FeedItemView {
    FeedItemView {
        title: Some(title_of(item)),
        link: Some(detail_link(item)),
        description: Some(desc),
        pub_date: Some(
            or_else(
                ts_rfc2822(
                    match json_as_i64(json_index(item, "ctime"@)) {
                        Some(n) => n,
                        None => 0,
                    },
                ),
                now,
            ),
        ),
        author: Some(member_str(item, "author"@)),
        guid: None,
        categories: seq![],
    }
}

/// The text of the `i`-th article shown (empty where none was given).
pub open spec fn desc_at(descs: Seq<Seq<char>>, i: int) -> Seq<char> {
    if 0 <= i < descs.len() {
        descs[i]
    } else {
        seq![]
    }
}

/// The feed: `descs[i]` is the text of the `i`-th article shown (see
/// [`detail_description`]).
pub open spec fn spec_feed(json: Json, descs: Seq<Seq<char>>, now: Seq<char>) -> Result<
    FeedView,
    Seq<char>,
> {
    match list_of(json) {
        None => Err("找不到 data"@),
        Some(list) => Ok(
            FeedView {
                title: "财联社 - 热门文章排行榜"@,
                link: "https://www.cls.cn"@,
                description: seq![],
                pub_date: None,
                items: Seq::new(
                    shown(list).len(),
                    |i: int| article_item(shown(list)[i], desc_at(descs, i), now),
                ),
            },
        ),
    }
}

/// `get`, after the fetches: the feed for the list's answer and the
/// articles' texts; `now` is the current time in RSS form.
pub fn build_feed(json: &Json, descs: &[String], now: &str) -> (r: Result<Feed, RouteError>)
    ensures
        feed_result_is(r, spec_feed(*json, views(descs@), now@)),
{
    let list = match json.get("data") {
        Some(Json::Array(a)) => a,
        _ => {
            return Err(RouteError::msg("找不到 data"));
        },
    };
    let ghost sh = shown(list@);
    let ghost want = Seq::new(
        sh.len(),
        |i: int| article_item(sh[i], desc_at(views(descs@), i), now@),
    );
    let mut items: Vec<FeedItem> = Vec::new();
    let mut i: usize = 0;
    assert(item_views(items@) =~= want.take(0));
    assert(list@.take(0) == Seq::<Json>::empty());
    while i < list.len()
        invariant
            i <= list.len(),
            sh == shown(list@),
            want == Seq::new(sh.len(), |i: int| article_item(sh[i], desc_at(views(descs@), i), now@)),
            items@.len() == shown(list@.take(i as int)).len(),
            shown(list@.take(i as int)).len() <= sh.len(),
            forall|k: int| 0 <= k < items@.len() ==> (#[trigger] items@[k])@ == want[k],
            shown(list@.take(i as int)) == sh.take(items@.len() as int),
        decreases list.len() - i,
    {
        assert(list@.take(i + 1).drop_last() == list@.take(i as int));
        assert(list@.take(i + 1).last() == list@[i as int]);
        proof {
            lemma_shown_prefix(list@, i as int + 1);
        }
        let item = &list[i];
        let title = title_exec(item);
        if !is_empty(title.as_str()) {
            let n = items.len();
            let desc = if n < descs.len() {
                descs[n].clone()
            } else {
                String::new()
            };
            assert(shown(list@.take(i + 1)) == shown(list@.take(i as int)).push(list@[i as int]));
            assert(shown(list@.take(i + 1)).len() == n + 1);
            assert(shown(list@.take(i + 1)) == sh.take(n + 1));
            assert(sh.take(n + 1)[n as int] == sh[n as int]);
            assert(sh[n as int] == list@[i as int]);
            let pub_ts: i64 = match item.i64_at("ctime") {
                Some(n) => n,
                None => 0,
            };
            let it = FeedItem {
                title: Some(title),
                link: Some(detail_link_exec(item)),
                description: Some(desc),
                pub_date: Some(timestamp_to_rss(pub_ts, now)),
                author: Some(member_str_exec(item, "author")),
                guid: None,
                categories: Vec::new(),
            };
            assert(it@.categories =~= Seq::<Seq<char>>::empty());
            assert(it@ == want[n as int]);
            items.push(it);
        } else {
            assert(shown(list@.take(i + 1)) =~= shown(list@.take(i as int)));
        }
        i = i + 1;
    }
    assert(list@.take(list.len() as int) == list@);
    assert(item_views(items@) =~= want);
    let ghost sv = spec_feed(*json, views(descs@), now@);
    assert(sv->Ok_0.items == item_views(items@));
    Ok(
        Feed {
            title: "财联社 - 热门文章排行榜".to_owned(),
            link: "https://www.cls.cn".to_owned(),
            description: String::new(),
            pub_date: None,
            items,
        },
    )
}

/// The articles shown of a prefix are a prefix of those of the whole.
proof fn lemma_shown_prefix(list: Seq<Json>, n: int)
    requires
        0 <= n <= list.len(),
    ensures
        shown(list.take(n)).len() <= shown(list).len(),
        shown(list.take(n)) == shown(list).take(shown(list.take(n)).len() as int),
    decreases list.len() - n,
{
    if n < list.len() {
        lemma_shown_prefix(list, n + 1);
        assert(list.take(n + 1).drop_last() == list.take(n));
        let a = shown(list.take(n));
        let b = shown(list.take(n + 1));
        let w = shown(list);
        assert(b.take(a.len() as int) =~= a);
        assert(w.take(a.len() as int) =~= b.take(a.len() as int));
    } else {
        assert(list.take(n) == list);
        assert(shown(list).take(shown(list).len() as int) =~= shown(list));
    }
}

/// Law: an article's link, which is also the page fetched for its text, is
/// `https://www.cls.cn/detail/` followed by the decimal of the article's
/// `id` member, and `.../detail/0` where it has no integer id; each item of
/// the feed links so to the article it shows.
pub proof fn law_detail_link_is_id(item: Json, json: Json, descs: Seq<Seq<char>>, now: Seq<char>)
    ensures
        match json_index(item, "id"@) {
            Json::Number(crate::json::JsonNumber::PosInt(u)) => u <= i64::MAX ==> detail_link(item)
                == "https://www.cls.cn/detail/"@ + crate::text::dec(u as nat),
            Json::Number(crate::json::JsonNumber::NegInt(n)) => n < 0 ==> detail_link(item)
                == "https://www.cls.cn/detail/"@ + seq!['-'] + crate::text::dec((-n) as nat),
            _ => true,
        },
        json_as_i64(json_index(item, "id"@)) is None ==> detail_link(item)
            == "https://www.cls.cn/detail/0"@,
        spec_feed(json, descs, now) matches Ok(f) ==> forall|i: int|
            0 <= i < f.items.len() ==> (#[trigger] f.items[i]).link == Some(
                detail_link(shown(list_of(json)->0)[i]),
            ),
{
    reveal_strlit("https://www.cls.cn/detail/");
    reveal_strlit("https://www.cls.cn/detail/0");
    if json_as_i64(json_index(item, "id"@)) is None {
        assert(crate::text::dec(0) == seq!['0']);
        assert(detail_link(item) =~= "https://www.cls.cn/detail/0"@);
    }
    match json_index(item, "id"@) {
        Json::Number(crate::json::JsonNumber::NegInt(n)) => if n < 0 {
            assert(detail_link(item) =~= "https://www.cls.cn/detail/"@ + seq!['-'] + crate::text::dec(
                (-n) as nat,
            ));
        },
        _ => {},
    }
}

/// Law: an article's item is titled by its `title` (its `brief` where it
/// has no title), written by its `author` and dated by its `ctime`.
pub proof fn law_article_fields(item: Json, desc: Seq<char>, now: Seq<char>)
    ensures
        ({
            let s = |k: Seq<char>| match json_index(item, k) {
                Json::Str(t) => t@,
                _ => seq![],
            };
            let it = article_item(item, desc, now);
            &&& it.title == Some(match json_index(item, "title"@) {
                Json::Str(t) => t@,
                _ => s("brief"@),
            })
            &&& it.author == Some(s("author"@))
            &&& it.description == Some(desc)
            &&& it.pub_date == Some(or_else(ts_rfc2822(match json_as_i64(json_index(item, "ctime"@)) {
                Some(n) => n,
                None => 0,
            }), now))
        }),
{
}

} // verus!
