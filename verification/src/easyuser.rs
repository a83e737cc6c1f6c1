//! Small helpers that every route uses: errors with an HTTP status, query
//! parameters, and flag parsing.
use crate::json::{json_as_str, json_get, Json};
use crate::request_rules::RouteError;
use crate::text::{
    contains_seq, contains_str, join, join_exec, dec, find_char_from, first_pos, from_range, owned, push_str, split_once, split_once_exec, str_eq,
    to_chars, trim_char, trim_char_str, u64_to_string, views, drop_leading, drop_trailing, eq_pred,
};
use vstd::prelude::*;

verus! {

/// An error that carries the HTTP status under which it is shown; the
/// rendering layer answers with `status` and `message` as the body.
#[derive(Clone, Debug)]
pub struct HttpError {
    pub status: u16,
    pub message: String,
}

impl HttpError {
    pub fn new(status: u16, message: &str) -> (r: HttpError)
        ensures
            r.status == status,
            r.message@ == message@,
    {
        HttpError { status, message: message.to_owned() }
    }

    pub fn bad_request(message: &str) -> (r: HttpError)
        ensures
            r.status == 400,
            r.message@ == message@,
    {
        Self::new(400, message)
    }

    pub fn not_found(message: &str) -> (r: HttpError)
        ensures
            r.status == 404,
            r.message@ == message@,
    {
        Self::new(404, message)
    }

    pub fn bad_gateway(message: &str) -> (r: HttpError)
        ensures
            r.status == 502,
            r.message@ == message@,
    {
        Self::new(502, message)
    }

    /// The text that `Display` shows: `HTTP {status}: {message}`.
    pub fn to_display(&self) -> (r: String)
        ensures
            r@ == "HTTP "@ + dec(self.status as nat) + ": "@ + self.message@,
    {
        let mut s = owned("HTTP ");
        push_str(&mut s, u64_to_string(self.status as u64).as_str());
        push_str(&mut s, ": ");
        push_str(&mut s, self.message.as_str());
        s
    }
}

// ---------------------------------------------------------------------------
// Query parameters
// ---------------------------------------------------------------------------

/// The map that inserting `pairs` in order into an empty map gives: a later
/// pair with the same key replaces an earlier one.
pub open spec fn assoc(pairs: Seq<(Seq<char>, Seq<char>)>) -> Map<Seq<char>, Seq<char>>
    decreases pairs.len(),
{
    if pairs.len() == 0 {
        Map::empty()
    } else {
        assoc(pairs.drop_last()).insert(pairs.last().0, pairs.last().1)
    }
}

/// The views of a sequence of string pairs.
pub open spec fn pair_views(v: Seq<(String, String)>) -> Seq<(Seq<char>, Seq<char>)> {
    v.map_values(|p: (String, String)| (p.0@, p.1@))
}

/// Query parameters of a request, kept in the order they were inserted.
#[derive(Clone, Debug)]
pub struct Params {
    pub pairs: Vec<(String, String)>,
}

impl View for Params {
    type V = Map<Seq<char>, Seq<char>>;

    open spec fn view(&self) -> Map<Seq<char>, Seq<char>> {
        assoc(pair_views(self.pairs@))
    }
}

/// The last pair of `pairs` with key `k` decides the value of `k`.
pub proof fn lemma_assoc_last(pairs: Seq<(Seq<char>, Seq<char>)>, k: Seq<char>, i: int)
    requires
        0 <= i < pairs.len(),
        pairs[i].0 == k,
        forall|j: int| i < j < pairs.len() ==> pairs[j].0 != k,
    ensures
        assoc(pairs).contains_key(k),
        assoc(pairs)[k] == pairs[i].1,
    decreases pairs.len(),
{
    if i < pairs.len() - 1 {
        lemma_assoc_last(pairs.drop_last(), k, i);
    }
}

/// A key that no pair has is absent.
pub proof fn lemma_assoc_absent(pairs: Seq<(Seq<char>, Seq<char>)>, k: Seq<char>)
    requires
        forall|j: int| 0 <= j < pairs.len() ==> pairs[j].0 != k,
    ensures
        !assoc(pairs).contains_key(k),
    decreases pairs.len(),
{
    if pairs.len() > 0 {
        lemma_assoc_absent(pairs.drop_last(), k);
    }
}

impl Params {
    pub fn new() -> (r: Params)
        ensures
            r@ == Map::<Seq<char>, Seq<char>>::empty(),
            r.pairs@.len() == 0,
    {
        Params { pairs: Vec::new() }
    }

    /// `HashMap::insert`: `key` now maps to `value`.
    pub fn insert(&mut self, key: String, value: String)
        ensures
            final(self)@ == old(self)@.insert(key@, value@),
            pair_views(final(self).pairs@) == pair_views(old(self).pairs@).push((key@, value@)),
    {
        let ghost old_pairs = self.pairs@;
        self.pairs.push((key, value));
        assert(pair_views(self.pairs@).drop_last() == pair_views(old_pairs));
    }

    /// `HashMap::get`.
    pub fn get(&self, key: &str) -> (r: Option<&String>)
        ensures
            match r {
                Some(v) => self@.contains_key(key@) && self@[key@] == v@,
                None => !self@.contains_key(key@),
            },
    {
        let ghost ps = pair_views(self.pairs@);
        let mut i: usize = self.pairs.len();
        while i > 0
            invariant
                i <= self.pairs.len(),
                ps == pair_views(self.pairs@),
                forall|j: int| i <= j < ps.len() ==> ps[j].0 != key@,
            decreases i,
        {
            if str_eq(self.pairs[i - 1].0.as_str(), key) {
                proof {
                    lemma_assoc_last(ps, key@, i - 1);
                }
                return Some(&self.pairs[i - 1].1);
            }
            i = i - 1;
        }
        proof {
            lemma_assoc_absent(ps, key@);
        }
        None
    }
}

/// `str::split(c)`: the pieces between occurrences of `c`, empty ones too.
pub open spec fn split_on(s: Seq<char>, c: char) -> Seq<Seq<char>>
    decreases s.len(),
{
    match first_pos(s, c) {
        Some(i) => {
            if 0 <= i < s.len() {
                seq![s.take(i)] + split_on(s.skip(i + 1), c)
            } else {
                seq![s]
            }
        },
        None => seq![s],
    }
}

/// `str::split(c)`.
pub fn split_exec(s: &str, c: char) -> (r: Vec<String>)
    ensures
        views(r@) == split_on(s@, c),
{
    let v = to_chars(s);
    let n = v.len();
    let mut out: Vec<String> = Vec::new();
    let mut p: usize = 0;
    assert(v@.skip(0) == v@);
    loop
        invariant
            n == v.len(),
            v@ == s@,
            p <= n,
            views(out@) + split_on(v@.skip(p as int), c) == split_on(v@, c),
        decreases n - p,
    {
        let ghost rest = v@.skip(p as int);
        let ghost out0 = out@;
        match find_char_from(v.as_slice(), p, c) {
            Some(k) => {
                let piece = from_range(v.as_slice(), p, k);
                proof {
                    assert(rest.take(k - p) == v@.subrange(p as int, k as int));
                    assert(rest.skip(k - p + 1) == v@.skip(k + 1));
                }
                out.push(piece);
                proof {
                    assert(views(out@) == views(out0).push(piece@));
                    assert(views(out0).push(piece@) + split_on(v@.skip(k + 1), c) == views(out0)
                        + (seq![piece@] + split_on(v@.skip(k + 1), c)));
                }
                p = k + 1;
            },
            None => {
                let piece = from_range(v.as_slice(), p, n);
                out.push(piece);
                proof {
                    assert(split_on(rest, c) == seq![rest]);
                    assert(piece@ == rest);
                    assert(views(out@) == views(out0).push(piece@));
                    assert(views(out0).push(piece@) == views(out0) + seq![rest]);
                }
                return out;
            },
        }
    }
}

/// Whether `b` is an ASCII hexadecimal digit.
pub open spec fn is_hex(b: u8) -> bool {
    (48 <= b <= 57) || (65 <= b <= 70) || (97 <= b <= 102)
}

/// The value of an ASCII hexadecimal digit.
pub open spec fn hex_val(b: u8) -> u8 {
    if 48 <= b <= 57 {
        (b - 48) as u8
    } else if 65 <= b <= 70 {
        (b - 55) as u8
    } else {
        (b - 87) as u8
    }
}

/// Percent-decoding of bytes: `%` followed by two hexadecimal digits becomes
/// the byte they spell; every other byte stays as it is.
pub open spec fn pct_decode(b: Seq<u8>) -> Seq<u8>
    decreases b.len(),
{
    if b.len() == 0 {
        seq![]
    } else if b[0] == 37 && b.len() >= 3 && is_hex(b[1]) && is_hex(b[2]) {
        seq![(hex_val(b[1]) * 16 + hex_val(b[2])) as u8] + pct_decode(b.skip(3))
    } else {
        seq![b[0]] + pct_decode(b.drop_first())
    }
}

/// What `urlencoding::decode` gives for `s`: the percent-decoded bytes read as
/// UTF-8, or nothing where they are not valid UTF-8.
pub open spec fn url_decoded(s: Seq<char>) -> Option<Seq<char>> {
    let b = pct_decode(vstd::utf8::encode_utf8(s));
    if vstd::utf8::valid_utf8(b) {
        Some(vstd::utf8::decode_utf8(b))
    } else {
        None
    }
}

/// `urlencoding::decode`: percent-decodes `s` and reads the bytes as UTF-8;
/// it fails exactly where those bytes are not valid UTF-8. A `+` stays as it is.
#[verifier::external_body]
fn url_decode(s: &str) -> (r: Option<String>)
    ensures
        match r {
            Some(d) => url_decoded(s@) == Some(d@),
            None => url_decoded(s@) is None,
        },
{
    match urlencoding::decode(s) {
        Ok(c) => Some(c.into_owned()),
        Err(_) => None,
    }
}

/// The bytes `urlencoding` leaves as they are: ASCII letters and digits and
/// `-`, `.`, `_`, `~`.
pub open spec fn is_unreserved(b: u8) -> bool {
    (48 <= b <= 57) || (65 <= b <= 90) || (97 <= b <= 122) || b == 45 || b == 46 || b == 95
        || b == 126
}

/// The upper-case hexadecimal digit for `d < 16`.
pub open spec fn hex_digit(d: u8) -> char {
    if d < 10 {
        ((48 + d) as u8) as char
    } else {
        ((55 + d) as u8) as char
    }
}

/// Percent-encoding of bytes: unreserved bytes stay, every other byte
/// becomes `%` and two upper-case hexadecimal digits.
pub open spec fn pct_encode(b: Seq<u8>) -> Seq<char>
    decreases b.len(),
{
    if b.len() == 0 {
        seq![]
    } else {
        (if is_unreserved(b[0]) {
            seq![b[0] as char]
        } else {
            seq!['%', hex_digit(b[0] / 16), hex_digit(b[0] % 16)]
        }) + pct_encode(b.drop_first())
    }
}

/// What `urlencoding::encode` gives for `s`: its UTF-8 bytes percent-encoded.
pub open spec fn url_encoded(s: Seq<char>) -> Seq<char> {
    pct_encode(vstd::utf8::encode_utf8(s))
}

/// `urlencoding::encode`: every UTF-8 byte of `s` except ASCII letters,
/// digits and `-._~` is written as `%XX` with upper-case hexadecimal digits.
#[verifier::external_body]
pub(crate) fn url_encode(s: &str) -> (r: String)
    ensures
        r@ == url_encoded(s@),
{
    urlencoding::encode(s).into_owned()
}

/// The bytes of [`pct_encode`]'s text.
pub open spec fn pct_encode_bytes(b: Seq<u8>) -> Seq<u8>
    decreases b.len(),
{
    if b.len() == 0 {
        seq![]
    } else {
        (if is_unreserved(b[0]) {
            seq![b[0]]
        } else {
            seq![37u8, hex_digit(b[0] / 16) as u8, hex_digit(b[0] % 16) as u8]
        }) + pct_encode_bytes(b.drop_first())
    }
}

pub(crate) proof fn lemma_encode_utf8_concat(x: Seq<char>, y: Seq<char>)
    ensures
        vstd::utf8::encode_utf8(x + y) == vstd::utf8::encode_utf8(x) + vstd::utf8::encode_utf8(y),
    decreases x.len(),
{
    if x.len() > 0 {
        assert((x + y).drop_first() =~= x.drop_first() + y);
        assert((x + y)[0] == x[0]);
        lemma_encode_utf8_concat(x.drop_first(), y);
        assert(vstd::utf8::encode_utf8(x + y) =~= vstd::utf8::encode_utf8(x)
            + vstd::utf8::encode_utf8(y));
    } else {
        assert(x + y =~= y);
    }
}

proof fn lemma_ascii_bytes(c: Seq<char>)
    requires
        vstd::utf8::is_ascii_chars(c),
    ensures
        vstd::utf8::encode_utf8(c) =~= c.map_values(|ch: char| ch as u8),
{
    vstd::utf8::is_ascii_chars_encode_utf8(c);
}

proof fn lemma_hex_digit(d: u8)
    requires
        d < 16,
    ensures
        hex_digit(d) as u32 == (if d < 10 {
            48 + d
        } else {
            55 + d
        }),
        (hex_digit(d) as u32) < 128,
        hex_digit(d) as u8 == (if d < 10 {
            48 + d
        } else {
            55 + d
        }),
        is_hex(hex_digit(d) as u8),
        hex_val(hex_digit(d) as u8) == d,
{
    let v: u8 = if d < 10 {
        (48 + d) as u8
    } else {
        (55 + d) as u8
    };
    assert(hex_digit(d) == v as char);
    assert((v as char) as u8 == v);
}

/// What `pct_encode` writes is ASCII, and its bytes are [`pct_encode_bytes`].
proof fn lemma_pct_encode_ascii(b: Seq<u8>)
    ensures
        vstd::utf8::is_ascii_chars(pct_encode(b)),
        vstd::utf8::encode_utf8(pct_encode(b)) == pct_encode_bytes(b),
    decreases b.len(),
{
    if b.len() > 0 {
        lemma_pct_encode_ascii(b.drop_first());
        let b0 = b[0];
        let head: Seq<char> = if is_unreserved(b0) {
            seq![b0 as char]
        } else {
            seq!['%', hex_digit(b0 / 16), hex_digit(b0 % 16)]
        };
        let hb: Seq<u8> = if is_unreserved(b0) {
            seq![b0]
        } else {
            seq![37u8, hex_digit(b0 / 16) as u8, hex_digit(b0 % 16) as u8]
        };
        if is_unreserved(b0) {
            assert((b0 as char) as u8 == b0);
        } else {
            lemma_hex_digit(b0 / 16);
            lemma_hex_digit(b0 % 16);
        }
        assert(vstd::utf8::is_ascii_chars(head));
        lemma_ascii_bytes(head);
        assert(vstd::utf8::encode_utf8(head) =~= hb);
        assert(pct_encode(b) == head + pct_encode(b.drop_first()));
        lemma_encode_utf8_concat(head, pct_encode(b.drop_first()));
        vstd::utf8::is_ascii_chars_concat(pct_encode(b), head, pct_encode(b.drop_first()));
    }
}

/// Decoding the encoded bytes gives the bytes back.
proof fn lemma_pct_decode_encode(b: Seq<u8>)
    ensures
        pct_decode(pct_encode_bytes(b)) == b,
    decreases b.len(),
{
    if b.len() > 0 {
        lemma_pct_decode_encode(b.drop_first());
        let e = pct_encode_bytes(b);
        let rest = pct_encode_bytes(b.drop_first());
        let b0 = b[0];
        if is_unreserved(b0) {
            assert(e[0] == b0);
            assert(e.drop_first() =~= rest);
            assert(b0 != 37);
        } else {
            lemma_hex_digit(b0 / 16);
            lemma_hex_digit(b0 % 16);
            assert(e.skip(3) =~= rest);
            assert(e[0] == 37 && e[1] == hex_digit(b0 / 16) as u8 && e[2] == hex_digit(b0 % 16) as u8);
            assert((hex_val(e[1]) * 16 + hex_val(e[2])) as u8 == b0);
        }
        assert(b =~= seq![b0] + b.drop_first());
    }
}

/// Law: what `urlencoding::encode` writes, `urlencoding::decode` reads back
/// unchanged, for every string.
pub proof fn law_url_round_trip(s: Seq<char>)
    ensures
        url_decoded(url_encoded(s)) == Some(s),
{
    let b = vstd::utf8::encode_utf8(s);
    lemma_pct_encode_ascii(b);
    lemma_pct_decode_encode(b);
    vstd::utf8::encode_utf8_valid_utf8(s);
    vstd::utf8::encode_utf8_decode_utf8(s);
}

/// The value a query piece contributes: decoded where decoding succeeds,
/// the raw text otherwise.
pub open spec fn decoded_or_raw(v: Seq<char>) -> Seq<char> {
    match url_decoded(v) {
        Some(d) => d,
        None => v,
    }
}

/// The entry one `&`-separated piece of a query adds, if any.
pub open spec fn query_entry(piece: Seq<char>) -> Option<(Seq<char>, Seq<char>)> {
    match split_once(piece, '=') {
        Some((k, v)) => Some((k, decoded_or_raw(v))),
        None => if piece.len() > 0 {
            Some((piece, Seq::<char>::empty()))
        } else {
            None
        },
    }
}

/// The entries of a sequence of query pieces, in order.
pub open spec fn query_entries(pieces: Seq<Seq<char>>) -> Seq<(Seq<char>, Seq<char>)>
    decreases pieces.len(),
{
    if pieces.len() == 0 {
        seq![]
    } else {
        match query_entry(pieces.last()) {
            Some(e) => query_entries(pieces.drop_last()).push(e),
            None => query_entries(pieces.drop_last()),
        }
    }
}

/// The parameters of the query string `q` (`key1=1&key2=2`).
pub open spec fn query_params(q: Seq<char>) -> Seq<(Seq<char>, Seq<char>)> {
    query_entries(split_on(q, '&'))
}

/// Parses `key1=1&key2=2` into parameters; values are percent-decoded where
/// that succeeds, and a piece without `=` maps to the empty string.
pub fn params_to_hashmap(query: &str) -> (r: Params)
    ensures
        pair_views(r.pairs@) == query_params(query@),
        r@ == assoc(query_params(query@)),
{
    let pieces = split_exec(query, '&');
    let ghost pv = views(pieces@);
    let mut params = Params::new();
    let mut i: usize = 0;
    while i < pieces.len()
        invariant
            i <= pieces.len(),
            pv == views(pieces@),
            pair_views(params.pairs@) == query_entries(pv.take(i as int)),
        decreases pieces.len() - i,
    {
        proof {
            assert(pv.take(i + 1).drop_last() == pv.take(i as int));
            assert(pv.take(i + 1).last() == pieces@[i as int]@);
        }
        let piece = &pieces[i];
        match split_once_exec(piece.as_str(), '=') {
            Some((k, v)) => {
                let value = match url_decode(v.as_str()) {
                    Some(d) => d,
                    None => v,
                };
                params.insert(k, value);
            },
            None => {
                let pc = to_chars(piece.as_str());
                if pc.len() > 0 {
                    params.insert(piece.clone(), String::new());
                }
            },
        }
        i = i + 1;
    }
    assert(pv.take(pieces.len() as int) == pv);
    params
}

/// Pair `i` decides its key: no later pair has the same key.
pub open spec fn is_live(pairs: Seq<(Seq<char>, Seq<char>)>, i: int) -> bool {
    forall|j: int| i < j < pairs.len() ==> pairs[j].0 != pairs[i].0
}

/// `key=value` for every deciding pair among the first `n`, concatenated
/// without separators.
pub open spec fn params_text(pairs: Seq<(Seq<char>, Seq<char>)>, n: int) -> Seq<char>
    decreases n,
{
    if n <= 0 {
        seq![]
    } else if is_live(pairs, n - 1) {
        params_text(pairs, n - 1) + pairs[n - 1].0 + "="@ + pairs[n - 1].1
    } else {
        params_text(pairs, n - 1)
    }
}

/// The deciding pairs among the first `n`, in order.
pub open spec fn live_pairs(pairs: Seq<(Seq<char>, Seq<char>)>, n: int) -> Seq<(Seq<char>, Seq<char>)>
    decreases n,
{
    if n <= 0 {
        seq![]
    } else if is_live(pairs, n - 1) {
        live_pairs(pairs, n - 1).push(pairs[n - 1])
    } else {
        live_pairs(pairs, n - 1)
    }
}

/// Pairs written as `key=value`, one after another.
pub open spec fn kv_text(es: Seq<(Seq<char>, Seq<char>)>) -> Seq<char>
    decreases es.len(),
{
    if es.len() == 0 {
        seq![]
    } else {
        kv_text(es.drop_last()) + es.last().0 + "="@ + es.last().1
    }
}

proof fn lemma_live_pairs(pairs: Seq<(Seq<char>, Seq<char>)>, n: int)
    requires
        0 <= n <= pairs.len(),
    ensures
        params_text(pairs, n) == kv_text(live_pairs(pairs, n)),
        forall|e: (Seq<char>, Seq<char>)|
            #[trigger] live_pairs(pairs, n).contains(e) <==> exists|i: int|
                0 <= i < n && is_live(pairs, i) && #[trigger] pairs[i] == e,
        forall|a: int, b: int|
            0 <= a < b < live_pairs(pairs, n).len() ==> #[trigger] live_pairs(pairs, n)[a].0
                != #[trigger] live_pairs(pairs, n)[b].0,
    decreases n,
{
    if n > 0 {
        lemma_live_pairs(pairs, n - 1);
        let prev = live_pairs(pairs, n - 1);
        if is_live(pairs, n - 1) {
            let cur = prev.push(pairs[n - 1]);
            assert(cur.drop_last() =~= prev);
            assert forall|e: (Seq<char>, Seq<char>)| #[trigger] cur.contains(e) <==> exists|i: int|
                0 <= i < n && is_live(pairs, i) && #[trigger] pairs[i] == e by {
                if cur.contains(e) {
                    let k = choose|k: int| 0 <= k < cur.len() && cur[k] == e;
                    if k == cur.len() - 1 {
                        assert(pairs[n - 1] == e);
                    } else {
                        assert(prev[k] == e);
                        assert(prev.contains(e));
                    }
                }
                if exists|i: int| 0 <= i < n && is_live(pairs, i) && #[trigger] pairs[i] == e {
                    let i = choose|i: int| 0 <= i < n && is_live(pairs, i) && #[trigger] pairs[i] == e;
                    if i == n - 1 {
                        assert(cur[cur.len() - 1] == e);
                    } else {
                        assert(prev.contains(e));
                        let k = choose|k: int| 0 <= k < prev.len() && prev[k] == e;
                        assert(cur[k] == e);
                    }
                }
            }
            assert forall|a: int, b: int| 0 <= a < b < cur.len() implies #[trigger] cur[a].0 != #[trigger] cur[b].0 by {
                if b == cur.len() - 1 {
                    assert(cur[a] == prev[a]);
                    assert(prev.contains(prev[a]));
                    let i = choose|i: int| 0 <= i < n - 1 && is_live(pairs, i) && #[trigger] pairs[i] == prev[a];
                    assert(pairs[n - 1].0 != pairs[i].0);
                } else {
                    assert(cur[a] == prev[a] && cur[b] == prev[b]);
                }
            }
        } else {
            assert forall|e: (Seq<char>, Seq<char>)| #[trigger] prev.contains(e) <==> exists|i: int|
                0 <= i < n && is_live(pairs, i) && #[trigger] pairs[i] == e by {
                if exists|i: int| 0 <= i < n && is_live(pairs, i) && #[trigger] pairs[i] == e {
                    let i = choose|i: int| 0 <= i < n && is_live(pairs, i) && #[trigger] pairs[i] == e;
                    assert(i != n - 1);
                }
            }
        }
    }
}

/// A key of the map has a deciding pair.
proof fn lemma_key_has_live(pairs: Seq<(Seq<char>, Seq<char>)>, k: Seq<char>)
    requires
        assoc(pairs).contains_key(k),
    ensures
        exists|i: int| 0 <= i < pairs.len() && is_live(pairs, i) && #[trigger] pairs[i].0 == k,
    decreases pairs.len(),
{
    if pairs.last().0 == k {
        assert(is_live(pairs, pairs.len() - 1));
        assert(pairs[pairs.len() - 1].0 == k);
    } else {
        let d = pairs.drop_last();
        lemma_key_has_live(d, k);
        let i = choose|i: int| 0 <= i < d.len() && is_live(d, i) && #[trigger] d[i].0 == k;
        assert(pairs[i] == d[i]);
        assert forall|j: int| i < j < pairs.len() implies pairs[j].0 != pairs[i].0 by {
            if j < d.len() {
                assert(pairs[j] == d[j]);
            }
        }
        assert(is_live(pairs, i));
    }
}

/// Law: `hashmap_to_params` writes each entry of the map exactly once, as
/// `key=value`, one after another with nothing between them: the text is
/// [`kv_text`] of a list of entries whose keys are distinct, each holding
/// the value the map has for it, and which names every key of the map.
pub proof fn law_params_text_entries(pairs: Seq<(Seq<char>, Seq<char>)>)
    ensures
        exists|es: Seq<(Seq<char>, Seq<char>)>|
            #[trigger] kv_text(es) == params_text(pairs, pairs.len() as int)
            && (forall|a: int, b: int| 0 <= a < b < es.len() ==> #[trigger] es[a].0 != #[trigger] es[b].0)
            && (forall|a: int| 0 <= a < es.len() ==> assoc(pairs).contains_key(#[trigger] es[a].0)
                && assoc(pairs)[es[a].0] == es[a].1)
            && (forall|k: Seq<char>| #[trigger] assoc(pairs).contains_key(k) ==> exists|a: int|
                0 <= a < es.len() && #[trigger] es[a].0 == k),
{
    let n = pairs.len() as int;
    lemma_live_pairs(pairs, n);
    let es = live_pairs(pairs, n);
    assert forall|a: int| 0 <= a < es.len() implies assoc(pairs).contains_key(#[trigger] es[a].0)
        && assoc(pairs)[es[a].0] == es[a].1 by {
        assert(es.contains(es[a]));
        let i = choose|i: int| 0 <= i < n && is_live(pairs, i) && #[trigger] pairs[i] == es[a];
        lemma_assoc_last(pairs, es[a].0, i);
    }
    assert forall|k: Seq<char>| #[trigger] assoc(pairs).contains_key(k) implies exists|a: int|
        0 <= a < es.len() && #[trigger] es[a].0 == k by {
        lemma_key_has_live(pairs, k);
        let i = choose|i: int| 0 <= i < pairs.len() && is_live(pairs, i) && #[trigger] pairs[i].0 == k;
        assert(es.contains(pairs[i]));
        let a = choose|a: int| 0 <= a < es.len() && es[a] == pairs[i];
        assert(es[a].0 == k);
    }
}

/// Writes every parameter as `key=value`, one after another with nothing
/// between them, each key once with the value the map holds for it.
pub fn hashmap_to_params(params: &Params) -> (r: String)
    ensures
        r@ == params_text(pair_views(params.pairs@), params.pairs@.len() as int),
{
    let ghost ps = pair_views(params.pairs@);
    let n = params.pairs.len();
    let mut out = String::new();
    let mut i: usize = 0;
    while i < n
        invariant
            n == params.pairs.len(),
            ps == pair_views(params.pairs@),
            i <= n,
            out@ == params_text(ps, i as int),
        decreases n - i,
    {
        let mut live = true;
        let mut j: usize = i + 1;
        while j < n
            invariant
                n == params.pairs.len(),
                ps == pair_views(params.pairs@),
                i < j <= n,
                live == (forall|k: int| i < k < j ==> ps[k].0 != ps[i as int].0),
            decreases n - j,
        {
            assert(ps[j as int].0 == params.pairs@[j as int].0@);
            assert(ps[i as int].0 == params.pairs@[i as int].0@);
            if str_eq(params.pairs[j].0.as_str(), params.pairs[i].0.as_str()) {
                live = false;
            }
            j = j + 1;
        }
        if live {
            push_str(&mut out, params.pairs[i].0.as_str());
            push_str(&mut out, "=");
            push_str(&mut out, params.pairs[i].1.as_str());
        }
        i = i + 1;
    }
    out
}

/// `1`, `true` and `True` read as true; `0`, `false` and `False` as false;
/// anything else, or no value, gives `default`.
pub open spec fn spec_parse_bool(value: Option<Seq<char>>, default: bool) -> bool {
    match value {
        Some(v) => if v == "1"@ || v == "true"@ || v == "True"@ {
            true
        } else if v == "0"@ || v == "false"@ || v == "False"@ {
            false
        } else {
            default
        },
        None => default,
    }
}

/// Reads a flag parameter.
pub fn parse_bool(value: Option<&String>, default: bool) -> (r: bool)
    ensures
        r == spec_parse_bool(
            match value {
                Some(v) => Some(v@),
                None => None,
            },
            default,
        ),
{
    match value {
        Some(v) => {
            let s = v.as_str();
            if str_eq(s, "1") || str_eq(s, "true") || str_eq(s, "True") {
                true
            } else if str_eq(s, "0") || str_eq(s, "false") || str_eq(s, "False") {
                false
            } else {
                default
            }
        },
        None => default,
    }
}

/// The value of parameter `k`, if it was given.
pub open spec fn param(m: Map<Seq<char>, Seq<char>>, k: Seq<char>) -> Option<Seq<char>> {
    if m.contains_key(k) {
        Some(m[k])
    } else {
        None
    }
}

/// `parse_bool(para.get(key), default)`.
pub fn flag(para: &Params, key: &str, default: bool) -> (r: bool)
    ensures
        r == spec_parse_bool(param(para@, key@), default),
{
    parse_bool(para.get(key), default)
}

/// Removes double quotes at both ends.
pub fn no_double_quotes(s: String) -> (r: String)
    ensures
        r@ == trim_char(s@, '"'),
{
    trim_char_str(s.as_str(), '"')
}

/// The leading run of `c` in `s`: its length, and what remains after it.
proof fn lemma_leading_run(s: Seq<char>, c: char) -> (i: nat)
    ensures
        i <= s.len(),
        drop_leading(s, eq_pred(c)) == s.skip(i as int),
        s.take(i as int) == Seq::new(i, |_k: int| c),
        drop_leading(s, eq_pred(c)).len() > 0 ==> drop_leading(s, eq_pred(c))[0] != c,
    decreases s.len(),
{
    if s.len() > 0 && s[0] == c {
        let k = lemma_leading_run(s.drop_first(), c);
        assert(s.skip(k + 1int) =~= s.drop_first().skip(k as int));
        assert(s.take(k + 1int) =~= seq![c] + s.drop_first().take(k as int));
        assert(Seq::new((k + 1) as nat, |_k: int| c) =~= seq![c] + Seq::new(k, |_k: int| c));
        k + 1
    } else {
        assert(s.skip(0) =~= s);
        assert(s.take(0) =~= Seq::new(0, |_k: int| c));
        0
    }
}

/// The trailing run of `c` in `s`: its length, and what remains before it.
proof fn lemma_trailing_run(s: Seq<char>, c: char) -> (j: nat)
    ensures
        j <= s.len(),
        drop_trailing(s, eq_pred(c)) == s.take(s.len() - j),
        s.skip(s.len() - j) == Seq::new(j, |_k: int| c),
        drop_trailing(s, eq_pred(c)).len() > 0 ==> drop_trailing(s, eq_pred(c)).last() != c,
    decreases s.len(),
{
    if s.len() > 0 && s.last() == c {
        let k = lemma_trailing_run(s.drop_last(), c);
        assert(s.take(s.len() - (k + 1)) =~= s.drop_last().take(s.drop_last().len() - k));
        assert(s.skip(s.len() - (k + 1)) =~= s.drop_last().skip(s.drop_last().len() - k).push(c));
        assert(Seq::new((k + 1) as nat, |_k: int| c) =~= Seq::new(k, |_k: int| c).push(c));
        k + 1
    } else {
        assert(s.take(s.len() as int) =~= s);
        assert(s.skip(s.len() as int) =~= Seq::new(0, |_k: int| c));
        0
    }
}

/// `n` double quotes.
pub open spec fn quotes(n: nat) -> Seq<char> {
    Seq::new(n, |_k: int| '"')
}

/// Law: `no_double_quotes` takes away every leading and every trailing
/// `"` and nothing else: the text is some quotes, the result, and some
/// quotes, and the result neither starts nor ends with a quote.
pub proof fn law_no_double_quotes(s: Seq<char>)
    ensures
        !(trim_char(s, '"').len() > 0 && trim_char(s, '"')[0] == '"'),
        !(trim_char(s, '"').len() > 0 && trim_char(s, '"').last() == '"'),
        exists|i: nat, j: nat| s == #[trigger] quotes(i) + trim_char(s, '"') + #[trigger] quotes(j),
{
    let i = lemma_leading_run(s, '"');
    let m = drop_leading(s, eq_pred('"'));
    let j = lemma_trailing_run(m, '"');
    let r = trim_char(s, '"');
    assert(r == m.take(m.len() - j));
    if r.len() > 0 {
        assert(r[0] == m[0]);
    }
    assert(s =~= s.take(i as int) + m.take(m.len() - j) + m.skip(m.len() - j));
    assert(quotes(i) =~= s.take(i as int));
    assert(quotes(j) =~= m.skip(m.len() - j));
    assert(s == quotes(i) + r + quotes(j));
}

/// The string member `key` of a cookie object.
pub open spec fn cookie_field(c: Json, key: Seq<char>) -> Option<Seq<char>> {
    match json_get(c, key) {
        Some(v) => json_as_str(v),
        None => None,
    }
}

/// The `name=value` pair one entry of `cookies.json` contributes: none where
/// a filter is given and the entry's `domain` does not contain it, or where
/// it lacks a string `name` or `value`.
pub open spec fn cookie_pair(c: Json, filter: Option<Seq<char>>) -> Option<Seq<char>> {
    let domain_ok = match filter {
        None => true,
        Some(f) => match cookie_field(c, "domain"@) {
            Some(d) => contains_seq(d, f),
            None => false,
        },
    };
    if !domain_ok {
        None
    } else {
        match (cookie_field(c, "name"@), cookie_field(c, "value"@)) {
            (Some(n), Some(v)) => Some(n + "="@ + v),
            _ => None,
        }
    }
}

/// The pairs of all entries, in order.
pub open spec fn cookie_pairs(cs: Seq<Json>, filter: Option<Seq<char>>) -> Seq<Seq<char>>
    decreases cs.len(),
{
    if cs.len() == 0 {
        seq![]
    } else {
        let rest = cookie_pairs(cs.drop_last(), filter);
        match cookie_pair(cs.last(), filter) {
            Some(p) => rest.push(p),
            None => rest,
        }
    }
}

/// The message for a cookie file that is not an array.
pub open spec fn cookie_file_message() -> Seq<char> {
    "cookies.json 格式错误, 预期数组"@
}

/// `load_cookie_header`'s reading of `cookies.json`: the pairs joined with
/// `; `, nothing if there are none, and a failure if the file does not hold
/// an array.
pub open spec fn spec_cookie_header(file: Json, filter: Option<Seq<char>>) -> Result<
    Option<Seq<char>>,
    Seq<char>,
> {
    match file {
        Json::Array(cs) => {
            let ps = cookie_pairs(cs@, filter);
            if ps.len() == 0 {
                Ok(None)
            } else {
                Ok(Some(join(ps, "; "@)))
            }
        },
        _ => Err(cookie_file_message()),
    }
}

fn cookie_pair_exec(c: &Json, filter: Option<&str>) -> (r: Option<String>)
    ensures
        opt_view_s(r) == cookie_pair(*c, match filter {
            Some(f) => Some(f@),
            None => None,
        }),
{
    match filter {
        Some(f) => {
            let ok = match c.get("domain") {
                Some(d) => match d.as_str() {
                    Some(ds) => contains_str(ds.as_str(), f),
                    None => false,
                },
                None => false,
            };
            if !ok {
                return None;
            }
        },
        None => {},
    }
    let name = match c.get("name") {
        Some(n) => match n.as_str() {
            Some(t) => t,
            None => return None,
        },
        None => return None,
    };
    let value = match c.get("value") {
        Some(n) => match n.as_str() {
            Some(t) => t,
            None => return None,
        },
        None => return None,
    };
    let mut out = name.clone();
    push_str(&mut out, "=");
    push_str(&mut out, value.as_str());
    Some(out)
}

/// An optional string's view.
pub open spec fn opt_view_s(o: Option<String>) -> Option<Seq<char>> {
    match o {
        Some(s) => Some(s@),
        None => None,
    }
}

/// `load_cookie_header` on the parsed `cookies.json` (see
/// [`spec_cookie_header`]): the `Cookie` header for the entries whose
/// domain contains `domain_filter`, or for all of them.
pub fn cookie_header(file: &Json, domain_filter: Option<&str>) -> (r: Result<Option<String>, RouteError>)
    ensures
        match r {
            Ok(h) => spec_cookie_header(*file, match domain_filter {
                Some(f) => Some(f@),
                None => None,
            }) == Ok::<_, Seq<char>>(opt_view_s(h)),
            Err(RouteError::Message(m)) => spec_cookie_header(*file, match domain_filter {
                Some(f) => Some(f@),
                None => None,
            }) == Err::<Option<Seq<char>>, _>(m@),
            Err(_) => false,
        },
{
    let ghost fv = match domain_filter {
        Some(f) => Some(f@),
        None => None,
    };
    let cs = match file {
        Json::Array(cs) => cs,
        _ => return Err(RouteError::msg("cookies.json 格式错误, 预期数组")),
    };
    let mut pairs: Vec<String> = Vec::new();
    let mut i: usize = 0;
    while i < cs.len()
        invariant
            i <= cs.len(),
            views(pairs@) == cookie_pairs(cs@.take(i as int), fv),
            fv == match domain_filter {
                Some(f) => Some(f@),
                None => None::<Seq<char>>,
            },
        decreases cs.len() - i,
    {
        assert(cs@.take(i + 1).drop_last() =~= cs@.take(i as int));
        assert(cs@.take(i + 1).last() == cs@[i as int]);
        let got = cookie_pair_exec(&cs[i], domain_filter);
        assert(opt_view_s(got) == cookie_pair(cs@[i as int], fv));
        match got {
            Some(p) => {
                let ghost before = views(pairs@);
                let ghost pv = p@;
                pairs.push(p);
                assert(views(pairs@) =~= before.push(pv));
            },
            None => {},
        }
        i = i + 1;
    }
    assert(cs@.take(cs.len() as int) =~= cs@);
    if pairs.len() == 0 {
        Ok(None)
    } else {
        Ok(Some(join_exec(pairs.as_slice(), "; ")))
    }
}

} // verus!
