//! The cache of upstream responses that rate-limits routes.
//!
//! A route configured with an interval answers repeated upstream requests
//! from the cache for that long. Entries carry the time they were stored;
//! the caller passes the current time in milliseconds of a monotonic clock.
//! Each request runs in a scope that records the keys it used, so that a
//! failing route can drop exactly those entries.
use crate::order::{chars_le_exec, lemma_pair_order_total, lemma_sort_is, pair_le, pair_order};
use crate::text::{chars_eq, from_chars, join, join_exec, push_str, str_eq, to_chars, views};
use vstd::prelude::*;
use vstd::multiset::Multiset;
use vstd::relations::sorted_by;

verus! {

// ---------------------------------------------------------------------------
// Cache keys
// ---------------------------------------------------------------------------

/// The views of a list of header pairs.
pub open spec fn header_views(h: Seq<(&str, &str)>) -> Seq<(Seq<char>, Seq<char>)> {
    h.map_values(|p: (&str, &str)| (p.0@, p.1@))
}

/// The views of a list of character-vector pairs.
pub open spec fn item_views(v: Seq<(Vec<char>, Vec<char>)>) -> Seq<(Seq<char>, Seq<char>)> {
    v.map_values(|p: (Vec<char>, Vec<char>)| (p.0@, p.1@))
}

/// `name=value` for one header.
pub open spec fn header_text(p: (Seq<char>, Seq<char>)) -> Seq<char> {
    p.0 + "="@ + p.1
}

/// The cache key of an upstream request: method and URL, and when there are
/// headers, the headers sorted and written `name=value`, joined with `&`.
/// Equal requests get equal keys whatever the order of their headers.
pub open spec fn spec_make_key(
    method: Seq<char>,
    url: Seq<char>,
    headers: Seq<(Seq<char>, Seq<char>)>,
) -> Seq<char> {
    if headers.len() == 0 {
        method + "|"@ + url
    } else {
        method + "|"@ + url + "|"@ + join(
            headers.sort_by(pair_order()).map_values(|p: (Seq<char>, Seq<char>)| header_text(p)),
            "&"@,
        )
    }
}

fn pair_le_exec(p: &(Vec<char>, Vec<char>), q: &(Vec<char>, Vec<char>)) -> (r: bool)
    ensures
        r == pair_le((p.0@, p.1@), (q.0@, q.1@)),
{
    let first_le = chars_le_exec(p.0.as_slice(), q.0.as_slice());
    let first_eq = chars_eq(p.0.as_slice(), q.0.as_slice());
    (first_le && !first_eq) || (first_eq && chars_le_exec(p.1.as_slice(), q.1.as_slice()))
}

/// Sorts pairs under the pair order.
fn sort_pairs(items: Vec<(Vec<char>, Vec<char>)>) -> (r: Vec<(Vec<char>, Vec<char>)>)
    ensures
        sorted_by(item_views(r@), pair_order()),
        item_views(r@).to_multiset() == item_views(items@).to_multiset(),
{
    broadcast use vstd::seq_lib::group_to_multiset_ensures;

    proof {
        lemma_pair_order_total();
    }
    let ghost ord = pair_order();
    let ghost all = item_views(items@);
    let mut rest = items;
    let mut out: Vec<(Vec<char>, Vec<char>)> = Vec::new();
    assert(item_views(out@) =~= Seq::<(Seq<char>, Seq<char>)>::empty());
    while rest.len() > 0
        invariant
            vstd::relations::total_ordering(ord),
            ord == pair_order(),
            sorted_by(item_views(out@), ord),
            item_views(out@).to_multiset().add(item_views(rest@).to_multiset()) == all.to_multiset(),
        decreases rest.len(),
    {
        let ghost rest0 = item_views(rest@);
        let ghost out0 = item_views(out@);
        let x = rest.pop().unwrap();
        let ghost xv = (x.0@, x.1@);
        proof {
            assert(rest0 == item_views(rest@).push(xv));
            vstd::seq_lib::to_multiset_build(item_views(rest@), xv);
        }
        let mut pos: usize = 0;
        while pos < out.len() && pair_le_exec(&out[pos], &x)
            invariant
                pos <= out.len(),
                out0 == item_views(out@),
                xv == (x.0@, x.1@),
                forall|j: int| 0 <= j < pos ==> pair_le(#[trigger] out0[j], xv),
            decreases out.len() - pos,
        {
            assert(out0[pos as int] == (out@[pos as int].0@, out@[pos as int].1@));
            pos = pos + 1;
        }
        proof {
            if pos < out0.len() {
                assert(!pair_le(out0[pos as int], xv));
                assert(ord(out0[pos as int], xv) || ord(xv, out0[pos as int]));
                assert forall|k: int| pos <= k < out0.len() implies pair_le(
                    xv,
                    #[trigger] out0[k],
                ) by {
                    if k > pos {
                        assert(ord(out0[pos as int], out0[k]));
                        assert(ord(xv, out0[pos as int]));
                    }
                }
            }
        }
        out.insert(pos, x);
        proof {
            let n = item_views(out@);
            assert(n == out0.insert(pos as int, xv));
            vstd::seq_lib::to_multiset_insert(out0, pos as int, xv);
            assert forall|i: int, j: int| 0 <= i < j < n.len() implies #[trigger] ord(
                n[i],
                n[j],
            ) by {
                if j < pos {
                    assert(ord(out0[i], out0[j]));
                } else if j == pos {
                    assert(pair_le(out0[i], xv));
                } else if i < pos {
                    assert(ord(out0[i], xv));
                    assert(ord(xv, out0[j - 1]));
                } else if i == pos {
                    assert(pair_le(xv, out0[j - 1]));
                } else {
                    assert(ord(out0[i - 1], out0[j - 1]));
                }
            }
            assert(item_views(out@).to_multiset() == out0.to_multiset().insert(xv));
            assert(rest0.to_multiset() == item_views(rest@).to_multiset().insert(xv));
            assert(item_views(out@).to_multiset().add(item_views(rest@).to_multiset())
                =~= out0.to_multiset().add(rest0.to_multiset()));
        }
    }
    assert(item_views(rest@).to_multiset() =~= Multiset::empty());
    assert(item_views(out@).to_multiset().add(Multiset::empty()) =~= item_views(out@).to_multiset());
    out
}

/// `cache`: the shared response cache as it starts, empty. The server
/// keeps one instance for all requests.
pub fn cache() -> (r: ResponseCache)
    ensures
        r@ == Map::<Seq<char>, (u64, Seq<char>)>::empty(),
{
    ResponseCache::new()
}

/// Builds the cache key of an upstream request.
pub fn make_key(method: &str, url: &str, headers: &[(&str, &str)]) -> (r: String)
    ensures
        r@ == spec_make_key(method@, url@, header_views(headers@)),
{
    let mut key = method.to_owned();
    push_str(&mut key, "|");
    push_str(&mut key, url);
    if headers.len() == 0 {
        return key;
    }
    let mut items: Vec<(Vec<char>, Vec<char>)> = Vec::new();
    let mut i: usize = 0;
    while i < headers.len()
        invariant
            i <= headers.len(),
            item_views(items@) == header_views(headers@).take(i as int),
        decreases headers.len() - i,
    {
        let (k, v) = headers[i];
        items.push((to_chars(k), to_chars(v)));
        assert(header_views(headers@).take(i + 1) == header_views(headers@).take(i as int).push(
            (k@, v@),
        ));
        i = i + 1;
    }
    assert(header_views(headers@).take(headers.len() as int) == header_views(headers@));
    let sorted = sort_pairs(items);
    let ghost sv = item_views(sorted@);
    proof {
        lemma_sort_is(header_views(headers@), sv);
    }
    let mut texts: Vec<String> = Vec::new();
    let mut j: usize = 0;
    while j < sorted.len()
        invariant
            j <= sorted.len(),
            sv == item_views(sorted@),
            views(texts@) == sv.take(j as int).map_values(
                |p: (Seq<char>, Seq<char>)| header_text(p),
            ),
        decreases sorted.len() - j,
    {
        let mut t = from_chars(sorted[j].0.as_slice());
        push_str(&mut t, "=");
        push_str(&mut t, from_chars(sorted[j].1.as_slice()).as_str());
        let ghost tv = t@;
        texts.push(t);
        proof {
            assert(tv == header_text(sv[j as int]));
            assert(sv.take(j + 1).map_values(|p: (Seq<char>, Seq<char>)| header_text(p))
                == sv.take(j as int).map_values(|p: (Seq<char>, Seq<char>)| header_text(p)).push(
                tv,
            ));
            assert(views(texts@) == views(texts@.drop_last()).push(tv));
        }
        j = j + 1;
    }
    assert(sv.take(sorted.len() as int) == sv);
    push_str(&mut key, "|");
    push_str(&mut key, join_exec(texts.as_slice(), "&").as_str());
    key
}

/// Equal requests get equal cache keys, whatever the order of their headers.
pub proof fn law_key_ignores_header_order(
    method: Seq<char>,
    url: Seq<char>,
    h1: Seq<(Seq<char>, Seq<char>)>,
    h2: Seq<(Seq<char>, Seq<char>)>,
)
    requires
        h1.to_multiset() == h2.to_multiset(),
    ensures
        spec_make_key(method, url, h1) == spec_make_key(method, url, h2),
{
    broadcast use vstd::seq_lib::group_to_multiset_ensures;

    lemma_pair_order_total();
    h1.lemma_sort_by_ensures(pair_order());
    h2.lemma_sort_by_ensures(pair_order());
    lemma_sort_is(h2, h1.sort_by(pair_order()));
    assert(h1.len() == h1.to_multiset().len());
    assert(h2.len() == h2.to_multiset().len());
}

// ---------------------------------------------------------------------------
// The cache
// ---------------------------------------------------------------------------

/// How long an entry lives before the periodic sweep removes it (600 s).
pub const SWEEP_MAX_AGE_MS: u64 = 600000;

/// Time passed since `created`; zero if the clock reads earlier, as
/// `Instant::elapsed` saturates.
pub open spec fn elapsed(now: u64, created: u64) -> int {
    if now >= created {
        now - created
    } else {
        0
    }
}

/// One cached upstream response.
#[derive(Debug)]
pub struct CacheEntry {
    pub key: String,
    pub created: u64,
    pub body: String,
}

/// The cached responses, at most one per key.
#[derive(Debug)]
pub struct ResponseCache {
    entries: Vec<CacheEntry>,
}

/// The views of the entries: key, time stored, body.
pub open spec fn entry_views(v: Seq<CacheEntry>) -> Seq<(Seq<char>, u64, Seq<char>)> {
    v.map_values(|e: CacheEntry| (e.key@, e.created, e.body@))
}

/// No key occurs twice.
pub open spec fn distinct_keys(s: Seq<(Seq<char>, u64, Seq<char>)>) -> bool {
    forall|i: int, j: int| 0 <= i < j < s.len() ==> #[trigger] s[i].0 != #[trigger] s[j].0
}

/// Some entry has key `k`.
pub open spec fn has_key(s: Seq<(Seq<char>, u64, Seq<char>)>, k: Seq<char>) -> bool {
    exists|i: int| 0 <= i < s.len() && (#[trigger] s[i]).0 == k
}

/// The position of the entry with key `k`.
pub open spec fn key_index(s: Seq<(Seq<char>, u64, Seq<char>)>, k: Seq<char>) -> int {
    choose|i: int| 0 <= i < s.len() && (#[trigger] s[i]).0 == k
}

/// The map from key to (time stored, body).
pub open spec fn entries_map(s: Seq<(Seq<char>, u64, Seq<char>)>) -> Map<Seq<char>, (u64, Seq<char>)> {
    Map::new(
        |k: Seq<char>| has_key(s, k),
        |k: Seq<char>| (s[key_index(s, k)].1, s[key_index(s, k)].2),
    )
}

proof fn lemma_key_index(s: Seq<(Seq<char>, u64, Seq<char>)>, k: Seq<char>, i: int)
    requires
        distinct_keys(s),
        0 <= i < s.len(),
        s[i].0 == k,
    ensures
        has_key(s, k),
        key_index(s, k) == i,
        entries_map(s).contains_key(k),
        entries_map(s)[k] == (s[i].1, s[i].2),
{
    assert(has_key(s, k));
    let j = key_index(s, k);
    if j != i {
        if j < i {
            assert(s[j].0 != s[i].0);
        } else {
            assert(s[i].0 != s[j].0);
        }
    }
}

impl View for ResponseCache {
    type V = Map<Seq<char>, (u64, Seq<char>)>;

    closed spec fn view(&self) -> Map<Seq<char>, (u64, Seq<char>)> {
        entries_map(entry_views(self.entries@))
    }
}

/// The request scope: the caching interval of the route being served and
/// the keys it has used so far.
#[derive(Debug)]
pub struct CacheScope {
    pub ttl: Option<u64>,
    pub touched: Vec<String>,
}

impl CacheScope {
    /// A fresh scope for a request (what `with_cache_scope` opens).
    pub fn new(ttl: Option<u64>) -> (r: CacheScope)
        ensures
            r.ttl == ttl,
            r.touched@.len() == 0,
    {
        CacheScope { ttl, touched: Vec::new() }
    }
}

/// The caching interval of the current request, if it runs in a scope.
pub fn current_ttl(scope: &Option<CacheScope>) -> (r: Option<u64>)
    ensures
        r == match scope {
            Some(s) => s.ttl,
            None => None,
        },
{
    match scope {
        Some(s) => s.ttl,
        None => None,
    }
}

/// The touched keys of a scope, or nothing outside a scope.
pub open spec fn touched_of(scope: Option<CacheScope>) -> Seq<Seq<char>> {
    match scope {
        Some(s) => views(s.touched@),
        None => seq![],
    }
}

/// Records that the current request used `key`.
pub fn record_touched(scope: &mut Option<CacheScope>, key: &str)
    ensures
        (*final(scope)) is Some == (*old(scope)) is Some,
        (*old(scope)) is Some ==> touched_of(*final(scope)) == touched_of(*old(scope)).push(key@),
        (*old(scope)) is None ==> touched_of(*final(scope)) == touched_of(*old(scope)),
        (*final(scope)) is Some ==> (*final(scope))->0.ttl == (*old(scope))->0.ttl,
{
    match scope.take() {
        Some(mut s) => {
            let ghost t0 = views(s.touched@);
            s.touched.push(key.to_owned());
            assert(views(s.touched@) == t0.push(key@));
            *scope = Some(s);
        },
        None => {},
    }
}

/// What a lookup answers: the body when the entry is younger than `ttl`.
pub open spec fn spec_lookup(
    m: Map<Seq<char>, (u64, Seq<char>)>,
    k: Seq<char>,
    ttl: u64,
    now: u64,
) -> Option<Seq<char>> {
    if m.contains_key(k) && elapsed(now, m[k].0) < ttl {
        Some(m[k].1)
    } else {
        None
    }
}

/// The cache after a lookup: a miss removes the (stale) entry.
pub open spec fn spec_after_lookup(
    m: Map<Seq<char>, (u64, Seq<char>)>,
    k: Seq<char>,
    ttl: u64,
    now: u64,
) -> Map<Seq<char>, (u64, Seq<char>)> {
    if spec_lookup(m, k, ttl, now) is Some {
        m
    } else {
        m.remove(k)
    }
}

impl ResponseCache {
    /// The entries are well formed: one per key. Every cache keeps this.
    #[verifier::type_invariant]
    spec fn wf(&self) -> bool {
        distinct_keys(entry_views(self.entries@))
    }

    /// An empty cache.
    pub fn new() -> (r: ResponseCache)
        ensures
            r@ == Map::<Seq<char>, (u64, Seq<char>)>::empty(),
    {
        let r = ResponseCache { entries: Vec::new() };
        assert(r@ =~= Map::<Seq<char>, (u64, Seq<char>)>::empty());
        r
    }

    /// The number of entries.
    pub fn len(&self) -> (r: usize)
        ensures
            r == self@.dom().len(),
    {
        proof {
            use_type_invariant(self);
        }
        let ghost s = entry_views(self.entries@);
        proof {
            lemma_dom_len(s);
        }
        self.entries.len()
    }

    fn position(&self, key: &str) -> (r: Option<usize>)
        ensures
            match r {
                Some(i) => i < self.entries@.len() && entry_views(self.entries@)[i as int].0
                    == key@,
                None => !has_key(entry_views(self.entries@), key@),
            },
    {
        let ghost s = entry_views(self.entries@);
        let mut i: usize = 0;
        while i < self.entries.len()
            invariant
                i <= self.entries.len(),
                s == entry_views(self.entries@),
                forall|j: int| 0 <= j < i ==> s[j].0 != key@,
            decreases self.entries.len() - i,
        {
            assert(s[i as int].0 == self.entries@[i as int].key@);
            if str_eq(self.entries[i].key.as_str(), key) {
                return Some(i);
            }
            i = i + 1;
        }
        None
    }

    fn remove_key(&mut self, key: &str)
        ensures
            final(self)@ == old(self)@.remove(key@),
    {
        proof {
            use_type_invariant(&*self);
        }
        let ghost s0 = entry_views(self.entries@);
        match self.position(key) {
            Some(i) => {
                let mut es: Vec<CacheEntry> = Vec::new();
                std::mem::swap(&mut es, &mut self.entries);
                es.remove(i);
                proof {
                    let s1 = entry_views(es@);
                    assert(s1 == s0.remove(i as int));
                    assert(distinct_keys(s1)) by {
                        assert forall|a: int, b: int| 0 <= a < b < s1.len() implies #[trigger] s1[a].0
                            != #[trigger] s1[b].0 by {
                            let a0 = if a < i { a } else { a + 1 };
                            let b0 = if b < i { b } else { b + 1 };
                            assert(s1[a] == s0[a0]);
                            assert(s1[b] == s0[b0]);
                            assert(s0[a0].0 != s0[b0].0);
                        }
                    }
                }
                self.entries = es;
                proof {
                    let s1 = entry_views(self.entries@);
                    assert forall|k: Seq<char>| #[trigger] has_key(s1, k) == (has_key(s0, k) && k
                        != key@) by {
                        if has_key(s1, k) {
                            let a = choose|a: int| 0 <= a < s1.len() && (#[trigger] s1[a]).0 == k;
                            let a0 = if a < i { a } else { a + 1 };
                            assert(s1[a] == s0[a0]);
                            assert(s0[a0].0 != s0[i as int].0);
                        }
                        if has_key(s0, k) && k != key@ {
                            let a0 = choose|a: int| 0 <= a < s0.len() && (#[trigger] s0[a]).0 == k;
                            assert(a0 != i);
                            let a = if a0 < i { a0 } else { a0 - 1 };
                            assert(s1[a] == s0[a0]);
                        }
                    }
                    assert forall|k: Seq<char>| #[trigger] has_key(s1, k) implies entries_map(s1)[k]
                        == entries_map(s0)[k] by {
                        let a = key_index(s1, k);
                        let a0 = if a < i { a } else { a + 1 };
                        assert(s1[a] == s0[a0]);
                        lemma_key_index(s0, k, a0);
                    }
                    assert(entries_map(s1) =~= entries_map(s0).remove(key@));
                }
            },
            None => {
                assert(entries_map(s0) =~= entries_map(s0).remove(key@));
            },
        }
    }

    /// `get_cached`: the body cached under `key` if it is younger than
    /// `ttl`, recording the key in the scope; otherwise nothing, and the
    /// stale entry is dropped.
    pub fn get_cached(&mut self, scope: &mut Option<CacheScope>, key: &str, ttl: u64, now: u64) -> (r:
        Option<String>)
        ensures
            match r {
                Some(b) => spec_lookup(old(self)@, key@, ttl, now) == Some(b@),
                None => spec_lookup(old(self)@, key@, ttl, now) is None,
            },
            final(self)@ == spec_after_lookup(old(self)@, key@, ttl, now),
            (*final(scope)) is Some == (*old(scope)) is Some,
            (*final(scope)) is Some ==> (*final(scope))->0.ttl == (*old(scope))->0.ttl,
            touched_of(*final(scope)) == if r is Some && (*old(scope)) is Some {
                touched_of(*old(scope)).push(key@)
            } else {
                touched_of(*old(scope))
            },
    {
        proof {
            use_type_invariant(&*self);
        }
        let ghost s0 = entry_views(self.entries@);
        match self.position(key) {
            Some(i) => {
                proof {
                    lemma_key_index(s0, key@, i as int);
                    assert(s0[i as int] == (self.entries@[i as int].key@, self.entries@[i as int].created, self.entries@[i as int].body@));
                }
                let created = self.entries[i].created;
                let fresh = if now >= created {
                    now - created < ttl
                } else {
                    0 < ttl
                };
                if fresh {
                    let body = self.entries[i].body.clone();
                    record_touched(scope, key);
                    proof {
                        assert(self@ =~= spec_after_lookup(old(self)@, key@, ttl, now));
                    }
                    return Some(body);
                }
            },
            None => {},
        }
        self.remove_key(key);
        None
    }

    /// `store`: caches `body` under `key` as of `now` and records the key.
    pub fn store(&mut self, scope: &mut Option<CacheScope>, key: &str, body: &str, now: u64)
        ensures
            final(self)@ == old(self)@.insert(key@, (now, body@)),
            (*final(scope)) is Some == (*old(scope)) is Some,
            (*final(scope)) is Some ==> (*final(scope))->0.ttl == (*old(scope))->0.ttl,
            touched_of(*final(scope)) == if (*old(scope)) is Some {
                touched_of(*old(scope)).push(key@)
            } else {
                touched_of(*old(scope))
            },
    {
        proof {
            use_type_invariant(&*self);
        }
        self.remove_key(key);
        let ghost s1 = entry_views(self.entries@);
        let ghost m1 = self@;
        proof {
            use_type_invariant(&*self);
        }
        let mut es: Vec<CacheEntry> = Vec::new();
        std::mem::swap(&mut es, &mut self.entries);
        es.push(CacheEntry { key: key.to_owned(), created: now, body: body.to_owned() });
        proof {
            let s2 = entry_views(es@);
            let n = s1.len();
            assert(s2 == s1.push((key@, now, body@)));
            assert(!has_key(s1, key@)) by {
                if has_key(s1, key@) {
                    let a = choose|a: int| 0 <= a < s1.len() && (#[trigger] s1[a]).0 == key@;
                    lemma_key_index(s1, key@, a);
                }
            }
            assert(distinct_keys(s2)) by {
                assert forall|a: int, b: int| 0 <= a < b < s2.len() implies #[trigger] s2[a].0
                    != #[trigger] s2[b].0 by {
                    if b == n {
                        assert(s2[a] == s1[a]);
                        assert(s1[a].0 != key@) by {
                            if s1[a].0 == key@ {
                                assert(has_key(s1, key@));
                            }
                        }
                    } else {
                        assert(s2[a] == s1[a]);
                        assert(s2[b] == s1[b]);
                    }
                }
            }
            lemma_key_index(s2, key@, n as int);
            assert forall|k: Seq<char>| #[trigger] has_key(s2, k) == (has_key(s1, k) || k == key@)
                by {
                if has_key(s2, k) {
                    let a = choose|a: int| 0 <= a < s2.len() && (#[trigger] s2[a]).0 == k;
                    if a < n {
                        assert(s2[a] == s1[a]);
                    }
                }
                if has_key(s1, k) {
                    let a = choose|a: int| 0 <= a < s1.len() && (#[trigger] s1[a]).0 == k;
                    assert(s2[a] == s1[a]);
                }
            }
            assert forall|k: Seq<char>| #[trigger] has_key(s1, k) implies entries_map(s2)[k]
                == entries_map(s1)[k] by {
                let a = key_index(s1, k);
                assert(s2[a] == s1[a]);
                lemma_key_index(s2, k, a);
            }
        }
        self.entries = es;
        assert(self@ =~= m1.insert(key@, (now, body@)));
        record_touched(scope, key);
    }

    /// Keeps exactly the entries whose key `keep` accepts.
    fn retain_keys(&mut self, drop: &Vec<String>)
        ensures
            final(self)@ == old(self)@.remove_keys(views(drop@).to_set()),
    {
        proof {
            use_type_invariant(&*self);
        }
        let ghost s0 = entry_views(self.entries@);
        let ghost d = views(drop@).to_set();
        let mut old_entries: Vec<CacheEntry> = Vec::new();
        std::mem::swap(&mut old_entries, &mut self.entries);
        assert(entry_views(old_entries@) == s0);
        let mut kept: Vec<CacheEntry> = Vec::new();
        // positions of s0 that were kept, in order
        let ghost mut pos: Seq<int> = seq![];
        let ghost mut i: int = 0;
        for e in it: old_entries
            invariant
                it.seq() == old_entries@,
                i == it.index(),
                s0 == entry_views(old_entries@),
                distinct_keys(s0),
                d == views(drop@).to_set(),
                pos.len() == kept@.len(),
                forall|a: int| 0 <= a < pos.len() ==> 0 <= #[trigger] pos[a] < i,
                forall|a: int, b: int| 0 <= a < b < pos.len() ==> #[trigger] pos[a] < #[trigger] pos[b],
                forall|a: int| 0 <= a < pos.len() ==> entry_views(kept@)[a] == s0[#[trigger] pos[a]],
                forall|a: int| 0 <= a < pos.len() ==> !d.contains(s0[#[trigger] pos[a]].0),
                forall|j: int| 0 <= j < i && !d.contains(#[trigger] s0[j].0) ==> exists|a: int|
                    0 <= a < pos.len() && pos[a] == j,
        {
            assert(s0[i] == (e.key@, e.created, e.body@));
            let ghost pos0 = pos;
            let mut dropped = false;
            let mut j: usize = 0;
            while j < drop.len()
                invariant
                    j <= drop.len(),
                    dropped == exists|t: int| 0 <= t < j && (#[trigger] drop@[t])@ == e.key@,
                decreases drop.len() - j,
            {
                if str_eq(drop[j].as_str(), e.key.as_str()) {
                    dropped = true;
                }
                j = j + 1;
            }
            proof {
                if dropped {
                    let t = choose|t: int| 0 <= t < drop.len() && (#[trigger] drop@[t])@ == e.key@;
                    assert(views(drop@)[t] == e.key@);
                    assert(d.contains(e.key@));
                } else {
                    assert(!d.contains(e.key@)) by {
                        if d.contains(e.key@) {
                            let t = choose|t: int| 0 <= t < views(drop@).len() && views(drop@)[t] == e.key@;
                            assert(drop@[t]@ == e.key@);
                        }
                    }
                }
            }
            if !dropped {
                let ghost kv = entry_views(kept@);
                kept.push(e);
                proof {
                    assert(entry_views(kept@) == kv.push(s0[i]));
                    pos = pos.push(i);
                }
            }
            proof {
                assert forall|j: int| 0 <= j < i + 1 && !d.contains(#[trigger] s0[j].0) implies exists|
                    a: int,
                | 0 <= a < pos.len() && pos[a] == j by {
                    if j < i {
                        let a = choose|a: int| 0 <= a < pos0.len() && pos0[a] == j;
                        assert(pos[a] == j);
                    } else {
                        assert(pos[pos.len() - 1] == j);
                    }
                }
            }
            proof {
                i = i + 1;
            }
        }
        proof {
            let s1 = entry_views(kept@);
            assert(distinct_keys(s1)) by {
                assert forall|a: int, b: int| 0 <= a < b < s1.len() implies #[trigger] s1[a].0
                    != #[trigger] s1[b].0 by {
                    assert(s1[a] == s0[pos[a]]);
                    assert(s1[b] == s0[pos[b]]);
                    assert(pos[a] < pos[b]);
                }
            }
        }
        self.entries = kept;
        proof {
            let s1 = entry_views(self.entries@);
            assert forall|k: Seq<char>| #[trigger] has_key(s1, k) == (has_key(s0, k) && !d.contains(k))
                by {
                if has_key(s1, k) {
                    let a = choose|a: int| 0 <= a < s1.len() && (#[trigger] s1[a]).0 == k;
                    assert(s1[a] == s0[pos[a]]);
                }
                if has_key(s0, k) && !d.contains(k) {
                    let j = choose|j: int| 0 <= j < s0.len() && (#[trigger] s0[j]).0 == k;
                    let a = choose|a: int| 0 <= a < pos.len() && pos[a] == j;
                    assert(s1[a] == s0[pos[a]]);
                }
            }
            assert forall|k: Seq<char>| #[trigger] has_key(s1, k) implies entries_map(s1)[k]
                == entries_map(s0)[k] by {
                let a = key_index(s1, k);
                assert(s1[a] == s0[pos[a]]);
                lemma_key_index(s1, k, a);
                lemma_key_index(s0, k, pos[a]);
            }
            assert(self@ =~= entries_map(s0).remove_keys(d));
        }
    }

    /// `cleanup_on_error`: after a route failed, drops every entry the
    /// request used and forgets them; outside a scope nothing changes.
    pub fn cleanup_on_error(&mut self, scope: &mut Option<CacheScope>)
        ensures
            final(self)@ == old(self)@.remove_keys(touched_of(*old(scope)).to_set()),
            (*final(scope)) is Some == (*old(scope)) is Some,
            (*final(scope)) is Some ==> (*final(scope))->0.ttl == (*old(scope))->0.ttl,
            touched_of(*final(scope)) == Seq::<Seq<char>>::empty(),
    {
        proof {
            use_type_invariant(&*self);
        }
        match scope.take() {
            Some(mut s) => {
                let mut keys: Vec<String> = Vec::new();
                std::mem::swap(&mut keys, &mut s.touched);
                *scope = Some(s);
                assert(touched_of(*scope) =~= Seq::<Seq<char>>::empty());
                self.retain_keys(&keys);
            },
            None => {
                assert(self@.remove_keys(Seq::<Seq<char>>::empty().to_set()) =~= self@);
            },
        }
    }
}

/// The cache after a sweep at `now`: only entries younger than `max_age`.
pub open spec fn spec_sweep(
    m: Map<Seq<char>, (u64, Seq<char>)>,
    now: u64,
    max_age: u64,
) -> Map<Seq<char>, (u64, Seq<char>)> {
    Map::new(|k: Seq<char>| m.contains_key(k) && elapsed(now, m[k].0) < max_age, |k: Seq<char>| m[k])
}

impl ResponseCache {
    /// The periodic sweep: drops every entry that is `max_age` old or older.
    pub fn sweep(&mut self, now: u64, max_age: u64)
        ensures
            final(self)@ == spec_sweep(old(self)@, now, max_age),
    {
        proof {
            use_type_invariant(&*self);
        }
        let ghost s0 = entry_views(self.entries@);
        let mut old_entries: Vec<CacheEntry> = Vec::new();
        std::mem::swap(&mut old_entries, &mut self.entries);
        assert(entry_views(old_entries@) == s0);
        let mut kept: Vec<CacheEntry> = Vec::new();
        let ghost mut pos: Seq<int> = seq![];
        let ghost mut i: int = 0;
        for e in it: old_entries
            invariant
                it.seq() == old_entries@,
                i == it.index(),
                s0 == entry_views(old_entries@),
                distinct_keys(s0),
                pos.len() == kept@.len(),
                forall|a: int| 0 <= a < pos.len() ==> 0 <= #[trigger] pos[a] < i,
                forall|a: int, b: int| 0 <= a < b < pos.len() ==> #[trigger] pos[a] < #[trigger] pos[b],
                forall|a: int| 0 <= a < pos.len() ==> entry_views(kept@)[a] == s0[#[trigger] pos[a]],
                forall|a: int| 0 <= a < pos.len() ==> elapsed(now, s0[#[trigger] pos[a]].1) < max_age,
                forall|j: int| 0 <= j < i && elapsed(now, #[trigger] s0[j].1) < max_age ==> exists|a: int|
                    0 <= a < pos.len() && pos[a] == j,
        {
            assert(s0[i] == (e.key@, e.created, e.body@));
            let ghost pos0 = pos;
            let fresh = if now >= e.created {
                now - e.created < max_age
            } else {
                0 < max_age
            };
            if fresh {
                let ghost kv = entry_views(kept@);
                kept.push(e);
                proof {
                    assert(entry_views(kept@) == kv.push(s0[i]));
                    pos = pos.push(i);
                }
            }
            proof {
                assert forall|j: int| 0 <= j < i + 1 && elapsed(now, #[trigger] s0[j].1) < max_age implies exists|
                    a: int,
                | 0 <= a < pos.len() && pos[a] == j by {
                    if j < i {
                        let a = choose|a: int| 0 <= a < pos0.len() && pos0[a] == j;
                        assert(pos[a] == j);
                    } else {
                        assert(pos[pos.len() - 1] == j);
                    }
                }
                i = i + 1;
            }
        }
        proof {
            let s1 = entry_views(kept@);
            assert(distinct_keys(s1)) by {
                assert forall|a: int, b: int| 0 <= a < b < s1.len() implies #[trigger] s1[a].0
                    != #[trigger] s1[b].0 by {
                    assert(s1[a] == s0[pos[a]]);
                    assert(s1[b] == s0[pos[b]]);
                    assert(pos[a] < pos[b]);
                }
            }
        }
        self.entries = kept;
        proof {
            let s1 = entry_views(self.entries@);
            let m0 = entries_map(s0);
            assert forall|k: Seq<char>| #[trigger] has_key(s1, k) == (m0.contains_key(k) && elapsed(
                now,
                m0[k].0,
            ) < max_age) by {
                if has_key(s1, k) {
                    let a = choose|a: int| 0 <= a < s1.len() && (#[trigger] s1[a]).0 == k;
                    assert(s1[a] == s0[pos[a]]);
                    lemma_key_index(s0, k, pos[a]);
                }
                if m0.contains_key(k) && elapsed(now, m0[k].0) < max_age {
                    let j = choose|j: int| 0 <= j < s0.len() && (#[trigger] s0[j]).0 == k;
                    lemma_key_index(s0, k, j);
                    let a = choose|a: int| 0 <= a < pos.len() && pos[a] == j;
                    assert(s1[a] == s0[pos[a]]);
                }
            }
            assert forall|k: Seq<char>| #[trigger] has_key(s1, k) implies entries_map(s1)[k]
                == m0[k] by {
                let a = key_index(s1, k);
                assert(s1[a] == s0[pos[a]]);
                lemma_key_index(s1, k, a);
                lemma_key_index(s0, k, pos[a]);
            }
            assert(self@ =~= spec_sweep(m0, now, max_age));
        }
    }
}

// ---------------------------------------------------------------------------
// Laws of the cache
// ---------------------------------------------------------------------------

/// A response read back while it is younger than the interval is the one
/// that was stored.
pub proof fn law_read_after_store(
    m: Map<Seq<char>, (u64, Seq<char>)>,
    key: Seq<char>,
    body: Seq<char>,
    stored_at: u64,
    ttl: u64,
    now: u64,
)
    requires
        elapsed(now, stored_at) < ttl,
    ensures
        spec_lookup(m.insert(key, (stored_at, body)), key, ttl, now) == Some(body),
        spec_after_lookup(m.insert(key, (stored_at, body)), key, ttl, now) == m.insert(
            key,
            (stored_at, body),
        ),
{
}

/// Once the interval has passed, a lookup misses and the entry is gone.
pub proof fn law_expired_entry_is_dropped(
    m: Map<Seq<char>, (u64, Seq<char>)>,
    key: Seq<char>,
    ttl: u64,
    now: u64,
)
    requires
        m.contains_key(key),
        elapsed(now, m[key].0) >= ttl,
    ensures
        spec_lookup(m, key, ttl, now) is None,
        !spec_after_lookup(m, key, ttl, now).contains_key(key),
        forall|k: Seq<char>|
            k != key ==> #[trigger] spec_after_lookup(m, key, ttl, now).contains_key(k)
                == m.contains_key(k),
{
}

/// After a failed route is cleaned up, none of the responses it used can
/// be read back, and entries it did not use are untouched.
pub proof fn law_cleanup_forgets_touched(
    m: Map<Seq<char>, (u64, Seq<char>)>,
    touched: Seq<Seq<char>>,
    key: Seq<char>,
    ttl: u64,
    now: u64,
)
    ensures
        touched.contains(key) ==> spec_lookup(m.remove_keys(touched.to_set()), key, ttl, now)
            is None,
        !touched.contains(key) ==> spec_lookup(m.remove_keys(touched.to_set()), key, ttl, now)
            == spec_lookup(m, key, ttl, now),
{
    if touched.contains(key) {
        assert(touched.to_set().contains(key));
    } else {
        assert(!touched.to_set().contains(key));
    }
}

/// The sweep keeps exactly the entries younger than its age limit, unchanged.
pub proof fn law_sweep_keeps_young(
    m: Map<Seq<char>, (u64, Seq<char>)>,
    key: Seq<char>,
    now: u64,
    max_age: u64,
)
    ensures
        spec_sweep(m, now, max_age).contains_key(key) == (m.contains_key(key) && elapsed(
            now,
            m[key].0,
        ) < max_age),
        spec_sweep(m, now, max_age).contains_key(key) ==> spec_sweep(m, now, max_age)[key]
            == m[key],
{
}

proof fn lemma_dom_len(s: Seq<(Seq<char>, u64, Seq<char>)>)
    requires
        distinct_keys(s),
    ensures
        entries_map(s).dom().len() == s.len(),
{
    let keys = s.map_values(|e: (Seq<char>, u64, Seq<char>)| e.0);
    assert(keys.no_duplicates()) by {
        assert forall|i: int, j: int| 0 <= i < keys.len() && 0 <= j < keys.len() && i != j implies keys[i]
            != keys[j] by {
            if i < j {
                assert(s[i].0 != s[j].0);
            } else {
                assert(s[j].0 != s[i].0);
            }
        }
    }
    assert(entries_map(s).dom() =~= keys.to_set()) by {
        assert forall|k: Seq<char>| #[trigger] entries_map(s).dom().contains(k) == keys.to_set().contains(k) by {
            if has_key(s, k) {
                let i = choose|i: int| 0 <= i < s.len() && (#[trigger] s[i]).0 == k;
                assert(keys[i] == k);
            }
            if keys.to_set().contains(k) {
                let i = choose|i: int| 0 <= i < keys.len() && keys[i] == k;
                assert(s[i].0 == k);
            }
        }
    }
    keys.unique_seq_to_set();
}

} // verus!
