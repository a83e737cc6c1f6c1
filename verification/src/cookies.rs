//! Keeping `cookies.json` up to date with a browser's cookies.
//!
//! Reading the browser's cookie store and the file, and writing the file,
//! are done by the caller; this module decides which sites to ask the
//! browser about and merges the cookies it gives into those already kept.
use crate::feed::opt_view;
use crate::json::{json_as_str, json_get, Json};
use crate::text::{cat, drop_leading, eq_pred, join, join_exec, str_eq, to_chars, from_range, views};
use vstd::prelude::*;

verus! {

/// The `SameSite` attribute of a cookie.
#[derive(Clone, Copy, Debug, PartialEq, Eq, Structural)]
pub enum SameSite {
    Strict,
    Lax,
    /// `SameSite=None`.
    NoRestriction,
}

/// A cookie as the browser's store gives it.
#[derive(Debug)]
pub struct BrowserCookie {
    pub name: String,
    pub value: String,
    pub domain: Option<String>,
    pub path: Option<String>,
    pub secure: Option<bool>,
    pub http_only: Option<bool>,
    pub same_site: Option<SameSite>,
    /// The expiry as the store gives it (a JSON number, or `null`).
    pub expires: Json,
}

/// An entry of `cookies.json`: one that was already in the file, kept as it
/// was, or one taken from the browser.
#[derive(Debug)]
pub enum CookieEntry {
    Kept(Json),
    Fresh(BrowserCookie),
}

/// An optional text, or the empty text.
pub open spec fn or_empty(o: Option<Seq<char>>) -> Seq<char> {
    match o {
        Some(s) => s,
        None => seq![],
    }
}

/// The text written for a `SameSite` attribute.
pub open spec fn same_site_text(s: Option<SameSite>) -> Seq<char> {
    match s {
        Some(SameSite::Strict) => "Strict"@,
        Some(SameSite::Lax) => "Lax"@,
        Some(SameSite::NoRestriction) => "None"@,
        None => "Unspecified"@,
    }
}

/// The text written for a `SameSite` attribute.
pub fn same_site_name(s: Option<SameSite>) -> (r: &'static str)
    ensures
        r@ == same_site_text(s),
{
    match s {
        Some(SameSite::Strict) => "Strict",
        Some(SameSite::Lax) => "Lax",
        Some(SameSite::NoRestriction) => "None",
        None => "Unspecified",
    }
}

/// What identifies a cookie: its name, domain and path.
pub open spec fn cookie_key(c: BrowserCookie) -> (Option<Seq<char>>, Option<Seq<char>>, Option<
    Seq<char>,
>) {
    (Some(c.name@), Some(or_empty(opt_view(c.domain))), Some(or_empty(opt_view(c.path))))
}

/// What identifies an entry: the `name`, `domain` and `path` strings of a
/// kept one, the key of a fresh one.
pub open spec fn entry_key(e: CookieEntry) -> (Option<Seq<char>>, Option<Seq<char>>, Option<
    Seq<char>,
>) {
    match e {
        CookieEntry::Kept(j) => (str_member(j, "name"@), str_member(j, "domain"@), str_member(
            j,
            "path"@,
        )),
        CookieEntry::Fresh(c) => cookie_key(c),
    }
}

/// The string member `key` of an object (`value.get(key).and_then(as_str)`).
pub open spec fn str_member(j: Json, key: Seq<char>) -> Option<Seq<char>> {
    match json_get(j, key) {
        Some(v) => json_as_str(v),
        None => None,
    }
}

/// The first entry with the given key.
pub open spec fn first_with_key(
    es: Seq<CookieEntry>,
    k: (Option<Seq<char>>, Option<Seq<char>>, Option<Seq<char>>),
) -> Option<int>
    decreases es.len(),
{
    if es.len() == 0 {
        None
    } else {
        match first_with_key(es.drop_last(), k) {
            Some(i) => Some(i),
            None => if entry_key(es.last()) == k {
                Some(es.len() - 1)
            } else {
                None
            },
        }
    }
}

/// A browser cookie put into the entries: it replaces the first entry with
/// its key, or is added at the end.
pub open spec fn upsert(es: Seq<CookieEntry>, c: BrowserCookie) -> Seq<CookieEntry> {
    match first_with_key(es, cookie_key(c)) {
        Some(i) => es.update(i, CookieEntry::Fresh(c)),
        None => es.push(CookieEntry::Fresh(c)),
    }
}

/// The browser's cookies put into the entries one after another.
pub open spec fn merged(es: Seq<CookieEntry>, fresh: Seq<BrowserCookie>) -> Seq<CookieEntry>
    decreases fresh.len(),
{
    if fresh.len() == 0 {
        es
    } else {
        upsert(merged(es, fresh.drop_last()), fresh.last())
    }
}

fn opt_text(o: &Option<String>) -> (r: String)
    ensures
        r@ == or_empty(opt_view(*o)),
{
    match o {
        Some(s) => s.clone(),
        None => String::new(),
    }
}

fn member_is(j: &Json, key: &str, want: &str) -> (r: bool)
    ensures
        r == (str_member(*j, key@) == Some(want@)),
{
    match j.get(key) {
        Some(v) => match v.as_str() {
            Some(s) => str_eq(s.as_str(), want),
            None => false,
        },
        None => false,
    }
}

fn has_key(e: &CookieEntry, name: &str, domain: &str, path: &str) -> (r: bool)
    ensures
        r == (entry_key(*e) == (Some(name@), Some(domain@), Some(path@))),
{
    match e {
        CookieEntry::Kept(j) => member_is(j, "name", name) && member_is(j, "domain", domain)
            && member_is(j, "path", path),
        CookieEntry::Fresh(c) => str_eq(c.name.as_str(), name) && str_eq(
            opt_text(&c.domain).as_str(),
            domain,
        ) && str_eq(opt_text(&c.path).as_str(), path),
    }
}

proof fn lemma_first_with_key(
    es: Seq<CookieEntry>,
    k: (Option<Seq<char>>, Option<Seq<char>>, Option<Seq<char>>),
    i: int,
)
    requires
        0 <= i <= es.len(),
        forall|j: int| 0 <= j < i ==> entry_key(#[trigger] es[j]) != k,
    ensures
        first_with_key(es.take(i), k) is None,
        i < es.len() && entry_key(es[i]) == k ==> first_with_key(es, k) == Some(i),
        i == es.len() ==> first_with_key(es, k) is None,
    decreases i,
{
    if i > 0 {
        lemma_first_with_key(es, k, i - 1);
        assert(es.take(i).drop_last() == es.take(i - 1));
        assert(es.take(i).last() == es[i - 1]);
    }
    if i < es.len() && entry_key(es[i]) == k {
        lemma_first_prefix(es, k, i + 1);
        assert(es.take(i + 1).drop_last() == es.take(i));
        assert(es.take(i + 1).last() == es[i]);
        assert(es.take(es.len() as int) == es);
    }
    if i == es.len() {
        assert(es.take(i) == es);
    }
}

/// What [`first_with_key`] finds: the first entry with the key, or that
/// there is none.
proof fn lemma_first_with_key_found(
    es: Seq<CookieEntry>,
    k: (Option<Seq<char>>, Option<Seq<char>>, Option<Seq<char>>),
)
    ensures
        match first_with_key(es, k) {
            Some(i) => 0 <= i < es.len() && entry_key(es[i]) == k && forall|j: int|
                0 <= j < i ==> entry_key(#[trigger] es[j]) != k,
            None => forall|j: int| 0 <= j < es.len() ==> entry_key(#[trigger] es[j]) != k,
        },
    decreases es.len(),
{
    if es.len() > 0 {
        lemma_first_with_key_found(es.drop_last(), k);
        assert forall|j: int| 0 <= j < es.len() - 1 implies es.drop_last()[j] == es[j] by {}
    }
}

/// No two entries have the same key.
pub open spec fn keys_distinct(es: Seq<CookieEntry>) -> bool {
    forall|i: int, j: int|
        0 <= i < j < es.len() ==> entry_key(#[trigger] es[i]) != entry_key(#[trigger] es[j])
}

/// Law: putting the same browser cookie in a second time changes nothing.
pub proof fn law_upsert_twice(es: Seq<CookieEntry>, c: BrowserCookie)
    ensures
        upsert(upsert(es, c), c) == upsert(es, c),
{
    let k = cookie_key(c);
    let u = upsert(es, c);
    lemma_first_with_key_found(es, k);
    match first_with_key(es, k) {
        Some(i) => {
            assert forall|j: int| 0 <= j < i implies entry_key(#[trigger] u[j]) != k by {
                assert(u[j] == es[j]);
            }
            lemma_first_with_key(u, k, i);
            assert(u.update(i, CookieEntry::Fresh(c)) =~= u);
        },
        None => {
            assert forall|j: int| 0 <= j < es.len() implies entry_key(#[trigger] u[j]) != k by {
                assert(u[j] == es[j]);
            }
            lemma_first_with_key(u, k, es.len() as int);
            assert(u.update(es.len() as int, CookieEntry::Fresh(c)) =~= u);
        },
    }
}

/// Putting a cookie in keeps the keys distinct.
proof fn lemma_upsert_distinct(es: Seq<CookieEntry>, c: BrowserCookie)
    requires
        keys_distinct(es),
    ensures
        keys_distinct(upsert(es, c)),
{
    let k = cookie_key(c);
    let u = upsert(es, c);
    lemma_first_with_key_found(es, k);
    match first_with_key(es, k) {
        Some(i) => {
            assert forall|a: int| 0 <= a < u.len() implies entry_key(#[trigger] u[a]) == entry_key(
                es[a],
            ) by {}
        },
        None => {
            assert forall|a: int, b: int| 0 <= a < b < u.len() implies entry_key(
                #[trigger] u[a],
            ) != entry_key(#[trigger] u[b]) by {
                if b == es.len() {
                    assert(u[a] == es[a]);
                } else {
                    assert(u[a] == es[a] && u[b] == es[b]);
                }
            }
        },
    }
}

/// An entry after the browser's cookies: the last of them with its key, or
/// the entry unchanged.
pub open spec fn replaced_by(e: CookieEntry, fresh: Seq<BrowserCookie>) -> CookieEntry
    decreases fresh.len(),
{
    if fresh.len() == 0 {
        e
    } else if cookie_key(fresh.last()) == entry_key(e) {
        CookieEntry::Fresh(fresh.last())
    } else {
        replaced_by(e, fresh.drop_last())
    }
}

/// Whether some entry has key `k`.
pub open spec fn has_entry_key(es: Seq<CookieEntry>, k: (Option<Seq<char>>, Option<Seq<char>>, Option<Seq<char>>)) -> bool {
    exists|i: int| 0 <= i < es.len() && entry_key(#[trigger] es[i]) == k
}

/// The browser's cookies that match no entry, in order, as entries.
pub open spec fn unmatched(es: Seq<CookieEntry>, fresh: Seq<BrowserCookie>) -> Seq<CookieEntry>
    decreases fresh.len(),
{
    if fresh.len() == 0 {
        seq![]
    } else if has_entry_key(es, cookie_key(fresh.last())) {
        unmatched(es, fresh.drop_last())
    } else {
        unmatched(es, fresh.drop_last()).push(CookieEntry::Fresh(fresh.last()))
    }
}

/// No two browser cookies have the same key.
pub open spec fn fresh_distinct(fresh: Seq<BrowserCookie>) -> bool {
    forall|i: int, j: int| 0 <= i < j < fresh.len() ==> cookie_key(#[trigger] fresh[i]) != cookie_key(#[trigger] fresh[j])
}

proof fn lemma_replaced_key(e: CookieEntry, fresh: Seq<BrowserCookie>)
    ensures
        entry_key(replaced_by(e, fresh)) == entry_key(e),
    decreases fresh.len(),
{
    if fresh.len() > 0 && cookie_key(fresh.last()) != entry_key(e) {
        lemma_replaced_key(e, fresh.drop_last());
    }
}

proof fn lemma_unmatched_keys(es: Seq<CookieEntry>, fresh: Seq<BrowserCookie>)
    ensures
        forall|a: int| 0 <= a < unmatched(es, fresh).len() ==> exists|j: int|
            0 <= j < fresh.len() && #[trigger] unmatched(es, fresh)[a] == CookieEntry::Fresh(#[trigger] fresh[j]),
    decreases fresh.len(),
{
    if fresh.len() > 0 {
        let d = fresh.drop_last();
        lemma_unmatched_keys(es, d);
        let u = unmatched(es, fresh);
        let ud = unmatched(es, d);
        assert forall|a: int| 0 <= a < u.len() implies exists|j: int|
            0 <= j < fresh.len() && #[trigger] u[a] == CookieEntry::Fresh(#[trigger] fresh[j]) by {
            if a < ud.len() {
                assert(u[a] == ud[a]);
                let j = choose|j: int| 0 <= j < d.len() && #[trigger] ud[a] == CookieEntry::Fresh(#[trigger] d[j]);
                assert(fresh[j] == d[j]);
            } else {
                assert(u[a] == CookieEntry::Fresh(fresh[fresh.len() - 1]));
            }
        }
    }
}

/// Law: when the entries' keys are distinct and so are the browser
/// cookies' keys (name, domain, path), merging replaces each entry that
/// has a browser cookie's key by that cookie, in place, and adds the
/// cookies that match no entry after them, in their order.
pub proof fn law_merge_in_place(es: Seq<CookieEntry>, fresh: Seq<BrowserCookie>)
    requires
        keys_distinct(es),
        fresh_distinct(fresh),
    ensures
        merged(es, fresh) == es.map_values(|e: CookieEntry| replaced_by(e, fresh)) + unmatched(es, fresh),
    decreases fresh.len(),
{
    if fresh.len() == 0 {
        assert(es.map_values(|e: CookieEntry| replaced_by(e, fresh)) =~= es);
        assert(merged(es, fresh) =~= es.map_values(|e: CookieEntry| replaced_by(e, fresh)) + unmatched(es, fresh));
    } else {
        let d = fresh.drop_last();
        let c = fresh.last();
        let k = cookie_key(c);
        assert(fresh_distinct(d));
        law_merge_in_place(es, d);
        let md = es.map_values(|e: CookieEntry| replaced_by(e, d));
        let ud = unmatched(es, d);
        let m = md + ud;
        let mf = es.map_values(|e: CookieEntry| replaced_by(e, fresh));
        assert forall|a: int| 0 <= a < es.len() implies entry_key(#[trigger] md[a]) == entry_key(es[a]) by {
            lemma_replaced_key(es[a], d);
        }
        lemma_unmatched_keys(es, d);
        assert forall|a: int| 0 <= a < ud.len() implies entry_key(#[trigger] ud[a]) != k by {
            let j = choose|j: int| 0 <= j < d.len() && #[trigger] ud[a] == CookieEntry::Fresh(#[trigger] d[j]);
            assert(fresh[j] == d[j]);
            assert(cookie_key(fresh[j]) != cookie_key(fresh[fresh.len() - 1]));
        }
        lemma_first_with_key_found(m, k);
        if has_entry_key(es, k) {
            let i = choose|i: int| 0 <= i < es.len() && entry_key(#[trigger] es[i]) == k;
            assert(entry_key(m[i]) == k);
            match first_with_key(m, k) {
                Some(f) => {
                    if f != i {
                        if f < es.len() {
                            assert(entry_key(m[f]) == entry_key(es[f]));
                            if f < i {
                                assert(entry_key(es[f]) != entry_key(es[i]));
                            }
                        } else {
                            assert(m[f] == ud[f - es.len()]);
                        }
                    }
                    assert(f == i);
                },
                None => {
                    assert(false);
                },
            }
            assert(unmatched(es, fresh) == ud);
            assert forall|a: int| 0 <= a < es.len() implies #[trigger] mf[a] == m.update(i, CookieEntry::Fresh(c))[a] by {
                if a != i {
                    assert(entry_key(es[a]) != k);
                }
            }
            assert(m.update(i, CookieEntry::Fresh(c)) =~= mf + ud);
        } else {
            match first_with_key(m, k) {
                Some(f) => {
                    if f < es.len() {
                        assert(entry_key(m[f]) == entry_key(es[f]));
                        assert(has_entry_key(es, k));
                    } else {
                        assert(m[f] == ud[f - es.len()]);
                    }
                    assert(false);
                },
                None => {},
            }
            assert forall|a: int| 0 <= a < es.len() implies #[trigger] mf[a] == md[a] by {
                assert(entry_key(es[a]) != k);
            }
            assert(m.push(CookieEntry::Fresh(c)) =~= mf + unmatched(es, fresh));
        }
    }
}

/// Law: merging the browser's cookies into entries whose keys are distinct
/// leaves entries whose keys are distinct: a cookie that is already there
/// is replaced, never added a second time.
pub proof fn law_merge_keeps_keys_distinct(es: Seq<CookieEntry>, fresh: Seq<BrowserCookie>)
    requires
        keys_distinct(es),
    ensures
        keys_distinct(merged(es, fresh)),
    decreases fresh.len(),
{
    if fresh.len() > 0 {
        law_merge_keeps_keys_distinct(es, fresh.drop_last());
        lemma_upsert_distinct(merged(es, fresh.drop_last()), fresh.last());
    }
}

/// Where a prefix has an entry with the key, the whole has it there too.
proof fn lemma_first_prefix(
    es: Seq<CookieEntry>,
    k: (Option<Seq<char>>, Option<Seq<char>>, Option<Seq<char>>),
    n: int,
)
    requires
        0 <= n <= es.len(),
        first_with_key(es.take(n), k) is Some,
    ensures
        first_with_key(es, k) == first_with_key(es.take(n), k),
    decreases es.len() - n,
{
    if n < es.len() {
        assert(es.take(n + 1).drop_last() == es.take(n));
        lemma_first_prefix(es, k, n + 1);
    } else {
        assert(es.take(n) == es);
    }
}

/// Puts one browser cookie into the entries (see [`upsert`]).
fn upsert_exec(es: &mut Vec<CookieEntry>, c: BrowserCookie)
    ensures
        final(es)@ == upsert(old(es)@, c),
{
    let domain = opt_text(&c.domain);
    let path = opt_text(&c.path);
    let ghost k = cookie_key(c);
    let mut i: usize = 0;
    while i < es.len()
        invariant
            i <= es.len(),
            es@ == old(es)@,
            k == cookie_key(c),
            k == (Some(c.name@), Some(domain@), Some(path@)),
            forall|j: int| 0 <= j < i ==> entry_key(#[trigger] es@[j]) != k,
        decreases es.len() - i,
    {
        if has_key(&es[i], c.name.as_str(), domain.as_str(), path.as_str()) {
            proof {
                lemma_first_with_key(es@, k, i as int);
            }
            es.set(i, CookieEntry::Fresh(c));
            return ;
        }
        i = i + 1;
    }
    proof {
        lemma_first_with_key(es@, k, i as int);
    }
    es.push(CookieEntry::Fresh(c));
}

/// `extract_cookies_to_json`'s merge: the browser's cookies put, in order,
/// into the entries already in the file.
pub fn merge_cookies(existing: Vec<Json>, fresh: Vec<BrowserCookie>) -> (r: Vec<CookieEntry>)
    ensures
        r@ == merged(existing@.map_values(|j: Json| CookieEntry::Kept(j)), fresh@),
{
    let ghost start = existing@.map_values(|j: Json| CookieEntry::Kept(j));
    let mut es: Vec<CookieEntry> = Vec::new();
    let mut old_entries = existing;
    let mut kept_rev: Vec<Json> = Vec::new();
    // move the kept entries over in their order
    let ghost ex = old_entries@;
    while old_entries.len() > 0
        invariant
            kept_rev@.len() + old_entries@.len() == ex.len(),
            old_entries@ == ex.take(old_entries@.len() as int),
            forall|j: int| 0 <= j < kept_rev@.len() ==> #[trigger] kept_rev@[j] == ex[ex.len() - 1 - j],
        decreases old_entries.len(),
    {
        let n = old_entries.len();
        let x = old_entries.pop().unwrap();
        assert(x == ex[n - 1]);
        kept_rev.push(x);
        assert(old_entries@ =~= ex.take(n - 1));
    }
    while kept_rev.len() > 0
        invariant
            es@.len() + kept_rev@.len() == ex.len(),
            forall|j: int| 0 <= j < kept_rev@.len() ==> #[trigger] kept_rev@[j] == ex[ex.len() - 1 - j],
            forall|j: int| 0 <= j < es@.len() ==> #[trigger] es@[j] == CookieEntry::Kept(ex[j]),
        decreases kept_rev.len(),
    {
        let x = kept_rev.pop().unwrap();
        es.push(CookieEntry::Kept(x));
    }
    assert(es@ =~= start);
    let mut rest = fresh;
    let ghost fs = rest@;
    // the fresh cookies are applied front to back
    let mut rev: Vec<BrowserCookie> = Vec::new();
    while rest.len() > 0
        invariant
            rev@.len() + rest@.len() == fs.len(),
            rest@ == fs.take(rest@.len() as int),
            forall|j: int| 0 <= j < rev@.len() ==> #[trigger] rev@[j] == fs[fs.len() - 1 - j],
        decreases rest.len(),
    {
        let n = rest.len();
        let x = rest.pop().unwrap();
        assert(x == fs[n - 1]);
        rev.push(x);
        assert(rest@ =~= fs.take(n - 1));
    }
    let ghost mut done: int = 0;
    while rev.len() > 0
        invariant
            0 <= done,
            done + rev@.len() == fs.len(),
            forall|j: int| 0 <= j < rev@.len() ==> #[trigger] rev@[j] == fs[fs.len() - 1 - j],
            es@ == merged(start, fs.take(done)),
        decreases rev.len(),
    {
        let c = rev.pop().unwrap();
        assert(c == fs[done]);
        assert(fs.take(done + 1).drop_last() == fs.take(done));
        assert(fs.take(done + 1).last() == fs[done]);
        upsert_exec(&mut es, c);
        proof {
            done = done + 1;
        }
    }
    assert(fs.take(fs.len() as int) == fs);
    es
}

// ---------------------------------------------------------------------------
// Which sites to ask about
// ---------------------------------------------------------------------------

/// `Vec::dedup`: runs of equal neighbours reduced to one.
pub open spec fn dedup(s: Seq<Seq<char>>) -> Seq<Seq<char>>
    decreases s.len(),
{
    if s.len() == 0 {
        s
    } else if s.len() >= 2 && s[s.len() - 1] == s[s.len() - 2] {
        dedup(s.drop_last())
    } else {
        dedup(s.drop_last()).push(s.last())
    }
}

/// The origin of each kept cookie that has a `domain`, in order.
pub open spec fn kept_origins(existing: Seq<Json>) -> Seq<Seq<char>>
    decreases existing.len(),
{
    if existing.len() == 0 {
        seq![]
    } else {
        kept_origins(existing.drop_last()) + match str_member(existing.last(), "domain"@) {
            Some(d) => seq!["https://"@ + drop_leading(d, eq_pred('.'))],
            None => seq![],
        }
    }
}

/// The sites to ask the browser about: the configured ones, then the
/// origin of each kept cookie's domain, neighbouring repeats dropped;
/// `https://bilibili.com` when there are none.
pub open spec fn spec_origins(configured: Seq<Seq<char>>, existing: Seq<Json>) -> Seq<Seq<char>> {
    let all = dedup(configured + kept_origins(existing));
    if all.len() == 0 {
        seq!["https://bilibili.com"@]
    } else {
        all
    }
}

fn dedup_exec(v: Vec<String>) -> (r: Vec<String>)
    ensures
        views(r@) == dedup(views(v@)),
{
    let mut out: Vec<String> = Vec::new();
    let ghost vs = views(v@);
    let mut i: usize = 0;
    assert(views(out@) =~= Seq::<Seq<char>>::empty());
    while i < v.len()
        invariant
            i <= v.len(),
            vs == views(v@),
            views(out@) == dedup(vs.take(i as int)),
            i > 0 ==> out@.len() > 0 && out@.last()@ == vs[i - 1],
        decreases v.len() - i,
    {
        assert(vs.take(i + 1).drop_last() == vs.take(i as int));
        assert(vs.take(i + 1).last() == v@[i as int]@);
        let repeat = i > 0 && str_eq(v[i].as_str(), v[i - 1].as_str());
        if !repeat {
            let ghost before = views(out@);
            out.push(v[i].clone());
            assert(views(out@) =~= before.push(v@[i as int]@));
        } else {
            assert(vs.take(i + 1)[i as int] == vs.take(i + 1)[i - 1]);
        }
        proof {
            if repeat {
                assert(out@.last()@ == vs[i - 1]);
                assert(vs[i as int] == vs[i - 1]);
            }
        }
        i = i + 1;
    }
    assert(vs.take(v.len() as int) == vs);
    out
}

/// Leading `.` characters removed (`trim_start_matches(".")`).
fn trim_leading_dots(s: &str) -> (r: String)
    ensures
        r@ == drop_leading(s@, eq_pred('.')),
{
    let v = to_chars(s);
    let mut a: usize = 0;
    assert(v@.skip(0) == v@);
    while a < v.len() && v[a] == '.'
        invariant
            a <= v.len(),
            v@ == s@,
            drop_leading(v@.skip(a as int), eq_pred('.')) == drop_leading(v@, eq_pred('.')),
        decreases v.len() - a,
    {
        assert(v@.skip(a as int).drop_first() == v@.skip(a + 1));
        a = a + 1;
    }
    assert(drop_leading(v@.skip(a as int), eq_pred('.')) == v@.skip(a as int));
    from_range(v.as_slice(), a, v.len())
}

/// The sites to ask the browser about (see [`spec_origins`]); the first is
/// the address the browser is asked with.
pub fn cookie_origins(configured: &[String], existing: &[Json]) -> (r: Vec<String>)
    ensures
        views(r@) == spec_origins(views(configured@), existing@),
        r@.len() > 0,
{
    let mut all: Vec<String> = Vec::new();
    let mut i: usize = 0;
    assert(views(all@) =~= Seq::<Seq<char>>::empty());
    while i < configured.len()
        invariant
            i <= configured.len(),
            views(all@) == views(configured@).take(i as int),
        decreases configured.len() - i,
    {
        let c = configured[i].clone();
        assert(c@ == configured@[i as int]@);
        let ghost before = views(all@);
        all.push(c);
        assert(views(all@) =~= before.push(c@));
        assert(views(configured@).take(i + 1) =~= views(configured@).take(i as int).push(
            configured@[i as int]@,
        ));
        i = i + 1;
    }
    assert(views(configured@).take(configured.len() as int) == views(configured@));
    let ghost head = views(all@);
    let mut k: usize = 0;
    assert(head + kept_origins(existing@.take(0)) =~= head);
    while k < existing.len()
        invariant
            k <= existing.len(),
            views(all@) == head + kept_origins(existing@.take(k as int)),
        decreases existing.len() - k,
    {
        assert(existing@.take(k + 1).drop_last() == existing@.take(k as int));
        assert(existing@.take(k + 1).last() == existing@[k as int]);
        let ghost before = views(all@);
        match existing[k].get("domain") {
            Some(d) => match d.as_str() {
                Some(ds) => {
                    let o = cat("https://", trim_leading_dots(ds.as_str()).as_str());
                    all.push(o);
                    assert(views(all@) =~= before.push(o@));
                },
                None => {
                    assert(before + Seq::<Seq<char>>::empty() =~= before);
                },
            },
            None => {
                assert(before + Seq::<Seq<char>>::empty() =~= before);
            },
        }
        assert(head + kept_origins(existing@.take(k + 1)) =~= views(all@));
        k = k + 1;
    }
    assert(existing@.take(existing.len() as int) == existing@);
    let mut out = dedup_exec(all);
    if out.len() == 0 {
        out.push("https://bilibili.com".to_owned());
        assert(views(out@) =~= seq!["https://bilibili.com"@]);
    }
    out
}

/// Why no cookies can be written: the browser gave none and warned.
pub open spec fn spec_failure(found: nat, warnings: Seq<Seq<char>>) -> Option<Seq<char>> {
    if found == 0 && warnings.len() > 0 {
        Some("Failed to find cookies: "@ + join(warnings, "; "@))
    } else {
        None
    }
}

/// The failure to report when the browser gave no cookies but warnings.
pub fn cookie_failure(found: usize, warnings: &[String]) -> (r: Option<String>)
    ensures
        opt_view(r) == spec_failure(found as nat, views(warnings@)),
{
    if found == 0 && warnings.len() > 0 {
        Some(cat("Failed to find cookies: ", join_exec(warnings, "; ").as_str()))
    } else {
        None
    }
}

} // verus!
