//! Character-level string handling shared by the whole crate.
//!
//! Every operation here is stated over `Seq<char>`, the view of `str` and
//! `String`, and proved against that statement; the regular-expression
//! searches at the end are `regex`'s, and their results are named there.
use vstd::prelude::*;

verus! {

// ---------------------------------------------------------------------------
// Specifications
// ---------------------------------------------------------------------------

/// Unicode `White_Space`, the set that `char::is_whitespace` tests.
pub open spec fn is_ws(c: char) -> bool {
    ||| c == '\t' || c == '\n' || c == '\u{0B}' || c == '\u{0C}' || c == '\r' || c == ' '
    ||| c == '\u{85}' || c == '\u{A0}' || c == '\u{1680}'
    ||| ('\u{2000}' <= c && c <= '\u{200A}')
    ||| c == '\u{2028}' || c == '\u{2029}' || c == '\u{202F}' || c == '\u{205F}'
    ||| c == '\u{3000}'
}

/// ASCII lower-casing of one character (`char::to_ascii_lowercase`).
pub open spec fn lower(c: char) -> char {
    if 'A' <= c && c <= 'Z' {
        ((c as u32) + 32) as char
    } else {
        c
    }
}

/// ASCII lower-casing of a string (`str::to_ascii_lowercase`).
pub open spec fn lower_seq(s: Seq<char>) -> Seq<char> {
    s.map_values(|c: char| lower(c))
}

/// `s` with leading characters satisfying `p` removed.
pub open spec fn drop_leading(s: Seq<char>, p: spec_fn(char) -> bool) -> Seq<char>
    decreases s.len(),
{
    if s.len() > 0 && p(s[0]) {
        drop_leading(s.drop_first(), p)
    } else {
        s
    }
}

/// `s` with trailing characters satisfying `p` removed.
pub open spec fn drop_trailing(s: Seq<char>, p: spec_fn(char) -> bool) -> Seq<char>
    decreases s.len(),
{
    if s.len() > 0 && p(s.last()) {
        drop_trailing(s.drop_last(), p)
    } else {
        s
    }
}

/// The white-space test as a predicate.
pub open spec fn ws_pred() -> spec_fn(char) -> bool {
    |c: char| is_ws(c)
}

/// The test for one given character as a predicate.
pub open spec fn eq_pred(c: char) -> spec_fn(char) -> bool {
    |x: char| x == c
}

/// What `drop_leading` leaves is a suffix that starts with no character
/// satisfying `p`.
pub proof fn lemma_drop_leading_shape(s: Seq<char>, p: spec_fn(char) -> bool) -> (i: int)
    ensures
        0 <= i <= s.len(),
        drop_leading(s, p) == s.skip(i),
        drop_leading(s, p).len() > 0 ==> !p(drop_leading(s, p)[0]),
    decreases s.len(),
{
    if s.len() > 0 && p(s[0]) {
        let k = lemma_drop_leading_shape(s.drop_first(), p);
        assert(s.skip(k + 1) =~= s.drop_first().skip(k));
        k + 1
    } else {
        assert(s.skip(0) =~= s);
        0
    }
}

/// What `drop_trailing` leaves is a prefix that ends with no character
/// satisfying `p`.
pub proof fn lemma_drop_trailing_shape(s: Seq<char>, p: spec_fn(char) -> bool) -> (k: int)
    ensures
        0 <= k <= s.len(),
        drop_trailing(s, p) == s.take(k),
        drop_trailing(s, p).len() > 0 ==> !p(drop_trailing(s, p).last()),
    decreases s.len(),
{
    if s.len() > 0 && p(s.last()) {
        let k = lemma_drop_trailing_shape(s.drop_last(), p);
        assert(s.take(k) =~= s.drop_last().take(k));
        k
    } else {
        assert(s.take(s.len() as int) =~= s);
        s.len() as int
    }
}

/// Trimming twice is trimming once.
pub proof fn lemma_trim_idempotent(s: Seq<char>)
    ensures
        trim(trim(s)) == trim(s),
{
    let p = ws_pred();
    let m = drop_leading(s, p);
    lemma_drop_leading_shape(s, p);
    let k = lemma_drop_trailing_shape(m, p);
    let r = drop_trailing(m, p);
    if r.len() > 0 {
        assert(r[0] == m[0]);
        assert(drop_leading(r, p) == r);
        assert(drop_trailing(r, p) == r);
    }
}

/// `str::trim`: leading and trailing white space removed.
pub open spec fn trim(s: Seq<char>) -> Seq<char> {
    drop_trailing(drop_leading(s, ws_pred()), ws_pred())
}

/// `str::trim_matches(c)` for a single character.
pub open spec fn trim_char(s: Seq<char>, c: char) -> Seq<char> {
    drop_trailing(drop_leading(s, eq_pred(c)), eq_pred(c))
}

/// `p` occurs in `s` at position `i`.
pub open spec fn occurs_at(s: Seq<char>, p: Seq<char>, i: int) -> bool {
    0 <= i && i + p.len() <= s.len() && s.subrange(i, i + p.len()) == p
}

/// `i` is the position of the first `c` in `s`.
pub open spec fn is_first(s: Seq<char>, c: char, i: int) -> bool {
    0 <= i < s.len() && s[i] == c && forall|j: int| 0 <= j < i ==> s[j] != c
}

/// The position of the first `c` in `s`, if there is one.
pub open spec fn first_pos(s: Seq<char>, c: char) -> Option<int> {
    if s.contains(c) {
        Some(choose|i: int| is_first(s, c, i))
    } else {
        None
    }
}

/// `str::split_once(c)`: the parts before and after the first `c`.
pub open spec fn split_once(s: Seq<char>, c: char) -> Option<(Seq<char>, Seq<char>)> {
    match first_pos(s, c) {
        Some(i) => Some((s.take(i), s.skip(i + 1))),
        None => None,
    }
}

/// `str::replace("", to)`: `to` before every character and at the end.
pub open spec fn replace_empty(s: Seq<char>, to: Seq<char>) -> Seq<char>
    decreases s.len(),
{
    if s.len() == 0 {
        to
    } else {
        to + seq![s[0]] + replace_empty(s.drop_first(), to)
    }
}

/// `str::replace(from, to)`: every leftmost, non-overlapping occurrence of
/// `from` replaced by `to` (with an empty `from`, `to` goes between the
/// characters and at both ends).
pub open spec fn replace(s: Seq<char>, from: Seq<char>, to: Seq<char>) -> Seq<char>
    decreases s.len(),
{
    if from.len() == 0 {
        replace_empty(s, to)
    } else if s.len() < from.len() {
        s
    } else if s.take(from.len() as int) == from {
        to + replace(s.skip(from.len() as int), from, to)
    } else {
        seq![s[0]] + replace(s.drop_first(), from, to)
    }
}

/// `parts` joined with `sep` between neighbours.
pub open spec fn join(parts: Seq<Seq<char>>, sep: Seq<char>) -> Seq<char>
    decreases parts.len(),
{
    if parts.len() == 0 {
        seq![]
    } else if parts.len() == 1 {
        parts[0]
    } else {
        join(parts.drop_last(), sep) + sep + parts.last()
    }
}

/// A line without its `\r` terminator, as `str::lines` yields it.
pub open spec fn strip_cr(l: Seq<char>) -> Seq<char> {
    if l.len() > 0 && l.last() == '\r' {
        l.drop_last()
    } else {
        l
    }
}

/// `str::lines`: the lines of `s`, split at `\n`, each without its `\r\n`
/// or `\n` ending; a final line ending does not start another line.
pub open spec fn lines(s: Seq<char>) -> Seq<Seq<char>>
    decreases s.len(),
{
    if s.len() == 0 {
        seq![]
    } else {
        match first_pos(s, '\n') {
            Some(i) => {
                if 0 <= i < s.len() {
                    seq![strip_cr(s.take(i))] + lines(s.skip(i + 1))
                } else {
                    seq![s]
                }
            },
            None => seq![s],
        }
    }
}

/// Length of the leading run of characters of `s` that are not white space.
pub open spec fn word_len(s: Seq<char>) -> int
    decreases s.len(),
{
    if s.len() == 0 || is_ws(s[0]) {
        0
    } else {
        1 + word_len(s.drop_first())
    }
}

/// `str::split_whitespace`: the maximal runs of non-white-space characters.
pub open spec fn words(s: Seq<char>) -> Seq<Seq<char>>
    decreases s.len(),
{
    if s.len() == 0 {
        seq![]
    } else if is_ws(s[0]) {
        words(s.drop_first())
    } else {
        let n = word_len(s);
        if 0 < n <= s.len() {
            seq![s.take(n)] + words(s.skip(n))
        } else {
            seq![]
        }
    }
}

/// The decimal digits of `n`, as `u64`'s `Display` writes them.
pub open spec fn dec(n: nat) -> Seq<char>
    decreases n,
{
    if n < 10 {
        seq![digit(n)]
    } else {
        dec(n / 10).push(digit(n % 10))
    }
}

/// The digit character of `d < 10`.
pub open spec fn digit(d: nat) -> char {
    (('0' as u32) + d) as char
}

/// The decimal form of a signed integer, as `i64`'s `Display` writes it.
pub open spec fn dec_int(n: int) -> Seq<char> {
    if n < 0 {
        seq!['-'] + dec((-n) as nat)
    } else {
        dec(n as nat)
    }
}

// ---------------------------------------------------------------------------
// Lemmas
// ---------------------------------------------------------------------------

pub proof fn lemma_first_pos(s: Seq<char>, c: char, i: int)
    requires
        is_first(s, c, i),
    ensures
        first_pos(s, c) == Some(i),
{
    assert(s.contains(c)) by {
        assert(s[i] == c);
    }
    let k = choose|k: int| is_first(s, c, k);
    assert(is_first(s, c, k));
    if k < i {
        assert(s[k] != c);
    } else if k > i {
        assert(s[i] != c);
    }
}

pub proof fn lemma_first_pos_none(s: Seq<char>, c: char)
    requires
        forall|j: int| 0 <= j < s.len() ==> s[j] != c,
    ensures
        first_pos(s, c) is None,
{
    if s.contains(c) {
        let j = choose|j: int| 0 <= j < s.len() && s[j] == c;
        assert(s[j] != c);
    }
}

proof fn lemma_word_len_bound(s: Seq<char>)
    ensures
        0 <= word_len(s) <= s.len(),
        forall|j: int| 0 <= j < word_len(s) ==> !is_ws(#[trigger] s[j]),
        word_len(s) < s.len() ==> is_ws(s[word_len(s)]),
    decreases s.len(),
{
    if s.len() == 0 || is_ws(s[0]) {
    } else {
        lemma_word_len_bound(s.drop_first());
        assert forall|j: int| 0 <= j < word_len(s) implies !is_ws(#[trigger] s[j]) by {
            if j > 0 {
                assert(s[j] == s.drop_first()[j - 1]);
            }
        }
    }
}

proof fn lemma_word_len_exact(s: Seq<char>, n: int)
    requires
        0 <= n <= s.len(),
        forall|j: int| 0 <= j < n ==> !is_ws(#[trigger] s[j]),
        n < s.len() ==> is_ws(s[n]),
    ensures
        word_len(s) == n,
    decreases s.len(),
{
    if s.len() == 0 || is_ws(s[0]) {
        if n > 0 {
            assert(!is_ws(s[0]));
        }
    } else {
        if n == 0 {
            assert(is_ws(s[0]));
        } else {
            let t = s.drop_first();
            assert forall|j: int| 0 <= j < n - 1 implies !is_ws(#[trigger] t[j]) by {
                assert(t[j] == s[j + 1]);
            }
            if n - 1 < t.len() {
                assert(t[n - 1] == s[n]);
            }
            lemma_word_len_exact(t, n - 1);
        }
    }
}

proof fn lemma_dec_len(n: nat)
    ensures
        dec(n).len() >= 1,
        n >= 10 ==> dec(n).len() >= 2,
    decreases n,
{
    if n >= 10 {
        lemma_dec_len(n / 10);
    }
}

// ---------------------------------------------------------------------------
// Executable operations
// ---------------------------------------------------------------------------

/// Appends one character to a string (`String::push`).
#[verifier::external_body]
pub(crate) fn push_char(s: &mut String, c: char)
    ensures
        final(s)@ == old(s)@.push(c),
{
    s.push(c);
}

/// Appends a string slice (`String::push_str`).
pub fn push_str(s: &mut String, t: &str)
    ensures
        final(s)@ == old(s)@ + t@,
{
    s.append(t);
}

/// A new `String` holding `t`.
pub fn owned(t: &str) -> (s: String)
    ensures
        s@ == t@,
{
    t.to_owned()
}

/// The concatenation of two slices.
pub fn cat(a: &str, b: &str) -> (s: String)
    ensures
        s@ == a@ + b@,
{
    let mut s = a.to_owned();
    s.append(b);
    s
}

/// The characters of `s`, in order.
pub fn to_chars(s: &str) -> (v: Vec<char>)
    ensures
        v@ == s@,
{
    let mut v: Vec<char> = Vec::new();
    for c in it: s.chars()
        invariant
            v@ == it.seq().take(it.index() as int),
            it.seq() == s@,
    {
        v.push(c);
    }
    v
}

/// A string made of the given characters.
pub fn from_chars(v: &[char]) -> (s: String)
    ensures
        s@ == v@,
{
    let mut s = String::new();
    let mut i: usize = 0;
    while i < v.len()
        invariant
            i <= v.len(),
            s@ == v@.take(i as int),
        decreases v.len() - i,
    {
        push_char(&mut s, v[i]);
        assert(v@.take(i + 1) == v@.take(i as int).push(v@[i as int]));
        i = i + 1;
    }
    assert(v@.take(v.len() as int) == v@);
    s
}

/// The characters `v[from..to]` as a string.
pub fn from_range(v: &[char], from: usize, to: usize) -> (s: String)
    requires
        from <= to <= v.len(),
    ensures
        s@ == v@.subrange(from as int, to as int),
{
    let mut s = String::new();
    let mut i: usize = from;
    while i < to
        invariant
            from <= i <= to <= v.len(),
            s@ == v@.subrange(from as int, i as int),
        decreases to - i,
    {
        push_char(&mut s, v[i]);
        assert(v@.subrange(from as int, i + 1) == v@.subrange(from as int, i as int).push(
            v@[i as int],
        ));
        i = i + 1;
    }
    s
}

/// Whether `c` is white space (`char::is_whitespace`).
pub fn char_is_ws(c: char) -> (b: bool)
    ensures
        b == is_ws(c),
{
    c == '\t' || c == '\n' || c == '\u{0B}' || c == '\u{0C}' || c == '\r' || c == ' ' || c
        == '\u{85}' || c == '\u{A0}' || c == '\u{1680}' || ('\u{2000}' <= c && c <= '\u{200A}')
        || c == '\u{2028}' || c == '\u{2029}' || c == '\u{202F}' || c == '\u{205F}' || c
        == '\u{3000}'
}

/// Two character sequences are equal.
pub fn chars_eq(a: &[char], b: &[char]) -> (r: bool)
    ensures
        r == (a@ == b@),
{
    if a.len() != b.len() {
        return false;
    }
    let mut i: usize = 0;
    while i < a.len()
        invariant
            a.len() == b.len(),
            i <= a.len(),
            forall|j: int| 0 <= j < i ==> a@[j] == b@[j],
        decreases a.len() - i,
    {
        if a[i] != b[i] {
            return false;
        }
        i = i + 1;
    }
    assert(a@ == b@);
    true
}

/// `str::is_empty`.
pub fn is_empty(s: &str) -> (r: bool)
    ensures
        r == (s@.len() == 0),
{
    let v = to_chars(s);
    v.len() == 0
}

/// Two string slices are equal.
pub fn str_eq(a: &str, b: &str) -> (r: bool)
    ensures
        r == (a@ == b@),
{
    let x = to_chars(a);
    let y = to_chars(b);
    chars_eq(x.as_slice(), y.as_slice())
}

/// `p` occurs in `s` at position `i`.
pub fn occurs_at_exec(s: &[char], p: &[char], i: usize) -> (r: bool)
    ensures
        r == occurs_at(s@, p@, i as int),
{
    if i > s.len() || p.len() > s.len() - i {
        return false;
    }
    let mut j: usize = 0;
    while j < p.len()
        invariant
            i + p.len() <= s.len(),
            j <= p.len(),
            forall|k: int| 0 <= k < j ==> s@[i + k] == p@[k],
        decreases p.len() - j,
    {
        if s[i + j] != p[j] {
            assert(s@.subrange(i as int, i + p.len())[j as int] != p@[j as int]);
            return false;
        }
        j = j + 1;
    }
    assert(s@.subrange(i as int, i + p.len()) == p@);
    true
}

/// `pat` occurs somewhere in `s` (`str::contains`).
pub open spec fn contains_seq(s: Seq<char>, pat: Seq<char>) -> bool {
    exists|i: int| occurs_at(s, pat, i)
}

/// `str::contains`.
pub fn contains_str(s: &str, pat: &str) -> (r: bool)
    ensures
        r == contains_seq(s@, pat@),
{
    let sv = to_chars(s);
    let pv = to_chars(pat);
    let mut i: usize = 0;
    while i < sv.len()
        invariant
            sv@ == s@,
            pv@ == pat@,
            i <= sv.len(),
            forall|j: int| 0 <= j < i ==> !occurs_at(s@, pat@, j),
        decreases sv.len() - i,
    {
        if occurs_at_exec(sv.as_slice(), pv.as_slice(), i) {
            return true;
        }
        i = i + 1;
    }
    if pv.len() == 0 {
        assert(s@.subrange(sv@.len() as int, sv@.len() as int) =~= pat@);
        assert(occurs_at(s@, pat@, sv@.len() as int));
        return true;
    }
    assert forall|j: int| !occurs_at(s@, pat@, j) by {
        if j >= sv@.len() {
            assert(!occurs_at(s@, pat@, j));
        }
    }
    false
}

/// `str::starts_with`.
pub fn starts_with(s: &str, p: &str) -> (r: bool)
    ensures
        r == p@.is_prefix_of(s@),
{
    let sc = to_chars(s);
    let pc = to_chars(p);
    let r = occurs_at_exec(sc.as_slice(), pc.as_slice(), 0);
    proof {
        if r {
            assert(s@.subrange(0, p@.len() as int) == p@);
        }
        if p@.is_prefix_of(s@) {
            assert(s@.subrange(0, p@.len() as int) == p@);
        }
    }
    r
}

/// `str::ends_with`.
pub fn ends_with(s: &str, p: &str) -> (r: bool)
    ensures
        r == p@.is_suffix_of(s@),
{
    let sc = to_chars(s);
    let pc = to_chars(p);
    if pc.len() > sc.len() {
        return false;
    }
    let r = occurs_at_exec(sc.as_slice(), pc.as_slice(), sc.len() - pc.len());
    proof {
        if p@.is_suffix_of(s@) {
            assert(s@.subrange(s@.len() - p@.len(), s@.len() as int) == p@);
        }
    }
    r
}

/// The position of the first `c` in `v`.
pub fn find_char(v: &[char], c: char) -> (r: Option<usize>)
    ensures
        match r {
            Some(i) => i < v@.len() && is_first(v@, c, i as int) && first_pos(v@, c) == Some(
                i as int,
            ),
            None => first_pos(v@, c) is None,
        },
{
    let mut i: usize = 0;
    while i < v.len()
        invariant
            i <= v.len(),
            forall|j: int| 0 <= j < i ==> v@[j] != c,
        decreases v.len() - i,
    {
        if v[i] == c {
            proof {
                lemma_first_pos(v@, c, i as int);
            }
            return Some(i);
        }
        i = i + 1;
    }
    proof {
        lemma_first_pos_none(v@, c);
    }
    None
}

/// `str::split(c)`: the parts between the occurrences of `c` (one more
/// than there are occurrences).
pub open spec fn split_char(s: Seq<char>, c: char) -> Seq<Seq<char>>
    decreases s.len(),
{
    if s.len() == 0 {
        seq![seq![]]
    } else {
        let rest = split_char(s.drop_last(), c);
        if s.last() == c {
            rest.push(seq![])
        } else {
            rest.update(rest.len() - 1, rest.last().push(s.last()))
        }
    }
}

/// There is always a part.
pub proof fn lemma_split_char_nonempty(s: Seq<char>, c: char)
    ensures
        split_char(s, c).len() >= 1,
    decreases s.len(),
{
    if s.len() > 0 {
        lemma_split_char_nonempty(s.drop_last(), c);
    }
}

/// `str::split(c)`, collected.
pub fn split_char_exec(s: &str, c: char) -> (r: Vec<String>)
    ensures
        views(r@) == split_char(s@, c),
{
    let v = to_chars(s);
    let mut parts: Vec<String> = Vec::new();
    let mut cur = String::new();
    let mut i: usize = 0;
    assert(v@.take(0) =~= Seq::<char>::empty());
    assert(views(parts@).push(cur@) =~= split_char(v@.take(0), c));
    while i < v.len()
        invariant
            i <= v.len(),
            v@ == s@,
            views(parts@).push(cur@) == split_char(v@.take(i as int), c),
        decreases v.len() - i,
    {
        assert(v@.take(i + 1).drop_last() =~= v@.take(i as int));
        assert(v@.take(i + 1).last() == v@[i as int]);
        proof {
            lemma_split_char_nonempty(v@.take(i as int), c);
        }
        let ghost before = views(parts@);
        if v[i] == c {
            let done = cur;
            parts.push(done);
            cur = String::new();
            assert(views(parts@) =~= before.push(done@));
            assert(views(parts@).push(cur@) =~= before.push(done@).push(seq![]));
        } else {
            let ghost old_cur = cur@;
            push_char(&mut cur, v[i]);
            assert(views(parts@).push(cur@) =~= before.push(old_cur).update(
                before.len() as int,
                old_cur.push(v@[i as int]),
            ));
        }
        i = i + 1;
    }
    assert(v@.take(v.len() as int) =~= v@);
    let ghost before = views(parts@);
    let last = cur;
    parts.push(last);
    assert(views(parts@) =~= before.push(last@));
    parts
}

/// `str::split_once(c)`.
pub fn split_once_exec(s: &str, c: char) -> (r: Option<(String, String)>)
    ensures
        match r {
            Some((a, b)) => split_once(s@, c) == Some((a@, b@)),
            None => split_once(s@, c) is None,
        },
{
    let v = to_chars(s);
    match find_char(v.as_slice(), c) {
        Some(i) => {
            assert(i < v.len());
            let a = from_range(v.as_slice(), 0, i);
            let b = from_range(v.as_slice(), i + 1, v.len());
            proof {
                assert(a@ == s@.take(i as int));
                assert(b@ == s@.skip(i + 1));
            }
            Some((a, b))
        },
        None => None,
    }
}

/// `str::replace(from, to)` on character sequences.
pub fn replace_chars(s: &[char], from: &[char], to: &[char]) -> (r: Vec<char>)
    requires
        from@.len() > 0,
    ensures
        r@ == replace(s@, from@, to@),
{
    let mut out: Vec<char> = Vec::new();
    let mut i: usize = 0;
    assert(s@.skip(0) == s@);
    assert(out@ + s@ == s@);
    while i < s.len()
        invariant
            from@.len() > 0,
            i <= s.len(),
            out@ + replace(s@.skip(i as int), from@, to@) == replace(s@, from@, to@),
        decreases s.len() - i,
    {
        let rest = Ghost(s@.skip(i as int));
        assert(rest@.len() > 0);
        if occurs_at_exec(s, from, i) {
            proof {
                assert(rest@.take(from@.len() as int) == s@.subrange(i as int, i + from@.len()));
                assert(rest@.skip(from@.len() as int) == s@.skip(i + from@.len()));
            }
            let mut k: usize = 0;
            let ghost out0 = out@;
            while k < to.len()
                invariant
                    k <= to.len(),
                    out@ == out0 + to@.take(k as int),
                decreases to.len() - k,
            {
                out.push(to[k]);
                assert(to@.take(k + 1) == to@.take(k as int).push(to@[k as int]));
                k = k + 1;
            }
            assert(to@.take(to.len() as int) == to@);
            assert(out@ + replace(s@.skip(i + from@.len()), from@, to@) == out0 + replace(
                rest@,
                from@,
                to@,
            ));
            i = i + from.len();
        } else {
            proof {
                if rest@.len() >= from@.len() {
                    assert(rest@.take(from@.len() as int) == s@.subrange(
                        i as int,
                        i + from@.len(),
                    ));
                }
                assert(rest@.drop_first() == s@.skip(i + 1));
                assert(rest@[0] == s@[i as int]);
                if rest@.len() < from@.len() {
                    assert(replace(rest@, from@, to@) == rest@);
                    assert(replace(rest@.drop_first(), from@, to@) == rest@.drop_first());
                    assert(rest@ =~= seq![rest@[0]] + rest@.drop_first());
                }
            }
            let ghost out0 = out@;
            out.push(s[i]);
            assert(out@ == out0 + seq![s@[i as int]]);
            i = i + 1;
        }
    }
    assert(replace(s@.skip(s@.len() as int), from@, to@) == Seq::<char>::empty());
    assert(out@ + Seq::<char>::empty() == out@);
    out
}

/// `str::replace(from, to)`.
pub fn replace_str(s: &str, from: &str, to: &str) -> (r: String)
    ensures
        r@ == replace(s@, from@, to@),
{
    let sv = to_chars(s);
    let fv = to_chars(from);
    if fv.len() == 0 {
        return replace_empty_str(sv.as_slice(), to);
    }
    let tv = to_chars(to);
    let rv = replace_chars(sv.as_slice(), fv.as_slice(), tv.as_slice());
    from_chars(rv.as_slice())
}

/// `str::replace("", to)` on the characters of a string.
fn replace_empty_str(v: &[char], to: &str) -> (r: String)
    ensures
        r@ == replace_empty(v@, to@),
{
    let mut out = String::new();
    let mut i: usize = 0;
    assert(v@.skip(0) == v@);
    while i < v.len()
        invariant
            i <= v.len(),
            out@ + replace_empty(v@.skip(i as int), to@) == replace_empty(v@, to@),
        decreases v.len() - i,
    {
        let ghost rest = v@.skip(i as int);
        assert(rest[0] == v@[i as int]);
        assert(rest.drop_first() == v@.skip(i + 1));
        let ghost out0 = out@;
        push_str(&mut out, to);
        push_char(&mut out, v[i]);
        assert(out@ == out0 + to@ + seq![v@[i as int]]);
        assert(out@ + replace_empty(v@.skip(i + 1), to@) == out0 + replace_empty(rest, to@));
        i = i + 1;
    }
    assert(v@.skip(i as int) == Seq::<char>::empty());
    push_str(&mut out, to);
    out
}

/// `str::trim`.
pub fn trim_str(s: &str) -> (r: String)
    ensures
        r@ == trim(s@),
{
    let v = to_chars(s);
    let mut a: usize = 0;
    assert(v@.skip(0) == v@);
    while a < v.len() && char_is_ws(v[a])
        invariant
            a <= v.len(),
            drop_leading(v@.skip(a as int), ws_pred()) == drop_leading(
                v@,
                ws_pred(),
            ),
        decreases v.len() - a,
    {
        assert(v@.skip(a as int).drop_first() == v@.skip(a + 1));
        a = a + 1;
    }
    let ghost mid = v@.skip(a as int);
    assert(drop_leading(mid, ws_pred()) == mid);
    let mut b: usize = v.len();
    while b > a && char_is_ws(v[b - 1])
        invariant
            a <= b <= v.len(),
            mid == v@.skip(a as int),
            drop_trailing(v@.subrange(a as int, b as int), ws_pred()) == drop_trailing(
                mid,
                ws_pred(),
            ),
        decreases b - a,
    {
        assert(v@.subrange(a as int, b as int).drop_last() == v@.subrange(a as int, b - 1));
        b = b - 1;
    }
    assert(v@.skip(a as int) == v@.subrange(a as int, v.len() as int));
    let ghost fin = v@.subrange(a as int, b as int);
    assert(fin.len() == 0 || fin.last() == v@[b - 1]);
    from_range(v.as_slice(), a, b)
}

/// `s.trim_start_matches(lead).trim_end_matches(tail)`.
pub fn trim_ends_str(s: &str, lead: char, tail: char) -> (r: String)
    ensures
        r@ == drop_trailing(drop_leading(s@, eq_pred(lead)), eq_pred(tail)),
{
    let v = to_chars(s);
    let mut a: usize = 0;
    assert(v@.skip(0) == v@);
    while a < v.len() && v[a] == lead
        invariant
            a <= v.len(),
            drop_leading(v@.skip(a as int), eq_pred(lead)) == drop_leading(
                v@,
                eq_pred(lead),
            ),
        decreases v.len() - a,
    {
        assert(v@.skip(a as int).drop_first() == v@.skip(a + 1));
        a = a + 1;
    }
    let ghost mid = v@.skip(a as int);
    assert(drop_leading(mid, eq_pred(lead)) == mid);
    let mut b: usize = v.len();
    while b > a && v[b - 1] == tail
        invariant
            a <= b <= v.len(),
            mid == v@.skip(a as int),
            drop_trailing(v@.subrange(a as int, b as int), eq_pred(tail)) == drop_trailing(
                mid,
                eq_pred(tail),
            ),
        decreases b - a,
    {
        assert(v@.subrange(a as int, b as int).drop_last() == v@.subrange(a as int, b - 1));
        b = b - 1;
    }
    assert(v@.skip(a as int) == v@.subrange(a as int, v.len() as int));
    let ghost fin = v@.subrange(a as int, b as int);
    assert(fin.len() == 0 || fin.last() == v@[b - 1]);
    from_range(v.as_slice(), a, b)
}

/// `str::trim_matches(c)` for a single character.
pub fn trim_char_str(s: &str, c: char) -> (r: String)
    ensures
        r@ == trim_char(s@, c),
{
    trim_ends_str(s, c, c)
}

/// `str::to_ascii_lowercase`.
pub fn to_lower_str(s: &str) -> (r: String)
    ensures
        r@ == lower_seq(s@),
{
    let v = to_chars(s);
    let mut out = String::new();
    let mut i: usize = 0;
    while i < v.len()
        invariant
            i <= v.len(),
            out@ == lower_seq(v@.take(i as int)),
        decreases v.len() - i,
    {
        let c = v[i];
        let l = if 'A' <= c && c <= 'Z' {
            ((c as u32) + 32) as u8 as char
        } else {
            c
        };
        assert(l == lower(c)) by {
            if 'A' <= c && c <= 'Z' {
                assert((c as u32) + 32 < 256);
            }
        }
        push_char(&mut out, l);
        assert(lower_seq(v@.take(i + 1)) == lower_seq(v@.take(i as int)).push(lower(v@[i as int])));
        i = i + 1;
    }
    assert(v@.take(v.len() as int) == v@);
    out
}

/// `str::to_lowercase`: Unicode lower-casing, as std's tables give it.
pub uninterp spec fn unicode_lower(s: Seq<char>) -> Seq<char>;

/// std's `str::to_lowercase`; its result is named by [`unicode_lower`]
/// (the Unicode case tables are not restated here).
#[verifier::external_body]
pub(crate) fn to_lowercase_str(s: &str) -> (r: String)
    ensures
        r@ == unicode_lower(s@),
{
    s.to_lowercase()
}

/// `str::to_uppercase`: Unicode upper-casing, as std's tables give it.
pub uninterp spec fn unicode_upper(s: Seq<char>) -> Seq<char>;

/// std's `str::to_uppercase`; its result is named by [`unicode_upper`].
#[verifier::external_body]
pub(crate) fn to_uppercase_str(s: &str) -> (r: String)
    ensures
        r@ == unicode_upper(s@),
{
    s.to_uppercase()
}

/// The views of a sequence of strings.
pub open spec fn views(v: Seq<String>) -> Seq<Seq<char>> {
    v.map_values(|x: String| x@)
}

/// The position of the first `c` in `v` at or after `start`.
pub fn find_char_from(v: &[char], start: usize, c: char) -> (r: Option<usize>)
    requires
        start <= v.len(),
    ensures
        match r {
            Some(i) => start <= i < v@.len() && first_pos(v@.skip(start as int), c) == Some(
                i - start,
            ),
            None => first_pos(v@.skip(start as int), c) is None,
        },
{
    let ghost rest = v@.skip(start as int);
    let mut i: usize = start;
    while i < v.len()
        invariant
            start <= i <= v.len(),
            rest == v@.skip(start as int),
            forall|j: int| 0 <= j < i - start ==> rest[j] != c,
        decreases v.len() - i,
    {
        if v[i] == c {
            proof {
                assert(rest[i - start] == c);
                lemma_first_pos(rest, c, i - start);
            }
            return Some(i);
        }
        assert(rest[i - start] == v@[i as int]);
        i = i + 1;
    }
    proof {
        lemma_first_pos_none(rest, c);
    }
    None
}

/// The first position at or after `start` where `p` occurs in `s`.
#[verifier::opaque]
pub open spec fn first_occurrence(s: Seq<char>, p: Seq<char>, start: int) -> Option<int> {
    if exists|i: int| start <= i && occurs_at(s, p, i) {
        Some(
            choose|i: int|
                start <= i && occurs_at(s, p, i) && forall|j: int|
                    start <= j < i ==> !occurs_at(s, p, j),
        )
    } else {
        None
    }
}

pub proof fn lemma_first_occurrence(s: Seq<char>, p: Seq<char>, start: int, i: int)
    requires
        start <= i,
        occurs_at(s, p, i),
        forall|j: int| start <= j < i ==> !occurs_at(s, p, j),
    ensures
        first_occurrence(s, p, start) == Some(i),
{
    reveal(first_occurrence);
    let k = choose|k: int|
        start <= k && occurs_at(s, p, k) && forall|j: int| start <= j < k ==> !occurs_at(s, p, j);
    assert(start <= i && occurs_at(s, p, i));
    if k < i {
        assert(!occurs_at(s, p, k));
    }
    if k > i {
        assert(!occurs_at(s, p, i));
    }
}

pub proof fn lemma_first_occurrence_none(s: Seq<char>, p: Seq<char>, start: int)
    requires
        forall|j: int| start <= j ==> !occurs_at(s, p, j),
    ensures
        first_occurrence(s, p, start) is None,
{
    reveal(first_occurrence);
}

/// The position of the first `p` in `s` at or after `start`.
pub fn find_seq_from(s: &[char], p: &[char], start: usize) -> (r: Option<usize>)
    ensures
        match r {
            Some(i) => start <= i && occurs_at(s@, p@, i as int) && first_occurrence(
                s@,
                p@,
                start as int,
            ) == Some(i as int),
            None => first_occurrence(s@, p@, start as int) is None,
        },
{
    let mut i: usize = start;
    while i < s.len()
        invariant
            start <= i,
            forall|j: int| start <= j < i ==> !occurs_at(s@, p@, j),
        decreases s.len() - i,
    {
        if occurs_at_exec(s, p, i) {
            proof {
                lemma_first_occurrence(s@, p@, start as int, i as int);
            }
            return Some(i);
        }
        i = i + 1;
    }
    if i == s.len() && occurs_at_exec(s, p, i) {
        proof {
            lemma_first_occurrence(s@, p@, start as int, i as int);
        }
        return Some(i);
    }
    proof {
        assert forall|j: int| start <= j implies !occurs_at(s@, p@, j) by {
            if j > s@.len() {
                assert(!occurs_at(s@, p@, j));
            }
        }
        lemma_first_occurrence_none(s@, p@, start as int);
    }
    None
}

/// `str::lines`.
pub fn lines_exec(s: &str) -> (r: Vec<String>)
    ensures
        views(r@) == lines(s@),
{
    let v = to_chars(s);
    let n = v.len();
    let mut out: Vec<String> = Vec::new();
    let mut p: usize = 0;
    assert(v@.skip(0) == v@);
    while p < n
        invariant
            n == v.len(),
            p <= n,
            views(out@) + lines(v@.skip(p as int)) == lines(v@),
        decreases n - p,
    {
        let ghost rest = v@.skip(p as int);
        let ghost out0 = out@;
        match find_char_from(v.as_slice(), p, '\n') {
            Some(k) => {
                let mut e = k;
                if e > p && v[e - 1] == '\r' {
                    e = e - 1;
                }
                let line = from_range(v.as_slice(), p, e);
                proof {
                    assert(rest.take(k - p) == v@.subrange(p as int, k as int));
                    assert(line@ == strip_cr(rest.take(k - p)));
                    assert(rest.skip(k - p + 1) == v@.skip(k + 1));
                    assert(lines(rest) == seq![strip_cr(rest.take(k - p))] + lines(
                        rest.skip(k - p + 1),
                    ));
                }
                out.push(line);
                proof {
                    assert(views(out@) == views(out0).push(line@));
                    assert(views(out0).push(line@) + lines(v@.skip(k + 1)) == views(out0) + (seq![
                        line@,
                    ] + lines(v@.skip(k + 1))));
                }
                p = k + 1;
            },
            None => {
                let line = from_range(v.as_slice(), p, n);
                proof {
                    assert(line@ == rest);
                    assert(lines(rest) == seq![rest]);
                    assert(v@.skip(n as int) == Seq::<char>::empty());
                }
                out.push(line);
                proof {
                    assert(views(out@) == views(out0).push(line@));
                    assert(views(out@) + lines(v@.skip(n as int)) == views(out@));
                    assert(views(out0).push(line@) == views(out0) + seq![rest]);
                }
                p = n;
            },
        }
    }
    assert(v@.skip(n as int) == Seq::<char>::empty());
    assert(views(out@) + Seq::<Seq<char>>::empty() == views(out@));
    out
}

/// `str::split_whitespace`.
pub fn words_exec(s: &str) -> (r: Vec<String>)
    ensures
        views(r@) == words(s@),
{
    let v = to_chars(s);
    let n = v.len();
    let mut out: Vec<String> = Vec::new();
    let mut p: usize = 0;
    assert(v@.skip(0) == v@);
    while p < n
        invariant
            n == v.len(),
            p <= n,
            views(out@) + words(v@.skip(p as int)) == words(v@),
        decreases n - p,
    {
        let ghost rest = v@.skip(p as int);
        if char_is_ws(v[p]) {
            proof {
                assert(rest[0] == v@[p as int]);
                assert(rest.drop_first() == v@.skip(p + 1));
            }
            p = p + 1;
        } else {
            let mut e: usize = p;
            while e < n && !char_is_ws(v[e])
                invariant
                    p <= e <= n,
                    n == v.len(),
                    forall|j: int| p <= j < e ==> !is_ws(#[trigger] v@[j]),
                decreases n - e,
            {
                e = e + 1;
            }
            let word = from_range(v.as_slice(), p, e);
            proof {
                assert forall|j: int| 0 <= j < e - p implies !is_ws(#[trigger] rest[j]) by {
                    assert(rest[j] == v@[p + j]);
                }
                if e < n {
                    assert(rest[e - p] == v@[e as int]);
                }
                lemma_word_len_exact(rest, e - p);
                assert(rest[0] == v@[p as int]);
                assert(rest.take(e - p) == v@.subrange(p as int, e as int));
                assert(rest.skip(e - p) == v@.skip(e as int));
            }
            let ghost out0 = out@;
            out.push(word);
            proof {
                assert(views(out@) == views(out0).push(word@));
                assert(views(out0).push(word@) + words(v@.skip(e as int)) == views(out0) + (seq![
                    word@,
                ] + words(v@.skip(e as int))));
            }
            p = e;
        }
    }
    assert(v@.skip(n as int) == Seq::<char>::empty());
    assert(views(out@) + Seq::<Seq<char>>::empty() == views(out@));
    out
}

/// `parts` joined with `sep` (`[String]::join`).
pub fn join_exec(parts: &[String], sep: &str) -> (r: String)
    ensures
        r@ == join(views(parts@), sep@),
{
    let mut out = String::new();
    let mut i: usize = 0;
    while i < parts.len()
        invariant
            i <= parts.len(),
            out@ == join(views(parts@).take(i as int), sep@),
        decreases parts.len() - i,
    {
        let ghost vs = views(parts@);
        proof {
            assert(vs.take(i + 1).drop_last() == vs.take(i as int));
            assert(vs.take(i + 1).last() == parts@[i as int]@);
        }
        if i > 0 {
            out.append(sep);
        }
        out.append(parts[i].as_str());
        proof {
            if i == 0 {
                assert(vs.take(1) == seq![parts@[0]@]);
            }
        }
        i = i + 1;
    }
    assert(views(parts@).take(parts.len() as int) == views(parts@));
    out
}

/// The decimal form of `n`.
pub fn u64_to_string(n: u64) -> (r: String)
    ensures
        r@ == dec(n as nat),
    decreases n,
{
    if n < 10 {
        let mut s = String::new();
        push_char(&mut s, char_of_digit(n as u32));
        s
    } else {
        let mut s = u64_to_string(n / 10);
        push_char(&mut s, char_of_digit((n % 10) as u32));
        s
    }
}

/// The decimal form of a signed `n`.
pub fn i64_to_string(n: i64) -> (r: String)
    ensures
        r@ == dec_int(n as int),
{
    if n < 0 {
        let m: u64 = if n == i64::MIN {
            9223372036854775808u64
        } else {
            (-n) as u64
        };
        let mut s = String::new();
        push_char(&mut s, '-');
        let t = u64_to_string(m);
        s.append(t.as_str());
        s
    } else {
        u64_to_string(n as u64)
    }
}

/// The character of digit `d < 10`.
fn char_of_digit(d: u32) -> (c: char)
    requires
        d < 10,
    ensures
        c == digit(d as nat),
{
    if d == 0 {
        '0'
    } else if d == 1 {
        '1'
    } else if d == 2 {
        '2'
    } else if d == 3 {
        '3'
    } else if d == 4 {
        '4'
    } else if d == 5 {
        '5'
    } else if d == 6 {
        '6'
    } else if d == 7 {
        '7'
    } else if d == 8 {
        '8'
    } else {
        '9'
    }
}

/// The successive non-overlapping matches of the regular expression
/// `pattern` in `text`, as `regex::Regex::find_iter` yields them; nothing
/// where the pattern does not compile.
pub uninterp spec fn regex_matches(pattern: Seq<char>, text: Seq<char>) -> Option<Seq<Seq<char>>>;

/// `regex`: the texts of all matches of `pattern` in `text` (see
/// [`regex_matches`]).
#[verifier::external_body]
pub(crate) fn find_all(pattern: &str, text: &str) -> (r: Option<Vec<String>>)
    ensures
        match r {
            Some(v) => regex_matches(pattern@, text@) == Some(views(v@)),
            None => regex_matches(pattern@, text@) is None,
        },
{
    let re = regex::Regex::new(pattern).ok()?;
    Some(re.find_iter(text).map(|m| m.as_str().to_string()).collect())
}

/// What `regex::Regex::replace_all` makes of `text`: every match of
/// `pattern` replaced by `rep` (as a replacement template); nothing where
/// the pattern does not compile.
pub uninterp spec fn regex_replaced(pattern: Seq<char>, text: Seq<char>, rep: Seq<char>) -> Option<Seq<char>>;

/// `regex`: every match of `pattern` in `text` replaced (see
/// [`regex_replaced`]).
#[verifier::external_body]
pub(crate) fn replace_all(pattern: &str, text: &str, rep: &str) -> (r: Option<String>)
    ensures
        match r {
            Some(t) => regex_replaced(pattern@, text@, rep@) == Some(t@),
            None => regex_replaced(pattern@, text@, rep@) is None,
        },
{
    let re = regex::Regex::new(pattern).ok()?;
    Some(re.replace_all(text, rep).into_owned())
}

/// The text of capture group `k` of the first match of `pattern` in
/// `text`, as `regex::Regex::captures` finds it; nothing where there is no
/// match, the group took part in none, or the pattern does not compile.
pub uninterp spec fn regex_group(pattern: Seq<char>, text: Seq<char>, k: nat) -> Option<Seq<char>>;

/// `regex`: a capture group of the first match (see [`regex_group`]).
#[verifier::external_body]
pub(crate) fn capture_group(pattern: &str, text: &str, k: usize) -> (r: Option<String>)
    ensures
        match r {
            Some(g) => regex_group(pattern@, text@, k as nat) == Some(g@),
            None => regex_group(pattern@, text@, k as nat) is None,
        },
{
    let re = regex::Regex::new(pattern).ok()?;
    re.captures(text)?.get(k).map(|m| m.as_str().to_string())
}

/// The text of capture group `k` of every match of `pattern` in `text`,
/// in order, as `regex::Regex::captures_iter` yields them (`None` for a
/// match in which the group took no part); nothing where the pattern does
/// not compile.
pub uninterp spec fn regex_all_groups(pattern: Seq<char>, text: Seq<char>, k: nat) -> Option<Seq<Option<Seq<char>>>>;

/// `regex`: capture group `k` of every match (see [`regex_all_groups`]).
#[verifier::external_body]
pub(crate) fn all_captures(pattern: &str, text: &str, k: usize) -> (r: Option<Vec<Option<String>>>)
    ensures
        match r {
            Some(v) => regex_all_groups(pattern@, text@, k as nat) == Some(
                v@.map_values(|g: Option<String>| crate::feed::opt_view(g)),
            ),
            None => regex_all_groups(pattern@, text@, k as nat) is None,
        },
{
    let re = regex::Regex::new(pattern).ok()?;
    Some(re.captures_iter(text).map(|c| c.get(k).map(|m| m.as_str().to_string())).collect())
}

} // verus!
