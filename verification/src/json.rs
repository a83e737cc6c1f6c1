//! JSON values as the routes read them.
//!
//! Upstream APIs answer in JSON. The text is parsed where it is fetched and
//! handed here as a [`Json`] value; this module reads it the way
//! `serde_json::Value` is read: `value["key"]`, `pointer("/a/b/0")` and the
//! `as_*` accessors.
use crate::easyuser::split_on;
use crate::text::{cat, push_char, push_str, dec, dec_int, i64_to_string, replace, replace_str, str_eq, to_chars, u64_to_string};
use vstd::prelude::*;

verus! {

/// A JSON number: a non-negative integer, a negative integer, or any other
/// number, kept as the text `serde_json` writes for it.
#[derive(Debug)]
pub enum JsonNumber {
    PosInt(u64),
    NegInt(i64),
    Float(String),
}

/// A JSON value. Object members keep their order and each key occurs once.
#[derive(Debug)]
pub enum Json {
    Null,
    Bool(bool),
    Number(JsonNumber),
    Str(String),
    Array(Vec<Json>),
    Object(Vec<(String, Json)>),
}

// ---------------------------------------------------------------------------
// Specifications
// ---------------------------------------------------------------------------

/// The member `key` of an object; nothing for other values.
#[verifier::opaque]
pub open spec fn json_get(v: Json, key: Seq<char>) -> Option<Json> {
    match v {
        Json::Object(m) => if exists|i: int| 0 <= i < m@.len() && (#[trigger] m@[i]).0@ == key {
            let i = choose|i: int|
                0 <= i < m@.len() && (#[trigger] m@[i]).0@ == key && forall|j: int|
                    0 <= j < i ==> (#[trigger] m@[j]).0@ != key;
            Some(m@[i].1)
        } else {
            None
        },
        _ => None,
    }
}

/// `value["key"]`: the member, or `null` when there is none.
pub open spec fn json_index(v: Json, key: Seq<char>) -> Json {
    match json_get(v, key) {
        Some(x) => x,
        None => Json::Null,
    }
}

/// The decimal value of a string of ASCII digits.
pub open spec fn digits_value(t: Seq<char>) -> int
    decreases t.len(),
{
    if t.len() == 0 {
        0
    } else {
        digits_value(t.drop_last()) * 10 + (t.last() as int - '0' as int)
    }
}

/// An array index token: ASCII digits, no leading zero, no sign, within
/// `usize`.
pub open spec fn spec_parse_index(t: Seq<char>) -> Option<int> {
    if t.len() > 0 && (forall|i: int| 0 <= i < t.len() ==> '0' <= #[trigger] t[i] <= '9') && (t[0]
        != '0' || t.len() == 1) && digits_value(t) <= usize::MAX {
        Some(digits_value(t))
    } else {
        None
    }
}

/// One step of a JSON pointer.
pub open spec fn json_step(v: Json, token: Seq<char>) -> Option<Json> {
    match v {
        Json::Object(_) => json_get(v, token),
        Json::Array(a) => match spec_parse_index(token) {
            Some(i) => if i < a@.len() {
                Some(a@[i])
            } else {
                None
            },
            None => None,
        },
        _ => None,
    }
}

/// A pointer token with `~1` read as `/` and `~0` as `~`.
pub open spec fn unescape_token(t: Seq<char>) -> Seq<char> {
    replace(replace(t, "~1"@, "/"@), "~0"@, "~"@)
}

/// Following the tokens from `v`.
pub open spec fn json_walk(v: Json, tokens: Seq<Seq<char>>) -> Option<Json>
    decreases tokens.len(),
{
    if tokens.len() == 0 {
        Some(v)
    } else {
        match json_step(v, unescape_token(tokens[0])) {
            Some(next) => json_walk(next, tokens.drop_first()),
            None => None,
        }
    }
}

/// `Value::pointer` (RFC 6901): the empty pointer is the value itself; a
/// pointer must otherwise start with `/`, and its `/`-separated tokens are
/// followed in turn.
pub open spec fn json_pointer(v: Json, p: Seq<char>) -> Option<Json> {
    if p.len() == 0 {
        Some(v)
    } else if p[0] != '/' {
        None
    } else {
        json_walk(v, split_on(p.drop_first(), '/'))
    }
}

pub open spec fn json_as_str(v: Json) -> Option<Seq<char>> {
    match v {
        Json::Str(s) => Some(s@),
        _ => None,
    }
}

pub open spec fn json_as_i64(v: Json) -> Option<i64> {
    match v {
        Json::Number(JsonNumber::PosInt(u)) => if u <= i64::MAX {
            Some(u as i64)
        } else {
            None
        },
        Json::Number(JsonNumber::NegInt(i)) => Some(i),
        _ => None,
    }
}

pub open spec fn json_as_u64(v: Json) -> Option<u64> {
    match v {
        Json::Number(JsonNumber::PosInt(u)) => Some(u),
        _ => None,
    }
}

pub open spec fn json_as_bool(v: Json) -> Option<bool> {
    match v {
        Json::Bool(b) => Some(b),
        _ => None,
    }
}

pub open spec fn json_is_null(v: Json) -> bool {
    v is Null
}

/// The first member named `key` is what `json_get` finds.
pub proof fn lemma_json_get_at(v: Json, key: Seq<char>, i: int)
    requires
        v is Object,
        0 <= i < v->Object_0@.len(),
        v->Object_0@[i].0@ == key,
        forall|j: int| 0 <= j < i ==> (#[trigger] v->Object_0@[j]).0@ != key,
    ensures
        json_get(v, key) == Some(v->Object_0@[i].1),
{
    reveal(json_get);
    let m = v->Object_0;
    assert(0 <= i < m@.len() && m@[i].0@ == key);
    let k = choose|k: int|
        0 <= k < m@.len() && (#[trigger] m@[k]).0@ == key && forall|j: int|
            0 <= j < k ==> (#[trigger] m@[j]).0@ != key;
    if k < i {
        assert(m@[k].0@ != key);
    }
    if k > i {
        assert(m@[i].0@ != key);
    }
}

// ---------------------------------------------------------------------------
// Reading values
// ---------------------------------------------------------------------------

impl Json {
    /// The member `key` of an object.
    pub fn get(&self, key: &str) -> (r: Option<&Json>)
        ensures
            match r {
                Some(x) => json_get(*self, key@) == Some(*x),
                None => json_get(*self, key@) is None,
            },
    {
        proof {
            reveal(json_get);
        }
        match self {
            Json::Object(m) => {
                let mut i: usize = 0;
                while i < m.len()
                    invariant
                        *self == Json::Object(*m),
                        i <= m.len(),
                        forall|j: int| 0 <= j < i ==> (#[trigger] m@[j]).0@ != key@,
                    decreases m.len() - i,
                {
                    if str_eq(m[i].0.as_str(), key) {
                        proof {
                            lemma_json_get_at(*self, key@, i as int);
                        }
                        return Some(&m[i].1);
                    }
                    i = i + 1;
                }
                None
            },
            _ => None,
        }
    }

    pub fn as_str(&self) -> (r: Option<&String>)
        ensures
            match r {
                Some(s) => json_as_str(*self) == Some(s@),
                None => json_as_str(*self) is None,
            },
    {
        match self {
            Json::Str(s) => Some(s),
            _ => None,
        }
    }

    pub fn as_i64(&self) -> (r: Option<i64>)
        ensures
            r == json_as_i64(*self),
    {
        match self {
            Json::Number(JsonNumber::PosInt(u)) => if *u <= i64::MAX as u64 {
                Some(*u as i64)
            } else {
                None
            },
            Json::Number(JsonNumber::NegInt(i)) => Some(*i),
            _ => None,
        }
    }

    pub fn as_u64(&self) -> (r: Option<u64>)
        ensures
            r == json_as_u64(*self),
    {
        match self {
            Json::Number(JsonNumber::PosInt(u)) => Some(*u),
            _ => None,
        }
    }

    pub fn as_bool(&self) -> (r: Option<bool>)
        ensures
            r == json_as_bool(*self),
    {
        match self {
            Json::Bool(b) => Some(*b),
            _ => None,
        }
    }

    pub fn as_array(&self) -> (r: Option<&Vec<Json>>)
        ensures
            match r {
                Some(a) => *self == Json::Array(*a),
                None => !(*self is Array),
            },
    {
        match self {
            Json::Array(a) => Some(a),
            _ => None,
        }
    }

    pub fn is_null(&self) -> (r: bool)
        ensures
            r == json_is_null(*self),
    {
        match self {
            Json::Null => true,
            _ => false,
        }
    }

    /// One pointer step.
    fn step(&self, token: &str) -> (r: Option<&Json>)
        ensures
            match r {
                Some(x) => json_step(*self, token@) == Some(*x),
                None => json_step(*self, token@) is None,
            },
    {
        match self {
            Json::Object(_) => self.get(token),
            Json::Array(a) => match parse_index(token) {
                Some(i) => if i < a.len() {
                    Some(&a[i])
                } else {
                    None
                },
                None => None,
            },
            _ => None,
        }
    }

    /// `Value::pointer`.
    pub fn pointer(&self, p: &str) -> (r: Option<&Json>)
        ensures
            match r {
                Some(x) => json_pointer(*self, p@) == Some(*x),
                None => json_pointer(*self, p@) is None,
            },
    {
        let pc = to_chars(p);
        if pc.len() == 0 {
            return Some(self);
        }
        if pc[0] != '/' {
            return None;
        }
        let rest = crate::text::from_range(pc.as_slice(), 1, pc.len());
        assert(rest@ == p@.drop_first());
        let tokens = crate::easyuser::split_exec(rest.as_str(), '/');
        let ghost tv = crate::text::views(tokens@);
        let mut cur: &Json = self;
        let mut i: usize = 0;
        assert(tv.skip(0) == tv);
        while i < tokens.len()
            invariant
                p@.len() > 0,
                p@[0] == '/',
                i <= tokens.len(),
                tv == crate::text::views(tokens@),
                tv == split_on(p@.drop_first(), '/'),
                json_walk(*self, tv) == json_walk(*cur, tv.skip(i as int)),
            decreases tokens.len() - i,
        {
            assert(tv.skip(i as int)[0] == tokens@[i as int]@);
            assert(tv.skip(i as int).drop_first() == tv.skip(i + 1));
            let t = unescape(tokens[i].as_str());
            match cur.step(t.as_str()) {
                Some(next) => {
                    cur = next;
                },
                None => {
                    assert(json_walk(*cur, tv.skip(i as int)) is None);
                    return None;
                },
            }
            i = i + 1;
        }
        assert(tv.skip(tokens.len() as int) == Seq::<Seq<char>>::empty());
        Some(cur)
    }

    /// `value.pointer(p)` then `as_str`.
    pub fn pointer_str(&self, p: &str) -> (r: Option<&String>)
        ensures
            match r {
                Some(s) => json_pointer(*self, p@) matches Some(x) && json_as_str(x) == Some(s@),
                None => !(json_pointer(*self, p@) matches Some(x) && json_as_str(x) is Some),
            },
    {
        match self.pointer(p) {
            Some(x) => x.as_str(),
            None => None,
        }
    }

    /// `value["key"]` then `as_str`.
    pub fn str_at(&self, key: &str) -> (r: Option<&String>)
        ensures
            match r {
                Some(s) => json_as_str(json_index(*self, key@)) == Some(s@),
                None => json_as_str(json_index(*self, key@)) is None,
            },
    {
        match self.get(key) {
            Some(x) => x.as_str(),
            None => None,
        }
    }

    /// `value["key"]` then `as_i64`.
    pub fn i64_at(&self, key: &str) -> (r: Option<i64>)
        ensures
            r == json_as_i64(json_index(*self, key@)),
    {
        match self.get(key) {
            Some(x) => x.as_i64(),
            None => None,
        }
    }

    /// `value["key"]` then `as_u64`.
    pub fn u64_at(&self, key: &str) -> (r: Option<u64>)
        ensures
            r == json_as_u64(json_index(*self, key@)),
    {
        match self.get(key) {
            Some(x) => x.as_u64(),
            None => None,
        }
    }

    /// `value["key"]` then `as_bool`.
    pub fn bool_at(&self, key: &str) -> (r: Option<bool>)
        ensures
            r == json_as_bool(json_index(*self, key@)),
    {
        match self.get(key) {
            Some(x) => x.as_bool(),
            None => None,
        }
    }
}

/// The string at pointer `p` (`pointer(p).and_then(Value::as_str)`).
pub open spec fn ptr_str(v: Json, p: Seq<char>) -> Option<Seq<char>> {
    match json_pointer(v, p) {
        Some(x) => json_as_str(x),
        None => None,
    }
}

/// The string at pointer `p`, or the empty string.
pub open spec fn ptr_str_or(v: Json, p: Seq<char>) -> Seq<char> {
    match ptr_str(v, p) {
        Some(s) => s,
        None => seq![],
    }
}

/// The unsigned integer at pointer `p`.
pub open spec fn ptr_u64(v: Json, p: Seq<char>) -> Option<u64> {
    match json_pointer(v, p) {
        Some(x) => json_as_u64(x),
        None => None,
    }
}

/// The signed integer at pointer `p`.
pub open spec fn ptr_i64(v: Json, p: Seq<char>) -> Option<i64> {
    match json_pointer(v, p) {
        Some(x) => json_as_i64(x),
        None => None,
    }
}

/// The decimal text of the unsigned integer at `p`, or the empty string.
pub open spec fn ptr_u64_text(v: Json, p: Seq<char>) -> Seq<char> {
    match ptr_u64(v, p) {
        Some(n) => dec(n as nat),
        None => seq![],
    }
}

/// The decimal text of the signed integer at `p`, or the empty string.
pub open spec fn ptr_i64_text(v: Json, p: Seq<char>) -> Seq<char> {
    match ptr_i64(v, p) {
        Some(n) => dec_int(n as int),
        None => seq![],
    }
}

/// The elements of an array; nothing for other values.
pub open spec fn json_as_array(v: Json) -> Option<Seq<Json>> {
    match v {
        Json::Array(a) => Some(a@),
        _ => None,
    }
}

/// The elements of the array at pointer `p`.
pub open spec fn ptr_array(v: Json, p: Seq<char>) -> Option<Seq<Json>> {
    match json_pointer(v, p) {
        Some(Json::Array(a)) => Some(a@),
        _ => None,
    }
}

/// The value at pointer `p`, or `null` (`pointer(p).unwrap_or(&Value::Null)`).
pub open spec fn ptr_or_null(v: Json, p: Seq<char>) -> Json {
    match json_pointer(v, p) {
        Some(x) => x,
        None => Json::Null,
    }
}

impl Json {
    /// `pointer(p).and_then(Value::as_str)`.
    pub fn ptr_text(&self, p: &str) -> (r: Option<&String>)
        ensures
            match r {
                Some(s) => ptr_str(*self, p@) == Some(s@),
                None => ptr_str(*self, p@) is None,
            },
    {
        match self.pointer(p) {
            Some(x) => x.as_str(),
            None => None,
        }
    }

    /// `pointer(p).and_then(Value::as_str).unwrap_or("")`, owned.
    pub fn str_or_empty(&self, p: &str) -> (r: String)
        ensures
            r@ == ptr_str_or(*self, p@),
    {
        match self.ptr_text(p) {
            Some(s) => s.clone(),
            None => String::new(),
        }
    }

    /// `pointer(p).and_then(Value::as_u64)`.
    pub fn ptr_u64(&self, p: &str) -> (r: Option<u64>)
        ensures
            r == ptr_u64(*self, p@),
    {
        match self.pointer(p) {
            Some(x) => x.as_u64(),
            None => None,
        }
    }

    /// `pointer(p).and_then(Value::as_i64)`.
    pub fn ptr_i64(&self, p: &str) -> (r: Option<i64>)
        ensures
            r == ptr_i64(*self, p@),
    {
        match self.pointer(p) {
            Some(x) => x.as_i64(),
            None => None,
        }
    }

    /// The unsigned integer at `p` in decimal, or the empty string.
    pub fn u64_text(&self, p: &str) -> (r: String)
        ensures
            r@ == ptr_u64_text(*self, p@),
    {
        match self.ptr_u64(p) {
            Some(n) => u64_to_string(n),
            None => String::new(),
        }
    }

    /// The signed integer at `p` in decimal, or the empty string.
    pub fn i64_text(&self, p: &str) -> (r: String)
        ensures
            r@ == ptr_i64_text(*self, p@),
    {
        match self.ptr_i64(p) {
            Some(n) => i64_to_string(n),
            None => String::new(),
        }
    }

    /// `pointer(p).and_then(Value::as_array)`.
    pub fn ptr_array(&self, p: &str) -> (r: Option<&Vec<Json>>)
        ensures
            match r {
                Some(a) => ptr_array(*self, p@) == Some(a@),
                None => ptr_array(*self, p@) is None,
            },
    {
        match self.pointer(p) {
            Some(x) => x.as_array(),
            None => None,
        }
    }
}

/// What an embedded JSON text parses to, by a table of texts and their
/// values (`None` for a text that is not JSON); the first entry for the
/// text counts, and a text with no entry counts as not JSON.
pub open spec fn parsed_text(table: Seq<(String, Option<Json>)>, t: Seq<char>) -> Option<Json> {
    if exists|i: int| 0 <= i < table.len() && (#[trigger] table[i]).0@ == t {
        let i = choose|i: int|
            0 <= i < table.len() && (#[trigger] table[i]).0@ == t && forall|j: int|
                0 <= j < i ==> (#[trigger] table[j]).0@ != t;
        table[i].1
    } else {
        None
    }
}

/// Looks a text up in a table of parsed texts (see [`parsed_text`]).
pub fn lookup_parsed<'a>(table: &'a [(String, Option<Json>)], t: &str) -> (r: Option<&'a Json>)
    ensures
        match r {
            Some(x) => parsed_text(table@, t@) == Some(*x),
            None => parsed_text(table@, t@) is None,
        },
{
    let mut i: usize = 0;
    while i < table.len()
        invariant
            i <= table.len(),
            forall|j: int| 0 <= j < i ==> (#[trigger] table@[j]).0@ != t@,
        decreases table.len() - i,
    {
        if str_eq(table[i].0.as_str(), t) {
            proof {
                let k = choose|k: int|
                    0 <= k < table@.len() && (#[trigger] table@[k]).0@ == t@ && forall|j: int|
                        0 <= j < k ==> (#[trigger] table@[j]).0@ != t@;
                assert(0 <= i < table@.len() && table@[i as int].0@ == t@);
                if k < i {
                    assert(table@[k].0@ != t@);
                }
                if k > i {
                    assert(table@[i as int].0@ != t@);
                }
            }
            return match &table[i].1 {
                Some(x) => Some(x),
                None => None,
            };
        }
        i = i + 1;
    }
    None
}

/// A hexadecimal digit in lower case, for `d < 16`.
pub open spec fn hex_lower(d: nat) -> char {
    if d < 10 {
        (('0' as u32) + d) as char
    } else {
        (('a' as u32) + d - 10) as char
    }
}

/// How `serde_json` writes one character inside a string.
pub open spec fn escape_char(c: char) -> Seq<char> {
    if c == '"' {
        seq!['\\', '"']
    } else if c == '\\' {
        seq!['\\', '\\']
    } else if c == '\u{08}' {
        seq!['\\', 'b']
    } else if c == '\u{0C}' {
        seq!['\\', 'f']
    } else if c == '\n' {
        seq!['\\', 'n']
    } else if c == '\r' {
        seq!['\\', 'r']
    } else if c == '\t' {
        seq!['\\', 't']
    } else if (c as u32) < 0x20 {
        seq!['\\', 'u', '0', '0', hex_lower((c as u32 / 16) as nat), hex_lower((c as u32 % 16) as nat)]
    } else {
        seq![c]
    }
}

/// The characters of a string as `serde_json` writes them between quotes.
pub open spec fn escape_str(s: Seq<char>) -> Seq<char>
    decreases s.len(),
{
    if s.len() == 0 {
        seq![]
    } else {
        escape_str(s.drop_last()) + escape_char(s.last())
    }
}

/// A string as a JSON string literal.
pub open spec fn quoted(s: Seq<char>) -> Seq<char> {
    seq!['"'] + escape_str(s) + seq!['"']
}

/// `Value::to_string`: the compact JSON text of a value, object members in
/// the order they are kept.
pub open spec fn json_text(v: Json) -> Seq<char>
    decreases v,
{
    match v {
        Json::Null => "null"@,
        Json::Bool(b) => if b {
            "true"@
        } else {
            "false"@
        },
        Json::Number(JsonNumber::PosInt(u)) => dec(u as nat),
        Json::Number(JsonNumber::NegInt(i)) => dec_int(i as int),
        Json::Number(JsonNumber::Float(t)) => t@,
        Json::Str(s) => quoted(s@),
        Json::Array(a) => seq!['['] + items_text(a@) + seq![']'],
        Json::Object(m) => seq!['{'] + members_text(m@) + seq!['}'],
    }
}

/// Array elements written and separated by `,`.
pub open spec fn items_text(items: Seq<Json>) -> Seq<char>
    decreases items,
{
    if items.len() == 0 {
        seq![]
    } else if items.len() == 1 {
        json_text(items[0])
    } else {
        items_text(items.drop_last()) + seq![','] + json_text(items.last())
    }
}

/// Object members written as `"key":value` and separated by `,`.
pub open spec fn members_text(m: Seq<(String, Json)>) -> Seq<char>
    decreases m,
{
    if m.len() == 0 {
        seq![]
    } else if m.len() == 1 {
        quoted(m[0].0@) + seq![':'] + json_text(m[0].1)
    } else {
        members_text(m.drop_last()) + seq![','] + quoted(m.last().0@) + seq![':'] + json_text(
            m.last().1,
        )
    }
}

fn hex_lower_exec(d: u32) -> (r: char)
    requires
        d < 16,
    ensures
        r == hex_lower(d as nat),
{
    if d < 10 {
        char_of(('0' as u32) + d)
    } else {
        char_of(('a' as u32) + d - 10)
    }
}

fn char_of(n: u32) -> (r: char)
    requires
        ('0' as u32) <= n <= ('9' as u32) || ('a' as u32) <= n <= ('f' as u32),
    ensures
        r == n as char,
{
    let b = n as u8;
    assert(b as u32 == n);
    b as char
}

/// Appends the escaped form of one character.
fn push_escaped(out: &mut String, c: char)
    ensures
        final(out)@ == old(out)@ + escape_char(c),
{
    let ghost o = out@;
    if c == '"' {
        push_char(out, '\\');
        push_char(out, '"');
    } else if c == '\\' {
        push_char(out, '\\');
        push_char(out, '\\');
    } else if c == '\u{08}' {
        push_char(out, '\\');
        push_char(out, 'b');
    } else if c == '\u{0C}' {
        push_char(out, '\\');
        push_char(out, 'f');
    } else if c == '\n' {
        push_char(out, '\\');
        push_char(out, 'n');
    } else if c == '\r' {
        push_char(out, '\\');
        push_char(out, 'r');
    } else if c == '\t' {
        push_char(out, '\\');
        push_char(out, 't');
    } else if (c as u32) < 0x20 {
        push_char(out, '\\');
        push_char(out, 'u');
        push_char(out, '0');
        push_char(out, '0');
        push_char(out, hex_lower_exec(c as u32 / 16));
        push_char(out, hex_lower_exec(c as u32 % 16));
    } else {
        push_char(out, c);
    }
    assert(out@ =~= o + escape_char(c));
}

/// A string as a JSON string literal (see [`quoted`]).
pub fn quote(s: &str) -> (r: String)
    ensures
        r@ == quoted(s@),
{
    let v = to_chars(s);
    let mut out = String::new();
    push_char(&mut out, '"');
    let mut i: usize = 0;
    while i < v.len()
        invariant
            i <= v.len(),
            v@ == s@,
            out@ == seq!['"'] + escape_str(s@.take(i as int)),
        decreases v.len() - i,
    {
        assert(s@.take(i + 1).drop_last() == s@.take(i as int));
        assert(s@.take(i + 1).last() == v@[i as int]);
        push_escaped(&mut out, v[i]);
        i = i + 1;
    }
    assert(s@.take(v.len() as int) == s@);
    push_char(&mut out, '"');
    out
}

/// `Value::to_string` (see [`json_text`]).
pub fn json_to_string(v: &Json) -> (r: String)
    ensures
        r@ == json_text(*v),
    decreases v,
{
    match v {
        Json::Null => "null".to_owned(),
        Json::Bool(b) => if *b {
            "true".to_owned()
        } else {
            "false".to_owned()
        },
        Json::Number(JsonNumber::PosInt(u)) => u64_to_string(*u),
        Json::Number(JsonNumber::NegInt(i)) => i64_to_string(*i),
        Json::Number(JsonNumber::Float(t)) => t.clone(),
        Json::Str(s) => quote(s.as_str()),
        Json::Array(a) => {
            let mut out = String::new();
            push_char(&mut out, '[');
            let mut i: usize = 0;
            while i < a.len()
                invariant
                    i <= a.len(),
                    *v == Json::Array(*a),
                    out@ == seq!['['] + items_text(a@.take(i as int)),
                decreases a.len() - i,
            {
                assert(a@.take(i + 1).drop_last() == a@.take(i as int));
                assert(a@.take(i + 1).last() == a@[i as int]);
                let ghost o = out@;
                if i > 0 {
                    push_char(&mut out, ',');
                }
                proof {
                    assert(decreases_to!(*v => (*v)->Array_0));
                    assert(decreases_to!(*a => a@));
                    assert(decreases_to!(a@ => a@[i as int]));
                }
                let t = json_to_string(&a[i]);
                push_str(&mut out, t.as_str());
                proof {
                    if i == 0 {
                        assert(a@.take(1)[0] == a@[0]);
                        assert(items_text(a@.take(0)) == Seq::<char>::empty());
                        assert(out@ =~= seq!['['] + items_text(a@.take(1)));
                    } else {
                        assert(out@ =~= seq!['['] + items_text(a@.take(i + 1)));
                    }
                }
                i = i + 1;
            }
            assert(a@.take(a.len() as int) == a@);
            push_char(&mut out, ']');
            out
        },
        Json::Object(m) => {
            let mut out = String::new();
            push_char(&mut out, '{');
            let mut i: usize = 0;
            while i < m.len()
                invariant
                    i <= m.len(),
                    *v == Json::Object(*m),
                    out@ == seq!['{'] + members_text(m@.take(i as int)),
                decreases m.len() - i,
            {
                assert(m@.take(i + 1).drop_last() == m@.take(i as int));
                assert(m@.take(i + 1).last() == m@[i as int]);
                if i > 0 {
                    push_char(&mut out, ',');
                }
                push_str(&mut out, quote(m[i].0.as_str()).as_str());
                push_char(&mut out, ':');
                proof {
                    assert(decreases_to!(*v => (*v)->Object_0));
                    assert(decreases_to!(*m => m@));
                    assert(decreases_to!(m@ => m@[i as int]));
                    assert(decreases_to!(m@[i as int] => m@[i as int].1));
                }
                let t = json_to_string(&m[i].1);
                push_str(&mut out, t.as_str());
                proof {
                    if i == 0 {
                        assert(m@.take(1)[0] == m@[0]);
                        assert(out@ =~= seq!['{'] + members_text(m@.take(1)));
                    } else {
                        assert(out@ =~= seq!['{'] + members_text(m@.take(i + 1)));
                    }
                }
                i = i + 1;
            }
            assert(m@.take(m.len() as int) == m@);
            push_char(&mut out, '}');
            out
        },
    }
}

/// `format!("{:?}", s)` of a string: std's debug quoting (escapes and
/// Unicode rules of `char::escape_debug`).
pub uninterp spec fn debug_quoted(s: Seq<char>) -> Seq<char>;

/// std's `Debug` for `str`; its result is named by [`debug_quoted`].
#[verifier::external_body]
fn debug_quote(s: &str) -> (r: String)
    ensures
        r@ == debug_quoted(s@),
{
    format!("{:?}", s)
}

/// `format!("{:?}", value)` as `serde_json::Value` writes it: `Null`,
/// `Bool(..)`, `Number(..)`, `String("..")`, `Array [..]`, `Object {..}`.
pub open spec fn json_debug(v: Json) -> Seq<char>
    decreases v,
{
    match v {
        Json::Null => "Null"@,
        Json::Bool(b) => "Bool("@ + (if b {
            "true"@
        } else {
            "false"@
        }) + ")"@,
        Json::Number(JsonNumber::PosInt(u)) => "Number("@ + dec(u as nat) + ")"@,
        Json::Number(JsonNumber::NegInt(i)) => "Number("@ + dec_int(i as int) + ")"@,
        Json::Number(JsonNumber::Float(t)) => "Number("@ + t@ + ")"@,
        Json::Str(s) => "String("@ + debug_quoted(s@) + ")"@,
        Json::Array(a) => "Array ["@ + items_debug(a@) + "]"@,
        Json::Object(m) => "Object {"@ + members_debug(m@) + "}"@,
    }
}

/// Array elements in debug form, separated by `, `.
pub open spec fn items_debug(items: Seq<Json>) -> Seq<char>
    decreases items,
{
    if items.len() == 0 {
        seq![]
    } else if items.len() == 1 {
        json_debug(items[0])
    } else {
        items_debug(items.drop_last()) + ", "@ + json_debug(items.last())
    }
}

/// Object members in debug form, `"key": value`, separated by `, `.
pub open spec fn members_debug(m: Seq<(String, Json)>) -> Seq<char>
    decreases m,
{
    if m.len() == 0 {
        seq![]
    } else if m.len() == 1 {
        debug_quoted(m[0].0@) + ": "@ + json_debug(m[0].1)
    } else {
        members_debug(m.drop_last()) + ", "@ + debug_quoted(m.last().0@) + ": "@ + json_debug(
            m.last().1,
        )
    }
}

/// `format!("{:?}", value)` (see [`json_debug`]).
pub fn json_debug_string(v: &Json) -> (r: String)
    ensures
        r@ == json_debug(*v),
    decreases v,
{
    match v {
        Json::Null => "Null".to_owned(),
        Json::Bool(b) => {
            let mut o = cat("Bool(", if *b {
                "true"
            } else {
                "false"
            });
            push_str(&mut o, ")");
            o
        },
        Json::Number(JsonNumber::PosInt(u)) => {
            let mut o = cat("Number(", u64_to_string(*u).as_str());
            push_str(&mut o, ")");
            o
        },
        Json::Number(JsonNumber::NegInt(i)) => {
            let mut o = cat("Number(", i64_to_string(*i).as_str());
            push_str(&mut o, ")");
            o
        },
        Json::Number(JsonNumber::Float(t)) => {
            let mut o = cat("Number(", t.as_str());
            push_str(&mut o, ")");
            o
        },
        Json::Str(s) => {
            let mut o = cat("String(", debug_quote(s.as_str()).as_str());
            push_str(&mut o, ")");
            o
        },
        Json::Array(a) => {
            let mut out = "Array [".to_owned();
            let mut i: usize = 0;
            assert(items_debug(a@.take(0)) == Seq::<char>::empty());
            while i < a.len()
                invariant
                    i <= a.len(),
                    *v == Json::Array(*a),
                    out@ == "Array ["@ + items_debug(a@.take(i as int)),
                decreases a.len() - i,
            {
                assert(a@.take(i + 1).drop_last() == a@.take(i as int));
                assert(a@.take(i + 1).last() == a@[i as int]);
                if i > 0 {
                    push_str(&mut out, ", ");
                }
                proof {
                    assert(decreases_to!(*v => (*v)->Array_0));
                    assert(decreases_to!(*a => a@));
                    assert(decreases_to!(a@ => a@[i as int]));
                }
                let t = json_debug_string(&a[i]);
                push_str(&mut out, t.as_str());
                proof {
                    if i == 0 {
                        assert(a@.take(1)[0] == a@[0]);
                    }
                    assert(out@ =~= "Array ["@ + items_debug(a@.take(i + 1)));
                }
                i = i + 1;
            }
            assert(a@.take(a.len() as int) == a@);
            push_str(&mut out, "]");
            out
        },
        Json::Object(m) => {
            let mut out = "Object {".to_owned();
            let mut i: usize = 0;
            assert(members_debug(m@.take(0)) == Seq::<char>::empty());
            while i < m.len()
                invariant
                    i <= m.len(),
                    *v == Json::Object(*m),
                    out@ == "Object {"@ + members_debug(m@.take(i as int)),
                decreases m.len() - i,
            {
                assert(m@.take(i + 1).drop_last() == m@.take(i as int));
                assert(m@.take(i + 1).last() == m@[i as int]);
                if i > 0 {
                    push_str(&mut out, ", ");
                }
                push_str(&mut out, debug_quote(m[i].0.as_str()).as_str());
                push_str(&mut out, ": ");
                proof {
                    assert(decreases_to!(*v => (*v)->Object_0));
                    assert(decreases_to!(*m => m@));
                    assert(decreases_to!(m@ => m@[i as int]));
                    assert(decreases_to!(m@[i as int] => m@[i as int].1));
                }
                let t = json_debug_string(&m[i].1);
                push_str(&mut out, t.as_str());
                proof {
                    if i == 0 {
                        assert(m@.take(1)[0] == m@[0]);
                    }
                    assert(out@ =~= "Object {"@ + members_debug(m@.take(i + 1)));
                }
                i = i + 1;
            }
            assert(m@.take(m.len() as int) == m@);
            push_str(&mut out, "}");
            out
        },
    }
}

/// Reads `~1` as `/` and `~0` as `~`.
fn unescape(t: &str) -> (r: String)
    ensures
        r@ == unescape_token(t@),
{
    proof {
        reveal_strlit("~1");
        reveal_strlit("~0");
    }
    let a = replace_str(t, "~1", "/");
    replace_str(a.as_str(), "~0", "~")
}

/// Parses an array index token.
pub fn parse_index(t: &str) -> (r: Option<usize>)
    ensures
        match r {
            Some(i) => spec_parse_index(t@) == Some(i as int),
            None => spec_parse_index(t@) is None,
        },
{
    let v = to_chars(t);
    if v.len() == 0 {
        return None;
    }
    if v[0] == '0' && v.len() != 1 {
        return None;
    }
    let mut acc: usize = 0;
    let mut i: usize = 0;
    while i < v.len()
        invariant
            i <= v.len(),
            v@ == t@,
            forall|j: int| 0 <= j < i ==> '0' <= #[trigger] v@[j] <= '9',
            acc as int == digits_value(v@.take(i as int)),
        decreases v.len() - i,
    {
        let c = v[i];
        if c < '0' || c > '9' {
            return None;
        }
        let d = (c as u32 - '0' as u32) as usize;
        assert(v@.take(i + 1).drop_last() == v@.take(i as int));
        if acc > (usize::MAX - d) / 10 {
            proof {
                // every longer prefix is at least as large
                lemma_digits_prefix_monotone(v@, i + 1);
            }
            return None;
        }
        acc = acc * 10 + d;
        i = i + 1;
    }
    assert(v@.take(v.len() as int) == v@);
    Some(acc)
}

/// Every character is an ASCII digit.
pub open spec fn all_digits(t: Seq<char>) -> bool {
    forall|i: int| 0 <= i < t.len() ==> '0' <= #[trigger] t[i] <= '9'
}

/// The text after an optional leading sign.
pub open spec fn unsigned_part(t: Seq<char>) -> Seq<char> {
    if t.len() > 0 && (t[0] == '-' || t[0] == '+') {
        t.drop_first()
    } else {
        t
    }
}

/// `str::parse::<i64>`: an optional `+` or `-`, then one or more ASCII
/// digits, within the range of `i64`.
pub open spec fn spec_parse_i64(t: Seq<char>) -> Option<i64> {
    let neg = t.len() > 0 && t[0] == '-';
    let body = unsigned_part(t);
    if body.len() > 0 && all_digits(body) {
        let v = digits_value(body);
        if neg && v <= 0x8000_0000_0000_0000 {
            Some((-v) as i64)
        } else if !neg && v <= i64::MAX {
            Some(v as i64)
        } else {
            None
        }
    } else {
        None
    }
}

/// `str::parse::<i64>().ok()`.
pub fn parse_i64(t: &str) -> (r: Option<i64>)
    ensures
        r == spec_parse_i64(t@),
{
    let v = to_chars(t);
    let signed = v.len() > 0 && (v[0] == '-' || v[0] == '+');
    let neg = v.len() > 0 && v[0] == '-';
    let start: usize = if signed {
        1
    } else {
        0
    };
    let ghost body = unsigned_part(t@);
    assert(body == v@.skip(start as int));
    assert(signed == (t@.len() > 0 && (t@[0] == '-' || t@[0] == '+')));
    assert(neg == (t@.len() > 0 && t@[0] == '-'));
    if v.len() == start {
        return None;
    }
    let mut acc: u64 = 0;
    let mut i: usize = start;
    while i < v.len()
        invariant
            start <= i <= v.len(),
            v@ == t@,
            body == v@.skip(start as int),
            body == unsigned_part(t@),
            forall|j: int| 0 <= j < i - start ==> '0' <= #[trigger] body[j] <= '9',
            acc as int == digits_value(body.take(i - start)),
        decreases v.len() - i,
    {
        let c = v[i];
        assert(body[i - start] == c);
        if c < '0' || c > '9' {
            assert(!('0' <= body[i - start] <= '9'));
            assert(!all_digits(body));
            return None;
        }
        let d = (c as u32 - '0' as u32) as u64;
        assert(body.take(i - start + 1).drop_last() == body.take(i - start));
        assert(body.take(i - start + 1).last() == c);
        assert(digits_value(body.take(i - start + 1)) == acc * 10 + d);
        if acc > (u64::MAX - d) / 10 {
            proof {
                lemma_digits_prefix_monotone(body, i - start + 1);
                assert(acc * 10 + d > u64::MAX) by (nonlinear_arith)
                    requires
                        acc > (u64::MAX - d) / 10,
                        d <= 9,
                ;
                if all_digits(body) {
                    assert(digits_value(body) > u64::MAX);
                }
            }
            return None;
        }
        acc = acc * 10 + d;
        i = i + 1;
    }
    assert(body.take(body.len() as int) == body);
    if neg {
        if acc <= 0x8000_0000_0000_0000 {
            if acc == 0x8000_0000_0000_0000 {
                Some(i64::MIN)
            } else {
                Some(-(acc as i64))
            }
        } else {
            None
        }
    } else if acc <= i64::MAX as u64 {
        Some(acc as i64)
    } else {
        None
    }
}

/// `str::parse::<usize>`: an optional `+`, then one or more ASCII digits,
/// within the range of `usize`.
pub open spec fn spec_parse_usize(t: Seq<char>) -> Option<usize> {
    let body = if t.len() > 0 && t[0] == '+' {
        t.drop_first()
    } else {
        t
    };
    if body.len() > 0 && all_digits(body) && digits_value(body) <= usize::MAX {
        Some(digits_value(body) as usize)
    } else {
        None
    }
}

/// `str::parse::<usize>().ok()`.
pub fn parse_usize(t: &str) -> (r: Option<usize>)
    ensures
        r == spec_parse_usize(t@),
{
    let v = to_chars(t);
    let start: usize = if v.len() > 0 && v[0] == '+' {
        1
    } else {
        0
    };
    let ghost body = if t@.len() > 0 && t@[0] == '+' {
        t@.drop_first()
    } else {
        t@
    };
    assert(body == v@.skip(start as int));
    if v.len() == start {
        return None;
    }
    let mut acc: usize = 0;
    let mut i: usize = start;
    while i < v.len()
        invariant
            start <= i <= v.len(),
            v@ == t@,
            body == v@.skip(start as int),
            body == (if t@.len() > 0 && t@[0] == '+' {
                t@.drop_first()
            } else {
                t@
            }),
            forall|j: int| 0 <= j < i - start ==> '0' <= #[trigger] body[j] <= '9',
            acc as int == digits_value(body.take(i - start)),
        decreases v.len() - i,
    {
        let c = v[i];
        assert(body[i - start] == c);
        if c < '0' || c > '9' {
            assert(!('0' <= body[i - start] <= '9'));
            assert(!all_digits(body));
            return None;
        }
        let d = (c as u32 - '0' as u32) as usize;
        assert(body.take(i - start + 1).drop_last() == body.take(i - start));
        assert(body.take(i - start + 1).last() == c);
        assert(digits_value(body.take(i - start + 1)) == acc * 10 + d);
        if acc > (usize::MAX - d) / 10 {
            proof {
                lemma_digits_prefix_monotone(body, i - start + 1);
                assert(acc * 10 + d > usize::MAX) by (nonlinear_arith)
                    requires
                        acc > (usize::MAX - d) / 10,
                        d <= 9,
                ;
            }
            return None;
        }
        acc = acc * 10 + d;
        i = i + 1;
    }
    assert(body.take(body.len() as int) == body);
    Some(acc)
}

proof fn lemma_digits_prefix_monotone(t: Seq<char>, k: int)
    requires
        0 <= k <= t.len(),
        forall|j: int| 0 <= j < k ==> '0' <= #[trigger] t[j] <= '9',
    ensures
        (forall|j: int| 0 <= j < t.len() ==> '0' <= #[trigger] t[j] <= '9') ==> digits_value(t)
            >= digits_value(t.take(k)),
    decreases t.len() - k,
{
    if k < t.len() {
        if forall|j: int| 0 <= j < t.len() ==> '0' <= #[trigger] t[j] <= '9' {
            lemma_digits_prefix_monotone(t, k + 1);
            assert(t.take(k + 1).drop_last() == t.take(k));
            assert(digits_value(t.take(k)) >= 0) by {
                lemma_digits_nonneg(t.take(k));
            }
        }
    } else {
        assert(t.take(k) == t);
    }
}

proof fn lemma_digits_nonneg(t: Seq<char>)
    requires
        forall|j: int| 0 <= j < t.len() ==> '0' <= #[trigger] t[j] <= '9',
    ensures
        digits_value(t) >= 0,
    decreases t.len(),
{
    if t.len() > 0 {
        lemma_digits_nonneg(t.drop_last());
    }
}

} // verus!
