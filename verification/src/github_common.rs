//! What the GitHub routes share: the token, request headers, error objects
//! of the REST and GraphQL APIs, and the `owner`/`repo` parameters.
use crate::easyuser::{pair_views, Params};
use crate::routes::Fetch;
use crate::json::{json_as_str, json_index, Json};
use crate::request_rules::RouteError;
use crate::text::{contains_seq, contains_str, push_str, str_eq};
use vstd::prelude::*;

verus! {

/// The GitHub REST API v3 base address.
pub const API: &'static str = "https://api.github.com";

/// The GitHub GraphQL endpoint.
pub const GQL: &'static str = "https://api.github.com/graphql";

/// The message asking for a token.
pub open spec fn missing_token_message() -> Seq<char> {
    "Environment variable GITHUB_TOKEN is required (GitHub PAT). See docs."@
}

/// The personal access token from the environment variable `GITHUB_TOKEN`,
/// whose value (if set) the caller passes in.
pub fn token(env_value: Option<String>) -> (r: Result<String, RouteError>)
    ensures
        match env_value {
            Some(t) => r == Ok::<String, RouteError>(t),
            None => r matches Err(RouteError::Message(m)) && m@ == missing_token_message(),
        },
{
    match env_value {
        Some(t) => Ok(t),
        None => Err(
            RouteError::msg("Environment variable GITHUB_TOKEN is required (GitHub PAT). See docs."),
        ),
    }
}

/// The views of a list of headers.
pub open spec fn header_pairs(v: Seq<(&str, String)>) -> Seq<(Seq<char>, Seq<char>)> {
    v.map_values(|p: (&str, String)| (p.0@, p.1@))
}

/// The headers of a REST request.
pub open spec fn spec_rest_headers(token: Seq<char>) -> Seq<(Seq<char>, Seq<char>)> {
    seq![
        ("Authorization"@, "Bearer "@ + token),
        ("User-Agent"@, "rssust-github-router/1.0"@),
        ("Accept"@, "application/vnd.github+json"@),
    ]
}

pub fn rest_headers(token: &str) -> (r: Vec<(&'static str, String)>)
    ensures
        header_pairs(r@) == spec_rest_headers(token@),
{
    let mut auth = "Bearer ".to_owned();
    push_str(&mut auth, token);
    let r = vec![
        ("Authorization", auth),
        ("User-Agent", "rssust-github-router/1.0".to_owned()),
        ("Accept", "application/vnd.github+json".to_owned()),
    ];
    assert(header_pairs(r@) =~= spec_rest_headers(token@));
    r
}

/// The headers of a REST request with its own `Accept` value: the standard
/// `Accept` removed and the given one appended.
pub fn rest_headers_with_accept(token: &str, accept: &str) -> (r: Vec<(&'static str, String)>)
    ensures
        header_pairs(r@) == seq![
            ("Authorization"@, "Bearer "@ + token@),
            ("User-Agent"@, "rssust-github-router/1.0"@),
            ("Accept"@, accept@),
        ],
{
    let mut auth = "Bearer ".to_owned();
    push_str(&mut auth, token);
    let r = vec![
        ("Authorization", auth),
        ("User-Agent", "rssust-github-router/1.0".to_owned()),
        ("Accept", accept.to_owned()),
    ];
    assert(header_pairs(r@) =~= seq![
        ("Authorization"@, "Bearer "@ + token@),
        ("User-Agent"@, "rssust-github-router/1.0"@),
        ("Accept"@, accept@),
    ]);
    r
}

/// `refs_from`: the headers as pairs of string slices.
pub fn refs_from<'a>(headers: &'a [(&'a str, String)]) -> (r: Vec<(&'a str, &'a str)>)
    ensures
        r@.len() == headers@.len(),
        forall|i: int|
            0 <= i < r@.len() ==> (#[trigger] r@[i]).0@ == headers@[i].0@ && r@[i].1@
                == headers@[i].1@,
{
    let mut r: Vec<(&'a str, &'a str)> = Vec::new();
    let mut i: usize = 0;
    while i < headers.len()
        invariant
            i <= headers.len(),
            r@.len() == i,
            forall|k: int|
                0 <= k < i ==> (#[trigger] r@[k]).0@ == headers@[k].0@ && r@[k].1@
                    == headers@[k].1@,
        decreases headers.len() - i,
    {
        r.push((headers[i].0, headers[i].1.as_str()));
        i = i + 1;
    }
    r
}

/// A GET request of the REST API for `url`, with the token.
pub fn rest_request(url: &str, token: &str) -> (r: Fetch)
    ensures
        r.url@ == url@,
        pair_views(r.headers@) == spec_rest_headers(token@),
{
    let hs = rest_headers(token);
    let mut headers: Vec<(String, String)> = Vec::new();
    let mut i: usize = 0;
    while i < hs.len()
        invariant
            i <= hs.len(),
            header_pairs(hs@) == spec_rest_headers(token@),
            pair_views(headers@) == header_pairs(hs@).take(i as int),
        decreases hs.len() - i,
    {
        let ghost before = pair_views(headers@);
        headers.push((hs[i].0.to_owned(), hs[i].1.clone()));
        assert(pair_views(headers@) =~= before.push((hs@[i as int].0@, hs@[i as int].1@)));
        assert(header_pairs(hs@).take(i + 1) =~= header_pairs(hs@).take(i as int).push(
            (hs@[i as int].0@, hs@[i as int].1@),
        ));
        i = i + 1;
    }
    assert(header_pairs(hs@).take(hs.len() as int) == header_pairs(hs@));
    Fetch { url: url.to_owned(), headers }
}

/// The headers of a GraphQL request.
pub fn gql_headers(token: &str) -> (r: Vec<(&'static str, String)>)
    ensures
        header_pairs(r@) == seq![
            ("Authorization"@, "Bearer "@ + token@),
            ("User-Agent"@, "rssust-github-router/1.0"@),
        ],
{
    let mut auth = "Bearer ".to_owned();
    push_str(&mut auth, token);
    let r = vec![("Authorization", auth), ("User-Agent", "rssust-github-router/1.0".to_owned())];
    assert(header_pairs(r@) =~= seq![
        ("Authorization"@, "Bearer "@ + token@),
        ("User-Agent"@, "rssust-github-router/1.0"@),
    ]);
    r
}

/// The hint added when a 403 mentions the token or inaccessible resources.
pub open spec fn pat_hint() -> Seq<char> {
    " (可能因 PAT 权限不足，请检查 token 的仓库权限)"@
}

/// A REST answer with a string `message` is an error: `GitHub API error:
/// {message}`, with a hint about token permissions when `status` is `"403"`
/// and the message mentions `not accessible` or `token`.
pub open spec fn spec_rest_error(json: Json) -> Option<Seq<char>> {
    match json_as_str(json_index(json, "message"@)) {
        Some(msg) => {
            let hint = if json_as_str(json_index(json, "status"@)) == Some("403"@) && (contains_seq(
                msg,
                "not accessible"@,
            ) || contains_seq(msg, "token"@)) {
                pat_hint()
            } else {
                Seq::<char>::empty()
            };
            Some("GitHub API error: "@ + msg + hint)
        },
        None => None,
    }
}

pub fn rest_error(json: &Json) -> (r: Result<(), RouteError>)
    ensures
        match spec_rest_error(*json) {
            Some(m) => r matches Err(RouteError::Message(x)) && x@ == m,
            None => r is Ok,
        },
{
    match json.str_at("message") {
        Some(msg) => {
            let is403 = match json.str_at("status") {
                Some(st) => str_eq(st.as_str(), "403"),
                None => false,
            };
            let mut text = "GitHub API error: ".to_owned();
            push_str(&mut text, msg.as_str());
            if is403 && (contains_str(msg.as_str(), "not accessible") || contains_str(
                msg.as_str(),
                "token",
            )) {
                push_str(&mut text, " (可能因 PAT 权限不足，请检查 token 的仓库权限)");
            } else {
                assert(text@ + Seq::<char>::empty() == text@);
            }
            Err(RouteError::Message(text))
        },
        None => Ok(()),
    }
}

/// A GraphQL answer with a non-empty `errors` array is an error, named by
/// the first error's `message` (`GraphQL 错误` when it has none).
pub open spec fn spec_gql_error(json: Json) -> Option<Seq<char>> {
    match json_index(json, "errors"@) {
        Json::Array(errs) => if errs@.len() > 0 {
            let m = match json_as_str(json_index(errs@[0], "message"@)) {
                Some(m) => m,
                None => "GraphQL 错误"@,
            };
            Some("GitHub API error: "@ + m)
        } else {
            None
        },
        _ => None,
    }
}

pub fn gql_error(json: &Json) -> (r: Result<(), RouteError>)
    ensures
        match spec_gql_error(*json) {
            Some(m) => r matches Err(RouteError::Message(x)) && x@ == m,
            None => r is Ok,
        },
{
    let errs = match json.get("errors") {
        Some(e) => e,
        None => {
            return Ok(());
        },
    };
    match errs.as_array() {
        Some(a) => {
            if a.len() == 0 {
                return Ok(());
            }
            let mut text = "GitHub API error: ".to_owned();
            match a[0].str_at("message") {
                Some(m) => push_str(&mut text, m.as_str()),
                None => push_str(&mut text, "GraphQL 错误"),
            }
            Err(RouteError::Message(text))
        },
        None => Ok(()),
    }
}

/// The `owner` and `repo` parameters, each required.
pub fn owner_repo(para: &Params) -> (r: Result<(String, String), RouteError>)
    ensures
        match r {
            Ok((o, p)) => para@.contains_key("owner"@) && para@["owner"@] == o@
                && para@.contains_key("repo"@) && para@["repo"@] == p@,
            Err(RouteError::Message(m)) => (!para@.contains_key("owner"@) && m@
                == "Missing owner parameter (repository owner)"@) || (para@.contains_key("owner"@)
                && !para@.contains_key("repo"@) && m@
                == "Missing repo parameter (repository name)"@),
            Err(_) => false,
        },
{
    let owner = match para.get("owner") {
        Some(o) => o.clone(),
        None => {
            return Err(RouteError::msg("Missing owner parameter (repository owner)"));
        },
    };
    let repo = match para.get("repo") {
        Some(p) => p.clone(),
        None => {
            return Err(RouteError::msg("Missing repo parameter (repository name)"));
        },
    };
    Ok((owner, repo))
}

/// How many bytes UTF-8 takes for `c`.
pub open spec fn utf8_width(c: char) -> nat {
    if (c as u32) < 0x80 {
        1
    } else if (c as u32) < 0x800 {
        2
    } else if (c as u32) < 0x10000 {
        3
    } else {
        4
    }
}

/// The length of `s` in UTF-8 bytes (`str::len`).
pub open spec fn byte_len(s: Seq<char>) -> nat
    decreases s.len(),
{
    if s.len() == 0 {
        0
    } else {
        utf8_width(s[0]) + byte_len(s.drop_first())
    }
}

/// The characters that fill exactly the first `n` bytes of `s`; nothing
/// where byte `n` falls inside a character.
pub open spec fn byte_prefix(s: Seq<char>, n: nat) -> Option<Seq<char>>
    decreases s.len(),
{
    if n == 0 {
        Some(seq![])
    } else if s.len() == 0 || utf8_width(s[0]) > n {
        None
    } else {
        match byte_prefix(s.drop_first(), (n - utf8_width(s[0])) as nat) {
            Some(p) => Some(seq![s[0]] + p),
            None => None,
        }
    }
}

/// A commit id shortened as `if s.len() >= 7 { &s[..7] } else { s }`;
/// nothing where that slice would cut a character (and panic).
pub open spec fn short_sha(s: Seq<char>) -> Option<Seq<char>> {
    if byte_len(s) >= 7 {
        byte_prefix(s, 7)
    } else {
        Some(s)
    }
}

fn width_exec(c: char) -> (r: usize)
    ensures
        r == utf8_width(c),
{
    let u = c as u32;
    if u < 0x80 {
        1
    } else if u < 0x800 {
        2
    } else if u < 0x10000 {
        3
    } else {
        4
    }
}

proof fn lemma_byte_len_skip(s: Seq<char>, i: int)
    requires
        0 <= i < s.len(),
    ensures
        byte_len(s.skip(i)) == utf8_width(s[i]) + byte_len(s.skip(i + 1)),
{
    assert(s.skip(i)[0] == s[i]);
    assert(s.skip(i).drop_first() =~= s.skip(i + 1));
}

/// A commit id shortened (see [`short_sha`]).
pub fn short_sha_exec(s: &str) -> (r: Option<String>)
    ensures
        crate::feed::opt_view(r) == short_sha(s@),
{
    let v = crate::text::to_chars(s);
    // the byte length, counted up to 7
    let mut total: usize = 0;
    let mut i: usize = 0;
    assert(v@.skip(0) =~= v@);
    while i < v.len() && total < 7
        invariant
            i <= v.len(),
            v@ == s@,
            total < 7 || i > 0,
            total <= 10,
            byte_len(s@) == total + byte_len(v@.skip(i as int)),
        decreases v.len() - i,
    {
        proof {
            lemma_byte_len_skip(v@, i as int);
        }
        total = total + width_exec(v[i]);
        i = i + 1;
    }
    if total < 7 {
        assert(v@.skip(i as int) =~= Seq::<char>::empty());
        return Some(s.to_owned());
    }
    // the characters that fill the first 7 bytes
    let mut used: usize = 0;
    let mut k: usize = 0;
    assert(v@.take(0) =~= Seq::<char>::empty());
    while k < v.len() && used < 7 && used + width_exec(v[k]) <= 7
        invariant
            k <= v.len(),
            v@ == s@,
            used <= 7,
            byte_prefix(s@, 7) == match byte_prefix(v@.skip(k as int), (7 - used) as nat) {
                Some(p) => Some(v@.take(k as int) + p),
                None => None::<Seq<char>>,
            },
        decreases v.len() - k,
    {
        proof {
            let rest = v@.skip(k as int);
            assert(rest[0] == v@[k as int]);
            assert(rest.drop_first() =~= v@.skip(k + 1));
            assert(v@.take(k + 1) =~= v@.take(k as int) + seq![v@[k as int]]);
            match byte_prefix(v@.skip(k + 1), (7 - used - utf8_width(v@[k as int])) as nat) {
                Some(p) => {
                    assert(v@.take(k as int) + (seq![v@[k as int]] + p) =~= v@.take(k + 1) + p);
                },
                None => {},
            }
        }
        used = used + width_exec(v[k]);
        k = k + 1;
    }
    if used == 7 {
        assert(v@.take(k as int) + Seq::<char>::empty() =~= v@.take(k as int));
        Some(crate::text::from_range(v.as_slice(), 0, k))
    } else {
        None
    }
}

} // verus!
