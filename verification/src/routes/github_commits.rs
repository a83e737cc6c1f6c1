//! `/github_commits`: the latest commits on a GitHub repository's default
//! branch (GraphQL API).
use crate::dates::{or_else, rfc3339_to_rss_utc, rfc3339_utc_rfc2822};
use crate::easyuser::Params;
use crate::feed::{Feed, FeedItem, FeedItemView, FeedView};
use crate::github_common::{short_sha, short_sha_exec};
use crate::json::{json_as_array, json_as_str, json_index, quote, quoted, Json};
use crate::request_rules::RouteError;
use crate::routes::bilibili_live_area::usize_param;
use crate::routes::{nested_str, nested_str_exec};
use crate::text::{cat, dec, is_empty, push_str, u64_to_string};
use vstd::prelude::*;

verus! {

/// The GraphQL query: the default branch's first commits.
pub open spec fn commits_query() -> Seq<char> {
    "query($owner: String!, $repo: String!, $first: Int!) {\n            repository(owner: $owner, name: $repo) {\n                defaultBranchRef {\n                    name\n                    target {\n                        ... on Commit {\n                            history(first: $first) {\n                                totalCount\n                                nodes {\n                                    oid\n                                    messageHeadline\n                                    committedDate\n                                    author { name }\n                                }\n                            }\n                        }\n                    }\n                }\n            }\n        }"@
}

/// The number of commits asked for: parameter `limit` (10 by default), at
/// most 50.
pub open spec fn limit_of(para: Map<Seq<char>, Seq<char>>) -> usize {
    let l = usize_param(para, "limit"@, 10);
    if l < 50 {
        l
    } else {
        50
    }
}

/// The request body: the query and its variables, as `serde_json` writes
/// them (members in key order).
pub open spec fn body_text(owner: Seq<char>, repo: Seq<char>, limit: usize) -> Seq<char> {
    "{\"query\":"@ + quoted(commits_query()) + ",\"variables\":{\"first\":"@ + dec(limit as nat)
        + ",\"owner\":"@ + quoted(owner) + ",\"repo\":"@ + quoted(repo) + "}}"@
}

/// The request body for the parameters (`owner` and `repo` as
/// [`crate::github_common::owner_repo`] read them).
pub fn body(para: &Params, owner: &str, repo: &str) -> (r: String)
    ensures
        r@ == body_text(owner@, repo@, limit_of(para@)),
{
    let l: usize = match para.get("limit") {
        Some(v) => match crate::json::parse_usize(v.as_str()) {
            Some(n) => n,
            None => 10,
        },
        None => 10,
    };
    let limit = if l < 50 {
        l
    } else {
        50
    };
    let mut b = "{\"query\":".to_owned();
    push_str(&mut b, quote("query($owner: String!, $repo: String!, $first: Int!) {\n            repository(owner: $owner, name: $repo) {\n                defaultBranchRef {\n                    name\n                    target {\n                        ... on Commit {\n                            history(first: $first) {\n                                totalCount\n                                nodes {\n                                    oid\n                                    messageHeadline\n                                    committedDate\n                                    author { name }\n                                }\n                            }\n                        }\n                    }\n                }\n            }\n        }").as_str());
    push_str(&mut b, ",\"variables\":{\"first\":");
    push_str(&mut b, u64_to_string(limit as u64).as_str());
    push_str(&mut b, ",\"owner\":");
    push_str(&mut b, quote(owner).as_str());
    push_str(&mut b, ",\"repo\":");
    push_str(&mut b, quote(repo).as_str());
    push_str(&mut b, "}}");
    b
}

/// The commits of the answer (none where the path is missing).
pub open spec fn commits_of(json: Json) -> Seq<Json> {
    let h = json_index(
        json_index(
            json_index(json_index(json_index(json, "data"@), "repository"@), "defaultBranchRef"@),
            "target"@,
        ),
        "history"@,
    );
    match json_as_array(json_index(h, "nodes"@)) {
        Some(a) => a,
        None => seq![],
    }
}

/// The item of one commit, given its shortened id.
pub open spec fn commit_item(c: Json, short: Seq<char>, owner: Seq<char>, repo: Seq<char>, now: Seq<char>) -> FeedItemView {
    let oid = match json_as_str(json_index(c, "oid"@)) {
        Some(o) => o,
        None => seq![],
    };
    let author = nested_str(c, "author"@, "name"@);
    let date = match json_as_str(json_index(c, "committedDate"@)) {
        Some(d) => d,
        None => seq![],
    };
    FeedItemView {
        title: Some(
            match json_as_str(json_index(c, "messageHeadline"@)) {
                Some(t) => t,
                None => "(no message)"@,
            },
        ),
        link: Some("https://github.com/"@ + owner + "/"@ + repo + "/commit/"@ + oid),
        description: Some(
            "commit "@ + short + if author.len() == 0 {
                seq![]
            } else {
                "\nAuthor: "@ + author
            },
        ),
        pub_date: Some(or_else(rfc3339_utc_rfc2822(date), now)),
        author: None,
        guid: None,
        categories: seq![],
    }
}

/// A commit's id, or the empty text.
pub open spec fn oid_of(c: Json) -> Seq<char> {
    match json_as_str(json_index(c, "oid"@)) {
        Some(o) => o,
        None => seq![],
    }
}

/// The feed of the commits, or the failure; `Ok(None)` where shortening a
/// commit id panics.
pub open spec fn spec_feed(owner: Seq<char>, repo: Seq<char>, json: Json, now: Seq<char>) -> Result<
    Option<FeedView>,
    Seq<char>,
> {
    let cs = commits_of(json);
    if cs.len() == 0 {
        Err("Repository not found or no commits. Check owner/repo parameters"@)
    } else if exists|i: int| 0 <= i < cs.len() && short_sha(oid_of(#[trigger] cs[i])) is None {
        Ok(None)
    } else {
        Ok(
            Some(
                FeedView {
                    title: "GitHub Commits - "@ + owner + "/"@ + repo,
                    link: "https://github.com/"@ + owner + "/"@ + repo,
                    description: "GitHub repository recent commits on default branch (GraphQL)"@,
                    pub_date: None,
                    items: cs.map_values(
                        |c: Json| commit_item(c, short_sha(oid_of(c))->0, owner, repo, now),
                    ),
                },
            ),
        )
    }
}

fn commit_item_exec(c: &Json, short: &str, owner: &str, repo: &str, now: &str) -> (r: FeedItem)
    ensures
        r@ == commit_item(*c, short@, owner@, repo@, now@),
{
    let oid = match c.str_at("oid") {
        Some(o) => o.clone(),
        None => String::new(),
    };
    let author = nested_str_exec(c, "author", "name");
    let date = match c.str_at("committedDate") {
        Some(d) => d.clone(),
        None => String::new(),
    };
    let title = match c.str_at("messageHeadline") {
        Some(t) => t.clone(),
        None => "(no message)".to_owned(),
    };
    let mut link = cat("https://github.com/", owner);
    push_str(&mut link, "/");
    push_str(&mut link, repo);
    push_str(&mut link, "/commit/");
    push_str(&mut link, oid.as_str());
    let mut d = cat("commit ", short);
    if !is_empty(author.as_str()) {
        push_str(&mut d, "\nAuthor: ");
        push_str(&mut d, author.as_str());
    }
    assert(d@ =~= "commit "@ + short@ + (if author@.len() == 0 {
        Seq::<char>::empty()
    } else {
        "\nAuthor: "@ + author@
    }));
    let r = FeedItem {
        title: Some(title),
        link: Some(link),
        description: Some(d),
        pub_date: Some(rfc3339_to_rss_utc(date.as_str(), now)),
        author: None,
        guid: None,
        categories: Vec::new(),
    };
    assert(r@.categories =~= Seq::<Seq<char>>::empty());
    r
}

fn member_or_null<'a>(v: &'a Json, key: &str, null: &'a Json) -> (r: &'a Json)
    requires
        *null == Json::Null,
    ensures
        *r == json_index(*v, key@),
{
    match v.get(key) {
        Some(x) => x,
        None => null,
    }
}

/// The feed of the commits (see [`spec_feed`]); `json` is the GraphQL
/// answer, already checked for errors.
#[verifier::loop_isolation(false)]
pub fn build_feed(owner: &str, repo: &str, json: &Json, now: &str) -> (r: Result<Option<Feed>, RouteError>)
    ensures
        match r {
            Ok(Some(f)) => spec_feed(owner@, repo@, *json, now@) == Ok::<_, Seq<char>>(Some(f@)),
            Ok(None) => spec_feed(owner@, repo@, *json, now@) == Ok::<_, Seq<char>>(None::<FeedView>),
            Err(RouteError::Message(m)) => spec_feed(owner@, repo@, *json, now@) == Err::<Option<FeedView>, _>(m@),
            Err(_) => false,
        },
{
    let null = Json::Null;
    let d = member_or_null(json, "data", &null);
    let r1 = member_or_null(d, "repository", &null);
    let b = member_or_null(r1, "defaultBranchRef", &null);
    let t = member_or_null(b, "target", &null);
    let h = member_or_null(t, "history", &null);
    let n = member_or_null(h, "nodes", &null);
    let empty: Vec<Json> = Vec::new();
    let cs = match n {
        Json::Array(a) => a,
        _ => &empty,
    };
    assert(cs@ == commits_of(*json));
    if cs.len() == 0 {
        return Err(RouteError::msg("Repository not found or no commits. Check owner/repo parameters"));
    }
    let mut items: Vec<FeedItem> = Vec::new();
    let mut i: usize = 0;
    while i < cs.len()
        invariant
            i <= cs.len(),
            items.len() == i,
            forall|j: int| 0 <= j < i ==> short_sha(oid_of(#[trigger] cs@[j])) is Some,
            forall|j: int| 0 <= j < i ==> #[trigger] items@[j]@ == commit_item(
                cs@[j],
                short_sha(oid_of(cs@[j]))->0,
                owner@,
                repo@,
                now@,
            ),
        decreases cs.len() - i,
    {
        let oid = match cs[i].str_at("oid") {
            Some(o) => o.clone(),
            None => String::new(),
        };
        let short = match short_sha_exec(oid.as_str()) {
            Some(s) => s,
            None => {
                assert(short_sha(oid_of(cs@[i as int])) is None);
                return Ok(None);
            },
        };
        items.push(commit_item_exec(&cs[i], short.as_str(), owner, repo, now));
        i = i + 1;
    }
    let mut title = cat("GitHub Commits - ", owner);
    push_str(&mut title, "/");
    push_str(&mut title, repo);
    let mut link = cat("https://github.com/", owner);
    push_str(&mut link, "/");
    push_str(&mut link, repo);
    let f = Feed {
        title,
        link,
        description: "GitHub repository recent commits on default branch (GraphQL)".to_owned(),
        pub_date: None,
        items,
    };
    assert(f@.items =~= cs@.map_values(
        |c: Json| commit_item(c, short_sha(oid_of(c))->0, owner@, repo@, now@),
    ));
    Ok(Some(f))
}

/// Law: a commit links to `https://github.com/owner/repo/commit/` followed
/// by its `oid` and is titled by its `messageHeadline` (`(no message)`
/// where it has none).
pub proof fn law_commit_link(c: Json, short: Seq<char>, owner: Seq<char>, repo: Seq<char>, now: Seq<char>)
    ensures
        commit_item(c, short, owner, repo, now).link == Some(
            "https://github.com/"@ + owner + "/"@ + repo + "/commit/"@ + crate::routes::member_str(c, "oid"@),
        ),
        commit_item(c, short, owner, repo, now).title == Some(
            match crate::json::json_index(c, "messageHeadline"@) {
                Json::Str(t) => t@,
                _ => "(no message)"@,
            },
        ),
{
}

/// Law: a commit is dated by its `committedDate` (RFC 3339, moved to UTC),
/// `now` where that does not read.
pub proof fn law_commit_date(c: Json, short: Seq<char>, owner: Seq<char>, repo: Seq<char>, now: Seq<char>)
    ensures
        commit_item(c, short, owner, repo, now).pub_date == Some(
            or_else(rfc3339_utc_rfc2822(crate::routes::member_str(c, "committedDate"@)), now),
        ),
{
}

} // verus!
