//! `/github_branch`: the branches of a GitHub repository (REST API).
use crate::easyuser::Params;
use crate::feed::{Feed, FeedItem, FeedItemView, FeedView};
use crate::github_common::{short_sha, short_sha_exec};
use crate::json::{json_as_bool, json_index, Json};
use crate::request_rules::RouteError;
use crate::routes::bilibili_live_area::usize_param;
use crate::routes::{member_str, member_str_exec, nested_str, nested_str_exec};
use crate::text::{cat, dec, push_str, u64_to_string};
use vstd::prelude::*;

verus! {

/// The page size: parameter `limit` (30 by default), at most 100.
pub open spec fn limit_of(para: Map<Seq<char>, Seq<char>>) -> usize {
    let l = usize_param(para, "limit"@, 30);
    if l < 100 {
        l
    } else {
        100
    }
}

/// The REST address of the branches.
pub open spec fn api_url(owner: Seq<char>, repo: Seq<char>, limit: usize) -> Seq<char> {
    "https://api.github.com/repos/"@ + owner + "/"@ + repo + "/branches?per_page="@ + dec(limit as nat)
}

/// The REST address of the branches for the parameters (`owner` and `repo`
/// as [`crate::github_common::owner_repo`] read them).
pub fn api_url_exec(para: &Params, owner: &str, repo: &str) -> (r: String)
    ensures
        r@ == api_url(owner@, repo@, limit_of(para@)),
{
    let l: usize = match para.get("limit") {
        Some(v) => match crate::json::parse_usize(v.as_str()) {
            Some(n) => n,
            None => 30,
        },
        None => 30,
    };
    let limit = if l < 100 {
        l
    } else {
        100
    };
    let mut url = cat("https://api.github.com/repos/", owner);
    push_str(&mut url, "/");
    push_str(&mut url, repo);
    push_str(&mut url, "/branches?per_page=");
    push_str(&mut url, u64_to_string(limit as u64).as_str());
    url
}

/// The branch's code page.
pub open spec fn tree_url(owner: Seq<char>, repo: Seq<char>, name: Seq<char>) -> Seq<char> {
    "https://github.com/"@ + owner + "/"@ + repo + "/tree/"@ + name
}

/// The item of one branch, given its shortened commit id; dated `now`.
pub open spec fn branch_item(b: Json, short: Seq<char>, owner: Seq<char>, repo: Seq<char>, now: Seq<char>) -> FeedItemView {
    let name = member_str(b, "name"@);
    FeedItemView {
        title: Some(name),
        link: Some(tree_url(owner, repo, name)),
        description: Some(
            "commit: "@ + short + "<br>protected: "@ + (if json_as_bool(json_index(b, "protected"@))
                == Some(true) {
                "是"@
            } else {
                "否"@
            }) + "<br><a href=\""@ + tree_url(owner, repo, name) + "\">查看代码</a>"@,
        ),
        pub_date: Some(now),
        author: None,
        guid: Some(("https://github.com/"@ + owner + "/"@ + repo + "/branch/"@ + name, false)),
        categories: seq![],
    }
}

/// Some branch's commit id cannot be shortened without cutting a
/// character, which makes the shortening panic.
pub open spec fn any_uncut(bs: Seq<Json>) -> bool {
    exists|i: int| 0 <= i < bs.len() && short_sha(nested_str(#[trigger] bs[i], "commit"@, "sha"@)) is None
}

/// The feed of the branches, or the failure; `Ok(None)` where shortening a
/// commit id panics.
pub open spec fn spec_feed(owner: Seq<char>, repo: Seq<char>, json: Json, now: Seq<char>) -> Result<
    Option<FeedView>,
    Seq<char>,
> {
    match json {
        Json::Array(bs) => if bs@.len() == 0 {
            Err("No branches found. Check owner/repo parameters"@)
        } else if any_uncut(bs@) {
            Ok(None)
        } else {
            Ok(
                Some(
                    FeedView {
                        title: "GitHub Branches - "@ + owner + "/"@ + repo,
                        link: "https://github.com/"@ + owner + "/"@ + repo + "/branches"@,
                        description: "GitHub repository "@ + owner + "/"@ + repo + " branches"@,
                        pub_date: None,
                        items: bs@.map_values(
                            |b: Json|
                                branch_item(
                                    b,
                                    short_sha(nested_str(b, "commit"@, "sha"@))->0,
                                    owner,
                                    repo,
                                    now,
                                ),
                        ),
                    },
                ),
            )
        },
        _ => Err("GitHub API returned unexpected response"@),
    }
}

fn branch_item_exec(b: &Json, short: &str, owner: &str, repo: &str, now: &str) -> (r: FeedItem)
    ensures
        r@ == branch_item(*b, short@, owner@, repo@, now@),
{
    let name = member_str_exec(b, "name");
    let mut tree = cat("https://github.com/", owner);
    push_str(&mut tree, "/");
    push_str(&mut tree, repo);
    push_str(&mut tree, "/tree/");
    push_str(&mut tree, name.as_str());
    let protected = match b.bool_at("protected") {
        Some(p) => p,
        None => false,
    };
    let mut d = cat("commit: ", short);
    push_str(&mut d, "<br>protected: ");
    push_str(&mut d, if protected { "是" } else { "否" });
    push_str(&mut d, "<br><a href=\"");
    push_str(&mut d, tree.as_str());
    push_str(&mut d, "\">查看代码</a>");
    let mut g = cat("https://github.com/", owner);
    push_str(&mut g, "/");
    push_str(&mut g, repo);
    push_str(&mut g, "/branch/");
    push_str(&mut g, name.as_str());
    let r = FeedItem {
        title: Some(name),
        link: Some(tree),
        description: Some(d),
        pub_date: Some(now.to_owned()),
        author: None,
        guid: Some((g, false)),
        categories: Vec::new(),
    };
    assert(r@.categories =~= Seq::<Seq<char>>::empty());
    r
}

/// The feed of the branches (see [`spec_feed`]); `json` is the REST
/// answer, already checked for an error object.
#[verifier::loop_isolation(false)]
pub fn build_feed(owner: &str, repo: &str, json: &Json, now: &str) -> (r: Result<Option<Feed>, RouteError>)
    ensures
        match r {
            Ok(Some(f)) => spec_feed(owner@, repo@, *json, now@) == Ok::<_, Seq<char>>(Some(f@)),
            Ok(None) => spec_feed(owner@, repo@, *json, now@) == Ok::<_, Seq<char>>(None::<FeedView>),
            Err(RouteError::Message(m)) => spec_feed(owner@, repo@, *json, now@) == Err::<Option<FeedView>, _>(m@),
            Err(_) => false,
        },
{
    let bs = match json {
        Json::Array(bs) => bs,
        _ => return Err(RouteError::msg("GitHub API returned unexpected response")),
    };
    if bs.len() == 0 {
        return Err(RouteError::msg("No branches found. Check owner/repo parameters"));
    }
    let mut items: Vec<FeedItem> = Vec::new();
    let mut i: usize = 0;
    while i < bs.len()
        invariant
            i <= bs.len(),
            items.len() == i,
            forall|j: int| 0 <= j < i ==> short_sha(nested_str(#[trigger] bs@[j], "commit"@, "sha"@)) is Some,
            forall|j: int| 0 <= j < i ==> #[trigger] items@[j]@ == branch_item(
                bs@[j],
                short_sha(nested_str(bs@[j], "commit"@, "sha"@))->0,
                owner@,
                repo@,
                now@,
            ),
        decreases bs.len() - i,
    {
        let sha = nested_str_exec(&bs[i], "commit", "sha");
        let short = match short_sha_exec(sha.as_str()) {
            Some(s) => s,
            None => {
                assert(short_sha(nested_str(bs@[i as int], "commit"@, "sha"@)) is None);
                assert(any_uncut(bs@));
                return Ok(None);
            },
        };
        items.push(branch_item_exec(&bs[i], short.as_str(), owner, repo, now));
        i = i + 1;
    }
    let mut title = cat("GitHub Branches - ", owner);
    push_str(&mut title, "/");
    push_str(&mut title, repo);
    let mut link = cat("https://github.com/", owner);
    push_str(&mut link, "/");
    push_str(&mut link, repo);
    push_str(&mut link, "/branches");
    let mut desc = cat("GitHub repository ", owner);
    push_str(&mut desc, "/");
    push_str(&mut desc, repo);
    push_str(&mut desc, " branches");
    let f = Feed { title, link, description: desc, pub_date: None, items };
    assert(f@.items =~= bs@.map_values(
        |b: Json| branch_item(b, short_sha(nested_str(b, "commit"@, "sha"@))->0, owner@, repo@, now@),
    ));
    Ok(Some(f))
}

/// Law: a branch links to the code page `https://github.com/owner/repo/tree/`
/// of its `name`, is titled by its name and dated `now`.
pub proof fn law_branch_link(b: Json, short: Seq<char>, owner: Seq<char>, repo: Seq<char>, now: Seq<char>)
    ensures
        branch_item(b, short, owner, repo, now).link == Some(
            "https://github.com/"@ + owner + "/"@ + repo + "/tree/"@ + crate::routes::member_str(b, "name"@),
        ),
        branch_item(b, short, owner, repo, now).title == Some(crate::routes::member_str(b, "name"@)),
{
}

} // verus!
