//! `/crates_new`: the crates most recently published on crates.io.
use crate::dates::{crates_pubdate, or_else, rfc3339_rfc2822};
use crate::easyuser::{pair_views, param, Params};
use crate::feed::{Feed, FeedItem, FeedItemView, FeedView};
use crate::json::{json_as_i64, json_as_str, json_index, parse_usize, spec_parse_usize, Json};
use crate::request_rules::RouteError;
use crate::routes::{feed_result_is, item_views, Fetch};
use crate::text::{cat, dec, dec_int, i64_to_string, is_empty, push_str, u64_to_string};
use vstd::prelude::*;

verus! {

/// The client name sent to crates.io.
pub open spec fn user_agent() -> Seq<char> {
    "rssust/1.0 (Cargo registry aggregator; +https://github.com/huinyg/Rssust)"@
}

/// The number of crates asked for: `count` as a number (default 10), kept
/// between 1 and 100.
pub open spec fn spec_count(para: Map<Seq<char>, Seq<char>>) -> usize {
    let n: usize = match param(para, "count"@) {
        Some(c) => match spec_parse_usize(c) {
            Some(n) => n,
            None => 10,
        },
        None => 10,
    };
    if n < 1 {
        1
    } else if n > 100 {
        100
    } else {
        n
    }
}

/// The request.
pub fn request(para: &Params) -> (r: Fetch)
    ensures
        r.url@ == "https://crates.io/api/v1/crates?sort=new&per_page="@ + dec(
            spec_count(para@) as nat,
        ),
        pair_views(r.headers@) == seq![("User-Agent"@, user_agent())],
{
    let n: usize = match para.get("count") {
        Some(c) => match parse_usize(c.as_str()) {
            Some(n) => n,
            None => 10,
        },
        None => 10,
    };
    let n: usize = if n < 1 {
        1
    } else if n > 100 {
        100
    } else {
        n
    };
    let url = cat(
        "https://crates.io/api/v1/crates?sort=new&per_page=",
        u64_to_string(n as u64).as_str(),
    );
    let mut headers: Vec<(String, String)> = Vec::new();
    headers.push((
        "User-Agent".to_owned(),
        "rssust/1.0 (Cargo registry aggregator; +https://github.com/huinyg/Rssust)".to_owned(),
    ));
    assert(pair_views(headers@) =~= seq![("User-Agent"@, user_agent())]);
    Fetch { url, headers }
}

/// A string member, or the empty string.
pub open spec fn str_of(c: Json, key: Seq<char>) -> Seq<char> {
    match json_as_str(json_index(c, key)) {
        Some(s) => s,
        None => seq![],
    }
}

/// An integer member, or 0.
pub open spec fn int_of(c: Json, key: Seq<char>) -> i64 {
    match json_as_i64(json_index(c, key)) {
        Some(n) => n,
        None => 0,
    }
}

/// The version shown for a crate (`version`): the latest stable, else the
/// latest, else the default version, else nothing.
pub open spec fn spec_version(c: Json) -> Seq<char> {
    match json_as_str(json_index(c, "max_stable_version"@)) {
        Some(v) => v,
        None => match json_as_str(json_index(c, "max_version"@)) {
            Some(v) => v,
            None => str_of(c, "default_version"@),
        },
    }
}

/// `version` (see [`spec_version`]).
pub fn version(c: &Json) -> (r: String)
    ensures
        r@ == spec_version(*c),
{
    match c.str_at("max_stable_version") {
        Some(v) => v.clone(),
        None => match c.str_at("max_version") {
            Some(v) => v.clone(),
            None => match c.str_at("default_version") {
                Some(v) => v.clone(),
                None => String::new(),
            },
        },
    }
}

/// The item for a crate.
#[verifier::opaque]
pub open spec fn crate_item(c: Json, now: Seq<char>) -> FeedItemView {
    let name = str_of(c, "name"@);
    let ver = spec_version(c);
    let link = "https://crates.io/crates/"@ + name;
    let descr = str_of(c, "description"@);
    let repo = str_of(c, "repository"@);
    FeedItemView {
        title: Some(
            if ver.len() == 0 {
                name
            } else {
                name + " v"@ + ver
            },
        ),
        link: Some(link),
        description: Some(
            (if descr.len() > 0 {
                "<p>"@ + descr + "</p>"@
            } else {
                seq![]
            }) + "<p>版本 "@ + ver + " · 累计下载 "@ + dec_int(int_of(c, "downloads"@) as int)
                + " · 近 90 天下载 "@ + dec_int(int_of(c, "recent_downloads"@) as int) + "</p>"@
                + (if repo.len() > 0 {
                "<p><a href=\""@ + repo + "\">仓库</a></p>"@
            } else {
                seq![]
            }),
        ),
        pub_date: Some(or_else(rfc3339_rfc2822(str_of(c, "created_at"@)), now)),
        author: None,
        guid: Some((link, true)),
        categories: seq![],
    }
}

/// The items for the crates that have a name.
pub open spec fn crate_items(list: Seq<Json>, now: Seq<char>) -> Seq<FeedItemView>
    decreases list.len(),
{
    if list.len() == 0 {
        seq![]
    } else {
        crate_items(list.drop_last(), now) + if str_of(list.last(), "name"@).len() > 0 {
            seq![crate_item(list.last(), now)]
        } else {
            seq![]
        }
    }
}

/// The maintainers' note in the channel description.
pub open spec fn maintainer() -> Seq<char> {
    "AI制作 / huinyg-rusting审核"@
}

/// The feed for the API's answer; the channel is dated `now`.
pub open spec fn spec_feed(json: Json, now: Seq<char>) -> Result<FeedView, Seq<char>> {
    match json_index(json, "crates"@) {
        Json::Array(list) => Ok(
            FeedView {
                title: "crates.io 最新发布的 crate"@,
                link: "https://crates.io/crates?sort=new"@,
                description: "crates.io 官方 API 聚合 | "@ + maintainer(),
                pub_date: Some(now),
                items: crate_items(list@, now),
            },
        ),
        _ => Err("crates.io 返回缺少 crates 数组"@),
    }
}

fn str_of_exec(c: &Json, key: &str) -> (r: String)
    ensures
        r@ == str_of(*c, key@),
{
    match c.str_at(key) {
        Some(s) => s.clone(),
        None => String::new(),
    }
}

fn int_of_exec(c: &Json, key: &str) -> (r: i64)
    ensures
        r == int_of(*c, key@),
{
    match c.i64_at(key) {
        Some(n) => n,
        None => 0,
    }
}

fn crate_item_exec(c: &Json, now: &str) -> (r: FeedItem)
    ensures
        r@ == crate_item(*c, now@),
{
    proof {
        reveal(crate_item);
    }
    let name = str_of_exec(c, "name");
    let ver = version(c);
    let link = cat("https://crates.io/crates/", name.as_str());
    let descr = str_of_exec(c, "description");
    let repo = str_of_exec(c, "repository");
    let mut desc = String::new();
    if !is_empty(descr.as_str()) {
        push_str(&mut desc, "<p>");
        push_str(&mut desc, descr.as_str());
        push_str(&mut desc, "</p>");
    }
    let ghost d0 = desc@;
    push_str(&mut desc, "<p>版本 ");
    push_str(&mut desc, ver.as_str());
    push_str(&mut desc, " · 累计下载 ");
    push_str(&mut desc, i64_to_string(int_of_exec(c, "downloads")).as_str());
    push_str(&mut desc, " · 近 90 天下载 ");
    push_str(&mut desc, i64_to_string(int_of_exec(c, "recent_downloads")).as_str());
    push_str(&mut desc, "</p>");
    let ghost d1 = desc@;
    if !is_empty(repo.as_str()) {
        push_str(&mut desc, "<p><a href=\"");
        push_str(&mut desc, repo.as_str());
        push_str(&mut desc, "\">仓库</a></p>");
        assert(desc@ =~= d1 + ("<p><a href=\""@ + repo@ + "\">仓库</a></p>"@));
    } else {
        assert(desc@ =~= d1 + Seq::<char>::empty());
    }
    let title = if is_empty(ver.as_str()) {
        name
    } else {
        let mut t = name;
        push_str(&mut t, " v");
        push_str(&mut t, ver.as_str());
        t
    };
    let r = FeedItem {
        title: Some(title),
        link: Some(link.clone()),
        description: Some(desc),
        pub_date: Some(crates_pubdate(str_of_exec(c, "created_at").as_str(), now)),
        author: None,
        guid: Some((link, true)),
        categories: Vec::new(),
    };
    assert(r@.categories =~= Seq::<Seq<char>>::empty());
    r
}

/// `get`, after the fetch: the feed for the API's answer; `now` is the
/// current time in RSS form.
pub fn build_feed(json: &Json, now: &str) -> (r: Result<Feed, RouteError>)
    ensures
        feed_result_is(r, spec_feed(*json, now@)),
{
    let list = match json.get("crates") {
        Some(Json::Array(a)) => a,
        _ => {
            return Err(RouteError::msg("crates.io 返回缺少 crates 数组"));
        },
    };
    let mut items: Vec<FeedItem> = Vec::new();
    let mut i: usize = 0;
    assert(item_views(items@) =~= crate_items(list@.take(0), now@));
    while i < list.len()
        invariant
            i <= list.len(),
            item_views(items@) == crate_items(list@.take(i as int), now@),
        decreases list.len() - i,
    {
        assert(list@.take(i + 1).drop_last() == list@.take(i as int));
        assert(list@.take(i + 1).last() == list@[i as int]);
        let c = &list[i];
        if !is_empty(str_of_exec(c, "name").as_str()) {
            let it = crate_item_exec(c, now);
            let ghost before = item_views(items@);
            items.push(it);
            assert(item_views(items@) =~= before.push(it@));
        } else {
            assert(crate_items(list@.take(i + 1), now@) =~= crate_items(list@.take(i as int), now@));
        }
        i = i + 1;
    }
    assert(list@.take(list.len() as int) == list@);
    let mut description = "crates.io 官方 API 聚合 | ".to_owned();
    push_str(&mut description, "AI制作 / huinyg-rusting审核");
    Ok(
        Feed {
            title: "crates.io 最新发布的 crate".to_owned(),
            link: "https://crates.io/crates?sort=new".to_owned(),
            description,
            pub_date: Some(now.to_owned()),
            items,
        },
    )
}

/// Law: a crate links to `https://crates.io/crates/` followed by its `name`.
pub proof fn law_crate_link(c: Json, now: Seq<char>)
    ensures
        crate_item(c, now).link == Some("https://crates.io/crates/"@ + crate::routes::member_str(c, "name"@)),
{
    reveal(crate_item);
}

/// Law: a crate is titled by its `name` (with ` v` and its version where it
/// has one), dated by its `created_at` and known by its page.
pub proof fn law_crate_fields(c: Json, now: Seq<char>)
    ensures
        ({
            let name = crate::routes::member_str(c, "name"@);
            let page = "https://crates.io/crates/"@ + name;
            &&& crate_item(c, now).pub_date == Some(or_else(rfc3339_rfc2822(crate::routes::member_str(c, "created_at"@)), now))
            &&& crate_item(c, now).guid == Some((page, true))
            &&& spec_version(c).len() == 0 ==> crate_item(c, now).title == Some(name)
            &&& spec_version(c).len() > 0 ==> crate_item(c, now).title == Some(name + " v"@ + spec_version(c))
        }),
{
    reveal(crate_item);
}

} // verus!
