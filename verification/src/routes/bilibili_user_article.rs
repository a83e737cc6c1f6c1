//! `/bilibili_user_article`: the picture-and-text posts of a bilibili
//! user. The list comes from the space feed API; each post's page is then
//! fetched for its text.
use crate::easyuser::{no_double_quotes, pair_views, param, Params};
use crate::feed::{opt_view, Feed, FeedItem, FeedItemView, FeedView};
use crate::html::{first_inner_html, select_first_inner_html};
use crate::json::{json_index, json_text, json_to_string, ptr_array, ptr_str, Json};
use crate::request_rules::RouteError;
use crate::routes::{absolute, feed_result_is, get_with_header, item_views, member_str, member_str_exec, Fetch};
use crate::text::{cat, is_empty, push_str, starts_with, str_eq, trim_char};
use vstd::prelude::*;

verus! {

/// The user's page of posts, sent as `Referer`.
pub open spec fn referer(uid: Seq<char>) -> Seq<char> {
    "https://space.bilibili.com/"@ + uid + "/article"@
}

/// The API address of the user's posts.
pub open spec fn api_url(uid: Seq<char>) -> Seq<char> {
    "https://api.bilibili.com/x/polymer/web-dynamic/v1/opus/feed/space?host_mid="@ + uid
}

fn referer_exec(uid: &str) -> (r: String)
    ensures
        r@ == referer(uid@),
{
    let mut r = cat("https://space.bilibili.com/", uid);
    push_str(&mut r, "/article");
    r
}

/// The request for the list: the API address with the user's page as
/// `Referer`; the failure where `uid` is missing.
pub fn request(para: &Params) -> (r: Result<Fetch, RouteError>)
    ensures
        match r {
            Ok(f) => param(para@, "uid"@) matches Some(u) && f.url@ == api_url(u)
                && pair_views(f.headers@) == seq![("Referer"@, referer(u))],
            Err(RouteError::Message(m)) => param(para@, "uid"@) is None && m@ == "缺少 uid 参数"@,
            Err(_) => false,
        },
{
    let uid = match para.get("uid") {
        Some(u) => u,
        None => return Err(RouteError::msg("缺少 uid 参数")),
    };
    let url = cat("https://api.bilibili.com/x/polymer/web-dynamic/v1/opus/feed/space?host_mid=", uid.as_str());
    Ok(get_with_header(url, "Referer", referer_exec(uid.as_str()).as_str()))
}

/// The posts of the list's answer (none where `data.items` is not a list).
pub open spec fn list_of(json: Json) -> Option<Seq<Json>> {
    ptr_array(json, "/data/items"@)
}

/// A post's page: `jump_url`, made absolute with `https:`.
pub open spec fn link_of(item: Json) -> Seq<char> {
    absolute(Some(member_str(item, "jump_url"@)), "https:"@)
}

fn link_exec(item: &Json) -> (r: String)
    ensures
        r@ == link_of(*item),
{
    let j = member_str_exec(item, "jump_url");
    if starts_with(j.as_str(), "http") {
        j
    } else {
        cat("https:", j.as_str())
    }
}

/// The pages to fetch, one per post in order; the failure where the answer
/// has no list.
pub fn article_links(json: &Json) -> (r: Result<Vec<String>, RouteError>)
    ensures
        match (r, list_of(*json)) {
            (Ok(v), Some(l)) => crate::text::views(v@) == l.map_values(|it: Json| link_of(it)),
            (Err(RouteError::Message(m)), None) => m@ == "找不到 data/items 字段或不是数组"@,
            _ => false,
        },
{
    let list = match json.ptr_array("/data/items") {
        Some(a) => a,
        None => return Err(RouteError::msg("找不到 data/items 字段或不是数组")),
    };
    let mut out: Vec<String> = Vec::new();
    let mut i: usize = 0;
    while i < list.len()
        invariant
            i <= list.len(),
            out@.len() == i,
            forall|k: int| 0 <= k < i ==> (#[trigger] out@[k])@ == link_of(list@[k]),
        decreases list.len() - i,
    {
        out.push(link_exec(&list[i]));
        i = i + 1;
    }
    assert(crate::text::views(out@) =~= list@.map_values(|it: Json| link_of(it)));
    Ok(out)
}

/// The request for a post's page, with the user's page as `Referer`, asked
/// as a browser.
pub fn detail_request(link: &str, uid: &str) -> (r: Fetch)
    ensures
        r.url@ == link@,
        pair_views(r.headers@) == seq![
            ("Referer"@, referer(uid@)),
            ("User-Agent"@, "Mozilla/5.0 (Windows NT 10.0; Win64; x64) AppleWebKit/537.36 (KHTML, like Gecko) Chrome/120.0.0.0 Safari/537.36"@),
        ],
{
    let mut headers: Vec<(String, String)> = Vec::new();
    headers.push(("Referer".to_owned(), referer_exec(uid)));
    headers.push(("User-Agent".to_owned(), "Mozilla/5.0 (Windows NT 10.0; Win64; x64) AppleWebKit/537.36 (KHTML, like Gecko) Chrome/120.0.0.0 Safari/537.36".to_owned()));
    let r = Fetch { url: link.to_owned(), headers };
    assert(pair_views(r.headers@) =~= seq![
        ("Referer"@, referer(uid@)),
        ("User-Agent"@, "Mozilla/5.0 (Windows NT 10.0; Win64; x64) AppleWebKit/537.36 (KHTML, like Gecko) Chrome/120.0.0.0 Safari/537.36"@),
    ]);
    r
}

/// The author after the posts: the first `author.name` found while it is
/// still `UP主`, the starting name.
pub open spec fn author_after(list: Seq<Json>) -> Seq<char>
    decreases list.len(),
{
    if list.len() == 0 {
        "UP主"@
    } else {
        let prev = author_after(list.drop_last());
        match ptr_str(list.last(), "/author/name"@) {
            Some(n) => if prev == "UP主"@ {
                n
            } else {
                prev
            },
            None => prev,
        }
    }
}

/// A post's description: the inner HTML of `div.opus-module-content` on its
/// page (`None`: the fetch failed), else the post's `content`.
pub open spec fn spec_description(item: Json, page: Option<Seq<char>>) -> Seq<char> {
    match page {
        Some(html) => if html.len() > 0 {
            match first_inner_html(html, "div.opus-module-content"@) {
                Some(c) => c,
                None => member_str(item, "content"@),
            }
        } else {
            member_str(item, "content"@)
        },
        None => member_str(item, "content"@),
    }
}

/// The item of a post: the `content` value as JSON text without its
/// quotes as title, the page, the description, `now` as date, and the
/// author known after it.
pub open spec fn item_of(item: Json, page: Option<Seq<char>>, author: Seq<char>, now: Seq<char>) -> FeedItemView {
    FeedItemView {
        title: Some(trim_char(json_text(json_index(item, "content"@)), '"')),
        link: Some(link_of(item)),
        description: Some(spec_description(item, page)),
        pub_date: Some(now),
        author: Some(author),
        guid: None,
        categories: seq![],
    }
}

/// The `k`-th page, `None` past the end.
pub open spec fn page_at(pages: Seq<Option<Seq<char>>>, k: int) -> Option<Seq<char>> {
    if 0 <= k < pages.len() {
        pages[k]
    } else {
        None
    }
}

/// The items of the posts, in order, the `k`-th with the `k`-th page.
pub open spec fn items_of(list: Seq<Json>, pages: Seq<Option<Seq<char>>>, now: Seq<char>) -> Seq<FeedItemView>
    decreases list.len(),
{
    if list.len() == 0 {
        seq![]
    } else {
        let k = list.len() - 1;
        items_of(list.drop_last(), pages, now).push(item_of(list[k], page_at(pages, k), author_after(list), now))
    }
}

/// The feed of the user's posts, named after the author; the failure where
/// `uid` is missing or the answer has no list.
pub open spec fn spec_feed(para: Map<Seq<char>, Seq<char>>, json: Json, pages: Seq<Option<Seq<char>>>, now: Seq<char>) -> Result<FeedView, Seq<char>> {
    match param(para, "uid"@) {
        None => Err("缺少 uid 参数"@),
        Some(u) => match list_of(json) {
            None => Err("找不到 data/items 字段或不是数组"@),
            Some(l) => Ok(FeedView {
                title: author_after(l) + " 的 bilibili 图文"@,
                link: referer(u),
                description: author_after(l) + " 的 bilibili 图文"@,
                pub_date: None,
                items: items_of(l, pages, now),
            }),
        },
    }
}

fn description_exec(item: &Json, page: Option<&str>) -> (r: String)
    ensures
        r@ == spec_description(
            *item,
            match page {
                Some(p) => Some(p@),
                None => None,
            },
        ),
{
    match page {
        Some(html) => if !is_empty(html) {
            match select_first_inner_html(html, "div.opus-module-content") {
                Some(c) => c,
                None => member_str_exec(item, "content"),
            }
        } else {
            member_str_exec(item, "content")
        },
        None => member_str_exec(item, "content"),
    }
}

/// `get`, after the fetches: the feed of the list's answer; `pages[k]` is
/// the page of the `k`-th post, `None` where it could not be fetched; `now`
/// is the current time in RSS form.
pub fn build_feed(para: &Params, json: &Json, pages: &[Option<String>], now: &str) -> (r: Result<Feed, RouteError>)
    ensures
        feed_result_is(r, spec_feed(para@, *json, pages@.map_values(|p: Option<String>| opt_view(p)), now@)),
{
    let uid = match para.get("uid") {
        Some(u) => u,
        None => return Err(RouteError::msg("缺少 uid 参数")),
    };
    let list = match json.ptr_array("/data/items") {
        Some(a) => a,
        None => return Err(RouteError::msg("找不到 data/items 字段或不是数组")),
    };
    let ghost pv = pages@.map_values(|p: Option<String>| opt_view(p));
    let mut author = "UP主".to_owned();
    let mut items: Vec<FeedItem> = Vec::new();
    let mut i: usize = 0;
    assert(list@.take(0) =~= Seq::<Json>::empty());
    assert(item_views(items@) =~= items_of(list@.take(0), pv, now@));
    while i < list.len()
        invariant
            i <= list.len(),
            pv == pages@.map_values(|p: Option<String>| opt_view(p)),
            author@ == author_after(list@.take(i as int)),
            item_views(items@) == items_of(list@.take(i as int), pv, now@),
        decreases list.len() - i,
    {
        let ghost t = list@.take(i + 1);
        assert(t.drop_last() =~= list@.take(i as int));
        assert(t.last() == list@[i as int]);
        assert(t[i as int] == list@[i as int]);
        if let Some(n) = list[i].ptr_text("/author/name") {
            if str_eq(author.as_str(), "UP主") {
                author = n.clone();
            }
        }
        let page: Option<&str> = if i < pages.len() {
            match &pages[i] {
                Some(p) => Some(p.as_str()),
                None => None,
            }
        } else {
            None
        };
        assert(page_at(pv, i as int) == match page {
            Some(p) => Some(p@),
            None => None::<Seq<char>>,
        });
        let it = FeedItem {
            title: Some(no_double_quotes(json_to_string(match list[i].get("content") {
                Some(c) => c,
                None => &Json::Null,
            }))),
            link: Some(link_exec(&list[i])),
            description: Some(description_exec(&list[i], page)),
            pub_date: Some(now.to_owned()),
            author: Some(author.clone()),
            guid: None,
            categories: Vec::new(),
        };
        assert(it@.categories =~= Seq::<Seq<char>>::empty());
        let ghost before = item_views(items@);
        items.push(it);
        assert(item_views(items@) =~= before.push(it@));
        i = i + 1;
    }
    assert(list@.take(list.len() as int) =~= list@);
    let mut title = author.clone();
    push_str(&mut title, " 的 bilibili 图文");
    Ok(Feed {
        title: title.clone(),
        link: referer_exec(uid.as_str()),
        description: title,
        pub_date: None,
        items,
    })
}

/// Law: a post links to its `jump_url`, with `https:` put before it where
/// it does not start with `http`; it is dated `now` and written by the
/// author given.
pub proof fn law_post_link(item: Json, page: Option<Seq<char>>, author: Seq<char>, now: Seq<char>)
    ensures
        item_of(item, page, author, now).link == Some(
            if "http"@.is_prefix_of(crate::routes::member_str(item, "jump_url"@)) {
                crate::routes::member_str(item, "jump_url"@)
            } else {
                "https:"@ + crate::routes::member_str(item, "jump_url"@)
            },
        ),
        item_of(item, page, author, now).pub_date == Some(now),
        item_of(item, page, author, now).author == Some(author),
{
    reveal_strlit("http");
}

/// Law: a post is titled by its `content` (written as JSON, quotes
/// removed).
pub proof fn law_post_title(item: Json, page: Option<Seq<char>>, author: Seq<char>, now: Seq<char>)
    ensures
        item_of(item, page, author, now).title == Some(
            crate::text::trim_char(crate::json::json_text(crate::json::json_index(item, "content"@)), '"'),
        ),
{
}

} // verus!
