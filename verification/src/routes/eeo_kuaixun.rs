//! `/eeo_kuaixun`: the newsflashes of the Economic Observer. The list comes
//! from the app's JSON API; each article's page is then fetched for its
//! text.
use crate::dates::{datetime_str_to_rss, local0800_rfc2822, or_else};
use crate::feed::{Feed, FeedItem, FeedItemView, FeedView};
use crate::html::{first_inner_html, select_first_inner_html};
use crate::json::{json_as_array, json_index, Json};
use crate::request_rules::RouteError;
use crate::routes::{feed_result_is, item_views, member_str, member_str_exec, plain_get, Fetch};
use crate::text::{cat, is_empty, push_str, views};
use vstd::prelude::*;

verus! {

/// The address of the list.
pub open spec fn api_url() -> Seq<char> {
    "https://app.eeo.com.cn?app=article&controller=index&action=getMoreArticle&catid=3690&uuid=b048c7211db949eeb7443cd5b9b3bfe3&page=1&pageSize=50"@
}

/// The request for the list.
pub fn request() -> (r: Fetch)
    ensures
        r.url@ == api_url(),
        r.headers@.len() == 0,
{
    plain_get("https://app.eeo.com.cn?app=article&controller=index&action=getMoreArticle&catid=3690&uuid=b048c7211db949eeb7443cd5b9b3bfe3&page=1&pageSize=50".to_owned())
}

/// The entries of the list's answer (none where `data` is not a list).
pub open spec fn list_of(json: Json) -> Option<Seq<Json>> {
    json_as_array(json_index(json, "data"@))
}

/// An entry is shown when it has a title and an address.
pub open spec fn is_shown(item: Json) -> bool {
    member_str(item, "title"@).len() > 0 && member_str(item, "url"@).len() > 0
}

/// The addresses of the entries shown, in order.
pub open spec fn shown_links(list: Seq<Json>) -> Seq<Seq<char>>
    decreases list.len(),
{
    if list.len() == 0 {
        seq![]
    } else {
        let rest = shown_links(list.drop_last());
        if is_shown(list.last()) {
            rest.push(member_str(list.last(), "url"@))
        } else {
            rest
        }
    }
}

/// The pages to fetch: the address of each entry shown, in order; the
/// failure where the answer has no list.
pub fn article_links(json: &Json) -> (r: Result<Vec<String>, RouteError>)
    ensures
        match (r, list_of(*json)) {
            (Ok(v), Some(l)) => views(v@) == shown_links(l),
            (Err(RouteError::Message(m)), None) => m@ == "找不到 data 字段"@,
            _ => false,
        },
{
    let list = match json.get("data") {
        Some(Json::Array(a)) => a,
        _ => {
            return Err(RouteError::Message("找不到 data 字段".to_owned()));
        },
    };
    let mut out: Vec<String> = Vec::new();
    let mut i: usize = 0;
    assert(views(out@) =~= shown_links(list@.take(0)));
    while i < list.len()
        invariant
            i <= list.len(),
            views(out@) == shown_links(list@.take(i as int)),
        decreases list.len() - i,
    {
        assert(list@.take(i + 1).drop_last() =~= list@.take(i as int));
        assert(list@.take(i + 1).last() == list@[i as int]);
        let title = member_str_exec(&list[i], "title");
        let url = member_str_exec(&list[i], "url");
        if !is_empty(title.as_str()) && !is_empty(url.as_str()) {
            let ghost before = views(out@);
            out.push(url);
            assert(views(out@) =~= before.push(member_str(list@[i as int], "url"@)));
        }
        i = i + 1;
    }
    assert(list@.take(list.len() as int) =~= list@);
    Ok(out)
}

/// The summary quoted, where there is one.
pub open spec fn quoted_intro(intro: Seq<char>) -> Seq<char> {
    if intro.len() == 0 {
        seq![]
    } else {
        "<blockquote>"@ + intro + "</blockquote>"@
    }
}

/// An article's description: from its page (`None`: the fetch failed) the
/// quoted summary and the inner HTML of `div.xx_boxsing`, else of the
/// first `h1`; the summary alone where that gives nothing.
pub open spec fn spec_description(intro: Seq<char>, page: Option<Seq<char>>) -> Seq<char> {
    let d = match page {
        None => seq![],
        Some(html) => match first_inner_html(html, "div.xx_boxsing"@) {
            Some(c) => quoted_intro(intro) + c,
            None => match first_inner_html(html, "h1"@) {
                Some(h) => quoted_intro(intro) + h,
                None => seq![],
            },
        },
    };
    if d.len() == 0 {
        intro
    } else {
        d
    }
}

/// An article's description (see [`spec_description`]).
pub fn description(intro: &str, page: Option<&str>) -> (r: String)
    ensures
        r@ == spec_description(
            intro@,
            match page {
                Some(p) => Some(p@),
                None => None,
            },
        ),
{
    let mut d = String::new();
    if let Some(html) = page {
        let found = match select_first_inner_html(html, "div.xx_boxsing") {
            Some(c) => Some(c),
            None => select_first_inner_html(html, "h1"),
        };
        if let Some(c) = found {
            if !is_empty(intro) {
                d = cat("<blockquote>", intro);
                push_str(&mut d, "</blockquote>");
            }
            push_str(&mut d, c.as_str());
        }
    }
    if is_empty(d.as_str()) {
        intro.to_owned()
    } else {
        d
    }
}

/// The date of an entry: `published` (`YYYY-MM-DD HH:MM:SS` at UTC+8), or
/// `now` where it is missing or does not read.
pub open spec fn entry_date(item: Json, now: Seq<char>) -> Seq<char> {
    let p = member_str(item, "published"@);
    if p.len() == 0 {
        now
    } else {
        or_else(local0800_rfc2822(p), now)
    }
}

/// The item of a shown entry, with its page.
pub open spec fn item_of(item: Json, page: Option<Seq<char>>, now: Seq<char>) -> FeedItemView {
    FeedItemView {
        title: Some(member_str(item, "title"@)),
        link: Some(member_str(item, "url"@)),
        description: Some(spec_description(member_str(item, "description"@), page)),
        pub_date: Some(entry_date(item, now)),
        author: None,
        guid: None,
        categories: seq![],
    }
}

/// The `k`-th page, `None` past the end.
pub open spec fn page_at(pages: Seq<Option<Seq<char>>>, k: int) -> Option<Seq<char>> {
    if 0 <= k < pages.len() {
        pages[k]
    } else {
        None
    }
}

/// The items of the entries shown, in order; the `k`-th shown entry goes
/// with the `k`-th page.
pub open spec fn items_of(list: Seq<Json>, pages: Seq<Option<Seq<char>>>, now: Seq<char>) -> Seq<FeedItemView>
    decreases list.len(),
{
    if list.len() == 0 {
        seq![]
    } else {
        let rest = items_of(list.drop_last(), pages, now);
        if is_shown(list.last()) {
            rest.push(item_of(list.last(), page_at(pages, rest.len() as int), now))
        } else {
            rest
        }
    }
}

/// The feed of the list, or the failure where the answer has no list.
pub open spec fn spec_feed(json: Json, pages: Seq<Option<Seq<char>>>, now: Seq<char>) -> Result<FeedView, Seq<char>> {
    match list_of(json) {
        None => Err("找不到 data 字段"@),
        Some(l) => Ok(FeedView {
            title: "经济观察报 - 快讯"@,
            link: "https://www.eeo.com.cn/kuaixun/"@,
            description: "经济观察报快讯"@,
            pub_date: None,
            items: items_of(l, pages, now),
        }),
    }
}

fn entry_item(item: &Json, page: Option<&str>, now: &str) -> (r: FeedItem)
    ensures
        r@ == item_of(
            *item,
            match page {
                Some(p) => Some(p@),
                None => None,
            },
            now@,
        ),
{
    let published = member_str_exec(item, "published");
    let date = if is_empty(published.as_str()) {
        now.to_owned()
    } else {
        match datetime_str_to_rss(published.as_str()) {
            Some(d) => d,
            None => now.to_owned(),
        }
    };
    let r = FeedItem {
        title: Some(member_str_exec(item, "title")),
        link: Some(member_str_exec(item, "url")),
        description: Some(description(member_str_exec(item, "description").as_str(), page)),
        pub_date: Some(date),
        author: None,
        guid: None,
        categories: Vec::new(),
    };
    assert(r@.categories =~= Seq::<Seq<char>>::empty());
    r
}

/// `get`, after the fetches: the feed of the list's answer; `pages[k]` is
/// the page of the `k`-th link of [`article_links`], `None` where it could
/// not be fetched; `now` is the current time in RSS form.
pub fn build_feed(json: &Json, pages: &[Option<String>], now: &str) -> (r: Result<Feed, RouteError>)
    ensures
        feed_result_is(
            r,
            spec_feed(*json, pages@.map_values(|p: Option<String>| crate::feed::opt_view(p)), now@),
        ),
{
    let ghost pv = pages@.map_values(|p: Option<String>| crate::feed::opt_view(p));
    let list = match json.get("data") {
        Some(Json::Array(a)) => a,
        _ => {
            return Err(RouteError::Message("找不到 data 字段".to_owned()));
        },
    };
    let mut items: Vec<FeedItem> = Vec::new();
    let mut i: usize = 0;
    assert(item_views(items@) =~= items_of(list@.take(0), pv, now@));
    while i < list.len()
        invariant
            i <= list.len(),
            pv == pages@.map_values(|p: Option<String>| crate::feed::opt_view(p)),
            item_views(items@) == items_of(list@.take(i as int), pv, now@),
        decreases list.len() - i,
    {
        assert(list@.take(i + 1).drop_last() =~= list@.take(i as int));
        assert(list@.take(i + 1).last() == list@[i as int]);
        let title = member_str_exec(&list[i], "title");
        let url = member_str_exec(&list[i], "url");
        if !is_empty(title.as_str()) && !is_empty(url.as_str()) {
            let k = items.len();
            let page: Option<&str> = if k < pages.len() {
                match &pages[k] {
                    Some(p) => Some(p.as_str()),
                    None => None,
                }
            } else {
                None
            };
            assert(page_at(pv, k as int) == match page {
                Some(p) => Some(p@),
                None => None::<Seq<char>>,
            });
            let it = entry_item(&list[i], page, now);
            let ghost before = item_views(items@);
            items.push(it);
            assert(item_views(items@) =~= before.push(it@));
        }
        i = i + 1;
    }
    assert(list@.take(list.len() as int) =~= list@);
    Ok(Feed {
        title: "经济观察报 - 快讯".to_owned(),
        link: "https://www.eeo.com.cn/kuaixun/".to_owned(),
        description: "经济观察报快讯".to_owned(),
        pub_date: None,
        items,
    })
}

/// Law: an entry links to its `url` and is titled by its `title`.
pub proof fn law_entry_link(item: Json, page: Option<Seq<char>>, now: Seq<char>)
    ensures
        item_of(item, page, now).link == Some(crate::routes::member_str(item, "url"@)),
        item_of(item, page, now).title == Some(crate::routes::member_str(item, "title"@)),
{
}

} // verus!
