//! `/gelonghui_home`: the articles of a Gelonghui channel. The list comes
//! from the channel API; each article's page is then fetched for its text.
use crate::dates::{or_else, timestamp_to_rss, ts_rfc2822};
use crate::easyuser::{pair_views, Params};
use crate::feed::{opt_view, Feed, FeedItem, FeedItemView, FeedView};
use crate::html::{first_inner_html, first_outer_html, select_first_inner_html, select_first_outer_html};
use crate::json::{json_as_array, json_as_i64, json_index, Json};
use crate::request_rules::RouteError;
use crate::routes::{feed_result_is, get_with_header, item_views, member_str, param_or, param_or_exec, plain_get, Fetch};
use crate::text::{cat, is_empty, push_str, str_eq};
use vstd::prelude::*;

verus! {

/// The channel asked for (`web_home_page` by default).
pub open spec fn tag(para: Map<Seq<char>, Seq<char>>) -> Seq<char> {
    param_or(para, "tag"@, "web_home_page"@)
}

/// The channel's API address.
pub open spec fn api_url(para: Map<Seq<char>, Seq<char>>) -> Seq<char> {
    "https://www.gelonghui.com/api/channels/"@ + tag(para) + "/articles/v8"@
}

/// The request for the channel's list.
pub fn request(para: &Params) -> (r: Fetch)
    ensures
        r.url@ == api_url(para@),
        r.headers@.len() == 0,
{
    let mut url = cat("https://www.gelonghui.com/api/channels/", param_or_exec(para, "tag", "web_home_page").as_str());
    push_str(&mut url, "/articles/v8");
    plain_get(url)
}

/// The channel's name: the known channels by their Chinese names, others
/// as given.
pub open spec fn tag_name(tag: Seq<char>) -> Seq<char> {
    if tag == "web_home_page"@ {
        "推荐"@
    } else if tag == "stock"@ {
        "股票"@
    } else if tag == "fund"@ {
        "基金"@
    } else if tag == "new_stock"@ {
        "新股"@
    } else if tag == "research"@ {
        "研报"@
    } else {
        tag
    }
}

/// The channel's name (see [`tag_name`]).
pub fn tag_name_exec(tag: &str) -> (r: String)
    ensures
        r@ == tag_name(tag@),
{
    if str_eq(tag, "web_home_page") {
        "推荐".to_owned()
    } else if str_eq(tag, "stock") {
        "股票".to_owned()
    } else if str_eq(tag, "fund") {
        "基金".to_owned()
    } else if str_eq(tag, "new_stock") {
        "新股".to_owned()
    } else if str_eq(tag, "research") {
        "研报".to_owned()
    } else {
        tag.to_owned()
    }
}

/// The entries of the list's answer (none where `result` is not a list).
pub open spec fn list_of(json: Json) -> Option<Seq<Json>> {
    json_as_array(json_index(json, "result"@))
}

/// A string member of an entry's article (`data`), or the empty text.
pub open spec fn field(entry: Json, key: Seq<char>) -> Seq<char> {
    member_str(json_index(entry, "data"@), key)
}

fn field_exec(entry: &Json, key: &str) -> (r: String)
    ensures
        r@ == field(*entry, key@),
{
    crate::routes::nested_str_exec(entry, "data", key)
}

/// An entry is shown when its article has a title and an address.
pub open spec fn is_shown(entry: Json) -> bool {
    field(entry, "title"@).len() > 0 && field(entry, "link"@).len() > 0
}

/// The addresses of the entries shown, in order.
pub open spec fn shown_links(list: Seq<Json>) -> Seq<Seq<char>>
    decreases list.len(),
{
    if list.len() == 0 {
        seq![]
    } else {
        let rest = shown_links(list.drop_last());
        if is_shown(list.last()) {
            rest.push(field(list.last(), "link"@))
        } else {
            rest
        }
    }
}

/// The pages to fetch: the address of each entry shown, in order; the
/// failure where the answer has no list.
pub fn article_links(json: &Json) -> (r: Result<Vec<String>, RouteError>)
    ensures
        match (r, list_of(*json)) {
            (Ok(v), Some(l)) => crate::text::views(v@) == shown_links(l),
            (Err(RouteError::Message(m)), None) => m@ == "找不到 result 字段"@,
            _ => false,
        },
{
    let list = match json.get("result") {
        Some(Json::Array(a)) => a,
        _ => return Err(RouteError::msg("找不到 result 字段")),
    };
    let mut out: Vec<String> = Vec::new();
    let mut i: usize = 0;
    assert(crate::text::views(out@) =~= shown_links(list@.take(0)));
    while i < list.len()
        invariant
            i <= list.len(),
            crate::text::views(out@) == shown_links(list@.take(i as int)),
        decreases list.len() - i,
    {
        assert(list@.take(i + 1).drop_last() =~= list@.take(i as int));
        assert(list@.take(i + 1).last() == list@[i as int]);
        let title = field_exec(&list[i], "title");
        let link = field_exec(&list[i], "link");
        if !is_empty(title.as_str()) && !is_empty(link.as_str()) {
            let ghost before = crate::text::views(out@);
            out.push(link);
            assert(crate::text::views(out@) =~= before.push(field(list@[i as int], "link"@)));
        }
        i = i + 1;
    }
    assert(list@.take(list.len() as int) =~= list@);
    Ok(out)
}

/// The request for an article's page, asked as a browser.
pub fn detail_request(link: &str) -> (r: Fetch)
    ensures
        r.url@ == link@,
        pair_views(r.headers@) == seq![("User-Agent"@, "Mozilla/5.0 (Windows NT 10.0; Win64; x64) AppleWebKit/537.36 (KHTML, like Gecko) Chrome/120.0.0.0 Safari/537.36"@)],
{
    get_with_header(link.to_owned(), "User-Agent", "Mozilla/5.0 (Windows NT 10.0; Win64; x64) AppleWebKit/537.36 (KHTML, like Gecko) Chrome/120.0.0.0 Safari/537.36")
}

/// An article's description: the summary as a paragraph (where not
/// empty); with the page (`None`: the fetch failed), the inner HTML of
/// `article.article-with-html` in its place where that is not empty, or,
/// without that element, the HTML of `.article-summary` after it.
pub open spec fn spec_description(summary: Seq<char>, page: Option<Seq<char>>) -> Seq<char> {
    let base = if summary.len() == 0 {
        seq![]
    } else {
        "<p>"@ + summary + "</p>"@
    };
    match page {
        None => base,
        Some(html) => match first_inner_html(html, "article.article-with-html"@) {
            Some(inner) => if inner.len() > 0 {
                inner
            } else {
                base
            },
            None => match first_outer_html(html, ".article-summary"@) {
                Some(s) => base + s,
                None => base,
            },
        },
    }
}

/// An article's description (see [`spec_description`]).
pub fn description(summary: &str, page: Option<&str>) -> (r: String)
    ensures
        r@ == spec_description(
            summary@,
            match page {
                Some(p) => Some(p@),
                None => None,
            },
        ),
{
    let mut d = if is_empty(summary) {
        String::new()
    } else {
        let mut p = cat("<p>", summary);
        push_str(&mut p, "</p>");
        p
    };
    if let Some(html) = page {
        match select_first_inner_html(html, "article.article-with-html") {
            Some(inner) => {
                if !is_empty(inner.as_str()) {
                    d = inner;
                }
            },
            None => {
                if let Some(s) = select_first_outer_html(html, ".article-summary") {
                    push_str(&mut d, s.as_str());
                }
            },
        }
    }
    d
}

/// The item of a shown entry, with its page: the author's nickname, the
/// date from `timestamp` (a Unix timestamp, 0 where missing), the source as
/// category where not empty.
pub open spec fn item_of(entry: Json, page: Option<Seq<char>>, now: Seq<char>) -> FeedItemView {
    let ts = match json_as_i64(json_index(json_index(entry, "data"@), "timestamp"@)) {
        Some(t) => t,
        None => 0,
    };
    let source = field(entry, "source"@);
    FeedItemView {
        title: Some(field(entry, "title"@)),
        link: Some(field(entry, "link"@)),
        description: Some(spec_description(field(entry, "summary"@), page)),
        pub_date: Some(or_else(ts_rfc2822(ts), now)),
        author: Some(field(entry, "nick"@)),
        guid: None,
        categories: if source.len() == 0 { seq![] } else { seq![source] },
    }
}

/// The `k`-th page, `None` past the end.
pub open spec fn page_at(pages: Seq<Option<Seq<char>>>, k: int) -> Option<Seq<char>> {
    if 0 <= k < pages.len() {
        pages[k]
    } else {
        None
    }
}

/// The items of the entries shown, in order; the `k`-th shown entry goes
/// with the `k`-th page.
pub open spec fn items_of(list: Seq<Json>, pages: Seq<Option<Seq<char>>>, now: Seq<char>) -> Seq<FeedItemView>
    decreases list.len(),
{
    if list.len() == 0 {
        seq![]
    } else {
        let rest = items_of(list.drop_last(), pages, now);
        if is_shown(list.last()) {
            rest.push(item_of(list.last(), page_at(pages, rest.len() as int), now))
        } else {
            rest
        }
    }
}

/// The feed of the channel, or the failure where the answer has no list.
pub open spec fn spec_feed(para: Map<Seq<char>, Seq<char>>, json: Json, pages: Seq<Option<Seq<char>>>, now: Seq<char>) -> Result<FeedView, Seq<char>> {
    match list_of(json) {
        None => Err("找不到 result 字段"@),
        Some(l) => Ok(FeedView {
            title: "格隆汇 - "@ + tag_name(tag(para)),
            link: "https://www.gelonghui.com"@,
            description: "格隆汇财经资讯"@,
            pub_date: None,
            items: items_of(l, pages, now),
        }),
    }
}

fn entry_item(entry: &Json, page: Option<&str>, now: &str) -> (r: FeedItem)
    ensures
        r@ == item_of(
            *entry,
            match page {
                Some(p) => Some(p@),
                None => None,
            },
            now@,
        ),
{
    let ts: i64 = match entry.get("data") {
        Some(a) => match a.i64_at("timestamp") {
            Some(t) => t,
            None => 0,
        },
        None => {
            proof {
                reveal(crate::json::json_get);
            }
            0
        },
    };
    let source = field_exec(entry, "source");
    let mut cats: Vec<String> = Vec::new();
    if !is_empty(source.as_str()) {
        cats.push(source);
    }
    let r = FeedItem {
        title: Some(field_exec(entry, "title")),
        link: Some(field_exec(entry, "link")),
        description: Some(description(field_exec(entry, "summary").as_str(), page)),
        pub_date: Some(timestamp_to_rss(ts, now)),
        author: Some(field_exec(entry, "nick")),
        guid: None,
        categories: cats,
    };
    assert(r@.categories =~= item_of(*entry, match page {
        Some(p) => Some(p@),
        None => None,
    }, now@).categories);
    r
}

/// `get`, after the fetches: the feed of the channel's list; `pages[k]` is
/// the page of the `k`-th link of [`article_links`], `None` where it could
/// not be fetched; `now` is the current time in RSS form.
pub fn build_feed(para: &Params, json: &Json, pages: &[Option<String>], now: &str) -> (r: Result<Feed, RouteError>)
    ensures
        feed_result_is(r, spec_feed(para@, *json, pages@.map_values(|p: Option<String>| opt_view(p)), now@)),
{
    let ghost pv = pages@.map_values(|p: Option<String>| opt_view(p));
    let list = match json.get("result") {
        Some(Json::Array(a)) => a,
        _ => return Err(RouteError::msg("找不到 result 字段")),
    };
    let mut items: Vec<FeedItem> = Vec::new();
    let mut i: usize = 0;
    assert(item_views(items@) =~= items_of(list@.take(0), pv, now@));
    while i < list.len()
        invariant
            i <= list.len(),
            pv == pages@.map_values(|p: Option<String>| opt_view(p)),
            item_views(items@) == items_of(list@.take(i as int), pv, now@),
        decreases list.len() - i,
    {
        assert(list@.take(i + 1).drop_last() =~= list@.take(i as int));
        assert(list@.take(i + 1).last() == list@[i as int]);
        let title = field_exec(&list[i], "title");
        let link = field_exec(&list[i], "link");
        if !is_empty(title.as_str()) && !is_empty(link.as_str()) {
            let k = items.len();
            let page: Option<&str> = if k < pages.len() {
                match &pages[k] {
                    Some(p) => Some(p.as_str()),
                    None => None,
                }
            } else {
                None
            };
            assert(page_at(pv, k as int) == match page {
                Some(p) => Some(p@),
                None => None::<Seq<char>>,
            });
            let it = entry_item(&list[i], page, now);
            let ghost before = item_views(items@);
            items.push(it);
            assert(item_views(items@) =~= before.push(it@));
        }
        i = i + 1;
    }
    assert(list@.take(list.len() as int) =~= list@);
    Ok(Feed {
        title: cat("格隆汇 - ", tag_name_exec(param_or_exec(para, "tag", "web_home_page").as_str()).as_str()),
        link: "https://www.gelonghui.com".to_owned(),
        description: "格隆汇财经资讯".to_owned(),
        pub_date: None,
        items,
    })
}

/// Law: an entry links to its article's (`data`) `link`, is titled by its
/// `title`, written by its `nick` and dated by its `timestamp`.
pub proof fn law_entry_link(entry: Json, page: Option<Seq<char>>, now: Seq<char>)
    ensures
        item_of(entry, page, now).link == Some(crate::routes::member_str(crate::json::json_index(entry, "data"@), "link"@)),
        item_of(entry, page, now).title == Some(crate::routes::member_str(crate::json::json_index(entry, "data"@), "title"@)),
        item_of(entry, page, now).author == Some(crate::routes::member_str(crate::json::json_index(entry, "data"@), "nick"@)),
        item_of(entry, page, now).pub_date == Some(or_else(ts_rfc2822(match crate::json::json_as_i64(crate::json::json_index(crate::json::json_index(entry, "data"@), "timestamp"@)) {
            Some(t) => t,
            None => 0,
        }), now)),
{
}

} // verus!
