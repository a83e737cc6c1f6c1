//! `/caixin_latest`: Caixin's latest articles. The list comes from the
//! scroll API; each article's page is then fetched for its text.
use crate::dates::{or_else, timestamp_to_rss, ts_rfc2822};
use crate::feed::{opt_view, Feed, FeedItem, FeedItemView, FeedView};
use crate::html::{first_inner_html, select_first_inner_html};
use crate::json::{json_as_array, json_as_i64, json_as_str, json_index, Json};
use crate::request_rules::RouteError;
use crate::routes::{feed_result_is, item_views, member_str, member_str_exec, nested_str, nested_str_exec, plain_get, Fetch};
use crate::text::{cat, is_empty, push_str, split_char, split_char_exec};
use vstd::prelude::*;

verus! {

/// The request for the list.
pub fn request() -> (r: Fetch)
    ensures
        r.url@ == "https://gateway.caixin.com/api/dataplatform/scroll/index"@,
        r.headers@.len() == 0,
{
    plain_get("https://gateway.caixin.com/api/dataplatform/scroll/index".to_owned())
}

/// The articles of the list's answer (none where `data.articleList` is not
/// a list).
pub open spec fn list_of(json: Json) -> Option<Seq<Json>> {
    json_as_array(json_index(json_index(json, "data"@), "articleList"@))
}

/// An article is shown when it has a title and an address.
pub open spec fn is_shown(item: Json) -> bool {
    member_str(item, "title"@).len() > 0 && member_str(item, "url"@).len() > 0
}

/// The addresses of the articles shown, in order.
pub open spec fn shown_links(list: Seq<Json>) -> Seq<Seq<char>>
    decreases list.len(),
{
    if list.len() == 0 {
        seq![]
    } else {
        let rest = shown_links(list.drop_last());
        if is_shown(list.last()) {
            rest.push(member_str(list.last(), "url"@))
        } else {
            rest
        }
    }
}

fn article_list(json: &Json) -> (r: Option<&Vec<Json>>)
    ensures
        match r {
            Some(a) => list_of(*json) == Some(a@),
            None => list_of(*json) is None,
        },
{
    match json.get("data") {
        Some(d) => match d.get("articleList") {
            Some(Json::Array(a)) => Some(a),
            _ => None,
        },
        None => {
            proof {
                reveal(crate::json::json_get);
            }
            None
        },
    }
}

/// The pages to fetch: the address of each article shown, in order; the
/// failure where the answer has no list.
pub fn article_links(json: &Json) -> (r: Result<Vec<String>, RouteError>)
    ensures
        match (r, list_of(*json)) {
            (Ok(v), Some(l)) => crate::text::views(v@) == shown_links(l),
            (Err(RouteError::Message(m)), None) => m@ == "找不到 articleList"@,
            _ => false,
        },
{
    let list = match article_list(json) {
        Some(a) => a,
        None => {
            return Err(RouteError::Message("找不到 articleList".to_owned()));
        },
    };
    let mut out: Vec<String> = Vec::new();
    let mut i: usize = 0;
    assert(crate::text::views(out@) =~= shown_links(list@.take(0)));
    while i < list.len()
        invariant
            i <= list.len(),
            crate::text::views(out@) == shown_links(list@.take(i as int)),
        decreases list.len() - i,
    {
        assert(list@.take(i + 1).drop_last() =~= list@.take(i as int));
        assert(list@.take(i + 1).last() == list@[i as int]);
        let title = member_str_exec(&list[i], "title");
        let url = member_str_exec(&list[i], "url");
        if !is_empty(title.as_str()) && !is_empty(url.as_str()) {
            let ghost before = crate::text::views(out@);
            out.push(url);
            assert(crate::text::views(out@) =~= before.push(member_str(list@[i as int], "url"@)));
        }
        i = i + 1;
    }
    assert(list@.take(list.len() as int) =~= list@);
    Ok(out)
}

/// Each picture address as `<img src="..."><br>`.
pub open spec fn img_tags(pics: Seq<Seq<char>>) -> Seq<char>
    decreases pics.len(),
{
    if pics.len() == 0 {
        seq![]
    } else {
        img_tags(pics.drop_last()) + "<img src=\""@ + pics.last() + "\"><br>"@
    }
}

/// What the list itself says of an article, where its page has no text:
/// the summary quoted, then the pictures (`pics`, separated by `#`), each
/// where not empty.
pub open spec fn list_text(item: Json) -> Seq<char> {
    let summary = match json_as_str(json_index(item, "summary"@)) {
        Some(s) => if s.len() > 0 {
            "<blockquote>"@ + s + "</blockquote><br>"@
        } else {
            seq![]
        },
        None => seq![],
    };
    let pics = match json_as_str(json_index(item, "pics"@)) {
        Some(p) => if p.len() > 0 {
            img_tags(split_char(p, '#'))
        } else {
            seq![]
        },
        None => seq![],
    };
    summary + pics
}

/// An article's description from its page (`None`: the fetch failed,
/// which gives the empty text): the sub-heading quoted, where there is one,
/// then the main text, or what the list says (see [`list_text`]).
pub open spec fn spec_description(item: Json, page: Option<Seq<char>>) -> Seq<char> {
    match page {
        None => seq![],
        Some(html) => {
            let head = match first_inner_html(html, ".article .subhead"@) {
                Some(s) => "<blockquote>"@ + s + "</blockquote><br>"@,
                None => seq![],
            };
            head + match first_inner_html(html, "div#Main_Content_Val.text"@) {
                Some(m) => m,
                None => list_text(item),
            }
        },
    }
}

fn img_tags_exec(pics: &Vec<String>) -> (r: String)
    ensures
        r@ == img_tags(crate::text::views(pics@)),
{
    let mut out = String::new();
    let mut i: usize = 0;
    assert(crate::text::views(pics@).take(0) =~= Seq::<Seq<char>>::empty());
    while i < pics.len()
        invariant
            i <= pics.len(),
            out@ == img_tags(crate::text::views(pics@).take(i as int)),
        decreases pics.len() - i,
    {
        let ghost pv = crate::text::views(pics@);
        assert(pv.take(i + 1).drop_last() =~= pv.take(i as int));
        assert(pv.take(i + 1).last() == pics@[i as int]@);
        let ghost before = out@;
        push_str(&mut out, "<img src=\"");
        push_str(&mut out, pics[i].as_str());
        push_str(&mut out, "\"><br>");
        assert(out@ =~= before + "<img src=\""@ + pics@[i as int]@ + "\"><br>"@);
        i = i + 1;
    }
    assert(crate::text::views(pics@).take(pics.len() as int) =~= crate::text::views(pics@));
    out
}

fn list_text_exec(item: &Json) -> (r: String)
    ensures
        r@ == list_text(*item),
{
    let mut out = String::new();
    if let Some(s) = item.str_at("summary") {
        if !is_empty(s.as_str()) {
            out = cat("<blockquote>", s.as_str());
            push_str(&mut out, "</blockquote><br>");
        }
    }
    if let Some(p) = item.str_at("pics") {
        if !is_empty(p.as_str()) {
            let parts = split_char_exec(p.as_str(), '#');
            let tags = img_tags_exec(&parts);
            push_str(&mut out, tags.as_str());
        }
    }
    out
}

/// An article's description (see [`spec_description`]).
pub fn description(item: &Json, page: Option<&str>) -> (r: String)
    ensures
        r@ == spec_description(
            *item,
            match page {
                Some(p) => Some(p@),
                None => None,
            },
        ),
{
    let html = match page {
        Some(h) => h,
        None => {
            return String::new();
        },
    };
    let mut out = match select_first_inner_html(html, ".article .subhead") {
        Some(s) => {
            let mut q = cat("<blockquote>", s.as_str());
            push_str(&mut q, "</blockquote><br>");
            q
        },
        None => String::new(),
    };
    match select_first_inner_html(html, "div#Main_Content_Val.text") {
        Some(m) => push_str(&mut out, m.as_str()),
        None => {
            let t = list_text_exec(item);
            push_str(&mut out, t.as_str());
        },
    }
    out
}

/// The item of a shown article, with its page: the date from `time` (a
/// Unix timestamp, 0 where missing), the channel's name as category.
pub open spec fn item_of(item: Json, page: Option<Seq<char>>, now: Seq<char>) -> FeedItemView {
    let ts = match json_as_i64(json_index(item, "time"@)) {
        Some(t) => t,
        None => 0,
    };
    FeedItemView {
        title: Some(member_str(item, "title"@)),
        link: Some(member_str(item, "url"@)),
        description: Some(spec_description(item, page)),
        pub_date: Some(or_else(ts_rfc2822(ts), now)),
        author: None,
        guid: None,
        categories: seq![nested_str(item, "channelObject"@, "name"@)],
    }
}

/// The `k`-th page, `None` past the end.
pub open spec fn page_at(pages: Seq<Option<Seq<char>>>, k: int) -> Option<Seq<char>> {
    if 0 <= k < pages.len() {
        pages[k]
    } else {
        None
    }
}

/// The items of the articles shown, in order; the `k`-th shown article
/// goes with the `k`-th page.
pub open spec fn items_of(list: Seq<Json>, pages: Seq<Option<Seq<char>>>, now: Seq<char>) -> Seq<FeedItemView>
    decreases list.len(),
{
    if list.len() == 0 {
        seq![]
    } else {
        let rest = items_of(list.drop_last(), pages, now);
        if is_shown(list.last()) {
            rest.push(item_of(list.last(), page_at(pages, rest.len() as int), now))
        } else {
            rest
        }
    }
}

/// The feed of the list, or the failure where the answer has no list.
pub open spec fn spec_feed(json: Json, pages: Seq<Option<Seq<char>>>, now: Seq<char>) -> Result<FeedView, Seq<char>> {
    match list_of(json) {
        None => Err("找不到 articleList"@),
        Some(l) => Ok(FeedView {
            title: "财新网 - 最新文章"@,
            link: "https://www.caixin.com"@,
            description: seq![],
            pub_date: None,
            items: items_of(l, pages, now),
        }),
    }
}

fn entry_item(item: &Json, page: Option<&str>, now: &str) -> (r: FeedItem)
    ensures
        r@ == item_of(
            *item,
            match page {
                Some(p) => Some(p@),
                None => None,
            },
            now@,
        ),
{
    let ts: i64 = match item.i64_at("time") {
        Some(t) => t,
        None => 0,
    };
    let mut cats: Vec<String> = Vec::new();
    cats.push(nested_str_exec(item, "channelObject", "name"));
    let r = FeedItem {
        title: Some(member_str_exec(item, "title")),
        link: Some(member_str_exec(item, "url")),
        description: Some(description(item, page)),
        pub_date: Some(timestamp_to_rss(ts, now)),
        author: None,
        guid: None,
        categories: cats,
    };
    assert(r@.categories =~= seq![nested_str(*item, "channelObject"@, "name"@)]);
    r
}

/// `get`, after the fetches: the feed of the list's answer; `pages[k]` is
/// the page of the `k`-th link of [`article_links`], `None` where it could
/// not be fetched; `now` is the current time in RSS form.
pub fn build_feed(json: &Json, pages: &[Option<String>], now: &str) -> (r: Result<Feed, RouteError>)
    ensures
        feed_result_is(r, spec_feed(*json, pages@.map_values(|p: Option<String>| opt_view(p)), now@)),
{
    let ghost pv = pages@.map_values(|p: Option<String>| opt_view(p));
    let list = match article_list(json) {
        Some(a) => a,
        None => {
            return Err(RouteError::Message("找不到 articleList".to_owned()));
        },
    };
    let mut items: Vec<FeedItem> = Vec::new();
    let mut i: usize = 0;
    assert(item_views(items@) =~= items_of(list@.take(0), pv, now@));
    while i < list.len()
        invariant
            i <= list.len(),
            pv == pages@.map_values(|p: Option<String>| opt_view(p)),
            item_views(items@) == items_of(list@.take(i as int), pv, now@),
        decreases list.len() - i,
    {
        assert(list@.take(i + 1).drop_last() =~= list@.take(i as int));
        assert(list@.take(i + 1).last() == list@[i as int]);
        let title = member_str_exec(&list[i], "title");
        let url = member_str_exec(&list[i], "url");
        if !is_empty(title.as_str()) && !is_empty(url.as_str()) {
            let k = items.len();
            let page: Option<&str> = if k < pages.len() {
                match &pages[k] {
                    Some(p) => Some(p.as_str()),
                    None => None,
                }
            } else {
                None
            };
            assert(page_at(pv, k as int) == match page {
                Some(p) => Some(p@),
                None => None::<Seq<char>>,
            });
            let it = entry_item(&list[i], page, now);
            let ghost before = item_views(items@);
            items.push(it);
            assert(item_views(items@) =~= before.push(it@));
        }
        i = i + 1;
    }
    assert(list@.take(list.len() as int) =~= list@);
    Ok(Feed {
        title: "财新网 - 最新文章".to_owned(),
        link: "https://www.caixin.com".to_owned(),
        description: String::new(),
        pub_date: None,
        items,
    })
}

/// Law: an article links to its `url`, is titled by its `title`, dated by
/// its `time` and filed under its channel's `name`.
pub proof fn law_article_link(item: Json, page: Option<Seq<char>>, now: Seq<char>)
    ensures
        item_of(item, page, now).link == Some(crate::routes::member_str(item, "url"@)),
        item_of(item, page, now).title == Some(crate::routes::member_str(item, "title"@)),
        item_of(item, page, now).pub_date == Some(or_else(ts_rfc2822(match crate::json::json_as_i64(crate::json::json_index(item, "time"@)) {
            Some(t) => t,
            None => 0,
        }), now)),
        item_of(item, page, now).categories == seq![crate::routes::member_str(crate::json::json_index(item, "channelObject"@), "name"@)],
{
}

} // verus!
