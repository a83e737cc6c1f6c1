//! `/bjnews_cat`: the articles of a Beijing News category. The category
//! page lists the articles; each article's page is then fetched.
use crate::dates::{datetime_str_to_rss, local0800_rfc2822};
use crate::easyuser::{pair_views, Params};
use crate::feed::{Feed, FeedItem, FeedItemView, FeedView};
use crate::html::{first_inner_html, first_text, picked, picked_view, select_first_inner_html, select_first_text, select_picked, views_str, Picked};
use crate::request_rules::RouteError;
use crate::routes::{absolute, get_with_header, item_views, param_or, param_or_exec, Fetch};
use crate::text::{cat, is_empty, str_eq, trim, trim_str};
use vstd::prelude::*;

verus! {

/// The category asked for (`depth` by default).
pub open spec fn category(para: Map<Seq<char>, Seq<char>>) -> Seq<char> {
    param_or(para, "cat"@, "depth"@)
}

/// The category's page.
pub open spec fn list_url(para: Map<Seq<char>, Seq<char>>) -> Seq<char> {
    "https://www.bjnews.com.cn/"@ + category(para)
}

/// The request for the category's page, asked as a browser.
pub fn list_request(para: &Params) -> (r: Fetch)
    ensures
        r.url@ == list_url(para@),
        pair_views(r.headers@) == seq![
            ("User-Agent"@, "Mozilla/5.0 (Windows NT 10.0; Win64; x64) AppleWebKit/537.36 (KHTML, like Gecko) Chrome/120.0.0.0 Safari/537.36"@),
        ],
{
    get_with_header(
        cat("https://www.bjnews.com.cn/", param_or_exec(para, "cat", "depth").as_str()),
        "User-Agent",
        "Mozilla/5.0 (Windows NT 10.0; Win64; x64) AppleWebKit/537.36 (KHTML, like Gecko) Chrome/120.0.0.0 Safari/537.36",
    )
}

/// The links of the listed articles, made absolute, each once, in the
/// order they first appear.
pub open spec fn unique_links(ps: Seq<(Option<Seq<char>>, Seq<Option<Seq<char>>>)>) -> Seq<Seq<char>>
    decreases ps.len(),
{
    if ps.len() == 0 {
        seq![]
    } else {
        let rest = unique_links(ps.drop_last());
        match ps.last().0 {
            Some(h) => {
                let full = absolute(Some(h), "https://www.bjnews.com.cn"@);
                if rest.contains(full) {
                    rest
                } else {
                    rest.push(full)
                }
            },
            None => rest,
        }
    }
}

/// The selector of the listed articles' links.
pub open spec fn link_selector() -> Seq<char> {
    "#waterfall-container .pin_demo > a"@
}

fn contains_exec(v: &Vec<String>, x: &str) -> (r: bool)
    ensures
        r == crate::text::views(v@).contains(x@),
{
    let mut i: usize = 0;
    while i < v.len()
        invariant
            i <= v.len(),
            forall|j: int| 0 <= j < i ==> v@[j]@ != x@,
        decreases v.len() - i,
    {
        if str_eq(v[i].as_str(), x) {
            assert(crate::text::views(v@)[i as int] == x@);
            return true;
        }
        i = i + 1;
    }
    assert forall|j: int| 0 <= j < crate::text::views(v@).len() implies crate::text::views(v@)[j] != x@ by {
        assert(crate::text::views(v@)[j] == v@[j]@);
    }
    false
}

/// The articles' links of the category page, or the failure where there
/// is none.
pub fn article_links(para: &Params, html: &str) -> (r: Result<Vec<String>, RouteError>)
    ensures
        match r {
            Ok(v) => crate::text::views(v@) == unique_links(picked(html@, link_selector(), "href"@, seq![]))
                && v@.len() > 0,
            Err(RouteError::Message(m)) => unique_links(picked(html@, link_selector(), "href"@, seq![])).len() == 0
                && m@ == "在 "@ + list_url(para@) + " 中找不到文章链接"@,
            Err(_) => false,
        },
{
    let subs: Vec<&str> = Vec::new();
    assert(views_str(subs@) =~= Seq::<Seq<char>>::empty());
    let ps = select_picked(html, "#waterfall-container .pin_demo > a", "href", subs.as_slice());
    let ghost pv = ps@.map_values(|p: Picked| picked_view(p));
    let mut links: Vec<String> = Vec::new();
    let mut i: usize = 0;
    assert(pv.take(0) =~= Seq::<(Option<Seq<char>>, Seq<Option<Seq<char>>>)>::empty());
    assert(crate::text::views(links@) =~= Seq::<Seq<char>>::empty());
    while i < ps.len()
        invariant
            i <= ps.len(),
            pv == ps@.map_values(|p: Picked| picked_view(p)),
            crate::text::views(links@) == unique_links(pv.take(i as int)),
        decreases ps.len() - i,
    {
        assert(pv.take(i + 1).drop_last() =~= pv.take(i as int));
        assert(pv.take(i + 1).last() == picked_view(ps@[i as int]));
        match &ps[i].attr {
            Some(h) => {
                let full = if crate::text::starts_with(h.as_str(), "http") {
                    h.clone()
                } else {
                    cat("https://www.bjnews.com.cn", h.as_str())
                };
                if !contains_exec(&links, full.as_str()) {
                    let ghost before = crate::text::views(links@);
                    let ghost fv = full@;
                    links.push(full);
                    assert(crate::text::views(links@) =~= before.push(fv));
                }
            },
            None => {},
        }
        i = i + 1;
    }
    assert(pv.take(ps.len() as int) =~= pv);
    if links.len() == 0 {
        let mut m = cat("在 https://www.bjnews.com.cn/", param_or_exec(para, "cat", "depth").as_str());
        crate::text::push_str(&mut m, " 中找不到文章链接");
        proof {
            reveal_strlit("在 https://www.bjnews.com.cn/");
            reveal_strlit("在 ");
            reveal_strlit("https://www.bjnews.com.cn/");
            assert("在 https://www.bjnews.com.cn/"@ =~= "在 "@ + "https://www.bjnews.com.cn/"@);
        }
        return Err(RouteError::Message(m));
    }
    Ok(links)
}

/// The request for an article's page.
pub fn detail_request(link: &str) -> (r: Fetch)
    ensures
        r.url@ == link@,
        pair_views(r.headers@) == seq![("User-Agent"@, "Mozilla/5.0 (Windows NT 10.0; Win64; x64) AppleWebKit/537.36"@)],
{
    get_with_header(link.to_owned(), "User-Agent", "Mozilla/5.0 (Windows NT 10.0; Win64; x64) AppleWebKit/537.36")
}

/// An element's text, trimmed, or the empty text.
pub open spec fn text_or_empty(html: Seq<char>, selector: Seq<char>) -> Seq<char> {
    match first_text(html, selector) {
        Some(t) => trim(t),
        None => seq![],
    }
}

/// The item of an article's page: its `<title>`, the reporter as author,
/// `#contentStr` as description, and the time shown (`YYYY-MM-DD HH:MM:SS`,
/// UTC+8) or `now`; nothing without a title.
pub open spec fn article_item(link: Seq<char>, html: Seq<char>, now: Seq<char>) -> Option<FeedItemView> {
    let title = text_or_empty(html, "title"@);
    let date_text = text_or_empty(html, ".left-info .timer"@);
    if title.len() == 0 {
        None
    } else {
        Some(FeedItemView {
            title: Some(title),
            link: Some(link),
            description: Some(match first_inner_html(html, "#contentStr"@) {
                Some(h) => h,
                None => seq![],
            }),
            pub_date: Some(if date_text.len() == 0 {
                now
            } else {
                match local0800_rfc2822(date_text) {
                    Some(d) => d,
                    None => now,
                }
            }),
            author: Some(text_or_empty(html, ".left-info .reporter"@)),
            guid: None,
            categories: seq![],
        })
    }
}

fn text_or_empty_exec(html: &str, selector: &str) -> (r: String)
    ensures
        r@ == text_or_empty(html@, selector@),
{
    match select_first_text(html, selector) {
        Some(t) => trim_str(t.as_str()),
        None => String::new(),
    }
}

/// The item of an article's page (see [`article_item`]).
pub fn article_item_exec(link: &str, html: &str, now: &str) -> (r: Option<FeedItem>)
    ensures
        match r {
            Some(it) => article_item(link@, html@, now@) == Some(it@),
            None => article_item(link@, html@, now@) is None,
        },
{
    let title = text_or_empty_exec(html, "title");
    if is_empty(title.as_str()) {
        return None;
    }
    let date_text = text_or_empty_exec(html, ".left-info .timer");
    let date = if is_empty(date_text.as_str()) {
        now.to_owned()
    } else {
        match datetime_str_to_rss(date_text.as_str()) {
            Some(d) => d,
            None => now.to_owned(),
        }
    };
    let r = FeedItem {
        title: Some(title),
        link: Some(link.to_owned()),
        description: Some(match select_first_inner_html(html, "#contentStr") {
            Some(h) => h,
            None => String::new(),
        }),
        pub_date: Some(date),
        author: Some(text_or_empty_exec(html, ".left-info .reporter")),
        guid: None,
        categories: Vec::new(),
    };
    assert(r@.categories =~= Seq::<Seq<char>>::empty());
    Some(r)
}

/// The items of the articles whose pages were fetched (`None`: the fetch
/// failed), in order; articles without a title are passed over.
pub open spec fn items_of(links: Seq<Seq<char>>, pages: Seq<Option<Seq<char>>>, now: Seq<char>) -> Seq<FeedItemView>
    decreases links.len(),
{
    if links.len() == 0 {
        seq![]
    } else {
        let i = links.len() - 1;
        let rest = items_of(links.drop_last(), pages, now);
        if i < pages.len() && pages[i] is Some {
            match article_item(links[i], pages[i]->0, now) {
                Some(it) => rest.push(it),
                None => rest,
            }
        } else {
            rest
        }
    }
}

/// The feed of the category.
pub open spec fn spec_feed(para: Map<Seq<char>, Seq<char>>, links: Seq<Seq<char>>, pages: Seq<Option<Seq<char>>>, now: Seq<char>) -> FeedView {
    FeedView {
        title: "新京报 - "@ + category(para),
        link: list_url(para),
        description: "新京报分类文章"@,
        pub_date: None,
        items: items_of(links, pages, now),
    }
}

/// The feed of the category (see [`spec_feed`]); `pages[i]` is the page of
/// the `i`-th link, `None` where it could not be fetched.
pub fn build_feed(para: &Params, links: &[String], pages: &[Option<String>], now: &str) -> (r: Feed)
    ensures
        r@ == spec_feed(para@, crate::text::views(links@), crate::routes::cde_index::page_views(pages@), now@),
{
    let ghost lv = crate::text::views(links@);
    let ghost pv = crate::routes::cde_index::page_views(pages@);
    let mut items: Vec<FeedItem> = Vec::new();
    let mut i: usize = 0;
    assert(lv.take(0) =~= Seq::<Seq<char>>::empty());
    assert(item_views(items@) =~= Seq::<FeedItemView>::empty());
    while i < links.len()
        invariant
            i <= links.len(),
            lv == crate::text::views(links@),
            pv == crate::routes::cde_index::page_views(pages@),
            item_views(items@) == items_of(lv.take(i as int), pv, now@),
        decreases links.len() - i,
    {
        assert(lv.take(i + 1).drop_last() =~= lv.take(i as int));
        assert(lv.take(i + 1)[i as int] == links@[i as int]@);
        if i < pages.len() {
            match &pages[i] {
                Some(h) => match article_item_exec(links[i].as_str(), h.as_str(), now) {
                    Some(it) => {
                        let ghost before = item_views(items@);
                        let ghost iv = it@;
                        items.push(it);
                        assert(item_views(items@) =~= before.push(iv));
                    },
                    None => {},
                },
                None => {},
            }
        }
        i = i + 1;
    }
    assert(lv.take(links.len() as int) =~= lv);
    let c = param_or_exec(para, "cat", "depth");
    Feed {
        title: cat("新京报 - ", c.as_str()),
        link: cat("https://www.bjnews.com.cn/", c.as_str()),
        description: "新京报分类文章".to_owned(),
        pub_date: None,
        items,
    }
}

/// Law: an article's page makes an item exactly when its `<title>` is not
/// empty; the item is titled so and links to the article's link.
pub proof fn law_article_link(link: Seq<char>, html: Seq<char>, now: Seq<char>)
    ensures
        article_item(link, html, now) is Some <==> text_or_empty(html, "title"@).len() > 0,
        article_item(link, html, now) matches Some(it) ==> it.link == Some(link) && it.title == Some(
            text_or_empty(html, "title"@),
        ),
{
}

} // verus!
