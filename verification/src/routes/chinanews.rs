//! `/chinanews`: China News Service's rolling news. The list page gives
//! the articles; each article's page gives the text, the time and the
//! source.
use crate::dates::{chinese_date, chinese_date_in_year, or_else};
use crate::easyuser::pair_views;
use crate::feed::{opt_view, Feed, FeedItem, FeedItemView, FeedView};
use crate::html::{anchor_view, anchors, first_inner_html, select_anchors, select_first_inner_html};
use crate::routes::{absolute, item_views, plain_get, Fetch};
use crate::text::{cat, capture_group, ends_with, is_empty, regex_group, starts_with, trim, trim_str};
use vstd::prelude::*;

verus! {

/// The site.
pub open spec fn root() -> Seq<char> {
    "https://www.chinanews.com.cn"@
}

/// The list page.
pub open spec fn list_url() -> Seq<char> {
    root() + "/scroll-news/news1.html"@
}

/// The request for the list page.
pub fn request() -> (r: Fetch)
    ensures
        r.url@ == list_url(),
        r.headers@.len() == 0,
{
    proof {
        reveal_strlit("https://www.chinanews.com.cn/scroll-news/news1.html");
        reveal_strlit("https://www.chinanews.com.cn");
        reveal_strlit("/scroll-news/news1.html");
        assert("https://www.chinanews.com.cn/scroll-news/news1.html"@ =~= list_url());
    }
    plain_get("https://www.chinanews.com.cn/scroll-news/news1.html".to_owned())
}

/// The listed articles, as (title, link): each link (`href`) that ends in
/// `.shtml`, made absolute, with its trimmed text, where that is not empty.
pub open spec fn candidates_of(els: Seq<(Option<Seq<char>>, Seq<char>)>) -> Seq<(Seq<char>, Seq<char>)>
    decreases els.len(),
{
    if els.len() == 0 {
        seq![]
    } else {
        let rest = candidates_of(els.drop_last());
        let href = match els.last().0 {
            Some(h) => h,
            None => seq![],
        };
        let title = trim(els.last().1);
        if href.len() == 0 || !".shtml"@.is_suffix_of(href) || title.len() == 0 {
            rest
        } else {
            rest.push((title, absolute(Some(href), root())))
        }
    }
}

/// The listed articles of the list page (see [`candidates_of`]).
pub fn candidates(html: &str) -> (r: Vec<(String, String)>)
    ensures
        pair_views(r@) == candidates_of(anchors(html@, "div.dd_bt a"@, "href"@)),
{
    let els = select_anchors(html, "div.dd_bt a", "href");
    let ghost ev = els@.map_values(|p: (Option<String>, String)| anchor_view(p));
    let mut out: Vec<(String, String)> = Vec::new();
    let mut i: usize = 0;
    assert(pair_views(out@) =~= candidates_of(ev.take(0)));
    while i < els.len()
        invariant
            i <= els.len(),
            ev == els@.map_values(|p: (Option<String>, String)| anchor_view(p)),
            pair_views(out@) == candidates_of(ev.take(i as int)),
        decreases els.len() - i,
    {
        assert(ev.take(i + 1).drop_last() =~= ev.take(i as int));
        assert(ev.take(i + 1).last() == anchor_view(els@[i as int]));
        let href: String = match &els[i].0 {
            Some(h) => h.clone(),
            None => String::new(),
        };
        let title = trim_str(els[i].1.as_str());
        if !is_empty(href.as_str()) && ends_with(href.as_str(), ".shtml") && !is_empty(title.as_str()) {
            let link = if starts_with(href.as_str(), "http") {
                href
            } else {
                cat("https://www.chinanews.com.cn", href.as_str())
            };
            proof {
                reveal_strlit("https://www.chinanews.com.cn");
            }
            let ghost before = pair_views(out@);
            let ghost pv = (title@, link@);
            out.push((title, link));
            assert(pair_views(out@) =~= before.push(pv));
        }
        i = i + 1;
    }
    assert(ev.take(els.len() as int) =~= ev);
    out
}

/// The time shown on an article's page.
pub open spec fn date_pattern() -> Seq<char> {
    "(\\d{4}年\\d{2}月\\d{2}日\\s*\\d{2}:\\d{2})"@
}

/// The source named on an article's page.
pub open spec fn source_pattern() -> Seq<char> {
    "来源[：:]([^<]{2,20})"@
}

/// An article's text: the inner HTML of `div.content_desc`, else of
/// `div.left_zw`, else of `div.t3`; empty where none is there.
pub open spec fn page_description(html: Seq<char>) -> Seq<char> {
    match first_inner_html(html, "div.content_desc"@) {
        Some(d) => d,
        None => match first_inner_html(html, "div.left_zw"@) {
            Some(d) => d,
            None => match first_inner_html(html, "div.t3"@) {
                Some(d) => d,
                None => seq![],
            },
        },
    }
}

/// An article's date: the day of the time shown (see
/// [`crate::dates::chinese_date`], in the year `year`), else `now`.
pub open spec fn page_date(html: Seq<char>, year: i32, now: Seq<char>) -> Seq<char> {
    match regex_group(date_pattern(), html, 1) {
        Some(ds) => or_else(chinese_date(ds, year), now),
        None => now,
    }
}

/// An article's author: the source named, trimmed, where not empty.
pub open spec fn page_author(html: Seq<char>) -> Option<Seq<char>> {
    match regex_group(source_pattern(), html, 1) {
        Some(a) => if trim(a).len() == 0 {
            None
        } else {
            Some(trim(a))
        },
        None => None,
    }
}

/// The item of an article, from its page (`None`: the fetch failed);
/// nothing without a text.
pub open spec fn article_item(title: Seq<char>, link: Seq<char>, page: Option<Seq<char>>, year: i32, now: Seq<char>) -> Option<FeedItemView> {
    match page {
        None => None,
        Some(html) => {
            let d = page_description(html);
            if d.len() == 0 {
                None
            } else {
                Some(FeedItemView {
                    title: Some(title),
                    link: Some(link),
                    description: Some(d),
                    pub_date: Some(page_date(html, year, now)),
                    author: page_author(html),
                    guid: None,
                    categories: seq![],
                })
            }
        },
    }
}

fn text_at(html: &str, selector: &str) -> (r: Option<String>)
    ensures
        opt_view(r) == first_inner_html(html@, selector@),
{
    select_first_inner_html(html, selector)
}

/// The item of an article (see [`article_item`]); `year` is the current
/// year, which the day shown is taken in.
pub fn article_item_exec(title: &str, link: &str, page: Option<&str>, year: i32, now: &str) -> (r: Option<FeedItem>)
    ensures
        match r {
            Some(it) => article_item(title@, link@, opt_str(page), year, now@) == Some(it@),
            None => article_item(title@, link@, opt_str(page), year, now@) is None,
        },
{
    let html = match page {
        Some(h) => h,
        None => {
            return None;
        },
    };
    let d = match text_at(html, "div.content_desc") {
        Some(d) => d,
        None => match text_at(html, "div.left_zw") {
            Some(d) => d,
            None => match text_at(html, "div.t3") {
                Some(d) => d,
                None => String::new(),
            },
        },
    };
    if is_empty(d.as_str()) {
        return None;
    }
    let date = match capture_group("(\\d{4}年\\d{2}月\\d{2}日\\s*\\d{2}:\\d{2})", html, 1) {
        Some(ds) => match chinese_date_in_year(ds.as_str(), year) {
            Some(x) => x,
            None => now.to_owned(),
        },
        None => now.to_owned(),
    };
    let author = match capture_group("来源[：:]([^<]{2,20})", html, 1) {
        Some(a) => {
            let t = trim_str(a.as_str());
            if is_empty(t.as_str()) {
                None
            } else {
                Some(t)
            }
        },
        None => None,
    };
    let r = FeedItem {
        title: Some(title.to_owned()),
        link: Some(link.to_owned()),
        description: Some(d),
        pub_date: Some(date),
        author,
        guid: None,
        categories: Vec::new(),
    };
    assert(r@.categories =~= Seq::<Seq<char>>::empty());
    Some(r)
}

/// An optional text by its view.
pub open spec fn opt_str(p: Option<&str>) -> Option<Seq<char>> {
    match p {
        Some(s) => Some(s@),
        None => None,
    }
}

/// At most this many articles are read; fetching stops once they are
/// found.
pub open spec fn max_items() -> nat {
    30
}

/// One step of fetching the articles: with `found` items found so far, the
/// page of the next candidate gives the new count, and whether to fetch
/// another candidate (fewer than 30 found).
pub fn fetch_step(found: usize, title: &str, link: &str, page: Option<&str>, year: i32, now: &str) -> (r: (usize, bool))
    requires
        found < 30,
    ensures
        r.0 == found + (if article_item(title@, link@, opt_str(page), year, now@) is Some { 1int } else { 0 }),
        r.1 == (r.0 < max_items()),
{
    let n = match article_item_exec(title, link, page, year, now) {
        Some(_) => found + 1,
        None => found,
    };
    (n, n < 30)
}

/// The `k`-th page, `None` past the end.
pub open spec fn page_at(pages: Seq<Option<Seq<char>>>, k: int) -> Option<Seq<char>> {
    if 0 <= k < pages.len() {
        pages[k]
    } else {
        None
    }
}

/// The items of the candidates whose pages give one, in order; the `k`-th
/// candidate goes with the `k`-th page.
pub open spec fn items_of(
    cands: Seq<(Seq<char>, Seq<char>)>,
    pages: Seq<Option<Seq<char>>>,
    year: i32,
    now: Seq<char>,
) -> Seq<FeedItemView>
    decreases cands.len(),
{
    if cands.len() == 0 {
        seq![]
    } else {
        let k = cands.len() - 1;
        let rest = items_of(cands.drop_last(), pages, year, now);
        match article_item(cands[k].0, cands[k].1, page_at(pages, k), year, now) {
            Some(it) => rest.push(it),
            None => rest,
        }
    }
}

/// The feed: the first 30 items.
pub open spec fn spec_feed(
    cands: Seq<(Seq<char>, Seq<char>)>,
    pages: Seq<Option<Seq<char>>>,
    year: i32,
    now: Seq<char>,
) -> FeedView {
    let all = items_of(cands, pages, year, now);
    FeedView {
        title: "中国新闻网 - 滚动新闻"@,
        link: list_url(),
        description: "中国新闻网滚动新闻"@,
        pub_date: None,
        items: if all.len() > 30 { all.take(30) } else { all },
    }
}

/// `get`, after the fetches: the feed of the candidates (see
/// [`candidates`]); `pages[k]` is the page of the `k`-th candidate, `None`
/// where it was not fetched or the fetch failed; `year` is the current
/// year and `now` the current time in RSS form.
pub fn build_feed(cands: &[(String, String)], pages: &[Option<String>], year: i32, now: &str) -> (r: Feed)
    ensures
        r@ == spec_feed(pair_views(cands@), pages@.map_values(|p: Option<String>| opt_view(p)), year, now@),
{
    let ghost cv = pair_views(cands@);
    let ghost pv = pages@.map_values(|p: Option<String>| opt_view(p));
    let mut items: Vec<FeedItem> = Vec::new();
    let mut i: usize = 0;
    assert(item_views(items@) =~= items_of(cv.take(0), pv, year, now@));
    while i < cands.len()
        invariant
            i <= cands.len(),
            cv == pair_views(cands@),
            pv == pages@.map_values(|p: Option<String>| opt_view(p)),
            item_views(items@) == items_of(cv.take(i as int), pv, year, now@),
        decreases cands.len() - i,
    {
        assert(cv.take(i + 1).drop_last() =~= cv.take(i as int));
        assert(cv.take(i + 1)[i as int] == (cands@[i as int].0@, cands@[i as int].1@));
        let page: Option<&str> = if i < pages.len() {
            match &pages[i] {
                Some(p) => Some(p.as_str()),
                None => None,
            }
        } else {
            None
        };
        assert(page_at(pv, i as int) == opt_str(page));
        match article_item_exec(cands[i].0.as_str(), cands[i].1.as_str(), page, year, now) {
            Some(it) => {
                let ghost before = item_views(items@);
                let ghost iv = it@;
                items.push(it);
                assert(item_views(items@) =~= before.push(iv));
            },
            None => {},
        }
        i = i + 1;
    }
    assert(cv.take(cands.len() as int) =~= cv);
    let ghost all = item_views(items@);
    if items.len() > 30 {
        items.truncate(30);
        assert(item_views(items@) =~= all.take(30));
    }
    proof {
        reveal_strlit("https://www.chinanews.com.cn/scroll-news/news1.html");
        reveal_strlit("https://www.chinanews.com.cn");
        reveal_strlit("/scroll-news/news1.html");
        assert("https://www.chinanews.com.cn/scroll-news/news1.html"@ =~= list_url());
        assert(item_views(items@) == (if all.len() > 30 { all.take(30) } else { all }));
    }
    Feed {
        title: "中国新闻网 - 滚动新闻".to_owned(),
        link: "https://www.chinanews.com.cn/scroll-news/news1.html".to_owned(),
        description: "中国新闻网滚动新闻".to_owned(),
        pub_date: None,
        items,
    }
}

/// Law: an article's item, where one is made, carries the title and link
/// it was given.
pub proof fn law_article_link(title: Seq<char>, link: Seq<char>, page: Option<Seq<char>>, year: i32, now: Seq<char>)
    ensures
        article_item(title, link, page, year, now) matches Some(it) ==> it.title == Some(title) && it.link
            == Some(link),
{
}

} // verus!
