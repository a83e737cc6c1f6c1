//! `/extremetech_news`: the latest ExtremeTech articles, read from the
//! home page.
use crate::dates::{chrono_rfc2822_utc, rfc2822_utc_rfc2822};
use crate::feed::{Feed, FeedItem, FeedItemView, FeedView};
use crate::html::{attr_views, fields, fields_view, select_fields, views_str, Fields};
use crate::routes::{absolute, absolute_at, attr_at, item_views, trimmed_at, trimmed_at_exec};
use crate::text::is_empty;
use vstd::prelude::*;

verus! {

/// The request for the home page, asked as a browser.
pub fn request() -> (r: crate::routes::Fetch)
    ensures
        r.url@ == "https://www.extremetech.com"@,
        crate::easyuser::pair_views(r.headers@) == seq![("User-Agent"@, "Mozilla/5.0 (Windows NT 10.0; Win64; x64) AppleWebKit/537.36 (KHTML, like Gecko) Chrome/120.0.0.0 Safari/537.36"@)],
{
    crate::routes::get_with_header("https://www.extremetech.com".to_owned(), "User-Agent", "Mozilla/5.0 (Windows NT 10.0; Win64; x64) AppleWebKit/537.36 (KHTML, like Gecko) Chrome/120.0.0.0 Safari/537.36")
}

/// What the page says of its article elements (see [`fields`]).
pub open spec fn page_fields(html: Seq<char>) -> Seq<(Seq<Option<Seq<char>>>, Seq<Option<Seq<char>>>)> {
    fields(html, "div.item.mt-4.flex"@, seq!["div.w-3\\/4 > a.block"@, "div.mt-2.hidden.w-full.text-gray-600.md\\:block"@], seq![("div.w-3\\/4 > a.block"@, "href"@), ("time[datetime]"@, "datetime"@)])
}

fn read_page(html: &str) -> (r: Vec<Fields>)
    ensures
        r@.map_values(|f: Fields| fields_view(f)) == page_fields(html@),
{
    let texts = vec!["div.w-3\\/4 > a.block", "div.mt-2.hidden.w-full.text-gray-600.md\\:block"];
    let attrs = vec![("div.w-3\\/4 > a.block", "href"), ("time[datetime]", "datetime")];
    assert(views_str(texts@) =~= seq!["div.w-3\\/4 > a.block"@, "div.mt-2.hidden.w-full.text-gray-600.md\\:block"@]);
    assert(attr_views(attrs@) =~= seq![("div.w-3\\/4 > a.block"@, "href"@), ("time[datetime]"@, "datetime"@)]);
    select_fields(html, "div.item.mt-4.flex", texts.as_slice(), attrs.as_slice())
}

/// The article of one element: title and link from the headline link,
/// the summary as description, the `datetime` (RFC 2822, moved to UTC) as
/// date; nothing without a title or a link.
pub open spec fn element_item(f: (Seq<Option<Seq<char>>>, Seq<Option<Seq<char>>>), now: Seq<char>) -> Option<FeedItemView> {
    let title = trimmed_at(f.0, 0);
    let link = absolute(attr_at(f.1, 0), "https://www.extremetech.com"@);
    let desc = trimmed_at(f.0, 1);
    let date = match attr_at(f.1, 1) {
        Some(d) => match rfc2822_utc_rfc2822(d) {
            Some(x) => x,
            None => now,
        },
        None => now,
    };
    if title.len() == 0 || link.len() == 0 {
        None
    } else {
        Some(FeedItemView {
            title: Some(title),
            link: Some(link),
            description: if desc.len() == 0 { None } else { Some(desc) },
            pub_date: Some(date),
            author: None,
            guid: None,
            categories: seq![],
        })
    }
}

fn element_item_exec(f: &Fields, now: &str) -> (r: Option<FeedItem>)
    ensures
        match r {
            Some(it) => element_item(fields_view(*f), now@) == Some(it@),
            None => element_item(fields_view(*f), now@) is None,
        },
{
    let title = trimmed_at_exec(&f.texts, 0);
    let link = absolute_at(&f.attrs, 0, "https://www.extremetech.com");
    let desc = trimmed_at_exec(&f.texts, 1);
    let date = if 1 < f.attrs.len() {
        match &f.attrs[1] {
            Some(d) => match chrono_rfc2822_utc(d.as_str()) {
                Some(x) => x,
                None => now.to_owned(),
            },
            None => now.to_owned(),
        }
    } else {
        now.to_owned()
    };
    if is_empty(title.as_str()) || is_empty(link.as_str()) {
        return None;
    }
    let r = FeedItem {
        title: Some(title),
        link: Some(link),
        description: if is_empty(desc.as_str()) { None } else { Some(desc) },
        pub_date: Some(date),
        author: None,
        guid: None,
        categories: Vec::new(),
    };
    assert(r@.categories =~= Seq::<Seq<char>>::empty());
    Some(r)
}

/// The items of the first 15 elements, in order; elements without a title
/// or a link are passed over.
pub open spec fn items_of(fs: Seq<(Seq<Option<Seq<char>>>, Seq<Option<Seq<char>>>)>, now: Seq<char>) -> Seq<FeedItemView>
    decreases fs.len(),
{
    if fs.len() == 0 {
        seq![]
    } else {
        let rest = items_of(fs.drop_last(), now);
        match element_item(fs.last(), now) {
            Some(it) => rest.push(it),
            None => rest,
        }
    }
}

/// The feed of the page.
pub open spec fn spec_feed(html: Seq<char>, now: Seq<char>) -> FeedView {
    let fs = page_fields(html);
    FeedView {
        title: "ExtremeTech - Latest Tech News"@,
        link: "https://www.extremetech.com"@,
        description: "ExtremeTech latest articles (official RSS returns 403) | huinyg / ExtremeTech (no working official RSS)"@,
        pub_date: None,
        items: items_of(if fs.len() > 15 { fs.take(15) } else { fs }, now),
    }
}

/// `get`, after the fetch: the feed of the home page's HTML; `now` is the
/// current time in RSS form, the date of articles without a usable one.
pub fn build_feed(html: &str, now: &str) -> (r: Feed)
    ensures
        r@ == spec_feed(html@, now@),
{
    let fs = read_page(html);
    let ghost fv = fs@.map_values(|f: Fields| fields_view(f));
    let n: usize = if fs.len() > 15 {
        15
    } else {
        fs.len()
    };
    let mut items: Vec<FeedItem> = Vec::new();
    let mut i: usize = 0;
    assert(fv.take(0) =~= Seq::<(Seq<Option<Seq<char>>>, Seq<Option<Seq<char>>>)>::empty());
    assert(item_views(items@) =~= Seq::<FeedItemView>::empty());
    while i < n
        invariant
            i <= n,
            n <= fs.len(),
            fv == fs@.map_values(|f: Fields| fields_view(f)),
            item_views(items@) == items_of(fv.take(i as int), now@),
        decreases n - i,
    {
        assert(fv.take(i + 1).drop_last() =~= fv.take(i as int));
        assert(fv.take(i + 1).last() == fields_view(fs@[i as int]));
        match element_item_exec(&fs[i], now) {
            Some(it) => {
                let ghost before = item_views(items@);
                let ghost iv = it@;
                items.push(it);
                assert(item_views(items@) =~= before.push(iv));
            },
            None => {},
        }
        i = i + 1;
    }
    proof {
        let t = if fv.len() > 15 { fv.take(15) } else { fv };
        assert(fv.take(n as int) =~= t);
    }
    Feed {
        title: "ExtremeTech - Latest Tech News".to_owned(),
        link: "https://www.extremetech.com".to_owned(),
        description: "ExtremeTech latest articles (official RSS returns 403) | huinyg / ExtremeTech (no working official RSS)".to_owned(),
        pub_date: None,
        items,
    }
}

/// Law: an element makes an item exactly when its headline text and its
/// link are not empty; the item is titled by the headline text (trimmed)
/// and links to the headline's `href`, made absolute on `https://www.extremetech.com`.
pub proof fn law_element_link(f: (Seq<Option<Seq<char>>>, Seq<Option<Seq<char>>>), now: Seq<char>)
    ensures
        ({
            let title = trimmed_at(f.0, 0);
            let link = absolute(attr_at(f.1, 0), "https://www.extremetech.com"@);
            &&& (element_item(f, now) is Some <==> title.len() > 0 && link.len() > 0)
            &&& element_item(f, now) matches Some(it) ==> it.title == Some(title) && it.link == Some(link)
        }),
{
}

} // verus!
