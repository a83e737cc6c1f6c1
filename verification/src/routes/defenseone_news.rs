//! `/defenseone_news`: the latest Defense One articles, read from the home
//! page.
use crate::dates::{chrono_rfc3339_utc, rfc3339_utc_rfc2822};
use crate::feed::{Feed, FeedItem, FeedItemView, FeedView};
use crate::html::{attr_views, fields, fields_view, select_fields, views_str, Fields};
use crate::routes::{absolute, absolute_at, attr_at, item_views, trimmed_at, trimmed_at_exec};
use crate::text::{is_empty, push_str};
use vstd::prelude::*;

verus! {

/// The request for the home page, asked as a browser.
pub fn request() -> (r: crate::routes::Fetch)
    ensures
        r.url@ == "https://www.defenseone.com"@,
        crate::easyuser::pair_views(r.headers@) == seq![("User-Agent"@, "Mozilla/5.0 (Windows NT 10.0; Win64; x64) AppleWebKit/537.36 (KHTML, like Gecko) Chrome/120.0.0.0 Safari/537.36"@)],
{
    crate::routes::get_with_header("https://www.defenseone.com".to_owned(), "User-Agent", "Mozilla/5.0 (Windows NT 10.0; Win64; x64) AppleWebKit/537.36 (KHTML, like Gecko) Chrome/120.0.0.0 Safari/537.36")
}

/// What the page says of its article elements (see [`fields`]).
pub open spec fn page_fields(html: Seq<char>) -> Seq<(Seq<Option<Seq<char>>>, Seq<Option<Seq<char>>>)> {
    fields(html, "div.river-item"@, seq!["h2.river-item-hed a"@, "h3.river-item-dek"@, "span.format-authors"@, "a.river-item-category"@], seq![("h2.river-item-hed a"@, "href"@), ("time[datetime]"@, "datetime"@)])
}

fn read_page(html: &str) -> (r: Vec<Fields>)
    ensures
        r@.map_values(|f: Fields| fields_view(f)) == page_fields(html@),
{
    let texts = vec!["h2.river-item-hed a", "h3.river-item-dek", "span.format-authors", "a.river-item-category"];
    let attrs = vec![("h2.river-item-hed a", "href"), ("time[datetime]", "datetime")];
    assert(views_str(texts@) =~= seq!["h2.river-item-hed a"@, "h3.river-item-dek"@, "span.format-authors"@, "a.river-item-category"@]);
    assert(attr_views(attrs@) =~= seq![("h2.river-item-hed a"@, "href"@), ("time[datetime]"@, "datetime"@)]);
    select_fields(html, "div.river-item", texts.as_slice(), attrs.as_slice())
}

/// The description: the category, the authors and the summary, each where
/// present.
pub open spec fn defense_desc(category: Seq<char>, author: Seq<char>, dek: Seq<char>) -> Seq<char> {
    (if category.len() == 0 { seq![] } else { "["@ + category + "]<br/>"@ })
        + (if author.len() == 0 { seq![] } else { "By "@ + author + "<br/>"@ }) + dek
}

/// The article of one element: title and link from the headline link,
/// category, authors and summary as description, the `datetime` (RFC 3339,
/// moved to UTC) as date; nothing without a title or a link.
pub open spec fn element_item(f: (Seq<Option<Seq<char>>>, Seq<Option<Seq<char>>>), now: Seq<char>) -> Option<FeedItemView> {
    let title = trimmed_at(f.0, 0);
    let link = absolute(attr_at(f.1, 0), "https://www.defenseone.com"@);
    let desc = defense_desc(trimmed_at(f.0, 3), trimmed_at(f.0, 2), trimmed_at(f.0, 1));
    let date = match attr_at(f.1, 1) {
        Some(d) => match rfc3339_utc_rfc2822(d) {
            Some(x) => x,
            None => now,
        },
        None => now,
    };
    if title.len() == 0 || link.len() == 0 {
        None
    } else {
        Some(FeedItemView {
            title: Some(title),
            link: Some(link),
            description: if desc.len() == 0 { None } else { Some(desc) },
            pub_date: Some(date),
            author: None,
            guid: None,
            categories: seq![],
        })
    }
}

fn element_item_exec(f: &Fields, now: &str) -> (r: Option<FeedItem>)
    ensures
        match r {
            Some(it) => element_item(fields_view(*f), now@) == Some(it@),
            None => element_item(fields_view(*f), now@) is None,
        },
{
    let title = trimmed_at_exec(&f.texts, 0);
    let link = absolute_at(&f.attrs, 0, "https://www.defenseone.com");
    let dek = trimmed_at_exec(&f.texts, 1);
    let author = trimmed_at_exec(&f.texts, 2);
    let category = trimmed_at_exec(&f.texts, 3);
    let date = if 1 < f.attrs.len() {
        match &f.attrs[1] {
            Some(d) => match chrono_rfc3339_utc(d.as_str()) {
                Some(x) => x,
                None => now.to_owned(),
            },
            None => now.to_owned(),
        }
    } else {
        now.to_owned()
    };
    if is_empty(title.as_str()) || is_empty(link.as_str()) {
        return None;
    }
    let mut desc = String::new();
    if !is_empty(category.as_str()) {
        push_str(&mut desc, "[");
        push_str(&mut desc, category.as_str());
        push_str(&mut desc, "]<br/>");
    }
    let ghost d1 = desc@;
    if !is_empty(author.as_str()) {
        push_str(&mut desc, "By ");
        push_str(&mut desc, author.as_str());
        push_str(&mut desc, "<br/>");
    }
    let ghost d2 = desc@;
    push_str(&mut desc, dek.as_str());
    assert(desc@ =~= defense_desc(category@, author@, dek@));
    let r = FeedItem {
        title: Some(title),
        link: Some(link),
        description: if is_empty(desc.as_str()) { None } else { Some(desc) },
        pub_date: Some(date),
        author: None,
        guid: None,
        categories: Vec::new(),
    };
    assert(r@.categories =~= Seq::<Seq<char>>::empty());
    Some(r)
}

/// The items of the first 20 elements, in order; elements without a title
/// or a link are passed over.
pub open spec fn items_of(fs: Seq<(Seq<Option<Seq<char>>>, Seq<Option<Seq<char>>>)>, now: Seq<char>) -> Seq<FeedItemView>
    decreases fs.len(),
{
    if fs.len() == 0 {
        seq![]
    } else {
        let rest = items_of(fs.drop_last(), now);
        match element_item(fs.last(), now) {
            Some(it) => rest.push(it),
            None => rest,
        }
    }
}

/// The feed of the page.
pub open spec fn spec_feed(html: Seq<char>, now: Seq<char>) -> FeedView {
    let fs = page_fields(html);
    FeedView {
        title: "Defense One - Defense & National Security News"@,
        link: "https://www.defenseone.com"@,
        description: "Defense One latest articles - military, technology and national security (no official RSS) | huinyg / Defense One (defense & national security, no official RSS)"@,
        pub_date: None,
        items: items_of(if fs.len() > 20 { fs.take(20) } else { fs }, now),
    }
}

/// `get`, after the fetch: the feed of the home page's HTML; `now` is the
/// current time in RSS form, the date of articles without a usable one.
pub fn build_feed(html: &str, now: &str) -> (r: Feed)
    ensures
        r@ == spec_feed(html@, now@),
{
    let fs = read_page(html);
    let ghost fv = fs@.map_values(|f: Fields| fields_view(f));
    let n: usize = if fs.len() > 20 {
        20
    } else {
        fs.len()
    };
    let mut items: Vec<FeedItem> = Vec::new();
    let mut i: usize = 0;
    assert(fv.take(0) =~= Seq::<(Seq<Option<Seq<char>>>, Seq<Option<Seq<char>>>)>::empty());
    assert(item_views(items@) =~= Seq::<FeedItemView>::empty());
    while i < n
        invariant
            i <= n,
            n <= fs.len(),
            fv == fs@.map_values(|f: Fields| fields_view(f)),
            item_views(items@) == items_of(fv.take(i as int), now@),
        decreases n - i,
    {
        assert(fv.take(i + 1).drop_last() =~= fv.take(i as int));
        assert(fv.take(i + 1).last() == fields_view(fs@[i as int]));
        match element_item_exec(&fs[i], now) {
            Some(it) => {
                let ghost before = item_views(items@);
                let ghost iv = it@;
                items.push(it);
                assert(item_views(items@) =~= before.push(iv));
            },
            None => {},
        }
        i = i + 1;
    }
    proof {
        let t = if fv.len() > 20 { fv.take(20) } else { fv };
        assert(fv.take(n as int) =~= t);
    }
    Feed {
        title: "Defense One - Defense & National Security News".to_owned(),
        link: "https://www.defenseone.com".to_owned(),
        description: "Defense One latest articles - military, technology and national security (no official RSS) | huinyg / Defense One (defense & national security, no official RSS)".to_owned(),
        pub_date: None,
        items,
    }
}

/// Law: an element makes an item exactly when its headline text and its
/// link are not empty; the item is titled by the headline text (trimmed)
/// and links to the headline's `href`, made absolute on `https://www.defenseone.com`.
pub proof fn law_element_link(f: (Seq<Option<Seq<char>>>, Seq<Option<Seq<char>>>), now: Seq<char>)
    ensures
        ({
            let title = trimmed_at(f.0, 0);
            let link = absolute(attr_at(f.1, 0), "https://www.defenseone.com"@);
            &&& (element_item(f, now) is Some <==> title.len() > 0 && link.len() > 0)
            &&& element_item(f, now) matches Some(it) ==> it.title == Some(title) && it.link == Some(link)
        }),
{
}

} // verus!
