//! `/discovermagazine_news`: Discover Magazine's latest science news, read
//! from the home page; each article's page is fetched for its date.
use crate::dates::{extract_date_from_json, first_parsed, marker_values};
use crate::easyuser::pair_views;
use crate::feed::{Feed, FeedItem, FeedItemView, FeedView};
use crate::html::{anchors_in_context, in_context_view, opt_seq, select_in_context, views_str, InContext};
use crate::json::all_digits;
use crate::routes::{get_with_header, item_views, trimmed_at, trimmed_at_exec, Fetch};
use crate::text::{cat, is_empty, push_str, starts_with, str_eq, to_chars, trim, trim_str};
use vstd::prelude::*;

verus! {

/// The browser the site is asked as.
pub open spec fn user_agent() -> Seq<char> {
    "Mozilla/5.0 (Windows NT 10.0; Win64; x64) AppleWebKit/537.36 (KHTML, like Gecko) Chrome/120.0.0.0 Safari/537.36"@
}

/// The request for the home page (or an article's page), asked as a
/// browser.
pub fn request(url: &str) -> (r: Fetch)
    ensures
        r.url@ == url@,
        pair_views(r.headers@) == seq![("User-Agent"@, user_agent())],
{
    get_with_header(url.to_owned(), "User-Agent", "Mozilla/5.0 (Windows NT 10.0; Win64; x64) AppleWebKit/537.36 (KHTML, like Gecko) Chrome/120.0.0.0 Safari/537.36")
}

/// The text after the last `-` (all of it where there is none).
pub open spec fn tail_after_dash(s: Seq<char>) -> Seq<char>
    decreases s.len(),
{
    if s.len() == 0 {
        seq![]
    } else if s.last() == '-' {
        seq![]
    } else {
        tail_after_dash(s.drop_last()).push(s.last())
    }
}

/// An article's path: it starts with `/` and ends in `-` and digits.
pub open spec fn is_article(href: Seq<char>) -> bool {
    "/"@.is_prefix_of(href) && tail_after_dash(href).len() > 0 && all_digits(tail_after_dash(href))
}

/// The summary and the category of a link, from the ancestors nearest it
/// first: each taken from the first ancestor that gives it, stopping at
/// the first that gives a category.
pub open spec fn climb(levels: Seq<Seq<Option<Seq<char>>>>, summary: Seq<char>, category: Seq<char>) -> (Seq<char>, Seq<char>)
    decreases levels.len(),
{
    if levels.len() == 0 {
        (summary, category)
    } else {
        let s = if summary.len() == 0 { trimmed_at(levels[0], 0) } else { summary };
        let c = if category.len() == 0 { trimmed_at(levels[0], 1) } else { category };
        if c.len() > 0 {
            (s, c)
        } else {
            climb(levels.drop_first(), s, c)
        }
    }
}

/// The card of a link, where it is an article with a title: title, full
/// link, summary and category.
pub open spec fn card_of(p: (Option<Seq<char>>, Seq<char>, Seq<Seq<Option<Seq<char>>>>)) -> Option<
    (Seq<char>, Seq<char>, Seq<char>, Seq<char>),
> {
    let href = match p.0 {
        Some(h) => h,
        None => seq![],
    };
    let title = trim(p.1);
    if !is_article(href) || title.len() == 0 {
        None
    } else {
        let sc = climb(p.2, seq![], seq![]);
        Some((title, "https://www.discovermagazine.com"@ + href, sc.0, sc.1))
    }
}

/// Whether a card with link `link` is among `cards`.
pub open spec fn has_link(cards: Seq<(Seq<char>, Seq<char>, Seq<char>, Seq<char>)>, link: Seq<char>) -> bool {
    exists|i: int| 0 <= i < cards.len() && (#[trigger] cards[i]).1 == link
}

/// The cards of the home page's links, in order: each article link once,
/// at most 20.
pub open spec fn cards_of(ps: Seq<(Option<Seq<char>>, Seq<char>, Seq<Seq<Option<Seq<char>>>>)>) -> Seq<
    (Seq<char>, Seq<char>, Seq<char>, Seq<char>),
>
    decreases ps.len(),
{
    if ps.len() == 0 {
        seq![]
    } else {
        let rest = cards_of(ps.drop_last());
        if rest.len() >= 20 {
            rest
        } else {
            match card_of(ps.last()) {
                Some(c) => if has_link(rest, c.1) {
                    rest
                } else {
                    rest.push(c)
                },
                None => rest,
            }
        }
    }
}

/// The views of cards.
pub open spec fn card_views(v: Seq<(String, String, String, String)>) -> Seq<(Seq<char>, Seq<char>, Seq<char>, Seq<char>)> {
    v.map_values(|c: (String, String, String, String)| (c.0@, c.1@, c.2@, c.3@))
}

fn tail_is_digits(href: &str) -> (r: bool)
    ensures
        r == (tail_after_dash(href@).len() > 0 && all_digits(tail_after_dash(href@))),
{
    let v = to_chars(href);
    let mut j: usize = v.len();
    assert(v@.take(v.len() as int) =~= href@);
    assert(tail_after_dash(href@) =~= tail_after_dash(v@.take(v.len() as int)) + v@.skip(v.len() as int));
    while j > 0 && v[j - 1] != '-'
        invariant
            j <= v.len(),
            v@ == href@,
            tail_after_dash(href@) == tail_after_dash(v@.take(j as int)) + v@.skip(j as int),
        decreases j,
    {
        assert(v@.take(j as int).drop_last() =~= v@.take(j - 1));
        assert(v@.take(j as int).last() == v@[j - 1]);
        assert(v@.skip(j - 1) =~= seq![v@[j - 1]] + v@.skip(j as int));
        assert(tail_after_dash(v@.take(j - 1)).push(v@[j - 1]) + v@.skip(j as int)
            =~= tail_after_dash(v@.take(j - 1)) + v@.skip(j - 1));
        j = j - 1;
    }
    proof {
        if j > 0 {
            assert(v@.take(j as int).last() == v@[j - 1]);
        }
        assert(tail_after_dash(href@) =~= v@.skip(j as int));
    }
    if j == v.len() {
        return false;
    }
    let mut k: usize = j;
    while k < v.len()
        invariant
            j <= k <= v.len(),
            v@ == href@,
            tail_after_dash(href@) == v@.skip(j as int),
            forall|m: int| j <= m < k ==> '0' <= #[trigger] v@[m] <= '9',
        decreases v.len() - k,
    {
        if v[k] < '0' || v[k] > '9' {
            assert(v@.skip(j as int)[k - j] == v@[k as int]);
            return false;
        }
        k = k + 1;
    }
    assert forall|m: int| 0 <= m < v@.skip(j as int).len() implies '0' <= #[trigger] v@.skip(j as int)[m] <= '9' by {
        assert(v@.skip(j as int)[m] == v@[j + m]);
    }
    true
}

fn climb_exec(levels: &Vec<Vec<Option<String>>>) -> (r: (String, String))
    ensures
        (r.0@, r.1@) == climb(levels@.map_values(|v: Vec<Option<String>>| opt_seq(v@)), seq![], seq![]),
{
    let ghost lv = levels@.map_values(|v: Vec<Option<String>>| opt_seq(v@));
    let mut summary = String::new();
    let mut category = String::new();
    let mut i: usize = 0;
    assert(lv.skip(0) =~= lv);
    while i < levels.len()
        invariant
            i <= levels.len(),
            lv == levels@.map_values(|v: Vec<Option<String>>| opt_seq(v@)),
            category@.len() == 0,
            climb(lv.skip(i as int), summary@, category@) == climb(lv, seq![], seq![]),
        decreases levels.len() - i,
    {
        assert(lv.skip(i as int)[0] == opt_seq(levels@[i as int]@));
        assert(lv.skip(i as int).drop_first() =~= lv.skip(i + 1));
        if is_empty(summary.as_str()) {
            summary = trimmed_at_exec(&levels[i], 0);
        }
        category = trimmed_at_exec(&levels[i], 1);
        if !is_empty(category.as_str()) {
            return (summary, category);
        }
        i = i + 1;
    }
    assert(lv.skip(levels.len() as int) =~= Seq::<Seq<Option<Seq<char>>>>::empty());
    (summary, category)
}

fn has_link_exec(cards: &Vec<(String, String, String, String)>, link: &str) -> (r: bool)
    ensures
        r == has_link(card_views(cards@), link@),
{
    let mut i: usize = 0;
    while i < cards.len()
        invariant
            i <= cards.len(),
            forall|m: int| 0 <= m < i ==> cards@[m].1@ != link@,
        decreases cards.len() - i,
    {
        if str_eq(cards[i].1.as_str(), link) {
            assert(card_views(cards@)[i as int].1 == link@);
            return true;
        }
        i = i + 1;
    }
    assert forall|m: int| 0 <= m < card_views(cards@).len() implies (#[trigger] card_views(cards@)[m]).1 != link@ by {
        assert(card_views(cards@)[m].1 == cards@[m].1@);
    }
    false
}

/// The selectors of a card's summary and category.
pub open spec fn context_subs() -> Seq<Seq<char>> {
    seq!["span[data-summary]"@, "p.category-label a"@]
}

/// `extract_cards`: the cards of the home page (see [`cards_of`]).
pub fn extract_cards(html: &str) -> (r: Vec<(String, String, String, String)>)
    ensures
        card_views(r@) == cards_of(anchors_in_context(html@, "a[href]"@, "href"@, context_subs(), 3)),
{
    let subs = vec!["span[data-summary]", "p.category-label a"];
    assert(views_str(subs@) =~= context_subs());
    let els = select_in_context(html, "a[href]", "href", subs.as_slice(), 3);
    let ghost ev = els@.map_values(|p: InContext| in_context_view(p));
    let mut cards: Vec<(String, String, String, String)> = Vec::new();
    let mut i: usize = 0;
    assert(card_views(cards@) =~= cards_of(ev.take(0)));
    while i < els.len()
        invariant
            i <= els.len(),
            ev == els@.map_values(|p: InContext| in_context_view(p)),
            card_views(cards@) == cards_of(ev.take(i as int)),
        decreases els.len() - i,
    {
        assert(ev.take(i + 1).drop_last() =~= ev.take(i as int));
        assert(ev.take(i + 1).last() == in_context_view(els@[i as int]));
        if cards.len() >= 20 {
            i = i + 1;
            continue;
        }
        let href: String = match &els[i].0 {
            Some(h) => h.clone(),
            None => String::new(),
        };
        let title = trim_str(els[i].1.as_str());
        if starts_with(href.as_str(), "/") && tail_is_digits(href.as_str()) && !is_empty(title.as_str()) {
            let link = cat("https://www.discovermagazine.com", href.as_str());
            if !has_link_exec(&cards, link.as_str()) {
                let (summary, category) = climb_exec(&els[i].2);
                let ghost before = card_views(cards@);
                let ghost cv = (title@, link@, summary@, category@);
                cards.push((title, link, summary, category));
                assert(card_views(cards@) =~= before.push(cv));
            }
        }
        i = i + 1;
    }
    assert(ev.take(els.len() as int) =~= ev);
    cards
}

/// An article's date from its page: the first `datePublished` that reads
/// as a plain date-time, taken as UTC; `now` where the page could not be
/// fetched or has none.
pub open spec fn spec_article_date(page: Option<Seq<char>>, now: Seq<char>) -> Seq<char> {
    match page {
        Some(h) => match first_parsed(marker_values(h, 0), false) {
            Some(d) => d,
            None => now,
        },
        None => now,
    }
}

/// `fetch_article_date`, after the fetch (see [`spec_article_date`]).
pub fn article_date(page: Option<&str>, now: &str) -> (r: String)
    ensures
        r@ == spec_article_date(
            match page {
                Some(h) => Some(h@),
                None => None,
            },
            now@,
        ),
{
    match page {
        Some(h) => match extract_date_from_json(h, false) {
            Some(d) => d,
            None => now.to_owned(),
        },
        None => now.to_owned(),
    }
}

/// The description of a card: `[category]<br/>` and the summary, each
/// where not empty; none where both are empty.
pub open spec fn card_description(summary: Seq<char>, category: Seq<char>) -> Option<Seq<char>> {
    let d = (if category.len() == 0 { seq![] } else { "["@ + category + "]<br/>"@ }) + summary;
    if d.len() == 0 {
        None
    } else {
        Some(d)
    }
}

/// The item of a card with its date.
pub open spec fn card_item(c: (Seq<char>, Seq<char>, Seq<char>, Seq<char>), date: Seq<char>) -> FeedItemView {
    FeedItemView {
        title: Some(c.0),
        link: Some(c.1),
        description: card_description(c.2, c.3),
        pub_date: Some(date),
        author: None,
        guid: None,
        categories: seq![],
    }
}

/// The feed for the cards and their dates (`dates[i]` that of card `i`).
pub open spec fn spec_feed(cards: Seq<(Seq<char>, Seq<char>, Seq<char>, Seq<char>)>, dates: Seq<Seq<char>>) -> FeedView {
    FeedView {
        title: "Discover Magazine - Science News"@,
        link: "https://www.discovermagazine.com"@,
        description: "Discover Magazine latest science news (no official RSS) | huinyg / Discover Magazine (science news, no official RSS)"@,
        pub_date: None,
        items: Seq::new(cards.len(), |i: int| card_item(cards[i], if i < dates.len() { dates[i] } else { seq![] })),
    }
}

/// `get`, after the fetches: the feed for the cards and their dates (see
/// [`article_date`]).
pub fn build_feed(cards: &Vec<(String, String, String, String)>, dates: &Vec<String>) -> (r: Feed)
    ensures
        r@ == spec_feed(card_views(cards@), crate::text::views(dates@)),
{
    let ghost cv = card_views(cards@);
    let ghost dv = crate::text::views(dates@);
    let ghost want = spec_feed(cv, dv).items;
    let mut items: Vec<FeedItem> = Vec::new();
    let mut i: usize = 0;
    assert(item_views(items@) =~= want.take(0));
    while i < cards.len()
        invariant
            i <= cards.len(),
            cv == card_views(cards@),
            dv == crate::text::views(dates@),
            want == spec_feed(cv, dv).items,
            item_views(items@) == want.take(i as int),
        decreases cards.len() - i,
    {
        let date = if i < dates.len() {
            dates[i].clone()
        } else {
            String::new()
        };
        let mut d = if is_empty(cards[i].3.as_str()) {
            String::new()
        } else {
            let mut x = cat("[", cards[i].3.as_str());
            push_str(&mut x, "]<br/>");
            x
        };
        push_str(&mut d, cards[i].2.as_str());
        let it = FeedItem {
            title: Some(cards[i].0.clone()),
            link: Some(cards[i].1.clone()),
            description: if is_empty(d.as_str()) { None } else { Some(d) },
            pub_date: Some(date),
            author: None,
            guid: None,
            categories: Vec::new(),
        };
        assert(it@.categories =~= Seq::<Seq<char>>::empty());
        assert(cv[i as int] == (cards@[i as int].0@, cards@[i as int].1@, cards@[i as int].2@, cards@[i as int].3@));
        assert(it@ == want[i as int]);
        let ghost before = item_views(items@);
        items.push(it);
        assert(item_views(items@) =~= before.push(it@));
        assert(want.take(i + 1) =~= want.take(i as int).push(want[i as int]));
        i = i + 1;
    }
    assert(want.take(cards.len() as int) == want);
    Feed {
        title: "Discover Magazine - Science News".to_owned(),
        link: "https://www.discovermagazine.com".to_owned(),
        description: "Discover Magazine latest science news (no official RSS) | huinyg / Discover Magazine (science news, no official RSS)".to_owned(),
        pub_date: None,
        items,
    }
}

/// Law: a card's item is titled by the card's title and links to its link.
pub proof fn law_card_link(c: (Seq<char>, Seq<char>, Seq<char>, Seq<char>), date: Seq<char>)
    ensures
        card_item(c, date).title == Some(c.0),
        card_item(c, date).link == Some(c.1),
        card_item(c, date).pub_date == Some(date),
{
}

} // verus!
