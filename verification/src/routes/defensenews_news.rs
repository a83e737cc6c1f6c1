//! `/defensenews_news`: the latest Defense News articles, read from the
//! home page; each article's page is fetched for its date.
use crate::dates::{extract_date_from_json, first_parsed, marker_values};
use crate::feed::{opt_view, Feed, FeedItem, FeedItemView, FeedView};
use crate::html::{picked, picked_view, select_picked, views_str, Picked};
use crate::routes::{get_with_header, item_views, Fetch};
use crate::text::{cat, is_empty, push_str, starts_with, trim, trim_str};
use vstd::prelude::*;

verus! {

/// The browser the site is asked as.
pub open spec fn user_agent() -> Seq<char> {
    "Mozilla/5.0 (Windows NT 10.0; Win64; x64) AppleWebKit/537.36 (KHTML, like Gecko) Chrome/120.0.0.0 Safari/537.36"@
}

/// A request of the site (the home page, or an article's page).
pub fn request(url: &str) -> (r: Fetch)
    ensures
        r.url@ == url@,
        crate::easyuser::pair_views(r.headers@) == seq![("User-Agent"@, user_agent())],
{
    get_with_header(
        url.to_owned(),
        "User-Agent",
        "Mozilla/5.0 (Windows NT 10.0; Win64; x64) AppleWebKit/537.36 (KHTML, like Gecko) Chrome/120.0.0.0 Safari/537.36",
    )
}

/// The selector of article cards.
pub open spec fn card_selector() -> Seq<char> {
    "article[data-story-url]"@
}

/// The selectors of a card's headline and author.
pub open spec fn card_subs() -> Seq<Seq<char>> {
    seq!["[itemProp=\"headline\"], .o-storyCard__headline"@, "span[class*=\"Byline__Author\"]"@]
}

/// The `k`-th text found, or the empty text.
pub open spec fn text_at(texts: Seq<Option<Seq<char>>>, k: int) -> Seq<char> {
    if 0 <= k < texts.len() && texts[k] is Some {
        texts[k]->0
    } else {
        seq![]
    }
}

/// A card as title, link and author; nothing for a card without title or
/// link. Relative links are made absolute.
pub open spec fn card_of(p: (Option<Seq<char>>, Seq<Option<Seq<char>>>)) -> Option<
    (Seq<char>, Seq<char>, Seq<char>),
> {
    let title = trim(text_at(p.1, 0));
    let link = match p.0 {
        Some(h) => if "http"@.is_prefix_of(h) {
            h
        } else {
            "https://www.defensenews.com"@ + h
        },
        None => seq![],
    };
    if title.len() == 0 || link.len() == 0 {
        None
    } else {
        Some((title, link, trim(text_at(p.1, 1))))
    }
}

/// The cards of the page, in order, at most 15.
pub open spec fn cards_of(ps: Seq<(Option<Seq<char>>, Seq<Option<Seq<char>>>)>) -> Seq<
    (Seq<char>, Seq<char>, Seq<char>),
>
    decreases ps.len(),
{
    if ps.len() == 0 {
        seq![]
    } else {
        let c = cards_of(ps.drop_last());
        if c.len() >= 15 {
            c
        } else {
            match card_of(ps.last()) {
                Some(x) => c.push(x),
                None => c,
            }
        }
    }
}

/// Law: the page gives at most 15 cards, each with a non-empty title that
/// has no white space at either end, and a link that starts with `http`.
pub proof fn law_cards_bounded(ps: Seq<(Option<Seq<char>>, Seq<Option<Seq<char>>>)>)
    ensures
        cards_of(ps).len() <= 15,
        forall|i: int| 0 <= i < cards_of(ps).len() ==> {
            let c = #[trigger] cards_of(ps)[i];
            &&& c.0.len() > 0
            &&& trim(c.0) == c.0
            &&& "http"@.is_prefix_of(c.1)
        },
    decreases ps.len(),
{
    if ps.len() > 0 {
        law_cards_bounded(ps.drop_last());
        let prev = cards_of(ps.drop_last());
        if prev.len() < 15 {
            match card_of(ps.last()) {
                Some(x) => {
                    crate::text::lemma_trim_idempotent(text_at(ps.last().1, 0));
                    reveal_strlit("http");
                    reveal_strlit("https://www.defensenews.com");
                    assert(x.0.len() > 0);
                    let cur = prev.push(x);
                    assert forall|i: int| 0 <= i < cur.len() implies {
                        let c = #[trigger] cur[i];
                        &&& c.0.len() > 0
                        &&& trim(c.0) == c.0
                        &&& "http"@.is_prefix_of(c.1)
                    } by {
                        if i < prev.len() {
                            assert(cur[i] == prev[i]);
                        } else {
                            match ps.last().0 {
                                Some(h) => if !"http"@.is_prefix_of(h) {
                                    assert(("https://www.defensenews.com"@ + h).subrange(0, 4) =~= "http"@);
                                },
                                None => {},
                            }
                        }
                    }
                },
                None => {},
            }
        }
    }
}

/// The views of cards.
pub open spec fn card_views(v: Seq<(String, String, String)>) -> Seq<(Seq<char>, Seq<char>, Seq<char>)> {
    v.map_values(|c: (String, String, String)| (c.0@, c.1@, c.2@))
}

fn text_at_exec(texts: &Vec<Option<String>>, k: usize) -> (r: String)
    ensures
        r@ == text_at(texts@.map_values(|t: Option<String>| opt_view(t)), k as int),
{
    if k < texts.len() {
        match &texts[k] {
            Some(t) => t.clone(),
            None => String::new(),
        }
    } else {
        String::new()
    }
}

fn card_exec(p: &Picked) -> (r: Option<(String, String, String)>)
    ensures
        match r {
            Some(c) => card_of(picked_view(*p)) == Some((c.0@, c.1@, c.2@)),
            None => card_of(picked_view(*p)) is None,
        },
{
    let title = trim_str(text_at_exec(&p.texts, 0).as_str());
    let link = match &p.attr {
        Some(h) => if starts_with(h.as_str(), "http") {
            h.clone()
        } else {
            cat("https://www.defensenews.com", h.as_str())
        },
        None => String::new(),
    };
    if is_empty(title.as_str()) || is_empty(link.as_str()) {
        return None;
    }
    Some((title, link, trim_str(text_at_exec(&p.texts, 1).as_str())))
}

/// `extract_cards`: the articles of the home page (see [`cards_of`]).
#[verifier::loop_isolation(false)]
pub fn extract_cards(html: &str) -> (r: Vec<(String, String, String)>)
    ensures
        card_views(r@) == cards_of(picked(html@, card_selector(), "data-story-url"@, card_subs())),
{
    let subs = vec![
        "[itemProp=\"headline\"], .o-storyCard__headline",
        "span[class*=\"Byline__Author\"]",
    ];
    assert(views_str(subs@) =~= card_subs());
    let ps = select_picked(html, "article[data-story-url]", "data-story-url", subs.as_slice());
    let ghost pv = ps@.map_values(|p: Picked| picked_view(p));
    let mut cards: Vec<(String, String, String)> = Vec::new();
    let mut i: usize = 0;
    assert(card_views(cards@) =~= cards_of(pv.take(0)));
    while i < ps.len()
        invariant
            i <= ps.len(),
            pv == ps@.map_values(|p: Picked| picked_view(p)),
            card_views(cards@) == cards_of(pv.take(i as int)),
            cards@.len() < 15,
        decreases ps.len() - i,
    {
        assert(pv.take(i + 1).drop_last() == pv.take(i as int));
        assert(pv.take(i + 1).last() == picked_view(ps@[i as int]));
        match card_exec(&ps[i]) {
            Some(c) => {
                let ghost before = card_views(cards@);
                cards.push(c);
                assert(card_views(cards@) =~= before.push((c.0@, c.1@, c.2@)));
                if cards.len() >= 15 {
                    proof {
                        lemma_cards_full(pv, i as int + 1);
                    }
                    return cards;
                }
            },
            None => {},
        }
        i = i + 1;
    }
    assert(pv.take(ps.len() as int) == pv);
    cards
}

/// Once 15 cards are taken, later elements add none.
proof fn lemma_cards_full(ps: Seq<(Option<Seq<char>>, Seq<Option<Seq<char>>>)>, n: int)
    requires
        0 <= n <= ps.len(),
        cards_of(ps.take(n)).len() >= 15,
    ensures
        cards_of(ps) == cards_of(ps.take(n)),
    decreases ps.len() - n,
{
    if n < ps.len() {
        assert(ps.take(n + 1).drop_last() == ps.take(n));
        lemma_cards_full(ps, n + 1);
    } else {
        assert(ps.take(n) == ps);
    }
}

/// An article's date from its page: the first `datePublished` that parses
/// (RFC 3339 moved to UTC, or a plain date-time taken as UTC); `now` where
/// the page could not be fetched or has none.
pub open spec fn spec_article_date(page: Option<Seq<char>>, now: Seq<char>) -> Seq<char> {
    match page {
        Some(h) => match first_parsed(marker_values(h, 0), true) {
            Some(d) => d,
            None => now,
        },
        None => now,
    }
}

/// `fetch_article_date`, after the fetch (see [`spec_article_date`]).
pub fn article_date(page: Option<&str>, now: &str) -> (r: String)
    ensures
        r@ == spec_article_date(
            match page {
                Some(h) => Some(h@),
                None => None,
            },
            now@,
        ),
{
    match page {
        Some(h) => match extract_date_from_json(h, true) {
            Some(d) => d,
            None => now.to_owned(),
        },
        None => now.to_owned(),
    }
}

/// The item for an article: title, link, date, and `By` its author.
pub open spec fn article_item(title: Seq<char>, link: Seq<char>, author: Seq<char>, date: Seq<char>) -> FeedItemView {
    FeedItemView {
        title: Some(title),
        link: Some(link),
        description: if author.len() == 0 {
            None
        } else {
            Some("By "@ + author)
        },
        pub_date: Some(date),
        author: None,
        guid: None,
        categories: seq![],
    }
}

/// The maintainer's note.
pub open spec fn maintainer() -> Seq<char> {
    "huinyg / Defense News (defense & military news, no official RSS)"@
}

/// The feed for the cards and their dates (`dates[i]` that of card `i`).
pub open spec fn spec_feed(cards: Seq<(Seq<char>, Seq<char>, Seq<char>)>, dates: Seq<Seq<char>>) -> FeedView {
    FeedView {
        title: "Defense News - Global Defense & Military News"@,
        link: "https://www.defensenews.com"@,
        description: "Defense News latest articles - global defense, military & aerospace (no official RSS) | "@
            + maintainer(),
        pub_date: None,
        items: Seq::new(
            cards.len(),
            |i: int|
                article_item(
                    cards[i].0,
                    cards[i].1,
                    cards[i].2,
                    if i < dates.len() {
                        dates[i]
                    } else {
                        seq![]
                    },
                ),
        ),
    }
}

/// `get`, after the fetches: the feed for the cards and their dates (see
/// [`article_date`]).
pub fn build_feed(cards: &Vec<(String, String, String)>, dates: &Vec<String>) -> (r: Feed)
    ensures
        r@ == spec_feed(card_views(cards@), crate::text::views(dates@)),
{
    let ghost cv = card_views(cards@);
    let ghost dv = crate::text::views(dates@);
    let ghost want = spec_feed(cv, dv).items;
    let mut items: Vec<FeedItem> = Vec::new();
    let mut i: usize = 0;
    assert(item_views(items@) =~= want.take(0));
    while i < cards.len()
        invariant
            i <= cards.len(),
            cv == card_views(cards@),
            dv == crate::text::views(dates@),
            want == spec_feed(cv, dv).items,
            item_views(items@) == want.take(i as int),
        decreases cards.len() - i,
    {
        let (title, link, author) = (&cards[i].0, &cards[i].1, &cards[i].2);
        let date = if i < dates.len() {
            dates[i].clone()
        } else {
            String::new()
        };
        let it = FeedItem {
            title: Some(title.clone()),
            link: Some(link.clone()),
            description: if is_empty(author.as_str()) {
                None
            } else {
                Some(cat("By ", author.as_str()))
            },
            pub_date: Some(date),
            author: None,
            guid: None,
            categories: Vec::new(),
        };
        assert(it@.categories =~= Seq::<Seq<char>>::empty());
        assert(it@ == want[i as int]);
        let ghost before = item_views(items@);
        items.push(it);
        assert(item_views(items@) =~= before.push(it@));
        assert(want.take(i + 1) =~= want.take(i as int).push(want[i as int]));
        i = i + 1;
    }
    assert(want.take(cards.len() as int) == want);
    let mut description = "Defense News latest articles - global defense, military & aerospace (no official RSS) | ".to_owned();
    push_str(&mut description, "huinyg / Defense News (defense & military news, no official RSS)");
    Feed {
        title: "Defense News - Global Defense & Military News".to_owned(),
        link: "https://www.defensenews.com".to_owned(),
        description,
        pub_date: None,
        items,
    }
}

/// Law: an article's item carries the title, link and date it was given,
/// and `By` its author as description where there is one.
pub proof fn law_article_item(title: Seq<char>, link: Seq<char>, author: Seq<char>, date: Seq<char>)
    ensures
        article_item(title, link, author, date).title == Some(title),
        article_item(title, link, author, date).link == Some(link),
        article_item(title, link, author, date).pub_date == Some(date),
        author.len() > 0 ==> article_item(title, link, author, date).description == Some("By "@ + author),
{
}

} // verus!
