//! RSS feeds as the routes build them, and their XML text.
use vstd::prelude::*;

verus! {

/// One feed item. Every field is optional, as in an RSS `<item>`; a GUID
/// carries whether it is a permalink.
#[derive(Debug)]
pub struct FeedItem {
    pub title: Option<String>,
    pub link: Option<String>,
    pub description: Option<String>,
    pub pub_date: Option<String>,
    pub author: Option<String>,
    pub guid: Option<(String, bool)>,
    pub categories: Vec<String>,
}

/// A feed: the channel's title, link, description and date, and its items.
#[derive(Debug)]
pub struct Feed {
    pub title: String,
    pub link: String,
    pub description: String,
    pub pub_date: Option<String>,
    pub items: Vec<FeedItem>,
}

pub open spec fn opt_view(o: Option<String>) -> Option<Seq<char>> {
    match o {
        Some(s) => Some(s@),
        None => None,
    }
}

/// The contents of a [`FeedItem`].
pub struct FeedItemView {
    pub title: Option<Seq<char>>,
    pub link: Option<Seq<char>>,
    pub description: Option<Seq<char>>,
    pub pub_date: Option<Seq<char>>,
    pub author: Option<Seq<char>>,
    pub guid: Option<(Seq<char>, bool)>,
    pub categories: Seq<Seq<char>>,
}

/// The contents of a [`Feed`].
pub struct FeedView {
    pub title: Seq<char>,
    pub link: Seq<char>,
    pub description: Seq<char>,
    pub pub_date: Option<Seq<char>>,
    pub items: Seq<FeedItemView>,
}

impl View for FeedItem {
    type V = FeedItemView;

    open spec fn view(&self) -> FeedItemView {
        FeedItemView {
            title: opt_view(self.title),
            link: opt_view(self.link),
            description: opt_view(self.description),
            pub_date: opt_view(self.pub_date),
            author: opt_view(self.author),
            guid: match self.guid {
                Some(g) => Some((g.0@, g.1)),
                None => None,
            },
            categories: self.categories@.map_values(|c: String| c@),
        }
    }
}

impl View for Feed {
    type V = FeedView;

    open spec fn view(&self) -> FeedView {
        FeedView {
            title: self.title@,
            link: self.link@,
            description: self.description@,
            pub_date: opt_view(self.pub_date),
            items: self.items@.map_values(|i: FeedItem| i@),
        }
    }
}

/// An item with only a title, a link and a description set, as most routes
/// build them.
pub fn item(title: Option<String>, link: Option<String>, description: Option<String>) -> (r:
    FeedItem)
    ensures
        r@.title == opt_view(title),
        r@.link == opt_view(link),
        r@.description == opt_view(description),
        r@.pub_date is None,
        r@.author is None,
        r@.guid is None,
        r@.categories.len() == 0,
{
    let r = FeedItem {
        title,
        link,
        description,
        pub_date: None,
        author: None,
        guid: None,
        categories: Vec::new(),
    };
    assert(r@.categories =~= Seq::<Seq<char>>::empty());
    r
}

/// The XML text of an RSS channel, as the `rss` crate writes it.
pub uninterp spec fn rss_channel_xml(feed: FeedView) -> Seq<char>;

/// Writes the feed as RSS 2.0 XML with the `rss` crate: every field of the
/// feed and of its items goes to the field of `rss::Channel` / `rss::Item`
/// of the same name, and `Channel`'s `Display` writes the text. The text is
/// named by [`rss_channel_xml`]; what it looks like is not stated here.
#[verifier::external_body]
fn write_rss(feed: Feed) -> (r: String)
    ensures
        r@ == rss_channel_xml(feed@),
{
    let items = feed.items.into_iter().map(|i| rss::Item {
        title: i.title, link: i.link, description: i.description, author: i.author,
        pub_date: i.pub_date, guid: i.guid.map(|(value, permalink)| rss::Guid { value, permalink }),
        categories: i.categories.into_iter().map(|name| rss::Category { name, domain: None }).collect(),
        ..Default::default()
    });
    let ch = rss::Channel { title: feed.title, link: feed.link, description: feed.description,
        pub_date: feed.pub_date, items: items.collect(), ..Default::default() };
    ch.to_string()
}

/// The feed as RSS 2.0 XML (see [`rss_channel_xml`]).
pub fn feed_to_xml(feed: Feed) -> (r: String)
    ensures
        r@ == rss_channel_xml(feed@),
{
    write_rss(feed)
}

} // verus!
