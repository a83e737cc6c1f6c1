//! The registry of routes, and what answers a request path.
use crate::config::{is_route_disabled, spec_route_disabled, Config};
use crate::easyuser::HttpError;
use crate::text::{starts_with, str_eq};
use vstd::prelude::*;

verus! {

/// Why a route produced no feed.
#[derive(Debug)]
pub enum RouteError {
    /// An error shown with its own status code and message.
    Http(HttpError),
    /// Any other failure; the message is shown with status 500, except the
    /// message `404NotFound`, which is shown as a 404.
    Message(String),
}

impl RouteError {
    /// A plain failure with the given message.
    pub fn msg(m: &str) -> (r: RouteError)
        ensures
            r matches RouteError::Message(x) && x@ == m@,
    {
        RouteError::Message(m.to_owned())
    }

    /// The answer for a path that no route serves.
    pub fn not_found() -> (r: RouteError)
        ensures
            r matches RouteError::Message(x) && x@ == "404NotFound"@,
    {
        RouteError::Message("404NotFound".to_owned())
    }
}

/// What a request produces before it is rendered.
#[derive(Debug)]
pub enum ShowToUser {
    Html { res: Result<String, RouteError> },
    Rss { res: Result<String, RouteError> },
    File { res: Result<Vec<u8>, RouteError>, content_type: String },
}

/// The request paths that routes are registered under, in registry order.
pub open spec fn route_table() -> Seq<Seq<char>> {
    seq![
        "/apnews_topics"@, "/bjnews_cat"@, "/bilibili_weekly"@, "/bilibili_dynamic"@,
        "/bilibili_popular"@, "/bilibili_precious"@, "/bilibili_series"@, "/bilibili_collection"@,
        "/bilibili_fav"@, "/bilibili_link_news"@, "/bilibili_partion"@,
        "/bilibili_partion_ranking"@, "/bilibili_user_article"@, "/bilibili_user_coin"@,
        "/bilibili_user_fav"@, "/bilibili_user_like"@, "/bilibili_video_page"@,
        "/bilibili_video_reply"@, "/bilibili_vsearch"@, "/douban_book_latest"@,
        "/douban_book_rank"@, "/douban_event_hot"@, "/douban_movie_classification"@,
        "/defenseone_news"@, "/defensenews_news"@, "/discovermagazine_news"@, "/eastday_24"@,
        "/eeo_kuaixun"@, "/extremetech_news"@, "/carnegieendowment_news"@, "/netease_today"@,
        "/gelonghui_home"@, "/hupu_news"@, "/thepaper_featured"@, "/leiphone_newsflash"@,
        "/nmc_alarm"@, "/solidot"@, "/smithsonianmag_news"@, "/scientificamerican_news"@,
        "/stcn_article_list"@, "/stcn_kx"@, "/stcn_rank"@, "/wallstreetcn_hot"@,
        "/caixin_latest"@, "/chinanews"@, "/cls_hot"@, "/ifeng_news"@, "/guancha_headline"@,
        "/guanhai"@, "/ithome_ranking"@, "/jianshu_home"@, "/juejin_pins"@,
        "/juejin_trending"@, "/yicai_latest"@, "/yicai_headline"@, "/tmtpost_new"@,
        "/videocardz_news"@, "/zhihu_hot"@
    ]
}

/// The registered paths.
pub fn routes() -> (r: Vec<&'static str>)
    ensures
        r@.len() == route_table().len(),
        forall|i: int| 0 <= i < r@.len() ==> (#[trigger] r@[i])@ == route_table()[i],
{
    let v = vec![
        "/apnews_topics", "/bjnews_cat", "/bilibili_weekly", "/bilibili_dynamic",
        "/bilibili_popular", "/bilibili_precious", "/bilibili_series", "/bilibili_collection",
        "/bilibili_fav", "/bilibili_link_news", "/bilibili_partion", "/bilibili_partion_ranking",
        "/bilibili_user_article", "/bilibili_user_coin", "/bilibili_user_fav",
        "/bilibili_user_like", "/bilibili_video_page", "/bilibili_video_reply",
        "/bilibili_vsearch", "/douban_book_latest", "/douban_book_rank", "/douban_event_hot",
        "/douban_movie_classification", "/defenseone_news", "/defensenews_news",
        "/discovermagazine_news", "/eastday_24", "/eeo_kuaixun", "/extremetech_news",
        "/carnegieendowment_news", "/netease_today", "/gelonghui_home", "/hupu_news",
        "/thepaper_featured", "/leiphone_newsflash", "/nmc_alarm", "/solidot",
        "/smithsonianmag_news", "/scientificamerican_news", "/stcn_article_list", "/stcn_kx",
        "/stcn_rank", "/wallstreetcn_hot", "/caixin_latest", "/chinanews", "/cls_hot",
        "/ifeng_news", "/guancha_headline", "/guanhai", "/ithome_ranking", "/jianshu_home",
        "/juejin_pins", "/juejin_trending", "/yicai_latest", "/yicai_headline", "/tmtpost_new",
        "/videocardz_news", "/zhihu_hot",
    ];
    v
}

/// Picks the route for `url`: `Ok(i)` names the `i`-th registered route;
/// a route disabled in the configuration, or not registered, gives
/// `404NotFound`.
pub fn request_rules(url: &str, c: &Config) -> (r: Result<usize, RouteError>)
    ensures
        match r {
            Ok(i) => !spec_route_disabled(*c, url@) && i < route_table().len()
                && route_table()[i as int] == url@,
            Err(e) => {
                &&& spec_route_disabled(*c, url@) || !route_table().contains(url@)
                &&& e matches RouteError::Message(m) && m@ == "404NotFound"@
            },
        },
{
    if is_route_disabled(c, url) {
        return Err(RouteError::not_found());
    }
    let table = routes();
    let mut i: usize = 0;
    while i < table.len()
        invariant
            !spec_route_disabled(*c, url@),
            i <= table.len(),
            table@.len() == route_table().len(),
            forall|k: int| 0 <= k < table@.len() ==> (#[trigger] table@[k])@ == route_table()[k],
            forall|k: int| 0 <= k < i ==> route_table()[k] != url@,
        decreases table.len() - i,
    {
        if str_eq(table[i], url) {
            return Ok(i);
        }
        i = i + 1;
    }
    proof {
        if route_table().contains(url@) {
            let k = choose|k: int| 0 <= k < route_table().len() && route_table()[k] == url@;
            assert(route_table()[k] != url@);
        }
    }
    Err(RouteError::not_found())
}

/// What serves the first part of a request target.
#[derive(Debug)]
pub enum RootAction {
    /// The documentation index page.
    IndexDoc,
    /// A static file under the executable's directory.
    Static(String),
    /// A feed route.
    Route,
}

/// `/` is the index page; `/favicon.ico` is served from `/index/favicon.ico`;
/// paths under `/docs/` or `/index/` are static files; anything else is a
/// route.
pub open spec fn spec_root_action(first: Seq<char>) -> RootActionView {
    if first == "/"@ {
        RootActionView::IndexDoc
    } else if first == "/favicon.ico"@ {
        RootActionView::Static("/index/favicon.ico"@)
    } else if "/docs/"@.is_prefix_of(first) || "/index/"@.is_prefix_of(first) {
        RootActionView::Static(first)
    } else {
        RootActionView::Route
    }
}

/// The view of a [`RootAction`].
pub enum RootActionView {
    IndexDoc,
    Static(Seq<char>),
    Route,
}

impl View for RootAction {
    type V = RootActionView;

    open spec fn view(&self) -> RootActionView {
        match self {
            RootAction::IndexDoc => RootActionView::IndexDoc,
            RootAction::Static(p) => RootActionView::Static(p@),
            RootAction::Route => RootActionView::Route,
        }
    }
}

/// Decides what serves `first_part`.
pub fn root_rules(first_part: &str) -> (r: RootAction)
    ensures
        r@ == spec_root_action(first_part@),
{
    if str_eq(first_part, "/") {
        RootAction::IndexDoc
    } else if str_eq(first_part, "/favicon.ico") {
        RootAction::Static("/index/favicon.ico".to_owned())
    } else if starts_with(first_part, "/docs/") || starts_with(first_part, "/index/") {
        RootAction::Static(first_part.to_owned())
    } else {
        RootAction::Route
    }
}

} // verus!
