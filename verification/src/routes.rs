//! What the routes compute from what their upstream sites answer.
//!
//! Each route is split the same way: a request plan built from the query
//! parameters, the fetch itself (done by the caller), and the feed built
//! from the answer.
pub mod bilibili_dynamic;
pub mod bilibili_video;
pub mod bilibili_user_like;
pub mod bilibili_user_fav;
pub mod bilibili_fav;
pub mod bilibili_partion;
pub mod bilibili_link_news;
pub mod bilibili_series;
pub mod bilibili_popular;
pub mod bilibili_weekly;
pub mod bilibili_partion_ranking;
pub mod github_advisor;
pub mod github_discussions;
pub mod github_contributors;
pub mod cls_hot;
pub mod defensenews_news;
pub mod crates_new;
pub mod douban_event_hot;
pub mod douban_book_latest;
pub mod cde_index;
pub mod cde;
pub mod bilibili_audio_rank;
pub mod bilibili_bangumi_follow;
pub mod bilibili_live_area;
pub mod bilibili_followers;
pub mod bilibili_video_page;
pub mod bilibili_collection;
pub mod bilibili_splash;
pub mod bilibili_search_hot;
pub mod bilibili_video_reply;
pub mod bilibili_blackroom;
pub mod github_branch;
pub mod github_commits;
pub mod bilibili_vsearch;
pub mod douban_book_rank;
pub mod baidu_top;
pub mod douban_movie_classification;
pub mod extremetech_news;
pub mod defenseone_news;
pub mod carnegieendowment_news;
pub mod bjnews_cat;
pub mod eeo_kuaixun;
pub mod chinanews;
pub mod caixin_latest;
pub mod bilibili_user_article;
pub mod gelonghui_home;
pub mod eastday_24;
pub mod discovermagazine_news;
pub mod apnews_topics;
pub mod cenc_earthquake;

use crate::easyuser::{pair_views, param, Params};
use crate::feed::{Feed, FeedItem, FeedItemView, FeedView};
use crate::json::{json_as_str, json_index, Json};
use crate::request_rules::RouteError;
use crate::routes::bilibili_dynamic::{iframe_head, iframe_mid, iframe_tail};
use crate::text::push_str;
use vstd::prelude::*;

verus! {

/// A GET request a route needs made: the address, and the headers in order.
#[derive(Debug)]
pub struct Fetch {
    pub url: String,
    pub headers: Vec<(String, String)>,
}

/// `r` is the feed `s` describes, or the failure it describes.
pub open spec fn feed_result_is(r: Result<Feed, RouteError>, s: Result<FeedView, Seq<char>>) -> bool {
    match r {
        Ok(f) => s matches Ok(v) && v == f@,
        Err(RouteError::Message(m)) => s matches Err(e) && e == m@,
        Err(_) => false,
    }
}

/// `r` is the request `s` describes (address and headers), or the failure
/// it describes.
pub open spec fn fetch_result_is(
    r: Result<Fetch, RouteError>,
    s: Result<(Seq<char>, Seq<(Seq<char>, Seq<char>)>), Seq<char>>,
) -> bool {
    match r {
        Ok(f) => s matches Ok(v) && v == (f.url@, pair_views(f.headers@)),
        Err(RouteError::Message(m)) => s matches Err(e) && e == m@,
        Err(_) => false,
    }
}

/// The embedded bilibili player for a video.
pub open spec fn player(aid: Seq<char>, bvid: Seq<char>) -> Seq<char> {
    iframe_head() + aid + iframe_mid() + bvid + iframe_tail()
}

/// The embedded bilibili player for a video (see [`player`]).
pub fn player_exec(aid: &str, bvid: &str) -> (r: String)
    ensures
        r@ == player(aid@, bvid@),
{
    let mut out = String::new();
    push_str(
        &mut out,
        "<iframe width=\"640\" height=\"360\" src=\"https://www.bilibili.com/blackboard/html5mobileplayer.html?aid=",
    );
    push_str(&mut out, aid);
    push_str(&mut out, "&amp;cid=undefined&amp;bvid=");
    push_str(&mut out, bvid);
    push_str(
        &mut out,
        "\" frameborder=\"0\" allowfullscreen=\"\" referrerpolicy=\"no-referrer\"></iframe>",
    );
    out
}

/// The value of parameter `k`, or `default`.
pub open spec fn param_or(para: Map<Seq<char>, Seq<char>>, k: Seq<char>, default: Seq<char>) -> Seq<
    char,
> {
    match param(para, k) {
        Some(v) => v,
        None => default,
    }
}

/// `para.get(k).unwrap_or(default)`, owned.
pub fn param_or_exec(para: &Params, k: &str, default: &str) -> (r: String)
    ensures
        r@ == param_or(para@, k@, default@),
{
    match para.get(k) {
        Some(v) => v.clone(),
        None => default.to_owned(),
    }
}

/// The items made from the elements of `list` by `f`, or the first
/// failure.
pub open spec fn collect_items(
    list: Seq<Json>,
    f: spec_fn(Json) -> Result<FeedItemView, Seq<char>>,
) -> Result<Seq<FeedItemView>, Seq<char>>
    decreases list.len(),
{
    if list.len() == 0 {
        Ok(seq![])
    } else {
        match collect_items(list.drop_last(), f) {
            Err(e) => Err(e),
            Ok(items) => match f(list.last()) {
                Err(e) => Err(e),
                Ok(it) => Ok(items.push(it)),
            },
        }
    }
}

/// Where the whole list succeeds, there is one item per element, in order,
/// each what the element gives.
pub proof fn lemma_collect_ok(list: Seq<Json>, f: spec_fn(Json) -> Result<FeedItemView, Seq<char>>)
    ensures
        collect_items(list, f) matches Ok(items) ==> items.len() == list.len() && forall|i: int|
            0 <= i < list.len() ==> f(list[i]) == Ok::<FeedItemView, Seq<char>>(#[trigger] items[i]),
    decreases list.len(),
{
    if list.len() > 0 {
        lemma_collect_ok(list.drop_last(), f);
        if collect_items(list, f) is Ok {
            let items = collect_items(list, f)->Ok_0;
            let prev = collect_items(list.drop_last(), f)->Ok_0;
            assert forall|i: int| 0 <= i < list.len() implies f(list[i]) == Ok::<FeedItemView, Seq<char>>(
                #[trigger] items[i],
            ) by {
                if i < list.len() - 1 {
                    assert(list.drop_last()[i] == list[i]);
                    assert(items[i] == prev[i]);
                }
            }
        }
    }
}

/// A failing element fails the whole list, where the elements before it
/// did not fail.
pub proof fn lemma_collect_fail(
    list: Seq<Json>,
    f: spec_fn(Json) -> Result<FeedItemView, Seq<char>>,
    i: int,
)
    requires
        0 <= i < list.len(),
        collect_items(list.take(i), f) is Ok,
        f(list[i]) is Err,
    ensures
        collect_items(list, f) == Err::<Seq<FeedItemView>, Seq<char>>(f(list[i])->Err_0),
{
    assert(list.take(i + 1).drop_last() == list.take(i));
    assert(list.take(i + 1).last() == list[i]);
    lemma_collect_fail_prefix(list, f, i + 1);
}

proof fn lemma_collect_fail_prefix(
    list: Seq<Json>,
    f: spec_fn(Json) -> Result<FeedItemView, Seq<char>>,
    n: int,
)
    requires
        0 <= n <= list.len(),
        collect_items(list.take(n), f) is Err,
    ensures
        collect_items(list, f) == collect_items(list.take(n), f),
    decreases list.len() - n,
{
    if n < list.len() {
        assert(list.take(n + 1).drop_last() == list.take(n));
        lemma_collect_fail_prefix(list, f, n + 1);
    } else {
        assert(list.take(n) == list);
    }
}

/// The views of feed items.
pub open spec fn item_views(v: Seq<FeedItem>) -> Seq<FeedItemView> {
    v.map_values(|x: FeedItem| x@)
}

/// A string member, or the empty string (`v[key].as_str().unwrap_or("")`).
pub open spec fn member_str(v: Json, key: Seq<char>) -> Seq<char> {
    match json_as_str(json_index(v, key)) {
        Some(s) => s,
        None => seq![],
    }
}

/// A string member, or the empty string.
pub fn member_str_exec(v: &Json, key: &str) -> (r: String)
    ensures
        r@ == member_str(*v, key@),
{
    match v.str_at(key) {
        Some(s) => s.clone(),
        None => String::new(),
    }
}

/// A string member of a member, or the empty string
/// (`v[outer][inner].as_str().unwrap_or("")`).
pub open spec fn nested_str(v: Json, outer: Seq<char>, inner: Seq<char>) -> Seq<char> {
    member_str(json_index(v, outer), inner)
}

/// A string member of a member, or the empty string.
pub fn nested_str_exec(v: &Json, outer: &str, inner: &str) -> (r: String)
    ensures
        r@ == nested_str(*v, outer@, inner@),
{
    let null = Json::Null;
    let o = match v.get(outer) {
        Some(x) => x,
        None => &null,
    };
    member_str_exec(o, inner)
}

/// A GET request with one header.
pub fn get_with_header(url: String, name: &str, value: &str) -> (r: Fetch)
    ensures
        r.url@ == url@,
        pair_views(r.headers@) == seq![(name@, value@)],
{
    let mut headers: Vec<(String, String)> = Vec::new();
    headers.push((name.to_owned(), value.to_owned()));
    assert(pair_views(headers@) =~= seq![(name@, value@)]);
    Fetch { url, headers }
}

/// A GET request without extra headers.
pub fn plain_get(url: String) -> (r: Fetch)
    ensures
        r.url@ == url@,
        r.headers@.len() == 0,
        pair_views(r.headers@) == Seq::<(Seq<char>, Seq<char>)>::empty(),
{
    let r = Fetch { url, headers: Vec::new() };
    assert(pair_views(r.headers@) =~= Seq::<(Seq<char>, Seq<char>)>::empty());
    r
}

/// The failure a bilibili answer reports: a `code` other than 0, written
/// with the code (-1 where there is none) and the answer's `message`.
pub open spec fn code_error(json: Json) -> Option<Seq<char>> {
    if crate::json::ptr_i64(json, "/code"@) != Some(0i64) {
        Some(
            "B站API返回错误 code="@ + crate::text::dec_int(
                match crate::json::ptr_i64(json, "/code"@) {
                    Some(c) => c as int,
                    None => -1,
                },
            ) + ": "@ + crate::json::ptr_str_or(json, "/message"@),
        )
    } else {
        None
    }
}

/// The failure a bilibili answer reports (see [`code_error`]).
pub fn code_error_exec(json: &Json) -> (r: Option<String>)
    ensures
        match r {
            Some(m) => code_error(*json) == Some(m@),
            None => code_error(*json) is None,
        },
{
    let code = json.ptr_i64("/code");
    if code != Some(0i64) {
        let c: i64 = match code {
            Some(c) => c,
            None => -1,
        };
        let mut m = crate::text::cat("B站API返回错误 code=", crate::text::i64_to_string(c).as_str());
        push_str(&mut m, ": ");
        push_str(&mut m, json.str_or_empty("/message").as_str());
        Some(m)
    } else {
        None
    }
}

/// The value of parameter `k` where it is non-empty, else `default`.
pub open spec fn param_nonempty_or(para: Map<Seq<char>, Seq<char>>, k: Seq<char>, default: Seq<char>) -> Seq<char> {
    match param(para, k) {
        Some(v) => if v.len() > 0 {
            v
        } else {
            default
        },
        None => default,
    }
}

/// `para.get(k).cloned().filter(|s| !s.is_empty()).unwrap_or(default)`.
pub fn param_nonempty_or_exec(para: &Params, k: &str, default: &str) -> (r: String)
    ensures
        r@ == param_nonempty_or(para@, k@, default@),
{
    match para.get(k) {
        Some(v) => if !crate::text::is_empty(v.as_str()) {
            v.clone()
        } else {
            default.to_owned()
        },
        None => default.to_owned(),
    }
}

/// The `k`-th text found, trimmed, or the empty text.
pub open spec fn trimmed_at(texts: Seq<Option<Seq<char>>>, k: int) -> Seq<char> {
    if 0 <= k < texts.len() && texts[k] is Some {
        crate::text::trim(texts[k]->0)
    } else {
        seq![]
    }
}

/// The `k`-th text found, trimmed, or the empty text.
pub fn trimmed_at_exec(texts: &Vec<Option<String>>, k: usize) -> (r: String)
    ensures
        r@ == trimmed_at(crate::html::opt_seq(texts@), k as int),
{
    if k < texts.len() {
        match &texts[k] {
            Some(t) => crate::text::trim_str(t.as_str()),
            None => String::new(),
        }
    } else {
        String::new()
    }
}

/// A link made absolute: kept where it starts with `http`, else put after
/// `base`; empty where there is none.
pub open spec fn absolute(h: Option<Seq<char>>, base: Seq<char>) -> Seq<char> {
    match h {
        Some(h) => if "http"@.is_prefix_of(h) {
            h
        } else {
            base + h
        },
        None => seq![],
    }
}

/// The `k`-th attribute found, made absolute (see [`absolute`]).
pub fn absolute_at(attrs: &Vec<Option<String>>, k: usize, base: &str) -> (r: String)
    ensures
        r@ == absolute(if (k as int) < attrs@.len() {
            crate::feed::opt_view(attrs@[k as int])
        } else {
            None
        }, base@),
{
    if k < attrs.len() {
        match &attrs[k] {
            Some(h) => if crate::text::starts_with(h.as_str(), "http") {
                h.clone()
            } else {
                crate::text::cat(base, h.as_str())
            },
            None => String::new(),
        }
    } else {
        String::new()
    }
}

/// The `k`-th attribute found, if any.
pub open spec fn attr_at(attrs: Seq<Option<Seq<char>>>, k: int) -> Option<Seq<char>> {
    if 0 <= k < attrs.len() {
        attrs[k]
    } else {
        None
    }
}

} // verus!
