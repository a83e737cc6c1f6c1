//! What the bilibili video-list routes share: the embed flag, the item of
//! one video, the running author name and the request with referer and
//! cookie.
use crate::dates::{or_else, timestamp_to_rss, ts_rfc2822};
use crate::easyuser::{no_double_quotes, pair_views, param, Params};
use crate::feed::{opt_view, FeedItem, FeedItemView};
use crate::json::{json_as_i64, json_index, json_text, json_to_string, ptr_str, Json};
use crate::routes::{member_str, member_str_exec, player, player_exec, Fetch};
use crate::text::{cat, dec_int, i64_to_string, push_str, str_eq, trim_char};
use vstd::prelude::*;

verus! {

/// The player is embedded unless `disableembed` is `false` (sic).
pub open spec fn spec_embed(para: Map<Seq<char>, Seq<char>>) -> bool {
    param(para, "disableembed"@) != Some("false"@)
}

/// Whether the player is embedded (see [`spec_embed`]).
pub fn embed(para: &Params) -> (r: bool)
    ensures
        r == spec_embed(para@),
{
    match para.get("disableembed") {
        Some(s) => !str_eq(s.as_str(), "false"),
        None => true,
    }
}

/// An integer member, or 0.
pub open spec fn int_of(v: Json, key: Seq<char>) -> i64 {
    match json_as_i64(json_index(v, key)) {
        Some(n) => n,
        None => 0,
    }
}

/// An integer member, or 0.
pub fn int_of_exec(v: &Json, key: &str) -> (r: i64)
    ensures
        r == int_of(*v, key@),
{
    match v.i64_at(key) {
        Some(n) => n,
        None => 0,
    }
}

/// A video's description: the player, the cover and the text, when
/// embedding.
pub open spec fn video_desc(aid: i64, bvid: Seq<char>, pic: Seq<char>, desc: Seq<char>, embed: bool) -> Seq<
    char,
> {
    if embed {
        player(dec_int(aid as int), bvid) + "<br><img src=\""@ + pic
            + "\" referrerpolicy=\"no-referrer\"><br>"@ + desc
    } else {
        seq![]
    }
}

/// The item of a video: `id_key`, `pic_key`, `desc_key` and `time_key`
/// name the members holding its number, cover, text and time; the title
/// is the `title` member written as JSON without its quotes.
pub open spec fn video_item(
    v: Json,
    id_key: Seq<char>,
    pic_key: Seq<char>,
    desc_key: Seq<char>,
    time_key: Seq<char>,
    author: Option<Seq<char>>,
    embed: bool,
    now: Seq<char>,
) -> FeedItemView {
    let bvid = member_str(v, "bvid"@);
    FeedItemView {
        title: Some(trim_char(json_text(json_index(v, "title"@)), '"')),
        link: Some("https://www.bilibili.com/video/"@ + bvid),
        description: Some(
            video_desc(int_of(v, id_key), bvid, member_str(v, pic_key), member_str(v, desc_key), embed),
        ),
        pub_date: Some(or_else(ts_rfc2822(int_of(v, time_key)), now)),
        author,
        guid: None,
        categories: seq![],
    }
}

/// A video's item (see [`video_item`]).
pub fn video_item_exec(
    v: &Json,
    id_key: &str,
    pic_key: &str,
    desc_key: &str,
    time_key: &str,
    author: Option<String>,
    embed: bool,
    now: &str,
) -> (r: FeedItem)
    ensures
        r@ == video_item(*v, id_key@, pic_key@, desc_key@, time_key@, opt_view(author), embed, now@),
{
    let bvid = member_str_exec(v, "bvid");
    let description = if embed {
        let mut d = player_exec(i64_to_string(int_of_exec(v, id_key)).as_str(), bvid.as_str());
        push_str(&mut d, "<br><img src=\"");
        push_str(&mut d, member_str_exec(v, pic_key).as_str());
        push_str(&mut d, "\" referrerpolicy=\"no-referrer\"><br>");
        push_str(&mut d, member_str_exec(v, desc_key).as_str());
        d
    } else {
        String::new()
    };
    let title = match v.get("title") {
        Some(t) => json_to_string(t),
        None => "null".to_owned(),
    };
    let r = FeedItem {
        title: Some(no_double_quotes(title)),
        link: Some(cat("https://www.bilibili.com/video/", bvid.as_str())),
        description: Some(description),
        pub_date: Some(timestamp_to_rss(int_of_exec(v, time_key), now)),
        author,
        guid: None,
        categories: Vec::new(),
    };
    assert(r@.categories =~= Seq::<Seq<char>>::empty());
    r
}

/// The author name after reading the videos in order: `UP主` until a video
/// names its owner; the first owner's name replaces it (a later one too
/// while the name is still `UP主`).
pub open spec fn running_author(list: Seq<Json>) -> Seq<char>
    decreases list.len(),
{
    if list.len() == 0 {
        "UP主"@
    } else {
        let a = running_author(list.drop_last());
        match ptr_str(list.last(), "/owner/name"@) {
            Some(n) => if a == "UP主"@ {
                n
            } else {
                a
            },
            None => a,
        }
    }
}

/// The author name after one more video (see [`running_author`]).
pub fn next_author(author: String, v: &Json) -> (r: String)
    ensures
        r@ == match ptr_str(*v, "/owner/name"@) {
            Some(n) => if author@ == "UP主"@ {
                n
            } else {
                author@
            },
            None => author@,
        },
{
    match v.ptr_text("/owner/name") {
        Some(n) => if str_eq(author.as_str(), "UP主") {
            n.clone()
        } else {
            author
        },
        None => author,
    }
}

/// The headers of a request made for user `uid`: `Referer` (the given
/// page) and, where known, the bilibili.com cookie.
pub open spec fn referer_headers(referer: Seq<char>, cookie: Option<Seq<char>>) -> Seq<
    (Seq<char>, Seq<char>),
> {
    match cookie {
        Some(c) => seq![("Referer"@, referer), ("Cookie"@, c)],
        None => seq![("Referer"@, referer)],
    }
}

/// A GET request with a `Referer` and, where known, a cookie.
pub fn with_referer(url: String, referer: String, cookie: Option<String>) -> (r: Fetch)
    ensures
        r.url@ == url@,
        pair_views(r.headers@) == referer_headers(referer@, opt_view(cookie)),
{
    let mut headers: Vec<(String, String)> = Vec::new();
    headers.push(("Referer".to_owned(), referer));
    if let Some(c) = cookie {
        headers.push(("Cookie".to_owned(), c));
    }
    assert(pair_views(headers@) =~= referer_headers(
        headers@[0].1@,
        if headers@.len() > 1 {
            Some(headers@[1].1@)
        } else {
            None
        },
    ));
    Fetch { url, headers }
}

/// Law: a video links to the page of its `bvid` and is titled by its
/// `title`, whichever members hold its number, cover, text and time.
pub proof fn law_video_link(
    v: Json,
    id_key: Seq<char>,
    pic_key: Seq<char>,
    desc_key: Seq<char>,
    time_key: Seq<char>,
    author: Option<Seq<char>>,
    embed: bool,
    now: Seq<char>,
)
    ensures
        video_item(v, id_key, pic_key, desc_key, time_key, author, embed, now).link == Some(
            "https://www.bilibili.com/video/"@ + crate::routes::member_str(v, "bvid"@),
        ),
        video_item(v, id_key, pic_key, desc_key, time_key, author, embed, now).title == Some(
            crate::text::trim_char(json_text(json_index(v, "title"@)), '"'),
        ),
{
}

} // verus!
