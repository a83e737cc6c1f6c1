//! `/bilibili_dynamic`: the dynamics (posts) of a bilibili user.
//!
//! The API answers with a list of items, each holding `modules` (author,
//! text, and a `major` part whose `type` says what kind of post it is) and,
//! for a repost, `orig.modules`. A live-room recommendation carries its
//! details as JSON text inside a string; those texts are parsed by the
//! caller and passed in as a table (see [`parsed_text`]).
use crate::json::{
    json_is_null, json_pointer, lookup_parsed, parsed_text, ptr_or_null, ptr_str, ptr_str_or,
    ptr_u64, ptr_u64_text, Json,
};
use crate::text::{contains_seq, contains_str, dec_int, from_range, i64_to_string, to_chars, trim_char, cat, dec, is_empty, starts_with, u64_to_string, join, join_exec, views, push_str, replace, str_eq, to_lowercase_str, trim, trim_str, unicode_lower, replace_str};
use crate::dates::{or_else, timestamp_to_rss, ts_rfc2822};
use crate::easyuser::{flag, no_double_quotes, pair_views, param, spec_parse_bool, url_encode, url_encoded, Params};
use crate::feed::{opt_view, Feed, FeedItem, FeedItemView, FeedView};
use crate::request_rules::RouteError;
use crate::routes::Fetch;
use crate::json::{parse_i64, ptr_i64, spec_parse_i64};
use vstd::prelude::*;

verus! {

/// The `major` part of a dynamic's modules, unless it is missing or null.
pub open spec fn major_of(data: Json) -> Option<Json> {
    match json_pointer(data, "/module_dynamic/major"@) {
        Some(m) => if json_is_null(m) {
            None
        } else {
            Some(m)
        },
        None => None,
    }
}

/// The kind of a `major` part: its `type` without `MAJOR_TYPE_`, lower-cased.
pub open spec fn major_kind(m: Json) -> Seq<char> {
    unicode_lower(replace(ptr_str_or(m, "/type"@), "MAJOR_TYPE_"@, ""@))
}

/// The parsed live-room card of a `major` part.
pub open spec fn live_card(m: Json, cards: Seq<(String, Option<Json>)>) -> Option<Json> {
    match ptr_str(m, "/live_rcmd/content"@) {
        Some(c) => parsed_text(cards, c),
        None => None,
    }
}

/// The title of a dynamic (`get_title`).
#[verifier::opaque]
pub open spec fn dyn_title(data: Json, cards: Seq<(String, Option<Json>)>) -> Seq<char> {
    match major_of(data) {
        None => seq![],
        Some(m) => match ptr_str(m, "/none/tips"@) {
            Some(tips) => tips,
            None => if json_pointer(m, "/courses"@) is Some && !json_is_null(
                json_pointer(m, "/courses"@)->0,
            ) {
                let c = json_pointer(m, "/courses"@)->0;
                trim(ptr_str_or(c, "/title"@) + " - "@ + ptr_str_or(c, "/sub_title"@))
            } else if live_card(m, cards) is Some && ptr_str(
                live_card(m, cards)->0,
                "/live_play_info/title"@,
            ) is Some {
                ptr_str(live_card(m, cards)->0, "/live_play_info/title"@)->0
            } else if major_kind(m).len() == 0 {
                seq![]
            } else {
                ptr_str_or(m, "/"@ + major_kind(m) + "/title"@)
            },
        },
    }
}

/// The `major` part, if present and not null.
fn major(data: &Json) -> (r: Option<&Json>)
    ensures
        match r {
            Some(m) => major_of(*data) == Some(*m),
            None => major_of(*data) is None,
        },
{
    match data.pointer("/module_dynamic/major") {
        Some(m) => if m.is_null() {
            None
        } else {
            Some(m)
        },
        None => None,
    }
}

/// The kind of a `major` part (see [`major_kind`]).
fn kind(m: &Json) -> (r: String)
    ensures
        r@ == major_kind(*m),
{
    let t = m.str_or_empty("/type");
    let stripped = replace_str(t.as_str(), "MAJOR_TYPE_", "");
    to_lowercase_str(stripped.as_str())
}

/// The parsed live-room card of a `major` part.
fn card<'a>(m: &Json, cards: &'a [(String, Option<Json>)]) -> (r: Option<&'a Json>)
    ensures
        match r {
            Some(c) => live_card(*m, cards@) == Some(*c),
            None => live_card(*m, cards@) is None,
        },
{
    match m.ptr_text("/live_rcmd/content") {
        Some(c) => lookup_parsed(cards, c.as_str()),
        None => None,
    }
}

/// `"/" + kind + suffix`, a pointer into the part named by the kind.
fn kind_path(k: &str, suffix: &str) -> (r: String)
    ensures
        r@ == "/"@ + k@ + suffix@,
{
    let mut p = cat("/", k);
    push_str(&mut p, suffix);
    p
}

/// `get_title`: the tips of an unavailable post, a course's title and
/// subtitle, a live room's title, or else the `title` of the part named by
/// the kind; empty without a `major` part.
pub fn get_title(data: &Json, cards: &[(String, Option<Json>)]) -> (r: String)
    ensures
        r@ == dyn_title(*data, cards@),
{
    proof {
        reveal(dyn_title);
    }
    let m = match major(data) {
        Some(m) => m,
        None => {
            return String::new();
        },
    };
    if let Some(tips) = m.ptr_text("/none/tips") {
        return tips.clone();
    }
    if let Some(courses) = m.pointer("/courses") {
        if !courses.is_null() {
            let mut joined = courses.str_or_empty("/title");
            push_str(&mut joined, " - ");
            let sub = courses.str_or_empty("/sub_title");
            push_str(&mut joined, sub.as_str());
            return trim_str(joined.as_str());
        }
    }
    if let Some(c) = card(m, cards) {
        if let Some(title) = c.ptr_text("/live_play_info/title") {
            return title.clone();
        }
    }
    let k = kind(m);
    if is_empty(k.as_str()) {
        return String::new();
    }
    m.str_or_empty(kind_path(k.as_str(), "/title").as_str())
}

/// The description of a dynamic (`get_description`).
#[verifier::opaque]
pub open spec fn dyn_description(data: Json, cards: Seq<(String, Option<Json>)>) -> Seq<char> {
    let desc = ptr_str_or(data, "/module_dynamic/desc/text"@);
    match major_of(data) {
        None => desc,
        Some(m) => if ptr_str(m, "/common/desc"@) is Some {
            let cd = ptr_str(m, "/common/desc"@)->0;
            if desc.len() > 0 {
                desc + "<br>//转发自: "@ + cd
            } else {
                cd
            }
        } else if json_pointer(m, "/live"@) is Some {
            ptr_str_or(m, "/live/desc_first"@) + "<br>"@ + ptr_str_or(m, "/live/desc_second"@)
        } else if live_card(m, cards) is Some {
            let info = json_pointer(live_card(m, cards)->0, "/live_play_info"@);
            match info {
                Some(i) => ptr_str_or(i, "/area_name"@) + "·"@ + ptr_str_or(
                    i,
                    "/watched_show/text_large"@,
                ),
                None => "·"@,
            }
        } else if ptr_str(m, "/opus/summary/text"@) is Some {
            ptr_str(m, "/opus/summary/text"@)->0
        } else if major_kind(m).len() > 0 && ptr_str(m, "/"@ + major_kind(m) + "/desc"@) is Some {
            ptr_str(m, "/"@ + major_kind(m) + "/desc"@)->0
        } else {
            desc
        },
    }
}

/// `get_description`: the post's text, followed by (or replaced with) what
/// its `major` part says: a shared link's description, a live room's two
/// lines or area and viewers, an article summary, or the `desc` of the part
/// named by the kind.
pub fn get_description(data: &Json, cards: &[(String, Option<Json>)]) -> (r: String)
    ensures
        r@ == dyn_description(*data, cards@),
{
    proof {
        reveal(dyn_description);
    }
    let mut desc = data.str_or_empty("/module_dynamic/desc/text");
    let m = match major(data) {
        Some(m) => m,
        None => {
            return desc;
        },
    };
    if let Some(common) = m.ptr_text("/common/desc") {
        if !is_empty(desc.as_str()) {
            push_str(&mut desc, "<br>//转发自: ");
            push_str(&mut desc, common.as_str());
            return desc;
        } else {
            return common.clone();
        }
    }
    if m.pointer("/live").is_some() {
        let mut out = m.str_or_empty("/live/desc_first");
        push_str(&mut out, "<br>");
        let second = m.str_or_empty("/live/desc_second");
        push_str(&mut out, second.as_str());
        return out;
    }
    if let Some(c) = card(m, cards) {
        let (area, watched) = match c.pointer("/live_play_info") {
            Some(i) => (i.str_or_empty("/area_name"), i.str_or_empty("/watched_show/text_large")),
            None => (String::new(), String::new()),
        };
        let mut out = area;
        push_str(&mut out, "·");
        push_str(&mut out, watched.as_str());
        return out;
    }
    if let Some(summary) = m.ptr_text("/opus/summary/text") {
        return summary.clone();
    }
    let k = kind(m);
    if !is_empty(k.as_str()) {
        if let Some(t) = m.ptr_text(kind_path(k.as_str(), "/desc").as_str()) {
            return t.clone();
        }
    }
    desc
}

/// The start of the embedded player.
pub open spec fn iframe_head() -> Seq<char> {
    "<iframe width=\"640\" height=\"360\" src=\"https://www.bilibili.com/blackboard/html5mobileplayer.html?aid="@
}

/// Between the video's aid and bvid in the player's address.
pub open spec fn iframe_mid() -> Seq<char> {
    "&amp;cid=undefined&amp;bvid="@
}

/// The end of the embedded player.
pub open spec fn iframe_tail() -> Seq<char> {
    "\" frameborder=\"0\" allowfullscreen=\"\" referrerpolicy=\"no-referrer\"></iframe>"@
}

/// The embedded player of a video post (`get_iframe`).
#[verifier::opaque]
pub open spec fn dyn_iframe(data: Json, embed: bool) -> Seq<char> {
    let aid_p = "/module_dynamic/major/archive/aid"@;
    let bvid_p = "/module_dynamic/major/archive/bvid"@;
    if !embed || (ptr_u64(data, aid_p) is None && ptr_str(data, bvid_p) is None) {
        seq![]
    } else {
        iframe_head() + ptr_u64_text(data, aid_p) + iframe_mid() + ptr_str_or(data, bvid_p)
            + iframe_tail()
    }
}

/// `get_iframe`: with `embed`, the player of the video the post carries;
/// empty without a video.
pub fn get_iframe(data: &Json, embed: bool) -> (r: String)
    ensures
        r@ == dyn_iframe(*data, embed),
{
    proof {
        reveal(dyn_iframe);
    }
    if !embed {
        return String::new();
    }
    if data.ptr_u64("/module_dynamic/major/archive/aid").is_none() && data.ptr_text(
        "/module_dynamic/major/archive/bvid",
    ).is_none() {
        return String::new();
    }
    let mut out = String::new();
    push_str(
        &mut out,
        "<iframe width=\"640\" height=\"360\" src=\"https://www.bilibili.com/blackboard/html5mobileplayer.html?aid=",
    );
    let aid = data.u64_text("/module_dynamic/major/archive/aid");
    push_str(&mut out, aid.as_str());
    push_str(&mut out, "&amp;cid=undefined&amp;bvid=");
    let bvid = data.str_or_empty("/module_dynamic/major/archive/bvid");
    push_str(&mut out, bvid.as_str());
    push_str(
        &mut out,
        "\" frameborder=\"0\" allowfullscreen=\"\" referrerpolicy=\"no-referrer\"></iframe>",
    );
    out
}

/// An image tag.
pub open spec fn img_tag(url: Seq<char>) -> Seq<char> {
    "<img src=\""@ + url + "\">"@
}

/// Image tags for the elements of `items` that have a string at `p`.
pub open spec fn tags_at(items: Seq<Json>, p: Seq<char>) -> Seq<Seq<char>>
    decreases items.len(),
{
    if items.len() == 0 {
        seq![]
    } else {
        tags_at(items.drop_last(), p) + match ptr_str(items.last(), p) {
            Some(u) => seq![img_tag(u)],
            None => seq![],
        }
    }
}

/// Image tags for the array at `arr` in `m`, reading each element at `p`.
pub open spec fn array_tags(m: Json, arr: Seq<char>, p: Seq<char>) -> Seq<Seq<char>> {
    match crate::json::ptr_array(m, arr) {
        Some(a) => tags_at(a, p),
        None => seq![],
    }
}

/// The image tag of a string at `p`, if there is one.
pub open spec fn tag_of(v: Json, p: Seq<char>) -> Seq<Seq<char>> {
    match ptr_str(v, p) {
        Some(u) => seq![img_tag(u)],
        None => seq![],
    }
}

/// The images of a dynamic (`get_imgs`).
#[verifier::opaque]
pub open spec fn dyn_imgs(data: Json, cards: Seq<(String, Option<Json>)>) -> Seq<char> {
    match major_of(data) {
        None => seq![],
        Some(m) => join(
            array_tags(m, "/opus/pics"@, "/url"@) + array_tags(m, "/article/covers"@, ""@)
                + array_tags(m, "/draw/items"@, "/src"@) + match live_card(m, cards) {
                Some(c) => tag_of(c, "/live_play_info/cover"@),
                None => seq![],
            } + tag_of(m, "/"@ + major_kind(m) + "/cover"@),
            "<br>"@,
        ),
    }
}

/// Appends the image tag of `url`.
fn push_tag(tags: &mut Vec<String>, url: &str)
    ensures
        views(final(tags)@) == views(old(tags)@).push(img_tag(url@)),
{
    let mut t = cat("<img src=\"", url);
    push_str(&mut t, "\">");
    tags.push(t);
    assert(views(tags@) =~= views(old(tags)@).push(img_tag(url@)));
}

/// Appends the image tag of the string at `p` in `v`, if there is one.
fn push_tag_at(tags: &mut Vec<String>, v: &Json, p: &str)
    ensures
        views(final(tags)@) == views(old(tags)@) + tag_of(*v, p@),
{
    match v.ptr_text(p) {
        Some(u) => push_tag(tags, u.as_str()),
        None => {
            assert(views(tags@) + Seq::<Seq<char>>::empty() =~= views(tags@));
        },
    }
}

/// Appends the image tags of the array at `arr` in `m`.
fn push_array_tags(tags: &mut Vec<String>, m: &Json, arr: &str, p: &str)
    ensures
        views(final(tags)@) == views(old(tags)@) + array_tags(*m, arr@, p@),
{
    let items = match m.ptr_array(arr) {
        Some(a) => a,
        None => {
            assert(views(tags@) + Seq::<Seq<char>>::empty() =~= views(tags@));
            return ;
        },
    };
    let ghost start = views(tags@);
    let mut i: usize = 0;
    while i < items.len()
        invariant
            i <= items.len(),
            views(tags@) == start + tags_at(items@.take(i as int), p@),
        decreases items.len() - i,
    {
        assert(items@.take(i + 1).drop_last() == items@.take(i as int));
        assert(items@.take(i + 1).last() == items@[i as int]);
        push_tag_at(tags, &items[i], p);
        assert(start + tags_at(items@.take(i as int), p@) + tag_of(items@[i as int], p@) =~= start
            + tags_at(items@.take(i + 1), p@));
        i = i + 1;
    }
    assert(items@.take(items.len() as int) == items@);
}

/// `get_imgs`: image tags for an article's pictures and covers, a drawing's
/// items, a live room's cover and the cover of the part named by the kind,
/// joined with `<br>`.
pub fn get_imgs(data: &Json, cards: &[(String, Option<Json>)]) -> (r: String)
    ensures
        r@ == dyn_imgs(*data, cards@),
{
    proof {
        reveal(dyn_imgs);
    }
    let m = match major(data) {
        Some(m) => m,
        None => {
            return String::new();
        },
    };
    let mut tags: Vec<String> = Vec::new();
    assert(views(tags@) =~= Seq::<Seq<char>>::empty());
    push_array_tags(&mut tags, m, "/opus/pics", "/url");
    push_array_tags(&mut tags, m, "/article/covers", "");
    push_array_tags(&mut tags, m, "/draw/items", "/src");
    let ghost before_card = views(tags@);
    match card(m, cards) {
        Some(c) => push_tag_at(&mut tags, c, "/live_play_info/cover"),
        None => {
            assert(before_card + Seq::<Seq<char>>::empty() =~= before_card);
        },
    }
    let k = kind(m);
    push_tag_at(&mut tags, m, kind_path(k.as_str(), "/cover").as_str());
    join_exec(tags.as_slice(), "<br>")
}

/// A labelled link: `label<a href=url>url</a>`.
pub open spec fn link_text(label: Seq<char>, url: Seq<char>) -> Seq<char> {
    label + "<a href="@ + url + ">"@ + url + "</a>"@
}

/// The address of what a post links to, and the text that shows it
/// (`get_url`): by the kind of its `major` part; nothing for other kinds or
/// without a `major` part.
#[verifier::opaque]
pub open spec fn dyn_url(item: Json, use_avid: bool, cards: Seq<(String, Option<Json>)>) -> Option<
    (Seq<char>, Seq<char>),
> {
    let m = ptr_or_null(ptr_or_null(item, "/modules"@), "/module_dynamic/major"@);
    let typ = ptr_str_or(m, "/type"@);
    if json_is_null(m) {
        None
    } else if typ == "MAJOR_TYPE_UGC_SEASON"@ {
        let url = ptr_str_or(m, "/ugc_season/jump_url"@);
        Some((url, "合集地址：<a href="@ + url + "> "@ + url + "</a>"@))
    } else if typ == "MAJOR_TYPE_ARTICLE"@ {
        let id = match ptr_u64(m, "/article/id"@) {
            Some(n) => dec(n as nat),
            None => ptr_str_or(m, "/article/id"@),
        };
        let url = "https://www.bilibili.com/read/cv"@ + id;
        Some((url, link_text("专栏地址："@, url)))
    } else if typ == "MAJOR_TYPE_ARCHIVE"@ {
        let archive = ptr_or_null(m, "/archive"@);
        let bvid = ptr_str_or(archive, "/bvid"@);
        let id = if use_avid && ptr_u64(archive, "/aid"@) is Some {
            "av"@ + dec(ptr_u64(archive, "/aid"@)->0 as nat)
        } else {
            bvid
        };
        let url = "https://www.bilibili.com/video/"@ + id;
        Some((url, link_text("视频地址："@, url)))
    } else if typ == "MAJOR_TYPE_COMMON"@ {
        let url = ptr_str_or(m, "/common/jump_url"@);
        Some((url, link_text("地址："@, url)))
    } else if typ == "MAJOR_TYPE_OPUS"@ {
        let jump = ptr_str_or(m, "/opus/jump_url"@);
        let url = if "http"@.is_prefix_of(jump) {
            jump
        } else {
            "https:"@ + jump
        };
        if ptr_str_or(item, "/type"@) == "DYNAMIC_TYPE_ARTICLE"@ {
            Some((url, link_text("专栏地址："@, url)))
        } else {
            Some((url, link_text("图文地址："@, url)))
        }
    } else if typ == "MAJOR_TYPE_PGC"@ {
        let pgc = ptr_or_null(m, "/pgc"@);
        let url = "https://www.bilibili.com/bangumi/play/ep"@ + ptr_u64_text(pgc, "/epid"@)
            + "&season_id="@ + ptr_u64_text(pgc, "/season_id"@);
        Some((url, link_text("剧集地址："@, url)))
    } else if typ == "MAJOR_TYPE_COURSES"@ {
        let url = "https://www.bilibili.com/cheese/play/ss"@ + ptr_u64_text(m, "/courses/id"@);
        Some((url, link_text("课程地址："@, url)))
    } else if typ == "MAJOR_TYPE_MUSIC"@ {
        let url = "https://www.bilibili.com/audio/au"@ + ptr_u64_text(m, "/music/id"@);
        Some((url, link_text("音频地址："@, url)))
    } else if typ == "MAJOR_TYPE_LIVE"@ {
        let url = "https://live.bilibili.com/"@ + ptr_u64_text(m, "/live/id"@);
        Some((url, link_text("直播间地址："@, url)))
    } else if typ == "MAJOR_TYPE_LIVE_RCMD"@ {
        let room = match live_card(m, cards) {
            Some(c) => match json_pointer(c, "/live_play_info"@) {
                Some(i) => ptr_u64_text(i, "/room_id"@),
                None => seq![],
            },
            None => seq![],
        };
        let url = "https://live.bilibili.com/"@ + room;
        Some((url, link_text("直播间地址："@, url)))
    } else {
        None
    }
}

/// An address and the text that shows it.
pub struct UrlResult {
    pub url: String,
    pub text: String,
}

/// `label<a href=url>url</a>`.
fn link_text_exec(label: &str, url: &str) -> (r: String)
    ensures
        r@ == link_text(label@, url@),
{
    let mut t = cat(label, "<a href=");
    push_str(&mut t, url);
    push_str(&mut t, ">");
    push_str(&mut t, url);
    push_str(&mut t, "</a>");
    t
}

/// A labelled link as a [`UrlResult`].
fn labelled(label: &str, url: String) -> (r: UrlResult)
    ensures
        r.url@ == url@,
        r.text@ == link_text(label@, url@),
{
    let text = link_text_exec(label, url.as_str());
    UrlResult { url, text }
}

/// `get_url` (see [`dyn_url`]).
pub fn get_url(item: &Json, use_avid: bool, cards: &[(String, Option<Json>)]) -> (r: Option<
    UrlResult,
>)
    ensures
        match r {
            Some(u) => dyn_url(*item, use_avid, cards@) == Some((u.url@, u.text@)),
            None => dyn_url(*item, use_avid, cards@) is None,
        },
{
    proof {
        reveal(dyn_url);
    }
    let null = Json::Null;
    let data = match item.pointer("/modules") {
        Some(d) => d,
        None => &null,
    };
    let m = match data.pointer("/module_dynamic/major") {
        Some(x) => x,
        None => &null,
    };
    if m.is_null() {
        return None;
    }
    let typ = m.str_or_empty("/type");
    let t = typ.as_str();
    if str_eq(t, "MAJOR_TYPE_UGC_SEASON") {
        let url = m.str_or_empty("/ugc_season/jump_url");
        let mut text = cat("合集地址：<a href=", url.as_str());
        push_str(&mut text, "> ");
        push_str(&mut text, url.as_str());
        push_str(&mut text, "</a>");
        Some(UrlResult { url, text })
    } else if str_eq(t, "MAJOR_TYPE_ARTICLE") {
        let id = match m.ptr_u64("/article/id") {
            Some(n) => u64_to_string(n),
            None => m.str_or_empty("/article/id"),
        };
        Some(labelled("专栏地址：", cat("https://www.bilibili.com/read/cv", id.as_str())))
    } else if str_eq(t, "MAJOR_TYPE_ARCHIVE") {
        let archive = match m.pointer("/archive") {
            Some(a) => a,
            None => &null,
        };
        let bvid = archive.str_or_empty("/bvid");
        let id = if use_avid {
            match archive.ptr_u64("/aid") {
                Some(n) => cat("av", u64_to_string(n).as_str()),
                None => bvid,
            }
        } else {
            bvid
        };
        Some(labelled("视频地址：", cat("https://www.bilibili.com/video/", id.as_str())))
    } else if str_eq(t, "MAJOR_TYPE_COMMON") {
        Some(labelled("地址：", m.str_or_empty("/common/jump_url")))
    } else if str_eq(t, "MAJOR_TYPE_OPUS") {
        let jump = m.str_or_empty("/opus/jump_url");
        let url = if starts_with(jump.as_str(), "http") {
            jump
        } else {
            cat("https:", jump.as_str())
        };
        let item_type = item.str_or_empty("/type");
        if str_eq(item_type.as_str(), "DYNAMIC_TYPE_ARTICLE") {
            Some(labelled("专栏地址：", url))
        } else {
            Some(labelled("图文地址：", url))
        }
    } else if str_eq(t, "MAJOR_TYPE_PGC") {
        let pgc = match m.pointer("/pgc") {
            Some(p) => p,
            None => &null,
        };
        let mut url = cat("https://www.bilibili.com/bangumi/play/ep", pgc.u64_text("/epid").as_str());
        push_str(&mut url, "&season_id=");
        push_str(&mut url, pgc.u64_text("/season_id").as_str());
        Some(labelled("剧集地址：", url))
    } else if str_eq(t, "MAJOR_TYPE_COURSES") {
        let url = cat("https://www.bilibili.com/cheese/play/ss", m.u64_text("/courses/id").as_str());
        Some(labelled("课程地址：", url))
    } else if str_eq(t, "MAJOR_TYPE_MUSIC") {
        let url = cat("https://www.bilibili.com/audio/au", m.u64_text("/music/id").as_str());
        Some(labelled("音频地址：", url))
    } else if str_eq(t, "MAJOR_TYPE_LIVE") {
        let url = cat("https://live.bilibili.com/", m.u64_text("/live/id").as_str());
        Some(labelled("直播间地址：", url))
    } else if str_eq(t, "MAJOR_TYPE_LIVE_RCMD") {
        let room = match card(m, cards) {
            Some(c) => match c.pointer("/live_play_info") {
                Some(i) => i.u64_text("/room_id"),
                None => String::new(),
            },
            None => String::new(),
        };
        Some(labelled("直播间地址：", cat("https://live.bilibili.com/", room.as_str())))
    } else {
        None
    }
}

// ---------------------------------------------------------------------------
// Emoji and pictures inside the text
// ---------------------------------------------------------------------------

/// The inline image that stands for an emoji.
pub open spec fn emoji_img(text: Seq<char>, icon: Seq<char>) -> Seq<char> {
    "<img alt=\""@ + text + "\" src=\""@ + icon
        + "\" style=\"margin: -1px 1px 0px; display: inline-block; width: 20px; height: 20px; vertical-align: text-bottom;\" referrerpolicy=\"no-referrer\">"@
}

/// The inline image for one picture of a text node.
pub open spec fn pic_img(text: Seq<char>, src: Seq<char>) -> Seq<char> {
    "<img alt=\""@ + text + "\" src=\""@ + src
        + "\" style=\"display:inline-block; max-width:100%;\" referrerpolicy=\"no-referrer\">"@
}

/// The inline images for the pictures that have a `src`.
pub open spec fn pic_imgs(pics: Seq<Json>, text: Seq<char>) -> Seq<Seq<char>>
    decreases pics.len(),
{
    if pics.len() == 0 {
        seq![]
    } else {
        pic_imgs(pics.drop_last(), text) + match ptr_str(pics.last(), "/src"@) {
            Some(src) => seq![pic_img(text, src)],
            None => seq![],
        }
    }
}

/// One rich-text node applied to the description: an emoji's text becomes
/// its image, and a node's text with pictures becomes those pictures.
pub open spec fn node_step(desc: Seq<char>, node: Json) -> Seq<char> {
    let text = ptr_str(node, "/text"@);
    let emoji = json_pointer(node, "/emoji"@);
    let d1 = if emoji is Some && text is Some && ptr_str(emoji->0, "/icon_url"@) is Some {
        replace(desc, text->0, emoji_img(text->0, ptr_str(emoji->0, "/icon_url"@)->0))
    } else {
        desc
    };
    match crate::json::ptr_array(node, "/pics"@) {
        Some(pics) => if text is Some && pic_imgs(pics, text->0).len() > 0 {
            replace(d1, text->0, join(pic_imgs(pics, text->0), "<br>"@))
        } else {
            d1
        },
        None => d1,
    }
}

/// The nodes applied in order.
pub open spec fn apply_nodes(desc: Seq<char>, nodes: Seq<Json>) -> Seq<char>
    decreases nodes.len(),
{
    if nodes.len() == 0 {
        desc
    } else {
        node_step(apply_nodes(desc, nodes.drop_last()), nodes.last())
    }
}

/// The description with emoji and pictures shown, when `show` is set.
#[verifier::opaque]
pub open spec fn with_emoji(desc: Seq<char>, modules: Json, show: bool) -> Seq<char> {
    if show {
        match crate::json::ptr_array(modules, "/module_dynamic/desc/rich_text_nodes"@) {
            Some(nodes) => apply_nodes(desc, nodes),
            None => desc,
        }
    } else {
        desc
    }
}

/// Line breaks as `<br>`.
#[verifier::opaque]
pub open spec fn br(s: Seq<char>) -> Seq<char> {
    replace(replace(s, "\r\n"@, "<br>"@), "\n"@, "<br>"@)
}

fn pic_imgs_exec(pics: &Vec<Json>, text: &str) -> (r: Vec<String>)
    ensures
        views(r@) == pic_imgs(pics@, text@),
{
    let mut out: Vec<String> = Vec::new();
    let mut i: usize = 0;
    assert(views(out@) =~= Seq::<Seq<char>>::empty());
    while i < pics.len()
        invariant
            i <= pics.len(),
            views(out@) == pic_imgs(pics@.take(i as int), text@),
        decreases pics.len() - i,
    {
        assert(pics@.take(i + 1).drop_last() == pics@.take(i as int));
        assert(pics@.take(i + 1).last() == pics@[i as int]);
        match pics[i].ptr_text("/src") {
            Some(src) => {
                let mut img = cat("<img alt=\"", text);
                push_str(&mut img, "\" src=\"");
                push_str(&mut img, src.as_str());
                push_str(
                    &mut img,
                    "\" style=\"display:inline-block; max-width:100%;\" referrerpolicy=\"no-referrer\">",
                );
                let ghost before = views(out@);
                out.push(img);
                assert(views(out@) =~= before.push(img@));
            },
            None => {
                assert(pic_imgs(pics@.take(i + 1), text@) =~= pic_imgs(pics@.take(i as int), text@));
            },
        }
        i = i + 1;
    }
    assert(pics@.take(pics.len() as int) == pics@);
    out
}

fn node_step_exec(desc: String, node: &Json) -> (r: String)
    ensures
        r@ == node_step(desc@, *node),
{
    let mut d = desc;
    if let Some(emoji) = node.pointer("/emoji") {
        if let Some(text) = node.ptr_text("/text") {
            if let Some(icon) = emoji.ptr_text("/icon_url") {
                let mut img = cat("<img alt=\"", text.as_str());
                push_str(&mut img, "\" src=\"");
                push_str(&mut img, icon.as_str());
                push_str(
                    &mut img,
                    "\" style=\"margin: -1px 1px 0px; display: inline-block; width: 20px; height: 20px; vertical-align: text-bottom;\" referrerpolicy=\"no-referrer\">",
                );
                d = replace_str(d.as_str(), text.as_str(), img.as_str());
            }
        }
    }
    if let Some(pics) = node.ptr_array("/pics") {
        if let Some(text) = node.ptr_text("/text") {
            let imgs = pic_imgs_exec(pics, text.as_str());
            if imgs.len() > 0 {
                let joined = join_exec(imgs.as_slice(), "<br>");
                d = replace_str(d.as_str(), text.as_str(), joined.as_str());
            }
        }
    }
    d
}

fn with_emoji_exec(desc: String, modules: &Json, show: bool) -> (r: String)
    ensures
        r@ == with_emoji(desc@, *modules, show),
{
    proof {
        reveal(with_emoji);
    }
    if !show {
        return desc;
    }
    let nodes = match modules.ptr_array("/module_dynamic/desc/rich_text_nodes") {
        Some(n) => n,
        None => {
            return desc;
        },
    };
    let mut d = desc;
    let ghost d0 = d@;
    let mut i: usize = 0;
    while i < nodes.len()
        invariant
            i <= nodes.len(),
            d@ == apply_nodes(d0, nodes@.take(i as int)),
        decreases nodes.len() - i,
    {
        assert(nodes@.take(i + 1).drop_last() == nodes@.take(i as int));
        assert(nodes@.take(i + 1).last() == nodes@[i as int]);
        d = node_step_exec(d, &nodes[i]);
        i = i + 1;
    }
    assert(nodes@.take(nodes.len() as int) == nodes@);
    d
}

fn br_exec(s: &str) -> (r: String)
    ensures
        r@ == br(s@),
{
    proof {
        reveal(br);
    }
    let a = replace_str(s, "\r\n", "<br>");
    replace_str(a.as_str(), "\n", "<br>")
}

// ---------------------------------------------------------------------------
// Items and the feed
// ---------------------------------------------------------------------------

/// The flags of the route.
#[derive(Clone, Copy, Debug)]
pub struct DynOptions {
    /// `showEmoji` (default off): show emoji and text pictures as images.
    pub show_emoji: bool,
    /// `embed` (default on): embed the video player.
    pub embed: bool,
    /// `useAvid` (default off): link videos by `av` number.
    pub use_avid: bool,
    /// `directLink` (default off): link items to what they share.
    pub direct_link: bool,
    /// `hideGoods` (default off): leave out posts that advertise goods.
    pub hide_goods: bool,
}

/// The flags as the query parameters give them.
pub open spec fn spec_options(para: Map<Seq<char>, Seq<char>>) -> DynOptions {
    DynOptions {
        show_emoji: spec_parse_bool(param(para, "showEmoji"@), false),
        embed: spec_parse_bool(param(para, "embed"@), true),
        use_avid: spec_parse_bool(param(para, "useAvid"@), false),
        direct_link: spec_parse_bool(param(para, "directLink"@), false),
        hide_goods: spec_parse_bool(param(para, "hideGoods"@), false),
    }
}

/// Reads the flags from the query parameters.
pub fn options(para: &Params) -> (r: DynOptions)
    ensures
        r == spec_options(para@),
{
    DynOptions {
        show_emoji: flag(para, "showEmoji", false),
        embed: flag(para, "embed", true),
        use_avid: flag(para, "useAvid", false),
        direct_link: flag(para, "directLink", false),
        hide_goods: flag(para, "hideGoods", false),
    }
}

/// A post left out under `hideGoods`.
pub open spec fn is_goods(item: Json, opts: DynOptions) -> bool {
    opts.hide_goods && ptr_str(item, "/modules/module_dynamic/additional/type"@) == Some(
        "ADDITIONAL_TYPE_GOODS"@,
    )
}

/// The reposted post's modules, if the post is a repost.
pub open spec fn origin_of(item: Json) -> Option<Json> {
    json_pointer(item, "/orig/modules"@)
}

/// What a repost says of the post it shares: its author, title and text.
#[verifier::opaque]
pub open spec fn origin_description(origin: Option<Json>, cards: Seq<(String, Option<Json>)>) -> Seq<
    char,
> {
    match origin {
        None => seq![],
        Some(o) => {
            let head = match ptr_str(o, "/module_author/name"@) {
                Some(n) => "//转发自: @"@ + n + ": "@,
                None => seq![],
            };
            let t = dyn_title(o, cards);
            let h = if t.len() > 0 {
                head + t
            } else {
                head
            };
            let d = dyn_description(o, cards);
            if d.len() > 0 {
                if h.len() > 0 {
                    h + "<br>"@ + d
                } else {
                    d
                }
            } else {
                h
            }
        },
    }
}

/// The link of an item: the post's page, or with `directLink` what it (or
/// the post it reposts) links to.
#[verifier::opaque]
pub open spec fn item_link(item: Json, opts: DynOptions, cards: Seq<(String, Option<Json>)>) -> Seq<
    char,
> {
    let base = match ptr_str(item, "/id_str"@) {
        Some(id) => "https://t.bilibili.com/"@ + id,
        None => seq![],
    };
    let own = dyn_url(item, opts.use_avid, cards);
    let l1 = match own {
        Some(u) => if opts.direct_link {
            u.0
        } else {
            base
        },
        None => base,
    };
    let orig = match origin_of(item) {
        Some(o) => dyn_url(o, opts.use_avid, cards),
        None => None,
    };
    match orig {
        Some(u) => if opts.direct_link {
            u.0
        } else {
            l1
        },
        None => l1,
    }
}

/// The parts an item's description is made of, in order.
#[verifier::opaque]
pub open spec fn desc_fields(item: Json, opts: DynOptions, cards: Seq<(String, Option<Json>)>) -> Seq<
    Seq<char>,
> {
    let modules = ptr_or_null(item, "/modules"@);
    let url_text = match dyn_url(item, opts.use_avid, cards) {
        Some(u) => u.1,
        None => seq![],
    };
    let base = seq![
        dyn_title(modules, cards),
        br(with_emoji(dyn_description(modules, cards), modules, opts.show_emoji)),
        dyn_iframe(modules, opts.embed),
        dyn_imgs(modules, cards),
        url_text,
        br(origin_description(origin_of(item), cards)),
    ];
    match origin_of(item) {
        None => base,
        Some(o) => base + seq![dyn_iframe(o, opts.embed), dyn_imgs(o, cards)] + match dyn_url(
            o,
            opts.use_avid,
            cards,
        ) {
            Some(u) => seq![u.1],
            None => seq![],
        },
    }
}

/// The parts that are not blank, each trimmed.
pub open spec fn trimmed_nonblank(parts: Seq<Seq<char>>) -> Seq<Seq<char>>
    decreases parts.len(),
{
    if parts.len() == 0 {
        seq![]
    } else {
        trimmed_nonblank(parts.drop_last()) + if trim(parts.last()).len() > 0 {
            seq![trim(parts.last())]
        } else {
            seq![]
        }
    }
}

/// The publication time of a post: an integer, or a string holding one.
pub open spec fn pub_ts(modules: Json) -> Option<i64> {
    match json_pointer(modules, "/module_author/pub_ts"@) {
        Some(v) => match crate::json::json_as_i64(v) {
            Some(t) => Some(t),
            None => match crate::json::json_as_str(v) {
                Some(t) => spec_parse_i64(t),
                None => None,
            },
        },
        None => None,
    }
}

/// The feed item for one post.
pub open spec fn dyn_item(
    item: Json,
    opts: DynOptions,
    cards: Seq<(String, Option<Json>)>,
    now: Seq<char>,
) -> FeedItemView {
    let modules = ptr_or_null(item, "/modules"@);
    let title = dyn_title(modules, cards);
    let link = item_link(item, opts, cards);
    FeedItemView {
        title: Some(trim_char(if title.len() == 0 { link } else { title }, '"')),
        link: Some(trim_char(link, '"')),
        description: Some(join(trimmed_nonblank(desc_fields(item, opts, cards)), "<br>"@)),
        pub_date: Some(match pub_ts(modules) {
            Some(ts) => or_else(ts_rfc2822(ts), now),
            None => now,
        }),
        author: Some(trim_char(ptr_str_or(modules, "/module_author/name"@), '"')),
        guid: None,
        categories: seq![],
    }
}

/// The feed items for the posts, leaving out hidden ones.
pub open spec fn dyn_items(
    items: Seq<Json>,
    opts: DynOptions,
    cards: Seq<(String, Option<Json>)>,
    now: Seq<char>,
) -> Seq<FeedItemView>
    decreases items.len(),
{
    if items.len() == 0 {
        seq![]
    } else {
        dyn_items(items.drop_last(), opts, cards, now) + if is_goods(items.last(), opts) {
            seq![]
        } else {
            seq![dyn_item(items.last(), opts, cards, now)]
        }
    }
}

/// The channel's author: the first non-empty author name among the posts
/// shown.
pub open spec fn feed_author(items: Seq<Json>, opts: DynOptions) -> Seq<char>
    decreases items.len(),
{
    if items.len() == 0 {
        seq![]
    } else {
        let a = feed_author(items.drop_last(), opts);
        let it = items.last();
        if a.len() == 0 && !is_goods(it, opts) && ptr_str(
            ptr_or_null(it, "/modules"@),
            "/module_author/name"@,
        ) is Some {
            ptr_str(ptr_or_null(it, "/modules"@), "/module_author/name"@)->0
        } else {
            a
        }
    }
}

fn origin_description_exec(origin: Option<&Json>, cards: &[(String, Option<Json>)]) -> (r: String)
    ensures
        r@ == origin_description(
            match origin {
                Some(o) => Some(*o),
                None => None,
            },
            cards@,
        ),
{
    proof {
        reveal(origin_description);
    }
    let o = match origin {
        Some(o) => o,
        None => {
            return String::new();
        },
    };
    let mut h = match o.ptr_text("/module_author/name") {
        Some(n) => {
            let mut x = cat("//转发自: @", n.as_str());
            push_str(&mut x, ": ");
            x
        },
        None => String::new(),
    };
    let t = get_title(o, cards);
    if !is_empty(t.as_str()) {
        push_str(&mut h, t.as_str());
    }
    let d = get_description(o, cards);
    if !is_empty(d.as_str()) {
        if !is_empty(h.as_str()) {
            push_str(&mut h, "<br>");
        }
        push_str(&mut h, d.as_str());
    }
    h
}

fn trimmed_join(parts: &Vec<String>) -> (r: String)
    ensures
        r@ == join(trimmed_nonblank(views(parts@)), "<br>"@),
{
    let mut kept: Vec<String> = Vec::new();
    let mut i: usize = 0;
    assert(views(kept@) =~= Seq::<Seq<char>>::empty());
    while i < parts.len()
        invariant
            i <= parts.len(),
            views(kept@) == trimmed_nonblank(views(parts@).take(i as int)),
        decreases parts.len() - i,
    {
        let ghost vs = views(parts@);
        assert(vs.take(i + 1).drop_last() == vs.take(i as int));
        assert(vs.take(i + 1).last() == parts@[i as int]@);
        let t = trim_str(parts[i].as_str());
        if !is_empty(t.as_str()) {
            let ghost before = views(kept@);
            kept.push(t);
            assert(views(kept@) =~= before.push(t@));
        } else {
            assert(trimmed_nonblank(vs.take(i + 1)) =~= trimmed_nonblank(vs.take(i as int)));
        }
        i = i + 1;
    }
    assert(views(parts@).take(parts.len() as int) == views(parts@));
    join_exec(kept.as_slice(), "<br>")
}

fn pub_ts_exec(modules: &Json) -> (r: Option<i64>)
    ensures
        r == pub_ts(*modules),
{
    match modules.pointer("/module_author/pub_ts") {
        Some(v) => match v.as_i64() {
            Some(t) => Some(t),
            None => match v.as_str() {
                Some(t) => parse_i64(t.as_str()),
                None => None,
            },
        },
        None => None,
    }
}

fn item_link_exec(item: &Json, opts: DynOptions, cards: &[(String, Option<Json>)]) -> (r: String)
    ensures
        r@ == item_link(*item, opts, cards@),
{
    proof {
        reveal(item_link);
    }
    let mut link = match item.ptr_text("/id_str") {
        Some(id) => cat("https://t.bilibili.com/", id.as_str()),
        None => String::new(),
    };
    if let Some(u) = get_url(item, opts.use_avid, cards) {
        if opts.direct_link {
            link = u.url;
        }
    }
    if let Some(o) = item.pointer("/orig/modules") {
        if let Some(u) = get_url(o, opts.use_avid, cards) {
            if opts.direct_link {
                link = u.url;
            }
        }
    }
    link
}

fn desc_fields_exec(item: &Json, opts: DynOptions, cards: &[(String, Option<Json>)]) -> (r: Vec<
    String,
>)
    ensures
        views(r@) == desc_fields(*item, opts, cards@),
{
    proof {
        reveal(desc_fields);
    }
    let null = Json::Null;
    let modules = match item.pointer("/modules") {
        Some(m) => m,
        None => &null,
    };
    let description = with_emoji_exec(get_description(modules, cards), modules, opts.show_emoji);
    let url_text = match get_url(item, opts.use_avid, cards) {
        Some(u) => u.text,
        None => String::new(),
    };
    let origin = item.pointer("/orig/modules");
    let od = origin_description_exec(origin, cards);
    let mut fields: Vec<String> = Vec::new();
    fields.push(get_title(modules, cards));
    fields.push(br_exec(description.as_str()));
    fields.push(get_iframe(modules, opts.embed));
    fields.push(get_imgs(modules, cards));
    fields.push(url_text);
    fields.push(br_exec(od.as_str()));
    if let Some(o) = origin {
        fields.push(get_iframe(o, opts.embed));
        fields.push(get_imgs(o, cards));
        if let Some(u) = get_url(o, opts.use_avid, cards) {
            fields.push(u.text);
        }
    }
    assert(views(fields@) =~= desc_fields(*item, opts, cards@));
    fields
}

/// Builds the feed item for one post (see [`dyn_item`]).
pub fn build_item(
    item: &Json,
    opts: DynOptions,
    cards: &[(String, Option<Json>)],
    now: &str,
) -> (r: FeedItem)
    ensures
        r@ == dyn_item(*item, opts, cards@, now@),
{
    let null = Json::Null;
    let modules = match item.pointer("/modules") {
        Some(m) => m,
        None => &null,
    };
    let original_title = get_title(modules, cards);
    let link = item_link_exec(item, opts, cards);
    let title = if is_empty(original_title.as_str()) {
        link.clone()
    } else {
        original_title
    };
    let fields = desc_fields_exec(item, opts, cards);
    let description = trimmed_join(&fields);
    let pub_date = match pub_ts_exec(modules) {
        Some(ts) => timestamp_to_rss(ts, now),
        None => now.to_owned(),
    };
    let author = modules.str_or_empty("/module_author/name");
    let r = FeedItem {
        title: Some(no_double_quotes(title)),
        link: Some(no_double_quotes(link)),
        description: Some(description),
        pub_date: Some(pub_date),
        author: Some(no_double_quotes(author)),
        guid: None,
        categories: Vec::new(),
    };
    assert(r@.categories =~= Seq::<Seq<char>>::empty());
    r
}

// ---------------------------------------------------------------------------
// The request, the answer and the feed
// ---------------------------------------------------------------------------

/// The message when `uid` is not given.
pub open spec fn missing_uid() -> Seq<char> {
    "缺少 uid 参数，请在 /bilibili_dynamic?uid=xxx 中传入 uid"@
}

/// The browser the API is asked as.
pub open spec fn user_agent() -> Seq<char> {
    "Mozilla/5.0 (Windows NT 10.0; Win64; x64) AppleWebKit/537.36 (KHTML, like Gecko) Chrome/120.0.0.0 Safari/537.36"@
}

/// The API address for a user's dynamics, from the page `offset` on.
pub open spec fn api_url(uid: Seq<char>, offset: Seq<char>) -> Seq<char> {
    if offset.len() == 0 {
        "https://api.bilibili.com/x/polymer/web-dynamic/v1/feed/space?host_mid="@ + uid
            + "&platform=web&features=itemOpusStyle,listOnlyfans,opusBigCover,onlyfansVote"@
    } else {
        "https://api.bilibili.com/x/polymer/web-dynamic/v1/feed/space?host_mid="@ + uid
            + "&platform=web&offset="@ + url_encoded(offset)
            + "&features=itemOpusStyle,listOnlyfans,opusBigCover,onlyfansVote"@
    }
}

/// The request: the API address and the headers (`Referer`, `User-Agent`,
/// and `Cookie` where a cookie for bilibili.com is known).
pub open spec fn spec_request(para: Map<Seq<char>, Seq<char>>, cookie: Option<Seq<char>>) -> Result<
    (Seq<char>, Seq<(Seq<char>, Seq<char>)>),
    Seq<char>,
> {
    match param(para, "uid"@) {
        None => Err(missing_uid()),
        Some(uid) => {
            let offset = match param(para, "offset"@) {
                Some(o) => o,
                None => seq![],
            };
            let base = seq![
                ("Referer"@, "https://space.bilibili.com/"@ + uid + "/"@),
                ("User-Agent"@, user_agent()),
            ];
            Ok(
                (
                    api_url(uid, offset),
                    match cookie {
                        Some(c) => base.push(("Cookie"@, c)),
                        None => base,
                    },
                ),
            )
        },
    }
}

/// Law: without `uid` no request is planned, whatever the cookie: the route
/// fails with the message asking for `uid`.
pub proof fn law_missing_uid(para: Map<Seq<char>, Seq<char>>, cookie: Option<Seq<char>>)
    requires
        !para.contains_key("uid"@),
    ensures
        spec_request(para, cookie) == Err::<(Seq<char>, Seq<(Seq<char>, Seq<char>)>), Seq<char>>(
            "缺少 uid 参数，请在 /bilibili_dynamic?uid=xxx 中传入 uid"@,
        ),
{
}

/// The request for the route's query parameters; `cookie` is the cookie
/// header for bilibili.com, if the cookie file has one.
pub fn request(para: &Params, cookie: Option<String>) -> (r: Result<Fetch, RouteError>)
    ensures
        match r {
            Ok(f) => spec_request(para@, opt_view(cookie)) matches Ok(v) && v == (f.url@, pair_views(f.headers@)),
            Err(RouteError::Message(m)) => spec_request(para@, opt_view(cookie)) matches Err(e) && e == m@,
            Err(_) => false,
        },
{
    let uid = match para.get("uid") {
        Some(u) => u,
        None => {
            return Err(RouteError::msg("缺少 uid 参数，请在 /bilibili_dynamic?uid=xxx 中传入 uid"));
        },
    };
    let offset = match para.get("offset") {
        Some(o) => o.clone(),
        None => String::new(),
    };
    let mut url = cat(
        "https://api.bilibili.com/x/polymer/web-dynamic/v1/feed/space?host_mid=",
        uid.as_str(),
    );
    if is_empty(offset.as_str()) {
        push_str(&mut url, "&platform=web&features=itemOpusStyle,listOnlyfans,opusBigCover,onlyfansVote");
    } else {
        push_str(&mut url, "&platform=web&offset=");
        push_str(&mut url, url_encode(offset.as_str()).as_str());
        push_str(&mut url, "&features=itemOpusStyle,listOnlyfans,opusBigCover,onlyfansVote");
    }
    let mut referer = cat("https://space.bilibili.com/", uid.as_str());
    push_str(&mut referer, "/");
    let mut headers: Vec<(String, String)> = Vec::new();
    headers.push(("Referer".to_owned(), referer));
    headers.push((
        "User-Agent".to_owned(),
        "Mozilla/5.0 (Windows NT 10.0; Win64; x64) AppleWebKit/537.36 (KHTML, like Gecko) Chrome/120.0.0.0 Safari/537.36".to_owned(),
    ));
    if let Some(c) = cookie {
        headers.push(("Cookie".to_owned(), c));
    }
    proof {
        let base = seq![
            ("Referer"@, "https://space.bilibili.com/"@ + uid@ + "/"@),
            ("User-Agent"@, user_agent()),
        ];
        assert(pair_views(headers@) =~= match cookie {
            Some(c) => base.push(("Cookie"@, c@)),
            None => base,
        });
    }
    Ok(Fetch { url, headers })
}

/// The message when the answer is not JSON: a hint about the cookie where
/// the answer speaks of `412` or `security`, else the parser's message and
/// the first 200 characters of the answer.
pub open spec fn parse_failure(response: Seq<char>, err: Seq<char>) -> Seq<char> {
    if contains_seq(response, "412"@) || contains_seq(response, "security"@) {
        "B站API需要登录Cookie才能访问，请配置 cookies.json (bilibili.com)"@
    } else {
        "JSON解析失败: "@ + err + " — 响应片段: "@ + response.take(
            if response.len() < 200 {
                response.len() as int
            } else {
                200
            },
        )
    }
}

/// The error for an answer that did not parse as JSON; `err` is the
/// parser's message.
pub fn parse_failure_error(response: &str, err: &str) -> (r: RouteError)
    ensures
        r matches RouteError::Message(m) && m@ == parse_failure(response@, err@),
{
    if contains_str(response, "412") || contains_str(response, "security") {
        return RouteError::msg("B站API需要登录Cookie才能访问，请配置 cookies.json (bilibili.com)");
    }
    let v = to_chars(response);
    let n: usize = if v.len() < 200 {
        v.len()
    } else {
        200
    };
    let mut m = cat("JSON解析失败: ", err);
    push_str(&mut m, " — 响应片段: ");
    push_str(&mut m, from_range(v.as_slice(), 0, n).as_str());
    RouteError::Message(m)
}

/// What is wrong with an answer: a `code` other than 0, or no item list.
pub open spec fn answer_error(json: Json) -> Option<Seq<char>> {
    if ptr_i64(json, "/code"@) != Some(0i64) {
        Some(
            "B站API返回错误 code="@ + dec_int(
                match ptr_i64(json, "/code"@) {
                    Some(c) => c as int,
                    None => -1,
                },
            ) + ": "@ + ptr_str_or(json, "/message"@),
        )
    } else {
        match crate::json::ptr_array(json, "/data/items"@) {
            Some(_) => None,
            None => Some("找不到 data.items 字段或不是数组"@),
        }
    }
}

/// The feed for an answer, or why there is none.
pub open spec fn spec_feed(
    para: Map<Seq<char>, Seq<char>>,
    json: Json,
    cards: Seq<(String, Option<Json>)>,
    now: Seq<char>,
) -> Result<FeedView, Seq<char>> {
    match param(para, "uid"@) {
        None => Err(missing_uid()),
        Some(uid) => match answer_error(json) {
            Some(e) => Err(e),
            None => {
                let items = crate::json::ptr_array(json, "/data/items"@)->0;
                let opts = spec_options(para);
                let author = feed_author(items, opts);
                Ok(
                    FeedView {
                        title: author + " 的 bilibili 动态"@,
                        link: "https://space.bilibili.com/"@ + uid + "/dynamic"@,
                        description: author + " 的 bilibili 动态"@,
                        pub_date: None,
                        items: dyn_items(items, opts, cards, now),
                    },
                )
            },
        },
    }
}

/// `get`, after the fetch: the feed for the API's answer. `cards` holds
/// what the texts listed by [`embedded_texts`] parse to; `now` is the
/// current time in RSS form, the date of posts without a usable time.
pub fn build_feed(
    para: &Params,
    json: &Json,
    cards: &[(String, Option<Json>)],
    now: &str,
) -> (r: Result<Feed, RouteError>)
    ensures
        match r {
            Ok(f) => spec_feed(para@, *json, cards@, now@) matches Ok(v) && v == f@,
            Err(RouteError::Message(m)) => spec_feed(para@, *json, cards@, now@) matches Err(e) && e == m@,
            Err(_) => false,
        },
{
    let uid = match para.get("uid") {
        Some(u) => u,
        None => {
            return Err(RouteError::msg("缺少 uid 参数，请在 /bilibili_dynamic?uid=xxx 中传入 uid"));
        },
    };
    let code = json.ptr_i64("/code");
    if code != Some(0i64) {
        let c: i64 = match code {
            Some(c) => c,
            None => -1,
        };
        let mut m = cat("B站API返回错误 code=", i64_to_string(c).as_str());
        push_str(&mut m, ": ");
        push_str(&mut m, json.str_or_empty("/message").as_str());
        return Err(RouteError::Message(m));
    }
    let items = match json.ptr_array("/data/items") {
        Some(a) => a,
        None => {
            return Err(RouteError::msg("找不到 data.items 字段或不是数组"));
        },
    };
    let opts = options(para);
    let mut out: Vec<FeedItem> = Vec::new();
    let mut author = String::new();
    let mut i: usize = 0;
    while i < items.len()
        invariant
            i <= items.len(),
            out@.map_values(|x: FeedItem| x@) == dyn_items(items@.take(i as int), opts, cards@, now@),
            author@ == feed_author(items@.take(i as int), opts),
        decreases items.len() - i,
    {
        let it = &items[i];
        assert(items@.take(i + 1).drop_last() == items@.take(i as int));
        assert(items@.take(i + 1).last() == items@[i as int]);
        let goods = opts.hide_goods && match it.ptr_text("/modules/module_dynamic/additional/type") {
            Some(t) => str_eq(t.as_str(), "ADDITIONAL_TYPE_GOODS"),
            None => false,
        };
        if !goods {
            let null = Json::Null;
            let modules = match it.pointer("/modules") {
                Some(m) => m,
                None => &null,
            };
            if let Some(name) = modules.ptr_text("/module_author/name") {
                if is_empty(author.as_str()) {
                    author = name.clone();
                }
            }
            let fi = build_item(it, opts, cards, now);
            let ghost before = out@.map_values(|x: FeedItem| x@);
            out.push(fi);
            assert(out@.map_values(|x: FeedItem| x@) =~= before.push(fi@));
        } else {
            assert(dyn_items(items@.take(i + 1), opts, cards@, now@) =~= dyn_items(
                items@.take(i as int),
                opts,
                cards@,
                now@,
            ));
        }
        i = i + 1;
    }
    assert(items@.take(items.len() as int) == items@);
    let mut title = author.clone();
    push_str(&mut title, " 的 bilibili 动态");
    let mut link = cat("https://space.bilibili.com/", uid.as_str());
    push_str(&mut link, "/dynamic");
    let description = title.clone();
    let f = Feed { title, link, description, pub_date: None, items: out };
    Ok(f)
}

/// The live-room texts in an answer that need parsing as JSON: for each
/// item, the one in its own `major` part and the one in the reposted post's.
pub open spec fn card_texts(items: Seq<Json>) -> Seq<Seq<char>>
    decreases items.len(),
{
    if items.len() == 0 {
        seq![]
    } else {
        let it = items.last();
        card_texts(items.drop_last()) + match live_card_text(ptr_or_null(it, "/modules"@)) {
            Some(t) => seq![t],
            None => seq![],
        } + match origin_of(it) {
            Some(o) => match live_card_text(o) {
                Some(t) => seq![t],
                None => seq![],
            },
            None => seq![],
        }
    }
}

/// The live-room text of a post's modules.
pub open spec fn live_card_text(modules: Json) -> Option<Seq<char>> {
    match major_of(modules) {
        Some(m) => ptr_str(m, "/live_rcmd/content"@),
        None => None,
    }
}

fn push_card_text(out: &mut Vec<String>, modules: &Json)
    ensures
        views(final(out)@) == views(old(out)@) + match live_card_text(*modules) {
            Some(t) => seq![t],
            None => seq![],
        },
{
    let ghost before = views(out@);
    match major(modules) {
        Some(m) => match m.ptr_text("/live_rcmd/content") {
            Some(t) => {
                out.push(t.clone());
                assert(views(out@) =~= before.push(t@));
            },
            None => {
                assert(before + Seq::<Seq<char>>::empty() =~= before);
            },
        },
        None => {
            assert(before + Seq::<Seq<char>>::empty() =~= before);
        },
    }
}

/// The texts the caller must parse for [`build_feed`] (see [`card_texts`]).
pub fn embedded_texts(json: &Json) -> (r: Vec<String>)
    ensures
        views(r@) == match crate::json::ptr_array(*json, "/data/items"@) {
            Some(items) => card_texts(items),
            None => seq![],
        },
{
    let mut out: Vec<String> = Vec::new();
    assert(views(out@) =~= Seq::<Seq<char>>::empty());
    let items = match json.ptr_array("/data/items") {
        Some(a) => a,
        None => {
            return out;
        },
    };
    let mut i: usize = 0;
    while i < items.len()
        invariant
            i <= items.len(),
            views(out@) == card_texts(items@.take(i as int)),
        decreases items.len() - i,
    {
        let it = &items[i];
        assert(items@.take(i + 1).drop_last() == items@.take(i as int));
        assert(items@.take(i + 1).last() == items@[i as int]);
        let null = Json::Null;
        let modules = match it.pointer("/modules") {
            Some(m) => m,
            None => &null,
        };
        push_card_text(&mut out, modules);
        let ghost mid = views(out@);
        match it.pointer("/orig/modules") {
            Some(o) => push_card_text(&mut out, o),
            None => {
                assert(mid + Seq::<Seq<char>>::empty() =~= mid);
            },
        }
        i = i + 1;
    }
    assert(items@.take(items.len() as int) == items@);
    out
}

/// Law: without `directLink`, or where neither the post nor the post it
/// reposts carries a link of its own, an item links to the post's page:
/// `https://t.bilibili.com/` followed by the post's `/id_str` (nothing where
/// the post has no such string); the feed item shows that link.
pub proof fn law_item_links_post(
    item: Json,
    opts: DynOptions,
    cards: Seq<(String, Option<Json>)>,
    now: Seq<char>,
)
    ensures
        ({
            let page = match crate::json::json_pointer(item, "/id_str"@) {
                Some(Json::Str(id)) => "https://t.bilibili.com/"@ + id@,
                _ => seq![],
            };
            (!opts.direct_link || (dyn_url(item, opts.use_avid, cards) is None && match origin_of(item) {
                Some(o) => dyn_url(o, opts.use_avid, cards) is None,
                None => true,
            })) ==> item_link(item, opts, cards) == page && dyn_item(item, opts, cards, now).link
                == Some(trim_char(page, '"'))
        }),
{
    reveal(item_link);
}

/// Law: a post's item is written by the `/module_author/name` of the post's
/// `/modules` and dated by their `/module_author/pub_ts`, `now` where that
/// is missing.
pub proof fn law_item_author_date(
    item: Json,
    opts: DynOptions,
    cards: Seq<(String, Option<Json>)>,
    now: Seq<char>,
)
    ensures
        ({
            let it = dyn_item(item, opts, cards, now);
            let modules = crate::json::ptr_or_null(item, "/modules"@);
            let name = match crate::json::json_pointer(modules, "/module_author/name"@) {
                Some(Json::Str(n)) => n@,
                _ => seq![],
            };
            &&& it.author == Some(trim_char(name, '"'))
            &&& match crate::json::json_pointer(modules, "/module_author/pub_ts"@) {
                Some(Json::Number(crate::json::JsonNumber::PosInt(t))) => t <= i64::MAX ==> it.pub_date
                    == Some(or_else(ts_rfc2822(t as i64), now)),
                None => it.pub_date == Some(now),
                _ => true,
            }
        }),
{
}

} // verus!
