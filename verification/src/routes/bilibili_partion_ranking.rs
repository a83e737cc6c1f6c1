//! `/bilibili_partion_ranking`: the hottest videos of a bilibili section
//! over the last days, or its newest videos when there are no hot ones.
use crate::dates::{chrono_ymd_at, clock_seconds, local_offset_at, now_millis, or_else, timestamp_to_rss, ts_rfc2822, ymd_at};
use crate::easyuser::{pair_views, param, Params};
use crate::feed::{Feed, FeedItem, FeedItemView, FeedView};
use crate::json::{
    json_as_i64, json_as_str, json_index, parse_i64, ptr_array, spec_parse_i64, Json,
};
use crate::request_rules::RouteError;
use crate::routes::{item_views, player, player_exec, Fetch};
use crate::text::{cat, dec_int, i64_to_string, push_str, str_eq};
use vstd::prelude::*;

verus! {

/// The name of a section (`tid_to_name`).
pub open spec fn tid_name(tid: Seq<char>) -> Seq<char> {
    if tid == "0"@ {
        "全部"@
    } else if tid == "1"@ {
        "动画"@
    } else if tid == "13"@ {
        "番剧"@
    } else if tid == "167"@ {
        "国创"@
    } else if tid == "3"@ {
        "音乐"@
    } else if tid == "129"@ {
        "舞蹈"@
    } else if tid == "4"@ {
        "游戏"@
    } else if tid == "36"@ {
        "知识"@
    } else if tid == "188"@ {
        "科技"@
    } else if tid == "234"@ {
        "运动"@
    } else if tid == "223"@ {
        "汽车"@
    } else if tid == "160"@ {
        "生活"@
    } else if tid == "211"@ {
        "美食"@
    } else if tid == "217"@ {
        "动物圈"@
    } else if tid == "119"@ {
        "鬼畜"@
    } else if tid == "155"@ {
        "时尚"@
    } else if tid == "5"@ {
        "娱乐"@
    } else if tid == "181"@ {
        "影视"@
    } else if tid == "177"@ {
        "纪录片"@
    } else if tid == "23"@ {
        "电影"@
    } else if tid == "11"@ {
        "电视剧"@
    } else {
        "未知"@
    }
}

/// `tid_to_name`.
pub fn tid_to_name(tid: &str) -> (r: &'static str)
    ensures
        r@ == tid_name(tid@),
{
    if str_eq(tid, "0") { "全部" }
    else if str_eq(tid, "1") { "动画" }
    else if str_eq(tid, "13") { "番剧" }
    else if str_eq(tid, "167") { "国创" }
    else if str_eq(tid, "3") { "音乐" }
    else if str_eq(tid, "129") { "舞蹈" }
    else if str_eq(tid, "4") { "游戏" }
    else if str_eq(tid, "36") { "知识" }
    else if str_eq(tid, "188") { "科技" }
    else if str_eq(tid, "234") { "运动" }
    else if str_eq(tid, "223") { "汽车" }
    else if str_eq(tid, "160") { "生活" }
    else if str_eq(tid, "211") { "美食" }
    else if str_eq(tid, "217") { "动物圈" }
    else if str_eq(tid, "119") { "鬼畜" }
    else if str_eq(tid, "155") { "时尚" }
    else if str_eq(tid, "5") { "娱乐" }
    else if str_eq(tid, "181") { "影视" }
    else if str_eq(tid, "177") { "纪录片" }
    else if str_eq(tid, "23") { "电影" }
    else if str_eq(tid, "11") { "电视剧" }
    else { "未知" }
}

/// The days looked back: the `days` parameter as a number, else 7.
pub open spec fn spec_days(para: Map<Seq<char>, Seq<char>>) -> i64 {
    match param(para, "days"@) {
        Some(d) => match spec_parse_i64(d) {
            Some(n) => n,
            None => 7,
        },
        None => 7,
    }
}

/// The `days` parameter as a number, else 7.
pub fn days(para: &Params) -> (r: i64)
    ensures
        r == spec_days(para@),
{
    match para.get("days") {
        Some(d) => match parse_i64(d.as_str()) {
            Some(n) => n,
            None => 7,
        },
        None => 7,
    }
}

/// The section's hot list from `from` to `to` (both `%Y%m%d`), `ms` the
/// current time in milliseconds.
pub open spec fn hot_url(tid: Seq<char>, from: Seq<char>, to: Seq<char>, ms: i64) -> Seq<char> {
    "https://s.search.bilibili.com/cate/search?main_ver=v3&search_type=video&view_type=hot_rank&cate_id="@
        + tid + "&time_from="@ + from + "&time_to="@ + to + "&_="@ + dec_int(ms as int)
}

/// The section's newest videos, `ms` the current time in milliseconds.
pub open spec fn newlist_url(tid: Seq<char>, ms: i64) -> Seq<char> {
    "https://api.bilibili.com/x/web-interface/newlist?ps=15&rid="@ + tid + "&_="@ + dec_int(
        ms as int,
    )
}

/// The headers of both requests.
pub open spec fn headers() -> Seq<(Seq<char>, Seq<char>)> {
    seq![("Referer"@, "https://www.bilibili.com/"@)]
}

fn headers_exec() -> (r: Vec<(String, String)>)
    ensures
        pair_views(r@) == headers(),
{
    let mut h: Vec<(String, String)> = Vec::new();
    h.push(("Referer".to_owned(), "https://www.bilibili.com/".to_owned()));
    assert(pair_views(h@) =~= headers());
    h
}

/// The hot-list request for given dates and time (see [`hot_url`]).
pub fn hot_request_at(tid: &str, from: &str, to: &str, ms: i64) -> (r: Fetch)
    ensures
        r.url@ == hot_url(tid@, from@, to@, ms),
        pair_views(r.headers@) == headers(),
{
    let mut url = cat(
        "https://s.search.bilibili.com/cate/search?main_ver=v3&search_type=video&view_type=hot_rank&cate_id=",
        tid,
    );
    push_str(&mut url, "&time_from=");
    push_str(&mut url, from);
    push_str(&mut url, "&time_to=");
    push_str(&mut url, to);
    push_str(&mut url, "&_=");
    push_str(&mut url, i64_to_string(ms).as_str());
    Fetch { url, headers: headers_exec() }
}

/// The instant `days` days before `t` (Unix seconds); for zero or fewer
/// days `t` itself; nothing where the span or the instant leaves `i64`.
pub open spec fn window_start(t: i64, days: i64) -> Option<i64> {
    let d: int = if days > 0 { days as int } else { 0 };
    if d * 86400 > i64::MAX || t - d * 86400 < i64::MIN {
        None
    } else {
        Some((t - d * 86400) as i64)
    }
}

/// The dates (`%Y%m%d`) of the hot list's window at the instant `t`: from
/// the date `days` days before, at the offset `o_from` the local zone has
/// then, until the date of `t` at the offset `o_to` it has at `t`.
pub open spec fn window(t: i64, days: i64, o_from: i32, o_to: i32) -> Option<(Seq<char>, Seq<char>)> {
    match window_start(t, days) {
        Some(s) => match (ymd_at(s, o_from), ymd_at(t, o_to)) {
            (Some(a), Some(b)) => Some((a, b)),
            _ => None,
        },
        None => None,
    }
}

/// `url` is the hot list of `tid` over the window `w`, at `ms`.
pub open spec fn window_url_is(tid: Seq<char>, w: Option<(Seq<char>, Seq<char>)>, ms: i64, url: Seq<char>) -> bool {
    match w {
        Some(p) => url == hot_url(tid, p.0, p.1, ms),
        None => false,
    }
}

fn window_exec(t: i64, days: i64) -> (r: Option<(String, String)>)
    ensures
        match r {
            Some(w) => exists|o1: i32, o2: i32| #[trigger] window(t, days, o1, o2) == Some((w.0@, w.1@)),
            None => true,
        },
{
    let d: i64 = if days > 0 { days } else { 0 };
    if d > 106_751_991_167_300 {
        return None;
    }
    let back: i64 = d * 86400;
    if t < i64::MIN + back {
        return None;
    }
    let s: i64 = t - back;
    assert(window_start(t, days) == Some(s));
    let o1 = match local_offset_at(s) {
        Some(o) => o,
        None => return None,
    };
    let from = match chrono_ymd_at(s, o1) {
        Some(x) => x,
        None => return None,
    };
    let o2 = match local_offset_at(t) {
        Some(o) => o,
        None => return None,
    };
    let to = match chrono_ymd_at(t, o2) {
        Some(x) => x,
        None => return None,
    };
    assert(window(t, days, o1, o2) == Some((from@, to@)));
    Some((from, to))
}

/// The hot-list request: the section `tid` (required), from `days` days
/// ago (today for zero or fewer) until today, read from one clock reading
/// `t` and the local zone's offsets then, at the current time in
/// milliseconds. `Ok(None)` where chrono cannot represent the window's
/// start, on which the lookup panics.
pub fn hot_request(para: &Params) -> (r: Result<Option<Fetch>, RouteError>)
    ensures
        match r {
            Ok(Some(f)) => param(para@, "tid"@) is Some && (exists|t: i64, o1: i32, o2: i32, ms: i64|
                #[trigger] window_url_is(param(para@, "tid"@)->0, window(t, spec_days(para@), o1, o2), ms, f.url@))
                && pair_views(f.headers@) == headers(),
            Ok(None) => param(para@, "tid"@) is Some,
            Err(RouteError::Message(m)) => param(para@, "tid"@) is None && m@ == "缺少 tid 参数"@,
            Err(_) => false,
        },
{
    let tid = match para.get("tid") {
        Some(t) => t,
        None => {
            return Err(RouteError::msg("缺少 tid 参数"));
        },
    };
    let t = clock_seconds();
    let (from, to) = match window_exec(t, days(para)) {
        Some(w) => w,
        None => return Ok(None),
    };
    let ms = now_millis();
    let r = hot_request_at(tid.as_str(), from.as_str(), to.as_str(), ms);
    assert(param(para@, "tid"@)->0 == tid@);
    proof {
        let (o1, o2) = choose|o1: i32, o2: i32| #[trigger] window(t, spec_days(para@), o1, o2) == Some((from@, to@));
        assert(window(t, spec_days(para@), o1, o2) == Some((from@, to@)));
        assert(window_url_is(param(para@, "tid"@)->0, window(t, spec_days(para@), o1, o2), ms, r.url@));
        assert(exists|t: i64, o1: i32, o2: i32, ms: i64|
            #[trigger] window_url_is(param(para@, "tid"@)->0, window(t, spec_days(para@), o1, o2), ms, r.url@));
    }
    Ok(Some(r))
}

/// The newest-videos request at a given time (see [`newlist_url`]).
pub fn newlist_request_at(tid: &str, ms: i64) -> (r: Fetch)
    ensures
        r.url@ == newlist_url(tid@, ms),
        pair_views(r.headers@) == headers(),
{
    let mut url = cat("https://api.bilibili.com/x/web-interface/newlist?ps=15&rid=", tid);
    push_str(&mut url, "&_=");
    push_str(&mut url, i64_to_string(ms).as_str());
    Fetch { url, headers: headers_exec() }
}

/// The newest-videos request, at the current time.
pub fn newlist_request(para: &Params) -> (r: Result<Fetch, RouteError>)
    ensures
        match r {
            Ok(f) => param(para@, "tid"@) is Some && (exists|ms: i64|
                #[trigger] newlist_url(param(para@, "tid"@)->0, ms) == f.url@) && pair_views(f.headers@)
                == headers(),
            Err(RouteError::Message(m)) => param(para@, "tid"@) is None && m@ == "缺少 tid 参数"@,
            Err(_) => false,
        },
{
    let tid = match para.get("tid") {
        Some(t) => t,
        None => {
            return Err(RouteError::msg("缺少 tid 参数"));
        },
    };
    let ms = now_millis();
    let r = newlist_request_at(tid.as_str(), ms);
    assert(param(para@, "tid"@)->0 == tid@);
    assert(newlist_url(param(para@, "tid"@)->0, ms) == r.url@);
    Ok(r)
}

/// The hot videos in an answer (none where the list is missing).
pub open spec fn hot_list(hot: Json) -> Seq<Json> {
    match ptr_array(hot, "/result"@) {
        Some(a) => a,
        None => seq![],
    }
}

/// The newest videos in an answer (none where the list is missing).
pub open spec fn newest_list(newlist: Json) -> Seq<Json> {
    match ptr_array(newlist, "/data/archives"@) {
        Some(a) => a,
        None => seq![],
    }
}

/// Whether the newest videos are needed: the hot list is empty.
pub fn needs_newlist(hot: &Json) -> (r: bool)
    ensures
        r == (hot_list(*hot).len() == 0),
{
    match hot.ptr_array("/result") {
        Some(a) => a.len() == 0,
        None => true,
    }
}

/// A string member, or `default`.
pub open spec fn str_or(v: Json, key: Seq<char>, default: Seq<char>) -> Seq<char> {
    match json_as_str(json_index(v, key)) {
        Some(s) => s,
        None => default,
    }
}

/// An integer member, or 0.
pub open spec fn int_or_zero(v: Json, key: Seq<char>) -> i64 {
    match json_as_i64(json_index(v, key)) {
        Some(n) => n,
        None => 0,
    }
}

/// `build_item`: a video's item; with `embed` the description is the
/// player, the cover, the text and the tag.
#[verifier::opaque]
pub open spec fn video_view(
    title: Seq<char>,
    bvid: Seq<char>,
    aid: i64,
    pic: Seq<char>,
    desc: Seq<char>,
    tag: Seq<char>,
    pubdate: i64,
    author: Seq<char>,
    embed: bool,
    now: Seq<char>,
) -> FeedItemView {
    FeedItemView {
        title: Some(title),
        link: Some("https://www.bilibili.com/video/"@ + bvid),
        description: Some(
            if embed {
                player(dec_int(aid as int), bvid) + "<br><img src=\""@ + pic
                    + "\" referrerpolicy=\"no-referrer\"><br>"@ + desc + "<br>"@ + tag
            } else {
                seq![]
            },
        ),
        pub_date: Some(or_else(ts_rfc2822(pubdate), now)),
        author: Some(author),
        guid: None,
        categories: seq![],
    }
}

/// `build_item` (see [`video_view`]).
pub fn build_item(
    title: &str,
    bvid: &str,
    aid: i64,
    pic: &str,
    desc: &str,
    tag: &str,
    pubdate: i64,
    author: &str,
    embed: bool,
    now: &str,
) -> (r: FeedItem)
    ensures
        r@ == video_view(title@, bvid@, aid, pic@, desc@, tag@, pubdate, author@, embed, now@),
{
    proof {
        reveal(video_view);
    }
    let description = if embed {
        let mut d = player_exec(i64_to_string(aid).as_str(), bvid);
        push_str(&mut d, "<br><img src=\"");
        push_str(&mut d, pic);
        push_str(&mut d, "\" referrerpolicy=\"no-referrer\"><br>");
        push_str(&mut d, desc);
        push_str(&mut d, "<br>");
        push_str(&mut d, tag);
        d
    } else {
        String::new()
    };
    let r = FeedItem {
        title: Some(title.to_owned()),
        link: Some(cat("https://www.bilibili.com/video/", bvid)),
        description: Some(description),
        pub_date: Some(timestamp_to_rss(pubdate, now)),
        author: Some(author.to_owned()),
        guid: None,
        categories: Vec::new(),
    };
    assert(r@.categories =~= Seq::<Seq<char>>::empty());
    r
}

/// The item for an entry of the hot list.
pub open spec fn hot_item(v: Json, embed: bool, now: Seq<char>) -> FeedItemView {
    video_view(
        str_or(v, "title"@, seq![]),
        str_or(v, "bvid"@, seq![]),
        int_or_zero(v, "id"@),
        str_or(v, "pic"@, seq![]),
        str_or(v, "description"@, seq![]),
        str_or(v, "tag"@, seq![]),
        int_or_zero(v, "pubdate"@),
        str_or(v, "author"@, "未知"@),
        embed,
        now,
    )
}

/// The item for an entry of the newest videos.
pub open spec fn newest_item(v: Json, embed: bool, now: Seq<char>) -> FeedItemView {
    video_view(
        str_or(v, "title"@, seq![]),
        str_or(v, "bvid"@, seq![]),
        int_or_zero(v, "aid"@),
        str_or(v, "pic"@, seq![]),
        str_or(v, "desc"@, seq![]),
        seq![],
        int_or_zero(v, "pubdate"@),
        str_or(json_index(v, "owner"@), "name"@, "未知"@),
        embed,
        now,
    )
}

/// The feed: the hot videos, or the newest ones when there are no hot
/// ones; the player is embedded unless `disableembed` is `false` (sic).
pub open spec fn spec_feed(
    para: Map<Seq<char>, Seq<char>>,
    hot: Json,
    newlist: Json,
    now: Seq<char>,
) -> Result<FeedView, Seq<char>> {
    match param(para, "tid"@) {
        None => Err("缺少 tid 参数"@),
        Some(tid) => {
            let embed = param(para, "disableembed"@) != Some("false"@);
            let items = if hot_list(hot).len() > 0 {
                hot_list(hot).map_values(|v: Json| hot_item(v, embed, now))
            } else {
                newest_list(newlist).map_values(|v: Json| newest_item(v, embed, now))
            };
            Ok(
                FeedView {
                    title: "bilibili "@ + tid_name(tid) + " 最热视频"@,
                    link: "https://www.bilibili.com"@,
                    description: "bilibili "@ + tid_name(tid) + "分区 最热视频"@,
                    pub_date: None,
                    items,
                },
            )
        },
    }
}

fn str_or_exec(v: &Json, key: &str, default: &str) -> (r: String)
    ensures
        r@ == str_or(*v, key@, default@),
{
    match v.str_at(key) {
        Some(s) => s.clone(),
        None => default.to_owned(),
    }
}

fn int_or_zero_exec(v: &Json, key: &str) -> (r: i64)
    ensures
        r == int_or_zero(*v, key@),
{
    match v.i64_at(key) {
        Some(n) => n,
        None => 0,
    }
}

fn hot_item_exec(v: &Json, embed: bool, now: &str) -> (r: FeedItem)
    ensures
        r@ == hot_item(*v, embed, now@),
{
    proof {
        reveal_strlit("");
        assert(""@ =~= Seq::<char>::empty());
    }
    build_item(
        str_or_exec(v, "title", "").as_str(),
        str_or_exec(v, "bvid", "").as_str(),
        int_or_zero_exec(v, "id"),
        str_or_exec(v, "pic", "").as_str(),
        str_or_exec(v, "description", "").as_str(),
        str_or_exec(v, "tag", "").as_str(),
        int_or_zero_exec(v, "pubdate"),
        str_or_exec(v, "author", "未知").as_str(),
        embed,
        now,
    )
}

fn newest_item_exec(v: &Json, embed: bool, now: &str) -> (r: FeedItem)
    ensures
        r@ == newest_item(*v, embed, now@),
{
    proof {
        reveal_strlit("");
        assert(""@ =~= Seq::<char>::empty());
    }
    let null = Json::Null;
    let owner = match v.get("owner") {
        Some(o) => o,
        None => &null,
    };
    build_item(
        str_or_exec(v, "title", "").as_str(),
        str_or_exec(v, "bvid", "").as_str(),
        int_or_zero_exec(v, "aid"),
        str_or_exec(v, "pic", "").as_str(),
        str_or_exec(v, "desc", "").as_str(),
        "",
        int_or_zero_exec(v, "pubdate"),
        str_or_exec(owner, "name", "未知").as_str(),
        embed,
        now,
    )
}

/// `get`, after the fetches: the feed from the hot list, or, when it is
/// empty, from the newest videos (`newlist`, the answer to
/// [`newlist_request`]; `null` when it was not fetched).
#[verifier::loop_isolation(false)]
pub fn build_feed(para: &Params, hot: &Json, newlist: &Json, now: &str) -> (r: Result<
    Feed,
    RouteError,
>)
    ensures
        crate::routes::feed_result_is(r, spec_feed(para@, *hot, *newlist, now@)),
{
    let tid = match para.get("tid") {
        Some(t) => t,
        None => {
            return Err(RouteError::msg("缺少 tid 参数"));
        },
    };
    let embed = match para.get("disableembed") {
        Some(s) => !str_eq(s.as_str(), "false"),
        None => true,
    };
    let mut items: Vec<FeedItem> = Vec::new();
    let use_hot = !needs_newlist(hot);
    let empty: Vec<Json> = Vec::new();
    let list: &Vec<Json> = if use_hot {
        match hot.ptr_array("/result") {
            Some(a) => a,
            None => &empty,
        }
    } else {
        match newlist.ptr_array("/data/archives") {
            Some(a) => a,
            None => &empty,
        }
    };
    let ghost want = if use_hot {
        hot_list(*hot).map_values(|v: Json| hot_item(v, embed, now@))
    } else {
        newest_list(*newlist).map_values(|v: Json| newest_item(v, embed, now@))
    };
    assert(list@ == (if use_hot {
        hot_list(*hot)
    } else {
        newest_list(*newlist)
    }));
    let mut i: usize = 0;
    assert(item_views(items@) =~= want.take(0));
    while i < list.len()
        invariant
            i <= list.len(),
            want.len() == list@.len(),
            list@ == (if use_hot {
                hot_list(*hot)
            } else {
                newest_list(*newlist)
            }),
            item_views(items@) == want.take(i as int),
        decreases list.len() - i,
    {
        let v = &list[i];
        let it = if use_hot {
            hot_item_exec(v, embed, now)
        } else {
            newest_item_exec(v, embed, now)
        };
        assert(want[i as int] == it@);
        let ghost before = item_views(items@);
        items.push(it);
        assert(item_views(items@) =~= before.push(it@));
        assert(want.take(i + 1) =~= want.take(i as int).push(want[i as int]));
        i = i + 1;
    }
    assert(want.take(list.len() as int) == want);
    let name = tid_to_name(tid.as_str());
    let mut title = cat("bilibili ", name);
    push_str(&mut title, " 最热视频");
    let mut description = cat("bilibili ", name);
    push_str(&mut description, "分区 最热视频");
    Ok(
        Feed {
            title,
            link: "https://www.bilibili.com".to_owned(),
            description,
            pub_date: None,
            items,
        },
    )
}

/// Law: a video of either list links to the page of its `bvid`, is titled
/// by its `title` and dated by its `pubdate`; a hot video is written by its
/// `author`, a newest one by its owner's `name` (`未知` where missing).
pub proof fn law_ranking_links(v: Json, embed: bool, now: Seq<char>)
    ensures
        hot_item(v, embed, now).link == Some("https://www.bilibili.com/video/"@ + crate::routes::member_str(v, "bvid"@)),
        newest_item(v, embed, now).link == Some("https://www.bilibili.com/video/"@ + crate::routes::member_str(v, "bvid"@)),
        hot_item(v, embed, now).title == Some(crate::routes::member_str(v, "title"@)),
        newest_item(v, embed, now).title == Some(crate::routes::member_str(v, "title"@)),
        hot_item(v, embed, now).author == Some(
            match crate::json::json_index(v, "author"@) {
                Json::Str(a) => a@,
                _ => "未知"@,
            },
        ),
        newest_item(v, embed, now).author == Some(
            match crate::json::json_index(crate::json::json_index(v, "owner"@), "name"@) {
                Json::Str(a) => a@,
                _ => "未知"@,
            },
        ),
        hot_item(v, embed, now).pub_date == Some(or_else(ts_rfc2822(int_or_zero(v, "pubdate"@)), now)),
        newest_item(v, embed, now).pub_date == Some(or_else(ts_rfc2822(int_or_zero(v, "pubdate"@)), now)),
{
    reveal(video_view);
}

} // verus!
