//! `/bilibili_audio_rank`: the latest issue of a bilibili music chart. The
//! list of issues is asked first; the newest issue's songs second.
use crate::dates::{or_else, timestamp_to_rss, ts_rfc2822};
use crate::easyuser::{no_double_quotes, param, Params};
use crate::feed::{Feed, FeedItem, FeedItemView, FeedView};
use crate::json::{json_as_array, parse_i64, ptr_array, spec_parse_i64, Json};
use crate::request_rules::RouteError;
use crate::routes::bilibili_video::{int_of, int_of_exec};
use crate::routes::{code_error, code_error_exec, member_str, member_str_exec, plain_get, Fetch};
use crate::text::{cat, dec, dec_int, i64_to_string, is_empty, push_str, str_eq, trim_char, u64_to_string};
use vstd::prelude::*;

verus! {

/// The chart: parameter `list_type` where it is non-empty, else `1`.
pub open spec fn list_type(para: Map<Seq<char>, Seq<char>>) -> Seq<char> {
    match param(para, "list_type"@) {
        Some(t) => if t.len() > 0 {
            t
        } else {
            "1"@
        },
        None => "1"@,
    }
}

/// The address of the chart's list of issues.
pub open spec fn periods_url(para: Map<Seq<char>, Seq<char>>) -> Seq<char> {
    "https://api.bilibili.com/x/copyright-music-publicity/toplist/all_period?list_type="@ + list_type(
        para,
    )
}

fn list_type_exec(para: &Params) -> (r: String)
    ensures
        r@ == list_type(para@),
{
    match para.get("list_type") {
        Some(t) => if !is_empty(t.as_str()) {
            t.clone()
        } else {
            "1".to_owned()
        },
        None => "1".to_owned(),
    }
}

/// The request for the chart's issues.
pub fn periods_request(para: &Params) -> (r: Fetch)
    ensures
        r.url@ == periods_url(para@),
        r.headers@.len() == 0,
{
    plain_get(cat(
        "https://api.bilibili.com/x/copyright-music-publicity/toplist/all_period?list_type=",
        list_type_exec(para).as_str(),
    ))
}

/// The newest issue seen so far: its id, number and publication time, and
/// the year it was listed under.
#[derive(Debug)]
pub struct Latest {
    pub id: i64,
    pub priod: i64,
    pub time: i64,
    pub year: i32,
}

/// One issue looked at under year `y`: it becomes the newest when its year
/// is later or its time is later than the newest so far.
pub open spec fn step(st: (i64, i64, i64, i32), y: i32, p: Json) -> (i64, i64, i64, i32) {
    let t = int_of(p, "publish_time"@);
    if y > st.3 || t > st.2 {
        (int_of(p, "ID"@), int_of(p, "priod"@), t, y)
    } else {
        st
    }
}

/// The issues of one year looked at in order.
pub open spec fn scan_issues(st: (i64, i64, i64, i32), y: i32, ps: Seq<Json>) -> (i64, i64, i64, i32)
    decreases ps.len(),
{
    if ps.len() == 0 {
        st
    } else {
        step(scan_issues(st, y, ps.drop_last()), y, ps.last())
    }
}

/// A year key read as an `i32`.
pub open spec fn year_of(key: Seq<char>) -> Option<i32> {
    match spec_parse_i64(key) {
        Some(v) => if i32::MIN <= v <= i32::MAX {
            Some(v as i32)
        } else {
            None
        },
        None => None,
    }
}

/// The years looked at in order: keys that are not years, and values that
/// are not arrays, are passed over.
pub open spec fn scan_years(st: (i64, i64, i64, i32), ms: Seq<(String, Json)>) -> (i64, i64, i64, i32)
    decreases ms.len(),
{
    if ms.len() == 0 {
        st
    } else {
        let before = scan_years(st, ms.drop_last());
        match (year_of(ms.last().0@), json_as_array(ms.last().1)) {
            (Some(y), Some(ps)) => scan_issues(before, y, ps),
            _ => before,
        }
    }
}

/// The newest issue of the answer, or the failure.
pub open spec fn spec_latest(json: Json) -> Result<(i64, i64, i64, i32), Seq<char>> {
    match code_error(json) {
        Some(e) => Err(e),
        None => match crate::json::json_pointer(json, "/data/list"@) {
            Some(Json::Object(ms)) => {
                let st = scan_years((0i64, 0i64, 0i64, -1i32), ms@);
                if st.0 == 0 {
                    Err("找不到音频榜单期数"@)
                } else {
                    Ok(st)
                }
            },
            _ => Err("找不到 data.list 字段或不是对象"@),
        },
    }
}

fn year_exec(key: &str) -> (r: Option<i32>)
    ensures
        r == year_of(key@),
{
    match parse_i64(key) {
        Some(v) => if -2147483648 <= v && v <= 2147483647 {
            Some(v as i32)
        } else {
            None
        },
        None => None,
    }
}

/// The newest issue of the chart (see [`spec_latest`]).
pub fn latest(json: &Json) -> (r: Result<Latest, RouteError>)
    ensures
        match r {
            Ok(l) => spec_latest(*json) == Ok::<_, Seq<char>>((l.id, l.priod, l.time, l.year)),
            Err(RouteError::Message(m)) => spec_latest(*json) == Err::<(i64, i64, i64, i32), _>(m@),
            Err(_) => false,
        },
{
    match code_error_exec(json) {
        Some(e) => return Err(RouteError::Message(e)),
        None => {},
    }
    let ms = match json.pointer("/data/list") {
        Some(Json::Object(ms)) => ms,
        _ => return Err(RouteError::msg("找不到 data.list 字段或不是对象")),
    };
    let mut st: (i64, i64, i64, i32) = (0, 0, 0, -1);
    let mut i: usize = 0;
    while i < ms.len()
        invariant
            i <= ms.len(),
            st == scan_years((0i64, 0i64, 0i64, -1i32), ms@.take(i as int)),
        decreases ms.len() - i,
    {
        assert(ms@.take(i + 1).drop_last() =~= ms@.take(i as int));
        assert(ms@.take(i + 1).last() == ms@[i as int]);
        let y = year_exec(ms[i].0.as_str());
        let arr = ms[i].1.as_array();
        match (y, arr) {
            (Some(y), Some(ps)) => {
                let ghost before = st;
                let mut k: usize = 0;
                while k < ps.len()
                    invariant
                        k <= ps.len(),
                        st == scan_issues(before, y, ps@.take(k as int)),
                    decreases ps.len() - k,
                {
                    assert(ps@.take(k + 1).drop_last() =~= ps@.take(k as int));
                    assert(ps@.take(k + 1).last() == ps@[k as int]);
                    let t = int_of_exec(&ps[k], "publish_time");
                    if y > st.3 || t > st.2 {
                        st = (int_of_exec(&ps[k], "ID"), int_of_exec(&ps[k], "priod"), t, y);
                    }
                    k = k + 1;
                }
                assert(ps@.take(ps.len() as int) =~= ps@);
            },
            _ => {},
        }
        i = i + 1;
    }
    assert(ms@.take(ms.len() as int) =~= ms@);
    if st.0 == 0 {
        return Err(RouteError::msg("找不到音频榜单期数"));
    }
    Ok(Latest { id: st.0, priod: st.1, time: st.2, year: st.3 })
}

/// The address of an issue's songs.
pub open spec fn songs_url(id: i64) -> Seq<char> {
    "https://api.bilibili.com/x/copyright-music-publicity/toplist/music_list?list_id="@ + dec_int(
        id as int,
    )
}

/// The request for an issue's songs.
pub fn songs_request(l: &Latest) -> (r: Fetch)
    ensures
        r.url@ == songs_url(l.id),
        r.headers@.len() == 0,
{
    plain_get(cat(
        "https://api.bilibili.com/x/copyright-music-publicity/toplist/music_list?list_id=",
        i64_to_string(l.id).as_str(),
    ))
}

/// The chart's name.
pub open spec fn rank_name(lt: Seq<char>) -> Seq<char> {
    if lt == "2"@ {
        "原创榜"@
    } else {
        "热榜"@
    }
}

/// A video's page.
pub open spec fn video_page(bvid: Seq<char>) -> Seq<char> {
    "https://www.bilibili.com/video/"@ + bvid
}

/// The chart page of an issue.
pub open spec fn issue_page(id: i64) -> Seq<char> {
    "https://music.bilibili.com/pc/rank?list_id="@ + dec_int(id as int)
}

/// The item of one song: title `#rank title - singer`, the song's video (or
/// the video made with it, or the chart), and a description with the
/// cover, singer, album, heat, whether it can be heard, and the video made
/// with it.
pub open spec fn song_item(song: Json, l: (i64, i64, i64, i32), now: Seq<char>) -> FeedItemView {
    let mv = member_str(song, "mv_bvid"@);
    let cb = member_str(song, "creation_bvid"@);
    let singer = member_str(song, "singer"@);
    let creation = if cb.len() == 0 {
        seq![]
    } else {
        "<br>关联视频: <a href=\"https://www.bilibili.com/video/"@ + cb + "\">"@ + member_str(
            song,
            "creation_title"@,
        ) + "</a>（"@ + member_str(song, "creation_nickname"@) + "）"@
    };
    FeedItemView {
        title: Some(
            trim_char(
                "#"@ + dec_int(int_of(song, "rank"@) as int) + " "@ + member_str(song, "music_title"@)
                    + " - "@ + singer,
                '"',
            ),
        ),
        link: Some(
            if mv.len() > 0 {
                video_page(mv)
            } else if cb.len() > 0 {
                video_page(cb)
            } else {
                issue_page(l.0)
            },
        ),
        description: Some(
            "<img src=\""@ + member_str(song, "creation_cover"@)
                + "\" referrerpolicy=\"no-referrer\"><br>歌手: "@ + singer + "<br>专辑: "@
                + member_str(song, "album"@) + "<br>热度: "@ + dec_int(int_of(song, "heat"@) as int)
                + "<br>可听: "@ + (if crate::json::json_as_bool(crate::json::json_index(song, "can_listen"@))
                == Some(true) {
                "是"@
            } else {
                "否"@
            }) + creation,
        ),
        pub_date: Some(or_else(ts_rfc2822(l.2), now)),
        author: Some(singer),
        guid: None,
        categories: seq![],
    }
}

/// The feed of the issue's songs, or the failure.
pub open spec fn spec_feed(para: Map<Seq<char>, Seq<char>>, l: (i64, i64, i64, i32), json: Json, now: Seq<char>) -> Result<
    FeedView,
    Seq<char>,
> {
    match code_error(json) {
        Some(e) => Err(e),
        None => match ptr_array(json, "/data/list"@) {
            None => Err("找不到 data.list 字段或不是数组"@),
            Some(list) => {
                let name = rank_name(list_type(para));
                Ok(
                    FeedView {
                        title: "B站音频"@ + name + " - 第"@ + dec_int(l.1 as int) + "期"@,
                        link: issue_page(l.0),
                        description: "B站音频"@ + name + "最新一期榜单（共"@ + dec(list.len()) + "首）"@,
                        pub_date: None,
                        items: list.map_values(|s: Json| song_item(s, l, now)),
                    },
                )
            },
        },
    }
}

fn song_item_exec(song: &Json, l: &Latest, now: &str) -> (r: FeedItem)
    ensures
        r@ == song_item(*song, (l.id, l.priod, l.time, l.year), now@),
{
    let mv = member_str_exec(song, "mv_bvid");
    let cb = member_str_exec(song, "creation_bvid");
    let singer = member_str_exec(song, "singer");
    let mut creation = String::new();
    if !is_empty(cb.as_str()) {
        push_str(&mut creation, "<br>关联视频: <a href=\"https://www.bilibili.com/video/");
        push_str(&mut creation, cb.as_str());
        push_str(&mut creation, "\">");
        push_str(&mut creation, member_str_exec(song, "creation_title").as_str());
        push_str(&mut creation, "</a>（");
        push_str(&mut creation, member_str_exec(song, "creation_nickname").as_str());
        push_str(&mut creation, "）");
    }
    let mut title = cat("#", i64_to_string(int_of_exec(song, "rank")).as_str());
    push_str(&mut title, " ");
    push_str(&mut title, member_str_exec(song, "music_title").as_str());
    push_str(&mut title, " - ");
    push_str(&mut title, singer.as_str());
    let link = if !is_empty(mv.as_str()) {
        cat("https://www.bilibili.com/video/", mv.as_str())
    } else if !is_empty(cb.as_str()) {
        cat("https://www.bilibili.com/video/", cb.as_str())
    } else {
        cat("https://music.bilibili.com/pc/rank?list_id=", i64_to_string(l.id).as_str())
    };
    let mut d = cat("<img src=\"", member_str_exec(song, "creation_cover").as_str());
    push_str(&mut d, "\" referrerpolicy=\"no-referrer\"><br>歌手: ");
    push_str(&mut d, singer.as_str());
    push_str(&mut d, "<br>专辑: ");
    push_str(&mut d, member_str_exec(song, "album").as_str());
    push_str(&mut d, "<br>热度: ");
    push_str(&mut d, i64_to_string(int_of_exec(song, "heat")).as_str());
    push_str(&mut d, "<br>可听: ");
    let listen = match song.bool_at("can_listen") {
        Some(b) => b,
        None => false,
    };
    push_str(&mut d, if listen { "是" } else { "否" });
    push_str(&mut d, creation.as_str());
    let r = FeedItem {
        title: Some(no_double_quotes(title)),
        link: Some(link),
        description: Some(d),
        pub_date: Some(timestamp_to_rss(l.time, now)),
        author: Some(singer),
        guid: None,
        categories: Vec::new(),
    };
    assert(r@.categories =~= Seq::<Seq<char>>::empty());
    r
}

/// The feed of the issue's songs (see [`spec_feed`]).
pub fn build_feed(para: &Params, l: &Latest, json: &Json, now: &str) -> (r: Result<Feed, RouteError>)
    ensures
        match r {
            Ok(f) => spec_feed(para@, (l.id, l.priod, l.time, l.year), *json, now@) == Ok::<_, Seq<char>>(f@),
            Err(RouteError::Message(m)) => spec_feed(para@, (l.id, l.priod, l.time, l.year), *json, now@)
                == Err::<FeedView, _>(m@),
            Err(_) => false,
        },
{
    match code_error_exec(json) {
        Some(e) => return Err(RouteError::Message(e)),
        None => {},
    }
    let list = match json.ptr_array("/data/list") {
        Some(v) => v,
        None => return Err(RouteError::msg("找不到 data.list 字段或不是数组")),
    };
    let ghost lv = (l.id, l.priod, l.time, l.year);
    let mut items: Vec<FeedItem> = Vec::new();
    let mut i: usize = 0;
    while i < list.len()
        invariant
            i <= list.len(),
            items.len() == i,
            lv == (l.id, l.priod, l.time, l.year),
            forall|j: int| 0 <= j < i ==> #[trigger] items@[j]@ == song_item(list@[j], lv, now@),
        decreases list.len() - i,
    {
        items.push(song_item_exec(&list[i], l, now));
        i = i + 1;
    }
    let lt = list_type_exec(para);
    let name = if str_eq(lt.as_str(), "2") { "原创榜" } else { "热榜" };
    let mut title = cat("B站音频", name);
    push_str(&mut title, " - 第");
    push_str(&mut title, i64_to_string(l.priod).as_str());
    push_str(&mut title, "期");
    let mut desc = cat("B站音频", name);
    push_str(&mut desc, "最新一期榜单（共");
    push_str(&mut desc, u64_to_string(list.len() as u64).as_str());
    push_str(&mut desc, "首）");
    let f = Feed {
        title,
        link: cat("https://music.bilibili.com/pc/rank?list_id=", i64_to_string(l.id).as_str()),
        description: desc,
        pub_date: None,
        items,
    };
    assert(f@.items =~= list@.map_values(|s: Json| song_item(s, lv, now@)));
    Ok(f)
}

/// Law: a song links to the video of its `mv_bvid`, else of its
/// `creation_bvid`, else to the chart of its issue; it is written by its
/// `singer` and dated by the issue's publication time.
pub proof fn law_song_link(song: Json, l: (i64, i64, i64, i32), now: Seq<char>)
    ensures
        ({
            let mv = crate::routes::member_str(song, "mv_bvid"@);
            let cb = crate::routes::member_str(song, "creation_bvid"@);
            &&& song_item(song, l, now).link == Some(
                if mv.len() > 0 {
                    "https://www.bilibili.com/video/"@ + mv
                } else if cb.len() > 0 {
                    "https://www.bilibili.com/video/"@ + cb
                } else {
                    "https://music.bilibili.com/pc/rank?list_id="@ + crate::text::dec_int(l.0 as int)
                },
            )
            &&& song_item(song, l, now).author == Some(crate::routes::member_str(song, "singer"@))
            &&& song_item(song, l, now).pub_date == Some(or_else(ts_rfc2822(l.2), now))
        }),
{
}

/// Law: a song is titled by its `rank`, `music_title` and `singer`.
pub proof fn law_song_title(song: Json, l: (i64, i64, i64, i32), now: Seq<char>)
    ensures
        song_item(song, l, now).title == Some(
            crate::text::trim_char(
                "#"@ + crate::text::dec_int(crate::routes::bilibili_video::int_of(song, "rank"@) as int) + " "@ + crate::routes::member_str(song, "music_title"@) + " - "@ + crate::routes::member_str(
                    song,
                    "singer"@,
                ),
                '"',
            ),
        ),
{
}

} // verus!
