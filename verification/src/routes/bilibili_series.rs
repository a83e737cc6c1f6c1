//! `/bilibili_series`: the videos of a bilibili series. The series is
//! fetched first, then each of its recent videos in turn.
use crate::dates::{or_else, timestamp_to_rss, ts_rfc2822};
use crate::easyuser::{no_double_quotes, param, Params};
use crate::feed::{Feed, FeedItem, FeedItemView, FeedView};
use crate::json::{
    json_as_i64, json_as_str, json_as_u64, json_index, json_pointer, json_text, json_to_string, Json,
};
use crate::request_rules::RouteError;
use crate::routes::bilibili_video::spec_embed;
use crate::routes::{member_str, player, player_exec};
use crate::text::{cat, dec, push_str, trim_char, u64_to_string};
use vstd::prelude::*;

verus! {

/// The address of the series `series_id` (required).
pub open spec fn spec_series_url(para: Map<Seq<char>, Seq<char>>) -> Result<Seq<char>, Seq<char>> {
    match param(para, "series_id"@) {
        None => Err("缺少 series_id 参数"@),
        Some(id) => Ok("https://api.bilibili.com/x/series/series?series_id="@ + id),
    }
}

/// The address of the series (see [`spec_series_url`]).
pub fn series_url(para: &Params) -> (r: Result<String, RouteError>)
    ensures
        match r {
            Ok(u) => spec_series_url(para@) == Ok::<Seq<char>, Seq<char>>(u@),
            Err(RouteError::Message(m)) => spec_series_url(para@) == Err::<Seq<char>, Seq<char>>(m@),
            Err(_) => false,
        },
{
    match para.get("series_id") {
        Some(id) => Ok(cat("https://api.bilibili.com/x/series/series?series_id=", id.as_str())),
        None => Err(RouteError::msg("缺少 series_id 参数")),
    }
}

/// The videos of a series: the numbers in `recent_aids`, or why they
/// cannot be read (no `meta`, no list, or an entry that is not a number,
/// the first such entry counting).
pub open spec fn spec_aids(series: Json) -> Result<Seq<u64>, Seq<char>> {
    if json_pointer(series, "/data/meta"@) is None {
        Err("找不到 data.meta 字段"@)
    } else {
        match crate::json::ptr_array(series, "/data/recent_aids"@) {
            None => Err("找不到 data.recent_aids 字段或不是数组"@),
            Some(list) => if forall|i: int| 0 <= i < list.len() ==> json_as_u64(#[trigger] list[i]) is Some {
                Ok(list.map_values(|v: Json| json_as_u64(v)->0))
            } else {
                Err("aid 不是数字"@)
            },
        }
    }
}

/// The numbers of the series' videos (see [`spec_aids`]). The caller
/// fetches each video in turn, in the order given here.
#[verifier::loop_isolation(false)]
pub fn aids(series: &Json) -> (r: Result<Vec<u64>, RouteError>)
    ensures
        match r {
            Ok(v) => spec_aids(*series) == Ok::<Seq<u64>, Seq<char>>(v@),
            Err(RouteError::Message(m)) => spec_aids(*series) == Err::<Seq<u64>, Seq<char>>(m@),
            Err(_) => false,
        },
{
    if series.pointer("/data/meta").is_none() {
        return Err(RouteError::msg("找不到 data.meta 字段"));
    }
    let list = match series.ptr_array("/data/recent_aids") {
        Some(a) => a,
        None => {
            return Err(RouteError::msg("找不到 data.recent_aids 字段或不是数组"));
        },
    };
    let mut out: Vec<u64> = Vec::new();
    let mut i: usize = 0;
    while i < list.len()
        invariant
            i <= list.len(),
            out@.len() == i,
            forall|k: int| 0 <= k < i ==> json_as_u64(#[trigger] list@[k]) == Some(out@[k]),
        decreases list.len() - i,
    {
        match list[i].as_u64() {
            Some(a) => out.push(a),
            None => {
                assert(json_as_u64(list@[i as int]) is None);
                return Err(RouteError::msg("aid 不是数字"));
            },
        }
        i = i + 1;
    }
    assert(out@ =~= list@.map_values(|v: Json| json_as_u64(v)->0));
    Ok(out)
}

/// The address of one video.
pub fn view_url(aid: u64) -> (r: String)
    ensures
        r@ == "https://api.bilibili.com/x/web-interface/view?aid="@ + dec(aid as nat),
{
    cat("https://api.bilibili.com/x/web-interface/view?aid=", u64_to_string(aid).as_str())
}

/// The item for video `aid` from its answer, or the message for the first
/// thing it lacks (`data`, `bvid`, `pic`, `pubdate`).
pub open spec fn spec_view_item(view: Json, aid: u64, embed: bool, now: Seq<char>) -> Result<
    FeedItemView,
    Seq<char>,
> {
    match json_pointer(view, "/data"@) {
        None => Err("接口返回没有 data 字段"@),
        Some(data) => match json_as_str(json_index(data, "bvid"@)) {
            None => Err("缺少 bvid 字段"@),
            Some(bvid) => match json_as_str(json_index(data, "pic"@)) {
                None => Err("缺少 pic 字段"@),
                Some(pic) => match json_as_i64(json_index(data, "pubdate"@)) {
                    None => Err("缺少 pubdate 字段"@),
                    Some(pubdate) => Ok(
                        FeedItemView {
                            title: Some(trim_char(json_text(json_index(data, "title"@)), '"')),
                            link: Some("https://www.bilibili.com/video/"@ + bvid),
                            description: Some(
                                if embed {
                                    player(dec(aid as nat), bvid) + "<br><img src=\""@ + pic
                                        + "\" referrerpolicy=\"no-referrer\"><br>"@ + member_str(
                                        data,
                                        "desc"@,
                                    )
                                } else {
                                    seq![]
                                },
                            ),
                            pub_date: Some(or_else(ts_rfc2822(pubdate), now)),
                            author: Some(
                                match json_as_str(json_index(json_index(data, "owner"@), "name"@)) {
                                    Some(a) => a,
                                    None => "未知"@,
                                },
                            ),
                            guid: None,
                            categories: seq![],
                        },
                    ),
                },
            },
        },
    }
}

/// The item for one video (see [`spec_view_item`]); the player is
/// embedded unless `disableembed` is `false` (sic).
pub fn view_item(para: &Params, view: &Json, aid: u64, now: &str) -> (r: Result<
    FeedItem,
    RouteError,
>)
    ensures
        match r {
            Ok(it) => spec_view_item(*view, aid, spec_embed(para@), now@) == Ok::<
                FeedItemView,
                Seq<char>,
            >(it@),
            Err(RouteError::Message(m)) => spec_view_item(*view, aid, spec_embed(para@), now@)
                == Err::<FeedItemView, Seq<char>>(m@),
            Err(_) => false,
        },
{
    let embed = crate::routes::bilibili_video::embed(para);
    let data = match view.pointer("/data") {
        Some(d) => d,
        None => {
            return Err(RouteError::msg("接口返回没有 data 字段"));
        },
    };
    let bvid = match data.str_at("bvid") {
        Some(b) => b,
        None => {
            return Err(RouteError::msg("缺少 bvid 字段"));
        },
    };
    let pic = match data.str_at("pic") {
        Some(p) => p,
        None => {
            return Err(RouteError::msg("缺少 pic 字段"));
        },
    };
    let pubdate = match data.i64_at("pubdate") {
        Some(p) => p,
        None => {
            return Err(RouteError::msg("缺少 pubdate 字段"));
        },
    };
    let description = if embed {
        let mut d = player_exec(u64_to_string(aid).as_str(), bvid.as_str());
        push_str(&mut d, "<br><img src=\"");
        push_str(&mut d, pic.as_str());
        push_str(&mut d, "\" referrerpolicy=\"no-referrer\"><br>");
        push_str(&mut d, crate::routes::member_str_exec(data, "desc").as_str());
        d
    } else {
        String::new()
    };
    let null = Json::Null;
    let owner = match data.get("owner") {
        Some(o) => o,
        None => &null,
    };
    let author = match owner.str_at("name") {
        Some(a) => a.clone(),
        None => "未知".to_owned(),
    };
    let title = match data.get("title") {
        Some(t) => json_to_string(t),
        None => "null".to_owned(),
    };
    let it = FeedItem {
        title: Some(no_double_quotes(title)),
        link: Some(cat("https://www.bilibili.com/video/", bvid.as_str())),
        description: Some(description),
        pub_date: Some(timestamp_to_rss(pubdate, now)),
        author: Some(author),
        guid: None,
        categories: Vec::new(),
    };
    assert(it@.categories =~= Seq::<Seq<char>>::empty());
    Ok(it)
}

/// The channel of a series, around its items: `B站` and the series' name,
/// a link to the owner's list, and the series' description.
pub open spec fn spec_series_feed(
    para: Map<Seq<char>, Seq<char>>,
    series: Json,
    items: Seq<FeedItemView>,
) -> FeedView {
    let meta = match json_pointer(series, "/data/meta"@) {
        Some(m) => m,
        None => Json::Null,
    };
    FeedView {
        title: "B站"@ + match json_as_str(json_index(meta, "name"@)) {
            Some(n) => n,
            None => "B站系列"@,
        },
        link: "https://space.bilibili.com/"@ + dec(
            match json_as_u64(json_index(meta, "mid"@)) {
                Some(m) => m as nat,
                None => 0,
            },
        ) + "/lists/"@ + match param(para, "series_id"@) {
            Some(id) => id,
            None => seq![],
        } + "?type=series"@,
        description: member_str(meta, "description"@),
        pub_date: None,
        items,
    }
}

/// `get`'s channel for the items built from the videos (see
/// [`spec_series_feed`]).
pub fn series_feed(para: &Params, series: &Json, items: Vec<FeedItem>) -> (r: Feed)
    ensures
        r@ == spec_series_feed(para@, *series, items@.map_values(|x: FeedItem| x@)),
{
    let null = Json::Null;
    let meta = match series.pointer("/data/meta") {
        Some(m) => m,
        None => &null,
    };
    let name = match meta.str_at("name") {
        Some(n) => n.clone(),
        None => "B站系列".to_owned(),
    };
    let mid: u64 = match meta.u64_at("mid") {
        Some(m) => m,
        None => 0,
    };
    let mut link = cat("https://space.bilibili.com/", u64_to_string(mid).as_str());
    push_str(&mut link, "/lists/");
    match para.get("series_id") {
        Some(id) => push_str(&mut link, id.as_str()),
        None => {},
    }
    push_str(&mut link, "?type=series");
    Feed {
        title: cat("B站", name.as_str()),
        link,
        description: crate::routes::member_str_exec(meta, "description"),
        pub_date: None,
        items,
    }
}

/// Law: a video's item, where one is made, links to the page of the
/// `bvid` in the answer's `data` and is dated by its `pubdate`.
pub proof fn law_view_item_link(view: Json, aid: u64, embed: bool, now: Seq<char>)
    ensures
        spec_view_item(view, aid, embed, now) matches Ok(it) ==> match json_pointer(view, "/data"@) {
            Some(data) => match (crate::json::json_index(data, "bvid"@), crate::json::json_as_i64(
                crate::json::json_index(data, "pubdate"@),
            )) {
                (Json::Str(b), Some(t)) => it.link == Some("https://www.bilibili.com/video/"@ + b@)
                    && it.pub_date == Some(or_else(ts_rfc2822(t), now)),
                _ => false,
            },
            None => false,
        },
{
}

} // verus!
