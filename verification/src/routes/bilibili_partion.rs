//! `/bilibili_partion`: the newest videos of a bilibili section.

use crate::easyuser::{pair_views, param, Params};
use crate::feed::{Feed, FeedItem, FeedView};
use crate::json::{json_as_str, json_index, Json};
use crate::request_rules::RouteError;
use crate::routes::bilibili_partion_ranking::{headers, newlist_url};
use crate::routes::bilibili_video::{embed, spec_embed, video_item, video_item_exec};
use crate::routes::{feed_result_is, item_views, Fetch};
use crate::text::{cat, push_str};
use vstd::prelude::*;

verus! {

/// The request for section `tid` (required) at the current time; it is the
/// newest-videos request of `/bilibili_partion_ranking`.
pub fn request(para: &Params) -> (r: Result<Fetch, RouteError>)
    ensures
        match r {
            Ok(f) => param(para@, "tid"@) is Some && (exists|ms: i64|
                #[trigger] newlist_url(param(para@, "tid"@)->0, ms) == f.url@) && pair_views(f.headers@)
                == headers(),
            Err(RouteError::Message(m)) => param(para@, "tid"@) is None && m@ == "缺少 tid 参数"@,
            Err(_) => false,
        },
{
    crate::routes::bilibili_partion_ranking::newlist_request(para)
}

/// The author of a video: its owner's name, or `未知`.
pub open spec fn owner_name(v: Json) -> Seq<char> {
    match json_as_str(json_index(json_index(v, "owner"@), "name"@)) {
        Some(n) => n,
        None => "未知"@,
    }
}

/// The section's name: that of the first video, or `未知`.
pub open spec fn section_name(list: Seq<Json>) -> Seq<char> {
    if list.len() > 0 && json_as_str(json_index(list[0], "tname"@)) is Some {
        json_as_str(json_index(list[0], "tname"@))->0
    } else {
        "未知"@
    }
}

/// The feed for the API's answer.
pub open spec fn spec_feed(para: Map<Seq<char>, Seq<char>>, json: Json, now: Seq<char>) -> Result<
    FeedView,
    Seq<char>,
> {
    match param(para, "tid"@) {
        None => Err("缺少 tid 参数"@),
        Some(_) => match crate::json::ptr_array(json, "/data/archives"@) {
            None => Err("找不到 data/archives 字段或不是数组"@),
            Some(list) => Ok(
                FeedView {
                    title: "bilibili "@ + section_name(list) + "分区"@,
                    link: "https://www.bilibili.com"@,
                    description: "bilibili "@ + section_name(list) + "分区"@,
                    pub_date: None,
                    items: list.map_values(
                        |v: Json|
                            video_item(
                                v,
                                "aid"@,
                                "pic"@,
                                "desc"@,
                                "pubdate"@,
                                Some(owner_name(v)),
                                spec_embed(para),
                                now,
                            ),
                    ),
                },
            ),
        },
    }
}

fn owner_name_exec(v: &Json) -> (r: String)
    ensures
        r@ == owner_name(*v),
{
    let null = Json::Null;
    let o = match v.get("owner") {
        Some(x) => x,
        None => &null,
    };
    match o.str_at("name") {
        Some(n) => n.clone(),
        None => "未知".to_owned(),
    }
}

/// `get`, after the fetch: the feed for the API's answer; `now` is the
/// current time in RSS form.
pub fn build_feed(para: &Params, json: &Json, now: &str) -> (r: Result<Feed, RouteError>)
    ensures
        feed_result_is(r, spec_feed(para@, *json, now@)),
{
    if para.get("tid").is_none() {
        return Err(RouteError::msg("缺少 tid 参数"));
    }
    let list = match json.ptr_array("/data/archives") {
        Some(a) => a,
        None => {
            return Err(RouteError::msg("找不到 data/archives 字段或不是数组"));
        },
    };
    let name = if list.len() > 0 {
        match list[0].str_at("tname") {
            Some(n) => n.clone(),
            None => "未知".to_owned(),
        }
    } else {
        "未知".to_owned()
    };
    let embed = embed(para);
    let ghost want = list@.map_values(
        |v: Json|
            video_item(v, "aid"@, "pic"@, "desc"@, "pubdate"@, Some(owner_name(v)), embed, now@),
    );
    let mut items: Vec<FeedItem> = Vec::new();
    let mut i: usize = 0;
    assert(item_views(items@) =~= want.take(0));
    while i < list.len()
        invariant
            i <= list.len(),
            want == list@.map_values(
                |v: Json|
                    video_item(
                        v,
                        "aid"@,
                        "pic"@,
                        "desc"@,
                        "pubdate"@,
                        Some(owner_name(v)),
                        embed,
                        now@,
                    ),
            ),
            item_views(items@) == want.take(i as int),
        decreases list.len() - i,
    {
        let it = video_item_exec(
            &list[i],
            "aid",
            "pic",
            "desc",
            "pubdate",
            Some(owner_name_exec(&list[i])),
            embed,
            now,
        );
        let ghost before = item_views(items@);
        items.push(it);
        assert(item_views(items@) =~= before.push(it@));
        assert(want.take(i + 1) =~= want.take(i as int).push(want[i as int]));
        i = i + 1;
    }
    assert(want.take(list.len() as int) == want);
    let mut title = cat("bilibili ", name.as_str());
    push_str(&mut title, "分区");
    let description = title.clone();
    let ghost sv = spec_feed(para@, *json, now@);
    assert(sv->Ok_0.items == item_views(items@));
    Ok(
        Feed {
            title,
            link: "https://www.bilibili.com".to_owned(),
            description,
            pub_date: None,
            items,
        },
    )
}

/// Law: the feed has one item per video of `/data/archives`, in order; each
/// links to the page of the video's `bvid` and is dated by its `pubdate`.
pub proof fn law_partion_items(para: Map<Seq<char>, Seq<char>>, json: Json, now: Seq<char>)
    ensures
        spec_feed(para, json, now) matches Ok(f) ==> (crate::json::ptr_array(json, "/data/archives"@) matches Some(
            list,
        ) && f.items.len() == list.len() && forall|i: int|
            0 <= i < list.len() ==> (#[trigger] f.items[i]).link == Some(
                "https://www.bilibili.com/video/"@ + crate::routes::member_str(list[i], "bvid"@),
            ) && f.items[i].pub_date == Some(
                crate::dates::or_else(crate::dates::ts_rfc2822(crate::routes::bilibili_video::int_of(list[i], "pubdate"@)), now),
            )),
{
}

} // verus!
