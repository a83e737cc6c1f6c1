//! `/bilibili_user_like`: the videos a bilibili user liked.
use crate::easyuser::{param, Params};
use crate::feed::{Feed, FeedItem, FeedItemView, FeedView};
use crate::json::{json_as_i64, json_debug, json_debug_string, json_index, Json};
use crate::request_rules::RouteError;
use crate::routes::bilibili_video::{
    embed, next_author, referer_headers, running_author, spec_embed, video_item, video_item_exec,
    with_referer,
};
use crate::routes::{fetch_result_is, feed_result_is, item_views};
use crate::text::{cat, push_str};
use vstd::prelude::*;

verus! {

/// The request for user `uid` (required).
pub open spec fn spec_request(para: Map<Seq<char>, Seq<char>>, cookie: Option<Seq<char>>) -> Result<
    (Seq<char>, Seq<(Seq<char>, Seq<char>)>),
    Seq<char>,
> {
    match param(para, "uid"@) {
        None => Err("缺少 uid 参数"@),
        Some(uid) => Ok(
            (
                "https://api.bilibili.com/x/space/like/video?vmid="@ + uid,
                referer_headers("https://space.bilibili.com/"@ + uid + "/"@, None),
            ),
        ),
    }
}

/// The request (no cookie is sent for this route).
pub fn request(para: &Params) -> (r: Result<crate::routes::Fetch, RouteError>)
    ensures
        fetch_result_is(r, spec_request(para@, None)),
{
    let uid = match para.get("uid") {
        Some(u) => u,
        None => {
            return Err(RouteError::msg("缺少 uid 参数"));
        },
    };
    let url = cat("https://api.bilibili.com/x/space/like/video?vmid=", uid.as_str());
    let mut referer = cat("https://space.bilibili.com/", uid.as_str());
    push_str(&mut referer, "/");
    Ok(with_referer(url, referer, None))
}

/// The items: each video's author is the running author name.
pub open spec fn like_items(list: Seq<Json>, embed: bool, now: Seq<char>) -> Seq<FeedItemView> {
    Seq::new(
        list.len(),
        |i: int|
            video_item(
                list[i],
                "aid"@,
                "pic"@,
                "desc"@,
                "pubdate"@,
                Some(running_author(list.take(i + 1))),
                embed,
                now,
            ),
    )
}

/// The feed for the API's answer.
pub open spec fn spec_feed(para: Map<Seq<char>, Seq<char>>, json: Json, now: Seq<char>) -> Result<
    FeedView,
    Seq<char>,
> {
    match param(para, "uid"@) {
        None => Err("缺少 uid 参数"@),
        Some(uid) => if json_as_i64(json_index(json, "code"@)) != Some(0i64) {
            Err("API 返回错误: "@ + json_debug(json_index(json, "message"@)))
        } else {
            match crate::json::ptr_array(json, "/data/list"@) {
                None => Err("找不到 data/list 字段或不是数组"@),
                Some(list) => {
                    let author = running_author(list);
                    Ok(
                        FeedView {
                            title: author + " 的 bilibili 点赞视频"@,
                            link: "https://space.bilibili.com/"@ + uid,
                            description: author + " 的 bilibili 点赞视频"@,
                            pub_date: None,
                            items: like_items(list, spec_embed(para), now),
                        },
                    )
                },
            }
        },
    }
}

/// `get`, after the fetch: the feed for the API's answer; `now` is the
/// current time in RSS form.
pub fn build_feed(para: &Params, json: &Json, now: &str) -> (r: Result<Feed, RouteError>)
    ensures
        feed_result_is(r, spec_feed(para@, *json, now@)),
{
    let uid = match para.get("uid") {
        Some(u) => u,
        None => {
            return Err(RouteError::msg("缺少 uid 参数"));
        },
    };
    if json.i64_at("code") != Some(0i64) {
        let null = Json::Null;
        let message = match json.get("message") {
            Some(m) => m,
            None => &null,
        };
        return Err(RouteError::Message(cat("API 返回错误: ", json_debug_string(message).as_str())));
    }
    let list = match json.ptr_array("/data/list") {
        Some(a) => a,
        None => {
            return Err(RouteError::msg("找不到 data/list 字段或不是数组"));
        },
    };
    let embed = embed(para);
    let ghost want = like_items(list@, embed, now@);
    let mut items: Vec<FeedItem> = Vec::new();
    let mut author = "UP主".to_owned();
    let mut i: usize = 0;
    assert(item_views(items@) =~= want.take(0));
    assert(list@.take(0) == Seq::<Json>::empty());
    while i < list.len()
        invariant
            i <= list.len(),
            want == like_items(list@, embed, now@),
            item_views(items@) == want.take(i as int),
            author@ == running_author(list@.take(i as int)),
        decreases list.len() - i,
    {
        assert(list@.take(i + 1).drop_last() == list@.take(i as int));
        assert(list@.take(i + 1).last() == list@[i as int]);
        author = next_author(author, &list[i]);
        let it = video_item_exec(
            &list[i],
            "aid",
            "pic",
            "desc",
            "pubdate",
            Some(author.clone()),
            embed,
            now,
        );
        let ghost before = item_views(items@);
        items.push(it);
        assert(item_views(items@) =~= before.push(it@));
        assert(want.take(i + 1) =~= want.take(i as int).push(want[i as int]));
        i = i + 1;
    }
    assert(want.take(list.len() as int) == want);
    assert(list@.take(list.len() as int) == list@);
    let mut title = author.clone();
    push_str(&mut title, " 的 bilibili 点赞视频");
    let description = title.clone();
    let ghost sv = spec_feed(para@, *json, now@);
    assert(sv->Ok_0.items == item_views(items@));
    Ok(
        Feed {
            title,
            link: cat("https://space.bilibili.com/", uid.as_str()),
            description,
            pub_date: None,
            items,
        },
    )
}

/// Law: one item per video, in order; each links to the page of the
/// video's `bvid` and is dated by its `pubdate`.
pub proof fn law_items_link_date(list: Seq<Json>, embed: bool, now: Seq<char>)
    ensures
        like_items(list, embed, now).len() == list.len(),
        forall|i: int|
            0 <= i < list.len() ==> (#[trigger] like_items(list, embed, now)[i]).link == Some(
                "https://www.bilibili.com/video/"@ + crate::routes::member_str(list[i], "bvid"@),
            ) && like_items(list, embed, now)[i].pub_date == Some(
                crate::dates::or_else(crate::dates::ts_rfc2822(crate::routes::bilibili_video::int_of(list[i], "pubdate"@)), now),
            ),
{
}

} // verus!
