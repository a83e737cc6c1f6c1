//! `/bilibili_user_fav`: the default favourites of a bilibili user.
use crate::easyuser::{param, Params};
use crate::feed::{opt_view, Feed, FeedItem, FeedItemView, FeedView};
use crate::json::Json;
use crate::request_rules::RouteError;
use crate::routes::bilibili_video::{
    embed, next_author, referer_headers, running_author, spec_embed, video_item, video_item_exec,
    with_referer,
};
use crate::routes::{fetch_result_is, feed_result_is, item_views};
use crate::text::{cat, push_str};
use vstd::prelude::*;

verus! {

/// The request for user `uid` (required), with the bilibili.com cookie
/// where known.
pub open spec fn spec_request(para: Map<Seq<char>, Seq<char>>, cookie: Option<Seq<char>>) -> Result<
    (Seq<char>, Seq<(Seq<char>, Seq<char>)>),
    Seq<char>,
> {
    match param(para, "uid"@) {
        None => Err("缺少 uid 参数"@),
        Some(uid) => Ok(
            (
                "https://api.bilibili.com/x/v2/fav/video?vmid="@ + uid
                    + "&ps=30&tid=0&keyword=&pn=1&order=fav_time"@,
                referer_headers("https://space.bilibili.com/"@ + uid + "/#/favlist"@, cookie),
            ),
        ),
    }
}

/// The request; `cookie` is the bilibili.com cookie header, if any.
pub fn request(para: &Params, cookie: Option<String>) -> (r: Result<
    crate::routes::Fetch,
    RouteError,
>)
    ensures
        fetch_result_is(r, spec_request(para@, opt_view(cookie))),
{
    let uid = match para.get("uid") {
        Some(u) => u,
        None => {
            return Err(RouteError::msg("缺少 uid 参数"));
        },
    };
    let mut url = cat("https://api.bilibili.com/x/v2/fav/video?vmid=", uid.as_str());
    push_str(&mut url, "&ps=30&tid=0&keyword=&pn=1&order=fav_time");
    let mut referer = cat("https://space.bilibili.com/", uid.as_str());
    push_str(&mut referer, "/#/favlist");
    Ok(with_referer(url, referer, cookie))
}

/// The items: each video dated by when it was favoured, its author the
/// running author name.
pub open spec fn fav_items(list: Seq<Json>, embed: bool, now: Seq<char>) -> Seq<FeedItemView> {
    Seq::new(
        list.len(),
        |i: int|
            video_item(
                list[i],
                "aid"@,
                "pic"@,
                "desc"@,
                "fav_at"@,
                Some(running_author(list.take(i + 1))),
                embed,
                now,
            ),
    )
}

/// The feed for the API's answer.
pub open spec fn spec_feed(para: Map<Seq<char>, Seq<char>>, json: Json, now: Seq<char>) -> Result<
    FeedView,
    Seq<char>,
> {
    match param(para, "uid"@) {
        None => Err("缺少 uid 参数"@),
        Some(uid) => match crate::json::ptr_array(json, "/data/archives"@) {
            None => Err("找不到 data/archives 字段或不是数组"@),
            Some(list) => {
                let author = running_author(list);
                Ok(
                    FeedView {
                        title: author + " 的 bilibili 收藏夹"@,
                        link: "https://space.bilibili.com/"@ + uid + "/#/favlist"@,
                        description: author + " 的 bilibili 收藏夹"@,
                        pub_date: None,
                        items: fav_items(list, spec_embed(para), now),
                    },
                )
            },
        },
    }
}

/// `get`, after the fetch: the feed for the API's answer; `now` is the
/// current time in RSS form.
pub fn build_feed(para: &Params, json: &Json, now: &str) -> (r: Result<Feed, RouteError>)
    ensures
        feed_result_is(r, spec_feed(para@, *json, now@)),
{
    let uid = match para.get("uid") {
        Some(u) => u,
        None => {
            return Err(RouteError::msg("缺少 uid 参数"));
        },
    };
    let list = match json.ptr_array("/data/archives") {
        Some(a) => a,
        None => {
            return Err(RouteError::msg("找不到 data/archives 字段或不是数组"));
        },
    };
    let embed = embed(para);
    let ghost want = fav_items(list@, embed, now@);
    let mut items: Vec<FeedItem> = Vec::new();
    let mut author = "UP主".to_owned();
    let mut i: usize = 0;
    assert(item_views(items@) =~= want.take(0));
    assert(list@.take(0) == Seq::<Json>::empty());
    while i < list.len()
        invariant
            i <= list.len(),
            want == fav_items(list@, embed, now@),
            item_views(items@) == want.take(i as int),
            author@ == running_author(list@.take(i as int)),
        decreases list.len() - i,
    {
        assert(list@.take(i + 1).drop_last() == list@.take(i as int));
        assert(list@.take(i + 1).last() == list@[i as int]);
        author = next_author(author, &list[i]);
        let it = video_item_exec(
            &list[i],
            "aid",
            "pic",
            "desc",
            "fav_at",
            Some(author.clone()),
            embed,
            now,
        );
        let ghost before = item_views(items@);
        items.push(it);
        assert(item_views(items@) =~= before.push(it@));
        assert(want.take(i + 1) =~= want.take(i as int).push(want[i as int]));
        i = i + 1;
    }
    assert(want.take(list.len() as int) == want);
    assert(list@.take(list.len() as int) == list@);
    let mut title = author.clone();
    push_str(&mut title, " 的 bilibili 收藏夹");
    let description = title.clone();
    let mut link = cat("https://space.bilibili.com/", uid.as_str());
    push_str(&mut link, "/#/favlist");
    let ghost sv = spec_feed(para@, *json, now@);
    assert(sv->Ok_0.items == item_views(items@));
    Ok(Feed { title, link, description, pub_date: None, items })
}

/// Law: one item per video, in order; each links to the page of the
/// video's `bvid` and is dated by its `fav_at` (when it was favoured).
pub proof fn law_items_link_date(list: Seq<Json>, embed: bool, now: Seq<char>)
    ensures
        fav_items(list, embed, now).len() == list.len(),
        forall|i: int|
            0 <= i < list.len() ==> (#[trigger] fav_items(list, embed, now)[i]).link == Some(
                "https://www.bilibili.com/video/"@ + crate::routes::member_str(list[i], "bvid"@),
            ) && fav_items(list, embed, now)[i].pub_date == Some(
                crate::dates::or_else(crate::dates::ts_rfc2822(crate::routes::bilibili_video::int_of(list[i], "fav_at"@)), now),
            ),
{
}

} // verus!
