//! `/bilibili_fav`: one favourites folder of a bilibili user.
use crate::easyuser::{param, Params};
use crate::feed::{opt_view, Feed, FeedItem, FeedItemView, FeedView};
use crate::json::{json_as_i64, json_debug, json_debug_string, json_index, ptr_str, Json};
use crate::request_rules::RouteError;
use crate::routes::bilibili_video::{
    embed, referer_headers, spec_embed, video_item, video_item_exec, with_referer,
};
use crate::routes::{fetch_result_is, feed_result_is, item_views};
use crate::text::{cat, push_str};
use vstd::prelude::*;

verus! {

/// The request for folder `fid` of user `uid` (both required).
pub open spec fn spec_request(para: Map<Seq<char>, Seq<char>>, cookie: Option<Seq<char>>) -> Result<
    (Seq<char>, Seq<(Seq<char>, Seq<char>)>),
    Seq<char>,
> {
    match param(para, "uid"@) {
        None => Err("缺少 uid 参数"@),
        Some(uid) => match param(para, "fid"@) {
            None => Err("缺少 fid 参数"@),
            Some(fid) => Ok(
                (
                    "https://api.bilibili.com/x/v3/fav/resource/list?media_id="@ + fid + "&ps=20"@,
                    referer_headers("https://space.bilibili.com/"@ + uid + "/"@, cookie),
                ),
            ),
        },
    }
}

/// The request; `cookie` is the bilibili.com cookie header, if any.
pub fn request(para: &Params, cookie: Option<String>) -> (r: Result<
    crate::routes::Fetch,
    RouteError,
>)
    ensures
        fetch_result_is(r, spec_request(para@, opt_view(cookie))),
{
    let uid = match para.get("uid") {
        Some(u) => u,
        None => {
            return Err(RouteError::msg("缺少 uid 参数"));
        },
    };
    let fid = match para.get("fid") {
        Some(f) => f,
        None => {
            return Err(RouteError::msg("缺少 fid 参数"));
        },
    };
    let mut url = cat("https://api.bilibili.com/x/v3/fav/resource/list?media_id=", fid.as_str());
    push_str(&mut url, "&ps=20");
    let mut referer = cat("https://space.bilibili.com/", uid.as_str());
    push_str(&mut referer, "/");
    Ok(with_referer(url, referer, cookie))
}

/// A string at a pointer, or `default`.
pub open spec fn ptr_or(v: Json, p: Seq<char>, default: Seq<char>) -> Seq<char> {
    match ptr_str(v, p) {
        Some(s) => s,
        None => default,
    }
}

fn ptr_or_exec(v: &Json, p: &str, default: &str) -> (r: String)
    ensures
        r@ == ptr_or(*v, p@, default@),
{
    match v.ptr_text(p) {
        Some(s) => s.clone(),
        None => default.to_owned(),
    }
}

/// The items: each media dated by when it was favoured, with its
/// uploader's name.
pub open spec fn fav_items(list: Seq<Json>, embed: bool, now: Seq<char>) -> Seq<FeedItemView> {
    list.map_values(
        |v: Json|
            video_item(
                v,
                "id"@,
                "cover"@,
                "intro"@,
                "fav_time"@,
                Some(ptr_or(v, "/upper/name"@, seq![])),
                embed,
                now,
            ),
    )
}

/// The feed for the API's answer.
pub open spec fn spec_feed(para: Map<Seq<char>, Seq<char>>, json: Json, now: Seq<char>) -> Result<
    FeedView,
    Seq<char>,
> {
    match param(para, "uid"@) {
        None => Err("缺少 uid 参数"@),
        Some(uid) => match param(para, "fid"@) {
            None => Err("缺少 fid 参数"@),
            Some(fid) => if json_as_i64(json_index(json, "code"@)) != Some(0i64) {
                Err("API 返回错误: "@ + json_debug(json_index(json, "message"@)))
            } else {
                let username = ptr_or(json, "/data/info/upper/name"@, "UP主"@);
                let fav_name = ptr_or(json, "/data/info/title"@, "收藏夹"@);
                match crate::json::ptr_array(json, "/data/medias"@) {
                    None => Err("找不到 data/medias 字段或不是数组"@),
                    Some(list) => Ok(
                        FeedView {
                            title: username + " 的 bilibili 收藏夹 "@ + fav_name,
                            link: "https://space.bilibili.com/"@ + uid + "/#/favlist?fid="@ + fid,
                            description: username + " 的 bilibili 收藏夹 "@ + fav_name,
                            pub_date: None,
                            items: fav_items(list, spec_embed(para), now),
                        },
                    ),
                }
            },
        },
    }
}

/// `get`, after the fetch: the feed for the API's answer; `now` is the
/// current time in RSS form.
pub fn build_feed(para: &Params, json: &Json, now: &str) -> (r: Result<Feed, RouteError>)
    ensures
        feed_result_is(r, spec_feed(para@, *json, now@)),
{
    proof {
        reveal_strlit("");
        assert(""@ =~= Seq::<char>::empty());
    }
    let uid = match para.get("uid") {
        Some(u) => u,
        None => {
            return Err(RouteError::msg("缺少 uid 参数"));
        },
    };
    let fid = match para.get("fid") {
        Some(f) => f,
        None => {
            return Err(RouteError::msg("缺少 fid 参数"));
        },
    };
    if json.i64_at("code") != Some(0i64) {
        let null = Json::Null;
        let message = match json.get("message") {
            Some(m) => m,
            None => &null,
        };
        return Err(RouteError::Message(cat("API 返回错误: ", json_debug_string(message).as_str())));
    }
    let username = ptr_or_exec(json, "/data/info/upper/name", "UP主");
    let fav_name = ptr_or_exec(json, "/data/info/title", "收藏夹");
    let list = match json.ptr_array("/data/medias") {
        Some(a) => a,
        None => {
            return Err(RouteError::msg("找不到 data/medias 字段或不是数组"));
        },
    };
    let embed = embed(para);
    let ghost want = fav_items(list@, embed, now@);
    let mut items: Vec<FeedItem> = Vec::new();
    let mut i: usize = 0;
    assert(item_views(items@) =~= want.take(0));
    while i < list.len()
        invariant
            i <= list.len(),
            want == fav_items(list@, embed, now@),
            item_views(items@) == want.take(i as int),
            ""@ == Seq::<char>::empty(),
        decreases list.len() - i,
    {
        let it = video_item_exec(
            &list[i],
            "id",
            "cover",
            "intro",
            "fav_time",
            Some(ptr_or_exec(&list[i], "/upper/name", "")),
            embed,
            now,
        );
        let ghost before = item_views(items@);
        items.push(it);
        assert(item_views(items@) =~= before.push(it@));
        assert(want.take(i + 1) =~= want.take(i as int).push(want[i as int]));
        i = i + 1;
    }
    assert(want.take(list.len() as int) == want);
    let mut title = username.clone();
    push_str(&mut title, " 的 bilibili 收藏夹 ");
    push_str(&mut title, fav_name.as_str());
    let description = title.clone();
    let mut link = cat("https://space.bilibili.com/", uid.as_str());
    push_str(&mut link, "/#/favlist?fid=");
    push_str(&mut link, fid.as_str());
    let ghost sv = spec_feed(para@, *json, now@);
    assert(sv->Ok_0.items == item_views(items@));
    Ok(Feed { title, link, description, pub_date: None, items })
}

/// Law: one item per video, in order; each links to the page of the
/// video's `bvid` and is dated by its `fav_time` (when it was favoured).
pub proof fn law_items_link_date(list: Seq<Json>, embed: bool, now: Seq<char>)
    ensures
        fav_items(list, embed, now).len() == list.len(),
        forall|i: int|
            0 <= i < list.len() ==> (#[trigger] fav_items(list, embed, now)[i]).link == Some(
                "https://www.bilibili.com/video/"@ + crate::routes::member_str(list[i], "bvid"@),
            ) && fav_items(list, embed, now)[i].pub_date == Some(
                crate::dates::or_else(crate::dates::ts_rfc2822(crate::routes::bilibili_video::int_of(list[i], "fav_time"@)), now),
            ),
{
}

} // verus!
