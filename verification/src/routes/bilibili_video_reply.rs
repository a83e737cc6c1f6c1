//! `/bilibili_video_reply`: the comments of a bilibili video. The video's
//! id is asked first, its title second, its comments last.
use crate::dates::{or_else, timestamp_to_rss, ts_rfc2822};
use crate::easyuser::{pair_views, param, Params};
use crate::feed::{Feed, FeedItem, FeedItemView, FeedView};
use crate::json::{ptr_array, ptr_i64, ptr_str, Json};
use crate::request_rules::RouteError;
use crate::routes::bilibili_video::{int_of, int_of_exec};
use crate::routes::{plain_get, Fetch};
use crate::text::{cat, dec_int, i64_to_string, push_str};
use vstd::prelude::*;

verus! {

/// The request for the video's id: the view API by `bvid`.
pub fn aid_request(para: &Params) -> (r: Result<Fetch, RouteError>)
    ensures
        match r {
            Ok(f) => param(para@, "bvid"@) matches Some(b) && f.url@
                == "https://api.bilibili.com/x/web-interface/view?bvid="@ + b && f.headers@.len() == 0,
            Err(RouteError::Message(m)) => param(para@, "bvid"@) is None && m@ == "缺少 bvid 参数"@,
            Err(_) => false,
        },
{
    match para.get("bvid") {
        Some(b) => Ok(plain_get(cat("https://api.bilibili.com/x/web-interface/view?bvid=", b.as_str()))),
        None => Err(RouteError::msg("缺少 bvid 参数")),
    }
}

/// The video's id in the view API's answer (`get_aid_from_bvid`).
pub fn aid_of(view: &Json) -> (r: Result<i64, RouteError>)
    ensures
        match r {
            Ok(a) => ptr_i64(*view, "/data/aid"@) == Some(a),
            Err(RouteError::Message(m)) => ptr_i64(*view, "/data/aid"@) is None && m@
                == "无法从 BVID 获取 AID"@,
            Err(_) => false,
        },
{
    match view.ptr_i64("/data/aid") {
        Some(a) => Ok(a),
        None => Err(RouteError::msg("无法从 BVID 获取 AID")),
    }
}

/// The request for the video's title: the view API by id.
pub fn name_request(aid: i64) -> (r: Fetch)
    ensures
        r.url@ == "https://api.bilibili.com/x/web-interface/view?aid="@ + dec_int(aid as int),
        r.headers@.len() == 0,
{
    plain_get(cat("https://api.bilibili.com/x/web-interface/view?aid=", i64_to_string(aid).as_str()))
}

/// `get_video_name`: the title in the view API's answer; the `bvid` where
/// the answer could not be had or holds no title.
pub open spec fn spec_video_name(bvid: Seq<char>, view: Option<Json>) -> Seq<char> {
    match view {
        Some(v) => match ptr_str(v, "/data/title"@) {
            Some(t) => t,
            None => bvid,
        },
        None => bvid,
    }
}

/// The video's title (see [`spec_video_name`]); `view` is the answer, if
/// it was fetched and parsed.
pub fn video_name(bvid: &str, view: Option<&Json>) -> (r: String)
    ensures
        r@ == spec_video_name(bvid@, match view {
            Some(v) => Some(*v),
            None => None,
        }),
{
    match view {
        Some(v) => match v.ptr_text("/data/title") {
            Some(t) => t.clone(),
            None => bvid.to_owned(),
        },
        None => bvid.to_owned(),
    }
}

/// The video's page.
pub open spec fn video_link(bvid: Seq<char>) -> Seq<char> {
    "https://www.bilibili.com/video/"@ + bvid
}

/// The request for the comments: the video's page as `Referer`, and the
/// bilibili.com cookie (empty where none is known).
pub fn replies_request(bvid: &str, aid: i64, cookie: Option<String>) -> (r: Fetch)
    ensures
        r.url@ == "https://api.bilibili.com/x/v2/reply?type=1&oid="@ + dec_int(aid as int) + "&sort=0"@,
        pair_views(r.headers@) == seq![
            ("Referer"@, video_link(bvid@)),
            ("Cookie"@, match cookie {
                Some(c) => c@,
                None => seq![],
            }),
        ],
{
    let mut url = cat("https://api.bilibili.com/x/v2/reply?type=1&oid=", i64_to_string(aid).as_str());
    push_str(&mut url, "&sort=0");
    let c = match cookie {
        Some(c) => c,
        None => String::new(),
    };
    let headers = vec![
        ("Referer".to_owned(), cat("https://www.bilibili.com/video/", bvid)),
        ("Cookie".to_owned(), c),
    ];
    proof {
        assert(pair_views(headers@) =~= seq![
            ("Referer"@, video_link(bvid@)),
            ("Cookie"@, match cookie {
                Some(c) => c@,
                None => Seq::<char>::empty(),
            }),
        ]);
    }
    Fetch { url, headers }
}

/// The item of one comment: `user : text`, linked to the comment.
pub open spec fn reply_item(reply: Json, bvid: Seq<char>, now: Seq<char>) -> FeedItemView {
    let uname = match ptr_str(reply, "/member/uname"@) {
        Some(u) => u,
        None => "未知用户"@,
    };
    let message = match ptr_str(reply, "/content/message"@) {
        Some(m) => m,
        None => seq![],
    };
    let title = uname + " : "@ + message;
    FeedItemView {
        title: Some(title),
        link: Some(video_link(bvid) + "/#reply"@ + dec_int(int_of(reply, "rpid"@) as int)),
        description: Some(title),
        pub_date: Some(or_else(ts_rfc2822(int_of(reply, "ctime"@)), now)),
        author: None,
        guid: None,
        categories: seq![],
    }
}

/// The feed of the comments (no list is an empty feed).
pub open spec fn spec_feed(bvid: Seq<char>, name: Seq<char>, json: Json, now: Seq<char>) -> FeedView {
    let replies = match ptr_array(json, "/data/replies"@) {
        Some(r) => r,
        None => seq![],
    };
    FeedView {
        title: name + " 的 评论"@,
        link: video_link(bvid),
        description: name + " 的评论"@,
        pub_date: None,
        items: replies.map_values(|r: Json| reply_item(r, bvid, now)),
    }
}

fn reply_item_exec(reply: &Json, bvid: &str, now: &str) -> (r: FeedItem)
    ensures
        r@ == reply_item(*reply, bvid@, now@),
{
    let uname = match reply.ptr_text("/member/uname") {
        Some(u) => u.clone(),
        None => "未知用户".to_owned(),
    };
    let message = match reply.ptr_text("/content/message") {
        Some(m) => m.clone(),
        None => String::new(),
    };
    let mut title = uname;
    push_str(&mut title, " : ");
    push_str(&mut title, message.as_str());
    let mut link = cat("https://www.bilibili.com/video/", bvid);
    push_str(&mut link, "/#reply");
    push_str(&mut link, i64_to_string(int_of_exec(reply, "rpid")).as_str());
    let r = FeedItem {
        title: Some(title.clone()),
        link: Some(link),
        description: Some(title),
        pub_date: Some(timestamp_to_rss(int_of_exec(reply, "ctime"), now)),
        author: None,
        guid: None,
        categories: Vec::new(),
    };
    assert(r@.categories =~= Seq::<Seq<char>>::empty());
    r
}

/// The feed of the comments (see [`spec_feed`]); `name` is what
/// [`video_name`] gave.
pub fn build_feed(bvid: &str, name: &str, json: &Json, now: &str) -> (r: Feed)
    ensures
        r@ == spec_feed(bvid@, name@, *json, now@),
{
    let empty: Vec<Json> = Vec::new();
    let replies = match json.ptr_array("/data/replies") {
        Some(v) => v,
        None => &empty,
    };
    let mut items: Vec<FeedItem> = Vec::new();
    let mut i: usize = 0;
    while i < replies.len()
        invariant
            i <= replies.len(),
            items.len() == i,
            forall|j: int| 0 <= j < i ==> #[trigger] items@[j]@ == reply_item(replies@[j], bvid@, now@),
        decreases replies.len() - i,
    {
        items.push(reply_item_exec(&replies[i], bvid, now));
        i = i + 1;
    }
    let f = Feed {
        title: cat(name, " 的 评论"),
        link: cat("https://www.bilibili.com/video/", bvid),
        description: cat(name, " 的评论"),
        pub_date: None,
        items,
    };
    assert(f@.items =~= replies@.map_values(|r: Json| reply_item(r, bvid@, now@)));
    f
}

/// Law: a comment links to its place (`#reply` and its `rpid`) on the
/// video's page and is dated by its `ctime`.
pub proof fn law_reply_link(reply: Json, bvid: Seq<char>, now: Seq<char>)
    ensures
        reply_item(reply, bvid, now).link == Some(
            video_link(bvid) + "/#reply"@ + crate::text::dec_int(crate::routes::bilibili_video::int_of(reply, "rpid"@) as int),
        ),
        reply_item(reply, bvid, now).pub_date == Some(or_else(ts_rfc2822(crate::routes::bilibili_video::int_of(reply, "ctime"@)), now)),
{
}

/// Law: a comment is titled (and described) by its member's `/member/uname`
/// (`未知用户` where missing) and its `/content/message`.
pub proof fn law_reply_title(reply: Json, bvid: Seq<char>, now: Seq<char>)
    ensures
        ({
            let t = (match ptr_str(reply, "/member/uname"@) {
                Some(u) => u,
                None => "未知用户"@,
            }) + " : "@ + crate::json::ptr_str_or(reply, "/content/message"@);
            reply_item(reply, bvid, now).title == Some(t) && reply_item(reply, bvid, now).description == Some(t)
        }),
{
}

} // verus!
