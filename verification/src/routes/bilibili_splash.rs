//! `/bilibili_splash`: the splash screens of the bilibili app.
use crate::dates::{or_else, timestamp_to_rss, ts_rfc2822};
use crate::easyuser::Params;
use crate::feed::{Feed, FeedItem, FeedItemView, FeedView};
use crate::json::{json_as_bool, json_as_str, json_index, ptr_array, Json};
use crate::request_rules::RouteError;
use crate::routes::bilibili_video::{int_of, int_of_exec};
use crate::routes::{
    code_error, code_error_exec, member_str, member_str_exec, param_nonempty_or,
    param_nonempty_or_exec, plain_get, Fetch,
};
use crate::text::{cat, dec_int, i64_to_string, is_empty, push_str};
use vstd::prelude::*;

verus! {

/// The API address for the parameters, each with its default where missing
/// or empty.
pub open spec fn api_url(para: Map<Seq<char>, Seq<char>>) -> Seq<char> {
    "https://app.bilibili.com/x/v2/splash/list?build="@ + param_nonempty_or(para, "build"@, "999999999"@)
        + "&mobi_app="@ + param_nonempty_or(para, "mobi_app"@, "android"@) + "&platform="@
        + param_nonempty_or(para, "platform"@, "android"@) + "&height="@ + param_nonempty_or(
        para,
        "height"@,
        "1920"@,
    ) + "&width="@ + param_nonempty_or(para, "width"@, "1080"@) + "&birth="@ + param_nonempty_or(
        para,
        "birth"@,
        "0101"@,
    )
}

/// The request.
pub fn request(para: &Params) -> (r: Fetch)
    ensures
        r.url@ == api_url(para@),
        r.headers@.len() == 0,
{
    let mut url = cat(
        "https://app.bilibili.com/x/v2/splash/list?build=",
        param_nonempty_or_exec(para, "build", "999999999").as_str(),
    );
    push_str(&mut url, "&mobi_app=");
    push_str(&mut url, param_nonempty_or_exec(para, "mobi_app", "android").as_str());
    push_str(&mut url, "&platform=");
    push_str(&mut url, param_nonempty_or_exec(para, "platform", "android").as_str());
    push_str(&mut url, "&height=");
    push_str(&mut url, param_nonempty_or_exec(para, "height", "1920").as_str());
    push_str(&mut url, "&width=");
    push_str(&mut url, param_nonempty_or_exec(para, "width", "1080").as_str());
    push_str(&mut url, "&birth=");
    push_str(&mut url, param_nonempty_or_exec(para, "birth", "0101").as_str());
    plain_get(url)
}

/// The item of one splash screen: its title (or what kind it is), its
/// target (or its picture), and a description with the picture, id, kind,
/// duration, target and video; dated when it starts showing.
pub open spec fn splash_item(item: Json, now: Seq<char>) -> FeedItemView {
    let thumb = member_str(item, "thumb"@);
    let uri = member_str(item, "uri"@);
    let video = member_str(item, "video_url"@);
    let is_ad = json_as_bool(json_index(item, "is_ad"@)) == Some(true);
    let title = match json_as_str(json_index(item, "uri_title"@)) {
        Some(t) => if t.len() > 0 {
            t
        } else if is_ad {
            "B站开屏广告"@
        } else {
            "B站开屏图片"@
        },
        None => if is_ad {
            "B站开屏广告"@
        } else {
            "B站开屏图片"@
        },
    };
    FeedItemView {
        title: Some(title),
        link: Some(
            if uri.len() == 0 {
                thumb
            } else {
                uri
            },
        ),
        description: Some(
            "<img src=\""@ + thumb + "\" referrerpolicy=\"no-referrer\"><br>广告id: "@ + dec_int(
                int_of(item, "id"@) as int,
            ) + "<br>是否广告: "@ + (if is_ad {
                "true"@
            } else {
                "false"@
            }) + "<br>时长(秒): "@ + dec_int(int_of(item, "duration"@) as int) + (if uri.len() == 0 {
                seq![]
            } else {
                "<br>跳转链接: <a href=\""@ + uri + "\">"@ + uri + "</a>"@
            }) + (if video.len() == 0 {
                seq![]
            } else {
                "<br>视频: <a href=\""@ + video + "\">"@ + video + "</a>"@
            }),
        ),
        pub_date: Some(or_else(ts_rfc2822(int_of(item, "begin_time"@)), now)),
        author: None,
        guid: None,
        categories: seq![],
    }
}

/// The feed of the answer (no list is an empty feed), or the failure.
pub open spec fn spec_feed(json: Json, now: Seq<char>) -> Result<FeedView, Seq<char>> {
    match code_error(json) {
        Some(e) => Err(e),
        None => {
            let list = match ptr_array(json, "/data/list"@) {
                Some(l) => l,
                None => seq![],
            };
            Ok(
                FeedView {
                    title: "B站APP端开屏广告"@,
                    link: "https://app.bilibili.com"@,
                    description: "B站APP端开屏广告信息"@,
                    pub_date: None,
                    items: list.map_values(|x: Json| splash_item(x, now)),
                },
            )
        },
    }
}

fn splash_item_exec(item: &Json, now: &str) -> (r: FeedItem)
    ensures
        r@ == splash_item(*item, now@),
{
    let thumb = member_str_exec(item, "thumb");
    let uri = member_str_exec(item, "uri");
    let video = member_str_exec(item, "video_url");
    let is_ad = match item.bool_at("is_ad") {
        Some(b) => b,
        None => false,
    };
    let kind = if is_ad { "B站开屏广告" } else { "B站开屏图片" };
    let title = match item.str_at("uri_title") {
        Some(t) => if !is_empty(t.as_str()) {
            t.clone()
        } else {
            kind.to_owned()
        },
        None => kind.to_owned(),
    };
    let mut d = cat("<img src=\"", thumb.as_str());
    push_str(&mut d, "\" referrerpolicy=\"no-referrer\"><br>广告id: ");
    push_str(&mut d, i64_to_string(int_of_exec(item, "id")).as_str());
    push_str(&mut d, "<br>是否广告: ");
    push_str(&mut d, if is_ad { "true" } else { "false" });
    push_str(&mut d, "<br>时长(秒): ");
    push_str(&mut d, i64_to_string(int_of_exec(item, "duration")).as_str());
    let ghost base = d@;
    if !is_empty(uri.as_str()) {
        push_str(&mut d, "<br>跳转链接: <a href=\"");
        push_str(&mut d, uri.as_str());
        push_str(&mut d, "\">");
        push_str(&mut d, uri.as_str());
        push_str(&mut d, "</a>");
    }
    let ghost mid = d@;
    if !is_empty(video.as_str()) {
        push_str(&mut d, "<br>视频: <a href=\"");
        push_str(&mut d, video.as_str());
        push_str(&mut d, "\">");
        push_str(&mut d, video.as_str());
        push_str(&mut d, "</a>");
    }
    assert(d@ =~= base + (if uri@.len() == 0 {
        Seq::<char>::empty()
    } else {
        "<br>跳转链接: <a href=\""@ + uri@ + "\">"@ + uri@ + "</a>"@
    }) + (if video@.len() == 0 {
        Seq::<char>::empty()
    } else {
        "<br>视频: <a href=\""@ + video@ + "\">"@ + video@ + "</a>"@
    }));
    let link = if is_empty(uri.as_str()) {
        thumb
    } else {
        uri
    };
    let r = FeedItem {
        title: Some(title),
        link: Some(link),
        description: Some(d),
        pub_date: Some(timestamp_to_rss(int_of_exec(item, "begin_time"), now)),
        author: None,
        guid: None,
        categories: Vec::new(),
    };
    assert(r@.categories =~= Seq::<Seq<char>>::empty());
    r
}

/// The feed of the answer (see [`spec_feed`]).
pub fn build_feed(json: &Json, now: &str) -> (r: Result<Feed, RouteError>)
    ensures
        match r {
            Ok(f) => spec_feed(*json, now@) == Ok::<_, Seq<char>>(f@),
            Err(RouteError::Message(m)) => spec_feed(*json, now@) == Err::<FeedView, _>(m@),
            Err(_) => false,
        },
{
    match code_error_exec(json) {
        Some(e) => return Err(RouteError::Message(e)),
        None => {},
    }
    let empty: Vec<Json> = Vec::new();
    let list = match json.ptr_array("/data/list") {
        Some(v) => v,
        None => &empty,
    };
    let mut items: Vec<FeedItem> = Vec::new();
    let mut i: usize = 0;
    while i < list.len()
        invariant
            i <= list.len(),
            items.len() == i,
            forall|j: int| 0 <= j < i ==> #[trigger] items@[j]@ == splash_item(list@[j], now@),
        decreases list.len() - i,
    {
        items.push(splash_item_exec(&list[i], now));
        i = i + 1;
    }
    let f = Feed {
        title: "B站APP端开屏广告".to_owned(),
        link: "https://app.bilibili.com".to_owned(),
        description: "B站APP端开屏广告信息".to_owned(),
        pub_date: None,
        items,
    };
    assert(f@.items =~= list@.map_values(|x: Json| splash_item(x, now@)));
    Ok(f)
}

/// Law: a splash screen links to its `uri`, or to its picture (`thumb`)
/// where it has none.
pub proof fn law_splash_link(item: Json, now: Seq<char>)
    ensures
        splash_item(item, now).link == Some(
            if crate::routes::member_str(item, "uri"@).len() == 0 {
                crate::routes::member_str(item, "thumb"@)
            } else {
                crate::routes::member_str(item, "uri"@)
            },
        ),
{
}

/// Law: a splash screen is dated by its `begin_time`.
pub proof fn law_splash_date(item: Json, now: Seq<char>)
    ensures
        splash_item(item, now).pub_date == Some(or_else(ts_rfc2822(crate::routes::bilibili_video::int_of(item, "begin_time"@)), now)),
{
}

} // verus!
