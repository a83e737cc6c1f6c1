//! `/bilibili_bangumi_follow`: the series a bilibili user follows.
use crate::dates::{datetime_str_to_rss, local0800_rfc2822};
use crate::easyuser::{param, Params};
use crate::feed::{opt_view, Feed, FeedItem, FeedItemView, FeedView};
use crate::json::{ptr_array, ptr_i64, ptr_str_or, Json};
use crate::request_rules::RouteError;
use crate::routes::bilibili_video::{int_of, int_of_exec, referer_headers, with_referer};
use crate::routes::{
    code_error, code_error_exec, member_str, member_str_exec, param_nonempty_or,
    param_nonempty_or_exec, Fetch,
};
use crate::text::{cat, dec_int, i64_to_string, is_empty, push_str};
use vstd::prelude::*;

verus! {

/// The message for a request without `vmid`.
pub open spec fn missing_vmid() -> Seq<char> {
    "缺少 vmid 参数"@
}

/// The API address for the parameters: user, kind (`1`), page (`1`) and page
/// size (`15`), the defaults standing for missing or empty values.
pub open spec fn api_url(para: Map<Seq<char>, Seq<char>>, vmid: Seq<char>) -> Seq<char> {
    "https://api.bilibili.com/x/space/bangumi/follow/list?vmid="@ + vmid + "&type="@
        + param_nonempty_or(para, "type"@, "1"@) + "&pn="@ + param_nonempty_or(para, "pn"@, "1"@)
        + "&ps="@ + param_nonempty_or(para, "ps"@, "15"@)
}

/// The user's page of followed series.
pub open spec fn list_page(vmid: Seq<char>) -> Seq<char> {
    "https://space.bilibili.com/"@ + vmid + "/bangumi"@
}

/// The request: the API address, with the list page as `Referer` and the
/// bilibili.com cookie where known.
pub fn request(para: &Params, cookie: Option<String>) -> (r: Result<Fetch, RouteError>)
    ensures
        match r {
            Ok(f) => param(para@, "vmid"@) matches Some(v) && f.url@ == api_url(para@, v)
                && crate::easyuser::pair_views(f.headers@) == referer_headers(
                list_page(v),
                opt_view(cookie),
            ),
            Err(RouteError::Message(m)) => param(para@, "vmid"@) is None && m@ == missing_vmid(),
            Err(_) => false,
        },
{
    let vmid = match para.get("vmid") {
        Some(v) => v,
        None => return Err(RouteError::msg("缺少 vmid 参数")),
    };
    let mut url = cat("https://api.bilibili.com/x/space/bangumi/follow/list?vmid=", vmid.as_str());
    push_str(&mut url, "&type=");
    push_str(&mut url, param_nonempty_or_exec(para, "type", "1").as_str());
    push_str(&mut url, "&pn=");
    push_str(&mut url, param_nonempty_or_exec(para, "pn", "1").as_str());
    push_str(&mut url, "&ps=");
    push_str(&mut url, param_nonempty_or_exec(para, "ps", "15").as_str());
    let mut referer = cat("https://space.bilibili.com/", vmid.as_str());
    push_str(&mut referer, "/bangumi");
    Ok(with_referer(url, referer, cookie))
}

/// One followed series: its title, its play page, and a description with
/// the cover, episode count, state, followers and newest episode; dated by
/// the newest episode's time (`YYYY-MM-DD HH:MM:SS` at UTC+8) or `now`.
pub open spec fn series_item(item: Json, now: Seq<char>) -> FeedItemView {
    let total = match crate::json::json_as_i64(crate::json::json_index(item, "total_count"@)) {
        Some(n) => n,
        None => -1i64,
    };
    let follows = match ptr_i64(item, "/stat/follow"@) {
        Some(n) => n,
        None => 0i64,
    };
    let ep = ptr_str_or(item, "/new_ep/index_show"@);
    let ep_time = ptr_str_or(item, "/new_ep/pub_time"@);
    FeedItemView {
        title: Some(member_str(item, "title"@)),
        link: Some(
            "https://www.bilibili.com/bangumi/play/ss"@ + dec_int(int_of(item, "season_id"@) as int)
                + "?from_spmid=666.25.0.0"@,
        ),
        description: Some(
            "<img src=\""@ + member_str(item, "cover"@)
                + "\" referrerpolicy=\"no-referrer\"><br>总集数: "@ + (if total < 0 {
                "连载中"@
            } else {
                dec_int(total as int)
            }) + "<br>状态: "@ + (if int_of(item, "is_finish"@) == 1 {
                "已完结"@
            } else {
                "连载中"@
            }) + "<br>追番人数: "@ + dec_int(follows as int) + "<br>最新一话: "@ + (if ep.len() == 0 {
                "暂无"@
            } else {
                ep
            }) + "<br>更新时间: "@ + (if ep_time.len() == 0 {
                "暂无"@
            } else {
                ep_time
            }) + "<br><br>"@ + member_str(item, "evaluate"@),
        ),
        pub_date: Some(
            if ep_time.len() == 0 {
                now
            } else {
                match local0800_rfc2822(ep_time) {
                    Some(d) => d,
                    None => now,
                }
            },
        ),
        author: None,
        guid: None,
        categories: seq![],
    }
}

/// The feed for the answer, or the failure.
pub open spec fn spec_feed(para: Map<Seq<char>, Seq<char>>, json: Json, now: Seq<char>) -> Result<
    FeedView,
    Seq<char>,
> {
    match param(para, "vmid"@) {
        None => Err(missing_vmid()),
        Some(vmid) => match code_error(json) {
            Some(e) => Err(e),
            None => match ptr_array(json, "/data/list"@) {
                None => Err("找不到 data/list 字段或不是数组"@),
                Some(list) => Ok(
                    FeedView {
                        title: vmid + " 的 bilibili 追番列表"@,
                        link: list_page(vmid),
                        description: vmid + " 的 bilibili 追番列表"@,
                        pub_date: None,
                        items: list.map_values(|x: Json| series_item(x, now)),
                    },
                ),
            },
        },
    }
}

fn series_item_exec(item: &Json, now: &str) -> (r: FeedItem)
    ensures
        r@ == series_item(*item, now@),
{
    let total = match item.i64_at("total_count") {
        Some(n) => n,
        None => -1,
    };
    let follows = match item.ptr_i64("/stat/follow") {
        Some(n) => n,
        None => 0,
    };
    let ep = item.str_or_empty("/new_ep/index_show");
    let ep_time = item.str_or_empty("/new_ep/pub_time");
    let mut d = cat("<img src=\"", member_str_exec(item, "cover").as_str());
    push_str(&mut d, "\" referrerpolicy=\"no-referrer\"><br>总集数: ");
    if total < 0 {
        push_str(&mut d, "连载中");
    } else {
        push_str(&mut d, i64_to_string(total).as_str());
    }
    push_str(&mut d, "<br>状态: ");
    push_str(&mut d, if int_of_exec(item, "is_finish") == 1 { "已完结" } else { "连载中" });
    push_str(&mut d, "<br>追番人数: ");
    push_str(&mut d, i64_to_string(follows).as_str());
    push_str(&mut d, "<br>最新一话: ");
    push_str(&mut d, if is_empty(ep.as_str()) { "暂无" } else { ep.as_str() });
    push_str(&mut d, "<br>更新时间: ");
    push_str(&mut d, if is_empty(ep_time.as_str()) { "暂无" } else { ep_time.as_str() });
    push_str(&mut d, "<br><br>");
    push_str(&mut d, member_str_exec(item, "evaluate").as_str());
    let date = if is_empty(ep_time.as_str()) {
        now.to_owned()
    } else {
        match datetime_str_to_rss(ep_time.as_str()) {
            Some(x) => x,
            None => now.to_owned(),
        }
    };
    let mut link = cat(
        "https://www.bilibili.com/bangumi/play/ss",
        i64_to_string(int_of_exec(item, "season_id")).as_str(),
    );
    push_str(&mut link, "?from_spmid=666.25.0.0");
    let r = FeedItem {
        title: Some(member_str_exec(item, "title")),
        link: Some(link),
        description: Some(d),
        pub_date: Some(date),
        author: None,
        guid: None,
        categories: Vec::new(),
    };
    assert(r@.categories =~= Seq::<Seq<char>>::empty());
    r
}

/// The feed for the answer (see [`spec_feed`]).
pub fn build_feed(para: &Params, json: &Json, now: &str) -> (r: Result<Feed, RouteError>)
    ensures
        match r {
            Ok(f) => spec_feed(para@, *json, now@) == Ok::<_, Seq<char>>(f@),
            Err(RouteError::Message(m)) => spec_feed(para@, *json, now@) == Err::<FeedView, _>(m@),
            Err(_) => false,
        },
{
    let vmid = match para.get("vmid") {
        Some(v) => v,
        None => return Err(RouteError::msg("缺少 vmid 参数")),
    };
    match code_error_exec(json) {
        Some(e) => return Err(RouteError::Message(e)),
        None => {},
    }
    let list = match json.ptr_array("/data/list") {
        Some(v) => v,
        None => return Err(RouteError::msg("找不到 data/list 字段或不是数组")),
    };
    let mut items: Vec<FeedItem> = Vec::new();
    let mut i: usize = 0;
    while i < list.len()
        invariant
            i <= list.len(),
            items.len() == i,
            forall|j: int| 0 <= j < i ==> #[trigger] items@[j]@ == series_item(list@[j], now@),
        decreases list.len() - i,
    {
        items.push(series_item_exec(&list[i], now));
        i = i + 1;
    }
    let title = cat(vmid.as_str(), " 的 bilibili 追番列表");
    let mut link = cat("https://space.bilibili.com/", vmid.as_str());
    push_str(&mut link, "/bangumi");
    let f = Feed { title: title.clone(), link, description: title, pub_date: None, items };
    assert(f@.items =~= list@.map_values(|x: Json| series_item(x, now@)));
    Ok(f)
}

/// Law: a followed series is titled by its `title` and links to the play
/// page of its `season_id`.
pub proof fn law_series_link(item: Json, now: Seq<char>)
    ensures
        series_item(item, now).title == Some(crate::routes::member_str(item, "title"@)),
        series_item(item, now).link == Some(
            "https://www.bilibili.com/bangumi/play/ss"@ + crate::text::dec_int(crate::routes::bilibili_video::int_of(item, "season_id"@) as int)
                + "?from_spmid=666.25.0.0"@,
        ),
{
}

/// Law: the feed, where there is one, has one item per element of
/// `/data/list`, in order, each linking to the play page of the series' `season_id`.
pub proof fn law_feed_items(para: Map<Seq<char>, Seq<char>>, json: Json, now: Seq<char>)
    ensures
        spec_feed(para, json, now) matches Ok(f) ==> match crate::json::ptr_array(json, "/data/list"@) {
            Some(list) => f.items.len() == list.len() && forall|i: int|
                0 <= i < list.len() ==> (#[trigger] f.items[i]).link == Some("https://www.bilibili.com/bangumi/play/ss"@ + crate::text::dec_int(crate::routes::bilibili_video::int_of(list[i], "season_id"@) as int) + "?from_spmid=666.25.0.0"@),
            None => false,
        },
{
}

} // verus!
