//! `/bilibili_blackroom`: bilibili's public list of bans.
use crate::dates::{or_else, timestamp_to_rss, ts_rfc2822};
use crate::easyuser::{pair_views, Params};
use crate::feed::{Feed, FeedItem, FeedItemView, FeedView};
use crate::json::{json_index, json_text, json_to_string, ptr_array, Json};
use crate::request_rules::RouteError;
use crate::routes::bilibili_video::{int_of, int_of_exec};
use crate::routes::{
    code_error, code_error_exec, get_with_header, member_str, member_str_exec, param_nonempty_or,
    param_nonempty_or_exec, param_or, param_or_exec, Fetch,
};
use crate::text::{cat, dec_int, i64_to_string, is_empty, push_str};
use vstd::prelude::*;

verus! {

/// The API address: kind of ban (any by default), kind of origin (`0`) and
/// page (`1`).
pub open spec fn api_url(para: Map<Seq<char>, Seq<char>>) -> Seq<char> {
    "https://api.bilibili.com/x/credit/blocked/list?btype="@ + param_or(para, "btype"@, seq![])
        + "&otype="@ + param_nonempty_or(para, "otype"@, "0"@) + "&pn="@ + param_nonempty_or(
        para,
        "pn"@,
        "1"@,
    )
}

/// The request, with the list's page as `Referer`.
pub fn request(para: &Params) -> (r: Fetch)
    ensures
        r.url@ == api_url(para@),
        pair_views(r.headers@) == seq![("Referer"@, "https://www.bilibili.com/blackroom/"@)],
{
    let mut url = cat(
        "https://api.bilibili.com/x/credit/blocked/list?btype=",
        param_or_exec(para, "btype", "").as_str(),
    );
    push_str(&mut url, "&otype=");
    push_str(&mut url, param_nonempty_or_exec(para, "otype", "0").as_str());
    push_str(&mut url, "&pn=");
    push_str(&mut url, param_nonempty_or_exec(para, "pn", "1").as_str());
    proof {
        reveal_strlit("");
        assert(""@ =~= Seq::<char>::empty());
    }
    get_with_header(url, "Referer", "https://www.bilibili.com/blackroom/")
}

/// The item of one ban: its title (or the user and id), the ban's page,
/// and a description with the user, origin, reason, measure, days, origin
/// title and comment count; dated when the ban was decided.
pub open spec fn ban_item(b: Json, now: Seq<char>) -> FeedItemView {
    let uname = member_str(b, "uname"@);
    let uid = dec_int(int_of(b, "uid"@) as int);
    let pt = member_str(b, "punishTitle"@);
    FeedItemView {
        title: Some(
            if pt.len() == 0 {
                uname + "("@ + uid + ")"@
            } else {
                pt + " - "@ + uname
            },
        ),
        link: Some("https://www.bilibili.com/blackroom/ban#/detail/"@ + json_text(json_index(b, "id"@))),
        description: Some(
            "<img src=\""@ + member_str(b, "face"@)
                + "\" referrerpolicy=\"no-referrer\"><br>用户: <a href=\"https://space.bilibili.com/"@
                + uid + "/\">"@ + uname + "</a><br>来源: "@ + member_str(b, "originTypeName"@)
                + "<br>封禁原因: "@ + member_str(b, "reasonTypeName"@) + "<br>处理手段: "@ + member_str(
                b,
                "punishTypeName"@,
            ) + "<br>封禁天数: "@ + dec_int(int_of(b, "blockedDays"@) as int) + "<br>来源标题: "@
                + member_str(b, "originTitle"@) + "<br>评论数: "@ + dec_int(int_of(b, "commentSum"@) as int),
        ),
        pub_date: Some(or_else(ts_rfc2822(int_of(b, "punishTime"@)), now)),
        author: Some(uname),
        guid: None,
        categories: seq![],
    }
}

/// The feed of the answer, or the failure.
pub open spec fn spec_feed(json: Json, now: Seq<char>) -> Result<FeedView, Seq<char>> {
    match code_error(json) {
        Some(e) => Err(e),
        None => match ptr_array(json, "/data"@) {
            None => Err("找不到 data 字段或不是数组"@),
            Some(list) => Ok(
                FeedView {
                    title: "B站小黑屋封禁公示"@,
                    link: "https://www.bilibili.com/blackroom/"@,
                    description: "B站小黑屋封禁公示列表"@,
                    pub_date: None,
                    items: list.map_values(|b: Json| ban_item(b, now)),
                },
            ),
        },
    }
}

fn ban_item_exec(b: &Json, now: &str) -> (r: FeedItem)
    ensures
        r@ == ban_item(*b, now@),
{
    let uname = member_str_exec(b, "uname");
    let uid = i64_to_string(int_of_exec(b, "uid"));
    let pt = member_str_exec(b, "punishTitle");
    let title = if is_empty(pt.as_str()) {
        let mut t = cat(uname.as_str(), "(");
        push_str(&mut t, uid.as_str());
        push_str(&mut t, ")");
        t
    } else {
        let mut t = cat(pt.as_str(), " - ");
        push_str(&mut t, uname.as_str());
        t
    };
    let null = Json::Null;
    let id = match b.get("id") {
        Some(x) => x,
        None => &null,
    };
    let mut d = cat("<img src=\"", member_str_exec(b, "face").as_str());
    push_str(&mut d, "\" referrerpolicy=\"no-referrer\"><br>用户: <a href=\"https://space.bilibili.com/");
    push_str(&mut d, uid.as_str());
    push_str(&mut d, "/\">");
    push_str(&mut d, uname.as_str());
    push_str(&mut d, "</a><br>来源: ");
    push_str(&mut d, member_str_exec(b, "originTypeName").as_str());
    push_str(&mut d, "<br>封禁原因: ");
    push_str(&mut d, member_str_exec(b, "reasonTypeName").as_str());
    push_str(&mut d, "<br>处理手段: ");
    push_str(&mut d, member_str_exec(b, "punishTypeName").as_str());
    push_str(&mut d, "<br>封禁天数: ");
    push_str(&mut d, i64_to_string(int_of_exec(b, "blockedDays")).as_str());
    push_str(&mut d, "<br>来源标题: ");
    push_str(&mut d, member_str_exec(b, "originTitle").as_str());
    push_str(&mut d, "<br>评论数: ");
    push_str(&mut d, i64_to_string(int_of_exec(b, "commentSum")).as_str());
    let r = FeedItem {
        title: Some(title),
        link: Some(cat("https://www.bilibili.com/blackroom/ban#/detail/", json_to_string(id).as_str())),
        description: Some(d),
        pub_date: Some(timestamp_to_rss(int_of_exec(b, "punishTime"), now)),
        author: Some(uname),
        guid: None,
        categories: Vec::new(),
    };
    assert(r@.categories =~= Seq::<Seq<char>>::empty());
    r
}

/// The feed of the answer (see [`spec_feed`]).
pub fn build_feed(json: &Json, now: &str) -> (r: Result<Feed, RouteError>)
    ensures
        match r {
            Ok(f) => spec_feed(*json, now@) == Ok::<_, Seq<char>>(f@),
            Err(RouteError::Message(m)) => spec_feed(*json, now@) == Err::<FeedView, _>(m@),
            Err(_) => false,
        },
{
    match code_error_exec(json) {
        Some(e) => return Err(RouteError::Message(e)),
        None => {},
    }
    let list = match json.ptr_array("/data") {
        Some(v) => v,
        None => return Err(RouteError::msg("找不到 data 字段或不是数组")),
    };
    let mut items: Vec<FeedItem> = Vec::new();
    let mut i: usize = 0;
    while i < list.len()
        invariant
            i <= list.len(),
            items.len() == i,
            forall|j: int| 0 <= j < i ==> #[trigger] items@[j]@ == ban_item(list@[j], now@),
        decreases list.len() - i,
    {
        items.push(ban_item_exec(&list[i], now));
        i = i + 1;
    }
    let f = Feed {
        title: "B站小黑屋封禁公示".to_owned(),
        link: "https://www.bilibili.com/blackroom/".to_owned(),
        description: "B站小黑屋封禁公示列表".to_owned(),
        pub_date: None,
        items,
    };
    assert(f@.items =~= list@.map_values(|b: Json| ban_item(b, now@)));
    Ok(f)
}

/// Law: a ban links to the page of its `id` (written as JSON) and is dated
/// by its `punishTime`.
pub proof fn law_ban_link(b: Json, now: Seq<char>)
    ensures
        ban_item(b, now).link == Some(
            "https://www.bilibili.com/blackroom/ban#/detail/"@ + crate::json::json_text(crate::json::json_index(b, "id"@)),
        ),
        ban_item(b, now).pub_date == Some(or_else(ts_rfc2822(crate::routes::bilibili_video::int_of(b, "punishTime"@)), now)),
{
}

/// Law: the feed, where there is one, has one item per element of
/// `/data`, in order, each linking to the page of the ban's `id`.
pub proof fn law_feed_items(json: Json, now: Seq<char>)
    ensures
        spec_feed(json, now) matches Ok(f) ==> match crate::json::ptr_array(json, "/data"@) {
            Some(list) => f.items.len() == list.len() && forall|i: int|
                0 <= i < list.len() ==> (#[trigger] f.items[i]).link == Some("https://www.bilibili.com/blackroom/ban#/detail/"@ + crate::json::json_text(crate::json::json_index(list[i], "id"@))),
            None => false,
        },
{
}

/// Law: a ban is titled by its `punishTitle` and the user's `uname`, or,
/// without a title, by the user's `uname` and `uid`.
pub proof fn law_ban_title(b: Json, now: Seq<char>)
    ensures
        ban_item(b, now).title == Some(
            if crate::routes::member_str(b, "punishTitle"@).len() == 0 {
                crate::routes::member_str(b, "uname"@) + "("@ + crate::text::dec_int(crate::routes::bilibili_video::int_of(b, "uid"@) as int) + ")"@
            } else {
                crate::routes::member_str(b, "punishTitle"@) + " - "@ + crate::routes::member_str(b, "uname"@)
            },
        ),
{
}

} // verus!
