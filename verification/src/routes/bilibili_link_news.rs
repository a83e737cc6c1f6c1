//! `/bilibili_link_news`: announcements of bilibili's live, short-video
//! and album products.
use crate::easyuser::{no_double_quotes, param, Params};
use crate::feed::{Feed, FeedItem, FeedItemView, FeedView};
use crate::json::{json_as_i64, json_as_str, json_index, json_text, json_to_string, Json};
use crate::request_rules::RouteError;
use crate::routes::{
    fetch_result_is, feed_result_is, get_with_header, item_views, member_str, member_str_exec,
};
use crate::text::{cat, dec_int, i64_to_string, is_empty, push_str, replace, replace_str, str_eq, trim_char};
use vstd::prelude::*;

verus! {

/// The name of a product: `live`, `vc` or `wh`.
pub open spec fn product_title(p: Seq<char>) -> Option<Seq<char>> {
    if p == "live"@ {
        Some("直播"@)
    } else if p == "vc"@ {
        Some("小视频"@)
    } else if p == "wh"@ {
        Some("相簿"@)
    } else {
        None
    }
}

fn product_title_exec(p: &str) -> (r: Option<&'static str>)
    ensures
        match r {
            Some(t) => product_title(p@) == Some(t@),
            None => product_title(p@) is None,
        },
{
    if str_eq(p, "live") {
        Some("直播")
    } else if str_eq(p, "vc") {
        Some("小视频")
    } else if str_eq(p, "wh") {
        Some("相簿")
    } else {
        None
    }
}

/// The product asked for, or why it cannot be served.
pub open spec fn spec_product(para: Map<Seq<char>, Seq<char>>) -> Result<(Seq<char>, Seq<char>), Seq<char>> {
    match param(para, "product"@) {
        None => Err("缺少 product 参数 (live/vc/wh)"@),
        Some(p) => match product_title(p) {
            Some(t) => Ok((p, t)),
            None => Err("无效的 product 值: "@ + p + "，可选: live/vc/wh"@),
        },
    }
}

fn product(para: &Params) -> (r: Result<(String, &'static str), RouteError>)
    ensures
        match r {
            Ok((p, t)) => spec_product(para@) == Ok::<(Seq<char>, Seq<char>), Seq<char>>((p@, t@)),
            Err(RouteError::Message(m)) => spec_product(para@) == Err::<
                (Seq<char>, Seq<char>),
                Seq<char>,
            >(m@),
            Err(_) => false,
        },
{
    let p = match para.get("product") {
        Some(p) => p,
        None => {
            return Err(RouteError::msg("缺少 product 参数 (live/vc/wh)"));
        },
    };
    match product_title_exec(p.as_str()) {
        Some(t) => Ok((p.clone(), t)),
        None => {
            let mut m = cat("无效的 product 值: ", p.as_str());
            push_str(&mut m, "，可选: live/vc/wh");
            Err(RouteError::Message(m))
        },
    }
}

/// The request.
pub open spec fn spec_request(para: Map<Seq<char>, Seq<char>>) -> Result<
    (Seq<char>, Seq<(Seq<char>, Seq<char>)>),
    Seq<char>,
> {
    match spec_product(para) {
        Err(e) => Err(e),
        Ok((p, _)) => Ok(
            (
                "https://api.vc.bilibili.com/news/v1/notice/list?platform=pc&product="@ + p
                    + "&category=all&page_no=1&page_size=20"@,
                seq![("Referer"@, "https://link.bilibili.com/p/eden/news"@)],
            ),
        ),
    }
}

/// The request.
pub fn request(para: &Params) -> (r: Result<crate::routes::Fetch, RouteError>)
    ensures
        fetch_result_is(r, spec_request(para@)),
{
    let (p, _) = product(para)?;
    let mut url = cat(
        "https://api.vc.bilibili.com/news/v1/notice/list?platform=pc&product=",
        p.as_str(),
    );
    push_str(&mut url, "&category=all&page_no=1&page_size=20");
    Ok(get_with_header(url, "Referer", "https://link.bilibili.com/p/eden/news"))
}

/// The item for an announcement: dated from `ctime` (`YYYY-MM-DD HH:MM:SS`
/// becomes `YYYY-MM-DDTHH:MM:SS +08:00`), else `now`.
pub open spec fn news_item(item: Json, now: Seq<char>) -> FeedItemView {
    let ctime = member_str(item, "ctime"@);
    FeedItemView {
        title: Some(trim_char(json_text(json_index(item, "title"@)), '"')),
        link: Some(
            match json_as_str(json_index(item, "announce_link"@)) {
                Some(l) => l,
                None => "https://link.bilibili.com/p/eden/news#/newsdetail?id="@ + dec_int(
                    match json_as_i64(json_index(item, "id"@)) {
                        Some(n) => n as int,
                        None => 0,
                    },
                ),
            },
        ),
        description: Some(
            member_str(item, "mark"@) + "<br><img src=\""@ + member_str(item, "cover_url"@)
                + "\" referrerpolicy=\"no-referrer\">"@,
        ),
        pub_date: Some(
            if ctime.len() > 0 {
                replace(ctime, " "@, "T"@) + " +08:00"@
            } else {
                now
            },
        ),
        author: None,
        guid: None,
        categories: seq![],
    }
}

/// The feed for the API's answer.
pub open spec fn spec_feed(para: Map<Seq<char>, Seq<char>>, json: Json, now: Seq<char>) -> Result<
    FeedView,
    Seq<char>,
> {
    match spec_product(para) {
        Err(e) => Err(e),
        Ok((p, t)) => match crate::json::ptr_array(json, "/data/items"@) {
            None => Err("找不到 data/items 字段或不是数组"@),
            Some(list) => Ok(
                FeedView {
                    title: "bilibili "@ + t + "公告"@,
                    link: "https://link.bilibili.com/p/eden/news#/?tab="@ + p
                        + "&tag=all&page_no=1"@,
                    description: "bilibili "@ + t + "公告"@,
                    pub_date: None,
                    items: list.map_values(|it: Json| news_item(it, now)),
                },
            ),
        },
    }
}

fn news_item_exec(item: &Json, now: &str) -> (r: FeedItem)
    ensures
        r@ == news_item(*item, now@),
{
    let ctime = member_str_exec(item, "ctime");
    let link = match item.str_at("announce_link") {
        Some(l) => l.clone(),
        None => {
            let id: i64 = match item.i64_at("id") {
                Some(n) => n,
                None => 0,
            };
            cat("https://link.bilibili.com/p/eden/news#/newsdetail?id=", i64_to_string(id).as_str())
        },
    };
    let mut description = member_str_exec(item, "mark");
    push_str(&mut description, "<br><img src=\"");
    push_str(&mut description, member_str_exec(item, "cover_url").as_str());
    push_str(&mut description, "\" referrerpolicy=\"no-referrer\">");
    let pub_date = if !is_empty(ctime.as_str()) {
        let mut d = replace_str(ctime.as_str(), " ", "T");
        push_str(&mut d, " +08:00");
        d
    } else {
        now.to_owned()
    };
    let title = match item.get("title") {
        Some(t) => json_to_string(t),
        None => "null".to_owned(),
    };
    let r = FeedItem {
        title: Some(no_double_quotes(title)),
        link: Some(link),
        description: Some(description),
        pub_date: Some(pub_date),
        author: None,
        guid: None,
        categories: Vec::new(),
    };
    assert(r@.categories =~= Seq::<Seq<char>>::empty());
    r
}

/// `get`, after the fetch: the feed for the API's answer; `now` is the
/// current time in RSS form.
pub fn build_feed(para: &Params, json: &Json, now: &str) -> (r: Result<Feed, RouteError>)
    ensures
        feed_result_is(r, spec_feed(para@, *json, now@)),
{
    let (p, t) = match product(para) {
        Ok(x) => x,
        Err(e) => {
            return Err(e);
        },
    };
    let list = match json.ptr_array("/data/items") {
        Some(a) => a,
        None => {
            return Err(RouteError::msg("找不到 data/items 字段或不是数组"));
        },
    };
    let ghost want = list@.map_values(|it: Json| news_item(it, now@));
    let mut items: Vec<FeedItem> = Vec::new();
    let mut i: usize = 0;
    assert(item_views(items@) =~= want.take(0));
    while i < list.len()
        invariant
            i <= list.len(),
            want == list@.map_values(|it: Json| news_item(it, now@)),
            item_views(items@) == want.take(i as int),
        decreases list.len() - i,
    {
        let it = news_item_exec(&list[i], now);
        let ghost before = item_views(items@);
        items.push(it);
        assert(item_views(items@) =~= before.push(it@));
        assert(want.take(i + 1) =~= want.take(i as int).push(want[i as int]));
        i = i + 1;
    }
    assert(want.take(list.len() as int) == want);
    let mut title = cat("bilibili ", t);
    push_str(&mut title, "公告");
    let description = title.clone();
    let mut link = cat("https://link.bilibili.com/p/eden/news#/?tab=", p.as_str());
    push_str(&mut link, "&tag=all&page_no=1");
    let ghost sv = spec_feed(para@, *json, now@);
    assert(sv->Ok_0.items == item_views(items@));
    Ok(Feed { title, link, description, pub_date: None, items })
}

/// Law: an announcement links to its `announce_link`, or, without one, to
/// the news page of its `id` (0 where it has none); it is titled by its
/// `title`.
pub proof fn law_news_link(item: Json, now: Seq<char>)
    ensures
        news_item(item, now).title == Some(crate::text::trim_char(json_text(json_index(item, "title"@)), '"')),
        json_index(item, "announce_link"@) matches Json::Str(l) ==> news_item(item, now).link == Some(l@),
        !(json_index(item, "announce_link"@) is Str) ==> news_item(item, now).link == Some(
            "https://link.bilibili.com/p/eden/news#/newsdetail?id="@ + crate::text::dec_int(
                match json_as_i64(json_index(item, "id"@)) {
                    Some(n) => n as int,
                    None => 0,
                },
            ),
        ),
{
}

} // verus!
