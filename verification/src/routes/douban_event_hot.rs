//! `/douban_event_hot`: popular events of a Douban city.
use crate::easyuser::{pair_views, Params};
use crate::feed::{Feed, FeedItem, FeedItemView, FeedView};
use crate::json::Json;
use crate::request_rules::RouteError;
use crate::routes::{
    feed_result_is, get_with_header, item_views, member_str, member_str_exec, nested_str,
    nested_str_exec, param_or, param_or_exec, Fetch,
};
use crate::text::{cat, push_str};
use vstd::prelude::*;

verus! {

/// The request for the city `locationId` (default `0`).
pub fn request(para: &Params) -> (r: Fetch)
    ensures
        r.url@
            == "https://m.douban.com/rexxar/api/v2/subject_collection/event_hot/items?os=ios&for_mobile=1&callback=&start=0&count=20&loc_id="@
            + param_or(para@, "locationId"@, "0"@),
        pair_views(r.headers@) == seq![("Referer"@, "https://m.douban.com/app_topic/event_hot"@)],
{
    let url = cat(
        "https://m.douban.com/rexxar/api/v2/subject_collection/event_hot/items?os=ios&for_mobile=1&callback=&start=0&count=20&loc_id=",
        param_or_exec(para, "locationId", "0").as_str(),
    );
    get_with_header(url, "Referer", "https://m.douban.com/app_topic/event_hot")
}

/// The item for an event: its cover, description, kind and prices.
pub open spec fn event_item(item: Json) -> FeedItemView {
    FeedItemView {
        title: Some(member_str(item, "title"@)),
        link: Some(member_str(item, "url"@)),
        description: Some(
            "<img src=\""@ + nested_str(item, "cover"@, "url"@)
                + "\" referrerpolicy=\"no-referrer\"><br>"@ + member_str(item, "info"@) + " / "@
                + member_str(item, "subtype"@) + " / "@ + member_str(item, "price_range"@),
        ),
        pub_date: None,
        author: None,
        guid: None,
        categories: seq![],
    }
}

/// The feed for the API's answer.
pub open spec fn spec_feed(para: Map<Seq<char>, Seq<char>>, json: Json) -> Result<
    FeedView,
    Seq<char>,
> {
    match crate::json::ptr_array(json, "/subject_collection_items"@) {
        None => Err("找不到 subject_collection_items 字段或不是数组"@),
        Some(items) => Ok(
            FeedView {
                title: "豆瓣同城-热门活动-"@ + param_or(para, "locationId"@, "0"@),
                link: "https://m.douban.com/app_topic/event_hot"@,
                description: seq![],
                pub_date: None,
                items: items.map_values(|it: Json| event_item(it)),
            },
        ),
    }
}

fn event_item_exec(item: &Json) -> (r: FeedItem)
    ensures
        r@ == event_item(*item),
{
    let mut d = cat("<img src=\"", nested_str_exec(item, "cover", "url").as_str());
    push_str(&mut d, "\" referrerpolicy=\"no-referrer\"><br>");
    push_str(&mut d, member_str_exec(item, "info").as_str());
    push_str(&mut d, " / ");
    push_str(&mut d, member_str_exec(item, "subtype").as_str());
    push_str(&mut d, " / ");
    push_str(&mut d, member_str_exec(item, "price_range").as_str());
    let r = FeedItem {
        title: Some(member_str_exec(item, "title")),
        link: Some(member_str_exec(item, "url")),
        description: Some(d),
        pub_date: None,
        author: None,
        guid: None,
        categories: Vec::new(),
    };
    assert(r@.categories =~= Seq::<Seq<char>>::empty());
    r
}

/// `get`, after the fetch: the feed for the API's answer.
pub fn build_feed(para: &Params, json: &Json) -> (r: Result<Feed, RouteError>)
    ensures
        feed_result_is(r, spec_feed(para@, *json)),
{
    let list = match json.ptr_array("/subject_collection_items") {
        Some(a) => a,
        None => {
            return Err(RouteError::msg("找不到 subject_collection_items 字段或不是数组"));
        },
    };
    let ghost want = list@.map_values(|it: Json| event_item(it));
    let mut items: Vec<FeedItem> = Vec::new();
    let mut i: usize = 0;
    assert(item_views(items@) =~= want.take(0));
    while i < list.len()
        invariant
            i <= list.len(),
            want == list@.map_values(|it: Json| event_item(it)),
            item_views(items@) == want.take(i as int),
        decreases list.len() - i,
    {
        let it = event_item_exec(&list[i]);
        let ghost before = item_views(items@);
        items.push(it);
        assert(item_views(items@) =~= before.push(it@));
        assert(want.take(i + 1) =~= want.take(i as int).push(want[i as int]));
        i = i + 1;
    }
    assert(want.take(list.len() as int) == want);
    Ok(
        Feed {
            title: cat("豆瓣同城-热门活动-", param_or_exec(para, "locationId", "0").as_str()),
            link: "https://m.douban.com/app_topic/event_hot".to_owned(),
            description: String::new(),
            pub_date: None,
            items,
        },
    )
}

/// Law: each item of the feed links to its event's `url` member (the
/// event's web page), empty where the event has none.
pub proof fn law_event_links_url(para: Map<Seq<char>, Seq<char>>, json: Json)
    ensures
        spec_feed(para, json) matches Ok(f) ==> forall|i: int|
            0 <= i < f.items.len() ==> (#[trigger] f.items[i]).link == Some(
                match crate::json::json_index(
                    crate::json::ptr_array(json, "/subject_collection_items"@)->0[i],
                    "url"@,
                ) {
                    Json::Str(u) => u@,
                    _ => seq![],
                },
            ),
{
}

/// Law: an event's item is titled by the event's `title` member, shows its
/// cover (`cover.url`) then its `info`, `subtype` and `price_range`
/// members, and carries no date, author or guid.
pub proof fn law_event_item_fields(item: Json)
    ensures
        ({
            let s = |k: Seq<char>| match crate::json::json_index(item, k) {
                Json::Str(t) => t@,
                _ => seq![],
            };
            let cover = match crate::json::json_index(crate::json::json_index(item, "cover"@), "url"@) {
                Json::Str(t) => t@,
                _ => seq![],
            };
            &&& event_item(item).title == Some(s("title"@))
            &&& event_item(item).description == Some(
                "<img src=\""@ + cover + "\" referrerpolicy=\"no-referrer\"><br>"@ + s("info"@)
                    + " / "@ + s("subtype"@) + " / "@ + s("price_range"@),
            )
            &&& event_item(item).pub_date is None
            &&& event_item(item).author is None
            &&& event_item(item).guid is None
        }),
{
}

} // verus!
