//! `/bilibili_weekly`: bilibili's weekly selection. The number of the
//! latest issue is asked first, then the issue itself.
use crate::easyuser::no_double_quotes;
use crate::feed::{Feed, FeedItem, FeedItemView, FeedView};
use crate::json::{json_as_str, json_index, json_pointer, json_text, json_to_string, Json};
use crate::request_rules::RouteError;
use crate::routes::{collect_items, feed_result_is, item_views, lemma_collect_fail, player, player_exec};
use crate::text::{cat, push_str, trim_char};
use vstd::prelude::*;

verus! {

/// The address that lists the issues.
pub open spec fn series_url() -> Seq<char> {
    "https://app.bilibili.com/x/v2/show/popular/selected/series?type=weekly_selected"@
}

/// The address that lists the issues.
pub fn series_request() -> (r: String)
    ensures
        r@ == series_url(),
{
    "https://app.bilibili.com/x/v2/show/popular/selected/series?type=weekly_selected".to_owned()
}

/// The address of the latest issue, from the list of issues: the number of
/// the first one, written as JSON; an error quoting the answer when there
/// is none.
pub open spec fn spec_issue_url(series: Json) -> Result<Seq<char>, Seq<char>> {
    match json_pointer(series, "/data/0/number"@) {
        Some(n) => Ok(
            "https://app.bilibili.com/x/v2/show/popular/selected?type=weekly_selected&number="@
                + json_text(n),
        ),
        None => Err("router.rs出现错误"@ + json_text(series)),
    }
}

/// The address of the latest issue (see [`spec_issue_url`]).
pub fn issue_url(series: &Json) -> (r: Result<String, RouteError>)
    ensures
        match r {
            Ok(u) => spec_issue_url(*series) == Ok::<Seq<char>, Seq<char>>(u@),
            Err(RouteError::Message(m)) => spec_issue_url(*series) == Err::<Seq<char>, Seq<char>>(m@),
            Err(_) => false,
        },
{
    match series.pointer("/data/0/number") {
        Some(n) => Ok(
            cat(
                "https://app.bilibili.com/x/v2/show/popular/selected?type=weekly_selected&number=",
                json_to_string(n).as_str(),
            ),
        ),
        None => Err(RouteError::Message(cat("router.rs出现错误", json_to_string(series).as_str()))),
    }
}

/// A member written as JSON, quotes at both ends removed.
pub open spec fn bare(v: Json, key: Seq<char>) -> Seq<char> {
    trim_char(json_text(json_index(v, key)), '"')
}

/// The feed item for one video, or the message for the first field it
/// lacks (`param`, `bvid`, `cover`, `title`, in that order).
#[verifier::opaque]
pub open spec fn video_item(v: Json, now: Seq<char>) -> Result<FeedItemView, Seq<char>> {
    let s = |k: Seq<char>| json_as_str(json_index(v, k));
    if s("param"@) is None {
        Err("缺少 avid param 字段"@)
    } else if s("bvid"@) is None {
        Err("缺少 bvid 字段"@)
    } else if s("cover"@) is None {
        Err("缺少 cover 字段"@)
    } else if s("title"@) is None {
        Err("缺少 title 字段"@)
    } else {
        Ok(
            FeedItemView {
                title: Some(bare(v, "title"@)),
                link: Some(bare(v, "short_link"@)),
                description: Some(
                    player(s("param"@)->0, s("bvid"@)->0) + "<br><img src=\""@ + s("cover"@)->0
                        + "\" referrerpolicy=\"no-referrer\"><br>"@ + s("title"@)->0,
                ),
                pub_date: Some(now),
                author: Some(bare(v, "right_desc_1"@)),
                guid: None,
                categories: seq![],
            },
        )
    }
}

/// The feed for an issue; every item is dated `now`.
pub open spec fn spec_feed(json: Json, now: Seq<char>) -> Result<FeedView, Seq<char>> {
    match crate::json::ptr_array(json, "/data/list"@) {
        None => Err("找不到 data.list 字段或不是数组"@),
        Some(list) => match collect_items(list, |v: Json| video_item(v, now)) {
            Err(e) => Err(e),
            Ok(items) => Ok(
                FeedView {
                    title: "B站每周必看"@,
                    link: "https://www.bilibili.com/v/popular/weekly"@,
                    description: "B站每周必看视频精选"@,
                    pub_date: None,
                    items,
                },
            ),
        },
    }
}

fn bare_exec(v: &Json, key: &str) -> (r: String)
    ensures
        r@ == bare(*v, key@),
{
    let t = match v.get(key) {
        Some(x) => json_to_string(x),
        None => "null".to_owned(),
    };
    no_double_quotes(t)
}

fn build_video(v: &Json, now: &str) -> (r: Result<FeedItem, RouteError>)
    ensures
        match r {
            Ok(it) => video_item(*v, now@) == Ok::<FeedItemView, Seq<char>>(it@),
            Err(RouteError::Message(m)) => video_item(*v, now@) == Err::<FeedItemView, Seq<char>>(
                m@,
            ),
            Err(_) => false,
        },
{
    proof {
        reveal(video_item);
    }
    let param = match v.str_at("param") {
        Some(p) => p,
        None => {
            return Err(RouteError::msg("缺少 avid param 字段"));
        },
    };
    let bvid = match v.str_at("bvid") {
        Some(b) => b,
        None => {
            return Err(RouteError::msg("缺少 bvid 字段"));
        },
    };
    let cover = match v.str_at("cover") {
        Some(c) => c,
        None => {
            return Err(RouteError::msg("缺少 cover 字段"));
        },
    };
    let title = match v.str_at("title") {
        Some(t) => t,
        None => {
            return Err(RouteError::msg("缺少 title 字段"));
        },
    };
    let mut d = player_exec(param.as_str(), bvid.as_str());
    push_str(&mut d, "<br><img src=\"");
    push_str(&mut d, cover.as_str());
    push_str(&mut d, "\" referrerpolicy=\"no-referrer\"><br>");
    push_str(&mut d, title.as_str());
    let it = FeedItem {
        title: Some(bare_exec(v, "title")),
        link: Some(bare_exec(v, "short_link")),
        description: Some(d),
        pub_date: Some(now.to_owned()),
        author: Some(bare_exec(v, "right_desc_1")),
        guid: None,
        categories: Vec::new(),
    };
    assert(it@.categories =~= Seq::<Seq<char>>::empty());
    Ok(it)
}

/// `get`, after the second fetch: the feed for the issue; `now` is the
/// current time in RSS form.
#[verifier::loop_isolation(false)]
pub fn build_feed(json: &Json, now: &str) -> (r: Result<Feed, RouteError>)
    ensures
        feed_result_is(r, spec_feed(*json, now@)),
{
    let list = match json.ptr_array("/data/list") {
        Some(l) => l,
        None => {
            return Err(RouteError::msg("找不到 data.list 字段或不是数组"));
        },
    };
    let ghost f = |v: Json| video_item(v, now@);
    let mut items: Vec<FeedItem> = Vec::new();
    let mut i: usize = 0;
    assert(list@.take(0) == Seq::<Json>::empty());
    assert(item_views(items@) =~= Seq::<FeedItemView>::empty());
    while i < list.len()
        invariant
            i <= list.len(),
            collect_items(list@.take(i as int), f) == Ok::<Seq<FeedItemView>, Seq<char>>(
                item_views(items@),
            ),
        decreases list.len() - i,
    {
        assert(list@.take(i + 1).drop_last() == list@.take(i as int));
        assert(list@.take(i + 1).last() == list@[i as int]);
        match build_video(&list[i], now) {
            Ok(it) => {
                let ghost before = item_views(items@);
                items.push(it);
                assert(item_views(items@) =~= before.push(it@));
            },
            Err(e) => {
                proof {
                    lemma_collect_fail(list@, f, i as int);
                }
                return Err(e);
            },
        }
        i = i + 1;
    }
    assert(list@.take(list.len() as int) == list@);
    Ok(
        Feed {
            title: "B站每周必看".to_owned(),
            link: "https://www.bilibili.com/v/popular/weekly".to_owned(),
            description: "B站每周必看视频精选".to_owned(),
            pub_date: None,
            items,
        },
    )
}

/// Law: a video's item, where one is made, links to the video's
/// `short_link` and is titled by its `title` (each written as JSON without
/// the quotes).
pub proof fn law_weekly_link(v: Json, now: Seq<char>)
    ensures
        video_item(v, now) matches Ok(it) ==> it.link == Some(
            crate::text::trim_char(json_text(json_index(v, "short_link"@)), '"'),
        ) && it.title == Some(crate::text::trim_char(json_text(json_index(v, "title"@)), '"')),
{
    reveal(video_item);
}

/// Law: the feed, where there is one, has one item per video of
/// `/data/list`, in order, each linking to that video's `short_link`.
pub proof fn law_feed_items(json: Json, now: Seq<char>)
    ensures
        spec_feed(json, now) matches Ok(f) ==> match crate::json::ptr_array(json, "/data/list"@) {
            Some(list) => f.items.len() == list.len() && forall|i: int|
                0 <= i < list.len() ==> (#[trigger] f.items[i]).link == Some(
                    crate::text::trim_char(json_text(json_index(list[i], "short_link"@)), '"'),
                ),
            None => false,
        },
{
    if let Some(list) = crate::json::ptr_array(json, "/data/list"@) {
        let g = |v: Json| video_item(v, now);
        crate::routes::lemma_collect_ok(list, g);
        assert forall|i: int| 0 <= i < list.len() implies (#[trigger] g(list[i]) matches Ok(it) ==> it.link == Some(
            crate::text::trim_char(json_text(json_index(list[i], "short_link"@)), '"'),
        )) by {
            law_weekly_link(list[i], now);
        }
    }
}

} // verus!
