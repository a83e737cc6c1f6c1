//! `/bilibili_popular`: bilibili's popular videos.
use crate::dates::{or_else, timestamp_to_rss, ts_rfc2822};
use crate::easyuser::{no_double_quotes, param, Params};
use crate::feed::{Feed, FeedItem, FeedItemView, FeedView};
use crate::json::{json_as_i64, json_as_str, json_as_u64, json_index, json_text, json_to_string, Json};
use crate::request_rules::RouteError;
use crate::routes::{collect_items, item_views, lemma_collect_fail, feed_result_is, param_or, param_or_exec, plain_get, player, player_exec, Fetch};
use crate::text::{cat, dec, push_str, str_eq, trim_char, u64_to_string};
use vstd::prelude::*;

verus! {

/// The API address for page `pn` of `ps` videos (defaults 1 and 30).
pub open spec fn api_url(para: Map<Seq<char>, Seq<char>>) -> Seq<char> {
    "https://api.bilibili.com/x/web-interface/popular?pn="@ + param_or(para, "pn"@, "1"@)
        + "&ps="@ + param_or(para, "ps"@, "30"@)
}

/// The request.
pub fn request(para: &Params) -> (r: Fetch)
    ensures
        r.url@ == api_url(para@),
        r.headers@.len() == 0,
{
    let mut url = cat(
        "https://api.bilibili.com/x/web-interface/popular?pn=",
        param_or_exec(para, "pn", "1").as_str(),
    );
    push_str(&mut url, "&ps=");
    push_str(&mut url, param_or_exec(para, "ps", "30").as_str());
    plain_get(url)
}

/// The string member `key`.
pub open spec fn str_of(v: Json, key: Seq<char>) -> Option<Seq<char>> {
    json_as_str(json_index(v, key))
}

/// The feed item for one video, or the message for the first field it
/// lacks (`aid`, `bvid`, `pic`, `pubdate`, in that order).
#[verifier::opaque]
pub open spec fn video_item(v: Json, embed: bool, now: Seq<char>) -> Result<FeedItemView, Seq<char>> {
    match json_as_u64(json_index(v, "aid"@)) {
        None => Err("缺少 aid 字段"@),
        Some(aid) => match str_of(v, "bvid"@) {
            None => Err("缺少 bvid 字段"@),
            Some(bvid) => match str_of(v, "pic"@) {
                None => Err("缺少 pic 字段"@),
                Some(pic) => match json_as_i64(json_index(v, "pubdate"@)) {
                    None => Err("缺少 pubdate 字段"@),
                    Some(pubdate) => {
                        let desc = match str_of(v, "desc"@) {
                            Some(d) => d,
                            None => seq![],
                        };
                        let author = match json_as_str(json_index(json_index(v, "owner"@), "name"@)) {
                            Some(a) => a,
                            None => "未知"@,
                        };
                        Ok(
                            FeedItemView {
                                title: Some(trim_char(json_text(json_index(v, "title"@)), '"')),
                                link: Some("https://www.bilibili.com/video/"@ + bvid),
                                description: Some(
                                    if embed {
                                        player(dec(aid as nat), bvid) + "<br><img src=\""@ + pic
                                            + "\" referrerpolicy=\"no-referrer\"><br>"@ + desc
                                    } else {
                                        seq![]
                                    },
                                ),
                                pub_date: Some(or_else(ts_rfc2822(pubdate), now)),
                                author: Some(author),
                                guid: None,
                                categories: seq![],
                            },
                        )
                    },
                },
            },
        },
    }
}

/// The feed for the API's answer: the player is embedded unless
/// `disableembed` is `false` (sic).
pub open spec fn spec_feed(para: Map<Seq<char>, Seq<char>>, json: Json, now: Seq<char>) -> Result<
    FeedView,
    Seq<char>,
> {
    match crate::json::ptr_array(json, "/data/list"@) {
        None => Err("找不到 data.list 字段或不是数组"@),
        Some(list) => match collect_items(
            list,
            |v: Json| video_item(v, param(para, "disableembed"@) != Some("false"@), now),
        ) {
            Err(e) => Err(e),
            Ok(items) => Ok(
                FeedView {
                    title: "B站热门视频"@,
                    link: "https://www.bilibili.com/v/popular/rank/all"@,
                    description: "B站热门视频精选"@,
                    pub_date: None,
                    items,
                },
            ),
        },
    }
}

fn build_video(v: &Json, embed: bool, now: &str) -> (r: Result<FeedItem, RouteError>)
    ensures
        match r {
            Ok(it) => video_item(*v, embed, now@) == Ok::<FeedItemView, Seq<char>>(it@),
            Err(RouteError::Message(m)) => video_item(*v, embed, now@) == Err::<
                FeedItemView,
                Seq<char>,
            >(m@),
            Err(_) => false,
        },
{
    proof {
        reveal(video_item);
    }
    let aid = match v.u64_at("aid") {
        Some(a) => a,
        None => {
            return Err(RouteError::msg("缺少 aid 字段"));
        },
    };
    let bvid = match v.str_at("bvid") {
        Some(b) => b,
        None => {
            return Err(RouteError::msg("缺少 bvid 字段"));
        },
    };
    let pic = match v.str_at("pic") {
        Some(p) => p,
        None => {
            return Err(RouteError::msg("缺少 pic 字段"));
        },
    };
    let pubdate = match v.i64_at("pubdate") {
        Some(p) => p,
        None => {
            return Err(RouteError::msg("缺少 pubdate 字段"));
        },
    };
    let desc = match v.str_at("desc") {
        Some(d) => d.clone(),
        None => String::new(),
    };
    let null = Json::Null;
    let owner = match v.get("owner") {
        Some(o) => o,
        None => &null,
    };
    let author = match owner.str_at("name") {
        Some(a) => a.clone(),
        None => "未知".to_owned(),
    };
    let title = match v.get("title") {
        Some(t) => json_to_string(t),
        None => "null".to_owned(),
    };
    let description = if embed {
        let mut d = player_exec(u64_to_string(aid).as_str(), bvid.as_str());
        push_str(&mut d, "<br><img src=\"");
        push_str(&mut d, pic.as_str());
        push_str(&mut d, "\" referrerpolicy=\"no-referrer\"><br>");
        push_str(&mut d, desc.as_str());
        d
    } else {
        String::new()
    };
    let it = FeedItem {
        title: Some(no_double_quotes(title)),
        link: Some(cat("https://www.bilibili.com/video/", bvid.as_str())),
        description: Some(description),
        pub_date: Some(timestamp_to_rss(pubdate, now)),
        author: Some(author),
        guid: None,
        categories: Vec::new(),
    };
    assert(it@.categories =~= Seq::<Seq<char>>::empty());
    Ok(it)
}

/// `get`, after the fetch: the feed for the API's answer; `now` is the
/// current time in RSS form.
#[verifier::loop_isolation(false)]
pub fn build_feed(para: &Params, json: &Json, now: &str) -> (r: Result<Feed, RouteError>)
    ensures
        feed_result_is(r, spec_feed(para@, *json, now@)),
{
    let list = match json.ptr_array("/data/list") {
        Some(l) => l,
        None => {
            return Err(RouteError::msg("找不到 data.list 字段或不是数组"));
        },
    };
    let embed = match para.get("disableembed") {
        Some(s) => !str_eq(s.as_str(), "false"),
        None => true,
    };
    let ghost f = |v: Json| video_item(v, embed, now@);
    let mut items: Vec<FeedItem> = Vec::new();
    let mut i: usize = 0;
    assert(list@.take(0) == Seq::<Json>::empty());
    assert(item_views(items@) =~= Seq::<FeedItemView>::empty());
    while i < list.len()
        invariant
            i <= list.len(),
            collect_items(list@.take(i as int), f) == Ok::<Seq<FeedItemView>, Seq<char>>(
                item_views(items@),
            ),
        decreases list.len() - i,
    {
        assert(list@.take(i + 1).drop_last() == list@.take(i as int));
        assert(list@.take(i + 1).last() == list@[i as int]);
        match build_video(&list[i], embed, now) {
            Ok(it) => {
                let ghost before = item_views(items@);
                items.push(it);
                assert(item_views(items@) =~= before.push(it@));
            },
            Err(e) => {
                proof {
                    lemma_collect_fail(list@, f, i as int);
                }
                return Err(e);
            },
        }
        i = i + 1;
    }
    assert(list@.take(list.len() as int) == list@);
    Ok(
        Feed {
            title: "B站热门视频".to_owned(),
            link: "https://www.bilibili.com/v/popular/rank/all".to_owned(),
            description: "B站热门视频精选".to_owned(),
            pub_date: None,
            items,
        },
    )
}

/// Law: a video's item, where one is made, links to
/// `https://www.bilibili.com/video/` followed by the video's `bvid` member,
/// whether or not the player is embedded and whatever the time.
pub proof fn law_video_links_bvid(v: Json, embed: bool, now: Seq<char>)
    ensures
        video_item(v, embed, now) matches Ok(it) ==> (json_index(v, "bvid"@) matches Json::Str(b)
            && it.link == Some("https://www.bilibili.com/video/"@ + b@)),
{
    reveal(video_item);
}

/// Law: a video's item, where one is made, is titled by the video's
/// `title`, written by its owner's `name` (`未知` where there is none) and
/// dated by its `pubdate`; its link is the same whether or not the player is
/// embedded.
pub proof fn law_video_item_fields(v: Json, embed: bool, now: Seq<char>, other: bool)
    ensures
        video_item(v, embed, now) matches Ok(it) ==> ({
            &&& it.title == Some(trim_char(json_text(json_index(v, "title"@)), '"'))
            &&& it.author == Some(
                match json_index(json_index(v, "owner"@), "name"@) {
                    Json::Str(a) => a@,
                    _ => "未知"@,
                },
            )
            &&& json_as_i64(json_index(v, "pubdate"@)) matches Some(p) && it.pub_date == Some(
                or_else(ts_rfc2822(p), now),
            )
            &&& video_item(v, other, now) matches Ok(o) && o.link == it.link
        }),
{
    reveal(video_item);
}

/// Law: the feed, where there is one, has one item per video of
/// `/data/list`, in order, each linking to the page of that video's `bvid`.
pub proof fn law_feed_items(para: Map<Seq<char>, Seq<char>>, json: Json, now: Seq<char>)
    ensures
        spec_feed(para, json, now) matches Ok(f) ==> match crate::json::ptr_array(json, "/data/list"@) {
            Some(list) => f.items.len() == list.len() && forall|i: int|
                0 <= i < list.len() ==> (json_index(list[i], "bvid"@) matches Json::Str(b) && (#[trigger] f.items[i]).link
                    == Some("https://www.bilibili.com/video/"@ + b@)),
            None => false,
        },
{
    if let Some(list) = crate::json::ptr_array(json, "/data/list"@) {
        let g = |v: Json| video_item(v, param(para, "disableembed"@) != Some("false"@), now);
        crate::routes::lemma_collect_ok(list, g);
        assert forall|i: int| 0 <= i < list.len() implies (#[trigger] g(list[i]) matches Ok(it) ==> (json_index(list[i], "bvid"@) matches Json::Str(b) && it.link == Some("https://www.bilibili.com/video/"@ + b@))) by {
            law_video_links_bvid(list[i], param(para, "disableembed"@) != Some("false"@), now);
        }
    }
}

} // verus!
