//! `/bilibili_collection`: the videos of a bilibili collection. The list is
//! asked first; the first video second, for the collection's author.
use crate::dates::{or_else, timestamp_to_rss, ts_rfc2822};
use crate::easyuser::{pair_views, param, Params};
use crate::feed::{Feed, FeedItem, FeedItemView, FeedView};
use crate::json::{
    json_as_i64, json_as_str, json_index, json_pointer, json_text, json_to_string, ptr_array,
    spec_parse_usize, Json,
};
use crate::request_rules::RouteError;
use crate::routes::bilibili_video::spec_embed;
use crate::routes::Fetch;
use crate::text::{cat, dec, dec_int, i64_to_string, push_str, str_eq, trim_char, u64_to_string};
use vstd::prelude::*;

verus! {

/// The browser the API is asked as.
pub open spec fn user_agent() -> Seq<char> {
    "Mozilla/5.0 (Windows NT 10.0; Win64; x64) AppleWebKit/537.36 (KHTML, like Gecko) Chrome/120.0.0.0 Safari/537.36"@
}

/// A parameter read as a `u32`, or `default`.
pub open spec fn u32_param(para: Map<Seq<char>, Seq<char>>, k: Seq<char>, default: u32) -> u32 {
    match param(para, k) {
        Some(v) => match spec_parse_usize(v) {
            Some(n) => if n <= u32::MAX {
                n as u32
            } else {
                default
            },
            None => default,
        },
        None => default,
    }
}

/// The list request for the parameters: user, collection, order (newest
/// first unless `sortreverse=false`), page and page size; or the failure.
pub open spec fn spec_request(para: Map<Seq<char>, Seq<char>>) -> Result<
    (Seq<char>, Seq<(Seq<char>, Seq<char>)>),
    Seq<char>,
> {
    match param(para, "uid"@) {
        None => Err("没有uid"@),
        Some(uid) => match param(para, "sid"@) {
            None => Err("没有sid"@),
            Some(sid) => {
                let rev = match param(para, "sortreverse"@) {
                    Some(v) => if v == "true"@ {
                        Some("1"@)
                    } else if v == "false"@ {
                        Some("0"@)
                    } else {
                        None
                    },
                    None => Some("1"@),
                };
                match rev {
                    None => Err("sortreverse 参数格式错误，应为 true 或 false"@),
                    Some(r) => Ok(
                        (
                            "https://api.bilibili.com/x/polymer/web-space/seasons_archives_list?mid="@
                                + uid + "&season_id="@ + sid + "&sort_reverse="@ + r + "&page_num="@
                                + dec(u32_param(para, "pagenum"@, 1) as nat) + "&page_size="@ + dec(
                                u32_param(para, "pagesize"@, 16) as nat,
                            ),
                            headers_of(uid),
                        ),
                    ),
                }
            },
        },
    }
}

/// The headers of both requests: the user's space as `Referer`, and a
/// browser's `User-Agent`.
pub open spec fn headers_of(uid: Seq<char>) -> Seq<(Seq<char>, Seq<char>)> {
    seq![("Referer"@, "https://space.bilibili.com/"@ + uid + "/"@), ("User-Agent"@, user_agent())]
}

fn headers_exec(uid: &str) -> (r: Vec<(String, String)>)
    ensures
        pair_views(r@) == headers_of(uid@),
{
    let mut referer = cat("https://space.bilibili.com/", uid);
    push_str(&mut referer, "/");
    let v = vec![
        ("Referer".to_owned(), referer),
        (
            "User-Agent".to_owned(),
            "Mozilla/5.0 (Windows NT 10.0; Win64; x64) AppleWebKit/537.36 (KHTML, like Gecko) Chrome/120.0.0.0 Safari/537.36".to_owned(),
        ),
    ];
    assert(pair_views(v@) =~= headers_of(uid@));
    v
}

fn u32_param_exec(para: &Params, k: &str, default: u32) -> (r: u32)
    ensures
        r == u32_param(para@, k@, default),
{
    match para.get(k) {
        Some(v) => match crate::json::parse_usize(v.as_str()) {
            Some(n) => if n <= 4294967295 {
                n as u32
            } else {
                default
            },
            None => default,
        },
        None => default,
    }
}

/// The list request (see [`spec_request`]).
pub fn request(para: &Params) -> (r: Result<Fetch, RouteError>)
    ensures
        crate::routes::fetch_result_is(r, spec_request(para@)),
{
    let uid = match para.get("uid") {
        Some(u) => u,
        None => return Err(RouteError::msg("没有uid")),
    };
    let sid = match para.get("sid") {
        Some(s) => s,
        None => return Err(RouteError::msg("没有sid")),
    };
    let rev = match para.get("sortreverse") {
        Some(v) => if str_eq(v.as_str(), "true") {
            "1"
        } else if str_eq(v.as_str(), "false") {
            "0"
        } else {
            return Err(RouteError::msg("sortreverse 参数格式错误，应为 true 或 false"));
        },
        None => "1",
    };
    let mut url = cat(
        "https://api.bilibili.com/x/polymer/web-space/seasons_archives_list?mid=",
        uid.as_str(),
    );
    push_str(&mut url, "&season_id=");
    push_str(&mut url, sid.as_str());
    push_str(&mut url, "&sort_reverse=");
    push_str(&mut url, rev);
    push_str(&mut url, "&page_num=");
    push_str(&mut url, u64_to_string(u32_param_exec(para, "pagenum", 1) as u64).as_str());
    push_str(&mut url, "&page_size=");
    push_str(&mut url, u64_to_string(u32_param_exec(para, "pagesize", 16) as u64).as_str());
    Ok(Fetch { url, headers: headers_exec(uid.as_str()) })
}

/// The request for the first video, for the author; or the failure: the
/// answer's `code` is not 0 (the whole answer is shown), or it lists no
/// video id.
pub open spec fn spec_author_request(para: Map<Seq<char>, Seq<char>>, list: Json) -> Result<
    (Seq<char>, Seq<(Seq<char>, Seq<char>)>),
    Seq<char>,
> {
    match param(para, "uid"@) {
        None => Err("没有uid"@),
        Some(uid) => if json_as_i64(json_index(list, "code"@)) != Some(0i64) {
            Err("请求失败，"@ + json_text(list))
        } else {
            match json_pointer(list, "/data/aids/0"@) {
                None => Err("bilibili_collection.rs在解析author时爬取信息出错"@),
                Some(aid) => Ok(
                    (
                        "https://api.bilibili.com/x/web-interface/view?aid="@ + json_text(aid),
                        headers_of(uid),
                    ),
                ),
            }
        },
    }
}

/// The request for the first video (see [`spec_author_request`]).
pub fn author_request(para: &Params, list: &Json) -> (r: Result<Fetch, RouteError>)
    ensures
        crate::routes::fetch_result_is(r, spec_author_request(para@, *list)),
{
    let uid = match para.get("uid") {
        Some(u) => u,
        None => return Err(RouteError::msg("没有uid")),
    };
    if list.i64_at("code") != Some(0i64) {
        return Err(RouteError::Message(cat("请求失败，", json_to_string(list).as_str())));
    }
    let aid = match list.pointer("/data/aids/0") {
        Some(a) => a,
        None => return Err(RouteError::msg("bilibili_collection.rs在解析author时爬取信息出错")),
    };
    Ok(Fetch {
        url: cat("https://api.bilibili.com/x/web-interface/view?aid=", json_to_string(aid).as_str()),
        headers: headers_exec(uid.as_str()),
    })
}

/// The author named by the first video's answer, or the failure.
pub open spec fn spec_author(view: Json) -> Result<Seq<char>, Seq<char>> {
    match json_pointer(view, "/data/owner/name"@) {
        None => Err("bilibili_collection.rs在解析author时解析出错"@),
        Some(n) => match json_as_str(n) {
            None => Err("owner/name 不是字符串"@),
            Some(s) => Ok(s),
        },
    }
}

/// The author named by the first video's answer (see [`spec_author`]).
pub fn author(view: &Json) -> (r: Result<String, RouteError>)
    ensures
        match r {
            Ok(a) => spec_author(*view) == Ok::<_, Seq<char>>(a@),
            Err(RouteError::Message(m)) => spec_author(*view) == Err::<Seq<char>, _>(m@),
            Err(_) => false,
        },
{
    match view.pointer("/data/owner/name") {
        None => Err(RouteError::msg("bilibili_collection.rs在解析author时解析出错")),
        Some(n) => match n.as_str() {
            None => Err(RouteError::msg("owner/name 不是字符串")),
            Some(s) => Ok(s.clone()),
        },
    }
}

/// A value's JSON text without the quotes around it.
pub open spec fn bare(v: Json) -> Seq<char> {
    trim_char(json_text(v), '"')
}

/// The item of one video, or the failure for a video without what it
/// needs: the player, cover and title when embedding, and always a
/// publication time.
pub open spec fn video_item(v: Json, author: Seq<char>, embed: bool, now: Seq<char>) -> Result<FeedItemView, Seq<char>> {
    let desc: Result<Seq<char>, Seq<char>> = if !embed {
        Ok(seq![])
    } else {
        match json_as_i64(json_index(v, "aid"@)) {
            None => Err("缺少 aid 字段"@),
            Some(aid) => match json_as_str(json_index(v, "bvid"@)) {
                None => Err("缺少 bvid 字段"@),
                Some(bvid) => match json_as_str(json_index(v, "pic"@)) {
                    None => Err("缺少 pic 字段"@),
                    Some(pic) => match json_as_str(json_index(v, "title"@)) {
                        None => Err("缺少 title 字段"@),
                        Some(title) => Ok(crate::routes::player(dec_int(aid as int), bvid)
                            + "<br><img src=\""@ + pic + "\" referrerpolicy=\"no-referrer\"><br>"@ + title),
                    },
                },
            },
        }
    };
    match desc {
        Err(e) => Err(e),
        Ok(d) => match json_as_i64(json_index(v, "pubdate"@)) {
            None => Err("bilibili_collection无法找到pubdate项"@),
            Some(ts) => Ok(
                FeedItemView {
                    title: Some(bare(json_index(v, "title"@))),
                    link: Some("https://www.bilibili.com/video/"@ + bare(json_index(v, "bvid"@))),
                    description: Some(d),
                    pub_date: Some(or_else(ts_rfc2822(ts), now)),
                    author: Some(author),
                    guid: None,
                    categories: seq![],
                },
            ),
        },
    }
}

fn index_or_null<'a>(v: &'a Json, key: &str, null: &'a Json) -> (r: &'a Json)
    requires
        *null == Json::Null,
    ensures
        *r == json_index(*v, key@),
{
    match v.get(key) {
        Some(x) => x,
        None => null,
    }
}

fn video_item_exec(v: &Json, author: &str, embed: bool, now: &str) -> (r: Result<FeedItem, RouteError>)
    ensures
        match r {
            Ok(it) => video_item(*v, author@, embed, now@) == Ok::<_, Seq<char>>(it@),
            Err(RouteError::Message(m)) => video_item(*v, author@, embed, now@) == Err::<FeedItemView, _>(m@),
            Err(_) => false,
        },
{
    let mut d = String::new();
    if embed {
        let aid = match v.i64_at("aid") {
            Some(a) => a,
            None => return Err(RouteError::msg("缺少 aid 字段")),
        };
        let bvid = match v.str_at("bvid") {
            Some(b) => b,
            None => return Err(RouteError::msg("缺少 bvid 字段")),
        };
        let pic = match v.str_at("pic") {
            Some(p) => p,
            None => return Err(RouteError::msg("缺少 pic 字段")),
        };
        let title = match v.str_at("title") {
            Some(t) => t,
            None => return Err(RouteError::msg("缺少 title 字段")),
        };
        d = crate::routes::player_exec(i64_to_string(aid).as_str(), bvid.as_str());
        push_str(&mut d, "<br><img src=\"");
        push_str(&mut d, pic.as_str());
        push_str(&mut d, "\" referrerpolicy=\"no-referrer\"><br>");
        push_str(&mut d, title.as_str());
    }
    let ts = match v.i64_at("pubdate") {
        Some(t) => t,
        None => return Err(RouteError::msg("bilibili_collection无法找到pubdate项")),
    };
    let null = Json::Null;
    let title = crate::easyuser::no_double_quotes(json_to_string(index_or_null(v, "title", &null)));
    let bvid = crate::easyuser::no_double_quotes(json_to_string(index_or_null(v, "bvid", &null)));
    let r = FeedItem {
        title: Some(title),
        link: Some(cat("https://www.bilibili.com/video/", bvid.as_str())),
        description: Some(d),
        pub_date: Some(timestamp_to_rss(ts, now)),
        author: Some(author.to_owned()),
        guid: None,
        categories: Vec::new(),
    };
    assert(r@.categories =~= Seq::<Seq<char>>::empty());
    Ok(r)
}

/// The items of the videos, or the first video's failure.
pub open spec fn video_items(vs: Seq<Json>, author: Seq<char>, embed: bool, now: Seq<char>) -> Result<
    Seq<FeedItemView>,
    Seq<char>,
>
    decreases vs.len(),
{
    if vs.len() == 0 {
        Ok(seq![])
    } else {
        match video_items(vs.drop_last(), author, embed, now) {
            Err(e) => Err(e),
            Ok(items) => match video_item(vs.last(), author, embed, now) {
                Err(e) => Err(e),
                Ok(it) => Ok(items.push(it)),
            },
        }
    }
}

/// The feed of the collection, or the failure.
pub open spec fn spec_feed(para: Map<Seq<char>, Seq<char>>, list: Json, author: Seq<char>, now: Seq<char>) -> Result<
    FeedView,
    Seq<char>,
> {
    match ptr_array(list, "/data/archives"@) {
        None => Err("找不到 data.archives 字段或不是数组"@),
        Some(vs) => match video_items(vs, author, spec_embed(para), now) {
            Err(e) => Err(e),
            Ok(items) => match json_pointer(list, "/data/meta/name"@) {
                None => Err("bilibili_collection.rs在解析channel标题时出错"@),
                Some(name) => match json_pointer(list, "/data/archives/0/bvid"@) {
                    None => Err("bilibili_collection.rs在解析author时出错"@),
                    Some(b) => Ok(
                        FeedView {
                            title: bare(name),
                            link: "https://www.bilibili.com/video/"@ + bare(b),
                            description: bare(name),
                            pub_date: None,
                            items,
                        },
                    ),
                },
            },
        },
    }
}

proof fn lemma_items_fail(vs: Seq<Json>, author: Seq<char>, embed: bool, now: Seq<char>, i: int)
    requires
        0 <= i < vs.len(),
        video_items(vs.take(i), author, embed, now) is Ok,
        video_item(vs[i], author, embed, now) is Err,
    ensures
        video_items(vs, author, embed, now) == Err::<Seq<FeedItemView>, _>(
            video_item(vs[i], author, embed, now)->Err_0,
        ),
    decreases vs.len(),
{
    if i == vs.len() - 1 {
        assert(vs.drop_last() =~= vs.take(i));
    } else {
        assert(vs.drop_last().take(i) =~= vs.take(i));
        assert(vs.drop_last()[i] == vs[i]);
        lemma_items_fail(vs.drop_last(), author, embed, now, i);
    }
}

/// The feed of the collection (see [`spec_feed`]); `author` is what
/// [`author`] read from the first video's answer.
#[verifier::loop_isolation(false)]
pub fn build_feed(para: &Params, list: &Json, author: &str, now: &str) -> (r: Result<Feed, RouteError>)
    ensures
        match r {
            Ok(f) => spec_feed(para@, *list, author@, now@) == Ok::<_, Seq<char>>(f@),
            Err(RouteError::Message(m)) => spec_feed(para@, *list, author@, now@) == Err::<FeedView, _>(m@),
            Err(_) => false,
        },
{
    let vs = match list.ptr_array("/data/archives") {
        Some(v) => v,
        None => return Err(RouteError::msg("找不到 data.archives 字段或不是数组")),
    };
    let em = crate::routes::bilibili_video::embed(para);
    let mut items: Vec<FeedItem> = Vec::new();
    let mut i: usize = 0;
    assert(vs@.take(0) =~= Seq::<Json>::empty());
    assert(crate::routes::item_views(items@) =~= Seq::<FeedItemView>::empty());
    while i < vs.len()
        invariant
            i <= vs.len(),
            video_items(vs@.take(i as int), author@, em, now@) == Ok::<_, Seq<char>>(
                crate::routes::item_views(items@),
            ),
        decreases vs.len() - i,
    {
        assert(vs@.take(i + 1).drop_last() =~= vs@.take(i as int));
        assert(vs@.take(i + 1).last() == vs@[i as int]);
        match video_item_exec(&vs[i], author, em, now) {
            Ok(it) => {
                let ghost before = crate::routes::item_views(items@);
                let ghost iv = it@;
                items.push(it);
                assert(crate::routes::item_views(items@) =~= before.push(iv));
            },
            Err(e) => {
                proof {
                    lemma_items_fail(vs@, author@, em, now@, i as int);
                }
                return Err(e);
            },
        }
        i = i + 1;
    }
    assert(vs@.take(vs.len() as int) =~= vs@);
    let name = match list.pointer("/data/meta/name") {
        Some(n) => crate::easyuser::no_double_quotes(json_to_string(n)),
        None => return Err(RouteError::msg("bilibili_collection.rs在解析channel标题时出错")),
    };
    let first = match list.pointer("/data/archives/0/bvid") {
        Some(b) => crate::easyuser::no_double_quotes(json_to_string(b)),
        None => return Err(RouteError::msg("bilibili_collection.rs在解析author时出错")),
    };
    Ok(Feed {
        title: name.clone(),
        link: cat("https://www.bilibili.com/video/", first.as_str()),
        description: name,
        pub_date: None,
        items,
    })
}

/// Law: a video's item, where one is made, links to the page of the
/// video's `bvid`, is titled by its `title`, dated by its `pubdate` and
/// written by the collection's author.
pub proof fn law_collection_video_link(v: Json, author: Seq<char>, embed: bool, now: Seq<char>)
    ensures
        video_item(v, author, embed, now) matches Ok(it) ==> ({
            &&& it.link == Some("https://www.bilibili.com/video/"@ + crate::text::trim_char(
                crate::json::json_text(crate::json::json_index(v, "bvid"@)),
                '"',
            ))
            &&& it.title == Some(crate::text::trim_char(crate::json::json_text(crate::json::json_index(v, "title"@)), '"'))
            &&& it.author == Some(author)
            &&& crate::json::json_as_i64(crate::json::json_index(v, "pubdate"@)) matches Some(t) && it.pub_date
                == Some(or_else(ts_rfc2822(t), now))
        }),
{
}

} // verus!
