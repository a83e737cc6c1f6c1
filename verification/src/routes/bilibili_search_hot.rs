//! `/bilibili_search_hot`: bilibili's trending search words.
use crate::dates::{or_else, timestamp_to_rss, ts_rfc2822};
use crate::easyuser::{url_encode, url_encoded};
use crate::feed::{Feed, FeedItem, FeedItemView, FeedView};
use crate::json::{ptr_array, ptr_i64, Json};
use crate::request_rules::RouteError;
use crate::routes::bilibili_video::{int_of, int_of_exec};
use crate::routes::{code_error, code_error_exec, member_str, member_str_exec, plain_get, Fetch};
use crate::text::{cat, dec_int, i64_to_string, is_empty, push_str, trim_char};
use vstd::prelude::*;

verus! {

/// The request (the address is fixed).
pub fn request() -> (r: Fetch)
    ensures
        r.url@ == "https://s.search.bilibili.com/main/hotword"@,
        r.headers@.len() == 0,
{
    plain_get("https://s.search.bilibili.com/main/hotword".to_owned())
}

/// The name of a word's kind.
pub open spec fn word_kind(t: i64) -> Seq<char> {
    if t == 4 {
        "新"@
    } else if t == 5 {
        "热"@
    } else if t == 7 {
        "直播中"@
    } else if t == 9 {
        "梗"@
    } else if t == 11 {
        "话题"@
    } else if t == 12 {
        "独家"@
    } else {
        "普通"@
    }
}

fn word_kind_exec(t: i64) -> (r: &'static str)
    ensures
        r@ == word_kind(t),
{
    match t {
        4 => "新",
        5 => "热",
        7 => "直播中",
        9 => "梗",
        11 => "话题",
        12 => "独家",
        _ => "普通",
    }
}

/// The item of one word: `#pos word` (its display name where it has one),
/// the search page for the word, and its kind and id; dated with the
/// list's time.
pub open spec fn word_item(w: Json, ts: i64, now: Seq<char>) -> FeedItemView {
    let keyword = member_str(w, "keyword"@);
    let show = member_str(w, "show_name"@);
    let icon = member_str(w, "icon"@);
    let tn = word_kind(int_of(w, "word_type"@));
    let rest = "热搜词: "@ + show + "<br>类型: "@ + tn + "<br>热词id: "@ + dec_int(int_of(w, "hot_id"@) as int);
    FeedItemView {
        title: Some(
            trim_char(
                "#"@ + dec_int(int_of(w, "pos"@) as int) + " "@ + (if show.len() == 0 {
                    keyword
                } else {
                    show
                }),
                '"',
            ),
        ),
        link: Some("https://search.bilibili.com/all?keyword="@ + url_encoded(keyword)),
        description: Some(
            if icon.len() == 0 {
                rest
            } else {
                "<img src=\""@ + icon + "\" referrerpolicy=\"no-referrer\"><br>"@ + rest
            },
        ),
        pub_date: Some(or_else(ts_rfc2822(ts), now)),
        author: Some(tn),
        guid: None,
        categories: seq![],
    }
}

/// The feed of the answer, or the failure.
pub open spec fn spec_feed(json: Json, now: Seq<char>) -> Result<FeedView, Seq<char>> {
    match code_error(json) {
        Some(e) => Err(e),
        None => match ptr_array(json, "/list"@) {
            None => Err("找不到 list 字段或不是数组"@),
            Some(list) => {
                let ts = match ptr_i64(json, "/timestamp"@) {
                    Some(t) => t,
                    None => 0,
                };
                Ok(
                    FeedView {
                        title: "B站热搜榜"@,
                        link: "https://www.bilibili.com/"@,
                        description: "B站热搜榜单前10关键词"@,
                        pub_date: None,
                        items: list.map_values(|w: Json| word_item(w, ts, now)),
                    },
                )
            },
        },
    }
}

fn word_item_exec(w: &Json, ts: i64, now: &str) -> (r: FeedItem)
    ensures
        r@ == word_item(*w, ts, now@),
{
    let keyword = member_str_exec(w, "keyword");
    let show = member_str_exec(w, "show_name");
    let icon = member_str_exec(w, "icon");
    let tn = word_kind_exec(int_of_exec(w, "word_type"));
    let mut rest = cat("热搜词: ", show.as_str());
    push_str(&mut rest, "<br>类型: ");
    push_str(&mut rest, tn);
    push_str(&mut rest, "<br>热词id: ");
    push_str(&mut rest, i64_to_string(int_of_exec(w, "hot_id")).as_str());
    let d = if is_empty(icon.as_str()) {
        rest
    } else {
        let mut d = cat("<img src=\"", icon.as_str());
        push_str(&mut d, "\" referrerpolicy=\"no-referrer\"><br>");
        push_str(&mut d, rest.as_str());
        d
    };
    let mut title = cat("#", i64_to_string(int_of_exec(w, "pos")).as_str());
    push_str(&mut title, " ");
    push_str(&mut title, if is_empty(show.as_str()) { keyword.as_str() } else { show.as_str() });
    let r = FeedItem {
        title: Some(crate::easyuser::no_double_quotes(title)),
        link: Some(cat("https://search.bilibili.com/all?keyword=", url_encode(keyword.as_str()).as_str())),
        description: Some(d),
        pub_date: Some(timestamp_to_rss(ts, now)),
        author: Some(tn.to_owned()),
        guid: None,
        categories: Vec::new(),
    };
    assert(r@.categories =~= Seq::<Seq<char>>::empty());
    r
}

/// The feed of the answer (see [`spec_feed`]).
pub fn build_feed(json: &Json, now: &str) -> (r: Result<Feed, RouteError>)
    ensures
        match r {
            Ok(f) => spec_feed(*json, now@) == Ok::<_, Seq<char>>(f@),
            Err(RouteError::Message(m)) => spec_feed(*json, now@) == Err::<FeedView, _>(m@),
            Err(_) => false,
        },
{
    match code_error_exec(json) {
        Some(e) => return Err(RouteError::Message(e)),
        None => {},
    }
    let list = match json.ptr_array("/list") {
        Some(v) => v,
        None => return Err(RouteError::msg("找不到 list 字段或不是数组")),
    };
    let ts = match json.ptr_i64("/timestamp") {
        Some(t) => t,
        None => 0,
    };
    let mut items: Vec<FeedItem> = Vec::new();
    let mut i: usize = 0;
    while i < list.len()
        invariant
            i <= list.len(),
            items.len() == i,
            forall|j: int| 0 <= j < i ==> #[trigger] items@[j]@ == word_item(list@[j], ts, now@),
        decreases list.len() - i,
    {
        items.push(word_item_exec(&list[i], ts, now));
        i = i + 1;
    }
    let f = Feed {
        title: "B站热搜榜".to_owned(),
        link: "https://www.bilibili.com/".to_owned(),
        description: "B站热搜榜单前10关键词".to_owned(),
        pub_date: None,
        items,
    };
    assert(f@.items =~= list@.map_values(|w: Json| word_item(w, ts, now@)));
    Ok(f)
}

/// Law: a hot word links to the search page for its `keyword`,
/// URL-encoded.
pub proof fn law_word_link(w: Json, ts: i64, now: Seq<char>)
    ensures
        word_item(w, ts, now).link == Some(
            "https://search.bilibili.com/all?keyword="@ + url_encoded(crate::routes::member_str(w, "keyword"@)),
        ),
{
}

/// Law: the feed, where there is one, has one item per element of
/// `/list`, in order, each linking to the search page for the word's `keyword`.
pub proof fn law_feed_items(json: Json, now: Seq<char>)
    ensures
        spec_feed(json, now) matches Ok(f) ==> match crate::json::ptr_array(json, "/list"@) {
            Some(list) => f.items.len() == list.len() && forall|i: int|
                0 <= i < list.len() ==> (#[trigger] f.items[i]).link == Some("https://search.bilibili.com/all?keyword="@ + url_encoded(crate::routes::member_str(list[i], "keyword"@))),
            None => false,
        },
{
}

/// Law: a hot word is titled by its `pos` and its `show_name` (its
/// `keyword` where that is empty).
pub proof fn law_word_title(w: Json, ts: i64, now: Seq<char>)
    ensures
        word_item(w, ts, now).title == Some(
            crate::text::trim_char(
                "#"@ + crate::text::dec_int(crate::routes::bilibili_video::int_of(w, "pos"@) as int) + " "@ + (if crate::routes::member_str(w, "show_name"@).len() == 0 {
                    crate::routes::member_str(w, "keyword"@)
                } else {
                    crate::routes::member_str(w, "show_name"@)
                }),
                '"',
            ),
        ),
{
}

} // verus!
