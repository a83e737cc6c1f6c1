//! `/cde_index`: the news and policy lists of the Center for Drug
//! Evaluation (www.cde.org.cn). The list comes from a form POST; each entry's
//! page is then fetched for its date and its text.
use crate::dates::{chrono_ymd, ymd_rfc2822_0800};
use crate::easyuser::{param, Params};
use crate::feed::{opt_view, Feed, FeedItem, FeedItemView, FeedView};
use crate::html::{
    child_view, children_of_first, first_text_node, select_children, select_first_text_node,
    ChildNode, ChildView,
};
use crate::json::{
    all_digits, digits_value, unsigned_part, json_as_bool, json_pointer, parse_i64, parse_usize, ptr_array, ptr_str, ptr_str_or,
    spec_parse_i64, spec_parse_usize, Json,
};
use crate::request_rules::RouteError;

use crate::text::{
    dec, from_range, is_empty, join, join_exec, push_str, str_eq, to_chars, trim, trim_str,
    u64_to_string, views,
};
use vstd::prelude::*;

verus! {

/// The site's address.
pub open spec fn root_url() -> Seq<char> {
    "https://www.cde.org.cn"@
}

/// The list page of the news channel.
pub open spec fn news_page() -> Seq<char> {
    "https://www.cde.org.cn/main/news/listpage/545cf855a50574699b46b26bcb165f32"@
}

/// The list page of the policy channel.
pub open spec fn policy_page() -> Seq<char> {
    "https://www.cde.org.cn/main/policy/listpage/9f9c74c73e0f8f56a8bfbc646055026d"@
}

/// For a channel and a category: the list's API name, the category's title
/// and the channel's page; nothing for any other pair.
pub open spec fn category_of(channel: Seq<char>, category: Seq<char>) -> Option<
    (Seq<char>, Seq<char>, Seq<char>),
> {
    if channel == "news"@ && category == "zwxw"@ {
        Some(("getList"@, "政务新闻"@, news_page()))
    } else if channel == "news"@ && category == "ywdd"@ {
        Some(("getHotNewsList"@, "要闻导读"@, news_page()))
    } else if channel == "news"@ && category == "tpxw"@ {
        Some(("getPictureNewsList"@, "图片新闻"@, news_page()))
    } else if channel == "news"@ && category == "gzdt"@ {
        Some(("getWorkList"@, "工作动态"@, news_page()))
    } else if channel == "policy"@ && category == "flfg"@ {
        Some(("getPolicyList"@, "法律法规"@, policy_page()))
    } else if channel == "policy"@ && category == "zxgz"@ {
        Some(("getRuleList"@, "政策规章"@, policy_page()))
    } else {
        None
    }
}

/// The form fields sent for a known channel and category, `size` being the
/// page size's decimal text.
pub open spec fn form_pairs(channel: Seq<char>, category: Seq<char>, size: Seq<char>) -> Seq<
    (Seq<char>, Seq<char>),
> {
    let head = seq![("pageSize"@, size), ("pageNum"@, "1"@)];
    if channel == "news"@ && category == "zwxw"@ {
        head.push(("classId"@, "545cf855a50574699b46b26bcb165f32"@))
    } else if channel == "news"@ && category == "ywdd"@ {
        head.push(("ishot"@, "1"@))
    } else if channel == "news"@ && category == "tpxw"@ {
        head
    } else if channel == "news"@ && category == "gzdt"@ {
        head.push(("classId"@, "8dc6aac86eb083759b1e01615617a347"@))
    } else {
        head + seq![("fclass"@, "0"@), ("keyName"@, "TITLE"@), ("logicC"@, "bh"@)]
    }
}

/// A form body: `key=value` pieces joined with `&`.
pub open spec fn form_body(pairs: Seq<(Seq<char>, Seq<char>)>) -> Seq<char> {
    join(pairs.map_values(|p: (Seq<char>, Seq<char>)| p.0 + "="@ + p.1), "&"@)
}

/// The page size: parameter `limit` read as a `u32`, or 25.
pub open spec fn page_size(para: Map<Seq<char>, Seq<char>>) -> nat {
    match param(para, "limit"@) {
        Some(v) => match spec_parse_usize(v) {
            Some(n) => if n <= u32::MAX {
                n as nat
            } else {
                25
            },
            None => 25,
        },
        None => 25,
    }
}

/// The list request: the API address and the form body, with the feed's
/// title and link, and whether the channel is `news`.
#[derive(Debug)]
pub struct CdeQuery {
    pub api_url: String,
    pub body: String,
    pub title: String,
    pub link: String,
    pub is_news: bool,
}

/// The message for a pair of parameters that names no list.
pub open spec fn bad_pair_message() -> Seq<char> {
    "无效的 channel/category 组合，请使用 ?channel=news|policy&category=zwxw|ywdd|tpxw|gzdt|flfg|zxgz"@
}

/// What the list request is for the parameters, or the failure.
pub open spec fn query_of(para: Map<Seq<char>, Seq<char>>) -> Result<
    (Seq<char>, Seq<char>, Seq<char>, Seq<char>, bool),
    Seq<char>,
> {
    match param(para, "channel"@) {
        None => Err("缺少 channel 参数"@),
        Some(channel) => match param(para, "category"@) {
            None => Err("缺少 category 参数"@),
            Some(category) => match category_of(channel, category) {
                None => Err(bad_pair_message()),
                Some((api, title, page)) => Ok(
                    (
                        root_url() + "/main/"@ + channel + "/"@ + api,
                        form_body(form_pairs(channel, category, dec(page_size(para)))),
                        "国家药品监督管理局药品审评中心 - "@ + title,
                        page,
                        channel == "news"@,
                    ),
                ),
            },
        },
    }
}

fn page_size_exec(para: &Params) -> (r: u32)
    ensures
        r as nat == page_size(para@),
{
    match para.get("limit") {
        Some(v) => match parse_usize(v.as_str()) {
            Some(n) => if n <= 4294967295 {
                n as u32
            } else {
                25
            },
            None => 25,
        },
        None => 25,
    }
}

fn kv(k: &str, v: &str) -> (r: String)
    ensures
        r@ == k@ + "="@ + v@,
{
    let mut s = k.to_owned();
    push_str(&mut s, "=");
    push_str(&mut s, v);
    s
}

fn form_body_exec(channel: &str, category: &str, size: &str) -> (r: String)
    requires
        category_of(channel@, category@) is Some,
    ensures
        r@ == form_body(form_pairs(channel@, category@, size@)),
{
    let ghost pairs = form_pairs(channel@, category@, size@);
    let mut parts: Vec<String> = Vec::new();
    parts.push(kv("pageSize", size));
    parts.push(kv("pageNum", "1"));
    if str_eq(channel, "news") && str_eq(category, "zwxw") {
        parts.push(kv("classId", "545cf855a50574699b46b26bcb165f32"));
    } else if str_eq(channel, "news") && str_eq(category, "ywdd") {
        parts.push(kv("ishot", "1"));
    } else if str_eq(channel, "news") && str_eq(category, "tpxw") {
    } else if str_eq(channel, "news") && str_eq(category, "gzdt") {
        parts.push(kv("classId", "8dc6aac86eb083759b1e01615617a347"));
    } else {
        parts.push(kv("fclass", "0"));
        parts.push(kv("keyName", "TITLE"));
        parts.push(kv("logicC", "bh"));
    }
    assert(views(parts@) =~= pairs.map_values(|p: (Seq<char>, Seq<char>)| p.0 + "="@ + p.1));
    join_exec(parts.as_slice(), "&")
}

/// The list request for the query parameters (see [`query_of`]).
pub fn query(para: &Params) -> (r: Result<CdeQuery, RouteError>)
    ensures
        match r {
            Ok(q) => query_of(para@) == Ok::<_, Seq<char>>(
                (q.api_url@, q.body@, q.title@, q.link@, q.is_news),
            ),
            Err(RouteError::Message(m)) => query_of(para@) == Err::<
                (Seq<char>, Seq<char>, Seq<char>, Seq<char>, bool),
                _,
            >(m@),
            Err(_) => false,
        },
{
    let channel = match para.get("channel") {
        Some(c) => c,
        None => return Err(RouteError::msg("缺少 channel 参数")),
    };
    let category = match para.get("category") {
        Some(c) => c,
        None => return Err(RouteError::msg("缺少 category 参数")),
    };
    let ch = channel.as_str();
    let ca = category.as_str();
    let (api, title, page) = if str_eq(ch, "news") && str_eq(ca, "zwxw") {
        ("getList", "政务新闻", "https://www.cde.org.cn/main/news/listpage/545cf855a50574699b46b26bcb165f32")
    } else if str_eq(ch, "news") && str_eq(ca, "ywdd") {
        ("getHotNewsList", "要闻导读", "https://www.cde.org.cn/main/news/listpage/545cf855a50574699b46b26bcb165f32")
    } else if str_eq(ch, "news") && str_eq(ca, "tpxw") {
        ("getPictureNewsList", "图片新闻", "https://www.cde.org.cn/main/news/listpage/545cf855a50574699b46b26bcb165f32")
    } else if str_eq(ch, "news") && str_eq(ca, "gzdt") {
        ("getWorkList", "工作动态", "https://www.cde.org.cn/main/news/listpage/545cf855a50574699b46b26bcb165f32")
    } else if str_eq(ch, "policy") && str_eq(ca, "flfg") {
        ("getPolicyList", "法律法规", "https://www.cde.org.cn/main/policy/listpage/9f9c74c73e0f8f56a8bfbc646055026d")
    } else if str_eq(ch, "policy") && str_eq(ca, "zxgz") {
        ("getRuleList", "政策规章", "https://www.cde.org.cn/main/policy/listpage/9f9c74c73e0f8f56a8bfbc646055026d")
    } else {
        return Err(
            RouteError::msg(
                "无效的 channel/category 组合，请使用 ?channel=news|policy&category=zwxw|ywdd|tpxw|gzdt|flfg|zxgz",
            ),
        );
    };
    assert(category_of(ch@, ca@) == Some((api@, title@, page@)));
    let size = u64_to_string(page_size_exec(para) as u64);
    let body = form_body_exec(ch, ca, size.as_str());
    let mut api_url = "https://www.cde.org.cn/main/".to_owned();
    push_str(&mut api_url, ch);
    push_str(&mut api_url, "/");
    push_str(&mut api_url, api);
    let mut feed_title = "国家药品监督管理局药品审评中心 - ".to_owned();
    push_str(&mut feed_title, title);
    let is_news = str_eq(ch, "news");
    proof {
        reveal_strlit("https://www.cde.org.cn/main/");
        reveal_strlit("https://www.cde.org.cn");
        reveal_strlit("/main/");
        assert("https://www.cde.org.cn/main/"@ =~= root_url() + "/main/"@);
    }
    Ok(CdeQuery { api_url, body, title: feed_title, link: page.to_owned(), is_news })
}

/// The message for an answer without a list of records.
pub open spec fn no_records_message() -> Seq<char> {
    "找不到 data.records 字段或不是数组"@
}

/// The records of the list's answer.
pub fn records(answer: &Json) -> (r: Result<&Vec<Json>, RouteError>)
    ensures
        match r {
            Ok(v) => ptr_array(*answer, "/data/records"@) == Some(v@),
            Err(RouteError::Message(m)) => ptr_array(*answer, "/data/records"@) is None && m@
                == no_records_message(),
            Err(_) => false,
        },
{
    match answer.ptr_array("/data/records") {
        Some(v) => Ok(v),
        None => Err(RouteError::msg("找不到 data.records 字段或不是数组")),
    }
}

/// Whether `record` is marked as a picture item.
pub open spec fn is_pic(record: Json) -> bool {
    match json_pointer(record, "/isPic"@) {
        Some(v) => json_as_bool(v) == Some(true),
        None => false,
    }
}

/// The page of a record: news items by their id (picture items have their
/// own viewer), policy items by their regulation id where it is non-empty,
/// else by their policy id.
pub open spec fn record_link(is_news: bool, record: Json) -> Seq<char> {
    if is_news {
        if is_pic(record) {
            root_url() + "/main/newspic/view/"@ + ptr_str_or(record, "/newsIdCode"@)
        } else {
            root_url() + "/main/news/viewInfoCommon/"@ + ptr_str_or(record, "/newsIdCode"@)
        }
    } else {
        match ptr_str(record, "/regulatIdCODE"@) {
            Some(rid) if rid.len() > 0 => root_url() + "/main/policy/regulatview/"@ + rid,
            _ => root_url() + "/main/policy/view/"@ + ptr_str_or(record, "/policyIdCODE"@),
        }
    }
}

/// The page of a record (see [`record_link`]).
pub fn record_link_exec(is_news: bool, record: &Json) -> (r: String)
    ensures
        r@ == record_link(is_news, *record),
{
    proof {
        reveal_strlit("https://www.cde.org.cn");
    }
    let mut out = "https://www.cde.org.cn".to_owned();
    if is_news {
        let pic = match record.pointer("/isPic") {
            Some(v) => match v.as_bool() {
                Some(b) => b,
                None => false,
            },
            None => false,
        };
        if pic {
            push_str(&mut out, "/main/newspic/view/");
        } else {
            push_str(&mut out, "/main/news/viewInfoCommon/");
        }
        push_str(&mut out, record.str_or_empty("/newsIdCode").as_str());
    } else {
        match record.ptr_text("/regulatIdCODE") {
            Some(rid) if !is_empty(rid.as_str()) => {
                push_str(&mut out, "/main/policy/regulatview/");
                push_str(&mut out, rid.as_str());
            },
            _ => {
                push_str(&mut out, "/main/policy/view/");
                push_str(&mut out, record.str_or_empty("/policyIdCODE").as_str());
            },
        }
    }
    out
}

/// Every character is ASCII.
pub open spec fn all_ascii(t: Seq<char>) -> bool {
    forall|i: int| 0 <= i < t.len() ==> (#[trigger] t[i] as u32) < 128
}

/// `parse_cde_date`: an eight-digit date `YYYYMMDD` (after trimming) at
/// midnight, UTC+8; the year is read as an `i32`, month and day as `u32`.
/// Text that is not eight ASCII characters gives nothing.
pub open spec fn cde_date(s: Seq<char>) -> Option<Seq<char>> {
    let t = trim(s);
    if t.len() == 8 && all_ascii(t) {
        match (
            spec_parse_i64(t.subrange(0, 4)),
            spec_parse_usize(t.subrange(4, 6)),
            spec_parse_usize(t.subrange(6, 8)),
        ) {
            (Some(y), Some(m), Some(d)) => ymd_rfc2822_0800(y as i32, m as u32, d as u32),
            _ => None,
        }
    } else {
        None
    }
}

proof fn lemma_digits_small(t: Seq<char>)
    requires
        all_digits(t),
    ensures
        0 <= digits_value(t),
        t.len() <= 1 ==> digits_value(t) <= 9,
        t.len() <= 2 ==> digits_value(t) <= 99,
        t.len() <= 3 ==> digits_value(t) <= 999,
        t.len() <= 4 ==> digits_value(t) <= 9999,
    decreases t.len(),
{
    if t.len() > 0 {
        assert(all_digits(t.drop_last()));
        lemma_digits_small(t.drop_last());
        assert('0' <= t[t.len() - 1] <= '9');
    }
}

proof fn lemma_short_parse_bounds(t: Seq<char>)
    requires
        t.len() <= 4,
    ensures
        spec_parse_i64(t) matches Some(y) ==> -9999 <= y <= 9999,
        spec_parse_usize(t) matches Some(n) ==> n <= 9999,
{
    let b = unsigned_part(t);
    if b.len() > 0 && all_digits(b) {
        lemma_digits_small(b);
    }
    let p = if t.len() > 0 && t[0] == '+' {
        t.drop_first()
    } else {
        t
    };
    if p.len() > 0 && all_digits(p) {
        lemma_digits_small(p);
    }
}

/// `parse_cde_date` (see [`cde_date`]).
#[verifier::loop_isolation(false)]
pub fn parse_cde_date(s: &str) -> (r: Option<String>)
    ensures
        opt_view(r) == cde_date(s@),
{
    let t = trim_str(s);
    let v = to_chars(t.as_str());
    if v.len() != 8 {
        return None;
    }
    let mut i: usize = 0;
    while i < 8
        invariant
            v@ == t@,
            v.len() == 8,
            i <= 8,
            forall|j: int| 0 <= j < i ==> (#[trigger] v@[j] as u32) < 128,
        decreases 8 - i,
    {
        if (v[i] as u32) > 127 {
            assert(!((t@[i as int] as u32) < 128));
            return None;
        }
        i = i + 1;
    }
    assert(all_ascii(t@));
    let ys = from_range(v.as_slice(), 0, 4);
    let ms = from_range(v.as_slice(), 4, 6);
    let ds = from_range(v.as_slice(), 6, 8);
    proof {
        lemma_short_parse_bounds(ys@);
        lemma_short_parse_bounds(ms@);
        lemma_short_parse_bounds(ds@);
    }
    match (parse_i64(ys.as_str()), parse_usize(ms.as_str()), parse_usize(ds.as_str())) {
        (Some(y), Some(m), Some(d)) => chrono_ymd(y as i32, m as u32, d as u32),
        _ => None,
    }
}

/// What one child of the entry's text block contributes: nothing for the
/// title and date blocks and for images.
pub open spec fn child_text(c: ChildView) -> Seq<char> {
    match c {
        ChildView::Element(tag, title, date, inner) => if (tag == "div"@ && (title || date))
            || tag == "img"@ {
            seq![]
        } else {
            inner
        },
        ChildView::Text(t) => t,
        ChildView::Other => seq![],
    }
}

/// The text of the children, in order.
pub open spec fn children_text(cs: Seq<ChildView>) -> Seq<char>
    decreases cs.len(),
{
    if cs.len() == 0 {
        seq![]
    } else {
        children_text(cs.drop_last()) + child_text(cs.last())
    }
}

/// `get_description`: the children of `div.news_detail_box`, in order,
/// without its title and date blocks and its images: elements by their
/// inner HTML, text as it is.
pub open spec fn description_of(html: Seq<char>) -> Seq<char> {
    match children_of_first(html, "div.news_detail_box"@, "news_detail_title"@, "news_detail_date"@) {
        Some(cs) => children_text(cs),
        None => seq![],
    }
}

fn child_text_exec(c: &ChildNode) -> (r: String)
    ensures
        r@ == child_text(child_view(*c)),
{
    match c {
        ChildNode::Element { tag, has_first, has_second, inner_html } => {
            if (str_eq(tag.as_str(), "div") && (*has_first || *has_second)) || str_eq(
                tag.as_str(),
                "img",
            ) {
                String::new()
            } else {
                inner_html.clone()
            }
        },
        ChildNode::Text(t) => t.clone(),
        ChildNode::Other => String::new(),
    }
}

/// `get_description` (see [`description_of`]).
pub fn get_description(html: &str) -> (r: String)
    ensures
        r@ == description_of(html@),
{
    let cs = match select_children(
        html,
        "div.news_detail_box",
        "news_detail_title",
        "news_detail_date",
    ) {
        Some(cs) => cs,
        None => return String::new(),
    };
    let ghost cv = cs@.map_values(|c: ChildNode| child_view(c));
    let mut out = String::new();
    let mut i: usize = 0;
    while i < cs.len()
        invariant
            i <= cs.len(),
            cv == cs@.map_values(|c: ChildNode| child_view(c)),
            out@ == children_text(cv.take(i as int)),
        decreases cs.len() - i,
    {
        let piece = child_text_exec(&cs[i]);
        push_str(&mut out, piece.as_str());
        assert(cv.take(i + 1).drop_last() =~= cv.take(i as int));
        i = i + 1;
    }
    assert(cv.take(cs.len() as int) =~= cv);
    out
}

/// What an entry's page gives: the date under `div.news_detail_date` (or
/// `now`), and the entry's text. A page that could not be fetched (`None`)
/// gives `now` and no text.
pub open spec fn page_facts(page: Option<Seq<char>>, now: Seq<char>) -> (Seq<char>, Seq<char>) {
    match page {
        Some(html) => (
            match first_text_node(html, "div.news_detail_date"@) {
                Some(t) => match cde_date(t) {
                    Some(d) => d,
                    None => now,
                },
                None => now,
            },
            description_of(html),
        ),
        None => (now, seq![]),
    }
}

/// The item of a record, given its page.
pub open spec fn record_item(is_news: bool, record: Json, page: Option<Seq<char>>, now: Seq<char>) -> FeedItemView {
    let (date, text) = page_facts(page, now);
    FeedItemView {
        title: Some(ptr_str_or(record, "/title"@)),
        link: Some(record_link(is_news, record)),
        description: Some(text),
        pub_date: Some(date),
        author: None,
        guid: None,
        categories: seq![],
    }
}

/// The item of a record, given its page (see [`record_item`]).
pub fn build_item(is_news: bool, record: &Json, page: Option<&str>, now: &str) -> (r: FeedItem)
    ensures
        r@ == record_item(is_news, *record, match page {
            Some(p) => Some(p@),
            None => None,
        }, now@),
{
    let (date, text) = match page {
        Some(html) => {
            let date = match select_first_text_node(html, "div.news_detail_date") {
                Some(t) => match parse_cde_date(t.as_str()) {
                    Some(d) => d,
                    None => now.to_owned(),
                },
                None => now.to_owned(),
            };
            (date, get_description(html))
        },
        None => (now.to_owned(), String::new()),
    };
    let r = FeedItem {
        title: Some(record.str_or_empty("/title")),
        link: Some(record_link_exec(is_news, record)),
        description: Some(text),
        pub_date: Some(date),
        author: None,
        guid: None,
        categories: Vec::new(),
    };
    assert(r@.categories =~= Seq::<Seq<char>>::empty());
    r
}

/// The views of fetched pages.
pub open spec fn page_views(pages: Seq<Option<String>>) -> Seq<Option<Seq<char>>> {
    pages.map_values(|p: Option<String>| opt_view(p))
}

/// The feed: one item per record, each with its page.
pub open spec fn cde_feed(
    title: Seq<char>,
    link: Seq<char>,
    is_news: bool,
    recs: Seq<Json>,
    pages: Seq<Option<Seq<char>>>,
    now: Seq<char>,
) -> FeedView {
    FeedView {
        title,
        link,
        description: seq![],
        pub_date: None,
        items: Seq::new(recs.len(), |i: int| record_item(is_news, recs[i], pages[i], now)),
    }
}

/// The feed of the list (see [`cde_feed`]); `pages[i]` is the page of the
/// `i`-th record, or `None` where it could not be fetched.
pub fn build_feed(q: &CdeQuery, recs: &[Json], pages: &[Option<String>], now: &str) -> (r: Feed)
    requires
        recs.len() == pages.len(),
    ensures
        r@ == cde_feed(q.title@, q.link@, q.is_news, recs@, page_views(pages@), now@),
{
    let ghost target = cde_feed(q.title@, q.link@, q.is_news, recs@, page_views(pages@), now@);
    let mut items: Vec<FeedItem> = Vec::new();
    let mut i: usize = 0;
    while i < recs.len()
        invariant
            i <= recs.len(),
            recs.len() == pages.len(),
            target == cde_feed(q.title@, q.link@, q.is_news, recs@, page_views(pages@), now@),
            items.len() == i,
            forall|j: int| 0 <= j < i ==> #[trigger] items@[j]@ == target.items[j],
        decreases recs.len() - i,
    {
        let page = match &pages[i] {
            Some(p) => Some(p.as_str()),
            None => None,
        };
        let it = build_item(q.is_news, &recs[i], page, now);
        items.push(it);
        i = i + 1;
    }
    let r = Feed {
        title: q.title.clone(),
        link: q.link.clone(),
        description: String::new(),
        pub_date: None,
        items,
    };
    assert(r@.items =~= target.items);
    r
}

/// Law: a news record links to its `/newsIdCode` on the site (in the
/// picture viewer where `/isPic` is true); a policy record to its
/// `/regulatIdCODE` where that is a non-empty string, else to its
/// `/policyIdCODE`; the record is titled by its `/title`.
pub proof fn law_record_link(is_news: bool, record: Json, page: Option<Seq<char>>, now: Seq<char>)
    ensures
        ({
            let s = |p: Seq<char>| crate::json::ptr_str_or(record, p);
            let pic = crate::json::json_pointer(record, "/isPic"@) == Some(Json::Bool(true));
            let link = record_item(is_news, record, page, now).link;
            &&& record_item(is_news, record, page, now).title == Some(s("/title"@))
            &&& is_news && pic ==> link == Some("https://www.cde.org.cn/main/newspic/view/"@ + s("/newsIdCode"@))
            &&& is_news && !pic ==> link == Some(
                "https://www.cde.org.cn/main/news/viewInfoCommon/"@ + s("/newsIdCode"@),
            )
            &&& !is_news && s("/regulatIdCODE"@).len() > 0 ==> link == Some(
                "https://www.cde.org.cn/main/policy/regulatview/"@ + s("/regulatIdCODE"@),
            )
            &&& !is_news && s("/regulatIdCODE"@).len() == 0 ==> link == Some(
                "https://www.cde.org.cn/main/policy/view/"@ + s("/policyIdCODE"@),
            )
        }),
{
    reveal_strlit("https://www.cde.org.cn");
    reveal_strlit("https://www.cde.org.cn/main/newspic/view/");
    reveal_strlit("https://www.cde.org.cn/main/news/viewInfoCommon/");
    reveal_strlit("https://www.cde.org.cn/main/policy/regulatview/");
    reveal_strlit("https://www.cde.org.cn/main/policy/view/");
    reveal_strlit("/main/newspic/view/");
    reveal_strlit("/main/news/viewInfoCommon/");
    reveal_strlit("/main/policy/regulatview/");
    reveal_strlit("/main/policy/view/");
    assert(root_url() + "/main/newspic/view/"@ =~= "https://www.cde.org.cn/main/newspic/view/"@);
    assert(root_url() + "/main/news/viewInfoCommon/"@ =~= "https://www.cde.org.cn/main/news/viewInfoCommon/"@);
    assert(root_url() + "/main/policy/regulatview/"@ =~= "https://www.cde.org.cn/main/policy/regulatview/"@);
    assert(root_url() + "/main/policy/view/"@ =~= "https://www.cde.org.cn/main/policy/view/"@);
}

} // verus!
