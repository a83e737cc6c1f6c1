//! `/cde`: the same lists of the Center for Drug Evaluation as
//! `/cde_index`, asked with the site's anti-bot cookie. The cookie comes
//! from the `Set-Cookie` headers of the home page; the list is a form POST
//! and each entry's page is fetched with the cookie.
use crate::dates::{chrono_date_parses, naive_date_parses};
use crate::easyuser::{param, Params};
use crate::feed::{Feed, FeedItem, FeedItemView, FeedView};
use crate::html::{first_inner_html, first_text, select_first_inner_html, select_first_text};
use crate::json::{json_as_str, json_index, ptr_array, Json};
use crate::request_rules::RouteError;
use crate::routes::cde_index::{category_of, root_url};
use crate::text::{
    find_all, is_empty, join, join_exec, push_str, regex_matches, str_eq, trim, trim_str, views,
};
use vstd::prelude::*;

verus! {

/// The feed title's first part.
pub open spec fn site_title() -> Seq<char> {
    "国家药品监督管理局药品审评中心"@
}

/// The parameters the route needs: channel, category, and the page size as
/// given (`25` by default).
pub open spec fn spec_required(para: Map<Seq<char>, Seq<char>>) -> Result<
    (Seq<char>, Seq<char>, Seq<char>),
    Seq<char>,
> {
    match param(para, "channel"@) {
        None => Err("缺少必要参数: channel"@),
        Some(ch) => match param(para, "category"@) {
            None => Err("缺少必要参数: category"@),
            Some(ca) => Ok(
                (
                    ch,
                    ca,
                    match param(para, "limit"@) {
                        Some(l) => l,
                        None => "25"@,
                    },
                ),
            ),
        },
    }
}

/// The parameters the route needs (see [`spec_required`]).
pub fn required(para: &Params) -> (r: Result<(String, String, String), RouteError>)
    ensures
        match r {
            Ok((a, b, c)) => spec_required(para@) == Ok::<_, Seq<char>>((a@, b@, c@)),
            Err(RouteError::Message(m)) => spec_required(para@) == Err::<
                (Seq<char>, Seq<char>, Seq<char>),
                _,
            >(m@),
            Err(_) => false,
        },
{
    let ch = match para.get("channel") {
        Some(c) => c.clone(),
        None => return Err(RouteError::msg("缺少必要参数: channel")),
    };
    let ca = match para.get("category") {
        Some(c) => c.clone(),
        None => return Err(RouteError::msg("缺少必要参数: category")),
    };
    let limit = match para.get("limit") {
        Some(l) => l.clone(),
        None => "25".to_owned(),
    };
    Ok((ch, ca, limit))
}

/// The pattern of the anti-bot cookie: its name up to the next `;`.
pub open spec fn cookie_pattern() -> Seq<char> {
    "FSSBBIl1UgzbN7N80.*?;"@
}

/// `get_cookie`'s reading of the home page's answer: the `Set-Cookie`
/// values joined with `,`, and every match of [`cookie_pattern`] in them,
/// concatenated; a failure where there is none.
pub open spec fn spec_cookie(set_cookies: Seq<Seq<char>>) -> Result<Seq<char>, Seq<char>> {
    let found = match regex_matches(cookie_pattern(), join(set_cookies, ","@)) {
        Some(ms) => join(ms, ""@),
        None => seq![],
    };
    if found.len() == 0 {
        Err("未找到 FSSBBIl1UgzbN7N80 cookie"@)
    } else {
        Ok(found)
    }
}

/// The anti-bot cookie from the home page's `Set-Cookie` headers (see
/// [`spec_cookie`]).
pub fn cookie_from_headers(set_cookies: &[String]) -> (r: Result<String, RouteError>)
    ensures
        match r {
            Ok(c) => spec_cookie(views(set_cookies@)) == Ok::<_, Seq<char>>(c@),
            Err(RouteError::Message(m)) => spec_cookie(views(set_cookies@)) == Err::<Seq<char>, _>(
                m@,
            ),
            Err(_) => false,
        },
{
    let combined = join_exec(set_cookies, ",");
    let found = match find_all("FSSBBIl1UgzbN7N80.*?;", combined.as_str()) {
        Some(ms) => join_exec(ms.as_slice(), ""),
        None => String::new(),
    };
    if is_empty(found.as_str()) {
        return Err(RouteError::msg("未找到 FSSBBIl1UgzbN7N80 cookie"));
    }
    Ok(found)
}

/// The form fields of a known channel and category; the policy lists send
/// the page number first.
pub open spec fn form_fields(channel: Seq<char>, category: Seq<char>, size: Seq<char>) -> Seq<
    (Seq<char>, Seq<char>),
> {
    if channel == "news"@ && category == "zwxw"@ {
        seq![
            ("pageSize"@, size),
            ("pageNum"@, "1"@),
            ("classId"@, "545cf855a50574699b46b26bcb165f32"@),
        ]
    } else if channel == "news"@ && category == "ywdd"@ {
        seq![("pageSize"@, size), ("pageNum"@, "1"@), ("ishot"@, "1"@)]
    } else if channel == "news"@ && category == "tpxw"@ {
        seq![("pageSize"@, size), ("pageNum"@, "1"@)]
    } else if channel == "news"@ && category == "gzdt"@ {
        seq![
            ("pageSize"@, size),
            ("pageNum"@, "1"@),
            ("classId"@, "8dc6aac86eb083759b1e01615617a347"@),
        ]
    } else {
        seq![
            ("pageNum"@, "1"@),
            ("pageSize"@, size),
            ("fclass"@, "0"@),
            ("keyName"@, "TITLE"@),
            ("logicC"@, "bh"@),
        ]
    }
}

/// The list request: API address, form fields (sent form-encoded), the
/// feed's title and link, and whether the channel is `news`.
#[derive(Debug)]
pub struct CdePost {
    pub api_url: String,
    pub form: Vec<(String, String)>,
    pub title: String,
    pub link: String,
    pub is_news: bool,
}

/// What the list request is, or the failure for a pair that names no list.
pub open spec fn spec_post(channel: Seq<char>, category: Seq<char>, size: Seq<char>) -> Result<
    (Seq<char>, Seq<(Seq<char>, Seq<char>)>, Seq<char>, Seq<char>, bool),
    Seq<char>,
> {
    match category_of(channel, category) {
        None => Err("无效的频道或类别: "@ + channel + "/"@ + category),
        Some((api, title, page)) => Ok(
            (
                root_url() + "/main/"@ + channel + "/"@ + api,
                form_fields(channel, category, size),
                site_title() + " - "@ + title,
                page,
                channel == "news"@,
            ),
        ),
    }
}

/// The six channel/category pairs that name a list.
pub open spec fn known_pair(channel: Seq<char>, category: Seq<char>) -> bool {
    ||| channel == "news"@ && (category == "zwxw"@ || category == "ywdd"@ || category == "tpxw"@ || category == "gzdt"@)
    ||| channel == "policy"@ && (category == "flfg"@ || category == "zxgz"@)
}

/// `(key, value)` is in the form, and no other field has that key.
pub open spec fn once(form: Seq<(Seq<char>, Seq<char>)>, key: Seq<char>, value: Seq<char>) -> bool {
    exists|i: int| 0 <= i < form.len() && #[trigger] form[i] == (key, value)
        && forall|j: int| 0 <= j < form.len() && j != i ==> (#[trigger] form[j]).0 != key
}

/// Law: the list request fails exactly for a pair that is not one of the
/// six known ones; otherwise its form holds `pageSize` (the given size) and
/// `pageNum` (`1`) once each.
pub proof fn law_post_plan(channel: Seq<char>, category: Seq<char>, size: Seq<char>)
    ensures
        spec_post(channel, category, size) is Err <==> !known_pair(channel, category),
        spec_post(channel, category, size) matches Ok(p) ==> once(p.1, "pageSize"@, size) && once(p.1, "pageNum"@, "1"@),
{
    reveal_strlit("pageSize");
    reveal_strlit("pageNum");
    reveal_strlit("classId");
    reveal_strlit("ishot");
    reveal_strlit("fclass");
    reveal_strlit("keyName");
    reveal_strlit("logicC");
    reveal_strlit("news");
    reveal_strlit("policy");
    let f = form_fields(channel, category, size);
    if known_pair(channel, category) {
        let (ia, ib) = if channel == "news"@ { (0int, 1int) } else { (1int, 0int) };
        if channel == "news"@ {
            assert("news"@.len() != "policy"@.len());
            if category == "zwxw"@ {
            } else if category == "ywdd"@ {
            } else if category == "tpxw"@ {
            } else {
            }
            assert(f[0] == ("pageSize"@, size));
        } else {
            assert(f[1] == ("pageSize"@, size));
        }
        assert(f[ia] == ("pageSize"@, size));
        assert(f[ib] == ("pageNum"@, "1"@));
        assert forall|j: int| 0 <= j < f.len() && j != ia implies (#[trigger] f[j]).0 != "pageSize"@ by {
            assert(f[j].0.len() != 8 || f[j].0[4] != 'S');
        }
        assert forall|j: int| 0 <= j < f.len() && j != ib implies (#[trigger] f[j]).0 != "pageNum"@ by {
            assert(f[j].0.len() != 7 || f[j].0[4] != 'N');
        }
    }
}

fn pair(k: &str, v: &str) -> (r: (String, String))
    ensures
        r.0@ == k@,
        r.1@ == v@,
{
    (k.to_owned(), v.to_owned())
}

/// The list request (see [`spec_post`]).
pub fn post_plan(channel: &str, category: &str, size: &str) -> (r: Result<CdePost, RouteError>)
    ensures
        match r {
            Ok(p) => spec_post(channel@, category@, size@) == Ok::<_, Seq<char>>(
                (p.api_url@, crate::easyuser::pair_views(p.form@), p.title@, p.link@, p.is_news),
            ),
            Err(RouteError::Message(m)) => spec_post(channel@, category@, size@) == Err::<
                (Seq<char>, Seq<(Seq<char>, Seq<char>)>, Seq<char>, Seq<char>, bool),
                _,
            >(m@),
            Err(_) => false,
        },
{
    let ch = channel;
    let ca = category;
    let (api, title, page, form) = if str_eq(ch, "news") && str_eq(ca, "zwxw") {
        (
            "getList",
            "政务新闻",
            "https://www.cde.org.cn/main/news/listpage/545cf855a50574699b46b26bcb165f32",
            vec![pair("pageSize", size), pair("pageNum", "1"), pair("classId", "545cf855a50574699b46b26bcb165f32")],
        )
    } else if str_eq(ch, "news") && str_eq(ca, "ywdd") {
        (
            "getHotNewsList",
            "要闻导读",
            "https://www.cde.org.cn/main/news/listpage/545cf855a50574699b46b26bcb165f32",
            vec![pair("pageSize", size), pair("pageNum", "1"), pair("ishot", "1")],
        )
    } else if str_eq(ch, "news") && str_eq(ca, "tpxw") {
        (
            "getPictureNewsList",
            "图片新闻",
            "https://www.cde.org.cn/main/news/listpage/545cf855a50574699b46b26bcb165f32",
            vec![pair("pageSize", size), pair("pageNum", "1")],
        )
    } else if str_eq(ch, "news") && str_eq(ca, "gzdt") {
        (
            "getWorkList",
            "工作动态",
            "https://www.cde.org.cn/main/news/listpage/545cf855a50574699b46b26bcb165f32",
            vec![pair("pageSize", size), pair("pageNum", "1"), pair("classId", "8dc6aac86eb083759b1e01615617a347")],
        )
    } else if str_eq(ch, "policy") && (str_eq(ca, "flfg") || str_eq(ca, "zxgz")) {
        let policy = vec![
            pair("pageNum", "1"),
            pair("pageSize", size),
            pair("fclass", "0"),
            pair("keyName", "TITLE"),
            pair("logicC", "bh"),
        ];
        if str_eq(ca, "flfg") {
            (
                "getPolicyList",
                "法律法规",
                "https://www.cde.org.cn/main/policy/listpage/9f9c74c73e0f8f56a8bfbc646055026d",
                policy,
            )
        } else {
            (
                "getRuleList",
                "政策规章",
                "https://www.cde.org.cn/main/policy/listpage/9f9c74c73e0f8f56a8bfbc646055026d",
                policy,
            )
        }
    } else {
        let mut m = "无效的频道或类别: ".to_owned();
        push_str(&mut m, ch);
        push_str(&mut m, "/");
        push_str(&mut m, ca);
        return Err(RouteError::Message(m));
    };
    assert(category_of(ch@, ca@) == Some((api@, title@, page@)));
    assert(crate::easyuser::pair_views(form@) =~= form_fields(ch@, ca@, size@));
    let mut api_url = "https://www.cde.org.cn/main/".to_owned();
    push_str(&mut api_url, ch);
    push_str(&mut api_url, "/");
    push_str(&mut api_url, api);
    let mut feed_title = "国家药品监督管理局药品审评中心 - ".to_owned();
    push_str(&mut feed_title, title);
    proof {
        reveal_strlit("https://www.cde.org.cn/main/");
        reveal_strlit("https://www.cde.org.cn");
        reveal_strlit("/main/");
        reveal_strlit("国家药品监督管理局药品审评中心 - ");
        reveal_strlit("国家药品监督管理局药品审评中心");
        reveal_strlit(" - ");
        assert("https://www.cde.org.cn/main/"@ =~= root_url() + "/main/"@);
        assert("国家药品监督管理局药品审评中心 - "@ =~= site_title() + " - "@);
    }
    Ok(CdePost { api_url, form, title: feed_title, link: page.to_owned(), is_news: str_eq(ch, "news") })
}

/// The records of the list's answer.
pub fn records(answer: &Json) -> (r: Result<&Vec<Json>, RouteError>)
    ensures
        match r {
            Ok(v) => ptr_array(*answer, "/data/records"@) == Some(v@),
            Err(RouteError::Message(m)) => ptr_array(*answer, "/data/records"@) is None && m@
                == "响应中缺少 data/records 字段"@,
            Err(_) => false,
        },
{
    match answer.ptr_array("/data/records") {
        Some(v) => Ok(v),
        None => Err(RouteError::msg("响应中缺少 data/records 字段")),
    }
}

/// A record's title and page, or the failure for a record that lacks what
/// its channel needs. News items need `newsIdCode` (picture items, marked
/// with the string `"1"` in `isPic`, have their own viewer); policy items
/// are found by `regulatIdCODE` where it is a string, else by the required
/// `policyIdCODE`.
pub open spec fn spec_entry(is_news: bool, record: Json) -> Result<(Seq<char>, Seq<char>), Seq<char>> {
    match json_as_str(json_index(record, "title"@)) {
        None => Err("记录缺少 title 字段"@),
        Some(title) => if is_news {
            match json_as_str(json_index(record, "newsIdCode"@)) {
                None => Err("新闻记录缺少 newsIdCode 字段"@),
                Some(id) => if json_as_str(json_index(record, "isPic"@)) == Some("1"@) {
                    Ok((title, root_url() + "/main/newspic/view/"@ + id))
                } else {
                    Ok((title, root_url() + "/main/news/viewInfoCommon/"@ + id))
                },
            }
        } else {
            match json_as_str(json_index(record, "regulatIdCODE"@)) {
                Some(rid) => Ok((title, root_url() + "/main/policy/regulatview/"@ + rid)),
                None => match json_as_str(json_index(record, "policyIdCODE"@)) {
                    None => Err("政策记录缺少 policyIdCODE 字段"@),
                    Some(pid) => Ok((title, root_url() + "/main/policy/view/"@ + pid)),
                },
            }
        },
    }
}

fn str_of<'a>(record: &'a Json, key: &str) -> (r: Option<&'a String>)
    ensures
        match r {
            Some(s) => json_as_str(json_index(*record, key@)) == Some(s@),
            None => json_as_str(json_index(*record, key@)) is None,
        },
{
    match record.get(key) {
        Some(v) => v.as_str(),
        None => None,
    }
}

/// A record's title and page (see [`spec_entry`]).
pub fn record_entry(is_news: bool, record: &Json) -> (r: Result<(String, String), RouteError>)
    ensures
        match r {
            Ok((t, l)) => spec_entry(is_news, *record) == Ok::<_, Seq<char>>((t@, l@)),
            Err(RouteError::Message(m)) => spec_entry(is_news, *record) == Err::<
                (Seq<char>, Seq<char>),
                _,
            >(m@),
            Err(_) => false,
        },
{
    proof {
        reveal_strlit("https://www.cde.org.cn");
    }
    let title = match str_of(record, "title") {
        Some(t) => t.clone(),
        None => return Err(RouteError::msg("记录缺少 title 字段")),
    };
    let mut link = "https://www.cde.org.cn".to_owned();
    if is_news {
        let id = match str_of(record, "newsIdCode") {
            Some(t) => t,
            None => return Err(RouteError::msg("新闻记录缺少 newsIdCode 字段")),
        };
        let pic = match str_of(record, "isPic") {
            Some(p) => str_eq(p.as_str(), "1"),
            None => false,
        };
        if pic {
            push_str(&mut link, "/main/newspic/view/");
        } else {
            push_str(&mut link, "/main/news/viewInfoCommon/");
        }
        push_str(&mut link, id.as_str());
    } else {
        match str_of(record, "regulatIdCODE") {
            Some(rid) => {
                push_str(&mut link, "/main/policy/regulatview/");
                push_str(&mut link, rid.as_str());
            },
            None => {
                let pid = match str_of(record, "policyIdCODE") {
                    Some(t) => t,
                    None => return Err(RouteError::msg("政策记录缺少 policyIdCODE 字段")),
                };
                push_str(&mut link, "/main/policy/view/");
                push_str(&mut link, pid.as_str());
            },
        }
    }
    Ok((title, link))
}

/// The entries of all records, or the first record's failure.
pub open spec fn spec_entries(is_news: bool, recs: Seq<Json>) -> Result<
    Seq<(Seq<char>, Seq<char>)>,
    Seq<char>,
>
    decreases recs.len(),
{
    if recs.len() == 0 {
        Ok(seq![])
    } else {
        match spec_entries(is_news, recs.drop_last()) {
            Err(e) => Err(e),
            Ok(es) => match spec_entry(is_news, recs.last()) {
                Err(e) => Err(e),
                Ok(x) => Ok(es.push(x)),
            },
        }
    }
}

/// The views of entries.
pub open spec fn entry_views(v: Seq<(String, String)>) -> Seq<(Seq<char>, Seq<char>)> {
    v.map_values(|e: (String, String)| (e.0@, e.1@))
}

/// The title and page of every record (see [`spec_entries`]).
pub fn record_entries(is_news: bool, recs: &[Json]) -> (r: Result<Vec<(String, String)>, RouteError>)
    ensures
        match r {
            Ok(v) => spec_entries(is_news, recs@) == Ok::<_, Seq<char>>(entry_views(v@)),
            Err(RouteError::Message(m)) => spec_entries(is_news, recs@) == Err::<
                Seq<(Seq<char>, Seq<char>)>,
                _,
            >(m@),
            Err(_) => false,
        },
{
    let mut out: Vec<(String, String)> = Vec::new();
    let mut i: usize = 0;
    assert(recs@.take(0) =~= Seq::<Json>::empty());
    assert(entry_views(out@) =~= Seq::<(Seq<char>, Seq<char>)>::empty());
    while i < recs.len()
        invariant
            i <= recs.len(),
            spec_entries(is_news, recs@.take(i as int)) == Ok::<_, Seq<char>>(entry_views(out@)),
        decreases recs.len() - i,
    {
        assert(recs@.take(i + 1).drop_last() =~= recs@.take(i as int));
        assert(recs@.take(i + 1).last() == recs@[i as int]);
        match record_entry(is_news, &recs[i]) {
            Ok(e) => {
                let ghost before = entry_views(out@);
                let ghost ev = (e.0@, e.1@);
                out.push(e);
                assert(entry_views(out@) =~= before.push(ev));
            },
            Err(e) => {
                proof {
                    lemma_entries_fail(is_news, recs@, i as int);
                }
                return Err(e);
            },
        }
        i = i + 1;
    }
    assert(recs@.take(recs.len() as int) =~= recs@);
    Ok(out)
}

/// Once a record fails, the whole list fails with its message.
proof fn lemma_entries_fail(is_news: bool, recs: Seq<Json>, i: int)
    requires
        0 <= i < recs.len(),
        spec_entries(is_news, recs.take(i)) is Ok,
        spec_entry(is_news, recs[i]) is Err,
    ensures
        spec_entries(is_news, recs) == Err::<Seq<(Seq<char>, Seq<char>)>, _>(
            spec_entry(is_news, recs[i])->Err_0,
        ),
    decreases recs.len(),
{
    if i == recs.len() - 1 {
        assert(recs.drop_last() =~= recs.take(i));
    } else {
        assert(recs.drop_last().take(i) =~= recs.take(i));
        assert(recs.drop_last()[i] == recs[i]);
        lemma_entries_fail(is_news, recs.drop_last(), i);
    }
}

/// The date text of an entry's page, trimmed (empty where there is none).
pub open spec fn date_text(html: Seq<char>) -> Seq<char> {
    match first_text(html, "div.news_detail_date"@) {
        Some(t) => trim(t),
        None => seq![],
    }
}

/// Whether `parse_detail_page` fails on the page: a date it reads in the
/// form `%Y%m%d` is then written with a time zone that a date without one
/// does not have, and `chrono`'s formatting reports an error.
pub open spec fn page_fails(html: Seq<char>) -> bool {
    date_text(html).len() > 0 && naive_date_parses(date_text(html), "%Y%m%d"@)
}

/// `parse_detail_page`: the date (always `now`, as no date can be written)
/// and the inner HTML of `div.new_detail_content`; nothing where the page
/// makes it fail (see [`page_fails`]).
pub fn parse_detail_page(html: &str, now: &str) -> (r: Option<(String, String)>)
    ensures
        match r {
            Some((d, c)) => !page_fails(html@) && d@ == now@ && c@ == match first_inner_html(
                html@,
                "div.new_detail_content"@,
            ) {
                Some(h) => h,
                None => seq![],
            },
            None => page_fails(html@),
        },
{
    let t = match select_first_text(html, "div.news_detail_date") {
        Some(t) => trim_str(t.as_str()),
        None => String::new(),
    };
    if !is_empty(t.as_str()) && chrono_date_parses(t.as_str(), "%Y%m%d") {
        return None;
    }
    let desc = match select_first_inner_html(html, "div.new_detail_content") {
        Some(h) => h,
        None => String::new(),
    };
    Some((now.to_owned(), desc))
}

/// The date and text a page gives (`None`: it could not be fetched).
pub open spec fn page_parts(page: Option<Seq<char>>, now: Seq<char>) -> (Seq<char>, Seq<char>) {
    match page {
        Some(html) => (
            now,
            match first_inner_html(html, "div.new_detail_content"@) {
                Some(h) => h,
                None => seq![],
            },
        ),
        None => (now, seq![]),
    }
}

/// Some fetched page makes the route fail.
pub open spec fn any_page_fails(pages: Seq<Option<Seq<char>>>) -> bool {
    exists|i: int| 0 <= i < pages.len() && (#[trigger] pages[i]) is Some && page_fails(pages[i]->0)
}

/// The feed: one item per entry, with its page's date and text.
pub open spec fn spec_feed(
    title: Seq<char>,
    link: Seq<char>,
    entries: Seq<(Seq<char>, Seq<char>)>,
    pages: Seq<Option<Seq<char>>>,
    now: Seq<char>,
) -> FeedView {
    FeedView {
        title,
        link,
        description: seq![],
        pub_date: None,
        items: Seq::new(
            entries.len(),
            |i: int|
                FeedItemView {
                    title: Some(entries[i].0),
                    link: Some(entries[i].1),
                    description: Some(page_parts(pages[i], now).1),
                    pub_date: Some(page_parts(pages[i], now).0),
                    author: None,
                    guid: None,
                    categories: seq![],
                },
        ),
    }
}

/// The feed of the list (see [`spec_feed`]); `pages[i]` is the page of the
/// `i`-th entry, `None` where it could not be fetched. Nothing where a page
/// makes `parse_detail_page` fail.
pub fn build_feed(post: &CdePost, entries: &[(String, String)], pages: &[Option<String>], now: &str) -> (r:
    Option<Feed>)
    requires
        entries.len() == pages.len(),
    ensures
        match r {
            Some(f) => !any_page_fails(crate::routes::cde_index::page_views(pages@)) && f@
                == spec_feed(
                post.title@,
                post.link@,
                entry_views(entries@),
                crate::routes::cde_index::page_views(pages@),
                now@,
            ),
            None => any_page_fails(crate::routes::cde_index::page_views(pages@)),
        },
{
    let ghost pv = crate::routes::cde_index::page_views(pages@);
    let ghost target = spec_feed(post.title@, post.link@, entry_views(entries@), pv, now@);
    let mut items: Vec<FeedItem> = Vec::new();
    let mut i: usize = 0;
    while i < entries.len()
        invariant
            i <= entries.len(),
            entries.len() == pages.len(),
            pv == crate::routes::cde_index::page_views(pages@),
            target == spec_feed(post.title@, post.link@, entry_views(entries@), pv, now@),
            items.len() == i,
            forall|j: int| 0 <= j < i ==> #[trigger] items@[j]@ == target.items[j],
            forall|j: int| 0 <= j < i ==> !((#[trigger] pv[j]) is Some && page_fails(pv[j]->0)),
        decreases entries.len() - i,
    {
        let (date, text) = match &pages[i] {
            Some(html) => match parse_detail_page(html.as_str(), now) {
                Some(parts) => parts,
                None => {
                    assert(pv[i as int] is Some && page_fails(pv[i as int]->0));
                    return None;
                },
            },
            None => (now.to_owned(), String::new()),
        };
        let it = FeedItem {
            title: Some(entries[i].0.clone()),
            link: Some(entries[i].1.clone()),
            description: Some(text),
            pub_date: Some(date),
            author: None,
            guid: None,
            categories: Vec::new(),
        };
        assert(it@.categories =~= Seq::<Seq<char>>::empty());
        items.push(it);
        i = i + 1;
    }
    let r = Feed {
        title: post.title.clone(),
        link: post.link.clone(),
        description: String::new(),
        pub_date: None,
        items,
    };
    assert(r@.items =~= target.items);
    Some(r)
}

/// Law: the feed has one item per entry, in order, titled by the entry's
/// title and linking to its page.
pub proof fn law_entry_links(
    title: Seq<char>,
    link: Seq<char>,
    entries: Seq<(Seq<char>, Seq<char>)>,
    pages: Seq<Option<Seq<char>>>,
    now: Seq<char>,
)
    ensures
        spec_feed(title, link, entries, pages, now).items.len() == entries.len(),
        forall|i: int|
            0 <= i < entries.len() ==> (#[trigger] spec_feed(title, link, entries, pages, now).items[i]).link
                == Some(entries[i].1) && spec_feed(title, link, entries, pages, now).items[i].title == Some(
                entries[i].0,
            ),
{
}

} // verus!
