//! `/bilibili_followers`: the newest followers of a bilibili user. It needs
//! the bilibili.com cookie; the follower count is asked first, the list
//! second.
use crate::dates::{or_else, timestamp_to_rss, ts_rfc2822};
use crate::easyuser::{pair_views, Params};
use crate::feed::{Feed, FeedItem, FeedItemView, FeedView};
use crate::json::{ptr_array, ptr_i64, Json};
use crate::request_rules::RouteError;
use crate::routes::bilibili_dynamic::{parse_failure, parse_failure_error};
use crate::routes::bilibili_live_area::usize_param;
use crate::routes::bilibili_video::{int_of, int_of_exec};
use crate::routes::{code_error, code_error_exec, member_str, member_str_exec, param_nonempty_or, Fetch};
use crate::text::{cat, contains_seq, contains_str, dec, dec_int, i64_to_string, is_empty, push_str, trim_char, u64_to_string};
use vstd::prelude::*;

verus! {

/// The browser the API is asked as.
pub open spec fn user_agent() -> Seq<char> {
    "Mozilla/5.0 (Windows NT 10.0; Win64; x64) AppleWebKit/537.36 (KHTML, like Gecko) Chrome/120.0.0.0 Safari/537.36"@
}

/// What the request asks for: the user, the page size (at most 20), the
/// page, and the cookie sent.
#[derive(Debug)]
pub struct FollowersPlan {
    pub vmid: String,
    pub limit: usize,
    pub pn: usize,
    pub cookie: String,
}

/// What the parameters ask for, or the failure.
pub open spec fn spec_plan(para: Map<Seq<char>, Seq<char>>, cookie: Option<Seq<char>>) -> Result<
    (Seq<char>, usize, usize, Seq<char>),
    Seq<char>,
> {
    let vmid = param_nonempty_or(para, "vmid"@, seq![]);
    if vmid.len() == 0 {
        Err("缺少 vmid 参数，请在 /bilibili_followers?vmid=xxx 中传入目标用户 mid"@)
    } else {
        match cookie {
            None => Err("UP主粉丝列表需要登录态，请先配置 cookies.json (bilibili.com) 中的 Cookie"@),
            Some(c) => {
                let l = usize_param(para, "limit"@, 20);
                Ok(
                    (
                        vmid,
                        if l < 20 {
                            l
                        } else {
                            20usize
                        },
                        usize_param(para, "pn"@, 1),
                        c,
                    ),
                )
            },
        }
    }
}

fn usize_param_exec(para: &Params, k: &str, default: usize) -> (r: usize)
    ensures
        r == usize_param(para@, k@, default),
{
    match para.get(k) {
        Some(v) => match crate::json::parse_usize(v.as_str()) {
            Some(n) => n,
            None => default,
        },
        None => default,
    }
}

/// What the parameters ask for (see [`spec_plan`]); `cookie` is the
/// bilibili.com cookie, if the cookie file has one.
pub fn plan(para: &Params, cookie: Option<String>) -> (r: Result<FollowersPlan, RouteError>)
    ensures
        match r {
            Ok(p) => spec_plan(para@, crate::feed::opt_view(cookie)) == Ok::<_, Seq<char>>(
                (p.vmid@, p.limit, p.pn, p.cookie@),
            ),
            Err(RouteError::Message(m)) => spec_plan(para@, crate::feed::opt_view(cookie)) == Err::<
                (Seq<char>, usize, usize, Seq<char>),
                _,
            >(m@),
            Err(_) => false,
        },
{
    let vmid = crate::routes::param_nonempty_or_exec(para, "vmid", "");
    proof {
        reveal_strlit("");
        assert(""@ =~= Seq::<char>::empty());
    }
    if is_empty(vmid.as_str()) {
        return Err(RouteError::msg("缺少 vmid 参数，请在 /bilibili_followers?vmid=xxx 中传入目标用户 mid"));
    }
    let c = match cookie {
        Some(c) => c,
        None => {
            return Err(RouteError::msg("UP主粉丝列表需要登录态，请先配置 cookies.json (bilibili.com) 中的 Cookie"));
        },
    };
    let l = usize_param_exec(para, "limit", 20);
    let limit = if l < 20 {
        l
    } else {
        20
    };
    Ok(FollowersPlan { vmid, limit, pn: usize_param_exec(para, "pn", 1), cookie: c })
}

/// The headers of both requests: `Referer`, `User-Agent` and `Cookie`.
pub open spec fn headers_of(vmid: Seq<char>, cookie: Seq<char>) -> Seq<(Seq<char>, Seq<char>)> {
    seq![
        ("Referer"@, "https://space.bilibili.com/"@ + vmid + "/"@),
        ("User-Agent"@, user_agent()),
        ("Cookie"@, cookie),
    ]
}

fn headers_exec(p: &FollowersPlan) -> (r: Vec<(String, String)>)
    ensures
        pair_views(r@) == headers_of(p.vmid@, p.cookie@),
{
    let mut referer = cat("https://space.bilibili.com/", p.vmid.as_str());
    push_str(&mut referer, "/");
    let v = vec![
        ("Referer".to_owned(), referer),
        (
            "User-Agent".to_owned(),
            "Mozilla/5.0 (Windows NT 10.0; Win64; x64) AppleWebKit/537.36 (KHTML, like Gecko) Chrome/120.0.0.0 Safari/537.36".to_owned(),
        ),
        ("Cookie".to_owned(), p.cookie.clone()),
    ];
    assert(pair_views(v@) =~= headers_of(p.vmid@, p.cookie@));
    v
}

/// The request for the follower count.
pub fn stat_request(p: &FollowersPlan) -> (r: Fetch)
    ensures
        r.url@ == "https://api.bilibili.com/x/relation/stat?vmid="@ + p.vmid@,
        pair_views(r.headers@) == headers_of(p.vmid@, p.cookie@),
{
    Fetch {
        url: cat("https://api.bilibili.com/x/relation/stat?vmid=", p.vmid.as_str()),
        headers: headers_exec(p),
    }
}

/// The address of the list of followers.
pub open spec fn list_url(vmid: Seq<char>, pn: usize, limit: usize) -> Seq<char> {
    "https://api.bilibili.com/x/relation/followers?vmid="@ + vmid + "&pn="@ + dec(pn as nat) + "&ps="@
        + dec(limit as nat)
}

/// The request for the list of followers.
pub fn list_request(p: &FollowersPlan) -> (r: Fetch)
    ensures
        r.url@ == list_url(p.vmid@, p.pn, p.limit),
        pair_views(r.headers@) == headers_of(p.vmid@, p.cookie@),
{
    let mut url = cat("https://api.bilibili.com/x/relation/followers?vmid=", p.vmid.as_str());
    push_str(&mut url, "&pn=");
    push_str(&mut url, u64_to_string(p.pn as u64).as_str());
    push_str(&mut url, "&ps=");
    push_str(&mut url, u64_to_string(p.limit as u64).as_str());
    Fetch { url, headers: headers_exec(p) }
}

/// The follower count of the count's answer, or 0.
pub open spec fn follower_count(stat: Json) -> i64 {
    match ptr_i64(stat, "/data/follower"@) {
        Some(n) => n,
        None => 0,
    }
}

/// The follower count of the count's answer (see [`follower_count`]).
pub fn follower_count_exec(stat: &Json) -> (r: i64)
    ensures
        r == follower_count(*stat),
{
    match stat.ptr_i64("/data/follower") {
        Some(n) => n,
        None => 0,
    }
}

/// The failure for a list answer that is not JSON: the site's anti-bot
/// answer (it mentions `412` or `security`), or the parser's message with
/// the start of the answer.
pub open spec fn list_parse_failure(response: Seq<char>, err: Seq<char>) -> Seq<char> {
    if contains_seq(response, "412"@) || contains_seq(response, "security"@) {
        "B站风控，请检查 cookies.json (bilibili.com) 的 Cookie 是否有效"@
    } else {
        parse_failure(response, err)
    }
}

/// The failure for a list answer that is not JSON (see
/// [`list_parse_failure`]); `err` is the parser's message.
pub fn list_parse_error(response: &str, err: &str) -> (r: RouteError)
    ensures
        r matches RouteError::Message(m) && m@ == list_parse_failure(response@, err@),
{
    if contains_str(response, "412") || contains_str(response, "security") {
        return RouteError::msg("B站风控，请检查 cookies.json (bilibili.com) 的 Cookie 是否有效");
    }
    parse_failure_error(response, err)
}

/// The item of one follower, dated when they followed.
pub open spec fn follower_item(f: Json, vmid: Seq<char>, count: i64, now: Seq<char>) -> FeedItemView {
    let mid = dec_int(int_of(f, "mid"@) as int);
    let uname = member_str(f, "uname"@);
    let sign = member_str(f, "sign"@);
    let mtime = int_of(f, "mtime"@);
    FeedItemView {
        title: Some(trim_char(vmid + " 新粉丝 "@ + uname, '"')),
        link: Some("https://space.bilibili.com/"@ + mid),
        description: Some(
            uname + (if sign.len() == 0 {
                seq![]
            } else {
                "<br>签名: "@ + sign
            }) + "<br>当前粉丝总数: "@ + dec_int(count as int),
        ),
        pub_date: Some(or_else(ts_rfc2822(mtime), now)),
        author: Some(uname),
        guid: Some(("followers-"@ + vmid + "-"@ + mid + "-"@ + dec_int(mtime as int), false)),
        categories: seq![],
    }
}

/// The feed of the followers, or the failure.
pub open spec fn spec_feed(vmid: Seq<char>, count: i64, json: Json, now: Seq<char>) -> Result<FeedView, Seq<char>> {
    match code_error(json) {
        Some(e) => Err(e),
        None => match ptr_array(json, "/data/list"@) {
            None => Err("找不到 data.list 字段或不是数组"@),
            Some(list) => Ok(
                FeedView {
                    title: "UID "@ + vmid + " 的 bilibili 粉丝"@,
                    link: "https://space.bilibili.com/"@ + vmid + "/fans/fans"@,
                    description: "UID "@ + vmid + " 的 bilibili 粉丝，当前粉丝总数 "@ + dec_int(count as int),
                    pub_date: None,
                    items: list.map_values(|f: Json| follower_item(f, vmid, count, now)),
                },
            ),
        },
    }
}

fn follower_item_exec(f: &Json, vmid: &str, count: i64, now: &str) -> (r: FeedItem)
    ensures
        r@ == follower_item(*f, vmid@, count, now@),
{
    let mid = i64_to_string(int_of_exec(f, "mid"));
    let uname = member_str_exec(f, "uname");
    let sign = member_str_exec(f, "sign");
    let mtime = int_of_exec(f, "mtime");
    let mut title = cat(vmid, " 新粉丝 ");
    push_str(&mut title, uname.as_str());
    let mut d = uname.clone();
    if !is_empty(sign.as_str()) {
        push_str(&mut d, "<br>签名: ");
        push_str(&mut d, sign.as_str());
    }
    push_str(&mut d, "<br>当前粉丝总数: ");
    push_str(&mut d, i64_to_string(count).as_str());
    assert(d@ =~= uname@ + (if sign@.len() == 0 {
        Seq::<char>::empty()
    } else {
        "<br>签名: "@ + sign@
    }) + "<br>当前粉丝总数: "@ + dec_int(count as int));
    let mut g = cat("followers-", vmid);
    push_str(&mut g, "-");
    push_str(&mut g, mid.as_str());
    push_str(&mut g, "-");
    push_str(&mut g, i64_to_string(mtime).as_str());
    let r = FeedItem {
        title: Some(crate::easyuser::no_double_quotes(title)),
        link: Some(cat("https://space.bilibili.com/", mid.as_str())),
        description: Some(d),
        pub_date: Some(timestamp_to_rss(mtime, now)),
        author: Some(uname),
        guid: Some((g, false)),
        categories: Vec::new(),
    };
    assert(r@.categories =~= Seq::<Seq<char>>::empty());
    r
}

/// The feed of the followers (see [`spec_feed`]); `count` is what
/// [`follower_count_exec`] read from the count's answer.
pub fn build_feed(p: &FollowersPlan, count: i64, json: &Json, now: &str) -> (r: Result<Feed, RouteError>)
    ensures
        match r {
            Ok(f) => spec_feed(p.vmid@, count, *json, now@) == Ok::<_, Seq<char>>(f@),
            Err(RouteError::Message(m)) => spec_feed(p.vmid@, count, *json, now@) == Err::<FeedView, _>(m@),
            Err(_) => false,
        },
{
    match code_error_exec(json) {
        Some(e) => return Err(RouteError::Message(e)),
        None => {},
    }
    let list = match json.ptr_array("/data/list") {
        Some(v) => v,
        None => return Err(RouteError::msg("找不到 data.list 字段或不是数组")),
    };
    let mut items: Vec<FeedItem> = Vec::new();
    let mut i: usize = 0;
    while i < list.len()
        invariant
            i <= list.len(),
            items.len() == i,
            forall|j: int| 0 <= j < i ==> #[trigger] items@[j]@ == follower_item(list@[j], p.vmid@, count, now@),
        decreases list.len() - i,
    {
        items.push(follower_item_exec(&list[i], p.vmid.as_str(), count, now));
        i = i + 1;
    }
    let mut title = cat("UID ", p.vmid.as_str());
    push_str(&mut title, " 的 bilibili 粉丝");
    let mut link = cat("https://space.bilibili.com/", p.vmid.as_str());
    push_str(&mut link, "/fans/fans");
    let mut desc = cat("UID ", p.vmid.as_str());
    push_str(&mut desc, " 的 bilibili 粉丝，当前粉丝总数 ");
    push_str(&mut desc, i64_to_string(count).as_str());
    let f = Feed { title, link, description: desc, pub_date: None, items };
    assert(f@.items =~= list@.map_values(|x: Json| follower_item(x, p.vmid@, count, now@)));
    Ok(f)
}

/// Law: a follower links to the space of their `mid`, is written by their
/// `uname` and dated by their `mtime`.
pub proof fn law_follower_link(f: Json, vmid: Seq<char>, count: i64, now: Seq<char>)
    ensures
        follower_item(f, vmid, count, now).link == Some("https://space.bilibili.com/"@ + dec_int(int_of(f, "mid"@) as int)),
        follower_item(f, vmid, count, now).author == Some(crate::routes::member_str(f, "uname"@)),
        follower_item(f, vmid, count, now).pub_date == Some(or_else(ts_rfc2822(int_of(f, "mtime"@)), now)),
{
}

/// Law: the feed, where there is one, has one item per element of
/// `/data/list`, in order, each linking to the space of the follower's `mid`.
pub proof fn law_feed_items(vmid: Seq<char>, count: i64, json: Json, now: Seq<char>)
    ensures
        spec_feed(vmid, count, json, now) matches Ok(f) ==> match crate::json::ptr_array(json, "/data/list"@) {
            Some(list) => f.items.len() == list.len() && forall|i: int|
                0 <= i < list.len() ==> (#[trigger] f.items[i]).link == Some("https://space.bilibili.com/"@ + crate::text::dec_int(crate::routes::bilibili_video::int_of(list[i], "mid"@) as int)),
            None => false,
        },
{
}

/// Law: a follower's item is titled by the followed user and the
/// follower's `uname`.
pub proof fn law_follower_title(f: Json, vmid: Seq<char>, count: i64, now: Seq<char>)
    ensures
        follower_item(f, vmid, count, now).title == Some(
            crate::text::trim_char(vmid + " 新粉丝 "@ + crate::routes::member_str(f, "uname"@), '"'),
        ),
{
}

} // verus!
