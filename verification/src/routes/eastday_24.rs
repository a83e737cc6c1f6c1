//! `/eastday_24`: the 24-hour hot news of an Eastday category. The list is
//! JSONP; each article's page is fetched for its text and date, and the
//! further pages of a long article for the rest of its text.
use crate::dates::{datetime_str_to_rss, local0800_rfc2822, or_else};
use crate::easyuser::{pair_views, Params};
use crate::feed::{opt_view, Feed, FeedItem, FeedItemView, FeedView};
use crate::html::{first_inner_html, picked, picked_view, select_first_inner_html, select_picked, views_str, Picked};
use crate::json::{json_as_array, json_index, spec_parse_i64, parse_i64, Json};
use crate::request_rules::RouteError;
use crate::routes::{feed_result_is, get_with_header, item_views, member_str, member_str_exec, param_or, param_or_exec, plain_get, Fetch};
use crate::text::{
    capture_group, cat, dec_int, ends_with, from_range, i64_to_string, is_empty, push_str, regex_group,
    replace, replace_str, starts_with, str_eq, to_chars,
};
use vstd::prelude::*;

verus! {

/// The categories, by name and by the slug of their list.
pub open spec fn categories() -> Seq<(Seq<char>, Seq<char>)> {
    seq![
        ("社会"@, "shehui"@), ("娱乐"@, "yule"@), ("国际"@, "guoji"@), ("军事"@, "junshi"@),
        ("养生"@, "yangsheng"@), ("汽车"@, "qiche"@), ("体育"@, "tiyu"@), ("财经"@, "caijing"@),
        ("游戏"@, "youxi"@), ("科技"@, "keji"@), ("国内"@, "guonei"@), ("宠物"@, "chongwu"@),
        ("情感"@, "qinggan"@), ("人文"@, "renwen"@), ("教育"@, "jiaoyu"@),
    ]
}

/// The slug of the first category named `name` in `table`.
pub open spec fn find_slug(table: Seq<(Seq<char>, Seq<char>)>, name: Seq<char>) -> Option<Seq<char>>
    decreases table.len(),
{
    if table.len() == 0 {
        None
    } else if table[0].0 == name {
        Some(table[0].1)
    } else {
        find_slug(table.drop_first(), name)
    }
}

/// The category asked for (`社会` by default).
pub open spec fn category_name(para: Map<Seq<char>, Seq<char>>) -> Seq<char> {
    param_or(para, "category"@, "社会"@)
}

/// The slug of the category asked for; `shehui` for an unknown name.
pub open spec fn slug(para: Map<Seq<char>, Seq<char>>) -> Seq<char> {
    or_else(find_slug(categories(), category_name(para)), "shehui"@)
}

fn slug_exec(para: &Params) -> (r: String)
    ensures
        r@ == slug(para@),
{
    let name = param_or_exec(para, "category", "社会");
    let table: Vec<(&str, &str)> = vec![
        ("社会", "shehui"), ("娱乐", "yule"), ("国际", "guoji"), ("军事", "junshi"),
        ("养生", "yangsheng"), ("汽车", "qiche"), ("体育", "tiyu"), ("财经", "caijing"),
        ("游戏", "youxi"), ("科技", "keji"), ("国内", "guonei"), ("宠物", "chongwu"),
        ("情感", "qinggan"), ("人文", "renwen"), ("教育", "jiaoyu"),
    ];
    let ghost tv = table@.map_values(|p: (&str, &str)| (p.0@, p.1@));
    assert(tv =~= categories());
    assert(tv.skip(0) =~= tv);
    let mut i: usize = 0;
    while i < table.len()
        invariant
            i <= table.len(),
            tv == categories(),
            name@ == category_name(para@),
            tv == table@.map_values(|p: (&str, &str)| (p.0@, p.1@)),
            find_slug(tv.skip(i as int), name@) == find_slug(tv, name@),
        decreases table.len() - i,
    {
        assert(tv.skip(i as int)[0] == tv[i as int]);
        assert(tv.skip(i as int).drop_first() =~= tv.skip(i + 1));
        if str_eq(table[i].0, name.as_str()) {
            assert(tv[i as int] == (table@[i as int].0@, table@[i as int].1@));
            return table[i].1.to_owned();
        }
        i = i + 1;
    }
    assert(tv.skip(table.len() as int) =~= Seq::<(Seq<char>, Seq<char>)>::empty());
    "shehui".to_owned()
}

/// The address of the category's list.
pub open spec fn api_url(para: Map<Seq<char>, Seq<char>>) -> Seq<char> {
    "https://mini.eastday.com/ns/api/detail/trust/trust-news-"@ + slug(para) + ".json"@
}

/// The request for the category's list.
pub fn request(para: &Params) -> (r: Fetch)
    ensures
        r.url@ == api_url(para@),
        r.headers@.len() == 0,
{
    let mut url = cat("https://mini.eastday.com/ns/api/detail/trust/trust-news-", slug_exec(para).as_str());
    push_str(&mut url, ".json");
    plain_get(url)
}

/// The JSON inside the list's `trustNews(...)` wrapper.
pub open spec fn unwrap_jsonp(s: Seq<char>) -> Option<Seq<char>> {
    if "trustNews("@.is_prefix_of(s) && ")"@.is_suffix_of(s.skip(10)) {
        Some(s.skip(10).drop_last())
    } else {
        None
    }
}

/// The JSON text of the list (see [`unwrap_jsonp`]), or the failure where
/// the wrapper is not there.
pub fn json_text_of(resp: &str) -> (r: Result<String, RouteError>)
    ensures
        match r {
            Ok(t) => unwrap_jsonp(resp@) == Some(t@),
            Err(RouteError::Message(m)) => unwrap_jsonp(resp@) is None && m@ == "JSONP 格式错误"@,
            Err(_) => false,
        },
{
    proof {
        reveal_strlit("trustNews(");
        reveal_strlit(")");
    }
    let v = to_chars(resp);
    if !starts_with(resp, "trustNews(") || v.len() < 11 || v[v.len() - 1] != ')' {
        proof {
            if "trustNews("@.is_prefix_of(resp@) && ")"@.is_suffix_of(resp@.skip(10)) {
                let t = resp@.skip(10);
                assert(t.len() >= 1);
                assert(t.subrange(t.len() - 1, t.len() as int) =~= ")"@);
                assert(t.subrange(t.len() - 1, t.len() as int)[0] == t[t.len() - 1]);
                assert(t[t.len() - 1] == resp@[resp@.len() - 1]);
                assert(")"@[0] == ')');
                assert(v@[v.len() - 1] == resp@[resp@.len() - 1]);
            }
        }
        return Err(RouteError::msg("JSONP 格式错误"));
    }
    proof {
        assert(resp@.skip(10)[resp@.skip(10).len() - 1] == resp@[resp@.len() - 1]);
        assert(resp@.skip(10).subrange(resp@.skip(10).len() - 1, resp@.skip(10).len() as int) =~= ")"@);
    }
    let t = from_range(v.as_slice(), 10, v.len() - 1);
    assert(t@ =~= resp@.skip(10).drop_last());
    Ok(t)
}

/// The entries of the list (none where `data.trust` is not a list).
pub open spec fn list_of(json: Json) -> Option<Seq<Json>> {
    json_as_array(json_index(json_index(json, "data"@), "trust"@))
}

/// An entry is shown when it has a title (`topic`) and a path.
pub open spec fn is_shown(entry: Json) -> bool {
    member_str(entry, "topic"@).len() > 0 && member_str(entry, "url"@).len() > 0
}

/// An entry's page.
pub open spec fn link_of(entry: Json) -> Seq<char> {
    "https://mini.eastday.com"@ + member_str(entry, "url"@)
}

/// The pages of the entries shown, in order.
pub open spec fn shown_links(list: Seq<Json>) -> Seq<Seq<char>>
    decreases list.len(),
{
    if list.len() == 0 {
        seq![]
    } else {
        let rest = shown_links(list.drop_last());
        if is_shown(list.last()) {
            rest.push(link_of(list.last()))
        } else {
            rest
        }
    }
}

fn trust_list(json: &Json) -> (r: Option<&Vec<Json>>)
    ensures
        match r {
            Some(a) => list_of(*json) == Some(a@),
            None => list_of(*json) is None,
        },
{
    match json.get("data") {
        Some(d) => match d.get("trust") {
            Some(Json::Array(a)) => Some(a),
            _ => None,
        },
        None => {
            proof {
                reveal(crate::json::json_get);
            }
            None
        },
    }
}

/// The pages to fetch: the page of each entry shown, in order; the failure
/// where the list is missing.
pub fn article_links(json: &Json) -> (r: Result<Vec<String>, RouteError>)
    ensures
        match (r, list_of(*json)) {
            (Ok(v), Some(l)) => crate::text::views(v@) == shown_links(l),
            (Err(RouteError::Message(m)), None) => m@ == "找不到 data.trust"@,
            _ => false,
        },
{
    let list = match trust_list(json) {
        Some(a) => a,
        None => return Err(RouteError::msg("找不到 data.trust")),
    };
    let mut out: Vec<String> = Vec::new();
    let mut i: usize = 0;
    assert(crate::text::views(out@) =~= shown_links(list@.take(0)));
    while i < list.len()
        invariant
            i <= list.len(),
            crate::text::views(out@) == shown_links(list@.take(i as int)),
        decreases list.len() - i,
    {
        assert(list@.take(i + 1).drop_last() =~= list@.take(i as int));
        assert(list@.take(i + 1).last() == list@[i as int]);
        let title = member_str_exec(&list[i], "topic");
        let path = member_str_exec(&list[i], "url");
        if !is_empty(title.as_str()) && !is_empty(path.as_str()) {
            let ghost before = crate::text::views(out@);
            let link = cat("https://mini.eastday.com", path.as_str());
            out.push(link);
            assert(crate::text::views(out@) =~= before.push(link_of(list@[i as int])));
        }
        i = i + 1;
    }
    assert(list@.take(list.len() as int) =~= list@);
    Ok(out)
}

/// The request for an article's page (or one of its further pages).
pub fn detail_request(link: &str) -> (r: Fetch)
    ensures
        r.url@ == link@,
        pair_views(r.headers@) == seq![("User-Agent"@, "Mozilla/5.0 (Windows NT 10.0; Win64; x64) AppleWebKit/537.36"@)],
{
    get_with_header(link.to_owned(), "User-Agent", "Mozilla/5.0 (Windows NT 10.0; Win64; x64) AppleWebKit/537.36")
}

/// `str::parse::<i32>`.
pub open spec fn spec_parse_i32(t: Seq<char>) -> Option<i32> {
    match spec_parse_i64(t) {
        Some(v) => if i32::MIN <= v <= i32::MAX {
            Some(v as i32)
        } else {
            None
        },
        None => None,
    }
}

/// The number of pages an article's page names (`var page_num = 'N'`);
/// nothing where it names none.
pub open spec fn spec_page_count(text: Seq<char>) -> Option<i32> {
    match regex_group("var page_num = '(\\d+)'"@, text, 1) {
        Some(n) => spec_parse_i32(n),
        None => None,
    }
}

/// The number of pages an article's page names (see [`spec_page_count`]).
pub fn page_count(text: &str) -> (r: Option<i32>)
    ensures
        r == spec_page_count(text@),
{
    match capture_group("var page_num = '(\\d+)'", text, 1) {
        Some(n) => match parse_i64(n.as_str()) {
            Some(v) => if -0x8000_0000i64 <= v && v <= 0x7fff_ffffi64 {
                Some(v as i32)
            } else {
                None
            },
            None => None,
        },
        None => None,
    }
}

/// The address of page `i` of an article: `-i` before the `.html` of its
/// address; the address itself where it does not end in `.html`.
pub open spec fn spec_page_link(link: Seq<char>, i: int) -> Seq<char> {
    if ".html"@.is_suffix_of(link) {
        link.take(link.len() - 5) + "-"@ + dec_int(i) + ".html"@
    } else {
        link
    }
}

/// The address of page `i` of an article (see [`spec_page_link`]).
pub fn page_link(link: &str, i: i32) -> (r: String)
    ensures
        r@ == spec_page_link(link@, i as int),
{
    proof {
        reveal_strlit(".html");
    }
    if ends_with(link, ".html") {
        let v = to_chars(link);
        let mut r = from_range(v.as_slice(), 0, v.len() - 5);
        push_str(&mut r, "-");
        push_str(&mut r, i64_to_string(i as i64).as_str());
        push_str(&mut r, ".html");
        r
    } else {
        link.to_owned()
    }
}

/// The text part of a page: the inner HTML of `#J-contain_detail_cnt`, or
/// nothing.
pub open spec fn content_of(html: Seq<char>) -> Seq<char> {
    or_else(first_inner_html(html, "#J-contain_detail_cnt"@), seq![])
}

/// The text parts of the further pages, in order (`None`: not fetched).
pub open spec fn more_content(more: Seq<Option<Seq<char>>>) -> Seq<char>
    decreases more.len(),
{
    if more.len() == 0 {
        seq![]
    } else {
        more_content(more.drop_last()) + match more.last() {
            Some(h) => content_of(h),
            None => seq![],
        }
    }
}

/// The `content` of the first `og:release_date` meta element.
pub open spec fn release_date(html: Seq<char>) -> Option<Seq<char>> {
    let ps = picked(html, "meta[property='og:release_date']"@, "content"@, seq![]);
    if ps.len() > 0 {
        ps[0].0
    } else {
        None
    }
}

/// An article's date from its page (`None`: the fetch failed): the
/// release date with `T` and `Z` taken out, as a time at UTC+8; `now` where
/// there is none or it does not read.
pub open spec fn page_date(page: Option<Seq<char>>, now: Seq<char>) -> Seq<char> {
    match page {
        None => now,
        Some(h) => match release_date(h) {
            Some(d) => or_else(local0800_rfc2822(replace(replace(d, "T"@, " "@), "Z"@, seq![])), now),
            None => now,
        },
    }
}

/// An article's description: the text part of its page, then those of its
/// further pages; empty where the page could not be fetched.
pub open spec fn spec_description(page: Option<Seq<char>>, more: Seq<Option<Seq<char>>>) -> Seq<char> {
    match page {
        None => seq![],
        Some(h) => content_of(h) + more_content(more),
    }
}

fn content_exec(html: &str) -> (r: String)
    ensures
        r@ == content_of(html@),
{
    match select_first_inner_html(html, "#J-contain_detail_cnt") {
        Some(c) => c,
        None => String::new(),
    }
}

fn description_exec(page: Option<&str>, more: &Vec<Option<String>>) -> (r: String)
    ensures
        r@ == spec_description(
            match page {
                Some(p) => Some(p@),
                None => None,
            },
            more@.map_values(|m: Option<String>| opt_view(m)),
        ),
{
    let html = match page {
        Some(h) => h,
        None => return String::new(),
    };
    let mut d = content_exec(html);
    let ghost head = d@;
    let ghost mv = more@.map_values(|m: Option<String>| opt_view(m));
    let mut i: usize = 0;
    assert(mv.take(0) =~= Seq::<Option<Seq<char>>>::empty());
    assert(d@ =~= head + more_content(mv.take(0)));
    while i < more.len()
        invariant
            i <= more.len(),
            mv == more@.map_values(|m: Option<String>| opt_view(m)),
            d@ == head + more_content(mv.take(i as int)),
        decreases more.len() - i,
    {
        assert(mv.take(i + 1).drop_last() =~= mv.take(i as int));
        assert(mv.take(i + 1).last() == opt_view(more@[i as int]));
        let ghost before = d@;
        match &more[i] {
            Some(h) => {
                let c = content_exec(h.as_str());
                push_str(&mut d, c.as_str());
                assert(d@ =~= before + content_of(h@));
            },
            None => {
                assert(d@ =~= before + Seq::<char>::empty());
            },
        }
        i = i + 1;
    }
    assert(mv.take(more.len() as int) =~= mv);
    d
}

fn date_exec(page: Option<&str>, now: &str) -> (r: String)
    ensures
        r@ == page_date(
            match page {
                Some(p) => Some(p@),
                None => None,
            },
            now@,
        ),
{
    let html = match page {
        Some(h) => h,
        None => return now.to_owned(),
    };
    let subs: Vec<&str> = Vec::new();
    assert(views_str(subs@) =~= Seq::<Seq<char>>::empty());
    let ps = select_picked(html, "meta[property='og:release_date']", "content", subs.as_slice());
    proof {
        let pv = ps@.map_values(|p: Picked| picked_view(p));
        if ps@.len() > 0 {
            assert(pv[0] == picked_view(ps@[0]));
        }
    }
    if ps.len() == 0 {
        return now.to_owned();
    }
    proof {
        reveal_strlit("T");
        reveal_strlit(" ");
        reveal_strlit("Z");
        reveal_strlit("");
        assert(""@ =~= Seq::<char>::empty());
    }
    match &ps[0].attr {
        Some(d) => {
            let t = replace_str(replace_str(d.as_str(), "T", " ").as_str(), "Z", "");
            match datetime_str_to_rss(t.as_str()) {
                Some(x) => x,
                None => now.to_owned(),
            }
        },
        None => now.to_owned(),
    }
}

/// The item of a shown entry: its title, its page, the description and
/// the date from the fetched pages.
pub open spec fn item_of(entry: Json, page: Option<Seq<char>>, more: Seq<Option<Seq<char>>>, now: Seq<char>) -> FeedItemView {
    FeedItemView {
        title: Some(member_str(entry, "topic"@)),
        link: Some(link_of(entry)),
        description: Some(spec_description(page, more)),
        pub_date: Some(page_date(page, now)),
        author: None,
        guid: None,
        categories: seq![],
    }
}

/// What was fetched for an article: its page (`None`: the fetch failed)
/// and its further pages, pages 2 to N in order.
pub open spec fn fetched_view(f: (Option<String>, Vec<Option<String>>)) -> (Option<Seq<char>>, Seq<Option<Seq<char>>>) {
    (opt_view(f.0), f.1@.map_values(|m: Option<String>| opt_view(m)))
}

/// What was fetched for the `k`-th article, nothing past the end.
pub open spec fn fetched_at(fs: Seq<(Option<Seq<char>>, Seq<Option<Seq<char>>>)>, k: int) -> (Option<Seq<char>>, Seq<Option<Seq<char>>>) {
    if 0 <= k < fs.len() {
        fs[k]
    } else {
        (None, seq![])
    }
}

/// The items of the entries shown, in order; the `k`-th shown entry goes
/// with what was fetched for the `k`-th link.
pub open spec fn items_of(list: Seq<Json>, fs: Seq<(Option<Seq<char>>, Seq<Option<Seq<char>>>)>, now: Seq<char>) -> Seq<FeedItemView>
    decreases list.len(),
{
    if list.len() == 0 {
        seq![]
    } else {
        let rest = items_of(list.drop_last(), fs, now);
        if is_shown(list.last()) {
            let f = fetched_at(fs, rest.len() as int);
            rest.push(item_of(list.last(), f.0, f.1, now))
        } else {
            rest
        }
    }
}

/// The feed of the category, or the failure where the list is missing.
pub open spec fn spec_feed(para: Map<Seq<char>, Seq<char>>, json: Json, fs: Seq<(Option<Seq<char>>, Seq<Option<Seq<char>>>)>, now: Seq<char>) -> Result<FeedView, Seq<char>> {
    match list_of(json) {
        None => Err("找不到 data.trust"@),
        Some(l) => Ok(FeedView {
            title: "24小时"@ + category_name(para) + "热闻 - 东方资讯"@,
            link: "https://mini.eastday.com/#"@ + slug(para),
            description: "东方资讯24小时热闻"@,
            pub_date: None,
            items: items_of(l, fs, now),
        }),
    }
}

/// `get`, after the fetches: the feed of the list; `fetched[k]` is what was
/// fetched for the `k`-th link of [`article_links`] (its page, and where
/// that came, its further pages: see [`page_count`] and [`page_link`]);
/// `now` is the current time in RSS form.
pub fn build_feed(
    para: &Params,
    json: &Json,
    fetched: &[(Option<String>, Vec<Option<String>>)],
    now: &str,
) -> (r: Result<Feed, RouteError>)
    ensures
        feed_result_is(
            r,
            spec_feed(para@, *json, fetched@.map_values(|f: (Option<String>, Vec<Option<String>>)| fetched_view(f)), now@),
        ),
{
    let ghost fv = fetched@.map_values(|f: (Option<String>, Vec<Option<String>>)| fetched_view(f));
    let list = match trust_list(json) {
        Some(a) => a,
        None => return Err(RouteError::msg("找不到 data.trust")),
    };
    let empty: Vec<Option<String>> = Vec::new();
    assert(empty@.map_values(|m: Option<String>| opt_view(m)) =~= Seq::<Option<Seq<char>>>::empty());
    let mut items: Vec<FeedItem> = Vec::new();
    let mut i: usize = 0;
    assert(item_views(items@) =~= items_of(list@.take(0), fv, now@));
    while i < list.len()
        invariant
            i <= list.len(),
            fv == fetched@.map_values(|f: (Option<String>, Vec<Option<String>>)| fetched_view(f)),
            empty@.map_values(|m: Option<String>| opt_view(m)) == Seq::<Option<Seq<char>>>::empty(),
            item_views(items@) == items_of(list@.take(i as int), fv, now@),
        decreases list.len() - i,
    {
        assert(list@.take(i + 1).drop_last() =~= list@.take(i as int));
        assert(list@.take(i + 1).last() == list@[i as int]);
        let title = member_str_exec(&list[i], "topic");
        let path = member_str_exec(&list[i], "url");
        if !is_empty(title.as_str()) && !is_empty(path.as_str()) {
            let k = items.len();
            let (page, more): (Option<&str>, &Vec<Option<String>>) = if k < fetched.len() {
                (
                    match &fetched[k].0 {
                        Some(p) => Some(p.as_str()),
                        None => None,
                    },
                    &fetched[k].1,
                )
            } else {
                (None, &empty)
            };
            assert(fetched_at(fv, k as int) == (
                match page {
                    Some(p) => Some(p@),
                    None => None::<Seq<char>>,
                },
                more@.map_values(|m: Option<String>| opt_view(m)),
            ));
            let it = FeedItem {
                title: Some(title),
                link: Some(cat("https://mini.eastday.com", path.as_str())),
                description: Some(description_exec(page, more)),
                pub_date: Some(date_exec(page, now)),
                author: None,
                guid: None,
                categories: Vec::new(),
            };
            assert(it@.categories =~= Seq::<Seq<char>>::empty());
            let ghost before = item_views(items@);
            items.push(it);
            assert(item_views(items@) =~= before.push(it@));
        }
        i = i + 1;
    }
    assert(list@.take(list.len() as int) =~= list@);
    let mut title = cat("24小时", param_or_exec(para, "category", "社会").as_str());
    push_str(&mut title, "热闻 - 东方资讯");
    Ok(Feed {
        title,
        link: cat("https://mini.eastday.com/#", slug_exec(para).as_str()),
        description: "东方资讯24小时热闻".to_owned(),
        pub_date: None,
        items,
    })
}

/// Law: an entry links to `https://mini.eastday.com` followed by its `url`
/// and is titled by its `topic`.
pub proof fn law_entry_link(entry: Json, page: Option<Seq<char>>, more: Seq<Option<Seq<char>>>, now: Seq<char>)
    ensures
        item_of(entry, page, more, now).link == Some("https://mini.eastday.com"@ + crate::routes::member_str(entry, "url"@)),
        item_of(entry, page, more, now).title == Some(crate::routes::member_str(entry, "topic"@)),
{
}

} // verus!
