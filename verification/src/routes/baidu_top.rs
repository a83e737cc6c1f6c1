//! `/baidu_top`: Baidu's trending lists. The board page embeds its data as
//! JSON in an HTML comment.
use crate::easyuser::{pair_views, HttpError, Params};
use crate::feed::{Feed, FeedItem, FeedItemView, FeedView};
use crate::json::{json_as_array, json_as_str, json_index, ptr_array, Json};
use crate::request_rules::RouteError;
use crate::routes::{get_with_header, member_str, member_str_exec, param_or, param_or_exec, Fetch};
use crate::text::{cat, capture_group, is_empty, push_str, regex_group, str_eq};
use vstd::prelude::*;

verus! {

/// The boards there are.
pub open spec fn valid_tabs() -> Seq<Seq<char>> {
    seq!["realtime"@, "game"@, "finance"@, "sport"@, "novel"@, "car"@]
}

/// The browser the page is asked as.
pub open spec fn user_agent() -> Seq<char> {
    "Mozilla/5.0 (Windows NT 10.0; Win64; x64) AppleWebKit/537.36 (KHTML, like Gecko) Chrome/120.0.0.0 Safari/537.36"@
}

/// The board asked for (`realtime` by default).
pub open spec fn tab_of(para: Map<Seq<char>, Seq<char>>) -> Seq<char> {
    param_or(para, "tab"@, "realtime"@)
}

/// The board's page.
pub open spec fn board_url(tab: Seq<char>) -> Seq<char> {
    "https://top.baidu.com/board?tab="@ + tab
}

/// The request for the board's page, or a 400 for an unknown board.
pub open spec fn spec_request(para: Map<Seq<char>, Seq<char>>) -> Result<(Seq<char>, Seq<(Seq<char>, Seq<char>)>), (u16, Seq<char>)> {
    let tab = tab_of(para);
    if valid_tabs().contains(tab) {
        Ok((board_url(tab), seq![("User-Agent"@, user_agent())]))
    } else {
        Err((400u16, "不支持的 tab: "@ + tab + "，可用: realtime/game/finance/sport/novel/car"@))
    }
}

/// Law: a `tab` other than the six boards is refused with 400 and a
/// message naming it and the boards, and no page is fetched; without `tab`
/// the `realtime` board is asked for.
pub proof fn law_unknown_tab(para: Map<Seq<char>, Seq<char>>)
    ensures
        para.contains_key("tab"@) && !valid_tabs().contains(para["tab"@]) ==> spec_request(para) == Err::<
            (Seq<char>, Seq<(Seq<char>, Seq<char>)>),
            (u16, Seq<char>),
        >((400u16, "不支持的 tab: "@ + para["tab"@] + "，可用: realtime/game/finance/sport/novel/car"@)),
        !para.contains_key("tab"@) ==> spec_request(para) is Ok && spec_request(para)->Ok_0.0 == board_url("realtime"@),
{
    if !para.contains_key("tab"@) {
        assert(valid_tabs()[0] == "realtime"@);
    }
}

fn is_valid_tab(tab: &str) -> (r: bool)
    ensures
        r == valid_tabs().contains(tab@),
{
    let r = str_eq(tab, "realtime") || str_eq(tab, "game") || str_eq(tab, "finance") || str_eq(tab, "sport")
        || str_eq(tab, "novel") || str_eq(tab, "car");
    proof {
        let v = valid_tabs();
        if r {
            assert(v[0] == "realtime"@ && v[1] == "game"@ && v[2] == "finance"@ && v[3] == "sport"@
                && v[4] == "novel"@ && v[5] == "car"@);
        } else {
            assert forall|i: int| 0 <= i < v.len() implies v[i] != tab@ by {}
        }
    }
    r
}

/// The request for the board's page (see [`spec_request`]).
pub fn request(para: &Params) -> (r: Result<Fetch, RouteError>)
    ensures
        match r {
            Ok(f) => spec_request(para@) == Ok::<_, (u16, Seq<char>)>((f.url@, pair_views(f.headers@))),
            Err(RouteError::Http(e)) => spec_request(para@) == Err::<(Seq<char>, Seq<(Seq<char>, Seq<char>)>), _>(
                (e.status, e.message@),
            ),
            Err(_) => false,
        },
{
    let tab = param_or_exec(para, "tab", "realtime");
    if !is_valid_tab(tab.as_str()) {
        let mut m = cat("不支持的 tab: ", tab.as_str());
        push_str(&mut m, "，可用: realtime/game/finance/sport/novel/car");
        return Err(RouteError::Http(HttpError::bad_request(m.as_str())));
    }
    Ok(get_with_header(
        cat("https://top.baidu.com/board?tab=", tab.as_str()),
        "User-Agent",
        "Mozilla/5.0 (Windows NT 10.0; Win64; x64) AppleWebKit/537.36 (KHTML, like Gecko) Chrome/120.0.0.0 Safari/537.36",
    ))
}

/// The pattern of the embedded data.
pub open spec fn data_pattern() -> Seq<char> {
    "<!--s-data:([\\s\\S]*?)-->"@
}

/// The embedded data's text, or a 502 where the page holds none.
pub fn embedded_data(page: &str) -> (r: Result<String, RouteError>)
    ensures
        match r {
            Ok(t) => regex_group(data_pattern(), page@, 1) == Some(t@),
            Err(RouteError::Http(e)) => regex_group(data_pattern(), page@, 1) is None && e.status == 502
                && e.message@ == "百度热搜页面未找到数据"@,
            Err(_) => false,
        },
{
    match capture_group("<!--s-data:([\\s\\S]*?)-->", page, 1) {
        Some(t) => Ok(t),
        None => Err(RouteError::Http(HttpError::bad_gateway("百度热搜页面未找到数据"))),
    }
}

/// The item of one entry, dated `now`: its word, its link (the first of
/// `rawUrl`, `url`, `appUrl` that is a string, else the site), and its
/// picture, heat and text.
pub open spec fn entry_item(it: Json, now: Seq<char>) -> FeedItemView {
    let img = member_str(it, "img"@);
    FeedItemView {
        title: Some(member_str(it, "word"@)),
        link: Some(
            match json_as_str(json_index(it, "rawUrl"@)) {
                Some(u) => u,
                None => match json_as_str(json_index(it, "url"@)) {
                    Some(u) => u,
                    None => match json_as_str(json_index(it, "appUrl"@)) {
                        Some(u) => u,
                        None => "https://top.baidu.com/"@,
                    },
                },
            },
        ),
        description: Some(
            (if img.len() == 0 {
                seq![]
            } else {
                "<img src=\""@ + img + "\" referrerpolicy=\"no-referrer\"><br>"@
            }) + "热度："@ + member_str(it, "hotScore"@) + "<br><br>"@ + member_str(it, "desc"@),
        ),
        pub_date: Some(now),
        author: None,
        guid: None,
        categories: seq![],
    }
}

/// The items of one card's entries that have a word.
pub open spec fn card_items(entries: Seq<Json>, now: Seq<char>) -> Seq<FeedItemView>
    decreases entries.len(),
{
    if entries.len() == 0 {
        seq![]
    } else {
        let rest = card_items(entries.drop_last(), now);
        if member_str(entries.last(), "word"@).len() == 0 {
            rest
        } else {
            rest.push(entry_item(entries.last(), now))
        }
    }
}

/// The items of all cards; cards without a content list are passed over.
pub open spec fn all_items(cards: Seq<Json>, now: Seq<char>) -> Seq<FeedItemView>
    decreases cards.len(),
{
    if cards.len() == 0 {
        seq![]
    } else {
        all_items(cards.drop_last(), now) + match json_as_array(json_index(cards.last(), "content"@)) {
            Some(c) => card_items(c, now),
            None => seq![],
        }
    }
}

/// The feed of the embedded data, or the failure.
pub open spec fn spec_feed(tab: Seq<char>, data: Json, now: Seq<char>) -> Result<FeedView, Seq<char>> {
    match ptr_array(data, "/data/cards"@) {
        None => Err("百度热搜数据缺少 cards"@),
        Some(cards) => Ok(
            FeedView {
                title: if tab == "realtime"@ {
                    "百度热搜"@
                } else {
                    "百度热搜 - "@ + tab
                },
                link: board_url(tab),
                description: "百度热搜榜单 | AI制作 / huiinyg-rusting审核"@,
                pub_date: Some(now),
                items: all_items(cards, now),
            },
        ),
    }
}

fn entry_item_exec(it: &Json, now: &str) -> (r: FeedItem)
    ensures
        r@ == entry_item(*it, now@),
{
    let img = member_str_exec(it, "img");
    let link = match it.str_at("rawUrl") {
        Some(u) => u.clone(),
        None => match it.str_at("url") {
            Some(u) => u.clone(),
            None => match it.str_at("appUrl") {
                Some(u) => u.clone(),
                None => "https://top.baidu.com/".to_owned(),
            },
        },
    };
    let mut d = String::new();
    if !is_empty(img.as_str()) {
        push_str(&mut d, "<img src=\"");
        push_str(&mut d, img.as_str());
        push_str(&mut d, "\" referrerpolicy=\"no-referrer\"><br>");
    }
    let ghost head = d@;
    push_str(&mut d, "热度：");
    push_str(&mut d, member_str_exec(it, "hotScore").as_str());
    push_str(&mut d, "<br><br>");
    push_str(&mut d, member_str_exec(it, "desc").as_str());
    assert(d@ =~= head + "热度："@ + member_str(*it, "hotScore"@) + "<br><br>"@ + member_str(*it, "desc"@));
    let r = FeedItem {
        title: Some(member_str_exec(it, "word")),
        link: Some(link),
        description: Some(d),
        pub_date: Some(now.to_owned()),
        author: None,
        guid: None,
        categories: Vec::new(),
    };
    assert(r@.categories =~= Seq::<Seq<char>>::empty());
    r
}

/// The feed of the embedded data (see [`spec_feed`]); `tab` is the board
/// asked for.
pub fn build_feed(tab: &str, data: &Json, now: &str) -> (r: Result<Feed, RouteError>)
    ensures
        match r {
            Ok(f) => spec_feed(tab@, *data, now@) == Ok::<_, Seq<char>>(f@),
            Err(RouteError::Message(m)) => spec_feed(tab@, *data, now@) == Err::<FeedView, _>(m@),
            Err(_) => false,
        },
{
    let cards = match data.ptr_array("/data/cards") {
        Some(c) => c,
        None => return Err(RouteError::msg("百度热搜数据缺少 cards")),
    };
    let mut items: Vec<FeedItem> = Vec::new();
    let mut i: usize = 0;
    assert(cards@.take(0) =~= Seq::<Json>::empty());
    assert(crate::routes::item_views(items@) =~= Seq::<FeedItemView>::empty());
    while i < cards.len()
        invariant
            i <= cards.len(),
            crate::routes::item_views(items@) == all_items(cards@.take(i as int), now@),
        decreases cards.len() - i,
    {
        assert(cards@.take(i + 1).drop_last() =~= cards@.take(i as int));
        assert(cards@.take(i + 1).last() == cards@[i as int]);
        let ghost before = crate::routes::item_views(items@);
        match cards[i].get("content") {
            Some(Json::Array(content)) => {
                let mut k: usize = 0;
                assert(content@.take(0) =~= Seq::<Json>::empty());
                assert(before + card_items(content@.take(0), now@) =~= before);
                while k < content.len()
                    invariant
                        k <= content.len(),
                        crate::routes::item_views(items@) == before + card_items(content@.take(k as int), now@),
                    decreases content.len() - k,
                {
                    assert(content@.take(k + 1).drop_last() =~= content@.take(k as int));
                    assert(content@.take(k + 1).last() == content@[k as int]);
                    let word = member_str_exec(&content[k], "word");
                    if !is_empty(word.as_str()) {
                        let it = entry_item_exec(&content[k], now);
                        let ghost iv = it@;
                        let ghost cur = crate::routes::item_views(items@);
                        items.push(it);
                        assert(crate::routes::item_views(items@) =~= cur.push(iv));
                    }
                    k = k + 1;
                }
                assert(content@.take(content.len() as int) =~= content@);
            },
            _ => {
                assert(before + Seq::<FeedItemView>::empty() =~= before);
            },
        }
        i = i + 1;
    }
    assert(cards@.take(cards.len() as int) =~= cards@);
    let title = if str_eq(tab, "realtime") {
        "百度热搜".to_owned()
    } else {
        cat("百度热搜 - ", tab)
    };
    Ok(Feed {
        title,
        link: cat("https://top.baidu.com/board?tab=", tab),
        description: "百度热搜榜单 | AI制作 / huiinyg-rusting审核".to_owned(),
        pub_date: Some(now.to_owned()),
        items,
    })
}

/// Law: an entry links to its `rawUrl`, else its `url`, else its `appUrl`
/// (the first that is a string), else to the site; it is titled by its
/// `word` and dated `now`.
pub proof fn law_entry_link(it: Json, now: Seq<char>)
    ensures
        entry_item(it, now).title == Some(crate::routes::member_str(it, "word"@)),
        entry_item(it, now).pub_date == Some(now),
        crate::json::json_index(it, "rawUrl"@) matches Json::Str(u) ==> entry_item(it, now).link == Some(u@),
        !(crate::json::json_index(it, "rawUrl"@) is Str) ==> (crate::json::json_index(it, "url"@) matches Json::Str(u)
            ==> entry_item(it, now).link == Some(u@)),
        !(crate::json::json_index(it, "rawUrl"@) is Str) && !(crate::json::json_index(it, "url"@) is Str)
            ==> (crate::json::json_index(it, "appUrl"@) matches Json::Str(u) ==> entry_item(it, now).link == Some(u@)),
        !(crate::json::json_index(it, "rawUrl"@) is Str) && !(crate::json::json_index(it, "url"@) is Str)
            && !(crate::json::json_index(it, "appUrl"@) is Str) ==> entry_item(it, now).link == Some(
            "https://top.baidu.com/"@,
        ),
{
}

} // verus!
