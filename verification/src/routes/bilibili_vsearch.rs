//! `/bilibili_vsearch`: bilibili's video search for a keyword.
use crate::dates::{or_else, timestamp_to_rss, ts_rfc2822};
use crate::easyuser::{pair_views, param, split_exec, split_on, url_encode, url_encoded, Params};
use crate::feed::{opt_view, Feed, FeedItem, FeedItemView, FeedView};
use crate::json::{json_as_i64, json_as_str, json_index, ptr_array, Json};
use crate::request_rules::RouteError;
use crate::routes::bilibili_video::{int_of, int_of_exec, referer_headers, spec_embed, with_referer};
use crate::routes::{member_str, member_str_exec, param_or, param_or_exec, Fetch};
use crate::text::{
    cat, dec_int, i64_to_string, is_empty, push_str, regex_replaced, replace, replace_all,
    replace_str, starts_with, views,
};
use vstd::prelude::*;

verus! {

/// The message for a request without `kw`.
pub open spec fn missing_kw() -> Seq<char> {
    "缺少 kw 参数"@
}

/// The search page for the keyword, sent as `Referer`.
pub open spec fn search_page(kw: Seq<char>) -> Seq<char> {
    "https://search.bilibili.com/all?keyword="@ + url_encoded(kw)
}

/// The API address: the keyword, the order (`pubdate`) and the section
/// (`0`).
pub open spec fn api_url(para: Map<Seq<char>, Seq<char>>, kw: Seq<char>) -> Seq<char> {
    "https://api.bilibili.com/x/web-interface/search/type?search_type=video&highlight=1&keyword="@
        + url_encoded(kw) + "&order="@ + param_or(para, "order"@, "pubdate"@) + "&tids="@ + param_or(
        para,
        "tid"@,
        "0"@,
    )
}

/// The request, with the search page as `Referer` and the bilibili.com
/// cookie where known.
pub fn request(para: &Params, cookie: Option<String>) -> (r: Result<Fetch, RouteError>)
    ensures
        match r {
            Ok(f) => param(para@, "kw"@) matches Some(kw) && f.url@ == api_url(para@, kw)
                && pair_views(f.headers@) == referer_headers(search_page(kw), opt_view(cookie)),
            Err(RouteError::Message(m)) => param(para@, "kw"@) is None && m@ == missing_kw(),
            Err(_) => false,
        },
{
    let kw = match para.get("kw") {
        Some(k) => k,
        None => return Err(RouteError::msg("缺少 kw 参数")),
    };
    let enc = url_encode(kw.as_str());
    let mut url = cat(
        "https://api.bilibili.com/x/web-interface/search/type?search_type=video&highlight=1&keyword=",
        enc.as_str(),
    );
    push_str(&mut url, "&order=");
    push_str(&mut url, param_or_exec(para, "order", "pubdate").as_str());
    push_str(&mut url, "&tids=");
    push_str(&mut url, param_or_exec(para, "tid", "0").as_str());
    Ok(with_referer(url, cat("https://search.bilibili.com/all?keyword=", enc.as_str()), cookie))
}

/// `strip_html_tags`: the tags removed (`<[^>]*>`), then the entities
/// `&quot;`, `&amp;`, `&lt;`, `&gt;` and `&#39;` written out, in that order.
pub open spec fn strip_tags(s: Seq<char>) -> Seq<char> {
    let t = match regex_replaced("<[^>]*>"@, s, seq![]) {
        Some(t) => t,
        None => s,
    };
    replace(
        replace(replace(replace(replace(t, "&quot;"@, "\""@), "&amp;"@, "&"@), "&lt;"@, "<"@), "&gt;"@, ">"@),
        "&#39;"@,
        "'"@,
    )
}

fn strip_tags_exec(s: &str) -> (r: String)
    ensures
        r@ == strip_tags(s@),
{
    proof {
        reveal_strlit("");
        assert(""@ =~= Seq::<char>::empty());
    }
    let t = match replace_all("<[^>]*>", s, "") {
        Some(t) => t,
        None => s.to_owned(),
    };
    let t = replace_str(t.as_str(), "&quot;", "\"");
    let t = replace_str(t.as_str(), "&amp;", "&");
    let t = replace_str(t.as_str(), "&lt;", "<");
    let t = replace_str(t.as_str(), "&gt;", ">");
    replace_str(t.as_str(), "&#39;", "'")
}

/// A result's categories: its tags (split at `,`) and its section's name.
pub open spec fn categories_of(item: Json) -> Seq<Seq<char>> {
    let tag = member_str(item, "tag"@);
    let typename = member_str(item, "typename"@);
    (if tag.len() == 0 {
        seq![]
    } else {
        split_on(tag, ',')
    }) + (if typename.len() == 0 {
        seq![]
    } else {
        seq![typename]
    })
}

/// The item of one search result.
pub open spec fn result_item(item: Json, embed: bool, now: Seq<char>) -> FeedItemView {
    let pic = member_str(item, "pic"@);
    let img = if "//"@.is_prefix_of(pic) {
        "http:"@ + pic
    } else {
        pic
    };
    let iframe = if !embed {
        seq![]
    } else {
        match (json_as_i64(json_index(item, "aid"@)), json_as_str(json_index(item, "bvid"@))) {
            (Some(a), Some(b)) => crate::routes::player(dec_int(a as int), b),
            _ => seq![],
        }
    };
    FeedItemView {
        title: Some(strip_tags(member_str(item, "title"@))),
        link: Some(member_str(item, "arcurl"@)),
        description: Some(
            "Length: "@ + member_str(item, "duration"@) + "<br/>AuthorID: "@ + dec_int(
                int_of(item, "mid"@) as int,
            ) + "<br/>Play: "@ + dec_int(int_of(item, "play"@) as int) + "    Favorite: "@ + dec_int(
                int_of(item, "favorites"@) as int,
            ) + "<br/>Danmaku: "@ + dec_int(int_of(item, "video_review"@) as int) + "    Comment: "@
                + dec_int(int_of(item, "review"@) as int) + "<br/><br/>"@ + replace(
                member_str(item, "description"@),
                "\n"@,
                "<br/>"@,
            ) + "<br/><img src=\""@ + img + "\" referrerpolicy=\"no-referrer\"><br/>"@ + iframe,
        ),
        pub_date: Some(or_else(ts_rfc2822(int_of(item, "pubdate"@)), now)),
        author: Some(member_str(item, "author"@)),
        guid: None,
        categories: categories_of(item),
    }
}

/// The feed of the results, or the failure.
pub open spec fn spec_feed(para: Map<Seq<char>, Seq<char>>, json: Json, now: Seq<char>) -> Result<FeedView, Seq<char>> {
    match param(para, "kw"@) {
        None => Err(missing_kw()),
        Some(kw) => match ptr_array(json, "/data/result"@) {
            None => Err("找不到 data/result 字段或不是数组"@),
            Some(list) => {
                let order = param_or(para, "order"@, "pubdate"@);
                Ok(
                    FeedView {
                        title: kw + " - bilibili"@,
                        link: search_page(kw) + "&order="@ + order,
                        description: "Result from "@ + kw + " bilibili search, ordered by "@ + order + "."@,
                        pub_date: None,
                        items: list.map_values(|x: Json| result_item(x, spec_embed(para), now)),
                    },
                )
            },
        },
    }
}

fn result_item_exec(item: &Json, embed: bool, now: &str) -> (r: FeedItem)
    ensures
        r@ == result_item(*item, embed, now@),
{
    let pic = member_str_exec(item, "pic");
    let img = if starts_with(pic.as_str(), "//") {
        cat("http:", pic.as_str())
    } else {
        pic
    };
    let iframe = if !embed {
        String::new()
    } else {
        match (item.i64_at("aid"), item.str_at("bvid")) {
            (Some(a), Some(b)) => crate::routes::player_exec(i64_to_string(a).as_str(), b.as_str()),
            _ => String::new(),
        }
    };
    let mut d = cat("Length: ", member_str_exec(item, "duration").as_str());
    push_str(&mut d, "<br/>AuthorID: ");
    push_str(&mut d, i64_to_string(int_of_exec(item, "mid")).as_str());
    push_str(&mut d, "<br/>Play: ");
    push_str(&mut d, i64_to_string(int_of_exec(item, "play")).as_str());
    push_str(&mut d, "    Favorite: ");
    push_str(&mut d, i64_to_string(int_of_exec(item, "favorites")).as_str());
    push_str(&mut d, "<br/>Danmaku: ");
    push_str(&mut d, i64_to_string(int_of_exec(item, "video_review")).as_str());
    push_str(&mut d, "    Comment: ");
    push_str(&mut d, i64_to_string(int_of_exec(item, "review")).as_str());
    push_str(&mut d, "<br/><br/>");
    push_str(&mut d, replace_str(member_str_exec(item, "description").as_str(), "\n", "<br/>").as_str());
    push_str(&mut d, "<br/><img src=\"");
    push_str(&mut d, img.as_str());
    push_str(&mut d, "\" referrerpolicy=\"no-referrer\"><br/>");
    push_str(&mut d, iframe.as_str());
    let tag = member_str_exec(item, "tag");
    let typename = member_str_exec(item, "typename");
    let mut cats: Vec<String> = if is_empty(tag.as_str()) {
        Vec::new()
    } else {
        split_exec(tag.as_str(), ',')
    };
    let ghost first = views(cats@);
    if !is_empty(typename.as_str()) {
        cats.push(typename.clone());
    }
    proof {
        assert(first =~= (if tag@.len() == 0 {
            Seq::<Seq<char>>::empty()
        } else {
            split_on(tag@, ',')
        }));
        assert(views(cats@) =~= categories_of(*item));
    }
    let r = FeedItem {
        title: Some(strip_tags_exec(member_str_exec(item, "title").as_str())),
        link: Some(member_str_exec(item, "arcurl")),
        description: Some(d),
        pub_date: Some(timestamp_to_rss(int_of_exec(item, "pubdate"), now)),
        author: Some(member_str_exec(item, "author")),
        guid: None,
        categories: cats,
    };
    r
}

/// The feed of the results (see [`spec_feed`]).
pub fn build_feed(para: &Params, json: &Json, now: &str) -> (r: Result<Feed, RouteError>)
    ensures
        match r {
            Ok(f) => spec_feed(para@, *json, now@) == Ok::<_, Seq<char>>(f@),
            Err(RouteError::Message(m)) => spec_feed(para@, *json, now@) == Err::<FeedView, _>(m@),
            Err(_) => false,
        },
{
    let kw = match para.get("kw") {
        Some(k) => k,
        None => return Err(RouteError::msg("缺少 kw 参数")),
    };
    let list = match json.ptr_array("/data/result") {
        Some(v) => v,
        None => return Err(RouteError::msg("找不到 data/result 字段或不是数组")),
    };
    let em = crate::routes::bilibili_video::embed(para);
    let mut items: Vec<FeedItem> = Vec::new();
    let mut i: usize = 0;
    while i < list.len()
        invariant
            i <= list.len(),
            items.len() == i,
            forall|j: int| 0 <= j < i ==> #[trigger] items@[j]@ == result_item(list@[j], em, now@),
        decreases list.len() - i,
    {
        items.push(result_item_exec(&list[i], em, now));
        i = i + 1;
    }
    let order = param_or_exec(para, "order", "pubdate");
    let enc = url_encode(kw.as_str());
    let mut link = cat("https://search.bilibili.com/all?keyword=", enc.as_str());
    push_str(&mut link, "&order=");
    push_str(&mut link, order.as_str());
    let mut desc = cat("Result from ", kw.as_str());
    push_str(&mut desc, " bilibili search, ordered by ");
    push_str(&mut desc, order.as_str());
    push_str(&mut desc, ".");
    let f = Feed { title: cat(kw.as_str(), " - bilibili"), link, description: desc, pub_date: None, items };
    assert(f@.items =~= list@.map_values(|x: Json| result_item(x, em, now@)));
    Ok(f)
}

/// Law: a search result links to its `arcurl`.
pub proof fn law_result_link(item: Json, embed: bool, now: Seq<char>)
    ensures
        result_item(item, embed, now).link == Some(crate::routes::member_str(item, "arcurl"@)),
{
}

/// Law: the feed, where there is one, has one item per element of
/// `/data/result`, in order, each linking to the result's `arcurl`.
pub proof fn law_feed_items(para: Map<Seq<char>, Seq<char>>, json: Json, now: Seq<char>)
    ensures
        spec_feed(para, json, now) matches Ok(f) ==> match crate::json::ptr_array(json, "/data/result"@) {
            Some(list) => f.items.len() == list.len() && forall|i: int|
                0 <= i < list.len() ==> (#[trigger] f.items[i]).link == Some(crate::routes::member_str(list[i], "arcurl"@)),
            None => false,
        },
{
}

/// Law: a search result is written by its `author` and dated by its
/// `pubdate`.
pub proof fn law_result_fields(item: Json, embed: bool, now: Seq<char>)
    ensures
        result_item(item, embed, now).author == Some(crate::routes::member_str(item, "author"@)),
        result_item(item, embed, now).pub_date == Some(or_else(ts_rfc2822(crate::routes::bilibili_video::int_of(item, "pubdate"@)), now)),
{
}

} // verus!
