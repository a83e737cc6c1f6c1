//! `/apnews_topics`: the articles of an AP News hub. The hub page lists
//! the articles; each article's page is fetched and read through its
//! embedded `NewsArticle` JSON-LD.
use crate::dates::{datetime_str_to_rss, local0800_rfc2822, or_else};
use crate::easyuser::{pair_views, Params};
use crate::feed::{opt_view, Feed, FeedItem, FeedItemView, FeedView};
use crate::html::{first_inner_html, first_text, select_first_inner_html, select_first_text};
use crate::json::{json_as_array, json_as_str, json_index, Json};
use crate::request_rules::RouteError;
use crate::routes::{item_views, member_str, member_str_exec, param_or, param_or_exec, Fetch};
use crate::text::{
    all_captures, cat, is_empty, join, join_exec, push_str, regex_all_groups, replace, replace_str, str_eq,
    trim, trim_str, views,
};
use vstd::prelude::*;

verus! {

/// The topic asked for (`trending-news` by default).
pub open spec fn topic(para: Map<Seq<char>, Seq<char>>) -> Seq<char> {
    param_or(para, "topic"@, "trending-news"@)
}

/// The topic's hub page.
pub open spec fn hub_url(para: Map<Seq<char>, Seq<char>>) -> Seq<char> {
    "https://apnews.com/hub/"@ + topic(para)
}

fn hub_url_exec(para: &Params) -> (r: String)
    ensures
        r@ == hub_url(para@),
{
    cat("https://apnews.com/hub/", param_or_exec(para, "topic", "trending-news").as_str())
}

/// The headers a page is asked with: a browser's, and `referer`.
pub open spec fn page_headers(referer: Seq<char>) -> Seq<(Seq<char>, Seq<char>)> {
    seq![
        ("User-Agent"@, "Mozilla/5.0 (Windows NT 10.0; Win64; x64) AppleWebKit/537.36 (KHTML, like Gecko) Chrome/120.0.0.0 Safari/537.36"@),
        ("Accept"@, "text/html,application/xhtml+xml,application/xml;q=0.9,*/*;q=0.8"@),
        ("Accept-Language"@, "en-US,en;q=0.9"@),
        ("Referer"@, referer),
    ]
}

fn page_request(url: String, referer: &str) -> (r: Fetch)
    ensures
        r.url@ == url@,
        pair_views(r.headers@) == page_headers(referer@),
{
    let mut headers: Vec<(String, String)> = Vec::new();
    headers.push(("User-Agent".to_owned(), "Mozilla/5.0 (Windows NT 10.0; Win64; x64) AppleWebKit/537.36 (KHTML, like Gecko) Chrome/120.0.0.0 Safari/537.36".to_owned()));
    headers.push(("Accept".to_owned(), "text/html,application/xhtml+xml,application/xml;q=0.9,*/*;q=0.8".to_owned()));
    headers.push(("Accept-Language".to_owned(), "en-US,en;q=0.9".to_owned()));
    headers.push(("Referer".to_owned(), referer.to_owned()));
    let r = Fetch { url, headers };
    assert(pair_views(r.headers@) =~= page_headers(referer@));
    r
}

/// The request for the hub page, with AP News as `Referer`.
pub fn request(para: &Params) -> (r: Fetch)
    ensures
        r.url@ == hub_url(para@),
        pair_views(r.headers@) == page_headers("https://apnews.com/"@),
{
    page_request(hub_url_exec(para), "https://apnews.com/")
}

/// The request for an article's page, with the hub page as `Referer`.
pub fn detail_request(para: &Params, link: &str) -> (r: Fetch)
    ensures
        r.url@ == link@,
        pair_views(r.headers@) == page_headers(hub_url(para@)),
{
    page_request(link.to_owned(), hub_url_exec(para).as_str())
}

/// The topic's name: the known topics by name, others as given.
pub open spec fn topic_name(t: Seq<char>) -> Seq<char> {
    if t == "trending-news"@ {
        "Trending News"@
    } else if t == "world"@ {
        "World"@
    } else if t == "politics"@ {
        "Politics"@
    } else if t == "business"@ {
        "Business"@
    } else if t == "technology"@ {
        "Technology"@
    } else if t == "science"@ {
        "Science"@
    } else if t == "health"@ {
        "Health"@
    } else if t == "sports"@ {
        "Sports"@
    } else if t == "entertainment"@ {
        "Entertainment"@
    } else {
        t
    }
}

fn topic_name_exec(t: &str) -> (r: String)
    ensures
        r@ == topic_name(t@),
{
    if str_eq(t, "trending-news") {
        "Trending News".to_owned()
    } else if str_eq(t, "world") {
        "World".to_owned()
    } else if str_eq(t, "politics") {
        "Politics".to_owned()
    } else if str_eq(t, "business") {
        "Business".to_owned()
    } else if str_eq(t, "technology") {
        "Technology".to_owned()
    } else if str_eq(t, "science") {
        "Science".to_owned()
    } else if str_eq(t, "health") {
        "Health".to_owned()
    } else if str_eq(t, "sports") {
        "Sports".to_owned()
    } else if str_eq(t, "entertainment") {
        "Entertainment".to_owned()
    } else {
        t.to_owned()
    }
}

/// The links to articles in the hub page.
pub open spec fn link_pattern() -> Seq<char> {
    "href=\"(https://apnews\\.com/article/[^\"]+)"@
}

/// The found addresses, each once, in the order they first appear.
pub open spec fn unique(gs: Seq<Option<Seq<char>>>) -> Seq<Seq<char>>
    decreases gs.len(),
{
    if gs.len() == 0 {
        seq![]
    } else {
        let rest = unique(gs.drop_last());
        match gs.last() {
            Some(u) => if rest.contains(u) {
                rest
            } else {
                rest.push(u)
            },
            None => rest,
        }
    }
}

/// The article addresses of the hub page, each once.
pub open spec fn links_of(html: Seq<char>) -> Seq<Seq<char>> {
    match regex_all_groups(link_pattern(), html, 1) {
        Some(gs) => unique(gs),
        None => seq![],
    }
}

fn contains_exec(v: &Vec<String>, x: &str) -> (r: bool)
    ensures
        r == views(v@).contains(x@),
{
    let mut i: usize = 0;
    while i < v.len()
        invariant
            i <= v.len(),
            forall|j: int| 0 <= j < i ==> v@[j]@ != x@,
        decreases v.len() - i,
    {
        if str_eq(v[i].as_str(), x) {
            assert(views(v@)[i as int] == x@);
            return true;
        }
        i = i + 1;
    }
    assert forall|j: int| 0 <= j < views(v@).len() implies views(v@)[j] != x@ by {
        assert(views(v@)[j] == v@[j]@);
    }
    false
}

/// The article addresses of the hub page (see [`links_of`]), or the
/// failure where there is none.
pub fn article_links(para: &Params, html: &str) -> (r: Result<Vec<String>, RouteError>)
    ensures
        match r {
            Ok(v) => views(v@) == links_of(html@) && v@.len() > 0,
            Err(RouteError::Message(m)) => links_of(html@).len() == 0 && m@ == "在 "@ + hub_url(para@) + " 中找不到文章链接"@,
            Err(_) => false,
        },
{
    let mut links: Vec<String> = Vec::new();
    match all_captures("href=\"(https://apnews\\.com/article/[^\"]+)", html, 1) {
        Some(gs) => {
            let ghost gv = gs@.map_values(|g: Option<String>| opt_view(g));
            let mut i: usize = 0;
            assert(views(links@) =~= unique(gv.take(0)));
            while i < gs.len()
                invariant
                    i <= gs.len(),
                    gv == gs@.map_values(|g: Option<String>| opt_view(g)),
                    views(links@) == unique(gv.take(i as int)),
                decreases gs.len() - i,
            {
                assert(gv.take(i + 1).drop_last() =~= gv.take(i as int));
                assert(gv.take(i + 1).last() == opt_view(gs@[i as int]));
                if let Some(u) = &gs[i] {
                    if !contains_exec(&links, u.as_str()) {
                        let ghost before = views(links@);
                        links.push(u.clone());
                        assert(views(links@) =~= before.push(u@));
                    }
                }
                i = i + 1;
            }
            assert(gv.take(gs.len() as int) =~= gv);
        },
        None => {
            assert(views(links@) =~= Seq::<Seq<char>>::empty());
        },
    }
    if links.len() == 0 {
        let mut m = cat("在 ", hub_url_exec(para).as_str());
        push_str(&mut m, " 中找不到文章链接");
        return Err(RouteError::Message(m));
    }
    Ok(links)
}

/// The JSON-LD scripts of a page.
pub open spec fn ld_pattern() -> Seq<char> {
    "<script[^>]*type=\"application/ld\\+json\"[^>]*>(.*?)</script>"@
}

/// The texts of the JSON-LD scripts of a page, in order.
pub open spec fn ld_texts(html: Seq<char>) -> Seq<Seq<char>> {
    match regex_all_groups(ld_pattern(), html, 1) {
        Some(gs) => present(gs),
        None => seq![],
    }
}

/// The texts that are there, in order.
pub open spec fn present(gs: Seq<Option<Seq<char>>>) -> Seq<Seq<char>>
    decreases gs.len(),
{
    if gs.len() == 0 {
        seq![]
    } else {
        match gs.last() {
            Some(u) => present(gs.drop_last()).push(u),
            None => present(gs.drop_last()),
        }
    }
}

/// The texts of the JSON-LD scripts of a page (see [`ld_texts`]), which
/// the caller parses for [`pick_article`].
pub fn ld_scripts(html: &str) -> (r: Vec<String>)
    ensures
        views(r@) == ld_texts(html@),
{
    let mut out: Vec<String> = Vec::new();
    match all_captures("<script[^>]*type=\"application/ld\\+json\"[^>]*>(.*?)</script>", html, 1) {
        Some(gs) => {
            let ghost gv = gs@.map_values(|g: Option<String>| opt_view(g));
            let mut i: usize = 0;
            assert(views(out@) =~= present(gv.take(0)));
            while i < gs.len()
                invariant
                    i <= gs.len(),
                    gv == gs@.map_values(|g: Option<String>| opt_view(g)),
                    views(out@) == present(gv.take(i as int)),
                decreases gs.len() - i,
            {
                assert(gv.take(i + 1).drop_last() =~= gv.take(i as int));
                assert(gv.take(i + 1).last() == opt_view(gs@[i as int]));
                if let Some(u) = &gs[i] {
                    let ghost before = views(out@);
                    out.push(u.clone());
                    assert(views(out@) =~= before.push(u@));
                }
                i = i + 1;
            }
            assert(gv.take(gs.len() as int) =~= gv);
        },
        None => {
            assert(views(out@) =~= Seq::<Seq<char>>::empty());
        },
    }
    out
}

/// A value whose `@type` is `NewsArticle`.
pub open spec fn is_news(v: Json) -> bool {
    json_as_str(json_index(v, "@type"@)) == Some("NewsArticle"@)
}

/// The first `NewsArticle` of a list.
pub open spec fn first_news(a: Seq<Json>) -> Option<Json>
    decreases a.len(),
{
    if a.len() == 0 {
        None
    } else if is_news(a[0]) {
        Some(a[0])
    } else {
        first_news(a.drop_first())
    }
}

/// `extract_ldjson`, over the page's scripts as parsed (`None`: not JSON):
/// the first script that is a `NewsArticle`, or a list holding one (its
/// first); a list without one ends the search with nothing.
pub open spec fn spec_pick(parsed: Seq<Option<Json>>) -> Option<Json>
    decreases parsed.len(),
{
    if parsed.len() == 0 {
        None
    } else {
        match parsed[0] {
            None => spec_pick(parsed.drop_first()),
            Some(d) => match d {
                Json::Array(a) => first_news(a@),
                _ => if is_news(d) {
                    Some(d)
                } else {
                    spec_pick(parsed.drop_first())
                },
            },
        }
    }
}

fn is_news_exec(v: &Json) -> (r: bool)
    ensures
        r == is_news(*v),
{
    proof {
        reveal_strlit("NewsArticle");
    }
    match v.str_at("@type") {
        Some(t) => str_eq(t.as_str(), "NewsArticle"),
        None => false,
    }
}

/// `extract_ldjson` (see [`spec_pick`]); `parsed[i]` is the `i`-th text of
/// [`ld_scripts`] parsed as JSON, `None` where it is not JSON.
pub fn pick_article<'a>(parsed: &'a [Option<Json>]) -> (r: Option<&'a Json>)
    ensures
        match r {
            Some(x) => spec_pick(parsed@) == Some(*x),
            None => spec_pick(parsed@) is None,
        },
{
    let mut i: usize = 0;
    assert(parsed@.skip(0) =~= parsed@);
    while i < parsed.len()
        invariant
            i <= parsed.len(),
            spec_pick(parsed@.skip(i as int)) == spec_pick(parsed@),
        decreases parsed.len() - i,
    {
        assert(parsed@.skip(i as int)[0] == parsed@[i as int]);
        assert(parsed@.skip(i as int).drop_first() =~= parsed@.skip(i + 1));
        match &parsed[i] {
            Some(Json::Array(a)) => {
                let mut j: usize = 0;
                assert(a@.skip(0) =~= a@);
                assert(spec_pick(parsed@) == first_news(a@));
                while j < a.len()
                    invariant
                        j <= a.len(),
                        spec_pick(parsed@) == first_news(a@),
                        first_news(a@.skip(j as int)) == first_news(a@),
                    decreases a.len() - j,
                {
                    assert(a@.skip(j as int)[0] == a@[j as int]);
                    assert(a@.skip(j as int).drop_first() =~= a@.skip(j + 1));
                    if is_news_exec(&a[j]) {
                        return Some(&a[j]);
                    }
                    j = j + 1;
                }
                assert(a@.skip(a.len() as int) =~= Seq::<Json>::empty());
                return None;
            },
            Some(d) => {
                if is_news_exec(d) {
                    return Some(d);
                }
            },
            None => {},
        }
        i = i + 1;
    }
    assert(parsed@.skip(parsed.len() as int) =~= Seq::<Option<Json>>::empty());
    None
}

/// The article's date: `datePublished` with `T` and `Z` taken out, as a
/// time at UTC+8; `now` where missing or unreadable.
pub open spec fn ld_date(ld: Json, now: Seq<char>) -> Seq<char> {
    match json_as_str(json_index(ld, "datePublished"@)) {
        Some(s) => or_else(local0800_rfc2822(replace(replace(s, "T"@, " "@), "Z"@, seq![])), now),
        None => now,
    }
}

/// The string `name`s of a list of authors, in order.
pub open spec fn author_names(a: Seq<Json>) -> Seq<Seq<char>>
    decreases a.len(),
{
    if a.len() == 0 {
        seq![]
    } else {
        match json_as_str(json_index(a.last(), "name"@)) {
            Some(n) => author_names(a.drop_last()).push(n),
            None => author_names(a.drop_last()),
        }
    }
}

/// The article's authors joined with `, ` (empty without a list).
pub open spec fn ld_author(ld: Json) -> Seq<char> {
    match json_as_array(json_index(ld, "author"@)) {
        Some(a) => join(author_names(a), ", "@),
        None => seq![],
    }
}

/// The first image as a figure, where there is one with a `url`.
pub open spec fn ld_image(ld: Json) -> Seq<char> {
    match json_as_array(json_index(ld, "image"@)) {
        Some(a) => if a.len() > 0 {
            match json_as_str(json_index(a[0], "url"@)) {
                Some(u) => "<figure><img src=\""@ + u + "\"></figure>"@,
                None => seq![],
            }
        } else {
            seq![]
        },
        None => seq![],
    }
}

/// The article's description as a paragraph, where not empty.
pub open spec fn ld_paragraph(ld: Json) -> Seq<char> {
    match json_as_str(json_index(ld, "description"@)) {
        Some(d) => if d.len() > 0 {
            "<p>"@ + d + "</p>"@
        } else {
            seq![]
        },
        None => seq![],
    }
}

/// The item of an article's page: from the `NewsArticle` (`ld`) its
/// headline, date, authors, and image, description and story body as
/// description; without one the page's trimmed `<title>`, `now` and empty
/// texts; nothing without a title.
pub open spec fn article_item(link: Seq<char>, html: Seq<char>, ld: Option<Json>, now: Seq<char>) -> Option<FeedItemView> {
    let t = match ld {
        Some(l) => member_str(l, "headline"@),
        None => match first_text(html, "title"@) {
            Some(x) => trim(x),
            None => seq![],
        },
    };
    if t.len() == 0 {
        None
    } else {
        Some(FeedItemView {
            title: Some(t),
            link: Some(link),
            description: Some(match ld {
                Some(l) => ld_image(l) + ld_paragraph(l) + or_else(first_inner_html(html, ".RichTextStoryBody.RichTextBody"@), seq![]),
                None => seq![],
            }),
            pub_date: Some(match ld {
                Some(l) => ld_date(l, now),
                None => now,
            }),
            author: Some(match ld {
                Some(l) => ld_author(l),
                None => seq![],
            }),
            guid: None,
            categories: seq![],
        })
    }
}

fn ld_author_exec(ld: &Json) -> (r: String)
    ensures
        r@ == ld_author(*ld),
{
    let arr = match ld.get("author") {
        Some(Json::Array(a)) => a,
        Some(_) => return String::new(),
        None => {
            proof {
                reveal(crate::json::json_get);
            }
            return String::new();
        },
    };
    let mut names: Vec<String> = Vec::new();
    let mut i: usize = 0;
    assert(views(names@) =~= author_names(arr@.take(0)));
    while i < arr.len()
        invariant
            i <= arr.len(),
            views(names@) == author_names(arr@.take(i as int)),
        decreases arr.len() - i,
    {
        assert(arr@.take(i + 1).drop_last() =~= arr@.take(i as int));
        assert(arr@.take(i + 1).last() == arr@[i as int]);
        if let Some(n) = arr[i].str_at("name") {
            let ghost before = views(names@);
            names.push(n.clone());
            assert(views(names@) =~= before.push(n@));
        }
        i = i + 1;
    }
    assert(arr@.take(arr.len() as int) =~= arr@);
    join_exec(names.as_slice(), ", ")
}

fn ld_image_exec(ld: &Json) -> (r: String)
    ensures
        r@ == ld_image(*ld),
{
    let arr = match ld.get("image") {
        Some(Json::Array(a)) => a,
        Some(_) => return String::new(),
        None => {
            proof {
                reveal(crate::json::json_get);
            }
            return String::new();
        },
    };
    if arr.len() == 0 {
        return String::new();
    }
    match arr[0].str_at("url") {
        Some(u) => {
            let mut s = cat("<figure><img src=\"", u.as_str());
            push_str(&mut s, "\"></figure>");
            s
        },
        None => String::new(),
    }
}

/// The item of an article's page (see [`article_item`]); `ld` is what
/// [`pick_article`] found in it.
pub fn article_item_exec(link: &str, html: &str, ld: Option<&Json>, now: &str) -> (r: Option<FeedItem>)
    ensures
        match r {
            Some(it) => article_item(link@, html@, match ld {
                Some(l) => Some(*l),
                None => None,
            }, now@) == Some(it@),
            None => article_item(link@, html@, match ld {
                Some(l) => Some(*l),
                None => None,
            }, now@) is None,
        },
{
    match ld {
        Some(l) => {
            let t = member_str_exec(l, "headline");
            if is_empty(t.as_str()) {
                return None;
            }
            let mut desc = ld_image_exec(l);
            let ghost img = desc@;
            if let Some(d) = l.str_at("description") {
                if !is_empty(d.as_str()) {
                    push_str(&mut desc, "<p>");
                    push_str(&mut desc, d.as_str());
                    push_str(&mut desc, "</p>");
                    assert(desc@ =~= img + ("<p>"@ + d@ + "</p>"@));
                }
            }
            assert(desc@ =~= img + ld_paragraph(*l));
            let ghost mid = desc@;
            if let Some(b) = select_first_inner_html(html, ".RichTextStoryBody.RichTextBody") {
                push_str(&mut desc, b.as_str());
            }
            assert(desc@ =~= mid + or_else(first_inner_html(html@, ".RichTextStoryBody.RichTextBody"@), seq![]));
            let date = match l.str_at("datePublished") {
                Some(s) => {
                    let x = replace_str(replace_str(s.as_str(), "T", " ").as_str(), "Z", "");
                    proof {
                        reveal_strlit("");
                        assert(""@ =~= Seq::<char>::empty());
                    }
                    match datetime_str_to_rss(x.as_str()) {
                        Some(d) => d,
                        None => now.to_owned(),
                    }
                },
                None => now.to_owned(),
            };
            let r = FeedItem {
                title: Some(t),
                link: Some(link.to_owned()),
                description: Some(desc),
                pub_date: Some(date),
                author: Some(ld_author_exec(l)),
                guid: None,
                categories: Vec::new(),
            };
            assert(r@.categories =~= Seq::<Seq<char>>::empty());
            Some(r)
        },
        None => {
            let t = match select_first_text(html, "title") {
                Some(x) => trim_str(x.as_str()),
                None => String::new(),
            };
            if is_empty(t.as_str()) {
                return None;
            }
            let r = FeedItem {
                title: Some(t),
                link: Some(link.to_owned()),
                description: Some(String::new()),
                pub_date: Some(now.to_owned()),
                author: Some(String::new()),
                guid: None,
                categories: Vec::new(),
            };
            assert(r@.categories =~= Seq::<Seq<char>>::empty());
            Some(r)
        },
    }
}

/// The `k`-th entry, nothing past the end.
pub open spec fn at<T>(s: Seq<Option<T>>, k: int) -> Option<T> {
    if 0 <= k < s.len() {
        s[k]
    } else {
        None
    }
}

/// The items of the links whose pages were fetched, in order; `pages[k]`
/// and `lds[k]` go with the `k`-th link.
pub open spec fn items_of(links: Seq<Seq<char>>, pages: Seq<Option<Seq<char>>>, lds: Seq<Option<Json>>, now: Seq<char>) -> Seq<FeedItemView>
    decreases links.len(),
{
    if links.len() == 0 {
        seq![]
    } else {
        let k = links.len() - 1;
        let rest = items_of(links.drop_last(), pages, lds, now);
        match at(pages, k) {
            None => rest,
            Some(h) => match article_item(links[k], h, at(lds, k), now) {
                Some(it) => rest.push(it),
                None => rest,
            },
        }
    }
}

/// The found articles by value.
pub open spec fn ld_views(lds: Seq<Option<&Json>>) -> Seq<Option<Json>> {
    lds.map_values(|o: Option<&Json>| match o {
        Some(x) => Some(*x),
        None => None,
    })
}

/// The feed of the hub.
pub open spec fn spec_feed(
    para: Map<Seq<char>, Seq<char>>,
    links: Seq<Seq<char>>,
    pages: Seq<Option<Seq<char>>>,
    lds: Seq<Option<Json>>,
    now: Seq<char>,
) -> FeedView {
    FeedView {
        title: "AP News - "@ + topic_name(topic(para)),
        link: hub_url(para),
        description: "AP News "@ + topic_name(topic(para)) + " headlines"@,
        pub_date: None,
        items: items_of(links, pages, lds, now),
    }
}

/// `get`, after the fetches: the feed of the hub's articles; `pages[k]` is
/// the page of `links[k]` (`None` where the fetch failed) and `lds[k]` what
/// [`pick_article`] found in it; `now` is the current time in RSS form.
pub fn build_feed(para: &Params, links: &[String], pages: &[Option<String>], lds: &[Option<&Json>], now: &str) -> (r: Feed)
    ensures
        r@ == spec_feed(para@, views(links@), pages@.map_values(|p: Option<String>| opt_view(p)), ld_views(lds@), now@),
{
    let ghost lv = views(links@);
    let ghost pv = pages@.map_values(|p: Option<String>| opt_view(p));
    let mut items: Vec<FeedItem> = Vec::new();
    let mut i: usize = 0;
    assert(item_views(items@) =~= items_of(lv.take(0), pv, ld_views(lds@), now@));
    while i < links.len()
        invariant
            i <= links.len(),
            lv == views(links@),
            pv == pages@.map_values(|p: Option<String>| opt_view(p)),
            item_views(items@) == items_of(lv.take(i as int), pv, ld_views(lds@), now@),
        decreases links.len() - i,
    {
        assert(lv.take(i + 1).drop_last() =~= lv.take(i as int));
        assert(lv.take(i + 1)[i as int] == links@[i as int]@);
        let page: Option<&str> = if i < pages.len() {
            match &pages[i] {
                Some(p) => Some(p.as_str()),
                None => None,
            }
        } else {
            None
        };
        let ld: Option<&Json> = if i < lds.len() {
            lds[i]
        } else {
            None
        };
        assert(at(pv, i as int) == match page {
            Some(p) => Some(p@),
            None => None::<Seq<char>>,
        });
        assert(at(ld_views(lds@), i as int) == match ld {
            Some(l) => Some(*l),
            None => None::<Json>,
        });
        if let Some(h) = page {
            match article_item_exec(links[i].as_str(), h, ld, now) {
                Some(it) => {
                    let ghost before = item_views(items@);
                    let ghost iv = it@;
                    items.push(it);
                    assert(item_views(items@) =~= before.push(iv));
                },
                None => {},
            }
        }
        i = i + 1;
    }
    assert(lv.take(links.len() as int) =~= lv);
    let name = topic_name_exec(param_or_exec(para, "topic", "trending-news").as_str());
    let mut description = cat("AP News ", name.as_str());
    push_str(&mut description, " headlines");
    Feed {
        title: cat("AP News - ", name.as_str()),
        link: hub_url_exec(para),
        description,
        pub_date: None,
        items,
    }
}

/// Law: an article's item links to the article's link and is titled by its
/// `NewsArticle`'s `headline` (the page's `<title>` without one).
pub proof fn law_article_link(link: Seq<char>, html: Seq<char>, ld: Option<Json>, now: Seq<char>)
    ensures
        article_item(link, html, ld, now) matches Some(it) ==> it.link == Some(link) && (ld matches Some(l)
            ==> it.title == Some(crate::routes::member_str(l, "headline"@))),
{
}

} // verus!
