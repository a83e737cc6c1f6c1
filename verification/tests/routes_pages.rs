use rssust::dates::chinese_date_in_year;
use rssust::easyuser::params_to_hashmap;
use rssust::json::{Json, JsonNumber};
use rssust::request_rules::RouteError;
use rssust::routes::{
    apnews_topics, bilibili_user_article, caixin_latest, cenc_earthquake, chinanews, discovermagazine_news, eastday_24, eeo_kuaixun,
    gelonghui_home,
};

const NOW: &str = "Mon, 01 Jan 2024 00:00:00 +0000";

fn conv(v: &serde_json::Value) -> Json {
    match v {
        serde_json::Value::Null => Json::Null,
        serde_json::Value::Bool(b) => Json::Bool(*b),
        serde_json::Value::Number(n) => match (n.as_u64(), n.as_i64()) {
            (Some(u), _) => Json::Number(JsonNumber::PosInt(u)),
            (None, Some(i)) => Json::Number(JsonNumber::NegInt(i)),
            _ => Json::Number(JsonNumber::Float(n.to_string())),
        },
        serde_json::Value::String(s) => Json::Str(s.clone()),
        serde_json::Value::Array(a) => Json::Array(a.iter().map(conv).collect()),
        serde_json::Value::Object(m) => Json::Object(m.iter().map(|(k, v)| (k.clone(), conv(v))).collect()),
    }
}

fn j(text: &str) -> Json {
    conv(&serde_json::from_str(text).unwrap())
}

fn msg<T: std::fmt::Debug>(r: Result<T, RouteError>) -> String {
    match r {
        Err(RouteError::Message(m)) => m,
        other => panic!("unexpected {:?}", other),
    }
}

#[test]
fn eeo_items_and_pages() {
    let json = j(r#"{"data":[
        {"title":"T1","url":"https://e.example/1","published":"2024-03-05 08:00:00","description":"intro"},
        {"title":"","url":"https://e.example/x"},
        {"title":"T2","url":"https://e.example/2"}]}"#);
    let links = eeo_kuaixun::article_links(&json).ok().unwrap();
    assert_eq!(links, vec!["https://e.example/1".to_string(), "https://e.example/2".to_string()]);
    let pages = vec![Some(r#"<div class="xx_boxsing">Body</div>"#.to_string()), None];
    let feed = eeo_kuaixun::build_feed(&json, &pages, NOW).ok().unwrap();
    assert_eq!(feed.title, "经济观察报 - 快讯");
    assert_eq!(feed.items.len(), 2);
    assert_eq!(feed.items[0].description.as_deref(), Some("<blockquote>intro</blockquote>Body"));
    assert_eq!(feed.items[0].pub_date.as_deref(), Some("Tue, 05 Mar 2024 08:00:00 +0800"));
    assert_eq!(feed.items[1].description.as_deref(), Some(""));
    assert_eq!(feed.items[1].pub_date.as_deref(), Some(NOW));
    assert_eq!(msg(eeo_kuaixun::build_feed(&j("{}"), &[], NOW)), "找不到 data 字段");
    assert_eq!(msg(eeo_kuaixun::article_links(&j(r#"{"data":1}"#))), "找不到 data 字段");
    assert_eq!(eeo_kuaixun::description("intro", Some("<h1>Head</h1>")), "<blockquote>intro</blockquote>Head");
    assert_eq!(eeo_kuaixun::description("intro", Some("<p>none</p>")), "intro");
}

#[test]
fn caixin_description_from_list() {
    let json = j(r#"{"data":{"articleList":[
        {"title":"A","url":"https://c.example/a","time":0,"channelObject":{"name":"经济"},"summary":"S","pics":"p1#p2"},
        {"title":"B","url":""}]}}"#);
    assert_eq!(caixin_latest::article_links(&json).ok().unwrap(), vec!["https://c.example/a".to_string()]);
    let pages = vec![Some(r#"<div class="article"><div class="subhead">H</div></div>"#.to_string())];
    let feed = caixin_latest::build_feed(&json, &pages, NOW).ok().unwrap();
    assert_eq!(feed.items.len(), 1);
    let a = &feed.items[0];
    assert_eq!(
        a.description.as_deref(),
        Some(r#"<blockquote>H</blockquote><br><blockquote>S</blockquote><br><img src="p1"><br><img src="p2"><br>"#)
    );
    assert_eq!(a.pub_date.as_deref(), Some("Thu, 01 Jan 1970 00:00:00 +0000"));
    assert_eq!(a.categories, vec!["经济".to_string()]);
    let main = vec![Some(r#"<div id="Main_Content_Val" class="text">Main</div>"#.to_string())];
    assert_eq!(caixin_latest::build_feed(&json, &main, NOW).ok().unwrap().items[0].description.as_deref(), Some("Main"));
    assert_eq!(caixin_latest::build_feed(&json, &[None], NOW).ok().unwrap().items[0].description.as_deref(), Some(""));
    assert_eq!(msg(caixin_latest::article_links(&j(r#"{"data":{}}"#))), "找不到 articleList");
}

#[test]
fn gelonghui_channel_and_summary() {
    let para = params_to_hashmap("tag=stock");
    assert_eq!(gelonghui_home::request(&para).url, "https://www.gelonghui.com/api/channels/stock/articles/v8");
    let json = j(r#"{"result":[
        {"data":{"title":"G","link":"https://g.example/1","summary":"sum","nick":"N","timestamp":0,"source":"src"}},
        {"data":{"title":"H","link":"https://g.example/2"}}]}"#);
    let pages = vec![Some(r#"<p class="article-summary">X</p>"#.to_string()), Some(r#"<article class="article-with-html">Full</article>"#.to_string())];
    let feed = gelonghui_home::build_feed(&para, &json, &pages, NOW).ok().unwrap();
    assert_eq!(feed.title, "格隆汇 - 股票");
    assert_eq!(feed.items[0].description.as_deref(), Some(r#"<p>sum</p><p class="article-summary">X</p>"#));
    assert_eq!(feed.items[0].author.as_deref(), Some("N"));
    assert_eq!(feed.items[0].categories, vec!["src".to_string()]);
    assert_eq!(feed.items[1].description.as_deref(), Some("Full"));
    assert!(feed.items[1].categories.is_empty());
    assert_eq!(gelonghui_home::tag_name_exec("other"), "other");
    assert_eq!(msg(gelonghui_home::build_feed(&para, &j("{}"), &[], NOW)), "找不到 result 字段");
}

#[test]
fn user_article_author_and_titles() {
    let para = params_to_hashmap("uid=42");
    let req = bilibili_user_article::request(&para).ok().unwrap();
    assert_eq!(req.url, "https://api.bilibili.com/x/polymer/web-dynamic/v1/opus/feed/space?host_mid=42");
    assert_eq!(req.headers, vec![("Referer".to_string(), "https://space.bilibili.com/42/article".to_string())]);
    assert_eq!(msg(bilibili_user_article::request(&params_to_hashmap(""))), "缺少 uid 参数");
    let json = j(r#"{"data":{"items":[
        {"content":"hello","jump_url":"//www.bilibili.com/opus/1"},
        {"content":"two","jump_url":"https://www.bilibili.com/opus/2","author":{"name":"Up"}}]}}"#);
    assert_eq!(
        bilibili_user_article::article_links(&json).ok().unwrap(),
        vec!["https://www.bilibili.com/opus/1".to_string(), "https://www.bilibili.com/opus/2".to_string()]
    );
    let pages = vec![Some(r#"<div class="opus-module-content">Rich</div>"#.to_string()), None];
    let feed = bilibili_user_article::build_feed(&para, &json, &pages, NOW).ok().unwrap();
    assert_eq!(feed.title, "Up 的 bilibili 图文");
    assert_eq!(feed.items[0].title.as_deref(), Some("hello"));
    assert_eq!(feed.items[0].author.as_deref(), Some("UP主"));
    assert_eq!(feed.items[0].description.as_deref(), Some("Rich"));
    assert_eq!(feed.items[1].author.as_deref(), Some("Up"));
    assert_eq!(feed.items[1].description.as_deref(), Some("two"));
}

#[test]
fn chinanews_candidates_and_article() {
    let html = r#"<div class="dd_bt"><a href="/gn/2024/03-05/1.shtml"> T </a></div>
        <div class="dd_bt"><a href="/x.html">no</a></div>
        <div class="dd_bt"><a href="/gn/2.shtml">  </a></div>"#;
    let cands = chinanews::candidates(html);
    assert_eq!(cands, vec![("T".to_string(), "https://www.chinanews.com.cn/gn/2024/03-05/1.shtml".to_string())]);
    let page = r#"<html><body><div class="left_zw">Text</div><span>2024年03月05日 10:00 来源：新华社</span></body></html>"#;
    let it = chinanews::article_item_exec("T", "L", Some(page), 2024, NOW).unwrap();
    assert_eq!(it.description.as_deref(), Some("Text"));
    assert_eq!(it.pub_date.as_deref(), Some("Tue, 05 Mar 2024 00:00:00 +0800"));
    assert_eq!(it.author.as_deref(), Some("新华社"));
    assert!(chinanews::article_item_exec("T", "L", Some("<p>x</p>"), 2024, NOW).is_none());
    assert!(chinanews::article_item_exec("T", "L", None, 2024, NOW).is_none());
    let feed = chinanews::build_feed(&cands, &[Some(page.to_string())], 2024, NOW);
    assert_eq!(feed.link, "https://www.chinanews.com.cn/scroll-news/news1.html");
    assert_eq!(feed.items.len(), 1);
}

#[test]
fn chinese_month_day() {
    assert_eq!(chinese_date_in_year("3月5日", 2024).as_deref(), Some("Tue, 05 Mar 2024 00:00:00 +0800"));
    assert_eq!(chinese_date_in_year("发布于 12月31日", 2023).as_deref(), Some("Sun, 31 Dec 2023 00:00:00 +0800"));
    assert_eq!(chinese_date_in_year("13月5日", 2024), None);
    assert_eq!(chinese_date_in_year("no date", 2024), None);
}

#[test]
fn eastday_jsonp_pages_and_feed() {
    assert_eq!(eastday_24::json_text_of(r#"trustNews({"a":1})"#).ok().unwrap(), r#"{"a":1}"#);
    assert_eq!(msg(eastday_24::json_text_of(r#"{"a":1}"#)), "JSONP 格式错误");
    assert_eq!(msg(eastday_24::json_text_of("trustNews(")), "JSONP 格式错误");
    assert_eq!(eastday_24::page_count("var page_num = '3';"), Some(3));
    assert_eq!(eastday_24::page_count("nothing"), None);
    assert_eq!(eastday_24::page_link("https://x.example/a.html", 2), "https://x.example/a-2.html");
    assert_eq!(eastday_24::page_link("https://x.example/a", 2), "https://x.example/a");
    let para = params_to_hashmap("category=娱乐");
    assert_eq!(eastday_24::request(&para).url, "https://mini.eastday.com/ns/api/detail/trust/trust-news-yule.json");
    assert_eq!(eastday_24::request(&params_to_hashmap("category=x")).url, "https://mini.eastday.com/ns/api/detail/trust/trust-news-shehui.json");
    let json = j(r#"{"data":{"trust":[{"topic":"E","url":"/a/1.html"},{"topic":"","url":"/a/2.html"}]}}"#);
    assert_eq!(eastday_24::article_links(&json).ok().unwrap(), vec!["https://mini.eastday.com/a/1.html".to_string()]);
    let page = r#"<html><head><meta property="og:release_date" content="2024-03-05T08:00:00Z"></head>
        <body><div id="J-contain_detail_cnt">P1</div></body></html>"#;
    let fetched = vec![(Some(page.to_string()), vec![Some(r#"<div id="J-contain_detail_cnt">P2</div>"#.to_string()), None])];
    let feed = eastday_24::build_feed(&para, &json, &fetched, NOW).ok().unwrap();
    assert_eq!(feed.title, "24小时娱乐热闻 - 东方资讯");
    assert_eq!(feed.link, "https://mini.eastday.com/#yule");
    assert_eq!(feed.items[0].description.as_deref(), Some("P1P2"));
    assert_eq!(feed.items[0].pub_date.as_deref(), Some("Tue, 05 Mar 2024 08:00:00 +0800"));
    assert_eq!(msg(eastday_24::build_feed(&para, &j("{}"), &[], NOW)), "找不到 data.trust");
}

#[test]
fn discover_cards_climb_to_category() {
    let html = r#"<html><body>
        <div><p class="category-label"><a>Space</a></p>
          <div><span data-summary="1"> Sum </span><a href="/the-story-123">Story</a></div></div>
        <a href="/about">About</a>
        <a href="/the-story-123">Again</a>
        <a href="https://other.example/x-1">Out</a>
    </body></html>"#;
    let cards = discovermagazine_news::extract_cards(html);
    assert_eq!(
        cards,
        vec![(
            "Story".to_string(),
            "https://www.discovermagazine.com/the-story-123".to_string(),
            "Sum".to_string(),
            "Space".to_string()
        )]
    );
    let page = r#"<script>{"datePublished":"2024-03-05T14:00:00"}</script>"#;
    assert_eq!(discovermagazine_news::article_date(Some(page), NOW), "Tue, 05 Mar 2024 14:00:00 +0000");
    assert_eq!(discovermagazine_news::article_date(None, NOW), NOW);
    let feed = discovermagazine_news::build_feed(&cards, &vec!["D".to_string()]);
    assert_eq!(feed.items[0].description.as_deref(), Some("[Space]<br/>Sum"));
    assert_eq!(feed.items[0].pub_date.as_deref(), Some("D"));
}

#[test]
fn apnews_links_and_articles() {
    let para = params_to_hashmap("topic=world");
    let html = r#"<a href="https://apnews.com/article/a-1">x</a><a href="https://apnews.com/article/a-1">y</a>
        <a href="https://apnews.com/article/b-2">z</a><a href="https://apnews.com/hub/x">h</a>"#;
    assert_eq!(
        apnews_topics::article_links(&para, html).ok().unwrap(),
        vec!["https://apnews.com/article/a-1".to_string(), "https://apnews.com/article/b-2".to_string()]
    );
    assert_eq!(msg(apnews_topics::article_links(&para, "<p/>")), "在 https://apnews.com/hub/world 中找不到文章链接");
    let page = r#"<html><head><title> Fallback </title>
        <script type="application/ld+json">not json</script>
        <script type="application/ld+json">{"@type":"NewsArticle","headline":"H","datePublished":"2024-03-05T08:00:00Z","author":[{"name":"A"},{"id":1},{"name":"B"}],"image":[{"url":"i.jpg"}],"description":"D"}</script>
        <script type="application/ld+json">{"@type":"Skipped",
        "across":"lines"}</script></head>
        <body><div class="RichTextStoryBody RichTextBody">Body</div></body></html>"#;
    let scripts = apnews_topics::ld_scripts(page);
    assert_eq!(scripts.len(), 2);
    let parsed: Vec<Option<Json>> = scripts.iter().map(|t| serde_json::from_str::<serde_json::Value>(t).ok().map(|v| conv(&v))).collect();
    let ld = apnews_topics::pick_article(&parsed);
    assert!(ld.is_some());
    let it = apnews_topics::article_item_exec("L", page, ld, NOW).unwrap();
    assert_eq!(it.title.as_deref(), Some("H"));
    assert_eq!(it.author.as_deref(), Some("A, B"));
    assert_eq!(it.description.as_deref(), Some(r#"<figure><img src="i.jpg"></figure><p>D</p>Body"#));
    assert_eq!(it.pub_date.as_deref(), Some("Tue, 05 Mar 2024 08:00:00 +0800"));
    let plain = apnews_topics::article_item_exec("L", page, None, NOW).unwrap();
    assert_eq!(plain.title.as_deref(), Some("Fallback"));
    assert_eq!(plain.pub_date.as_deref(), Some(NOW));
    let list = vec![Some(j(r#"[{"@type":"x"}]"#)), Some(j(r#"{"@type":"NewsArticle"}"#))];
    assert!(apnews_topics::pick_article(&list).is_none());
    let feed = apnews_topics::build_feed(&para, &["L".to_string()], &[Some(page.to_string())], &[ld], NOW);
    assert_eq!(feed.title, "AP News - World");
    assert_eq!(feed.description, "AP News World headlines");
    assert_eq!(feed.items.len(), 1);
}

#[test]
fn cenc_latest_block() {
    let html = "<html><body><div class=\"t\"><span class=\"tw_mk_title\">通知</span></div>\n<div><ul><li><a href=\"/n\">N</a></li></ul></div>\
        <div class=\"t\"><span class=\"tw_mk_title\">最新地震</span></div>\n<div><ul>\
        <li><a href=\" /eq/1.html \" title=\" M3.0 四川 \">x</a><span class=\"index_art_date\"> [03-05] </span></li>\
        <li><a href=\"http://cenc.example/2\">  Text  </a></li>\
        <li>none</li>\
        <li><a href=\"/eq/4.html\">Four</a><span class=\"index_art_date\">[3-5]</span></li>\
        </ul></div></body></html>";
    let feed = cenc_earthquake::build_feed(&params_to_hashmap(""), html, NOW).ok().unwrap();
    assert_eq!(feed.items.len(), 3);
    assert_eq!(feed.items[0].title.as_deref(), Some("M3.0 四川"));
    assert_eq!(feed.items[0].description.as_deref(), Some("M3.0 四川"));
    assert_eq!(feed.items[0].link.as_deref(), Some("https://www.cenc.ac.cn/eq/1.html"));
    assert_eq!(feed.items[0].pub_date.as_deref(), Some("Thu, 05 Mar 2026 00:00:00 +0800"));
    assert_eq!(feed.items[1].title.as_deref(), Some("Text"));
    assert_eq!(feed.items[1].link.as_deref(), Some("http://cenc.example/2"));
    assert_eq!(feed.items[1].pub_date.as_deref(), Some(NOW));
    assert_eq!(feed.items[2].pub_date.as_deref(), Some("Thu, 05 Mar 2026 00:00:00 +0800"));
    let two = cenc_earthquake::build_feed(&params_to_hashmap("limit=2"), html, NOW).ok().unwrap();
    assert_eq!(two.items.len(), 2);
    assert_eq!(msg(cenc_earthquake::build_feed(&params_to_hashmap(""), "<p>x</p>", NOW)), "找不到最新地震区块");
}

#[test]
fn chinanews_stops_at_thirty() {
    let page = r#"<div class="left_zw">Text</div>"#;
    assert_eq!(chinanews::fetch_step(0, "T", "L", Some(page), 2024, NOW), (1, true));
    assert_eq!(chinanews::fetch_step(29, "T", "L", Some(page), 2024, NOW), (30, false));
    assert_eq!(chinanews::fetch_step(29, "T", "L", None, 2024, NOW), (29, true));
}
