use rssust::easyuser::params_to_hashmap;
use rssust::request_rules::RouteError;
use rssust::routes::{bjnews_cat, carnegieendowment_news, defenseone_news, extremetech_news};

const NOW: &str = "Mon, 01 Jan 2024 00:00:00 +0000";

#[test]
fn extremetech_items_from_the_page() {
    let html = r#"<html><body>
        <div class="item mt-4 flex">
          <div class="w-3/4"><a class="block" href="/news/a">  First story </a></div>
          <div class="mt-2 hidden w-full text-gray-600 md:block"> Summary one </div>
          <time datetime="Tue, 05 Mar 2024 10:00:00 -0500">x</time>
        </div>
        <div class="item mt-4 flex">
          <div class="w-3/4"><a class="block" href="https://other.example/b">Second</a></div>
          <time datetime="not a date">y</time>
        </div>
        <div class="item mt-4 flex">
          <div class="w-3/4"><a class="block">No link</a></div>
        </div>
    </body></html>"#;
    let feed = extremetech_news::build_feed(html, NOW);
    assert_eq!(feed.title, "ExtremeTech - Latest Tech News");
    assert_eq!(feed.link, "https://www.extremetech.com");
    assert_eq!(feed.items.len(), 2);
    let a = &feed.items[0];
    assert_eq!(a.title.as_deref(), Some("First story"));
    assert_eq!(a.link.as_deref(), Some("https://www.extremetech.com/news/a"));
    assert_eq!(a.description.as_deref(), Some("Summary one"));
    assert_eq!(a.pub_date.as_deref(), Some("Tue, 05 Mar 2024 15:00:00 +0000"));
    let b = &feed.items[1];
    assert_eq!(b.link.as_deref(), Some("https://other.example/b"));
    assert_eq!(b.description, None);
    assert_eq!(b.pub_date.as_deref(), Some(NOW));
    let r = extremetech_news::request();
    assert_eq!(r.url, "https://www.extremetech.com");
    assert_eq!(r.headers[0].0, "User-Agent");
}

#[test]
fn extremetech_keeps_at_most_fifteen() {
    let mut html = String::from("<html><body>");
    for i in 0..20 {
        html.push_str(&format!(
            r#"<div class="item mt-4 flex"><div class="w-3/4"><a class="block" href="/n/{i}">T{i}</a></div></div>"#
        ));
    }
    html.push_str("</body></html>");
    let feed = extremetech_news::build_feed(&html, NOW);
    assert_eq!(feed.items.len(), 15);
    assert_eq!(feed.items[14].title.as_deref(), Some("T14"));
}

#[test]
fn defenseone_description_parts() {
    let html = r#"<html><body>
        <div class="river-item">
          <h2 class="river-item-hed"><a href="/policy/x/">Headline</a></h2>
          <h3 class="river-item-dek">The summary</h3>
          <span class="format-authors">Jane Doe</span>
          <a class="river-item-category">Policy</a>
          <time datetime="2024-03-05T10:00:00+08:00">t</time>
        </div>
        <div class="river-item">
          <h2 class="river-item-hed"><a href="/b/">Only a title</a></h2>
        </div>
    </body></html>"#;
    let feed = defenseone_news::build_feed(html, NOW);
    assert_eq!(feed.items.len(), 2);
    let a = &feed.items[0];
    assert_eq!(a.link.as_deref(), Some("https://www.defenseone.com/policy/x/"));
    assert_eq!(a.description.as_deref(), Some("[Policy]<br/>By Jane Doe<br/>The summary"));
    assert_eq!(a.pub_date.as_deref(), Some("Tue, 05 Mar 2024 02:00:00 +0000"));
    let b = &feed.items[1];
    assert_eq!(b.description, None);
    assert_eq!(b.pub_date.as_deref(), Some(NOW));
}

#[test]
fn carnegie_kind_and_date() {
    let html = r#"<html><body>
        <article class="flex min-w-0 flex-1 flex-col gap-[0.8rem]">
          <a class="min-w-0 flex-1" target="_self" href="/research/2026/07/a"><span class="font-sans">A paper</span></a>
          <span class="px-[0.8em] py-[0.5em] font-mono text-labelSmall">Commentary</span>
          <span><svg class="text-blue"></svg>July 22, 2026 10:00 AM</span>
        </article>
    </body></html>"#;
    let feed = carnegieendowment_news::build_feed(html, NOW);
    assert_eq!(feed.items.len(), 1);
    let a = &feed.items[0];
    assert_eq!(a.title.as_deref(), Some("A paper"));
    assert_eq!(a.link.as_deref(), Some("https://carnegieendowment.org/research/2026/07/a"));
    assert_eq!(a.description.as_deref(), Some("[Commentary] "));
    assert_eq!(a.pub_date.as_deref(), Some("Wed, 22 Jul 2026 10:00:00 +0000"));
}

#[test]
fn carnegie_date_without_time() {
    let html = r#"<html><body>
        <article class="flex min-w-0 flex-1 flex-col gap-[0.8rem]">
          <a class="min-w-0 flex-1" target="_self" href="/research/2026/08/b"><span class="font-sans">B paper</span></a>
          <span><svg class="text-blue"></svg>August 5, 2026</span>
        </article>
    </body></html>"#;
    let feed = carnegieendowment_news::build_feed(html, NOW);
    assert_eq!(feed.items.len(), 1);
    assert_eq!(feed.items[0].description, None);
    assert_eq!(feed.items[0].pub_date.as_deref(), Some("Wed, 05 Aug 2026 00:00:00 +0000"));
}

#[test]
fn bjnews_links_each_once() {
    let para = params_to_hashmap("cat=news");
    let html = r#"<div id="waterfall-container">
        <div class="pin_demo"><a href="/detail/1.html">a</a></div>
        <div class="pin_demo"><a href="https://www.bjnews.com.cn/detail/1.html">b</a></div>
        <div class="pin_demo"><a href="/detail/2.html">c</a></div>
        <div class="pin_demo"><a>no href</a></div>
    </div>"#;
    let links = bjnews_cat::article_links(&para, html).ok().unwrap();
    assert_eq!(
        links,
        vec!["https://www.bjnews.com.cn/detail/1.html".to_string(), "https://www.bjnews.com.cn/detail/2.html".to_string()]
    );
    match bjnews_cat::article_links(&para, "<p>nothing</p>") {
        Err(RouteError::Message(m)) => assert_eq!(m, "在 https://www.bjnews.com.cn/news 中找不到文章链接"),
        _ => panic!("expected an error"),
    }
    assert_eq!(bjnews_cat::list_request(&params_to_hashmap("")).url, "https://www.bjnews.com.cn/depth");
}

#[test]
fn bjnews_feed_from_pages() {
    let para = params_to_hashmap("");
    let links = vec!["https://www.bjnews.com.cn/detail/1.html".to_string(), "https://www.bjnews.com.cn/detail/2.html".to_string(), "https://www.bjnews.com.cn/detail/3.html".to_string()];
    let page = r#"<html><head><title> Story </title></head><body>
        <div class="left-info"><span class="reporter">Reporter Li</span><span class="timer">2024-03-05 08:00:00</span></div>
        <div id="contentStr"><p>Body</p></div></body></html>"#;
    let pages = vec![Some(page.to_string()), None, Some("<html><head></head><body></body></html>".to_string())];
    let feed = bjnews_cat::build_feed(&para, &links, &pages, NOW);
    assert_eq!(feed.title, "新京报 - depth");
    assert_eq!(feed.link, "https://www.bjnews.com.cn/depth");
    assert_eq!(feed.items.len(), 1);
    let a = &feed.items[0];
    assert_eq!(a.title.as_deref(), Some("Story"));
    assert_eq!(a.link.as_deref(), Some("https://www.bjnews.com.cn/detail/1.html"));
    assert_eq!(a.author.as_deref(), Some("Reporter Li"));
    assert_eq!(a.description.as_deref(), Some("<p>Body</p>"));
    assert_eq!(a.pub_date.as_deref(), Some("Tue, 05 Mar 2024 08:00:00 +0800"));
}
