use rssust::easyuser::params_to_hashmap;
use rssust::feed::{feed_to_xml, item, Feed};
use rssust::json::Json;
use rssust::request_rules::RouteError;
use rssust::routes::cde_index;
use rssust::routes::cls_hot::build_sign;
use rssust::routes::defensenews_news::extract_cards;
use sha1::Digest;

fn s(t: &str) -> Json {
    Json::Str(t.to_string())
}

fn obj(members: &[(&str, Json)]) -> Json {
    Json::Object(members.iter().map(|(k, v)| (k.to_string(), clone(v))).collect())
}

fn clone(v: &Json) -> Json {
    match v {
        Json::Null => Json::Null,
        Json::Bool(b) => Json::Bool(*b),
        Json::Number(n) => Json::Number(match n {
            rssust::json::JsonNumber::PosInt(u) => rssust::json::JsonNumber::PosInt(*u),
            rssust::json::JsonNumber::NegInt(i) => rssust::json::JsonNumber::NegInt(*i),
            rssust::json::JsonNumber::Float(t) => rssust::json::JsonNumber::Float(t.clone()),
        }),
        Json::Str(t) => Json::Str(t.clone()),
        Json::Array(a) => Json::Array(a.iter().map(clone).collect()),
        Json::Object(m) => Json::Object(m.iter().map(|(k, v)| (k.clone(), clone(v))).collect()),
    }
}

fn message(e: RouteError) -> String {
    match e {
        RouteError::Message(m) => m,
        RouteError::Http(h) => h.to_display(),
    }
}

#[test]
fn cde_query_for_news() {
    let q = cde_index::query(&params_to_hashmap("channel=news&category=zwxw&limit=10")).ok().unwrap();
    assert_eq!(q.api_url, "https://www.cde.org.cn/main/news/getList");
    assert_eq!(q.body, "pageSize=10&pageNum=1&classId=545cf855a50574699b46b26bcb165f32");
    assert_eq!(q.title, "国家药品监督管理局药品审评中心 - 政务新闻");
    assert_eq!(q.link, "https://www.cde.org.cn/main/news/listpage/545cf855a50574699b46b26bcb165f32");
    assert!(q.is_news);
}

#[test]
fn cde_query_for_policy_with_bad_limit() {
    let q = cde_index::query(&params_to_hashmap("channel=policy&category=zxgz&limit=-3")).ok().unwrap();
    assert_eq!(q.api_url, "https://www.cde.org.cn/main/policy/getRuleList");
    assert_eq!(q.body, "pageSize=25&pageNum=1&fclass=0&keyName=TITLE&logicC=bh");
    assert!(!q.is_news);
    let q = cde_index::query(&params_to_hashmap("channel=news&category=tpxw&limit=4294967296")).ok().unwrap();
    assert_eq!(q.body, "pageSize=25&pageNum=1");
}

#[test]
fn cde_query_errors() {
    assert_eq!(message(cde_index::query(&params_to_hashmap("category=zwxw")).err().unwrap()), "缺少 channel 参数");
    assert_eq!(message(cde_index::query(&params_to_hashmap("channel=news")).err().unwrap()), "缺少 category 参数");
    assert!(message(cde_index::query(&params_to_hashmap("channel=policy&category=zwxw")).err().unwrap())
        .starts_with("无效的 channel/category 组合"));
}

#[test]
fn cde_records_and_links() {
    let answer = obj(&[("data", obj(&[("records", Json::Array(vec![
        obj(&[("title", s("T1")), ("isPic", Json::Bool(true)), ("newsIdCode", s("n1"))]),
        obj(&[("title", s("T2")), ("newsIdCode", s("n2"))]),
    ]))]))]);
    let recs = cde_index::records(&answer).ok().unwrap();
    assert_eq!(recs.len(), 2);
    assert_eq!(cde_index::record_link_exec(true, &recs[0]), "https://www.cde.org.cn/main/newspic/view/n1");
    assert_eq!(cde_index::record_link_exec(true, &recs[1]), "https://www.cde.org.cn/main/news/viewInfoCommon/n2");
    let policy = obj(&[("regulatIdCODE", s("")), ("policyIdCODE", s("p9"))]);
    assert_eq!(cde_index::record_link_exec(false, &policy), "https://www.cde.org.cn/main/policy/view/p9");
    let regulat = obj(&[("regulatIdCODE", s("r1")), ("policyIdCODE", s("p9"))]);
    assert_eq!(cde_index::record_link_exec(false, &regulat), "https://www.cde.org.cn/main/policy/regulatview/r1");
    assert_eq!(
        message(cde_index::records(&obj(&[("data", obj(&[]))])).err().unwrap()),
        "找不到 data.records 字段或不是数组"
    );
}

#[test]
fn cde_dates() {
    assert_eq!(cde_index::parse_cde_date(" 20240105 "), Some("Fri, 05 Jan 2024 00:00:00 +0800".to_string()));
    assert_eq!(cde_index::parse_cde_date("20240230"), None);
    assert_eq!(cde_index::parse_cde_date("2024010"), None);
    assert_eq!(cde_index::parse_cde_date("2024-1-5"), None);
    assert_eq!(cde_index::parse_cde_date("+2024+1+5"), None);
    assert_eq!(
        cde_index::parse_cde_date("+0240105"),
        chrono::NaiveDate::from_ymd_opt(24, 1, 5).map(|d| d.format("%a, %d %b %Y 00:00:00 +0800").to_string())
    );
    assert_eq!(cde_index::parse_cde_date("２０２４０１０５"), None);
}

#[test]
fn cde_item_from_page() {
    let page = r#"<html><body><div class="news_detail_box"><div class="news_detail_title">T</div><div class="news_detail_date">20240105</div>intro <p>para</p><img src="x.png"><div class="other">keep</div></div></body></html>"#;
    let rec = obj(&[("title", s("T1")), ("newsIdCode", s("n1"))]);
    let it = cde_index::build_item(true, &rec, Some(page), "NOW");
    assert_eq!(it.title.as_deref(), Some("T1"));
    assert_eq!(it.link.as_deref(), Some("https://www.cde.org.cn/main/news/viewInfoCommon/n1"));
    assert_eq!(it.pub_date.as_deref(), Some("Fri, 05 Jan 2024 00:00:00 +0800"));
    assert_eq!(it.description.as_deref(), Some("intro parakeep"));
    let it = cde_index::build_item(true, &rec, None, "NOW");
    assert_eq!(it.pub_date.as_deref(), Some("NOW"));
    assert_eq!(it.description.as_deref(), Some(""));
    assert_eq!(cde_index::get_description("<p>no box</p>"), "");
}

#[test]
fn cde_feed() {
    let q = cde_index::query(&params_to_hashmap("channel=news&category=ywdd")).ok().unwrap();
    let recs = vec![obj(&[("title", s("A")), ("newsIdCode", s("1"))])];
    let feed = cde_index::build_feed(&q, &recs, &[None], "NOW");
    assert_eq!(feed.title, "国家药品监督管理局药品审评中心 - 要闻导读");
    assert_eq!(feed.items.len(), 1);
    let xml = feed_to_xml(feed);
    assert!(xml.contains("<title>国家药品监督管理局药品审评中心 - 要闻导读</title>"));
    assert!(xml.contains("<pubDate>NOW</pubDate>"));
}

#[test]
fn feed_xml_carries_fields() {
    let feed = Feed {
        title: "T & co".to_string(),
        link: "https://x/".to_string(),
        description: String::new(),
        pub_date: None,
        items: vec![item(Some("i1".to_string()), Some("https://x/1".to_string()), Some("<b>d</b>".to_string()))],
    };
    let xml = feed_to_xml(feed);
    assert!(xml.contains("<rss"));
    assert!(xml.contains("<title>T &amp; co</title>"));
    assert!(xml.contains("<link>https://x/1</link>"));
    assert!(xml.contains("<item>"));
}

#[test]
fn sign_is_md5_of_sha1() {
    let params = vec![
        ("os".to_string(), "web".to_string()),
        ("app".to_string(), "CailianpressWeb".to_string()),
        ("sv".to_string(), "8.4.6".to_string()),
    ];
    let query = "app=CailianpressWeb&os=web&sv=8.4.6";
    let sha = hex::encode(sha1::Sha1::digest(query.as_bytes()));
    let expected = hex::encode(md5::Md5::digest(sha.as_bytes()));
    assert_eq!(build_sign(&params), expected);
    assert_eq!(build_sign(&params).len(), 32);
    assert!(build_sign(&params).chars().all(|c| c.is_ascii_digit() || ('a'..='f').contains(&c)));
    let mut reordered = params.clone();
    reordered.reverse();
    assert_eq!(build_sign(&reordered), expected);
}

#[test]
fn defensenews_cards() {
    let html = r#"<article data-story-url="/news/a"><h2 itemProp="headline"> Title A </h2><span class="x-Byline__Author">Ann</span></article>
<article data-story-url="https://other/b"><h2 class="o-storyCard__headline">B</h2></article>
<article data-story-url="/news/c"></article>"#;
    let cards = extract_cards(html);
    assert_eq!(
        cards,
        vec![
            ("Title A".to_string(), "https://www.defensenews.com/news/a".to_string(), "Ann".to_string()),
            ("B".to_string(), "https://other/b".to_string(), String::new()),
        ]
    );
}

#[test]
fn dynamic_offset_is_percent_encoded() {
    let f = rssust::routes::bilibili_dynamic::request(&params_to_hashmap("uid=42&offset=a%20b%2Fc"), None).ok().unwrap();
    assert_eq!(
        f.url,
        "https://api.bilibili.com/x/polymer/web-dynamic/v1/feed/space?host_mid=42&platform=web&offset=a%20b%2Fc&features=itemOpusStyle,listOnlyfans,opusBigCover,onlyfansVote"
    );
    let f = rssust::routes::bilibili_dynamic::request(&params_to_hashmap("uid=42&offset=中"), Some("c=1".to_string())).ok().unwrap();
    assert!(f.url.contains("offset=%E4%B8%AD&"));
    assert_eq!(f.headers.last().map(|h| (h.0.as_str(), h.1.as_str())), Some(("Cookie", "c=1")));
}

#[test]
fn dynamic_without_uid() {
    match rssust::routes::bilibili_dynamic::request(&params_to_hashmap("offset=1"), Some("c=1".to_string())) {
        Err(RouteError::Message(m)) => assert_eq!(m, "缺少 uid 参数，请在 /bilibili_dynamic?uid=xxx 中传入 uid"),
        _ => panic!("expected the missing-uid failure"),
    }
}
