use rssust::easyuser::{cookie_header, params_to_hashmap};
use rssust::json::{Json, JsonNumber};
use rssust::request_rules::RouteError;
use rssust::routes::{baidu_top, cde, douban_book_rank, douban_movie_classification, github_branch, github_commits, github_contributors};

fn conv(v: &serde_json::Value) -> Json {
    match v {
        serde_json::Value::Null => Json::Null,
        serde_json::Value::Bool(b) => Json::Bool(*b),
        serde_json::Value::Number(n) => match (n.as_u64(), n.as_i64()) {
            (Some(u), _) => Json::Number(JsonNumber::PosInt(u)),
            (None, Some(i)) => Json::Number(JsonNumber::NegInt(i)),
            _ => Json::Number(JsonNumber::Float(n.to_string())),
        },
        serde_json::Value::String(s) => Json::Str(s.clone()),
        serde_json::Value::Array(a) => Json::Array(a.iter().map(conv).collect()),
        serde_json::Value::Object(m) => Json::Object(m.iter().map(|(k, v)| (k.clone(), conv(v))).collect()),
    }
}

fn j(text: &str) -> Json {
    conv(&serde_json::from_str(text).unwrap())
}

fn msg<T: std::fmt::Debug>(r: Result<T, RouteError>) -> String {
    match r {
        Err(RouteError::Message(m)) => m,
        other => panic!("unexpected {:?}", other),
    }
}

#[test]
fn cookie_header_from_file() {
    let file = j(r#"[{"name":"a","value":"1","domain":".bilibili.com"},{"name":"b","value":"2","domain":"x.com"},{"name":"c","domain":"bilibili.com"},{"name":"d","value":"4","domain":"www.bilibili.com"}]"#);
    assert_eq!(cookie_header(&file, Some("bilibili.com")).ok().unwrap(), Some("a=1; d=4".to_string()));
    assert_eq!(cookie_header(&file, None).ok().unwrap(), Some("a=1; b=2; d=4".to_string()));
    assert_eq!(cookie_header(&j("[]"), None).ok().unwrap(), None);
    assert_eq!(msg(cookie_header(&j("{}"), None)), "cookies.json 格式错误, 预期数组");
}

#[test]
fn cde_cookie_and_plan() {
    let headers = vec![
        "FSSBBIl1UgzbN7N80S=abc; Path=/".to_string(),
        "other=1; FSSBBIl1UgzbN7N80T=def; HttpOnly".to_string(),
    ];
    assert_eq!(
        cde::cookie_from_headers(&headers).ok().unwrap(),
        "FSSBBIl1UgzbN7N80S=abc;FSSBBIl1UgzbN7N80T=def;"
    );
    assert_eq!(msg(cde::cookie_from_headers(&["a=1".to_string()])), "未找到 FSSBBIl1UgzbN7N80 cookie");
    let (ch, ca, size) = cde::required(&params_to_hashmap("channel=policy&category=flfg")).ok().unwrap();
    assert_eq!(size, "25");
    let post = cde::post_plan(&ch, &ca, &size).ok().unwrap();
    assert_eq!(post.api_url, "https://www.cde.org.cn/main/policy/getPolicyList");
    assert_eq!(post.form[0], ("pageNum".to_string(), "1".to_string()));
    assert_eq!(post.form[1], ("pageSize".to_string(), "25".to_string()));
    assert_eq!(post.title, "国家药品监督管理局药品审评中心 - 法律法规");
    assert_eq!(msg(cde::post_plan("news", "zz", "25")), "无效的频道或类别: news/zz");
    assert_eq!(msg(cde::required(&params_to_hashmap("category=x"))), "缺少必要参数: channel");
}

#[test]
fn cde_records_and_pages() {
    let recs = match j(r#"[{"title":"A","newsIdCode":"n","isPic":"1"},{"title":"B","newsIdCode":"m","isPic":true}]"#) {
        Json::Array(a) => a,
        _ => unreachable!(),
    };
    let es = cde::record_entries(true, &recs).ok().unwrap();
    assert_eq!(es[0].1, "https://www.cde.org.cn/main/newspic/view/n");
    assert_eq!(es[1].1, "https://www.cde.org.cn/main/news/viewInfoCommon/m");
    let bad = match j(r#"[{"title":"A","newsIdCode":"n"},{"title":"B"}]"#) {
        Json::Array(a) => a,
        _ => unreachable!(),
    };
    assert_eq!(msg(cde::record_entries(true, &bad)), "新闻记录缺少 newsIdCode 字段");
    let policy = match j(r#"[{"title":"P","regulatIdCODE":"","policyIdCODE":"p"}]"#) {
        Json::Array(a) => a,
        _ => unreachable!(),
    };
    assert_eq!(cde::record_entries(false, &policy).ok().unwrap()[0].1, "https://www.cde.org.cn/main/policy/regulatview/");
    let page = r#"<div class="news_detail_date">  </div><div class="new_detail_content"><p>x</p></div>"#;
    assert_eq!(cde::parse_detail_page(page, "NOW"), Some(("NOW".to_string(), "<p>x</p>".to_string())));
    let dated = r#"<div class="news_detail_date">20240105</div>"#;
    assert_eq!(cde::parse_detail_page(dated, "NOW"), None);
    let undated = r#"<div class="news_detail_date">soon</div>"#;
    assert_eq!(cde::parse_detail_page(undated, "NOW"), Some(("NOW".to_string(), String::new())));
}

#[test]
fn github_branches_and_commits() {
    let url = github_branch::api_url_exec(&params_to_hashmap("limit=500"), "o", "r");
    assert_eq!(url, "https://api.github.com/repos/o/r/branches?per_page=100");
    let f = github_branch::build_feed("o", "r", &j(r#"[{"name":"main","commit":{"sha":"0123456789abcdef"},"protected":true},{"name":"dev","commit":{"sha":"abc"}}]"#), "NOW")
        .ok().unwrap().unwrap();
    assert_eq!(f.items[0].description.as_deref(), Some("commit: 0123456<br>protected: 是<br><a href=\"https://github.com/o/r/tree/main\">查看代码</a>"));
    assert_eq!(f.items[1].description.as_deref().map(|d| d.starts_with("commit: abc<br>")), Some(true));
    assert!(github_branch::build_feed("o", "r", &j(r#"[{"name":"x","commit":{"sha":"abcdef中gh"}}]"#), "NOW").ok().unwrap().is_none());
    assert_eq!(msg(github_branch::build_feed("o", "r", &j("[]"), "NOW")), "No branches found. Check owner/repo parameters");
    assert_eq!(msg(github_branch::build_feed("o", "r", &j("{}"), "NOW")), "GitHub API returned unexpected response");

    let body = github_commits::body(&params_to_hashmap("limit=3"), "o\"x", "r");
    let v: serde_json::Value = serde_json::from_str(&body).unwrap();
    assert_eq!(v["variables"]["first"], 3);
    assert_eq!(v["variables"]["owner"], "o\"x");
    assert!(v["query"].as_str().unwrap().starts_with("query($owner: String!"));
    let answer = j(r#"{"data":{"repository":{"defaultBranchRef":{"target":{"history":{"nodes":[{"oid":"abcdef0123","messageHeadline":"fix","committedDate":"2024-01-01T08:00:00+08:00","author":{"name":"A"}}]}}}}}}"#);
    let f = github_commits::build_feed("o", "r", &answer, "NOW").ok().unwrap().unwrap();
    assert_eq!(f.items[0].description.as_deref(), Some("commit abcdef0\nAuthor: A"));
    assert_eq!(f.items[0].pub_date.as_deref(), Some("Mon, 01 Jan 2024 00:00:00 +0000"));
    assert_eq!(msg(github_commits::build_feed("o", "r", &j("{}"), "NOW")), "Repository not found or no commits. Check owner/repo parameters");
}

#[test]
fn baidu_top() {
    match baidu_top::request(&params_to_hashmap("tab=music")) {
        Err(RouteError::Http(e)) => {
            assert_eq!(e.status, 400);
            assert_eq!(e.message, "不支持的 tab: music，可用: realtime/game/finance/sport/novel/car");
        }
        other => panic!("{:?}", other),
    }
    assert_eq!(baidu_top::request(&params_to_hashmap("")).ok().unwrap().url, "https://top.baidu.com/board?tab=realtime");
    let page = "<html><!--s-data:{\"data\":{\"cards\":[{\"content\":[{\"word\":\"W\",\"url\":\"u\",\"hotScore\":\"9\",\"desc\":\"d\"},{\"word\":\"\"}]},{\"x\":1}]}}--></html>";
    let data_text = baidu_top::embedded_data(page).ok().unwrap();
    let f = baidu_top::build_feed("game", &j(&data_text), "NOW").ok().unwrap();
    assert_eq!(f.title, "百度热搜 - game");
    assert_eq!(f.items.len(), 1);
    assert_eq!(f.items[0].link.as_deref(), Some("u"));
    assert_eq!(f.items[0].description.as_deref(), Some("热度：9<br><br>d"));
    match baidu_top::embedded_data("<html></html>") {
        Err(RouteError::Http(e)) => assert_eq!(e.status, 502),
        other => panic!("{:?}", other),
    }
}

#[test]
fn douban_lists() {
    let reqs = douban_book_rank::requests(&params_to_hashmap(""));
    assert_eq!(reqs.len(), 2);
    assert_eq!(reqs[1].url, "https://m.douban.com/rexxar/api/v2/subject_collection/book_nonfiction/items?start=0&count=10");
    let a = j(r#"{"subject_collection_items":[{"title":"T","info":"I","url":"u","cover":{"url":"c"}}]}"#);
    let b = j(r#"{"subject_collection_items":[{"title":"U","info":"J","null_rating_reason":"none"}]}"#);
    let f = douban_book_rank::build_feed(&params_to_hashmap(""), &[a, b], &[Some("8.5分".to_string()), None]);
    assert_eq!(f.title, "豆瓣热门图书-全部");
    assert_eq!(f.items[0].description.as_deref(), Some("<img src=\"c\" referrerpolicy=\"no-referrer\"><br>T / I / 8.5分"));
    assert_eq!(f.items[1].description.as_deref(), Some("<img src=\"\" referrerpolicy=\"no-referrer\"><br>U / J / none"));

    let films = j(r#"{"data":[{"title":"A","rate":"9","directors":["d1",3,"d2"],"casts":[]},{"title":"B"}]}"#);
    let f = douban_movie_classification::build_feed(&films, &[false, true], Some("8".to_string())).ok().unwrap();
    assert_eq!(f.title, "豆瓣电影分类超过 8 分的影视");
    assert_eq!(f.items.len(), 1);
    assert_eq!(f.items[0].title.as_deref(), Some("B"));
    let f = douban_movie_classification::build_feed(&films, &[], None).ok().unwrap();
    assert_eq!(f.items[0].description.as_deref(), Some("标题：A<br>评分：9<br>导演：d1 / d2<br>主演：<br><img src=\"\" referrerpolicy=\"no-referrer\">"));
    assert_eq!(douban_movie_classification::request(&params_to_hashmap("tags=x")).url, "https://movie.douban.com/j/new_search_subjects?sort=U&range=0,10&tags=x&start=0");
}

#[test]
fn contributors_ordered_by_contributions() {
    let json = j(r#"[{"login":"a","contributions":3},{"login":"b"},{"login":"c","contributions":7},{"login":"d","contributions":3}]"#);
    let titles = |q: &str| -> Vec<String> {
        github_contributors::build_feed(&params_to_hashmap(q), &json)
            .ok()
            .unwrap()
            .items
            .into_iter()
            .map(|i| i.title.unwrap())
            .collect()
    };
    assert_eq!(titles("owner=o&repo=r"), vec!["Contributor: c", "Contributor: d", "Contributor: a", "Contributor: b"]);
    assert_eq!(titles("owner=o&repo=r&order=asc"), vec!["Contributor: b", "Contributor: a", "Contributor: d", "Contributor: c"]);
}

#[test]
fn cde_unknown_pair_fails() {
    assert_eq!(msg(cde::post_plan("policy", "zwxw", "25")), "无效的频道或类别: policy/zwxw");
    let p = cde::post_plan("news", "tpxw", "10").ok().unwrap();
    assert_eq!(p.form, vec![("pageSize".to_string(), "10".to_string()), ("pageNum".to_string(), "1".to_string())]);
}
