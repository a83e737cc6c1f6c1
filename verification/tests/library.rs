use rssust::cookies::{cookie_failure, cookie_origins, merge_cookies, same_site_name, BrowserCookie, CookieEntry, SameSite};
use rssust::dates::{
    crates_pubdate, datetime_str_to_rss, extract_date_from_json, parse_carnegie_date,
    parse_github_date, rfc3339_to_rss, timestamp_to_rss, utc_str_to_rss,
};
use rssust::doc::{fix_content, has_ext, needs_link_fix, split_name, summary_text};
use rssust::easyuser::{flag, hashmap_to_params, no_double_quotes, params_to_hashmap, parse_bool, split_exec, Params};
use rssust::json::Json;
use rssust::order::sort_strings;
use rssust::text::{join_exec, lines_exec, replace_str, trim_str, words_exec};

fn strings(v: &[&str]) -> Vec<String> {
    v.iter().map(|s| s.to_string()).collect()
}

#[test]
fn query_parameters_are_decoded() {
    let p = params_to_hashmap("a=1&b=%E4%B8%AD%20x&flag&&c=x%2&d=%FF&a=2&e=1=2");
    assert_eq!(p.get("a").map(|s| s.as_str()), Some("2"));
    assert_eq!(p.get("b").map(|s| s.as_str()), Some("中 x"));
    assert_eq!(p.get("flag").map(|s| s.as_str()), Some(""));
    assert_eq!(p.get("c").map(|s| s.as_str()), Some("x%2"));
    assert_eq!(p.get("d").map(|s| s.as_str()), Some("%FF"));
    assert_eq!(p.get("e").map(|s| s.as_str()), Some("1=2"));
    assert_eq!(p.get(""), None);
    assert_eq!(p.get("zzz"), None);
}

#[test]
fn plus_is_not_a_space() {
    let p = params_to_hashmap("q=a+b");
    assert_eq!(p.get("q").map(|s| s.as_str()), Some("a+b"));
}

#[test]
fn parameters_written_back() {
    let mut p = Params::new();
    p.insert("a".to_string(), "1".to_string());
    p.insert("b".to_string(), "2".to_string());
    p.insert("a".to_string(), "3".to_string());
    assert_eq!(hashmap_to_params(&p), "b=2a=3");
    assert_eq!(hashmap_to_params(&Params::new()), "");
}

#[test]
fn flags() {
    let p = params_to_hashmap("x=True&y=0&z=maybe");
    assert!(flag(&p, "x", false));
    assert!(!flag(&p, "y", true));
    assert!(flag(&p, "z", true));
    assert!(!flag(&p, "missing", false));
    assert!(parse_bool(Some(&"false".to_string()), true) == false);
    assert!(parse_bool(None, true));
    assert_eq!(no_double_quotes("\"\"abc\"".to_string()), "abc");
}

#[test]
fn text_helpers() {
    assert_eq!(replace_str("a-b-c", "-", "+"), "a+b+c");
    assert_eq!(replace_str("abc", "", "-"), "abc".replace("", "-"));
    assert_eq!(replace_str("aaa", "aa", "b"), "aaa".replace("aa", "b"));
    assert_eq!(trim_str(" \t x y \n"), "x y");
    assert_eq!(trim_str("\u{3000}全角\u{3000}"), "\u{3000}全角\u{3000}".trim());
    assert_eq!(split_exec("a,,b", ','), strings(&["a", "", "b"]));
    assert_eq!(join_exec(&strings(&["a", "b", "c"]), ", "), "a, b, c");
    assert_eq!(lines_exec("a\r\nb\nc\n"), strings(&["a", "b", "c"]));
    assert_eq!(words_exec("  GET  /x\tHTTP/1.1 "), strings(&["GET", "/x", "HTTP/1.1"]));
}

#[test]
fn sorting_is_lexicographic() {
    let v = strings(&["b", "a", "ab", "B", "", "中", "a"]);
    let mut expected = v.clone();
    expected.sort();
    assert_eq!(sort_strings(v), expected);
}

#[test]
fn dates() {
    let now = "NOW";
    assert_eq!(timestamp_to_rss(0, now), "Thu, 01 Jan 1970 00:00:00 +0000");
    assert_eq!(timestamp_to_rss(i64::MAX, now), "NOW");
    assert_eq!(rfc3339_to_rss("2024-03-01T12:00:00+08:00", now), "Fri, 01 Mar 2024 12:00:00 +0800");
    assert_eq!(rfc3339_to_rss("yesterday", now), "NOW");
    assert_eq!(parse_carnegie_date("  July 22, 2026 "), Some("Wed, 22 Jul 2026 00:00:00 +0000".to_string()));
    assert_eq!(parse_carnegie_date("August 5, 2026"), Some("Wed, 05 Aug 2026 00:00:00 +0000".to_string()));
    assert_eq!(parse_carnegie_date("July 22, 2026 10:00 AM"), Some("Wed, 22 Jul 2026 10:00:00 +0000".to_string()));
    assert_eq!(parse_carnegie_date(" July 22, 2026 10:00 AM "), Some("Wed, 22 Jul 2026 10:00:00 +0000".to_string()));
    assert_eq!(parse_carnegie_date("soon"), None);
    assert_eq!(parse_carnegie_date("22/07/2026"), None);
    assert!(datetime_str_to_rss("not a date").is_none());
    assert!(utc_str_to_rss("not a date").is_none());
    assert!(utc_str_to_rss("+262142-12-31 23:00:00").is_none());
    assert_eq!(parse_github_date("junk", now), "NOW");
    assert_eq!(crates_pubdate("junk", now), "NOW");
}

#[test]
fn embedded_publication_date() {
    let html = r#"<script>{"x":1,"datePublished":"2024-05-06T07:08:09Z"}</script>"#;
    assert_eq!(
        extract_date_from_json(html, true),
        Some("Mon, 06 May 2024 07:08:09 +0000".to_string())
    );
    assert_eq!(extract_date_from_json(html, false), None);
    let two = r#"{"datePublished":"soon","datePublished":"2024-05-06T07:08:09"}"#;
    assert_eq!(
        extract_date_from_json(two, false),
        Some("Mon, 06 May 2024 07:08:09 +0000".to_string())
    );
    assert_eq!(extract_date_from_json("<p>no date</p>", true), None);
}

#[test]
fn summary_lists_pages() {
    let official = strings(&["b.md", "a.md", "x.txt"]);
    let root = strings(&["cde.md", "bilibili_fav.md", "extra.md", "SUMMARY.md", "official", "notes.txt"]);
    assert_eq!(
        summary_text(&official, &root),
        "# 官方文档\n- [a](official/a.md)\n- [b](official/b.md)\n\n# 路由\n- [bilibili_fav](bilibili_fav.md)\n- [cde](cde.md)\n- [extra](extra.md)\n"
    );
    assert_eq!(summary_text(&[], &[]), "# 官方文档\n\n# 路由\n");
}

#[test]
fn page_links_are_fixed() {
    let page = r#"<a href="official/a.html"><script src="../book.js"></script><a href="../guide.html">g</a><a href="../bilibili_dynamic?uid=1">api</a><script>path_to_root = "../";</script><link href="../css/x.css"><a href="../dangling"#;
    let fixed = fix_content(page);
    assert_eq!(
        fixed,
        r#"<a href="a.html"><script src="book.js"></script><a href="guide.html">g</a><a href="../bilibili_dynamic?uid=1">api</a><script>path_to_root = "";</script><link href="css/x.css"><a href="../dangling"#
    );
    assert_eq!(fix_content(r#"<link href="../highlight.css">"#), r#"<link href="highlight.css"">"#);
    assert!(needs_link_fix("index.html"));
    assert!(needs_link_fix("toc.js"));
    assert!(!needs_link_fix("style.css"));
    assert_eq!(split_name("a.b.md"), ("a.b".to_string(), Some("md".to_string())));
    assert_eq!(split_name("README"), ("README".to_string(), None));
    assert!(has_ext("x.md", "md"));
    assert!(!has_ext("x.mdx", "md"));
}

fn cookie(name: &str, value: &str, domain: &str) -> BrowserCookie {
    BrowserCookie {
        name: name.to_string(),
        value: value.to_string(),
        domain: Some(domain.to_string()),
        path: Some("/".to_string()),
        secure: Some(true),
        http_only: None,
        same_site: Some(SameSite::Lax),
        expires: Json::Null,
    }
}

fn kept(name: &str, domain: &str) -> Json {
    Json::Object(vec![
        ("name".to_string(), Json::Str(name.to_string())),
        ("value".to_string(), Json::Str("old".to_string())),
        ("domain".to_string(), Json::Str(domain.to_string())),
        ("path".to_string(), Json::Str("/".to_string())),
    ])
}

#[test]
fn cookies_replace_and_append() {
    let existing = vec![kept("SESSDATA", ".bilibili.com"), kept("other", "x.com")];
    let fresh = vec![cookie("SESSDATA", "new", ".bilibili.com"), cookie("buvid", "b", ".bilibili.com")];
    let merged = merge_cookies(existing, fresh);
    assert_eq!(merged.len(), 3);
    match &merged[0] {
        CookieEntry::Fresh(c) => assert_eq!(c.value, "new"),
        other => panic!("unexpected {:?}", other),
    }
    assert!(matches!(&merged[1], CookieEntry::Kept(_)));
    match &merged[2] {
        CookieEntry::Fresh(c) => assert_eq!(c.name, "buvid"),
        other => panic!("unexpected {:?}", other),
    }
}

#[test]
fn merging_twice_changes_nothing() {
    let fresh = || vec![cookie("a", "1", "d"), cookie("b", "2", "d")];
    let once = merge_cookies(vec![kept("a", "d")], fresh());
    let twice_input: Vec<Json> = vec![kept("a", "d")];
    let twice = merge_cookies(twice_input, fresh());
    assert_eq!(format!("{:?}", once), format!("{:?}", twice));
    assert_eq!(once.len(), 2);
}

#[test]
fn origins_and_failures() {
    let configured = strings(&["https://bilibili.com", "https://bilibili.com"]);
    let existing = vec![kept("x", "..douban.com"), Json::Null, kept("y", ".douban.com")];
    assert_eq!(
        cookie_origins(&configured, &existing),
        strings(&["https://bilibili.com", "https://douban.com"])
    );
    assert_eq!(cookie_origins(&[], &[]), strings(&["https://bilibili.com"]));
    assert_eq!(cookie_failure(0, &strings(&["a", "b"])), Some("Failed to find cookies: a; b".to_string()));
    assert_eq!(cookie_failure(1, &strings(&["a"])), None);
    assert_eq!(cookie_failure(0, &[]), None);
    assert_eq!(same_site_name(Some(SameSite::NoRestriction)), "None");
    assert_eq!(same_site_name(None), "Unspecified");
}

#[test]
fn quotes_only_at_the_ends() {
    assert_eq!(no_double_quotes("\"\"a\"b\"".to_string()), "a\"b");
    assert_eq!(no_double_quotes("\"\"\"".to_string()), "");
    assert_eq!(no_double_quotes("a\"".to_string()), "a");
}
