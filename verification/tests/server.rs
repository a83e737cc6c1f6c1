use rssust::config::{
    default_config, is_route_disabled, max_concurrent, rate_limit_secs, realcorenum,
    request_timeout, server_port, Config, RoutesConfig, ServerConfig,
};
use rssust::connect::{
    check_head, consume_head, error_render, find_head_end, is_doc_route, mime_type,
    parse_keep_alive, parse_request_line, plan_request, reason_phrase, render, response_bytes,
    response_head, HeadStatus, RequestPlan, MAX_HEAD_SIZE,
};
use rssust::connect::{doc_page, file_page, index_page, reject_bytes, route_page, static_is_doc};
use rssust::easyuser::HttpError;
use rssust::request_rules::{request_rules, root_rules, routes, RootAction, RouteError, ShowToUser};

fn config(disabled: &[&str], rate: &[(&str, u64)]) -> Config {
    Config {
        server: Some(ServerConfig { port: Some(9000), max_concurrent: None, timeout: Some(5) }),
        routes: Some(RoutesConfig {
            disabled: Some(disabled.iter().map(|s| s.to_string()).collect()),
            rate_limit: Some(rate.iter().map(|(k, v)| (k.to_string(), *v)).collect()),
        }),
    }
}

#[test]
fn config_defaults_apply() {
    let empty = Config { server: None, routes: None };
    assert_eq!(server_port(&empty), 7878);
    assert_eq!(request_timeout(&empty), 60);
    assert_eq!(max_concurrent(&empty, 4), 8);
    assert_eq!(max_concurrent(&empty, 0), 1);
    assert!(!is_route_disabled(&empty, "/solidot"));
    assert_eq!(rate_limit_secs(&empty, "/solidot"), None);
    let c = config(&["/solidot"], &[("/cls_hot", 300)]);
    assert_eq!(server_port(&c), 9000);
    assert_eq!(request_timeout(&c), 5);
    assert!(is_route_disabled(&c, "/solidot"));
    assert_eq!(rate_limit_secs(&c, "/cls_hot"), Some(300));
    assert_eq!(rate_limit_secs(&c, "/solidot"), None);
}

#[test]
fn concurrency_saturates() {
    let c = Config {
        server: Some(ServerConfig { port: None, max_concurrent: Some(u32::MAX), timeout: None }),
        routes: None,
    };
    assert_eq!(max_concurrent(&c, 8), u32::MAX);
    assert_eq!(realcorenum(Some(300)), 255);
    assert_eq!(realcorenum(Some(12)), 12);
    assert_eq!(realcorenum(None), 1);
}

#[test]
fn default_config_text() {
    assert_eq!(
        default_config(6),
        "[server]\nport = 7878\nmax_concurrent = 6\ntimeout = 60\n\n[routes]\ndisabled = []"
    );
}

#[test]
fn routes_resolve_unless_disabled() {
    let c = config(&["/zhihu_hot"], &[]);
    let table = routes();
    let i = request_rules("/cls_hot", &c).unwrap();
    assert_eq!(table[i], "/cls_hot");
    match request_rules("/zhihu_hot", &c) {
        Err(RouteError::Message(m)) => assert_eq!(m, "404NotFound"),
        other => panic!("unexpected {:?}", other),
    }
    match request_rules("/no_such_route", &c) {
        Err(RouteError::Message(m)) => assert_eq!(m, "404NotFound"),
        other => panic!("unexpected {:?}", other),
    }
}

#[test]
fn root_rules_pick_the_server() {
    assert!(matches!(root_rules("/"), RootAction::IndexDoc));
    match root_rules("/favicon.ico") {
        RootAction::Static(p) => assert_eq!(p, "/index/favicon.ico"),
        other => panic!("unexpected {:?}", other),
    }
    match root_rules("/docs/a.html") {
        RootAction::Static(p) => assert_eq!(p, "/docs/a.html"),
        other => panic!("unexpected {:?}", other),
    }
    assert!(matches!(root_rules("/cls_hot"), RootAction::Route));
}

#[test]
fn request_line_and_head() {
    assert_eq!(
        parse_request_line("GET /a?b=1 HTTP/1.0\r\nHost: x\r\n"),
        Some(("GET".to_string(), "/a?b=1".to_string(), "HTTP/1.0".to_string()))
    );
    assert_eq!(
        parse_request_line("GET /a"),
        Some(("GET".to_string(), "/a".to_string(), "HTTP/1.1".to_string()))
    );
    assert_eq!(parse_request_line("GET"), None);
    assert_eq!(parse_request_line(""), None);
    let buf = b"GET / HTTP/1.1\r\nHost: x\r\n\r\nrest".to_vec();
    assert_eq!(find_head_end(&buf), Some(23));
    assert_eq!(check_head(&buf), HeadStatus::Complete(27));
    assert_eq!(check_head(b"GET / HTTP/1.1\r\n"), HeadStatus::NeedMore);
    assert_eq!(check_head(&vec![b'a'; MAX_HEAD_SIZE]), HeadStatus::TooLarge);
    let mut b = buf.clone();
    consume_head(&mut b, 27);
    assert_eq!(b, b"rest".to_vec());
}

#[test]
fn keep_alive_rules() {
    assert!(parse_keep_alive("GET / HTTP/1.1\r\nHost: x", "HTTP/1.1"));
    assert!(!parse_keep_alive("GET / HTTP/1.1\r\nConnection:  Close ", "HTTP/1.1"));
    assert!(!parse_keep_alive("GET / HTTP/1.0\r\nHost: x", "HTTP/1.0"));
    assert!(parse_keep_alive("GET / HTTP/1.0\r\nconnection: Keep-Alive", "HTTP/1.0"));
    assert!(is_doc_route("/"));
    assert!(is_doc_route("/docs/x"));
    assert!(is_doc_route("/favicon.ico"));
    assert!(!is_doc_route("/cls_hot"));
}

#[test]
fn plans_for_requests() {
    match plan_request(b"POST / HTTP/1.1\r\n\r\n") {
        RequestPlan::Reject { status, body } => {
            assert_eq!(status, 405);
            assert_eq!(body, "Method Not Allowed");
        }
        other => panic!("unexpected {:?}", other),
    }
    match plan_request(&[0xff, 0xfe, b'\r', b'\n']) {
        RequestPlan::Reject { status, .. } => assert_eq!(status, 400),
        other => panic!("unexpected {:?}", other),
    }
    match plan_request(b"GET /docs/a.html?x=%E4%B8%AD&y HTTP/1.1\r\nHost: h\r\n\r\n") {
        RequestPlan::Serve { path, params, keep_alive } => {
            assert_eq!(path, "/docs/a.html");
            assert_eq!(params.get("x").map(|s| s.as_str()), Some("中"));
            assert_eq!(params.get("y").map(|s| s.as_str()), Some(""));
            assert!(keep_alive);
        }
        other => panic!("unexpected {:?}", other),
    }
    match plan_request(b"HEAD /cls_hot HTTP/1.1\r\n\r\n") {
        RequestPlan::Serve { path, keep_alive, .. } => {
            assert_eq!(path, "/cls_hot");
            assert!(!keep_alive);
        }
        other => panic!("unexpected {:?}", other),
    }
}

#[test]
fn rendering_answers() {
    assert_eq!(reason_phrase(431), "Request Header Fields Too Large");
    assert_eq!(reason_phrase(418), "Error");
    assert_eq!(mime_type("/docs/a.css"), "text/css; charset=utf-8");
    assert_eq!(mime_type("/index/x.woff2"), "font/woff2");
    assert_eq!(mime_type("/index/x.woff"), "font/woff");
    assert_eq!(mime_type("/docs/"), "text/html; charset=utf-8");
    let (s, ct, body) = error_render(RouteError::Message("404NotFound".to_string()));
    assert_eq!((s, ct.as_str(), body), (404, "text/plain; charset=utf-8", b"404NotFound".to_vec()));
    let (s, _, body) = error_render(RouteError::Message("boom".to_string()));
    assert_eq!((s, body), (500, b"boom".to_vec()));
    let (s, _, body) = error_render(RouteError::Http(HttpError::bad_gateway("up")));
    assert_eq!((s, body), (502, b"up".to_vec()));
    let (s, ct, body) = render(ShowToUser::Rss { res: Ok("<rss/>".to_string()) });
    assert_eq!((s, ct.as_str(), body), (200, "application/xml; charset=utf-8", b"<rss/>".to_vec()));
    assert_eq!(
        response_head(200, "text/plain", 3, false),
        "HTTP/1.1 200 OK\r\nContent-Type: text/plain\r\nContent-Length: 3\r\nConnection: close\r\n\r\n"
    );
    let bytes = response_bytes(404, "text/plain", b"abc", true);
    assert_eq!(
        bytes,
        b"HTTP/1.1 404 Not Found\r\nContent-Type: text/plain\r\nContent-Length: 3\r\nConnection: keep-alive\r\n\r\nabc".to_vec()
    );
}

#[test]
fn http_error_display() {
    let e = HttpError::new(418, "teapot");
    assert_eq!(e.to_display(), "HTTP 418: teapot");
    assert_eq!(HttpError::bad_request("x").status, 400);
    assert_eq!(HttpError::not_found("x").status, 404);
}

#[test]
fn pages_for_results() {
    match route_page(Ok("<rss/>".to_string())) {
        ShowToUser::Rss { res: Ok(s) } => assert_eq!(s, "<rss/>"),
        other => panic!("unexpected {:?}", other),
    }
    match route_page(Err(RouteError::Message("boom".to_string()))) {
        ShowToUser::Html { res: Err(RouteError::Message(m)) } => assert_eq!(m, "boom"),
        other => panic!("unexpected {:?}", other),
    }
    assert!(static_is_doc("/docs/a.html"));
    assert!(!static_is_doc("/index/app.css"));
    match doc_page(None, None) {
        ShowToUser::Html { res: Err(RouteError::Message(m)) } => assert_eq!(m, "404 html Operation failed"),
        other => panic!("unexpected {:?}", other),
    }
    match doc_page(None, Some("404 page".to_string())) {
        ShowToUser::Html { res: Ok(t) } => assert_eq!(t, "404 page"),
        other => panic!("unexpected {:?}", other),
    }
    match file_page("/index/app.css", Ok(vec![1, 2])) {
        ShowToUser::File { res: Ok(b), content_type } => {
            assert_eq!(b, vec![1, 2]);
            assert_eq!(content_type, "text/css; charset=utf-8");
        }
        other => panic!("unexpected {:?}", other),
    }
    match file_page("/index/x.png", Err("entity not found".to_string())) {
        ShowToUser::Html { res: Err(RouteError::Message(m)) } => {
            assert_eq!(m, "404 html Operation failed: /index/x.png:entity not found")
        }
        other => panic!("unexpected {:?}", other),
    }
    match index_page(Err("entity not found".to_string())) {
        ShowToUser::Html { res: Err(RouteError::Message(m)) } => assert_eq!(m, "index.html:entity not found"),
        other => panic!("unexpected {:?}", other),
    }
    assert_eq!(
        reject_bytes(405, "Method Not Allowed"),
        b"HTTP/1.1 405 Method Not Allowed\r\nContent-Type: text/plain; charset=utf-8\r\nContent-Length: 18\r\nConnection: close\r\n\r\nMethod Not Allowed".to_vec()
    );
}
