use rssust::rate_limit::{cache, current_ttl, make_key, record_touched, CacheScope};

#[test]
fn key_without_headers() {
    assert_eq!(make_key("GET", "https://a/b", &[]), "GET|https://a/b");
}

#[test]
fn key_sorts_headers() {
    let k1 = make_key("GET", "u", &[("b", "2"), ("a", "9"), ("a", "1")]);
    let k2 = make_key("GET", "u", &[("a", "1"), ("b", "2"), ("a", "9")]);
    assert_eq!(k1, "GET|u|a=1&a=9&b=2");
    assert_eq!(k1, k2);
}

#[test]
fn read_after_store() {
    let mut c = cache();
    let mut scope = Some(CacheScope::new(Some(60)));
    c.store(&mut scope, "k", "body", 100);
    assert_eq!(c.get_cached(&mut scope, "k", 60, 159), Some("body".to_string()));
    assert_eq!(c.len(), 1);
    assert_eq!(scope.as_ref().unwrap().touched, vec!["k".to_string(), "k".to_string()]);
    assert_eq!(current_ttl(&scope), Some(60));
}

#[test]
fn expired_entry_is_dropped() {
    let mut c = cache();
    let mut scope: Option<CacheScope> = None;
    c.store(&mut scope, "k", "body", 100);
    assert_eq!(c.get_cached(&mut scope, "k", 60, 160), None);
    assert_eq!(c.len(), 0);
    assert_eq!(c.get_cached(&mut scope, "k", 60, 100), None);
}

#[test]
fn clock_going_back_counts_as_fresh() {
    let mut c = cache();
    let mut scope: Option<CacheScope> = None;
    c.store(&mut scope, "k", "body", 100);
    assert_eq!(c.get_cached(&mut scope, "k", 1, 50), Some("body".to_string()));
    assert_eq!(c.get_cached(&mut scope, "k", 0, 50), None);
}

#[test]
fn cleanup_forgets_touched() {
    let mut c = cache();
    let mut none: Option<CacheScope> = None;
    c.store(&mut none, "other", "x", 10);
    let mut scope = Some(CacheScope::new(None));
    c.store(&mut scope, "a", "1", 10);
    c.store(&mut scope, "b", "2", 10);
    assert_eq!(c.len(), 3);
    c.cleanup_on_error(&mut scope);
    assert_eq!(c.len(), 1);
    assert!(scope.as_ref().unwrap().touched.is_empty());
    assert_eq!(c.get_cached(&mut none, "other", 100, 20), Some("x".to_string()));
    assert_eq!(c.get_cached(&mut none, "a", 100, 20), None);
    let mut outside: Option<CacheScope> = None;
    c.cleanup_on_error(&mut outside);
    assert_eq!(c.len(), 1);
}

#[test]
fn store_replaces() {
    let mut c = cache();
    let mut scope: Option<CacheScope> = None;
    c.store(&mut scope, "k", "old", 1);
    c.store(&mut scope, "k", "new", 2);
    assert_eq!(c.len(), 1);
    assert_eq!(c.get_cached(&mut scope, "k", 10, 3), Some("new".to_string()));
}

#[test]
fn sweep_keeps_young() {
    let mut c = cache();
    let mut scope: Option<CacheScope> = None;
    c.store(&mut scope, "old", "1", 0);
    c.store(&mut scope, "young", "2", 3000);
    c.sweep(3600, 3600);
    assert_eq!(c.len(), 1);
    assert_eq!(c.get_cached(&mut scope, "young", 10000, 3600), Some("2".to_string()));
}

#[test]
fn touched_outside_scope_is_nothing() {
    let mut scope: Option<CacheScope> = None;
    record_touched(&mut scope, "k");
    assert!(scope.is_none());
    let mut s = Some(CacheScope::new(Some(5)));
    record_touched(&mut s, "k");
    assert_eq!(s.unwrap().touched, vec!["k".to_string()]);
}
