use aws_logs_viewer::source::{
    parse_cached_names, render_cache_payload, sort_names, CachedListSource, LoadPlan,
    PageCollector,
};

#[test]
fn sort_names_orders_lexicographically() {
    let names = vec!["b".to_string(), "a".to_string(), "c".to_string(), "a".to_string()];
    let sorted = sort_names(names);
    assert_eq!(sorted, vec!["a".to_string(), "a".to_string(), "b".to_string(), "c".to_string()]);
}

#[test]
fn cache_payload_round_trips() {
    let names = vec!["alpha".to_string(), "beta".to_string()];
    let payload = render_cache_payload(&names);
    assert_eq!(payload, "[\"alpha\",\"beta\"]");
    let back = parse_cached_names(Some(payload));
    assert_eq!(back, Some(names));
}

#[test]
fn unreadable_cache_payload_is_a_miss() {
    assert_eq!(parse_cached_names(None), None);
    assert_eq!(parse_cached_names(Some("not json".to_string())), None);
    assert_eq!(parse_cached_names(Some("{\"a\":1}".to_string())), None);
}

#[test]
fn collector_does_not_stop_on_an_empty_page_with_a_token() {
    let mut collector: PageCollector<String> = PageCollector::new();
    collector.push_page(Vec::new(), true);
    assert!(collector.needs_more());
    collector.push_page(vec!["x".to_string()], true);
    assert!(collector.needs_more());
    collector.push_page(Vec::new(), false);
    assert!(!collector.needs_more());
    assert_eq!(collector.into_items(), vec!["x".to_string()]);
}

#[test]
fn cache_miss_demands_a_synchronous_fetch() {
    let mut source = CachedListSource::new();
    let plan = source.load(None);
    assert!(matches!(plan, LoadPlan::FetchNow));
    assert_eq!(source.items().len(), 0);
}

#[test]
fn cached_load_then_background_refresh_replaces_and_rewrites() {
    // a populated cache serves immediately, then a two-page fetch
    // replaces the list and the cache payload wholesale
    let mut source = CachedListSource::new();
    let cached = vec!["a".to_string(), "b".to_string()];
    let plan = source.load(Some(cached.clone()));
    match plan {
        LoadPlan::CachedThenRefresh { immediate } => {
            assert_eq!(immediate, cached);
        },
        LoadPlan::FetchNow => panic!("expected the cached plan"),
    }
    assert_eq!(source.items(), &vec!["a".to_string(), "b".to_string()]);

    let mut collector: PageCollector<String> = PageCollector::new();
    collector.push_page(vec!["b".to_string()], true);
    collector.push_page(vec!["c".to_string(), "d".to_string()], false);
    assert!(!collector.needs_more());
    let fetched = collector.into_items();

    let payload = source.apply_refresh(fetched);
    assert_eq!(source.items(), &vec!["b".to_string(), "c".to_string(), "d".to_string()]);
    assert_eq!(payload, "[\"b\",\"c\",\"d\"]");
    assert_eq!(
        parse_cached_names(Some(payload)),
        Some(vec!["b".to_string(), "c".to_string(), "d".to_string()])
    );
}

#[test]
fn refresh_sorts_the_fetched_names() {
    let mut source = CachedListSource::new();
    let payload = source.apply_refresh(vec![
        "zeta".to_string(),
        "alpha".to_string(),
        "mu".to_string(),
    ]);
    assert_eq!(source.items(), &vec!["alpha".to_string(), "mu".to_string(), "zeta".to_string()]);
    assert_eq!(payload, "[\"alpha\",\"mu\",\"zeta\"]");
}
