use aws_logs_viewer::filter::filter_names;
use aws_logs_viewer::log_viewer::{filter_events, LogEvent};

#[test]
fn empty_query_matches_everything() {
    assert!(aws_logs_viewer::filter::matches("", "anything at all"));
    assert!(aws_logs_viewer::filter::matches("", ""));
    assert!(aws_logs_viewer::filter::matches("   ", "spaces only still no tokens"));
}

#[test]
fn single_token_substring() {
    assert!(aws_logs_viewer::filter::matches("err", "an error occurred"));
    assert!(!aws_logs_viewer::filter::matches("zz", "an error occurred"));
}

#[test]
fn case_folding_both_sides() {
    assert!(aws_logs_viewer::filter::matches("HELLO", "say hello world"));
    assert!(aws_logs_viewer::filter::matches("hello", "say HELLO world"));
    assert!(aws_logs_viewer::filter::matches("\u{c9}CLAIR", "one \u{e9}clair please"));
}

#[test]
fn all_tokens_required_order_independent() {
    assert!(aws_logs_viewer::filter::matches("world say", "Say World"));
    assert!(aws_logs_viewer::filter::matches("say world", "Say World"));
    assert!(!aws_logs_viewer::filter::matches("say mars", "Say World"));
    assert!(aws_logs_viewer::filter::matches("b c", "abc"));
}

#[test]
fn filter_names_keeps_exactly_the_matching_names() {
    let items = vec![
        "billing-report".to_string(),
        "user-signup".to_string(),
        "billing-sync".to_string(),
    ];
    let kept = filter_names("billing", &items);
    assert_eq!(kept, vec!["billing-report".to_string(), "billing-sync".to_string()]);
    for name in &kept {
        assert!(aws_logs_viewer::filter::matches("billing", name));
    }
    for name in &items {
        if !kept.contains(name) {
            assert!(!aws_logs_viewer::filter::matches("billing", name));
        }
    }
}

#[test]
fn empty_query_keeps_the_whole_list() {
    let items = vec!["b".to_string(), "a".to_string(), "c".to_string()];
    assert_eq!(filter_names("", &items), items);
}

#[test]
fn filtering_twice_changes_nothing() {
    let items = vec![
        "billing-report".to_string(),
        "user-signup".to_string(),
        "billing-sync".to_string(),
    ];
    let once = filter_names("billing", &items);
    let twice = filter_names("billing", &once);
    assert_eq!(once, twice);
}

#[test]
fn filter_events_on_messages() {
    let events = vec![
        LogEvent { timestamp: 1, message: "START request".to_string(), ingestion_time: 1 },
        LogEvent { timestamp: 2, message: "ERROR timeout".to_string(), ingestion_time: 2 },
        LogEvent { timestamp: 3, message: "END request".to_string(), ingestion_time: 3 },
    ];
    let kept = filter_events("error", &events);
    assert_eq!(kept.len(), 1);
    assert_eq!(kept[0].message, "ERROR timeout");
    assert_eq!(kept[0].timestamp, 2);
}
