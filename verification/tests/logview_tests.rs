use aws_logs_viewer::cal::CalTime;
use aws_logs_viewer::log_viewer::{LogEvent, LogViewer};
use aws_logs_viewer::text::{truncate_to_width, wrap_text};

fn t(year: u16, month: u8, day: u8, hour: u8, minute: u8) -> CalTime {
    CalTime { year, month, day, hour, minute }
}

fn event(ts: i64, message: &str) -> LogEvent {
    LogEvent { timestamp: ts, message: message.to_string(), ingestion_time: ts + 10 }
}

fn viewer_with(messages: &[&str]) -> LogViewer {
    let mut viewer = LogViewer::new(
        "billing-report".to_string(),
        t(2024, 6, 15, 11, 0),
        t(2024, 6, 15, 12, 0),
    );
    let mut events = Vec::new();
    let mut i: i64 = 0;
    for m in messages {
        events.push(event(i, m));
        i += 1;
    }
    viewer.set_logs(events);
    viewer
}

#[test]
fn loading_events_selects_the_first() {
    let viewer = viewer_with(&["one", "two", "three"]);
    assert_eq!(viewer.selected_log, Some(0));
    assert_eq!(viewer.filtered_logs.len(), 3);
}

#[test]
fn empty_filtered_view_has_no_selection_and_ignores_movement() {
    let mut viewer = viewer_with(&["alpha", "beta"]);
    viewer.set_filter("zzz".to_string());
    assert_eq!(viewer.filtered_logs.len(), 0);
    assert_eq!(viewer.selected_log, None);
    viewer.scroll_down();
    assert_eq!(viewer.selected_log, None);
    viewer.scroll_up();
    assert_eq!(viewer.selected_log, None);
    assert_eq!(viewer.get_visible_range(5), (0, 0));
}

#[test]
fn scrolling_moves_the_selection_within_bounds() {
    let mut viewer = viewer_with(&["a", "b", "c"]);
    viewer.scroll_down();
    assert_eq!(viewer.selected_log, Some(1));
    viewer.scroll_down();
    assert_eq!(viewer.selected_log, Some(2));
    viewer.scroll_down();
    assert_eq!(viewer.selected_log, Some(2));
    viewer.scroll_up();
    assert_eq!(viewer.selected_log, Some(1));
    viewer.scroll_up();
    viewer.scroll_up();
    assert_eq!(viewer.selected_log, Some(0));
}

#[test]
fn expanded_mode_scrolls_lines_not_selection() {
    let mut viewer = viewer_with(&["a", "b", "c"]);
    viewer.toggle_expand();
    assert!(viewer.expanded);
    assert_eq!(viewer.scroll_offset, 0);
    viewer.scroll_down();
    viewer.scroll_down();
    assert_eq!(viewer.scroll_offset, 2);
    assert_eq!(viewer.selected_log, Some(0));
    viewer.scroll_up();
    assert_eq!(viewer.scroll_offset, 1);
    viewer.toggle_expand();
    assert!(!viewer.expanded);
    assert_eq!(viewer.scroll_offset, 0);
}

#[test]
fn clearing_the_filter_shows_every_event_again() {
    let mut viewer = viewer_with(&["alpha", "beta", "gamma"]);
    viewer.set_filter("beta".to_string());
    assert_eq!(viewer.filtered_logs.len(), 1);
    viewer.set_filter(String::new());
    assert_eq!(viewer.filtered_logs.len(), 3);
    assert_eq!(viewer.selected_log, Some(0));
}

#[test]
fn update_filter_resets_selection_to_first_match() {
    let mut viewer = viewer_with(&["START", "ERROR one", "ERROR two", "END"]);
    viewer.scroll_down();
    viewer.scroll_down();
    viewer.set_filter("error".to_string());
    assert_eq!(viewer.filtered_logs.len(), 2);
    assert_eq!(viewer.selected_log, Some(0));
    assert_eq!(viewer.filtered_logs[0].message, "ERROR one");
}

#[test]
fn selected_event_is_returned() {
    let mut viewer = viewer_with(&["a", "b"]);
    viewer.scroll_down();
    let selected = viewer.get_selected_log().expect("a selection");
    assert_eq!(selected.message, "b");
    assert_eq!(selected.timestamp, 1);
}

#[test]
fn paging_clamps_to_the_ends() {
    let mut viewer = viewer_with(&["a", "b", "c", "d", "e"]);
    viewer.page_down(3);
    assert_eq!(viewer.scroll_offset, 3);
    viewer.page_down(3);
    assert_eq!(viewer.scroll_offset, 4);
    viewer.page_up(2);
    assert_eq!(viewer.scroll_offset, 2);
    viewer.page_up(10);
    assert_eq!(viewer.scroll_offset, 0);
}

#[test]
fn update_scroll_centers_without_overshooting() {
    let mut viewer = viewer_with(&["a", "b", "c", "d", "e", "f", "g", "h"]);
    let mut i = 0;
    while i < 6 {
        viewer.scroll_down();
        i += 1;
    }
    assert_eq!(viewer.selected_log, Some(6));
    viewer.update_scroll(4);
    // centered start would be 4, the maximum is len - height = 4
    assert_eq!(viewer.scroll_offset, 4);
    viewer.update_scroll(20);
    assert_eq!(viewer.scroll_offset, 0);
}

#[test]
fn visible_range_follows_selection() {
    let mut viewer = viewer_with(&["a", "b", "c", "d", "e", "f", "g", "h", "i", "j"]);
    assert_eq!(viewer.get_visible_range(4), (0, 4));
    let mut i = 0;
    while i < 9 {
        viewer.scroll_down();
        i += 1;
    }
    assert_eq!(viewer.selected_log, Some(9));
    assert_eq!(viewer.get_visible_range(4), (6, 10));
}

#[test]
fn wrap_text_packs_words_greedily() {
    assert_eq!(wrap_text("the quick brown fox", 10), vec!["the quick", "brown fox"]);
    assert_eq!(wrap_text("abcdefghijk", 5), vec!["abcdefghijk"]);
    assert_eq!(wrap_text("", 5), vec![""]);
    assert_eq!(wrap_text("a b", 80), vec!["a b"]);
}

#[test]
fn truncate_adds_ellipsis_only_when_too_wide() {
    assert_eq!(truncate_to_width("hello", 10), "hello");
    assert_eq!(truncate_to_width("hello world", 8), "hello...");
    assert_eq!(truncate_to_width("exact", 5), "exact");
}
