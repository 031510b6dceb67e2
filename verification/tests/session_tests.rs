use aws_logs_viewer::cal::CalTime;
use aws_logs_viewer::config::Config;
use aws_logs_viewer::nav::{AppState, FocusedPanel, Screen};
use aws_logs_viewer::profiles::{Profile, ProfileSelection};
use aws_logs_viewer::utils::get_functions_cache_path;

fn profile(name: &str, region: &str) -> Profile {
    Profile { name: name.to_string(), region: region.to_string() }
}

fn clock() -> CalTime {
    CalTime { year: 2024, month: 6, day: 15, hour: 12, minute: 0 }
}

#[test]
fn profile_selection_clamps_at_both_ends() {
    let mut screen = ProfileSelection::new(vec![profile("dev", "us-east-1"), profile(
        "prod",
        "eu-west-1",
    )]);
    assert_eq!(screen.selected, Some(0));
    screen.previous();
    assert_eq!(screen.selected, Some(0));
    screen.next();
    assert_eq!(screen.selected, Some(1));
    screen.next();
    assert_eq!(screen.selected, Some(1));
    let chosen = screen.selected_profile().expect("a selection");
    assert_eq!(chosen.name, "prod");
    assert_eq!(chosen.region, "eu-west-1");
}

#[test]
fn empty_profile_list_has_no_selection() {
    let mut screen = ProfileSelection::new(Vec::new());
    assert_eq!(screen.selected, None);
    screen.next();
    screen.previous();
    assert_eq!(screen.selected, None);
    assert!(screen.selected_profile().is_none());
}

#[test]
fn navigation_walks_forward_and_back() {
    let mut screen = Screen::new(vec![profile("dev", "us-east-1")]);
    assert_eq!(screen.state(), AppState::ProfileSelection);

    screen = screen.confirm_profile();
    assert_eq!(screen.state(), AppState::FunctionList);

    if let Screen::Functions { functions, .. } = &mut screen {
        functions.load(Some(vec!["billing-report".to_string(), "user-signup".to_string()]));
    } else {
        panic!("expected the function list");
    }

    screen = screen.confirm_function(clock());
    assert_eq!(screen.state(), AppState::DateSelection);
    if let Screen::Dates { function_name, dates, .. } = &screen {
        assert_eq!(function_name, "billing-report");
        assert_eq!(dates.to_date, clock());
    } else {
        panic!("expected the date selection");
    }

    screen = screen.confirm_range();
    assert_eq!(screen.state(), AppState::LogViewer);
    if let Screen::Logs { logs, .. } = &screen {
        assert_eq!(logs.function_name, "billing-report");
        assert_eq!(logs.from_date, CalTime { year: 2024, month: 6, day: 15, hour: 11, minute: 0 });
        assert_eq!(logs.to_date, clock());
    } else {
        panic!("expected the log viewer");
    }

    screen = screen.back();
    assert_eq!(screen.state(), AppState::DateSelection);
    screen = screen.back();
    assert_eq!(screen.state(), AppState::FunctionList);
    if let Screen::Functions { functions, .. } = &screen {
        // the earlier screen's state is still live, not reloaded
        assert_eq!(functions.filtered_functions.len(), 2);
    } else {
        panic!("expected the function list");
    }
    screen = screen.back();
    assert_eq!(screen.state(), AppState::ProfileSelection);
    screen = screen.back();
    assert_eq!(screen.state(), AppState::ProfileSelection);
}

#[test]
fn confirming_without_a_selection_stays_put() {
    let mut screen = Screen::new(Vec::new());
    screen = screen.confirm_profile();
    assert_eq!(screen.state(), AppState::ProfileSelection);
    screen = screen.confirm_range();
    assert_eq!(screen.state(), AppState::ProfileSelection);
}

#[test]
fn focus_starts_on_the_left_panel() {
    assert_eq!(FocusedPanel::default(), FocusedPanel::Left);
}

#[test]
fn cache_file_name_embeds_profile_and_region() {
    assert_eq!(get_functions_cache_path("dev", "us-east-1"), "functions_dev_us-east-1.cache");
}

#[test]
fn config_resolution_prefers_explicit_values() {
    let resolved = Config::resolve(
        Some("dev".to_string()),
        None,
        Some("us-west-2".to_string()),
        vec![profile("dev", "us-west-2")],
    );
    assert_eq!(resolved.aws_profile_name, "dev");
    assert_eq!(resolved.aws_region, "us-west-2");
    assert_eq!(resolved.aws_profiles.len(), 1);

    let defaulted = Config::resolve(None, None, None, Vec::new());
    assert_eq!(defaulted.aws_profile_name, "resola-staging");
    assert_eq!(defaulted.aws_region, "ap-northeast-1");

    let fallback = Config::default();
    assert_eq!(fallback.aws_profile_name, "resola-staging");
    assert_eq!(fallback.aws_region, "ap-northeast-1");
}

#[test]
fn full_fetch_shows_the_sorted_list_through_the_empty_filter() {
    let mut screen = aws_logs_viewer::function_selection::FunctionSelection::new(profile(
        "dev",
        "us-east-1",
    ));
    let plan = screen.load(None);
    assert!(matches!(plan, aws_logs_viewer::source::LoadPlan::FetchNow));
    screen.apply_refresh(vec!["zeta".to_string(), "alpha".to_string(), "mu".to_string()]);
    // the filter is still empty, so the view is the sorted backing list
    assert_eq!(screen.filter_input, "");
    assert_eq!(
        screen.filtered_functions,
        vec!["alpha".to_string(), "mu".to_string(), "zeta".to_string()]
    );
    assert_eq!(screen.selected_index, 0);
}

#[test]
fn function_filter_and_selection_flow() {
    let mut screen = aws_logs_viewer::function_selection::FunctionSelection::new(profile(
        "dev",
        "us-east-1",
    ));
    screen.apply_refresh(vec![
        "user-signup".to_string(),
        "billing-report".to_string(),
        "billing-sync".to_string(),
    ]);
    assert_eq!(screen.functions.items()[0], "billing-report");
    screen.set_filter("billing".to_string());
    assert_eq!(screen.filtered_functions.len(), 2);
    screen.next();
    assert_eq!(screen.selected_index, 1);
    screen.next();
    assert_eq!(screen.selected_index, 1);
    screen.previous();
    assert_eq!(screen.selected_index, 0);
    assert_eq!(screen.selected_function(), Some("billing-report".to_string()));
    screen.set_filter("zzz".to_string());
    assert_eq!(screen.filtered_functions.len(), 0);
    screen.next();
    screen.previous();
    assert_eq!(screen.selected_index, 0);
    assert_eq!(screen.selected_function(), None);
}

#[test]
fn clock_reading_is_well_formed() {
    let ds = aws_logs_viewer::date_range::DateSelection::new();
    assert!(ds.from_date.month >= 1 && ds.from_date.month <= 12);
    assert!(aws_logs_viewer::cal::cal_le(&ds.from_date, &ds.to_date));
    let bounds = ds.epoch_range();
    if let Some((from_ms, to_ms)) = bounds {
        assert!(from_ms <= to_ms);
    }
}
