use aws_logs_viewer::cal::{cal_le, format_cal_time, CalTime};
use aws_logs_viewer::date_range::{DateField, DateSelection, QuickRange};

fn t(year: u16, month: u8, day: u8, hour: u8, minute: u8) -> CalTime {
    CalTime { year, month, day, hour, minute }
}

#[test]
fn quick_range_list_and_names() {
    let all = QuickRange::all();
    assert_eq!(all.len(), 8);
    assert_eq!(all[0].display_name(), "Last Hour");
    assert_eq!(all[7].display_name(), "Last Week");
    assert_eq!(all[0].duration_hours(), 1);
    assert_eq!(all[5].duration_hours(), 24);
    assert_eq!(all[6].duration_hours(), 72);
    assert_eq!(all[7].duration_hours(), 168);
}

#[test]
fn new_at_selects_last_hour_ending_now() {
    let now = t(2024, 6, 15, 12, 30);
    let ds = DateSelection::new_at(now);
    assert_eq!(ds.to_date, now);
    assert_eq!(ds.from_date, t(2024, 6, 15, 11, 30));
    assert_eq!(ds.selected_quick_range, Some(0));
    assert!(!ds.custom_selection);
    assert!(ds.is_selecting_from);
    assert_eq!(ds.current_field, DateField::Day);
}

#[test]
fn quick_preset_is_reanchored_at_each_selection() {
    let first_clock = t(2024, 6, 15, 12, 0);
    let mut ds = DateSelection::new_at(first_clock);
    assert_eq!(ds.from_date, t(2024, 6, 15, 11, 0));

    // cycle through all presets back to "Last Hour" at a later clock
    let second_clock = t(2024, 6, 16, 9, 45);
    let mut i = 0;
    while i < 8 {
        ds.next_quick_range(second_clock);
        i += 1;
    }
    assert_eq!(ds.selected_quick_range, Some(0));
    assert_eq!(ds.to_date, second_clock);
    assert_eq!(ds.from_date, t(2024, 6, 16, 8, 45));
}

#[test]
fn previous_quick_range_wraps_and_applies_duration() {
    let now = t(2024, 6, 15, 12, 0);
    let mut ds = DateSelection::new_at(now);
    ds.previous_quick_range(now);
    // wrapped to the last preset, a week of 168 hours
    assert_eq!(ds.selected_quick_range, Some(7));
    assert_eq!(ds.to_date, now);
    assert_eq!(ds.from_date, t(2024, 6, 8, 12, 0));
}

#[test]
fn toggle_custom_back_to_quick_rederives_from_clock() {
    let now = t(2024, 6, 15, 12, 0);
    let mut ds = DateSelection::new_at(now);
    ds.toggle_custom(now);
    assert!(ds.custom_selection);
    // make some custom edits
    ds.adjust_current_field(false);
    ds.adjust_current_field(false);
    let later = t(2024, 7, 1, 8, 15);
    ds.toggle_custom(later);
    assert!(!ds.custom_selection);
    assert_eq!(ds.selected_quick_range, Some(0));
    assert_eq!(ds.to_date, later);
    assert_eq!(ds.from_date, t(2024, 7, 1, 7, 15));
}

#[test]
fn toggle_custom_keeps_the_selected_preset() {
    let now = t(2024, 6, 15, 12, 0);
    let mut ds = DateSelection::new_at(now);
    // select the fourth preset, six hours
    ds.next_quick_range(now);
    ds.next_quick_range(now);
    ds.next_quick_range(now);
    assert_eq!(ds.selected_quick_range, Some(3));
    ds.toggle_custom(now);
    assert!(ds.custom_selection);
    ds.adjust_current_field(false);
    let later = t(2024, 7, 1, 18, 0);
    ds.toggle_custom(later);
    assert!(!ds.custom_selection);
    // the selected preset survives and is re-applied at the new clock
    assert_eq!(ds.selected_quick_range, Some(3));
    assert_eq!(ds.to_date, later);
    assert_eq!(ds.from_date, t(2024, 7, 1, 12, 0));
}

#[test]
fn field_cycle_order() {
    let now = t(2024, 6, 15, 12, 0);
    let mut ds = DateSelection::new_at(now);
    assert_eq!(ds.current_field, DateField::Day);
    ds.next_field();
    assert_eq!(ds.current_field, DateField::Hour);
    ds.next_field();
    assert_eq!(ds.current_field, DateField::Minute);
    ds.next_field();
    assert_eq!(ds.current_field, DateField::Year);
    ds.next_field();
    assert_eq!(ds.current_field, DateField::Month);
    ds.previous_field();
    assert_eq!(ds.current_field, DateField::Year);
    ds.previous_field();
    assert_eq!(ds.current_field, DateField::Minute);
}

#[test]
fn month_increment_wraps_december_to_january_same_year() {
    let dec = t(2024, 12, 15, 10, 0);
    let wrapped = dec.month_wrap(true);
    assert_eq!(wrapped.month, 1);
    assert_eq!(wrapped.year, 2024);
    assert_eq!(wrapped.day, 15);
}

#[test]
fn month_decrement_wraps_january_to_december_same_year() {
    let jan = t(2024, 1, 15, 10, 0);
    let wrapped = jan.month_wrap(false);
    assert_eq!(wrapped.month, 12);
    assert_eq!(wrapped.year, 2024);
}

#[test]
fn month_step_clamps_day_to_target_month() {
    let jan31 = t(2023, 1, 31, 0, 0);
    let feb = jan31.month_wrap(true);
    assert_eq!((feb.month, feb.day), (2, 28));
    let leap = t(2024, 1, 31, 0, 0).month_wrap(true);
    assert_eq!((leap.month, leap.day), (2, 29));
}

#[test]
fn year_step_clamps_leap_day() {
    let leap_day = t(2024, 2, 29, 12, 0);
    let next = leap_day.year_step(true);
    assert_eq!((next.year, next.month, next.day), (2025, 2, 28));
}

#[test]
fn day_decrement_rolls_into_previous_month() {
    let first = t(2024, 3, 1, 7, 5);
    let back = first.dec_day();
    assert_eq!((back.year, back.month, back.day), (2024, 2, 29));
    assert_eq!((back.hour, back.minute), (7, 5));
}

#[test]
fn minute_increment_rolls_over_midnight() {
    let late = t(2024, 12, 31, 23, 59);
    let next = late.inc_minute();
    assert_eq!((next.year, next.month, next.day, next.hour, next.minute), (2025, 1, 1, 0, 0));
}

#[test]
fn ordering_invariant_holds_after_every_adjustment() {
    let now = t(2024, 3, 31, 0, 30);
    let mut ds = DateSelection::new_at(now);
    ds.toggle_custom(now);
    let steps = [true, false, false, true, false, false, false, true, true, false];
    // walk every field on both bounds, checking the invariant each time
    for &inc in steps.iter() {
        ds.adjust_current_field(inc);
        assert!(cal_le(&ds.from_date, &ds.to_date));
        ds.next_field();
        ds.toggle_selection();
    }
}

#[test]
fn editing_to_below_from_clamps_to_from() {
    let now = t(2024, 6, 15, 12, 0);
    let mut ds = DateSelection::new_at(now);
    ds.toggle_custom(now);
    ds.toggle_selection();
    // edit the "to" bound downward by hours
    ds.next_field();
    assert_eq!(ds.current_field, DateField::Hour);
    ds.adjust_current_field(false);
    assert_eq!(ds.to_date, ds.from_date);
    ds.adjust_current_field(false);
    assert_eq!(ds.to_date, ds.from_date);
    assert!(cal_le(&ds.from_date, &ds.to_date));
}

#[test]
fn formats_zero_padded() {
    assert_eq!(format_cal_time(&t(2024, 6, 5, 9, 3)), "2024-06-05 09:03");
    assert_eq!(format_cal_time(&t(987, 12, 31, 23, 59)), "0987-12-31 23:59");
}
