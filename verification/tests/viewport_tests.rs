use aws_logs_viewer::viewport::visible_range;

#[test]
fn no_selection_shows_from_top() {
    assert_eq!(visible_range(None, 3, 10), (0, 3));
    assert_eq!(visible_range(None, 100, 10), (0, 10));
    assert_eq!(visible_range(None, 0, 10), (0, 0));
}

#[test]
fn selection_near_top_is_not_centered_past_zero() {
    assert_eq!(visible_range(Some(0), 100, 10), (0, 10));
    assert_eq!(visible_range(Some(3), 100, 10), (0, 10));
}

#[test]
fn selection_in_middle_is_centered() {
    let (start, end) = visible_range(Some(50), 100, 10);
    assert_eq!((start, end), (45, 55));
    assert!(start <= 50 && 50 < end);
}

#[test]
fn selection_near_tail_pins_to_end() {
    assert_eq!(visible_range(Some(98), 100, 10), (90, 100));
    assert_eq!(visible_range(Some(99), 100, 10), (90, 100));
}

#[test]
fn viewport_taller_than_list_shows_all() {
    assert_eq!(visible_range(Some(2), 3, 10), (0, 3));
}

#[test]
fn zero_height_viewport_is_empty() {
    let (start, end) = visible_range(Some(2), 3, 0);
    assert_eq!(start, end);
}

#[test]
fn window_never_exceeds_height() {
    let mut total: usize = 0;
    while total < 25 {
        let mut height: usize = 0;
        while height < 12 {
            let mut sel: usize = 0;
            while sel < total {
                let (start, end) = visible_range(Some(sel), total, height);
                assert!(end <= total);
                assert!(start <= end);
                assert!(end - start <= height);
                if height >= 1 {
                    assert!(start <= sel && sel < end);
                }
                sel += 1;
            }
            height += 1;
        }
        total += 1;
    }
}
