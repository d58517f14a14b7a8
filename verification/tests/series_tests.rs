use chart_engine::series::{
    anchor_index, candle_at, live_update, needs_view_reset, restore_index, search_time,
    shifted_index, visible_window, window_has_candles, LiveUpdate,
};

#[test]
fn search_time_found_and_insertion_points() {
    let t = vec![10, 20, 30, 40];
    assert_eq!(search_time(&t, 30), Ok(2));
    assert_eq!(search_time(&t, 10), Ok(0));
    assert_eq!(search_time(&t, 25), Err(2));
    assert_eq!(search_time(&t, 5), Err(0));
    assert_eq!(search_time(&t, 45), Err(4));
    assert_eq!(search_time(&vec![], 1), Err(0));
}

#[test]
fn search_time_first_of_duplicates() {
    assert_eq!(search_time(&vec![1, 2, 2, 2, 3], 2), Ok(1));
}

#[test]
fn restore_index_clamps_to_last() {
    let t = vec![100, 200, 300];
    assert_eq!(restore_index(&t, 200), 1);
    assert_eq!(restore_index(&t, 250), 2);
    assert_eq!(restore_index(&t, 50), 0);
    assert_eq!(restore_index(&t, 999), 2);
    assert_eq!(restore_index(&vec![], 999), 0);
}

#[test]
fn anchor_index_clamps() {
    assert_eq!(anchor_index(10, -3), 0);
    assert_eq!(anchor_index(10, 4), 4);
    assert_eq!(anchor_index(10, 10), 9);
    assert_eq!(anchor_index(10, 1_000_000), 9);
    assert_eq!(anchor_index(1, 0), 0);
}

#[test]
fn view_reset_rules() {
    assert!(!needs_view_reset(true, 0, 100));
    assert!(needs_view_reset(false, 0, 0));
    assert!(needs_view_reset(false, 10, 11));
    assert!(!needs_view_reset(false, 10, 10));
    assert!(!needs_view_reset(false, 10, -5));
}

#[test]
fn live_update_actions() {
    assert_eq!(live_update(None, 5), LiveUpdate::Append);
    assert_eq!(live_update(Some(5), 5), LiveUpdate::ReplaceLast);
    assert_eq!(live_update(Some(5), 6), LiveUpdate::Append);
    assert_eq!(live_update(Some(5), 4), LiveUpdate::Ignore);
}

#[test]
fn live_updates_keep_times_increasing() {
    let mut times: Vec<i64> = vec![];
    for t in [10, 10, 20, 15, 20, 30, 5] {
        let last = times.last().copied();
        if live_update(last, t) == LiveUpdate::Append {
            times.push(t);
        }
    }
    assert_eq!(times, vec![10, 20, 30]);
}

#[test]
fn visible_window_clamps() {
    assert_eq!(visible_window(-5, 20, 100), (0, 20));
    assert_eq!(visible_window(10, 200, 100), (10, 100));
    assert_eq!(visible_window(150, 200, 100), (150, 100));
    assert_eq!(visible_window(-10, -2, 100), (0, 0));
    assert!(window_has_candles(0, 20, 100));
    assert!(!window_has_candles(150, 100, 100));
    assert!(!window_has_candles(0, 0, 100));
    assert!(!window_has_candles(3, 5, 3));
}

#[test]
fn candle_at_bounds() {
    assert_eq!(candle_at(-1, 5), None);
    assert_eq!(candle_at(0, 5), Some(0));
    assert_eq!(candle_at(4, 5), Some(4));
    assert_eq!(candle_at(5, 5), None);
}

#[test]
fn shifted_index_offsets() {
    assert_eq!(shifted_index(5, 2, 10), Some(3));
    assert_eq!(shifted_index(1, 2, 10), None);
    assert_eq!(shifted_index(5, -2, 10), Some(7));
    assert_eq!(shifted_index(8, -2, 10), None);
    assert_eq!(shifted_index(5, 0, 5), None);
    assert_eq!(shifted_index(4, 0, 5), Some(4));
    assert_eq!(shifted_index(0, i32::MIN, 5), None);
}
