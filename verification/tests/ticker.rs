use broker_client::ticker::{checked_minute_window_len, minute_window_len};
use circular_buffer::HeapCircularBuffer;

fn history(capacity: usize, stamps: &[i64]) -> HeapCircularBuffer<i64> {
    let mut buffer = HeapCircularBuffer::with_capacity(capacity);
    for &ts in stamps {
        buffer.push_back(ts);
    }
    buffer
}

#[test]
fn empty_history_has_no_window() {
    assert_eq!(minute_window_len(&history(12, &[])), 0);
}

#[test]
fn single_ticker_is_the_window() {
    assert_eq!(minute_window_len(&history(12, &[1_700_000_000])), 1);
}

#[test]
fn window_stops_at_first_old_ticker() {
    // newest 130: the minute starts at 70, so 100 counts and 10 does not
    assert_eq!(minute_window_len(&history(12, &[0, 10, 100, 130])), 2);
}

#[test]
fn window_boundary_is_inclusive() {
    assert_eq!(minute_window_len(&history(12, &[39, 40, 70, 100])), 3);
}

#[test]
fn window_ignores_recent_entries_behind_an_old_one() {
    // 95 lies within the minute but sits behind 10, where the count stops
    assert_eq!(minute_window_len(&history(12, &[95, 10, 100])), 1);
}

#[test]
fn whole_recent_history_is_window() {
    assert_eq!(minute_window_len(&history(12, &[50, 60, 70, 80, 90, 100])), 6);
}

#[test]
fn gap_restarts_window() {
    assert_eq!(minute_window_len(&history(12, &[100, 110, 120, 181])), 1);
}

#[test]
fn overwritten_entries_are_not_counted() {
    // capacity 3 keeps 80, 90, 100 only
    assert_eq!(minute_window_len(&history(3, &[50, 60, 70, 80, 90, 100])), 3);
}

#[test]
fn zero_capacity_history_is_empty() {
    assert_eq!(minute_window_len(&history(0, &[5, 6])), 0);
}

#[test]
fn checked_window_matches_window() {
    let h = history(12, &[0, 10, 100, 130]);
    assert_eq!(checked_minute_window_len(&h), Some(2));
    assert_eq!(checked_minute_window_len(&history(4, &[])), Some(0));
}

#[test]
fn checked_window_refuses_timestamps_near_minimum() {
    assert_eq!(checked_minute_window_len(&history(4, &[i64::MIN + 59])), None);
    assert_eq!(checked_minute_window_len(&history(4, &[i64::MIN + 60])), Some(1));
}
