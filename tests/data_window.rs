use data_display::data_window::{DataWindow, FetchRequest, LoadError};
use data_display::records::{Blob, DataResponse, Row2};

fn blob(v: f64) -> Blob {
    let b = v.to_bits();
    Blob {
        lat: b,
        lon: b,
        alt: b,
        accel_x: b,
        accel_y: b,
        accel_z: b,
        gyro_x: b,
        gyro_y: b,
        gyro_z: b,
        dac_1: b,
        dac_2: b,
        dac_3: b,
        dac_4: b,
    }
}

fn point(id: i64, datetime: &str, v: Option<f64>) -> Row2 {
    Row2 { datetime: datetime.to_string(), id, data_blob: v.map(blob) }
}

fn ts(second: u32) -> String {
    format!("2025-03-01T10:00:{:02}.000", second)
}

fn batch(from: u32, to: u32) -> DataResponse {
    let mut datapoints = Vec::new();
    for s in from..to {
        datapoints.push(point(s as i64, &ts(s), Some(s as f64)));
    }
    DataResponse { datapoints }
}

/// A window on session `id` holding the datapoints `0 .. n`, formatted.
fn loaded_window(id: &str, n: u32) -> DataWindow {
    let mut w = DataWindow::new();
    let req = w.load_data(&id.to_string(), 0).expect("first poll fetches");
    assert!(req.since.is_none());
    w.apply_fetch(&req, 200, Some(batch(0, n))).unwrap();
    w.format_data();
    w
}

fn indices(w: &DataWindow) -> Vec<usize> {
    w.rows().iter().map(|r| r.sequence_index).collect()
}

#[test]
fn new_window_is_empty_and_descending() {
    let w = DataWindow::new();
    assert!(w.rows().is_empty());
    assert!(w.datapoints().is_empty());
    assert_eq!(w.formatted_count(), 0);
    assert_eq!(w.last_seen(), None);
    assert!(!w.is_ascending());
    assert_eq!(w.current_page(), 0);
    assert_eq!(w.page_count(), 0);
    assert_eq!(w.session_id(), "");
}

#[test]
fn first_poll_fetches_everything() {
    let mut w = DataWindow::new();
    let req = w.load_data(&"12".to_string(), 40).unwrap();
    assert_eq!(req.session_id, "12");
    assert_eq!(req.since, None);
    assert_eq!(w.session_id(), "12");
}

#[test]
fn poll_waits_for_refresh_interval() {
    let mut w = DataWindow::new();
    let s = "3".to_string();
    assert!(w.load_data(&s, 100).is_some());
    assert!(w.load_data(&s, 600).is_none());
    assert!(w.load_data(&s, 1099).is_none());
    let req = w.load_data(&s, 1100).unwrap();
    assert_eq!(req.since, Some("2025-01-01T00:00:00.000".to_string()));
    assert!(w.load_data(&s, 50).is_none());
}

#[test]
fn since_fetch_uses_latest_timestamp() {
    let mut w = loaded_window("4", 3);
    let req = w.load_data(&"4".to_string(), 1000).unwrap();
    assert_eq!(req.since, Some(ts(2)));
}

#[test]
fn cursor_never_moves_back() {
    let mut w = DataWindow::new();
    let s = "9".to_string();
    let req = w.load_data(&s, 0).unwrap();
    let first = DataResponse { datapoints: vec![point(1, &ts(10), Some(1.0)), point(2, &ts(30), Some(2.0))] };
    w.apply_fetch(&req, 200, Some(first)).unwrap();
    assert_eq!(w.last_seen(), Some(ts(30)));
    let req = w.load_data(&s, 1000).unwrap();
    assert_eq!(req.since, Some(ts(30)));
    let older = DataResponse { datapoints: vec![point(3, &ts(20), Some(3.0))] };
    w.apply_fetch(&req, 200, Some(older)).unwrap();
    assert_eq!(w.last_seen(), Some(ts(30)));
    let newer = DataResponse { datapoints: vec![point(4, &ts(45), Some(4.0))] };
    w.apply_fetch(&req, 201, Some(newer)).unwrap();
    assert_eq!(w.last_seen(), Some(ts(45)));
    assert_eq!(w.datapoints().len(), 4);
}

#[test]
fn format_twice_changes_nothing() {
    let mut w = loaded_window("5", 4);
    let before = indices(&w);
    let count = w.formatted_count();
    w.format_data();
    assert_eq!(indices(&w), before);
    assert_eq!(w.formatted_count(), count);
    assert!(!w.needs_format());
}

#[test]
fn descending_rows_put_newest_first() {
    let w = loaded_window("6", 4);
    assert_eq!(indices(&w), vec![3, 2, 1, 0]);
}

#[test]
fn ascending_rows_increase() {
    let mut w = loaded_window("7", 4);
    w.toggle_direction();
    assert!(w.is_ascending());
    let s = "7".to_string();
    let req = w.load_data(&s, 1000).unwrap();
    w.apply_fetch(&req, 200, Some(batch(4, 7))).unwrap();
    w.format_data();
    let idx = indices(&w);
    assert_eq!(idx, vec![0, 1, 2, 3, 4, 5, 6]);
    for i in 0..idx.len() - 1 {
        assert!(idx[i] < idx[i + 1]);
    }
}

#[test]
fn incremental_format_in_descending_order() {
    let mut w = loaded_window("8", 2);
    let req = w.load_data(&"8".to_string(), 1000).unwrap();
    w.apply_fetch(&req, 200, Some(batch(2, 4))).unwrap();
    assert!(w.needs_format());
    w.format_data();
    assert_eq!(indices(&w), vec![3, 2, 1, 0]);
    assert_eq!(w.rows()[0].timestamp, ts(3));
    assert_eq!(w.rows()[0].readings.accel_x, 3.0f64.to_bits());
}

#[test]
fn toggle_twice_restores_order() {
    let mut w = loaded_window("10", 5);
    let before = indices(&w);
    w.toggle_direction();
    assert_eq!(indices(&w), vec![0, 1, 2, 3, 4]);
    w.toggle_direction();
    assert_eq!(indices(&w), before);
    assert!(!w.is_ascending());
}

#[test]
fn switching_sessions_drops_everything() {
    let mut w = loaded_window("A", 6);
    assert_eq!(w.rows().len(), 6);
    let b = "B".to_string();
    let req_b = w.load_data(&b, 10).unwrap();
    assert!(w.rows().is_empty());
    w.apply_fetch(&req_b, 200, Some(batch(100, 103))).unwrap();
    w.format_data();
    assert_eq!(w.rows().len(), 3);
    let a = "A".to_string();
    let req_a = w.load_data(&a, 20).unwrap();
    assert_eq!(req_a.since, None);
    assert!(w.rows().is_empty());
    assert!(w.datapoints().is_empty());
    assert_eq!(w.last_seen(), None);
    assert_eq!(w.formatted_count(), 0);
    let late = w.apply_fetch(&req_b, 200, Some(batch(103, 105)));
    assert_eq!(late, Err(LoadError::StaleSession));
    assert!(w.datapoints().is_empty());
}

#[test]
fn failed_fetch_leaves_window_unchanged() {
    let mut w = loaded_window("11", 3);
    let req = w.load_data(&"11".to_string(), 1000).unwrap();
    assert_eq!(w.apply_fetch(&req, 500, Some(batch(3, 5))), Err(LoadError::Status(500)));
    assert_eq!(w.apply_fetch(&req, 404, None), Err(LoadError::Status(404)));
    assert_eq!(w.apply_fetch(&req, 200, None), Err(LoadError::MissingBody));
    assert_eq!(w.datapoints().len(), 3);
    assert_eq!(w.last_seen(), Some(ts(2)));
    assert!(!w.needs_format());
}

#[test]
fn stale_request_refused() {
    let mut w = loaded_window("12", 2);
    let other = FetchRequest { session_id: "13".to_string(), since: None };
    assert_eq!(w.apply_fetch(&other, 200, Some(batch(0, 9))), Err(LoadError::StaleSession));
    assert_eq!(w.datapoints().len(), 2);
}

#[test]
fn decode_failure_skips_row_but_counts() {
    let mut w = DataWindow::new();
    w.toggle_direction();
    let req = w.load_data(&"14".to_string(), 0).unwrap();
    let raw = DataResponse {
        datapoints: vec![
            point(1, &ts(1), Some(1.0)),
            point(2, &ts(2), Some(2.0)),
            point(3, &ts(3), None),
            point(4, &ts(4), Some(4.0)),
            point(5, &ts(5), Some(5.0)),
        ],
    };
    w.apply_fetch(&req, 200, Some(raw)).unwrap();
    let rows_before = w.rows().len();
    let count_before = w.formatted_count();
    w.format_data();
    assert_eq!(w.rows().len(), rows_before + 4);
    assert_eq!(w.formatted_count(), count_before + 5);
    assert_eq!(indices(&w), vec![0, 1, 3, 4]);
    let values: Vec<f64> = w.rows().iter().map(|r| f64::from_bits(r.readings.lat)).collect();
    assert_eq!(values, vec![1.0, 2.0, 4.0, 5.0]);
}

#[test]
fn shrunk_buffer_resets_formatting() {
    let mut w = loaded_window("15", 12);
    w.next_page();
    assert_eq!(w.current_page(), 1);
    // A late full fetch of the same session replaces the buffer with fewer points.
    let stale_full = FetchRequest { session_id: "15".to_string(), since: None };
    w.apply_fetch(&stale_full, 200, Some(batch(0, 3))).unwrap();
    assert_eq!(w.datapoints().len(), 3);
    w.format_data();
    assert_eq!(w.formatted_count(), 3);
    assert_eq!(indices(&w), vec![2, 1, 0]);
    assert_eq!(w.current_page(), 0);
}

#[test]
fn pages_of_twenty_five_rows() {
    let mut w = loaded_window("16", 25);
    assert_eq!(w.page_count(), 3);
    assert_eq!(w.page(0).len(), 10);
    assert_eq!(w.page(1).len(), 10);
    assert_eq!(w.page(2).len(), 5);
    let last: Vec<usize> = w.page(2).iter().map(|r| r.sequence_index).collect();
    assert_eq!(last, vec![4, 3, 2, 1, 0]);
    let past: Vec<usize> = w.page(7).iter().map(|r| r.sequence_index).collect();
    assert_eq!(past, last);
    w.next_page();
    w.next_page();
    w.next_page();
    assert_eq!(w.current_page(), 2);
    assert_eq!(w.current_rows().len(), 5);
    w.prev_page();
    w.prev_page();
    w.prev_page();
    assert_eq!(w.current_page(), 0);
    assert_eq!(w.current_rows()[0].sequence_index, 24);
}

#[test]
fn pages_of_empty_buffer() {
    let w = DataWindow::new();
    assert_eq!(w.page_count(), 0);
    assert!(w.page(0).is_empty());
    assert!(w.page(3).is_empty());
}
