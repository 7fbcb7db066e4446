use backup_reporter::event::{EventStore, SnapshotStats, SummaryPayload};

fn payload(kind: &str, time: i64, stats: Option<SnapshotStats>) -> SummaryPayload {
    SummaryPayload {
        task: String::from("nightly"),
        time,
        event: String::from(kind),
        repo: String::from("repo-1"),
        plan: String::from("plan-1"),
        snapshot: String::from("abcdef1234"),
        error: None,
        snapshot_stats: stats,
    }
}

fn stats(files_new: u64, bytes: u64, duration: u64) -> SnapshotStats {
    SnapshotStats {
        message_type: String::from("summary"),
        error: None,
        during: String::from("backup"),
        item: String::from("/data"),
        files_new,
        files_changed: 2,
        files_unmodified: 3,
        dirs_new: 4,
        dirs_changed: 5,
        dirs_unmodified: 6,
        data_blobs: 7,
        tree_blobs: 8,
        data_added: 9,
        total_files_processed: 10,
        total_bytes_processed: bytes,
        total_duration: duration,
        snapshot_id: String::from("abcdef1234"),
        percent_done: 100,
        total_files: 10,
        files_done: 10,
        total_bytes: bytes,
        bytes_done: bytes,
        current_files: None,
    }
}

#[test]
fn empty_store_aggregates_to_zeros() {
    let store = EventStore::new();
    let t = store.aggregate_totals(0, 1_000_000);
    assert_eq!(t.start_date, 0);
    assert_eq!(t.end_date, 1_000_000);
    assert_eq!(t.total_events, 0);
    assert_eq!(t.total_snapshot_success, 0);
    assert_eq!(t.total_snapshot_error, 0);
    assert_eq!(t.total_forget_success, 0);
    assert_eq!(t.total_forget_error, 0);
    assert_eq!(t.total_files_new, 0);
    assert_eq!(t.total_bytes_processed, 0);
    assert_eq!(t.total_duration, 0);
}

#[test]
fn inverted_window_aggregates_to_zeros() {
    let mut store = EventStore::new();
    store.insert_event(payload("snapshot success", 500, None), 501);
    let t = store.aggregate_totals(1_000, 0);
    assert_eq!(t.total_events, 0);
    assert_eq!(t.total_snapshot_success, 0);
}

#[test]
fn three_events_two_success_one_error() {
    let mut store = EventStore::new();
    store.insert_event(payload("snapshot success", 100, None), 101);
    store.insert_event(payload("snapshot success", 200, None), 201);
    store.insert_event(payload("snapshot error", 300, None), 301);
    let t = store.aggregate_totals(0, 1_000);
    assert_eq!(t.total_events, 3);
    assert_eq!(t.total_snapshot_success, 2);
    assert_eq!(t.total_snapshot_error, 1);
    assert_eq!(t.total_forget_success, 0);
    assert_eq!(t.total_forget_error, 0);
}

#[test]
fn event_without_stats_counts_once_and_sums_zero() {
    let mut store = EventStore::new();
    store.insert_event(payload("snapshot success", 100, None), 101);
    let t = store.aggregate_totals(0, 1_000);
    assert_eq!(t.total_events, 1);
    assert_eq!(t.total_files_new, 0);
    assert_eq!(t.total_files_changed, 0);
    assert_eq!(t.total_files_unmodified, 0);
    assert_eq!(t.total_dirs_new, 0);
    assert_eq!(t.total_dirs_changed, 0);
    assert_eq!(t.total_dirs_unmodified, 0);
    assert_eq!(t.total_data_blobs, 0);
    assert_eq!(t.total_tree_blobs, 0);
    assert_eq!(t.total_data_added, 0);
    assert_eq!(t.total_files_processed, 0);
    assert_eq!(t.total_bytes_processed, 0);
    assert_eq!(t.total_duration, 0);
}

#[test]
fn left_outer_sums_mix_events_with_and_without_stats() {
    let mut store = EventStore::new();
    store.insert_event(payload("snapshot success", 100, Some(stats(11, 1000, 60))), 101);
    store.insert_event(payload("snapshot success", 200, None), 201);
    store.insert_event(payload("snapshot error", 300, Some(stats(7, 500, 30))), 301);
    let t = store.aggregate_totals(0, 1_000);
    assert_eq!(t.total_events, 3);
    assert_eq!(t.total_files_new, 18);
    assert_eq!(t.total_bytes_processed, 1500);
    assert_eq!(t.total_duration, 90);
    assert_eq!(t.total_files_changed, 4);
    assert_eq!(t.total_dirs_new, 8);
}

#[test]
fn kind_match_is_case_insensitive_substring() {
    let mut store = EventStore::new();
    store.insert_event(payload("Snapshot SUCCESS for plan x", 100, None), 101);
    store.insert_event(payload("FORGET Error", 200, None), 201);
    store.insert_event(payload("something else", 300, None), 301);
    let t = store.aggregate_totals(0, 1_000);
    assert_eq!(t.total_events, 3);
    assert_eq!(t.total_snapshot_success, 1);
    assert_eq!(t.total_forget_error, 1);
    assert_eq!(t.total_snapshot_error, 0);
    assert_eq!(t.total_forget_success, 0);
}

#[test]
fn window_bounds_are_inclusive_on_both_ends() {
    let mut store = EventStore::new();
    store.insert_event(payload("snapshot success", 100, None), 1);
    store.insert_event(payload("snapshot success", 200, None), 2);
    store.insert_event(payload("snapshot success", 99, None), 3);
    store.insert_event(payload("snapshot success", 201, None), 4);
    let t = store.aggregate_totals(100, 200);
    assert_eq!(t.total_events, 2);
    let rows = store.query_events(100, 200);
    assert_eq!(rows.len(), 2);
    assert_eq!(rows[0].time, 100);
    assert_eq!(rows[1].time, 200);
}

#[test]
fn query_filters_on_job_reported_time_not_created_at() {
    let mut store = EventStore::new();
    // created far outside the window; job-reported instant inside
    store.insert_event(payload("snapshot success", 150, None), 9_999_999);
    // job-reported instant outside; created inside
    store.insert_event(payload("snapshot success", 9_999_999, None), 150);
    let rows = store.query_events(100, 200);
    assert_eq!(rows.len(), 1);
    assert_eq!(rows[0].time, 150);
}

#[test]
fn insert_assigns_sequential_one_based_ids() {
    let mut store = EventStore::new();
    let a = store.insert_event(payload("snapshot success", 1, None), 2);
    let b = store.insert_event(payload("snapshot error", 3, None), 4);
    assert_eq!(a, 1);
    assert_eq!(b, 2);
    assert_eq!(store.len(), 2);
    let rows = store.query_events(0, 10);
    assert_eq!(rows[0].id, 1);
    assert_eq!(rows[0].created_at, 2);
    assert_eq!(rows[1].id, 2);
    assert_eq!(rows[1].created_at, 4);
}

#[test]
fn saturating_sums_clamp_at_max() {
    let mut store = EventStore::new();
    store.insert_event(payload("snapshot success", 100, Some(stats(u64::MAX, u64::MAX, 1))), 1);
    store.insert_event(payload("snapshot success", 200, Some(stats(5, 5, 1))), 2);
    let t = store.aggregate_totals(0, 1_000);
    assert_eq!(t.total_files_new, u64::MAX);
    assert_eq!(t.total_bytes_processed, u64::MAX);
    assert_eq!(t.total_duration, 2);
}
