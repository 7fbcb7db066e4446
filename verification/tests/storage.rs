use backup_reporter::storage::{
    percent_used_of, period_stats_of, Measurement, MountReading, StorageConfig, StorageHistory,
    StorageRow, StoreError,
};
use backup_reporter::window::{SECS_PER_30_DAYS, SECS_PER_DAY, SECS_PER_WEEK};

fn mount(path: &str, nickname: Option<&str>) -> StorageConfig {
    StorageConfig { path: String::from(path), nickname: nickname.map(String::from) }
}

fn insert(h: &mut StorageHistory, path: &str, nick: Option<&str>, used: u64, total: u64, t: i64) {
    h.insert_snapshot(String::from(path), nick.map(String::from), used, total, t);
}

#[test]
fn as_of_picks_greatest_instant_at_or_before_cutoff() {
    let mut h = StorageHistory::new();
    insert(&mut h, "/mnt/a", None, 10, 100, 1_000);
    insert(&mut h, "/mnt/a", None, 20, 100, 2_000);
    insert(&mut h, "/mnt/a", None, 30, 100, 3_000);
    // t1 < t2 == cutoff: the inclusive boundary wins
    let r = h.snapshot_as_of("/mnt/a", 2_000).expect("snapshot expected");
    assert_eq!(r.time_added, 2_000);
    assert_eq!(r.used_bytes, 20);
    // between two instants: the earlier one
    let r = h.snapshot_as_of("/mnt/a", 2_500).expect("snapshot expected");
    assert_eq!(r.time_added, 2_000);
}

#[test]
fn as_of_absent_when_all_snapshots_after_cutoff() {
    let mut h = StorageHistory::new();
    insert(&mut h, "/mnt/a", None, 10, 100, 5_000);
    insert(&mut h, "/mnt/a", None, 20, 100, 6_000);
    assert!(h.snapshot_as_of("/mnt/a", 4_999).is_none());
    assert!(h.snapshot_as_of("/mnt/b", 10_000).is_none());
}

#[test]
fn as_of_ignores_other_mounts() {
    let mut h = StorageHistory::new();
    insert(&mut h, "/mnt/a", None, 10, 100, 1_000);
    insert(&mut h, "/mnt/b", None, 99, 100, 2_000);
    let r = h.snapshot_as_of("/mnt/a", 3_000).expect("snapshot expected");
    assert_eq!(r.used_bytes, 10);
}

#[test]
fn as_of_equal_instants_latest_insert_wins() {
    let mut h = StorageHistory::new();
    insert(&mut h, "/mnt/a", None, 10, 100, 1_000);
    insert(&mut h, "/mnt/a", None, 20, 100, 1_000);
    let r = h.snapshot_as_of("/mnt/a", 1_000).expect("snapshot expected");
    assert_eq!(r.used_bytes, 20);
}

#[test]
fn latest_snapshot_is_the_most_recent_row() {
    let mut h = StorageHistory::new();
    insert(&mut h, "/mnt/a", None, 10, 100, 3_000);
    insert(&mut h, "/mnt/a", None, 20, 100, 1_000);
    let r = h.latest_snapshot("/mnt/a").expect("snapshot expected");
    assert_eq!(r.time_added, 3_000);
    assert!(h.latest_snapshot("/mnt/none").is_none());
}

#[test]
fn percent_of_zero_total_is_zero() {
    assert_eq!(percent_used_of(0, 0), 0);
    assert_eq!(percent_used_of(123, 0), 0);
}

#[test]
fn percent_is_hundredths_truncated() {
    assert_eq!(percent_used_of(50, 100), 5_000);
    assert_eq!(percent_used_of(1, 3), 3_333);
    assert_eq!(percent_used_of(100, 100), 10_000);
    assert_eq!(percent_used_of(150, 100), 15_000);
}

#[test]
fn period_stats_saturate_free_bytes() {
    let row = StorageRow {
        location: String::from("/mnt/a"),
        nickname: None,
        used_bytes: 150,
        total_bytes: 100,
        time_added: 42,
    };
    let p = period_stats_of(&row);
    assert_eq!(p.free_bytes, 0);
    assert_eq!(p.used_bytes, 150);
    assert_eq!(p.total_bytes, 100);
    assert_eq!(p.percent_used_hundredths, 15_000);
    assert_eq!(p.time_added, 42);
}

#[test]
fn trends_anchor_cutoffs_to_the_latest_snapshot_instant() {
    let mut h = StorageHistory::new();
    let t: i64 = 40 * SECS_PER_DAY;
    // exactly at the inclusive day/week/month cutoffs
    insert(&mut h, "/mnt/a", None, 1, 100, t - SECS_PER_DAY);
    insert(&mut h, "/mnt/a", None, 2, 100, t - SECS_PER_WEEK);
    insert(&mut h, "/mnt/a", None, 3, 100, t - SECS_PER_30_DAYS);
    insert(&mut h, "/mnt/a", None, 50, 100, t);
    let trends = h.storage_trends(&vec![mount("/mnt/a", None)]);
    assert_eq!(trends.len(), 1);
    let tr = &trends[0];
    assert_eq!(tr.current.used_bytes, 50);
    assert_eq!(tr.previous_day.as_ref().expect("day point").used_bytes, 1);
    assert_eq!(tr.previous_week.as_ref().expect("week point").used_bytes, 2);
    assert_eq!(tr.previous_month.as_ref().expect("month point").used_bytes, 3);
}

#[test]
fn trends_omit_mounts_without_history() {
    let mut h = StorageHistory::new();
    insert(&mut h, "/mnt/b", None, 5, 10, 1_000);
    let trends = h.storage_trends(&vec![mount("/mnt/a", None), mount("/mnt/b", None)]);
    assert_eq!(trends.len(), 1);
    assert_eq!(trends[0].location.as_str(), "/mnt/b");
}

#[test]
fn trends_missing_history_points_are_absent_not_errors() {
    let mut h = StorageHistory::new();
    insert(&mut h, "/mnt/a", None, 5, 10, SECS_PER_DAY + 10);
    insert(&mut h, "/mnt/a", None, 6, 10, 10);
    let trends = h.storage_trends(&vec![mount("/mnt/a", None)]);
    let tr = &trends[0];
    assert_eq!(tr.current.used_bytes, 5);
    assert_eq!(tr.previous_day.as_ref().expect("day point").used_bytes, 6);
    assert!(tr.previous_week.is_none());
    assert!(tr.previous_month.is_none());
}

#[test]
fn trend_nickname_prefers_configured_over_recorded() {
    let mut h = StorageHistory::new();
    insert(&mut h, "/mnt/a", Some("recorded"), 5, 10, 1_000);
    insert(&mut h, "/mnt/b", Some("recorded-b"), 5, 10, 1_000);
    insert(&mut h, "/mnt/c", None, 5, 10, 1_000);
    let trends = h.storage_trends(&vec![
        mount("/mnt/a", Some("configured")),
        mount("/mnt/b", None),
        mount("/mnt/c", None),
    ]);
    assert_eq!(trends[0].nickname.as_deref(), Some("configured"));
    assert_eq!(trends[1].nickname.as_deref(), Some("recorded-b"));
    assert_eq!(trends[2].nickname, None);
}

#[test]
fn display_name_falls_back_to_the_mount_path() {
    let mut h = StorageHistory::new();
    insert(&mut h, "/mnt/a", Some("alpha"), 5, 10, 1_000);
    insert(&mut h, "/mnt/b", None, 5, 10, 1_000);
    insert(&mut h, "/mnt/c", Some(""), 5, 10, 1_000);
    let trends = h.storage_trends(&vec![
        mount("/mnt/a", None),
        mount("/mnt/b", None),
        mount("/mnt/c", None),
    ]);
    assert_eq!(trends[0].display_name().as_str(), "alpha");
    assert_eq!(trends[1].display_name().as_str(), "/mnt/b");
    // an empty recorded nickname is no name
    assert_eq!(trends[2].display_name().as_str(), "/mnt/c");
}

#[test]
fn record_measurements_inserts_one_row_per_measured_mount() {
    let mut h = StorageHistory::new();
    let readings = vec![
        MountReading {
            path: String::from("/mnt/a"),
            nickname: Some(String::from("alpha")),
            measured: Some(Measurement { total_bytes: 1_000, free_bytes: 400 }),
        },
        MountReading {
            path: String::from("/mnt/b"),
            nickname: None,
            measured: Some(Measurement { total_bytes: 500, free_bytes: 600 }),
        },
    ];
    let reports = h.record_measurements(&readings, 7_000).expect("refresh succeeds");
    assert_eq!(reports.len(), 2);
    assert_eq!(reports[0].location.as_str(), "/mnt/a");
    assert_eq!(reports[0].used_bytes, 600);
    assert_eq!(reports[0].total_bytes, 1_000);
    // free above total saturates used at zero
    assert_eq!(reports[1].used_bytes, 0);
    assert_eq!(h.len(), 2);
    let row = h.latest_snapshot("/mnt/a").expect("row inserted");
    assert_eq!(row.used_bytes, 600);
    assert_eq!(row.time_added, 7_000);
    assert_eq!(row.nickname.as_deref(), Some("alpha"));
}

#[test]
fn record_measurements_fails_fast_but_keeps_earlier_rows() {
    let mut h = StorageHistory::new();
    let readings = vec![
        MountReading {
            path: String::from("/mnt/a"),
            nickname: None,
            measured: Some(Measurement { total_bytes: 100, free_bytes: 40 }),
        },
        MountReading { path: String::from("/mnt/bad"), nickname: None, measured: None },
        MountReading {
            path: String::from("/mnt/c"),
            nickname: None,
            measured: Some(Measurement { total_bytes: 100, free_bytes: 40 }),
        },
    ];
    let r = h.record_measurements(&readings, 7_000);
    assert!(matches!(r, Err(StoreError::MeasurementFailed)));
    // the mount before the failure stays persisted; the one after does not
    assert_eq!(h.len(), 1);
    assert!(h.latest_snapshot("/mnt/a").is_some());
    assert!(h.latest_snapshot("/mnt/c").is_none());
}
