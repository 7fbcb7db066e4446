use backup_reporter::window::{windows_for, SECS_PER_30_DAYS, SECS_PER_DAY, SECS_PER_WEEK};

// 2025-01-15T00:00:00Z and 2025-01-16T00:00:00Z as epoch seconds.
const JAN_15: i64 = 1_736_899_200;
const JAN_16: i64 = 1_736_985_600;

#[test]
fn day_week_month_windows_for_mid_january() {
    let w = windows_for(JAN_15, JAN_16);
    assert_eq!(w.current.start, JAN_15);
    assert_eq!(w.current.end, JAN_16);
    // 2025-01-14T00:00:00Z .. 2025-01-15T00:00:00Z
    assert_eq!(w.day.start, 1_736_812_800);
    assert_eq!(w.day.end, 1_736_899_200);
    // 2025-01-08T00:00:00Z .. 2025-01-09T00:00:00Z
    assert_eq!(w.week.start, 1_736_294_400);
    assert_eq!(w.week.end, 1_736_380_800);
    // 2024-12-16T00:00:00Z .. 2024-12-17T00:00:00Z (fixed 30-day shift)
    assert_eq!(w.month.start, 1_734_307_200);
    assert_eq!(w.month.end, 1_734_393_600);
}

#[test]
fn window_offsets_are_fixed_shifts() {
    let w = windows_for(1_000_000, 2_000_000);
    assert_eq!(w.day.start, 1_000_000 - SECS_PER_DAY);
    assert_eq!(w.week.start, 1_000_000 - SECS_PER_WEEK);
    assert_eq!(w.month.start, 1_000_000 - SECS_PER_30_DAYS);
    assert_eq!(w.day.end, 2_000_000 - SECS_PER_DAY);
    assert_eq!(w.week.end, 2_000_000 - SECS_PER_WEEK);
    assert_eq!(w.month.end, 2_000_000 - SECS_PER_30_DAYS);
}

#[test]
fn windows_keep_the_requested_length() {
    let w = windows_for(500, 1700);
    assert_eq!(w.current.end - w.current.start, 1200);
    assert_eq!(w.day.end - w.day.start, 1200);
    assert_eq!(w.week.end - w.week.start, 1200);
    assert_eq!(w.month.end - w.month.start, 1200);
}
