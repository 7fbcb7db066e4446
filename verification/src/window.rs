//! Comparable time windows.
//!
//! Instants are UTC epoch seconds (`i64`). A window is a `[start, end)`
//! instant pair; the calculator shifts a requested window back by fixed
//! offsets of one day, one week and thirty days. The "month" offset is a
//! fixed 30-day shift, not a calendar-month shift.

use vstd::prelude::*;

verus! {

/// Seconds in one day.
pub const SECS_PER_DAY: i64 = 86_400;

/// Seconds in one week.
pub const SECS_PER_WEEK: i64 = 604_800;

/// Seconds in thirty days: the fixed "month" comparison offset.
pub const SECS_PER_30_DAYS: i64 = 2_592_000;

/// A `[start, end)` pair of UTC epoch-second instants.
#[derive(Clone, Copy, Debug, PartialEq, Eq, Structural)]
pub struct TimeWindow {
    pub start: i64,
    pub end: i64,
}

/// The four comparison windows derived from one requested window.
#[derive(Clone, Copy, Debug, PartialEq, Eq, Structural)]
pub struct WindowSet {
    pub current: TimeWindow,
    pub day: TimeWindow,
    pub week: TimeWindow,
    pub month: TimeWindow,
}

/// Derives the current window and its one-day, one-week and thirty-day
/// shifted counterparts from a requested `[start, end)` pair.
///
/// The bounds on `start` and `end` only keep the 30-day shift from
/// underflowing `i64`; any representable instants of interest satisfy them.
pub fn windows_for(start: i64, end: i64) -> (w: WindowSet)
    requires
        i64::MIN + SECS_PER_30_DAYS <= start,
        i64::MIN + SECS_PER_30_DAYS <= end,
    ensures
        w.current.start == start,
        w.current.end == end,
        w.day.start == start - SECS_PER_DAY,
        w.day.end == end - SECS_PER_DAY,
        w.week.start == start - SECS_PER_WEEK,
        w.week.end == end - SECS_PER_WEEK,
        w.month.start == start - SECS_PER_30_DAYS,
        w.month.end == end - SECS_PER_30_DAYS,
{
    WindowSet {
        current: TimeWindow { start, end },
        day: TimeWindow { start: start - SECS_PER_DAY, end: end - SECS_PER_DAY },
        week: TimeWindow { start: start - SECS_PER_WEEK, end: end - SECS_PER_WEEK },
        month: TimeWindow { start: start - SECS_PER_30_DAYS, end: end - SECS_PER_30_DAYS },
    }
}

} // verus!
