//! Report assembly: event totals for the current window and the three
//! fixed historical offsets, plus the combined report value.
//!
//! A historical-comparison failure degrades that one comparison to
//! absent; only a failure of the current window is surfaced. An empty
//! historical window is zeros, never absence.

use vstd::prelude::*;

use crate::event::{filter_window, spec_totals, EventRecord, EventStore, EventTotals};
use crate::storage::{trends_of, CurrentStorageStats, StorageConfig, StorageHistory};
use crate::window::{windows_for, SECS_PER_30_DAYS, SECS_PER_DAY, SECS_PER_WEEK};

verus! {

/// Event totals for the requested window and, where available, for the
/// same window one day, one week and thirty days earlier. An optional
/// field is absent only when the aggregation for that window failed,
/// never merely because the window is empty.
#[derive(Clone, Copy, Debug)]
pub struct EventTotalsReport {
    pub current: EventTotals,
    pub previous_day: Option<EventTotals>,
    pub previous_week: Option<EventTotals>,
    pub previous_month: Option<EventTotals>,
}

/// The combined report: event totals with history, the raw event rows of
/// the requested window, and one storage trend per configured mount.
#[derive(Debug)]
pub struct GenerateReport {
    pub event_totals: EventTotalsReport,
    pub snapshot_summaries: Vec<EventRecord>,
    pub storage_statistics: Vec<CurrentStorageStats>,
}

/// The `Ok` value of an aggregation outcome, or `None` when it failed.
pub open spec fn totals_or_none<E>(r: Result<EventTotals, E>) -> Option<EventTotals> {
    match r {
        Ok(t) => Some(t),
        Err(_) => None,
    }
}

/// Builds the totals report from four aggregation outcomes. A failure of
/// the current window is surfaced; a failure of a historical window only
/// degrades that comparison to absent.
pub fn assemble_event_totals_report<E>(
    current: Result<EventTotals, E>,
    day: Result<EventTotals, E>,
    week: Result<EventTotals, E>,
    month: Result<EventTotals, E>,
) -> (r: Result<EventTotalsReport, E>)
    ensures
        r is Ok <==> current is Ok,
        current matches Ok(c) ==> r matches Ok(rep) && rep.current == c && rep.previous_day
            == totals_or_none(day) && rep.previous_week == totals_or_none(week)
            && rep.previous_month == totals_or_none(month),
        current matches Err(e) ==> r matches Err(e2) && e2 == e,
{
    match current {
        Ok(c) => Ok(
            EventTotalsReport {
                current: c,
                previous_day: match day {
                    Ok(t) => Some(t),
                    Err(_) => None,
                },
                previous_week: match week {
                    Ok(t) => Some(t),
                    Err(_) => None,
                },
                previous_month: match month {
                    Ok(t) => Some(t),
                    Err(_) => None,
                },
            },
        ),
        Err(e) => Err(e),
    }
}

/// Aggregates the requested window and its three shifted counterparts
/// over the store. Against the in-memory store aggregation is total, so
/// every historical comparison is present.
pub fn load_event_totals_report(store: &EventStore, start: i64, end: i64) -> (r: EventTotalsReport)
    requires
        i64::MIN + SECS_PER_30_DAYS <= start,
        i64::MIN + SECS_PER_30_DAYS <= end,
    ensures
        r.current == spec_totals(store@, start, end),
        r.previous_day == Some(
            spec_totals(store@, (start - SECS_PER_DAY) as i64, (end - SECS_PER_DAY) as i64),
        ),
        r.previous_week == Some(
            spec_totals(store@, (start - SECS_PER_WEEK) as i64, (end - SECS_PER_WEEK) as i64),
        ),
        r.previous_month == Some(
            spec_totals(
                store@,
                (start - SECS_PER_30_DAYS) as i64,
                (end - SECS_PER_30_DAYS) as i64,
            ),
        ),
{
    let w = windows_for(start, end);
    EventTotalsReport {
        current: store.aggregate_totals(w.current.start, w.current.end),
        previous_day: Some(store.aggregate_totals(w.day.start, w.day.end)),
        previous_week: Some(store.aggregate_totals(w.week.start, w.week.end)),
        previous_month: Some(store.aggregate_totals(w.month.start, w.month.end)),
    }
}

/// Assembles the full report for `[start, end]`: the totals report, the
/// raw event rows of the requested window, and the storage trends of the
/// configured mounts.
pub fn build_report(
    store: &EventStore,
    history: &StorageHistory,
    mounts: &Vec<StorageConfig>,
    start: i64,
    end: i64,
) -> (r: GenerateReport)
    requires
        i64::MIN + SECS_PER_30_DAYS <= start,
        i64::MIN + SECS_PER_30_DAYS <= end,
        history.wf(),
    ensures
        r.event_totals.current == spec_totals(store@, start, end),
        r.event_totals.previous_day == Some(
            spec_totals(store@, (start - SECS_PER_DAY) as i64, (end - SECS_PER_DAY) as i64),
        ),
        r.event_totals.previous_week == Some(
            spec_totals(store@, (start - SECS_PER_WEEK) as i64, (end - SECS_PER_WEEK) as i64),
        ),
        r.event_totals.previous_month == Some(
            spec_totals(
                store@,
                (start - SECS_PER_30_DAYS) as i64,
                (end - SECS_PER_30_DAYS) as i64,
            ),
        ),
        r.snapshot_summaries@ == filter_window(store@, start, end),
        r.storage_statistics@ == trends_of(history@, mounts@),
{
    GenerateReport {
        event_totals: load_event_totals_report(store, start, end),
        snapshot_summaries: store.query_events(start, end),
        storage_statistics: history.storage_trends(mounts),
    }
}

} // verus!
