//! Backup-job events and their aggregation.
//!
//! An `EventStore` is an append-only collection of events, each optionally
//! carrying detailed run statistics. `aggregate_totals` computes the fixed
//! set of summary counters over one `[start, end]` window (inclusive both
//! ends): a row count, four outcome counts classified by case-insensitive
//! substring match on the event kind, and saturating sums of every numeric
//! statistic. Events without linked statistics count toward the row count
//! and contribute zero to every sum (left-outer-join semantics).

use vstd::prelude::*;

use crate::text::{contains_ci, contains_ci_str};
use crate::util::{clone_opt_string, sat_add, sat_add_u64};

verus! {

/// Detailed run statistics optionally linked to one event.
#[derive(Debug)]
pub struct SnapshotStats {
    pub message_type: String,
    pub error: Option<String>,
    pub during: String,
    pub item: String,
    pub files_new: u64,
    pub files_changed: u64,
    pub files_unmodified: u64,
    pub dirs_new: u64,
    pub dirs_changed: u64,
    pub dirs_unmodified: u64,
    pub data_blobs: u64,
    pub tree_blobs: u64,
    pub data_added: u64,
    pub total_files_processed: u64,
    pub total_bytes_processed: u64,
    /// Whole seconds of run duration.
    pub total_duration: u64,
    pub snapshot_id: String,
    pub percent_done: u64,
    pub total_files: u64,
    pub files_done: u64,
    pub total_bytes: u64,
    pub bytes_done: u64,
    pub current_files: Option<u64>,
}

/// One incoming backup-job occurrence, before the store assigns identity.
#[derive(Debug)]
pub struct SummaryPayload {
    pub task: String,
    /// Job-reported instant, UTC epoch seconds. Window membership for
    /// reporting is decided by this field, not by `created_at`.
    pub time: i64,
    /// Free-text event kind, classified by case-insensitive substring.
    pub event: String,
    pub repo: String,
    pub plan: String,
    pub snapshot: String,
    pub error: Option<String>,
    pub snapshot_stats: Option<SnapshotStats>,
}

/// One stored event: a payload plus store-assigned identity and the
/// server-assigned creation instant.
#[derive(Debug)]
pub struct EventRecord {
    pub id: u64,
    /// Server-assigned creation instant, UTC epoch seconds.
    pub created_at: i64,
    pub task: String,
    /// Job-reported instant, UTC epoch seconds.
    pub time: i64,
    pub event: String,
    pub repo: String,
    pub plan: String,
    pub snapshot: String,
    pub error: Option<String>,
    pub stats: Option<SnapshotStats>,
}

/// Aggregate counters over one time range.
#[derive(Clone, Copy, Debug, PartialEq, Eq, Structural)]
pub struct EventTotals {
    pub start_date: i64,
    pub end_date: i64,
    pub total_events: u64,
    pub total_snapshot_success: u64,
    pub total_snapshot_error: u64,
    pub total_forget_success: u64,
    pub total_forget_error: u64,
    pub total_files_new: u64,
    pub total_files_changed: u64,
    pub total_files_unmodified: u64,
    pub total_dirs_new: u64,
    pub total_dirs_changed: u64,
    pub total_dirs_unmodified: u64,
    pub total_data_blobs: u64,
    pub total_tree_blobs: u64,
    pub total_data_added: u64,
    pub total_files_processed: u64,
    pub total_bytes_processed: u64,
    pub total_duration: u64,
}

impl Clone for SnapshotStats {
    fn clone(&self) -> (r: Self)
        ensures
            r == *self,
    {
        SnapshotStats {
            message_type: self.message_type.clone(),
            error: clone_opt_string(&self.error),
            during: self.during.clone(),
            item: self.item.clone(),
            files_new: self.files_new,
            files_changed: self.files_changed,
            files_unmodified: self.files_unmodified,
            dirs_new: self.dirs_new,
            dirs_changed: self.dirs_changed,
            dirs_unmodified: self.dirs_unmodified,
            data_blobs: self.data_blobs,
            tree_blobs: self.tree_blobs,
            data_added: self.data_added,
            total_files_processed: self.total_files_processed,
            total_bytes_processed: self.total_bytes_processed,
            total_duration: self.total_duration,
            snapshot_id: self.snapshot_id.clone(),
            percent_done: self.percent_done,
            total_files: self.total_files,
            files_done: self.files_done,
            total_bytes: self.total_bytes,
            bytes_done: self.bytes_done,
            current_files: self.current_files,
        }
    }
}

impl Clone for EventRecord {
    fn clone(&self) -> (r: Self)
        ensures
            r == *self,
    {
        EventRecord {
            id: self.id,
            created_at: self.created_at,
            task: self.task.clone(),
            time: self.time,
            event: self.event.clone(),
            repo: self.repo.clone(),
            plan: self.plan.clone(),
            snapshot: self.snapshot.clone(),
            error: clone_opt_string(&self.error),
            stats: match &self.stats {
                Some(st) => Some(st.clone()),
                None => None,
            },
        }
    }
}

/// The event's job-reported instant lies in `[start, end]`, both ends
/// inclusive.
pub open spec fn in_window(e: EventRecord, start: int, end: int) -> bool {
    start <= e.time && e.time <= end
}

/// All-zero totals for a range: what an empty window aggregates to.
pub open spec fn zero_totals(start: i64, end: i64) -> EventTotals {
    EventTotals {
        start_date: start,
        end_date: end,
        total_events: 0,
        total_snapshot_success: 0,
        total_snapshot_error: 0,
        total_forget_success: 0,
        total_forget_error: 0,
        total_files_new: 0,
        total_files_changed: 0,
        total_files_unmodified: 0,
        total_dirs_new: 0,
        total_dirs_changed: 0,
        total_dirs_unmodified: 0,
        total_data_blobs: 0,
        total_tree_blobs: 0,
        total_data_added: 0,
        total_files_processed: 0,
        total_bytes_processed: 0,
        total_duration: 0,
    }
}

/// 1 when the event kind contains the pattern ignoring ASCII case, else 0.
pub open spec fn kind_count(e: EventRecord, pat: Seq<char>) -> u64 {
    if contains_ci(e.event@, pat) {
        1
    } else {
        0
    }
}

/// One in-window event folded into running totals: the row count and the
/// matching outcome counts rise by one; each numeric sum grows by the
/// event's statistic, or by zero when no statistics are linked. All
/// additions saturate at `u64::MAX`.
pub open spec fn add_event(t: EventTotals, e: EventRecord) -> EventTotals {
    EventTotals {
        start_date: t.start_date,
        end_date: t.end_date,
        total_events: sat_add(t.total_events, 1),
        total_snapshot_success: sat_add(
            t.total_snapshot_success,
            kind_count(e, "snapshot success"@),
        ),
        total_snapshot_error: sat_add(t.total_snapshot_error, kind_count(e, "snapshot error"@)),
        total_forget_success: sat_add(t.total_forget_success, kind_count(e, "forget success"@)),
        total_forget_error: sat_add(t.total_forget_error, kind_count(e, "forget error"@)),
        total_files_new: sat_add(
            t.total_files_new,
            match e.stats {
                Some(st) => st.files_new,
                None => 0,
            },
        ),
        total_files_changed: sat_add(
            t.total_files_changed,
            match e.stats {
                Some(st) => st.files_changed,
                None => 0,
            },
        ),
        total_files_unmodified: sat_add(
            t.total_files_unmodified,
            match e.stats {
                Some(st) => st.files_unmodified,
                None => 0,
            },
        ),
        total_dirs_new: sat_add(
            t.total_dirs_new,
            match e.stats {
                Some(st) => st.dirs_new,
                None => 0,
            },
        ),
        total_dirs_changed: sat_add(
            t.total_dirs_changed,
            match e.stats {
                Some(st) => st.dirs_changed,
                None => 0,
            },
        ),
        total_dirs_unmodified: sat_add(
            t.total_dirs_unmodified,
            match e.stats {
                Some(st) => st.dirs_unmodified,
                None => 0,
            },
        ),
        total_data_blobs: sat_add(
            t.total_data_blobs,
            match e.stats {
                Some(st) => st.data_blobs,
                None => 0,
            },
        ),
        total_tree_blobs: sat_add(
            t.total_tree_blobs,
            match e.stats {
                Some(st) => st.tree_blobs,
                None => 0,
            },
        ),
        total_data_added: sat_add(
            t.total_data_added,
            match e.stats {
                Some(st) => st.data_added,
                None => 0,
            },
        ),
        total_files_processed: sat_add(
            t.total_files_processed,
            match e.stats {
                Some(st) => st.total_files_processed,
                None => 0,
            },
        ),
        total_bytes_processed: sat_add(
            t.total_bytes_processed,
            match e.stats {
                Some(st) => st.total_bytes_processed,
                None => 0,
            },
        ),
        total_duration: sat_add(
            t.total_duration,
            match e.stats {
                Some(st) => st.total_duration,
                None => 0,
            },
        ),
    }
}

/// The totals over every event of `s` whose job-reported instant lies in
/// `[start, end]`.
pub open spec fn spec_totals(s: Seq<EventRecord>, start: i64, end: i64) -> EventTotals
    decreases s.len(),
{
    if s.len() == 0 {
        zero_totals(start, end)
    } else {
        let prev = spec_totals(s.drop_last(), start, end);
        if in_window(s.last(), start as int, end as int) {
            add_event(prev, s.last())
        } else {
            prev
        }
    }
}

/// The subsequence of `s`, order kept, whose job-reported instants lie in
/// `[start, end]`.
pub open spec fn filter_window(s: Seq<EventRecord>, start: i64, end: i64) -> Seq<EventRecord>
    decreases s.len(),
{
    if s.len() == 0 {
        Seq::empty()
    } else {
        let prev = filter_window(s.drop_last(), start, end);
        if in_window(s.last(), start as int, end as int) {
            prev.push(s.last())
        } else {
            prev
        }
    }
}

/// The record the store builds from a payload, an assigned identity and
/// the server-assigned creation instant.
pub open spec fn record_of(p: SummaryPayload, id: u64, created_at: i64) -> EventRecord {
    EventRecord {
        id,
        created_at,
        task: p.task,
        time: p.time,
        event: p.event,
        repo: p.repo,
        plan: p.plan,
        snapshot: p.snapshot,
        error: p.error,
        stats: p.snapshot_stats,
    }
}

/// Append-only store of backup-job events.
pub struct EventStore {
    events: Vec<EventRecord>,
}

impl View for EventStore {
    type V = Seq<EventRecord>;

    closed spec fn view(&self) -> Seq<EventRecord> {
        self.events@
    }
}

impl EventStore {
    /// An empty store.
    pub fn new() -> (s: EventStore)
        ensures
            s@ == Seq::<EventRecord>::empty(),
    {
        EventStore { events: Vec::new() }
    }

    /// How many events the store holds.
    pub fn len(&self) -> (n: usize)
        ensures
            n == self@.len(),
    {
        self.events.len()
    }

    /// Appends one event, assigning the next identity (one-based) and
    /// stamping the given creation instant. Returns the assigned identity.
    pub fn insert_event(&mut self, payload: SummaryPayload, created_at: i64) -> (id: u64)
        requires
            old(self)@.len() < u64::MAX,
        ensures
            id == old(self)@.len() + 1,
            final(self)@ == old(self)@.push(record_of(payload, id, created_at)),
    {
        let id = self.events.len() as u64 + 1;
        let record = EventRecord {
            id,
            created_at,
            task: payload.task,
            time: payload.time,
            event: payload.event,
            repo: payload.repo,
            plan: payload.plan,
            snapshot: payload.snapshot,
            error: payload.error,
            stats: payload.snapshot_stats,
        };
        self.events.push(record);
        id
    }

    /// All events with job-reported instant in `[start, end]`, both ends
    /// inclusive, in insertion order. An inverted range yields an empty
    /// result, not an error.
    pub fn query_events(&self, start: i64, end: i64) -> (r: Vec<EventRecord>)
        ensures
            r@ == filter_window(self@, start, end),
    {
        let mut out: Vec<EventRecord> = Vec::new();
        let mut i: usize = 0;
        proof {
            assert(self@.take(0) =~= Seq::<EventRecord>::empty());
        }
        while i < self.events.len()
            invariant
                i <= self@.len(),
                self@.len() == self.events@.len(),
                out@ == filter_window(self@.take(i as int), start, end),
            decreases self@.len() - i,
        {
            let e = &self.events[i];
            if start <= e.time && e.time <= end {
                out.push(e.clone());
            }
            proof {
                assert(self@.take(i + 1).drop_last() =~= self@.take(i as int));
                assert(self@.take(i + 1).last() == self@[i as int]);
            }
            i = i + 1;
        }
        proof {
            assert(self@.take(self@.len() as int) =~= self@);
        }
        out
    }

    /// The summary counters over `[start, end]`, both ends inclusive.
    /// Total on every input: an empty or inverted window yields all-zero
    /// totals, never an error.
    pub fn aggregate_totals(&self, start: i64, end: i64) -> (t: EventTotals)
        ensures
            t == spec_totals(self@, start, end),
    {
        let mut acc = EventTotals {
            start_date: start,
            end_date: end,
            total_events: 0,
            total_snapshot_success: 0,
            total_snapshot_error: 0,
            total_forget_success: 0,
            total_forget_error: 0,
            total_files_new: 0,
            total_files_changed: 0,
            total_files_unmodified: 0,
            total_dirs_new: 0,
            total_dirs_changed: 0,
            total_dirs_unmodified: 0,
            total_data_blobs: 0,
            total_tree_blobs: 0,
            total_data_added: 0,
            total_files_processed: 0,
            total_bytes_processed: 0,
            total_duration: 0,
        };
        let mut i: usize = 0;
        proof {
            assert(self@.take(0) =~= Seq::<EventRecord>::empty());
        }
        while i < self.events.len()
            invariant
                i <= self@.len(),
                self@.len() == self.events@.len(),
                acc == spec_totals(self@.take(i as int), start, end),
            decreases self@.len() - i,
        {
            let e = &self.events[i];
            if start <= e.time && e.time <= end {
                let snap_success = if contains_ci_str(e.event.as_str(), "snapshot success") {
                    1u64
                } else {
                    0u64
                };
                let snap_error = if contains_ci_str(e.event.as_str(), "snapshot error") {
                    1u64
                } else {
                    0u64
                };
                let forget_success = if contains_ci_str(e.event.as_str(), "forget success") {
                    1u64
                } else {
                    0u64
                };
                let forget_error = if contains_ci_str(e.event.as_str(), "forget error") {
                    1u64
                } else {
                    0u64
                };
                let mut files_new: u64 = 0;
                let mut files_changed: u64 = 0;
                let mut files_unmodified: u64 = 0;
                let mut dirs_new: u64 = 0;
                let mut dirs_changed: u64 = 0;
                let mut dirs_unmodified: u64 = 0;
                let mut data_blobs: u64 = 0;
                let mut tree_blobs: u64 = 0;
                let mut data_added: u64 = 0;
                let mut total_files_processed: u64 = 0;
                let mut total_bytes_processed: u64 = 0;
                let mut total_duration: u64 = 0;
                match &e.stats {
                    Some(st) => {
                        files_new = st.files_new;
                        files_changed = st.files_changed;
                        files_unmodified = st.files_unmodified;
                        dirs_new = st.dirs_new;
                        dirs_changed = st.dirs_changed;
                        dirs_unmodified = st.dirs_unmodified;
                        data_blobs = st.data_blobs;
                        tree_blobs = st.tree_blobs;
                        data_added = st.data_added;
                        total_files_processed = st.total_files_processed;
                        total_bytes_processed = st.total_bytes_processed;
                        total_duration = st.total_duration;
                    },
                    None => {},
                }
                acc = EventTotals {
                    start_date: acc.start_date,
                    end_date: acc.end_date,
                    total_events: sat_add_u64(acc.total_events, 1),
                    total_snapshot_success: sat_add_u64(acc.total_snapshot_success, snap_success),
                    total_snapshot_error: sat_add_u64(acc.total_snapshot_error, snap_error),
                    total_forget_success: sat_add_u64(acc.total_forget_success, forget_success),
                    total_forget_error: sat_add_u64(acc.total_forget_error, forget_error),
                    total_files_new: sat_add_u64(acc.total_files_new, files_new),
                    total_files_changed: sat_add_u64(acc.total_files_changed, files_changed),
                    total_files_unmodified: sat_add_u64(
                        acc.total_files_unmodified,
                        files_unmodified,
                    ),
                    total_dirs_new: sat_add_u64(acc.total_dirs_new, dirs_new),
                    total_dirs_changed: sat_add_u64(acc.total_dirs_changed, dirs_changed),
                    total_dirs_unmodified: sat_add_u64(acc.total_dirs_unmodified, dirs_unmodified),
                    total_data_blobs: sat_add_u64(acc.total_data_blobs, data_blobs),
                    total_tree_blobs: sat_add_u64(acc.total_tree_blobs, tree_blobs),
                    total_data_added: sat_add_u64(acc.total_data_added, data_added),
                    total_files_processed: sat_add_u64(
                        acc.total_files_processed,
                        total_files_processed,
                    ),
                    total_bytes_processed: sat_add_u64(
                        acc.total_bytes_processed,
                        total_bytes_processed,
                    ),
                    total_duration: sat_add_u64(acc.total_duration, total_duration),
                };
            }
            proof {
                assert(self@.take(i + 1).drop_last() =~= self@.take(i as int));
                assert(self@.take(i + 1).last() == self@[i as int]);
            }
            i = i + 1;
        }
        proof {
            assert(self@.take(self@.len() as int) =~= self@);
        }
        acc
    }
}

/// Law: over an empty store every window aggregates to all-zero totals —
/// and `aggregate_totals` is total, so an empty store can never turn a
/// window request into an error.
pub proof fn lemma_aggregate_empty(start: i64, end: i64)
    ensures
        spec_totals(Seq::<EventRecord>::empty(), start, end) == zero_totals(start, end),
{
}

/// Law: a window holding none of the store's events aggregates to
/// all-zero totals — emptiness yields zeros, never absence or an error.
pub proof fn lemma_aggregate_empty_window(s: Seq<EventRecord>, start: i64, end: i64)
    requires
        forall|i: int| 0 <= i < s.len() ==> !in_window(#[trigger] s[i], start as int, end as int),
    ensures
        spec_totals(s, start, end) == zero_totals(start, end),
    decreases s.len(),
{
    if s.len() > 0 {
        assert(s.last() == s[s.len() - 1]);
        lemma_aggregate_empty_window(s.drop_last(), start, end);
    }
}

/// Law: an inverted window (`start > end`) selects no events, so it
/// aggregates to all-zero totals rather than failing.
pub proof fn lemma_aggregate_inverted(s: Seq<EventRecord>, start: i64, end: i64)
    requires
        start > end,
    ensures
        spec_totals(s, start, end) == zero_totals(start, end),
{
    lemma_aggregate_empty_window(s, start, end);
}

/// Law: the aggregate's `total_events` is the row count — the number of
/// events `query_events` returns for the same window (clamped only at
/// `u64::MAX`, far beyond any store a machine can hold).
pub proof fn lemma_total_events_is_row_count(s: Seq<EventRecord>, start: i64, end: i64)
    ensures
        spec_totals(s, start, end).total_events == (if filter_window(s, start, end).len()
            > u64::MAX {
            u64::MAX
        } else {
            filter_window(s, start, end).len() as u64
        }),
    decreases s.len(),
{
    if s.len() > 0 {
        lemma_total_events_is_row_count(s.drop_last(), start, end);
    }
}

/// Law: an in-window event with no linked statistics contributes exactly
/// one to `total_events` and zero to every numeric sum (left-outer-join
/// semantics); an out-of-window event contributes nothing.
pub proof fn lemma_event_without_stats(s: Seq<EventRecord>, e: EventRecord, start: i64, end: i64)
    requires
        e.stats is None,
    ensures
        in_window(e, start as int, end as int) ==> {
            let t0 = spec_totals(s, start, end);
            let t1 = spec_totals(s.push(e), start, end);
            &&& t1.total_events == sat_add(t0.total_events, 1)
            &&& t1.total_files_new == t0.total_files_new
            &&& t1.total_files_changed == t0.total_files_changed
            &&& t1.total_files_unmodified == t0.total_files_unmodified
            &&& t1.total_dirs_new == t0.total_dirs_new
            &&& t1.total_dirs_changed == t0.total_dirs_changed
            &&& t1.total_dirs_unmodified == t0.total_dirs_unmodified
            &&& t1.total_data_blobs == t0.total_data_blobs
            &&& t1.total_tree_blobs == t0.total_tree_blobs
            &&& t1.total_data_added == t0.total_data_added
            &&& t1.total_files_processed == t0.total_files_processed
            &&& t1.total_bytes_processed == t0.total_bytes_processed
            &&& t1.total_duration == t0.total_duration
        },
        !in_window(e, start as int, end as int) ==> spec_totals(s.push(e), start, end)
            == spec_totals(s, start, end),
{
    assert(s.push(e).drop_last() =~= s);
    assert(s.push(e).last() == e);
}

} // verus!
