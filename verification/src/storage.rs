//! Storage snapshots, "as-of" point lookups and trend resolution.
//!
//! A `StorageHistory` is an append-only time series of per-mount
//! used/total byte snapshots. `snapshot_as_of` answers the as-of query:
//! the most recent snapshot for a mount at or before a cutoff instant
//! (inclusive boundary). `storage_trends` combines, per configured mount,
//! the latest snapshot with three as-of lookups whose cutoffs are anchored
//! to that snapshot's own instant minus one day, one week and thirty days.
//!
//! Percentages are carried as integer hundredths of a percent, so a
//! zero-total snapshot yields a percent of zero, never a division fault.

use vstd::prelude::*;

use crate::text::str_eq;
use crate::util::{clone_opt_string, sat_sub, sat_sub_u64};
use crate::window::{SECS_PER_30_DAYS, SECS_PER_DAY, SECS_PER_WEEK};

verus! {

/// One configured storage mount to track.
#[derive(Debug)]
pub struct StorageConfig {
    pub path: String,
    pub nickname: Option<String>,
}

impl Clone for StorageConfig {
    fn clone(&self) -> (r: Self)
        ensures
            r == *self,
    {
        StorageConfig { path: self.path.clone(), nickname: clone_opt_string(&self.nickname) }
    }
}

/// One stored point-in-time measurement of one mount.
#[derive(Debug)]
pub struct StorageRow {
    pub location: String,
    pub nickname: Option<String>,
    pub used_bytes: u64,
    pub total_bytes: u64,
    /// Measurement instant, UTC epoch seconds; never negative.
    pub time_added: i64,
}

impl Clone for StorageRow {
    fn clone(&self) -> (r: Self)
        ensures
            r == *self,
    {
        StorageRow {
            location: self.location.clone(),
            nickname: clone_opt_string(&self.nickname),
            used_bytes: self.used_bytes,
            total_bytes: self.total_bytes,
            time_added: self.time_added,
        }
    }
}

/// The values inserted for one mount by a refresh call.
#[derive(Debug)]
pub struct StorageReport {
    pub location: String,
    pub nickname: Option<String>,
    pub used_bytes: u64,
    pub total_bytes: u64,
}

impl Clone for StorageReport {
    fn clone(&self) -> (r: Self)
        ensures
            r == *self,
    {
        StorageReport {
            location: self.location.clone(),
            nickname: clone_opt_string(&self.nickname),
            used_bytes: self.used_bytes,
            total_bytes: self.total_bytes,
        }
    }
}

/// A raw filesystem measurement of one mount.
#[derive(Clone, Copy, Debug, PartialEq, Eq, Structural)]
pub struct Measurement {
    pub total_bytes: u64,
    pub free_bytes: u64,
}

/// One mount's refresh input: the configured path and nickname, and the
/// measurement, absent when the filesystem stat failed.
#[derive(Debug)]
pub struct MountReading {
    pub path: String,
    pub nickname: Option<String>,
    pub measured: Option<Measurement>,
}

/// Errors of the storage history.
#[derive(Clone, Copy, Debug, PartialEq, Eq, Structural)]
pub enum StoreError {
    /// A mount's filesystem measurement failed; the refresh call aborts.
    MeasurementFailed,
}

/// Derived view of one snapshot: used, free (saturating), total bytes,
/// percent used in hundredths of a percent, and the snapshot's own
/// measurement instant.
#[derive(Clone, Copy, Debug, PartialEq, Eq, Structural)]
pub struct PeriodStats {
    pub used_bytes: u64,
    pub free_bytes: u64,
    pub total_bytes: u64,
    /// Percent used scaled by 100 (two implied decimals, truncated);
    /// zero when `total_bytes` is zero.
    pub percent_used_hundredths: u64,
    pub time_added: i64,
}

/// Per-mount trend: the latest snapshot plus up to three historical
/// comparison points, each absent when no prior snapshot exists.
#[derive(Debug)]
pub struct CurrentStorageStats {
    pub location: String,
    pub nickname: Option<String>,
    pub current: PeriodStats,
    pub previous_day: Option<PeriodStats>,
    pub previous_week: Option<PeriodStats>,
    pub previous_month: Option<PeriodStats>,
}

impl CurrentStorageStats {
    /// The name shown for the mount: the resolved nickname when present
    /// and non-empty, else the raw mount path.
    pub fn display_name(&self) -> (r: String)
        ensures
            r@ == (match self.nickname {
                Some(n) => if n@.len() > 0 {
                    n@
                } else {
                    self.location@
                },
                None => self.location@,
            }),
    {
        match &self.nickname {
            Some(n) => {
                if n.as_str().is_empty() {
                    self.location.clone()
                } else {
                    n.clone()
                }
            },
            None => self.location.clone(),
        }
    }
}

/// `used / total` as hundredths of a percent, truncated; zero when the
/// total is zero, clamped to `u64::MAX`.
pub open spec fn percent_hundredths(used: u64, total: u64) -> u64 {
    if total == 0 {
        0
    } else {
        let p = (used as int) * 10000 / (total as int);
        if p > u64::MAX {
            u64::MAX
        } else {
            p as u64
        }
    }
}

/// Computes `percent_hundredths`; total on every input, in particular
/// `used = 0, total = 0` yields `0`.
pub fn percent_used_of(used: u64, total: u64) -> (r: u64)
    ensures
        r == percent_hundredths(used, total),
{
    if total == 0 {
        0
    } else {
        let wide: u128 = (used as u128) * 10000;
        let p: u128 = wide / (total as u128);
        if p > u64::MAX as u128 {
            u64::MAX
        } else {
            p as u64
        }
    }
}

/// The derived view of one snapshot row.
pub open spec fn period_of(r: StorageRow) -> PeriodStats {
    PeriodStats {
        used_bytes: r.used_bytes,
        free_bytes: sat_sub(r.total_bytes, r.used_bytes),
        total_bytes: r.total_bytes,
        percent_used_hundredths: percent_hundredths(r.used_bytes, r.total_bytes),
        time_added: r.time_added,
    }
}

/// Computes the derived view of one snapshot row. Free bytes saturate at
/// zero, so `used > total` never underflows.
pub fn period_stats_of(r: &StorageRow) -> (p: PeriodStats)
    ensures
        p == period_of(*r),
{
    PeriodStats {
        used_bytes: r.used_bytes,
        free_bytes: sat_sub_u64(r.total_bytes, r.used_bytes),
        total_bytes: r.total_bytes,
        percent_used_hundredths: percent_used_of(r.used_bytes, r.total_bytes),
        time_added: r.time_added,
    }
}

/// The row belongs to the mount and is at or before the cutoff.
pub open spec fn row_matches(r: StorageRow, path: Seq<char>, cutoff: int) -> bool {
    r.location@ == path && r.time_added <= cutoff
}

/// Index of the as-of result in `s` for `path` and `cutoff`: the matching
/// row with the greatest instant, the latest-inserted one among equal
/// instants; `-1` when no row matches.
pub open spec fn as_of_idx(s: Seq<StorageRow>, path: Seq<char>, cutoff: int) -> int
    decreases s.len(),
{
    if s.len() == 0 {
        -1
    } else {
        let rest = as_of_idx(s.drop_last(), path, cutoff);
        if row_matches(s.last(), path, cutoff) && (rest < 0 || s[rest].time_added
            <= s.last().time_added) {
            s.len() - 1
        } else {
            rest
        }
    }
}

/// Law of the as-of query: the result is absent exactly when every
/// snapshot for the mount is strictly after the cutoff (or none exists);
/// otherwise it is a matching row whose instant is the greatest instant
/// at or before the cutoff — the boundary is inclusive — and, among rows
/// sharing that instant, the latest inserted.
pub proof fn lemma_as_of_characterization(s: Seq<StorageRow>, path: Seq<char>, cutoff: int)
    ensures
        as_of_idx(s, path, cutoff) < 0 ==> forall|j: int|
            0 <= j < s.len() ==> !row_matches(#[trigger] s[j], path, cutoff),
        as_of_idx(s, path, cutoff) >= 0 ==> {
            let i = as_of_idx(s, path, cutoff);
            &&& 0 <= i < s.len()
            &&& row_matches(s[i], path, cutoff)
            &&& forall|j: int|
                0 <= j < s.len() && row_matches(#[trigger] s[j], path, cutoff) ==> s[j].time_added
                    <= s[i].time_added
            &&& forall|j: int|
                i < j < s.len() && row_matches(#[trigger] s[j], path, cutoff) ==> s[j].time_added
                    < s[i].time_added
        },
    decreases s.len(),
{
    if s.len() > 0 {
        lemma_as_of_characterization(s.drop_last(), path, cutoff);
        assert(forall|j: int| 0 <= j < s.len() - 1 ==> s.drop_last()[j] == #[trigger] s[j]);
        assert(s.last() == s[s.len() - 1]);
    }
}

/// Append-only history of storage snapshots.
pub struct StorageHistory {
    rows: Vec<StorageRow>,
}

impl View for StorageHistory {
    type V = Seq<StorageRow>;

    closed spec fn view(&self) -> Seq<StorageRow> {
        self.rows@
    }
}

/// Every stored instant is non-negative.
pub open spec fn rows_wf(s: Seq<StorageRow>) -> bool {
    forall|i: int| 0 <= i < s.len() ==> (#[trigger] s[i]).time_added >= 0
}

impl StorageHistory {
    /// An empty history.
    pub fn new() -> (h: StorageHistory)
        ensures
            h@ == Seq::<StorageRow>::empty(),
            h.wf(),
    {
        StorageHistory { rows: Vec::new() }
    }

    /// Well-formedness: all measurement instants are non-negative, which
    /// keeps the historical cutoff arithmetic inside `i64`.
    pub open spec fn wf(&self) -> bool {
        rows_wf(self@)
    }

    /// How many snapshots the history holds.
    pub fn len(&self) -> (n: usize)
        ensures
            n == self@.len(),
    {
        self.rows.len()
    }

    /// Appends one snapshot at the given measurement instant.
    pub fn insert_snapshot(
        &mut self,
        path: String,
        nickname: Option<String>,
        used_bytes: u64,
        total_bytes: u64,
        time_added: i64,
    )
        requires
            old(self).wf(),
            time_added >= 0,
        ensures
            final(self).wf(),
            final(self)@ == old(self)@.push(
                (StorageRow { location: path, nickname, used_bytes, total_bytes, time_added }),
            ),
    {
        self.rows.push(StorageRow { location: path, nickname, used_bytes, total_bytes, time_added });
    }

    /// The most recent snapshot for `path` at or before `cutoff`
    /// (inclusive), or `None` when every snapshot for the mount is
    /// strictly after the cutoff or none exists.
    pub fn snapshot_as_of(&self, path: &str, cutoff: i64) -> (r: Option<StorageRow>)
        ensures
            ({
                let i = as_of_idx(self@, path@, cutoff as int);
                match r {
                    None => i < 0,
                    Some(row) => 0 <= i < self@.len() && row == self@[i],
                }
            }),
    {
        let mut best: Option<usize> = None;
        let mut k: usize = 0;
        proof {
            assert(self@.take(0) =~= Seq::<StorageRow>::empty());
        }
        while k < self.rows.len()
            invariant
                k <= self@.len(),
                self@.len() == self.rows@.len(),
                match best {
                    None => as_of_idx(self@.take(k as int), path@, cutoff as int) < 0,
                    Some(b) => b < k && as_of_idx(self@.take(k as int), path@, cutoff as int)
                        == b as int,
                },
            decreases self@.len() - k,
        {
            let row = &self.rows[k];
            let matches = str_eq(row.location.as_str(), path) && row.time_added <= cutoff;
            if matches {
                let better = match best {
                    None => true,
                    Some(b) => self.rows[b].time_added <= row.time_added,
                };
                if better {
                    best = Some(k);
                }
            }
            proof {
                assert(self@.take(k + 1).drop_last() =~= self@.take(k as int));
                assert(self@.take(k + 1).last() == self@[k as int]);
            }
            k = k + 1;
        }
        proof {
            assert(self@.take(self@.len() as int) =~= self@);
        }
        match best {
            Some(b) => Some(self.rows[b].clone()),
            None => None,
        }
    }

    /// The single most recent snapshot for `path`, or `None` when the
    /// mount has no history.
    pub fn latest_snapshot(&self, path: &str) -> (r: Option<StorageRow>)
        ensures
            ({
                let i = as_of_idx(self@, path@, i64::MAX as int);
                match r {
                    None => i < 0,
                    Some(row) => 0 <= i < self@.len() && row == self@[i],
                }
            }),
    {
        self.snapshot_as_of(path, i64::MAX)
    }
}

/// The as-of result as a derived period view, absent when no row matches.
pub open spec fn prior_period(s: Seq<StorageRow>, path: Seq<char>, cutoff: int) -> Option<
    PeriodStats,
> {
    let i = as_of_idx(s, path, cutoff);
    if i < 0 {
        None
    } else {
        Some(period_of(s[i]))
    }
}

/// The trend for one configured mount, absent when the mount has no
/// history. The three historical cutoffs are anchored to the latest
/// snapshot's own instant, not to the request window or wall clock. The
/// nickname is the configured one when set, else the one recorded on the
/// latest row.
pub open spec fn trend_for(s: Seq<StorageRow>, m: StorageConfig) -> Option<CurrentStorageStats> {
    let li = as_of_idx(s, m.path@, i64::MAX as int);
    if li < 0 {
        None
    } else {
        let cur = s[li];
        Some(
            CurrentStorageStats {
                location: m.path,
                nickname: if m.nickname is Some {
                    m.nickname
                } else {
                    cur.nickname
                },
                current: period_of(cur),
                previous_day: prior_period(s, m.path@, cur.time_added - SECS_PER_DAY),
                previous_week: prior_period(s, m.path@, cur.time_added - SECS_PER_WEEK),
                previous_month: prior_period(s, m.path@, cur.time_added - SECS_PER_30_DAYS),
            },
        )
    }
}

/// The trends of all configured mounts, in configuration order; mounts
/// without history are omitted, not an error.
pub open spec fn trends_of(s: Seq<StorageRow>, mounts: Seq<StorageConfig>) -> Seq<
    CurrentStorageStats,
>
    decreases mounts.len(),
{
    if mounts.len() == 0 {
        Seq::empty()
    } else {
        let rest = trends_of(s, mounts.drop_last());
        match trend_for(s, mounts.last()) {
            Some(t) => rest.push(t),
            None => rest,
        }
    }
}

impl StorageHistory {
    /// Resolves the current + day/week/month-ago comparison points for
    /// every configured mount that has history.
    pub fn storage_trends(&self, mounts: &Vec<StorageConfig>) -> (r: Vec<CurrentStorageStats>)
        requires
            self.wf(),
        ensures
            r@ == trends_of(self@, mounts@),
    {
        let mut out: Vec<CurrentStorageStats> = Vec::new();
        let mut i: usize = 0;
        proof {
            assert(mounts@.take(0) =~= Seq::<StorageConfig>::empty());
        }
        while i < mounts.len()
            invariant
                self.wf(),
                i <= mounts@.len(),
                out@ == trends_of(self@, mounts@.take(i as int)),
            decreases mounts@.len() - i,
        {
            let mount = &mounts[i];
            match self.latest_snapshot(mount.path.as_str()) {
                Some(cur) => {
                    let t = cur.time_added;
                    proof {
                        let li = as_of_idx(self@, mount.path@, i64::MAX as int);
                        assert(self@[li].time_added >= 0);
                    }
                    let day = self.snapshot_as_of(mount.path.as_str(), t - SECS_PER_DAY);
                    let week = self.snapshot_as_of(mount.path.as_str(), t - SECS_PER_WEEK);
                    let month = self.snapshot_as_of(mount.path.as_str(), t - SECS_PER_30_DAYS);
                    let nickname = if mount.nickname.is_some() {
                        clone_opt_string(&mount.nickname)
                    } else {
                        clone_opt_string(&cur.nickname)
                    };
                    let stats = CurrentStorageStats {
                        location: mount.path.clone(),
                        nickname,
                        current: period_stats_of(&cur),
                        previous_day: match day {
                            Some(r) => Some(period_stats_of(&r)),
                            None => None,
                        },
                        previous_week: match week {
                            Some(r) => Some(period_stats_of(&r)),
                            None => None,
                        },
                        previous_month: match month {
                            Some(r) => Some(period_stats_of(&r)),
                            None => None,
                        },
                    };
                    out.push(stats);
                },
                None => {},
            }
            proof {
                assert(mounts@.take(i + 1).drop_last() =~= mounts@.take(i as int));
                assert(mounts@.take(i + 1).last() == mounts@[i as int]);
            }
            i = i + 1;
        }
        proof {
            assert(mounts@.take(mounts@.len() as int) =~= mounts@);
        }
        out
    }
}

/// The row a successful reading inserts: used bytes are total minus free,
/// saturating at zero. (For an absent measurement this is a placeholder
/// that no contract relies on.)
pub open spec fn row_from_reading(rd: MountReading, time_added: i64) -> StorageRow {
    match rd.measured {
        Some(m) => StorageRow {
            location: rd.path,
            nickname: rd.nickname,
            used_bytes: sat_sub(m.total_bytes, m.free_bytes),
            total_bytes: m.total_bytes,
            time_added,
        },
        None => StorageRow {
            location: rd.path,
            nickname: rd.nickname,
            used_bytes: 0,
            total_bytes: 0,
            time_added,
        },
    }
}

/// The rows a refresh inserts for a prefix of readings.
pub open spec fn rows_from(rs: Seq<MountReading>, time_added: i64) -> Seq<StorageRow> {
    Seq::new(rs.len(), |i: int| row_from_reading(rs[i], time_added))
}

/// The report returned for one successful reading.
pub open spec fn report_from_reading(rd: MountReading) -> StorageReport {
    match rd.measured {
        Some(m) => StorageReport {
            location: rd.path,
            nickname: rd.nickname,
            used_bytes: sat_sub(m.total_bytes, m.free_bytes),
            total_bytes: m.total_bytes,
        },
        None => StorageReport {
            location: rd.path,
            nickname: rd.nickname,
            used_bytes: 0,
            total_bytes: 0,
        },
    }
}

/// The reports of a refresh where every reading succeeded.
pub open spec fn reports_from(rs: Seq<MountReading>) -> Seq<StorageReport> {
    Seq::new(rs.len(), |i: int| report_from_reading(rs[i]))
}

/// Every reading carries a measurement.
pub open spec fn all_measured(rs: Seq<MountReading>) -> bool {
    forall|i: int| 0 <= i < rs.len() ==> (#[trigger] rs[i]).measured is Some
}

/// Index of the first reading without a measurement, or the length when
/// all readings carry one.
pub open spec fn first_unmeasured(rs: Seq<MountReading>) -> int
    decreases rs.len(),
{
    if rs.len() == 0 {
        0
    } else if rs.first().measured is None {
        0
    } else {
        1 + first_unmeasured(rs.drop_first())
    }
}

proof fn lemma_first_unmeasured(rs: Seq<MountReading>)
    ensures
        0 <= first_unmeasured(rs) <= rs.len(),
        first_unmeasured(rs) < rs.len() ==> rs[first_unmeasured(rs)].measured is None,
        forall|j: int| 0 <= j < first_unmeasured(rs) ==> (#[trigger] rs[j]).measured is Some,
        first_unmeasured(rs) == rs.len() <==> all_measured(rs),
    decreases rs.len(),
{
    if rs.len() > 0 {
        lemma_first_unmeasured(rs.drop_first());
        assert(rs.first() == rs[0]);
        if rs.first().measured is None {
            assert(!all_measured(rs)) by {
                assert(rs[0].measured is None);
            }
        } else {
            let fu = first_unmeasured(rs);
            assert(fu == 1 + first_unmeasured(rs.drop_first()));
            assert forall|j: int| 0 <= j < fu implies (#[trigger] rs[j]).measured is Some by {
                if j > 0 {
                    assert(rs.drop_first()[j - 1] == rs[j]);
                }
            }
            if fu < rs.len() {
                assert(rs.drop_first()[fu - 1] == rs[fu]);
            }
            if all_measured(rs) {
                assert(all_measured(rs.drop_first())) by {
                    assert forall|i: int|
                        0 <= i < rs.drop_first().len() implies (#[trigger] rs.drop_first()[i]).measured is Some by {
                        assert(rs.drop_first()[i] == rs[i + 1]);
                    }
                }
            }
        }
    }
}

impl StorageHistory {
    /// Records one refresh: walks the readings in order, inserting one
    /// snapshot per measured mount. The first absent measurement aborts
    /// the call — rows already inserted in the same call remain persisted
    /// (intentional no-rollback behavior) — and every reading after it is
    /// left unrecorded. Succeeds exactly when every reading is measured.
    pub fn record_measurements(
        &mut self,
        readings: &Vec<MountReading>,
        time_added: i64,
    ) -> (r: Result<Vec<StorageReport>, StoreError>)
        requires
            old(self).wf(),
            time_added >= 0,
        ensures
            final(self).wf(),
            final(self)@ == old(self)@ + rows_from(
                readings@.take(first_unmeasured(readings@)),
                time_added,
            ),
            r is Ok <==> all_measured(readings@),
            r matches Ok(reports) ==> reports@ == reports_from(readings@),
            r matches Err(e) ==> e == StoreError::MeasurementFailed,
    {
        let mut reports: Vec<StorageReport> = Vec::new();
        let mut i: usize = 0;
        proof {
            lemma_first_unmeasured(readings@);
            assert(readings@.take(0) =~= Seq::<MountReading>::empty());
            assert(rows_from(readings@.take(0), time_added) =~= Seq::<StorageRow>::empty());
            assert(reports_from(readings@.take(0)) =~= Seq::<StorageReport>::empty());
            assert(self@ =~= self@ + rows_from(readings@.take(0), time_added));
        }
        while i < readings.len()
            invariant
                self.wf(),
                time_added >= 0,
                i <= readings@.len(),
                i as int <= first_unmeasured(readings@),
                self@ == old(self)@ + rows_from(readings@.take(i as int), time_added),
                reports@ == reports_from(readings@.take(i as int)),
            decreases readings@.len() - i,
        {
            let rd = &readings[i];
            match rd.measured {
                Some(m) => {
                    let used = sat_sub_u64(m.total_bytes, m.free_bytes);
                    self.rows.push(
                        StorageRow {
                            location: rd.path.clone(),
                            nickname: clone_opt_string(&rd.nickname),
                            used_bytes: used,
                            total_bytes: m.total_bytes,
                            time_added,
                        },
                    );
                    reports.push(
                        StorageReport {
                            location: rd.path.clone(),
                            nickname: clone_opt_string(&rd.nickname),
                            used_bytes: used,
                            total_bytes: m.total_bytes,
                        },
                    );
                    proof {
                        lemma_first_unmeasured(readings@);
                        assert(rows_from(readings@.take(i + 1), time_added) =~= rows_from(
                            readings@.take(i as int),
                            time_added,
                        ).push(row_from_reading(readings@[i as int], time_added)));
                        assert(reports_from(readings@.take(i + 1)) =~= reports_from(
                            readings@.take(i as int),
                        ).push(report_from_reading(readings@[i as int])));
                        assert(self@ =~= old(self)@ + rows_from(
                            readings@.take(i + 1),
                            time_added,
                        ));
                    }
                },
                None => {
                    proof {
                        lemma_first_unmeasured(readings@);
                        assert(first_unmeasured(readings@) == i as int);
                    }
                    return Err(StoreError::MeasurementFailed);
                },
            }
            i = i + 1;
        }
        proof {
            lemma_first_unmeasured(readings@);
            assert(readings@.take(readings@.len() as int) =~= readings@);
        }
        Ok(reports)
    }
}

} // verus!
