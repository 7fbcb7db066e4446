//! Retention pruning: which persisted reports to delete.
//!
//! Given the files of the report directory and a retention count, the
//! selection orders them by last-modified time ascending and marks files
//! from the front for deletion until the remaining count is at most the
//! retention count. A retention count of zero marks every file. The
//! decision is independent of the order the directory was listed in; the
//! caller performs the actual (best-effort) deletions.

use vstd::prelude::*;

verus! {

broadcast use {vstd::seq_lib::group_to_multiset_ensures, vstd::multiset::group_multiset_axioms};

/// One file of the report directory.
#[derive(Debug)]
pub struct ReportFile {
    pub name: String,
    /// Last-modified instant, UTC epoch seconds.
    pub modified: i64,
}

impl Clone for ReportFile {
    fn clone(&self) -> (r: Self)
        ensures
            r == *self,
    {
        ReportFile { name: self.name.clone(), modified: self.modified }
    }
}

/// Non-decreasing last-modified times.
pub open spec fn sorted_by_modified(s: Seq<ReportFile>) -> bool {
    forall|i: int, j: int| 0 <= i < j < s.len() ==> #[trigger] s[i].modified <= #[trigger] s[j].modified
}

/// Sorts files by last-modified time ascending; the result is a
/// permutation of the input.
fn sort_by_modified(files: Vec<ReportFile>) -> (out: Vec<ReportFile>)
    ensures
        out@.to_multiset() == files@.to_multiset(),
        out@.len() == files@.len(),
        sorted_by_modified(out@),
{
    let mut src = files;
    let mut out: Vec<ReportFile> = Vec::new();
    while src.len() > 0
        invariant
            out@.to_multiset().add(src@.to_multiset()) == files@.to_multiset(),
            out@.len() + src@.len() == files@.len(),
            sorted_by_modified(out@),
            forall|i: int, j: int|
                0 <= i < out@.len() && 0 <= j < src@.len() ==> #[trigger] out@[i].modified
                    <= #[trigger] src@[j].modified,
        decreases src@.len(),
    {
        // index of the minimal remaining modified time
        let mut m: usize = 0;
        let mut k: usize = 1;
        while k < src.len()
            invariant
                src@.len() > 0,
                m < k,
                k <= src@.len(),
                forall|j: int| 0 <= j < k ==> src@[m as int].modified <= #[trigger] src@[j].modified,
            decreases src@.len() - k,
        {
            if src[k].modified < src[m].modified {
                m = k;
            }
            k = k + 1;
        }
        let ghost old_out = out@;
        let ghost old_src = src@;
        let x = src.remove(m);
        out.push(x);
        proof {
            assert(old_src.contains(old_src[m as int]));
            assert(old_src.to_multiset().count(old_src[m as int]) > 0);
            assert(out@.to_multiset().add(src@.to_multiset()) =~= files@.to_multiset()) by {
                assert(out@.to_multiset() == old_out.to_multiset().insert(x));
                assert(src@.to_multiset() == old_src.to_multiset().remove(x));
                assert forall|e: ReportFile|
                    out@.to_multiset().add(src@.to_multiset()).count(e) == files@.to_multiset().count(
                        e,
                    ) by {
                    assert(old_out.to_multiset().add(old_src.to_multiset()).count(e) == files@
                        .to_multiset().count(e));
                }
            }
            assert forall|j: int| 0 <= j < src@.len() implies (src@[j] == old_src[j] || src@[j]
                == old_src[j + 1]) by {
                if j < m {
                    assert(src@[j] == old_src[j]);
                } else {
                    assert(src@[j] == old_src[j + 1]);
                }
            }
        }
    }
    proof {
        assert(out@.to_multiset().add(src@.to_multiset()) =~= out@.to_multiset());
    }
    out
}

/// No two files share a last-modified instant.
pub open spec fn distinct_times(s: Seq<ReportFile>) -> bool {
    forall|i: int, j: int|
        0 <= i < j < s.len() ==> #[trigger] s[i].modified != #[trigger] s[j].modified
}

/// Law of retention pruning: when no two files share a modified instant,
/// every deleted file is strictly older than every retained file — so a
/// selection that deletes all but `max_count` files retains exactly the
/// `max_count` most recently modified, whatever order the directory
/// listing supplied. The hypotheses are what `prune_selection` ensures
/// of its outcome.
pub proof fn lemma_prune_keeps_strictly_newest(
    files: Seq<ReportFile>,
    del: Seq<ReportFile>,
    keep: Seq<ReportFile>,
)
    requires
        (del + keep).to_multiset() == files.to_multiset(),
        forall|i: int, j: int|
            0 <= i < del.len() && 0 <= j < keep.len() ==> #[trigger] del[i].modified
                <= #[trigger] keep[j].modified,
        distinct_times(files),
    ensures
        forall|i: int, j: int|
            0 <= i < del.len() && 0 <= j < keep.len() ==> #[trigger] del[i].modified
                < #[trigger] keep[j].modified,
{
    let c = del + keep;
    assert(files.no_duplicates()) by {
        assert forall|i: int, j: int|
            0 <= i < files.len() && 0 <= j < files.len() && i != j implies files[i]
            != files[j] by {
            if files[i] == files[j] {
                assert(files[i].modified == files[j].modified);
            }
        }
    }
    files.lemma_multiset_has_no_duplicates();
    assert forall|a: int, b: int| 0 <= a < b < c.len() implies c[a].modified != c[b].modified by {
        if c[a] == c[b] {
            // the same file twice would occur twice in `files` as well
            let s0 = c.subrange(0, b);
            let s1 = c.subrange(b, c.len() as int);
            assert(c =~= s0 + s1);
            vstd::seq_lib::lemma_multiset_commutative(s0, s1);
            assert(s0[a] == c[a]);
            assert(s0.contains(c[a]));
            assert(s1[0] == c[b]);
            assert(s1.contains(c[b]));
            assert(c.to_multiset().count(c[a]) >= 2);
            assert(files.to_multiset().contains(c[a]));
            assert(false);
        } else if c[a].modified == c[b].modified {
            // two different files sharing an instant would both stand in
            // `files`, against its distinct instants
            assert(c[a] == c.index(a));
            assert(c.contains(c[a]));
            assert(files.to_multiset().count(c[a]) > 0);
            assert(files.contains(c[a]));
            assert(c.contains(c[b]));
            assert(files.to_multiset().count(c[b]) > 0);
            assert(files.contains(c[b]));
            let ia = choose|ia: int| 0 <= ia < files.len() && files[ia] == c[a];
            let ib = choose|ib: int| 0 <= ib < files.len() && files[ib] == c[b];
            assert(ia != ib);
            if ia < ib {
                assert(files[ia].modified != files[ib].modified);
            } else {
                assert(files[ib].modified != files[ia].modified);
            }
            assert(false);
        }
    }
    assert forall|i: int, j: int|
        0 <= i < del.len() && 0 <= j < keep.len() implies #[trigger] del[i].modified
        < #[trigger] keep[j].modified by {
        assert(c[i] == del[i]);
        assert(c[del.len() + j] == keep[j]);
        assert(c[i].modified != c[del.len() + j].modified);
    }
}

/// What one pruning pass decides: the files to delete, oldest first, and
/// the files to retain, still ordered by last-modified time ascending.
#[derive(Debug)]
pub struct PruneOutcome {
    pub delete: Vec<ReportFile>,
    pub keep: Vec<ReportFile>,
}

/// Selects which files to delete so that at most `max_count` remain.
///
/// Every retained file was modified no earlier than every deleted file,
/// the two parts together are a permutation of the input, and exactly
/// `min(max_count, n)` files are retained — so with distinct modified
/// times the retained files are precisely the `max_count` most recently
/// modified, whatever order the directory listing supplied.
pub fn prune_selection(files: Vec<ReportFile>, max_count: usize) -> (r: PruneOutcome)
    ensures
        r.keep@.len() == (if files@.len() <= max_count {
            files@.len() as int
        } else {
            max_count as int
        }),
        r.delete@.len() + r.keep@.len() == files@.len(),
        (r.delete@ + r.keep@).to_multiset() == files@.to_multiset(),
        sorted_by_modified(r.delete@),
        sorted_by_modified(r.keep@),
        forall|i: int, j: int|
            0 <= i < r.delete@.len() && 0 <= j < r.keep@.len() ==> #[trigger] r.delete@[i].modified
                <= #[trigger] r.keep@[j].modified,
{
    let sorted = sort_by_modified(files);
    let n = sorted.len();
    let cut: usize = if n > max_count {
        n - max_count
    } else {
        0
    };
    let mut delete: Vec<ReportFile> = Vec::new();
    let mut keep: Vec<ReportFile> = Vec::new();
    let mut i: usize = 0;
    while i < cut
        invariant
            cut <= n,
            n == sorted@.len(),
            i <= cut,
            delete@ == sorted@.take(i as int),
        decreases cut - i,
    {
        delete.push(sorted[i].clone());
        proof {
            assert(sorted@.take(i + 1) =~= sorted@.take(i as int).push(sorted@[i as int]));
        }
        i = i + 1;
    }
    let mut j: usize = cut;
    while j < n
        invariant
            cut <= n,
            n == sorted@.len(),
            cut <= j <= n,
            keep@ == sorted@.subrange(cut as int, j as int),
        decreases n - j,
    {
        keep.push(sorted[j].clone());
        proof {
            assert(sorted@.subrange(cut as int, j + 1) =~= sorted@.subrange(
                cut as int,
                j as int,
            ).push(sorted@[j as int]));
        }
        j = j + 1;
    }
    proof {
        assert(delete@ + keep@ =~= sorted@);
    }
    PruneOutcome { delete, keep }
}

} // verus!
