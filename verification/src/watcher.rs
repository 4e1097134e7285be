//! The process-discovery diffing engine.
//!
//! A [`PidWatcher`] remembers which pids were live at the last scan. Each
//! scan takes the full current live pid table (enumerated by the caller,
//! with unreadable entries already skipped), reports exactly the pids that
//! were not known before, and replaces the remembered set with the live
//! table — so pids that have died are dropped and every live pid is now
//! known. `reset` empties the remembered set, which makes the next scan
//! report every live pid as new; that is the mechanism for re-applying
//! rules to already-running processes after a configuration change.

use vstd::prelude::*;

use crate::ids::{Process, User};

verus! {

/// One newly discovered process: its pid, its owning user, and the file
/// name of its executable as the caller resolved it (resolution is
/// per-entry fallible; an entry whose path could not be read carries
/// `None`).
pub struct ProcessInfo {
    /// The process the record describes.
    pub pid: Process,
    /// The user that owns the process.
    pub owner: User,
    /// The executable's file name, where it could be resolved.
    pub name: Option<String>,
}

/// What one scan reports: the live pids that the remembered set did not
/// hold, in the live table's order.
pub open spec fn scan_fresh(known: Seq<i32>, live: Seq<i32>) -> Seq<i32> {
    live.filter(|p: i32| !known.contains(p))
}

/// The set of pids observed as of the last scan.
pub struct PidWatcher {
    known: Vec<i32>,
}

impl PidWatcher {
    /// The pids remembered from the last scan.
    pub closed spec fn known_pids(&self) -> Seq<i32> {
        self.known@
    }

    /// A watcher that has seen nothing yet.
    pub fn new() -> (r: Self)
        ensures
            r.known_pids() == Seq::<i32>::empty(),
    {
        PidWatcher { known: Vec::new() }
    }
}

impl Default for PidWatcher {
    /// A watcher that has seen nothing yet.
    fn default() -> (r: Self)
        ensures
            r.known_pids() == Seq::<i32>::empty(),
    {
        PidWatcher { known: Vec::new() }
    }
}

impl PidWatcher {
    /// Forgets every remembered pid, so that the next scan reports every
    /// live pid as new. No report is made by the call itself.
    pub fn reset(&mut self)
        ensures
            final(self).known_pids() == Seq::<i32>::empty(),
    {
        self.known.clear();
    }

    /// Diffs the current live pid table against the remembered set.
    ///
    /// Returns the pids that are live but were not known, in the live
    /// table's order, and remembers exactly the live table: a pid that has
    /// died is forgotten, and every live pid — fresh or not — is known to
    /// the next scan.
    pub fn scan(&mut self, live: &Vec<i32>) -> (fresh: Vec<i32>)
        ensures
            final(self).known_pids() == live@,
            fresh@ == scan_fresh(old(self).known_pids(), live@),
    {
        let ghost known0 = self.known@;
        let ghost pred = |p: i32| !known0.contains(p);
        let mut fresh: Vec<i32> = Vec::new();
        let mut next: Vec<i32> = Vec::new();
        let mut i: usize = 0;
        while i < live.len()
            invariant
                i <= live@.len(),
                self.known@ == known0,
                pred == (|p: i32| !known0.contains(p)),
                next@ == live@.take(i as int),
                fresh@ == live@.take(i as int).filter(pred),
            decreases live@.len() - i,
        {
            let p = live[i];
            next.push(p);
            let seen = vec_contains(&self.known, p);
            if !seen {
                fresh.push(p);
            }
            proof {
                let prefix = live@.take(i as int);
                assert(live@.take(i + 1).drop_last() =~= prefix);
                assert(live@.take(i + 1).last() == p);
                reveal(Seq::filter);
                assert(live@.take(i + 1).filter(pred) == if pred(p) {
                    prefix.filter(pred).push(p)
                } else {
                    prefix.filter(pred)
                });
            }
            i = i + 1;
        }
        proof {
            assert(live@.take(live@.len() as int) =~= live@);
        }
        self.known = next;
        fresh
    }
}

/// Whether a sequence holds a value.
fn vec_contains(v: &Vec<i32>, x: i32) -> (r: bool)
    ensures
        r == v@.contains(x),
{
    let mut i: usize = 0;
    while i < v.len()
        invariant
            i <= v@.len(),
            forall|j: int| 0 <= j < i ==> v@[j] != x,
        decreases v@.len() - i,
    {
        if v[i] == x {
            return true;
        }
        i = i + 1;
    }
    false
}

/// A pid that a filtered scan reported was live and not yet known.
proof fn lemma_fresh_element(known: Seq<i32>, live: Seq<i32>, p: i32)
    requires
        scan_fresh(known, live).contains(p),
    ensures
        live.contains(p),
        !known.contains(p),
    decreases live.len(),
{
    reveal(Seq::filter);
    if live.len() > 0 {
        let prefix = live.drop_last();
        if !known.contains(live.last()) && p == live.last() {
            assert(live[live.len() - 1] == p);
        } else {
            if !known.contains(live.last()) {
                // The report is the prefix's report with the last live pid
                // appended, and p is not that pid, so p sits in the
                // prefix's report.
                let pushed = scan_fresh(known, prefix).push(live.last());
                let i = choose|i: int| 0 <= i < pushed.len() && pushed[i] == p;
                assert(scan_fresh(known, prefix)[i] == p);
                assert(scan_fresh(known, prefix).contains(p));
            }
            lemma_fresh_element(known, prefix, p);
            let j = choose|j: int| 0 <= j < prefix.len() && prefix[j] == p;
            assert(live[j] == p);
        }
    }
}

/// A pid that was live and not yet known is in the scan's report.
proof fn lemma_fresh_complete(known: Seq<i32>, live: Seq<i32>, p: i32)
    requires
        live.contains(p),
        !known.contains(p),
    ensures
        scan_fresh(known, live).contains(p),
{
    let pred = |q: i32| !known.contains(q);
    let i = choose|i: int| 0 <= i < live.len() && live[i] == p;
    live.lemma_filter_contains(pred, i);
}

/// A scan reports a pid as new exactly when it is live and was not known:
/// each live pid is reported at the first scan at which it is seen, and at
/// no other.
pub proof fn lemma_reported_iff_new(known: Seq<i32>, live: Seq<i32>, p: i32)
    ensures
        scan_fresh(known, live).contains(p) <==> (live.contains(p) && !known.contains(p)),
{
    if scan_fresh(known, live).contains(p) {
        lemma_fresh_element(known, live, p);
    }
    if live.contains(p) && !known.contains(p) {
        lemma_fresh_complete(known, live, p);
    }
}

/// Across scans with no intervening reset, a pid is reported as new at
/// most once: once a scan has seen pid `p` live, the next scan — whose
/// remembered set is exactly that scan's live table — does not report `p`
/// again, whatever the new live table holds.
pub proof fn lemma_reported_at_most_once(live1: Seq<i32>, live2: Seq<i32>, p: i32)
    requires
        live1.contains(p),
    ensures
        !scan_fresh(live1, live2).contains(p),
{
    lemma_reported_iff_new(live1, live2, p);
}

/// Within one scan, the report also names each pid at most once, provided
/// the live table does — so a pid is reported as new exactly at the first
/// scan that finds it live, and exactly once there.
pub proof fn lemma_report_no_duplicates(known: Seq<i32>, live: Seq<i32>)
    requires
        live.no_duplicates(),
    ensures
        scan_fresh(known, live).no_duplicates(),
    decreases live.len(),
{
    reveal(Seq::filter);
    if live.len() > 0 {
        let prefix = live.drop_last();
        assert(prefix.no_duplicates());
        lemma_report_no_duplicates(known, prefix);
        if !known.contains(live.last()) {
            // The last live pid is appended to the prefix's report; it
            // cannot already be there, else it would sit twice in `live`.
            if scan_fresh(known, prefix).contains(live.last()) {
                lemma_fresh_element(known, prefix, live.last());
                let j = choose|j: int| 0 <= j < prefix.len() && prefix[j] == live.last();
                assert(live[j] == live[live.len() - 1]);
            }
            let report = scan_fresh(known, prefix);
            let pushed = report.push(live.last());
            assert forall|i: int, j: int|
                0 <= i < pushed.len() && 0 <= j < pushed.len() && i != j implies pushed[i]
                != pushed[j] by {
                if i < report.len() && j < report.len() {
                    assert(report[i] == pushed[i] && report[j] == pushed[j]);
                } else if i == report.len() {
                    assert(report[j] == pushed[j]);
                    assert(report.contains(report[j]));
                } else {
                    assert(report[i] == pushed[i]);
                    assert(report.contains(report[i]));
                }
            }
        }
    }
}

/// Immediately after a reset, the next scan reports every currently live
/// pid as new, regardless of prior observation history.
pub proof fn lemma_scan_after_reset(live: Seq<i32>)
    ensures
        scan_fresh(Seq::<i32>::empty(), live) == live,
    decreases live.len(),
{
    reveal(Seq::filter);
    if live.len() == 0 {
        assert(scan_fresh(Seq::<i32>::empty(), live) =~= live);
    } else {
        lemma_scan_after_reset(live.drop_last());
        assert(scan_fresh(Seq::<i32>::empty(), live) =~= live);
    }
}

} // verus!
