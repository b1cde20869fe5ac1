//! The monitor: the single consumer of worker reports. It tracks the highest
//! artifact count seen so far, starting from the baseline, and decides when
//! the success condition is met: a report strictly above the tracked maximum.
//! A report below the tracked maximum lowers it (the directory may shrink
//! under external cleanup) and must never trigger success; an equal report
//! changes nothing.

use vstd::prelude::*;

verus! {

/// What the monitor decides after consuming one report.
#[derive(Clone, Copy, Debug, PartialEq, Eq, Structural)]
pub enum MonitorDecision {
    /// The report exceeded the tracked maximum: signal cancellation and shut
    /// the pool down. This is returned at most once, because the monitor's
    /// loop ends on it.
    Success,
    /// Nothing decisive: keep receiving reports.
    Continue,
}

/// The monitor's whole state: the highest artifact count seen so far,
/// initialized from the baseline.
#[derive(Clone, Copy, Debug, PartialEq, Eq, Structural)]
pub struct MonitorState {
    /// The running maximum that reports are compared against.
    pub tracked_max: usize,
}

/// The tracked maximum after one non-success report: lowered to the report
/// when the report is below it, unchanged otherwise.
pub open spec fn step_max(max: int, observed: usize) -> int {
    if observed < max {
        observed as int
    } else {
        max
    }
}

/// The index of the first report that triggers success when the monitor
/// starts with tracked maximum `max` and consumes `reports` in order, or
/// `None` when no report in the sequence triggers it. Reports after the
/// success index are never consumed: the pool has already shut down.
pub open spec fn success_index(max: int, reports: Seq<usize>) -> Option<int>
    decreases reports.len(),
{
    if reports.len() == 0 {
        None
    } else if reports[0] > max {
        Some(0int)
    } else {
        match success_index(step_max(max, reports[0]), reports.skip(1)) {
            Some(i) => Some(i + 1),
            None => None,
        }
    }
}

/// The tracked maximum after the monitor has consumed all of `reports`
/// without any of them triggering success.
pub open spec fn max_after(max: int, reports: Seq<usize>) -> int
    decreases reports.len(),
{
    if reports.len() == 0 {
        max
    } else {
        max_after(step_max(max, reports[0]), reports.skip(1))
    }
}

impl MonitorState {
    /// A monitor that has seen no reports: the tracked maximum is the
    /// baseline measured before any worker started.
    pub fn new(baseline: usize) -> (s: Self)
        ensures
            s.tracked_max == baseline,
    {
        MonitorState { tracked_max: baseline }
    }

    /// Consume one report. Success exactly when the report exceeds the
    /// tracked maximum, which is then left as it was (the monitor stops on
    /// success); otherwise the maximum is lowered to a smaller report and
    /// kept on an equal one, and the monitor continues.
    pub fn process_report(&mut self, observed: usize) -> (d: MonitorDecision)
        ensures
            d == MonitorDecision::Success <==> observed > old(self).tracked_max,
            observed > old(self).tracked_max ==> *final(self) == *old(self),
            observed <= old(self).tracked_max ==> final(self).tracked_max == step_max(
                old(self).tracked_max as int,
                observed,
            ),
            observed >= old(self).tracked_max ==> final(self).tracked_max
                >= old(self).tracked_max,
    {
        if observed > self.tracked_max {
            MonitorDecision::Success
        } else {
            if observed < self.tracked_max {
                self.tracked_max = observed;
            }
            MonitorDecision::Continue
        }
    }
}

/// The pool terminates exactly once, and only on a genuine increase: however
/// many workers feed the monitor, it consumes one merged sequence of reports,
/// and `success_index` — being an `Option` — names at most one winning
/// position. This lemma pins that position down: success is declared at a
/// report if and only if it is the first one that exceeds the running maximum
/// (which starts at `max` and is only ever lowered by smaller reports), and
/// when no report ever exceeds the running maximum, the monitor never
/// declares success.
pub proof fn lemma_success_characterization(max: int, reports: Seq<usize>)
    ensures
        match success_index(max, reports) {
            Some(i) => 0 <= i < reports.len() && reports[i] > max_after(max, reports.take(i)) && (
            forall|j: int| 0 <= j < i ==> reports[j] <= max_after(max, reports.take(j))),
            None => forall|j: int|
                0 <= j < reports.len() ==> reports[j] <= max_after(max, reports.take(j)),
        },
    decreases reports.len(),
{
    if reports.len() == 0 {
    } else if reports[0] > max {
        assert(reports.take(0) =~= Seq::<usize>::empty());
    } else {
        let m1 = step_max(max, reports[0]);
        let rest = reports.skip(1);
        lemma_success_characterization(m1, rest);
        assert(reports.take(0) =~= Seq::<usize>::empty());
        assert forall|j: int| 0 <= j <= rest.len() implies max_after(max, reports.take(j + 1))
            == max_after(m1, rest.take(j)) by {
            let t = reports.take(j + 1);
            assert(t.len() == j + 1);
            assert(t[0] == reports[0]);
            assert(t.skip(1) =~= rest.take(j));
        }
        match success_index(m1, rest) {
            Some(i) => {
                assert(reports[i + 1] == rest[i]);
                assert forall|j: int| 0 <= j < i + 1 implies reports[j] <= max_after(
                    max,
                    reports.take(j),
                ) by {
                    if j > 0 {
                        assert(reports[j] == rest[j - 1]);
                        assert(rest[j - 1] <= max_after(m1, rest.take(j - 1)));
                    }
                }
            },
            None => {
                assert forall|j: int| 0 <= j < reports.len() implies reports[j] <= max_after(
                    max,
                    reports.take(j),
                ) by {
                    if j > 0 {
                        assert(reports[j] == rest[j - 1]);
                        assert(rest[j - 1] <= max_after(m1, rest.take(j - 1)));
                    }
                }
            },
        }
    }
}

/// Liveness: as soon as any position in the report sequence exceeds the
/// running maximum at that position, the monitor declares success — it cannot
/// run past a qualifying report. With workers that report promptly, the
/// number of consumed reports is therefore bounded by the position of the
/// first qualifying one.
pub proof fn lemma_liveness(max: int, reports: Seq<usize>)
    requires
        exists|j: int| 0 <= j < reports.len() && reports[j] > max_after(max, reports.take(j)),
    ensures
        success_index(max, reports) is Some,
{
    lemma_success_characterization(max, reports);
}

/// An ever-increasing artifact counter wins at once: when the very first
/// report already exceeds the baseline, success is declared at position zero,
/// after a single consumed report.
pub proof fn lemma_first_report_wins(baseline: int, reports: Seq<usize>)
    requires
        reports.len() > 0,
        reports[0] > baseline,
    ensures
        success_index(baseline, reports) == Some(0int),
{
}

/// Run a fresh monitor over a whole sequence of reports, stopping at the
/// first success: the executable counterpart of `success_index`. Returns the
/// position of the winning report, or `None` when the sequence runs out
/// without an increase past the running maximum.
pub fn run_reports(baseline: usize, reports: &Vec<usize>) -> (r: Option<usize>)
    ensures
        match r {
            Some(i) => success_index(baseline as int, reports@) == Some(i as int),
            None => success_index(baseline as int, reports@) is None,
        },
        r matches Some(i) ==> i < reports@.len() && reports@[i as int] > max_after(
            baseline as int,
            reports@.take(i as int),
        ),
        r is None ==> forall|j: int|
            0 <= j < reports@.len() ==> reports@[j] <= max_after(
                baseline as int,
                reports@.take(j),
            ),
{
    proof {
        lemma_success_characterization(baseline as int, reports@);
    }
    let mut state = MonitorState::new(baseline);
    let mut i: usize = 0;
    assert(reports@.skip(0) =~= reports@);
    while i < reports.len()
        invariant
            i <= reports.len(),
            success_index(baseline as int, reports@) == match success_index(
                state.tracked_max as int,
                reports@.skip(i as int),
            ) {
                Some(k) => Some(k + i),
                None => None::<int>,
            },
        decreases reports.len() - i,
    {
        let observed = reports[i];
        let ghost rest = reports@.skip(i as int);
        assert(rest[0] == observed);
        assert(rest.skip(1) =~= reports@.skip(i as int + 1));
        let d = state.process_report(observed);
        match d {
            MonitorDecision::Success => {
                proof {
                    lemma_success_characterization(baseline as int, reports@);
                }
                return Some(i);
            },
            MonitorDecision::Continue => {},
        }
        i = i + 1;
    }
    None
}

} // verus!
