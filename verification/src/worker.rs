//! The worker's per-iteration decisions. A worker loops: check the
//! cancellation token, spawn one generator invocation, wait for its whole
//! standard output and exit, count the artifacts, report the count, repeat.
//! Every per-iteration failure is absorbed and retried — no failure of one
//! iteration ever stops the worker or the pool; only cancellation does.

use vstd::prelude::*;

verus! {

/// What one worker iteration observed, as plain values.
#[derive(Clone, Copy, Debug, PartialEq, Eq, Structural)]
pub enum WorkerEvent {
    /// The cancellation token was set before the iteration started.
    Cancelled,
    /// The generator process could not be created at all.
    SpawnFailed,
    /// The process started but its output stream could not be acquired; a
    /// partially started process is still live.
    OutputUnavailable,
    /// The generator ran but the artifact count could not be read.
    CountFailed,
    /// The generator ran and the artifact count was read.
    Counted(usize),
}

/// What the worker does next in answer to one event.
#[derive(Clone, Copy, Debug, PartialEq, Eq, Structural)]
pub enum WorkerAction {
    /// Leave the loop for good: the pool has been cancelled.
    Stop,
    /// Start the next iteration immediately — unbounded retries, no backoff.
    /// `terminate_child` says whether a live subprocess is still held and
    /// must be killed first.
    Retry { terminate_child: bool },
    /// Send the observed count to the monitor. This may block while the
    /// report channel is full: that backpressure is the only throttle.
    Report { observed_count: usize },
}

/// The worker's whole decision rule: a pure function from the event of one
/// iteration to the next action. Only cancellation stops a worker; a spawn
/// failure retries with no child to clean up; a missing output stream or an
/// unreadable count retries after terminating the live child; a counted
/// iteration reports the count unchanged.
pub open spec fn decide_spec(event: WorkerEvent) -> WorkerAction {
    match event {
        WorkerEvent::Cancelled => WorkerAction::Stop,
        WorkerEvent::SpawnFailed => WorkerAction::Retry { terminate_child: false },
        WorkerEvent::OutputUnavailable => WorkerAction::Retry { terminate_child: true },
        WorkerEvent::CountFailed => WorkerAction::Retry { terminate_child: true },
        WorkerEvent::Counted(n) => WorkerAction::Report { observed_count: n },
    }
}

/// Decide the next action after one iteration's event. A worker stops exactly
/// on cancellation, reports exactly the count it observed, and retries on
/// every failure.
pub fn decide(event: WorkerEvent) -> (a: WorkerAction)
    ensures
        a == decide_spec(event),
        a == WorkerAction::Stop <==> event == WorkerEvent::Cancelled,
        forall|n: usize|
            event == WorkerEvent::Counted(n) <==> a == (WorkerAction::Report {
                observed_count: n,
            }),
{
    match event {
        WorkerEvent::Cancelled => WorkerAction::Stop,
        WorkerEvent::SpawnFailed => WorkerAction::Retry { terminate_child: false },
        WorkerEvent::OutputUnavailable => WorkerAction::Retry { terminate_child: true },
        WorkerEvent::CountFailed => WorkerAction::Retry { terminate_child: true },
        WorkerEvent::Counted(n) => WorkerAction::Report { observed_count: n },
    }
}

/// A worker whose spawns fail every time never crashes the pool and never
/// stops of its own accord: every one of its iterations ends in an immediate
/// retry, it sends no report, and it keeps no subprocess to clean up. The
/// rest of the pool is untouched — the monitor's completion test reads only
/// report values, so the other workers can still win and shut the pool down.
pub proof fn lemma_spawn_failures_only_retry(events: Seq<WorkerEvent>)
    requires
        forall|i: int| 0 <= i < events.len() ==> events[i] == WorkerEvent::SpawnFailed,
    ensures
        forall|i: int|
            0 <= i < events.len() ==> decide_spec(events[i]) == (WorkerAction::Retry {
                terminate_child: false,
            }),
        forall|i: int| 0 <= i < events.len() ==> decide_spec(events[i]) != WorkerAction::Stop,
        forall|i: int|
            0 <= i < events.len() ==> !(decide_spec(events[i]) is Report),
{
}

} // verus!
