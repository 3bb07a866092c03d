//! The probe scheduler's decision logic and the table effect of a sweep.
//!
//! The scheduler is a long-lived loop that, each cycle, races three events:
//! the one-shot stop signal firing, a full sequential sweep of every endpoint
//! completing, and the checking interval elapsing. The loop itself performs
//! network I/O and lives with the embedding application; the decisions it
//! takes at each wake-up, and what a sweep does to the latency table, stand
//! here with their contracts.

use vstd::prelude::*;

use crate::table::{record_effect, table_has, table_value, table_wf, LatencyTable};

verus! {

/// Lifecycle of the probe scheduler: probing starts immediately on
/// construction; a single stop signal moves it to `StopRequested`; the loop
/// observes the signal at its next wake-up and moves to `Stopped`, which is
/// terminal, after which it performs no further writes to the table.
#[derive(Clone, Copy, Debug, PartialEq, Eq, Structural)]
pub enum SchedulerState {
    /// The loop is racing the stop signal, the sweep and the interval.
    Running,
    /// The stop signal has fired but the loop has not yet observed it.
    StopRequested,
    /// Terminal: the loop has exited and writes nothing further.
    Stopped,
}

/// Which of the three raced events a cycle wakes up to first.
#[derive(Clone, Copy, Debug, PartialEq, Eq, Structural)]
pub enum SchedulerEvent {
    /// The stop signal fired.
    StopObserved,
    /// The full sequential sweep of all endpoints finished.
    SweepCompleted,
    /// The configured checking interval elapsed.
    IntervalElapsed,
}

/// What the loop must do after a decision.
#[derive(Clone, Copy, Debug, PartialEq, Eq, Structural)]
pub enum SchedulerAction {
    /// Begin the next cycle: race the stop signal, a fresh sweep and the
    /// interval again.
    BeginCycle,
    /// Exit the loop; no further probing, no further writes.
    Exit,
}

/// One decision of the scheduler loop, taken at a wake-up: a stop request,
/// however it arrives, exits immediately — regardless of sweep progress —
/// while a finished sweep or an elapsed interval starts the next cycle, so
/// the effective cadence is the sooner of the two.
pub fn scheduler_step(state: SchedulerState, event: SchedulerEvent) -> (r: (
    SchedulerState,
    SchedulerAction,
))
    requires
        state != SchedulerState::Stopped,
    ensures
        state == SchedulerState::StopRequested || event == SchedulerEvent::StopObserved ==> r == (
            SchedulerState::Stopped,
            SchedulerAction::Exit,
        ),
        state == SchedulerState::Running && event != SchedulerEvent::StopObserved ==> r == (
            SchedulerState::Running,
            SchedulerAction::BeginCycle,
        ),
{
    match state {
        SchedulerState::StopRequested => (SchedulerState::Stopped, SchedulerAction::Exit),
        _ => match event {
            SchedulerEvent::StopObserved => (SchedulerState::Stopped, SchedulerAction::Exit),
            _ => (SchedulerState::Running, SchedulerAction::BeginCycle),
        },
    }
}

/// True when some endpoint among the first `n` of the sweep is `k`.
pub open spec fn sweep_covers_upto(urls: Seq<String>, n: int, k: Seq<char>) -> bool {
    exists|i: int| 0 <= i < n && urls[i]@ == k
}

/// True when the sweep probes endpoint `k`.
pub open spec fn sweep_covers(urls: Seq<String>, k: Seq<char>) -> bool {
    sweep_covers_upto(urls, urls.len() as int, k)
}

impl LatencyTable {
    /// The table effect of one full sweep: each endpoint's outcome is written
    /// in order, one probe at a time, exactly as the probing loop records
    /// them; for an endpoint probed more than once in a sweep, the last
    /// write wins, and endpoints outside the sweep keep their entries.
    pub fn record_sweep(&mut self, urls: &Vec<String>, values: &Vec<u128>)
        requires
            table_wf(old(self)@),
            urls@.len() == values@.len(),
        ensures
            table_wf(final(self)@),
            forall|i: int|
                0 <= i < urls@.len() ==> table_has(final(self)@, (#[trigger] urls@[i])@),
            forall|i: int|
                0 <= i < urls@.len() && (forall|j: int| i < j < urls@.len() ==> (#[trigger] urls@[j])@ != urls@[i]@)
                    ==> table_value(final(self)@, (#[trigger] urls@[i])@) == values@[i],
            forall|k: Seq<char>|
                !sweep_covers(urls@, k) ==> (table_has(final(self)@, k) <==> table_has(
                    old(self)@,
                    k,
                )),
            forall|k: Seq<char>|
                !sweep_covers(urls@, k) && table_has(old(self)@, k) ==> table_value(
                    final(self)@,
                    k,
                ) == table_value(old(self)@, k),
            final(self)@.len() >= old(self)@.len(),
            urls@.len() > 0 ==> final(self)@.len() > 0,
    {
        let ghost pre = self@;
        let n = urls.len();
        let mut p: usize = 0;
        while p < n
            invariant
                pre == old(self)@,
                table_wf(pre),
                n == urls@.len(),
                n == values@.len(),
                0 <= p <= n,
                table_wf(self@),
                forall|i: int| 0 <= i < p ==> table_has(self@, (#[trigger] urls@[i])@),
                forall|i: int|
                    0 <= i < p && (forall|j: int| i < j < p ==> (#[trigger] urls@[j])@ != urls@[i]@)
                        ==> table_value(self@, (#[trigger] urls@[i])@) == values@[i],
                forall|k: Seq<char>|
                    !sweep_covers_upto(urls@, p as int, k) ==> (table_has(self@, k) <==> table_has(
                        pre,
                        k,
                    )),
                forall|k: Seq<char>|
                    !sweep_covers_upto(urls@, p as int, k) && table_has(pre, k) ==> table_value(
                        self@,
                        k,
                    ) == table_value(pre, k),
                self@.len() >= pre.len(),
                p > 0 ==> self@.len() > 0,
            decreases n - p,
        {
            let ghost mid = self@;
            self.record(&urls[p], values[p]);
            proof {
                assert forall|i: int|
                    0 <= i < p + 1 && (forall|j: int|
                        i < j < p + 1 ==> (#[trigger] urls@[j])@ != urls@[i]@) implies table_value(
                    self@,
                    (#[trigger] urls@[i])@,
                ) == values@[i] by {
                    if i == p {
                    } else {
                        assert(urls@[p as int]@ != urls@[i]@);
                        assert(table_value(mid, urls@[i]@) == values@[i]);
                    }
                }
                assert forall|k: Seq<char>| !sweep_covers_upto(urls@, p + 1, k) implies (table_has(
                    self@,
                    k,
                ) <==> table_has(pre, k)) by {
                    assert(!sweep_covers_upto(urls@, p as int, k));
                    assert(urls@[p as int]@ != k);
                }
                assert forall|k: Seq<char>|
                    !sweep_covers_upto(urls@, p + 1, k) && table_has(pre, k) implies table_value(
                    self@,
                    k,
                ) == table_value(pre, k) by {
                    assert(!sweep_covers_upto(urls@, p as int, k));
                    assert(urls@[p as int]@ != k);
                }
            }
            p += 1;
        }
        proof {
            assert forall|k: Seq<char>| !sweep_covers(urls@, k) implies (table_has(self@, k)
                <==> table_has(pre, k)) by {
                assert(!sweep_covers_upto(urls@, n as int, k));
            }
        }
    }
}

} // verus!
