//! The caller-facing selection and lifecycle surface.
//!
//! [`ClosestWeb3RpcProviderSelector`] is the verified core of the selector
//! handle: the latency table, the fixed endpoint set and the teardown state.
//! The embedding application shares it between the probing loop (its sole
//! writer) and any number of readers, drives the loop with
//! [`crate::scheduler::scheduler_step`], and waits for readiness by polling
//! [`ClosestWeb3Provider::is_ready`] on a short cadence.
//!
//! Only misuse of the lifecycle faults outward: selecting before readiness
//! or touching a destroyed handle. Probe failures never reach callers.

use vstd::prelude::*;

use crate::table::{
    fastest_key, record_effect, table_has, table_value, table_wf, LatencyTable,
};

verus! {

/// Misuse of the lifecycle or query surface: a caller bug, signaled loudly,
/// never a transient environmental condition.
#[derive(Clone, Copy, Debug, PartialEq, Eq, Structural)]
pub enum SelectorError {
    /// Selection was asked for while the table was empty.
    NotReady,
    /// The handle was torn down twice, or queried after teardown.
    AlreadyDestroyed,
}

/// A balancer over interchangeable Web3 providers: initialize it with a list
/// of provider URLs, poll it for readiness, ask it for the provider with the
/// fastest last-observed response time, and stop it exactly once.
pub trait ClosestWeb3Provider: Sized {
    /// The latency-table snapshot the handle currently exposes.
    spec fn table_view(&self) -> Seq<(Seq<char>, u128)>;

    /// The configured endpoints, fixed for the selector's lifetime.
    spec fn endpoints(&self) -> Seq<Seq<char>>;

    /// The configured minimum spacing between sweep starts, in microseconds.
    spec fn interval_micros(&self) -> u64;

    /// True once `destroy` has been called.
    spec fn torn_down(&self) -> bool;

    /// Internal invariant: the table never holds an endpoint twice.
    spec fn wf(&self) -> bool;

    /// Initializes the balancer with the provider URLs to measure and the
    /// checking interval. Probing begins immediately, but no entry exists
    /// until the first probe completes, so readiness starts false.
    fn init(urls: Vec<String>, checking_interval_micros: u64) -> (s: Self)
        ensures
            s.wf(),
            !s.torn_down(),
            s.table_view().len() == 0,
            s.endpoints() == urls@.map_values(|u: String| u@),
            s.interval_micros() == checking_interval_micros,
    ;

    /// Readiness: true exactly once at least one probe result — success or
    /// failure — has been recorded since the last teardown.
    fn is_ready(&self) -> (r: bool)
        ensures
            r == (self.table_view().len() > 0),
    ;

    /// Tears the balancer down: halts further probing and clears the table,
    /// resetting readiness to false. Must be called exactly once.
    fn destroy(&mut self)
        requires
            old(self).wf(),
            !old(self).torn_down(),
        ensures
            final(self).wf(),
            final(self).torn_down(),
            final(self).table_view().len() == 0,
            final(self).endpoints() == old(self).endpoints(),
            final(self).interval_micros() == old(self).interval_micros(),
    ;

    /// The URL of the provider with the fastest last-observed response time:
    /// the first-recorded entry with the minimal value, so the choice is a
    /// pure function of the snapshot. Callers must have confirmed readiness;
    /// an unreachable provider is selected only when every provider is.
    fn get_fastest_provider(&self) -> (r: String)
        requires
            self.wf(),
            !self.torn_down(),
            self.table_view().len() > 0,
        ensures
            r@ == fastest_key(self.table_view()),
            table_has(self.table_view(), r@),
            forall|k: Seq<char>|
                table_has(self.table_view(), k) ==> table_value(self.table_view(), r@)
                    <= table_value(self.table_view(), k),
    ;
}

/// The verified core of the selector handle: the latency table the probing
/// loop fills, the fixed endpoint set, and the one-shot teardown state. The
/// embedding application owns the channel that carries the stop signal and
/// shares this core, under mutual exclusion, between the loop and readers.
pub struct ClosestWeb3RpcProviderSelector {
    /// The configured provider URLs, fixed for the selector's lifetime.
    urls: Vec<String>,
    /// Minimum spacing between sweep starts, in microseconds.
    checking_interval_micros: u64,
    /// Last-observed response time per provider.
    table: LatencyTable,
    /// Set by the first `destroy`; every later lifecycle call is misuse.
    destroyed: bool,
}

impl ClosestWeb3Provider for ClosestWeb3RpcProviderSelector {
    closed spec fn table_view(&self) -> Seq<(Seq<char>, u128)> {
        self.table@
    }

    closed spec fn endpoints(&self) -> Seq<Seq<char>> {
        self.urls@.map_values(|u: String| u@)
    }

    closed spec fn interval_micros(&self) -> u64 {
        self.checking_interval_micros
    }

    closed spec fn torn_down(&self) -> bool {
        self.destroyed
    }

    closed spec fn wf(&self) -> bool {
        table_wf(self.table@)
    }

    fn init(urls: Vec<String>, checking_interval_micros: u64) -> (s: Self) {
        ClosestWeb3RpcProviderSelector {
            urls,
            checking_interval_micros,
            table: LatencyTable::new(),
            destroyed: false,
        }
    }

    fn is_ready(&self) -> (r: bool) {
        self.table.snapshot_is_nonempty()
    }

    fn destroy(&mut self) {
        self.destroyed = true;
        self.table.clear();
    }

    fn get_fastest_provider(&self) -> (r: String) {
        proof {
            crate::table::lemma_selection_correctness(self.table@);
        }
        self.table.fastest()
    }
}

impl ClosestWeb3RpcProviderSelector {
    /// True once the handle has been torn down. The probing loop checks this
    /// before every write, so teardown halts recording promptly.
    pub fn is_destroyed(&self) -> (r: bool)
        ensures
            r == self.torn_down(),
    {
        self.destroyed
    }

    /// Records one probe outcome — a measured duration or the unreachable
    /// sentinel. Called by the probing loop as each single probe completes,
    /// so partial progress is visible to readers mid-sweep; an entry is only
    /// ever inserted or overwritten, never removed, so readiness is
    /// preserved.
    pub fn record_probe(&mut self, url: &String, micros: u128)
        requires
            old(self).wf(),
            !old(self).torn_down(),
        ensures
            final(self).wf(),
            !final(self).torn_down(),
            final(self).endpoints() == old(self).endpoints(),
            final(self).interval_micros() == old(self).interval_micros(),
            record_effect(old(self).table_view(), final(self).table_view(), url@, micros),
            table_has(final(self).table_view(), url@),
            table_value(final(self).table_view(), url@) == micros,
            forall|k: Seq<char>|
                k != url@ ==> (table_has(final(self).table_view(), k) <==> table_has(
                    old(self).table_view(),
                    k,
                )),
            forall|k: Seq<char>|
                k != url@ && table_has(old(self).table_view(), k) ==> table_value(
                    final(self).table_view(),
                    k,
                ) == table_value(old(self).table_view(), k),
            final(self).table_view().len() >= old(self).table_view().len(),
    {
        self.table.record(url, micros);
    }

    /// Selection that signals misuse instead of faulting: an error after
    /// teardown or before readiness, otherwise exactly what
    /// [`ClosestWeb3Provider::get_fastest_provider`] returns.
    pub fn try_fastest_provider(&self) -> (r: Result<String, SelectorError>)
        requires
            self.wf(),
        ensures
            self.torn_down() ==> r == Err::<String, SelectorError>(SelectorError::AlreadyDestroyed),
            !self.torn_down() && self.table_view().len() == 0 ==> r == Err::<String, SelectorError>(
                SelectorError::NotReady,
            ),
            !self.torn_down() && self.table_view().len() > 0 ==> (r matches Ok(u) && u@
                == fastest_key(self.table_view())),
    {
        if self.destroyed {
            Err(SelectorError::AlreadyDestroyed)
        } else if !self.table.snapshot_is_nonempty() {
            Err(SelectorError::NotReady)
        } else {
            Ok(self.get_fastest_provider())
        }
    }

    /// Teardown that signals misuse instead of faulting: the second and
    /// every later call reports the handle already destroyed and changes
    /// nothing; the first call clears the table and halts probing.
    pub fn try_destroy(&mut self) -> (r: Result<(), SelectorError>)
        requires
            old(self).wf(),
        ensures
            final(self).wf(),
            final(self).endpoints() == old(self).endpoints(),
            final(self).interval_micros() == old(self).interval_micros(),
            old(self).torn_down() ==> (r == Err::<(), SelectorError>(
                SelectorError::AlreadyDestroyed,
            ) && final(self).table_view() == old(self).table_view() && final(self).torn_down()),
            !old(self).torn_down() ==> (r == Ok::<(), SelectorError>(()) && final(self).torn_down()
                && final(self).table_view().len() == 0),
    {
        if self.destroyed {
            Err(SelectorError::AlreadyDestroyed)
        } else {
            self.destroy();
            Ok(())
        }
    }
}

} // verus!
