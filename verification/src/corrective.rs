//! The corrective action: terminating the graphical server after the helper
//! ended badly or went missing.

use crate::locator::{find_server_instances, server_pids, ProcessView, Snapshot};
use vstd::prelude::*;

verus! {

/// How the helper ended, as far as that is known.
#[derive(Clone, Copy, Debug, PartialEq, Eq, Structural)]
pub enum ExitOutcome {
    /// The helper exited with this status code.
    Code(i32),
    /// No exit information is available: the helper could not be found at all.
    Unknown,
}

/// Every outcome but a clean exit, status code 0, calls for the corrective
/// action.
pub open spec fn needs_correction(outcome: ExitOutcome) -> bool {
    outcome != ExitOutcome::Code(0)
}

/// The processes to terminate for `outcome`: none after a clean exit, every
/// server instance of `procs` otherwise.
pub open spec fn termination_targets(outcome: ExitOutcome, procs: Seq<ProcessView>) -> Seq<u32> {
    if needs_correction(outcome) {
        server_pids(procs)
    } else {
        Seq::empty()
    }
}

/// Decides the corrective action for a helper that ended with `outcome`, and
/// returns the batch of terminations to attempt.
pub fn babysit(outcome: ExitOutcome, snapshot: &Snapshot) -> (batch: TerminationBatch)
    ensures
        batch@.targets == termination_targets(outcome, snapshot@),
        batch@.results == Seq::<bool>::empty(),
        batch@.wf(),
{
    let targets = match outcome {
        ExitOutcome::Code(0) => Vec::new(),
        _ => find_server_instances(snapshot),
    };
    TerminationBatch { targets, results: Vec::new() }
}

/// A batch of terminations: the processes to terminate, in order, and what
/// came of those attempted so far.
#[derive(Debug)]
pub struct TerminationBatch {
    pub targets: Vec<u32>,
    pub results: Vec<bool>,
}

/// The mathematical value of a [`TerminationBatch`].
pub struct BatchView {
    pub targets: Seq<u32>,
    pub results: Seq<bool>,
}

impl View for TerminationBatch {
    type V = BatchView;

    open spec fn view(&self) -> BatchView {
        BatchView { targets: self.targets@, results: self.results@ }
    }
}

impl BatchView {
    /// No more results than targets.
    pub open spec fn wf(self) -> bool {
        self.results.len() <= self.targets.len()
    }

    /// The target to attempt next: the first without a result.
    pub open spec fn pending(self) -> Option<u32> {
        if self.results.len() < self.targets.len() {
            Some(self.targets[self.results.len() as int])
        } else {
            None
        }
    }

    /// The batch after the pending attempt ended in `terminated`. With nothing
    /// pending the batch stays as it is.
    pub open spec fn record(self, terminated: bool) -> BatchView {
        if self.results.len() < self.targets.len() {
            BatchView { targets: self.targets, results: self.results.push(terminated) }
        } else {
            self
        }
    }

    /// The batch after the attempts ended, one after the other, as `outcomes`
    /// says.
    pub open spec fn record_all(self, outcomes: Seq<bool>) -> BatchView
        decreases outcomes.len(),
    {
        if outcomes.len() == 0 {
            self
        } else {
            self.record_all(outcomes.drop_last()).record(outcomes.last())
        }
    }

    /// The targets that were attempted, in order.
    pub open spec fn attempted(self) -> Seq<u32> {
        self.targets.take(self.results.len() as int)
    }

    /// The attempted targets whose termination failed, in order.
    pub open spec fn failures(self) -> Seq<u32>
        decreases self.results.len(),
    {
        if self.results.len() == 0 || !self.wf() {
            Seq::empty()
        } else {
            let earlier = BatchView { targets: self.targets, results: self.results.drop_last() };
            if self.results.last() {
                earlier.failures()
            } else {
                earlier.failures().push(self.targets[self.results.len() - 1])
            }
        }
    }
}

impl TerminationBatch {
    /// The process to terminate next, if any is left.
    pub fn pending(&self) -> (next: Option<u32>)
        ensures
            next == self@.pending(),
    {
        if self.results.len() < self.targets.len() {
            Some(self.targets[self.results.len()])
        } else {
            None
        }
    }

    /// Records whether the pending process was terminated, and moves on to the
    /// next one either way.
    pub fn record(&mut self, terminated: bool)
        ensures
            final(self)@ == old(self)@.record(terminated),
            old(self)@.wf() ==> final(self)@.wf(),
    {
        if self.results.len() < self.targets.len() {
            self.results.push(terminated);
        }
    }

    /// The processes that were attempted and could not be terminated.
    pub fn failures(&self) -> (failed: Vec<u32>)
        ensures
            failed@ == self@.failures(),
    {
        let mut failed: Vec<u32> = Vec::new();
        if self.results.len() > self.targets.len() {
            return failed;
        }
        let mut i: usize = 0;
        while i < self.results.len()
            invariant
                i <= self.results.len(),
                self@.wf(),
                failed@ == (BatchView {
                    targets: self.targets@,
                    results: self.results@.take(i as int),
                }).failures(),
            decreases self.results.len() - i,
        {
            proof {
                let next = self.results@.take(i + 1);
                assert(next.drop_last() =~= self.results@.take(i as int));
            }
            if !self.results[i] {
                failed.push(self.targets[i]);
            }
            i += 1;
        }
        assert(self.results@.take(i as int) =~= self.results@);
        failed
    }
}

/// A clean exit terminates nothing.
pub proof fn lemma_clean_exit_terminates_nothing(procs: Seq<ProcessView>)
    ensures
        termination_targets(ExitOutcome::Code(0), procs).len() == 0,
{
}

/// After any other exit code, and when no exit information is available, the
/// targets are all the server instances.
pub proof fn lemma_bad_exit_targets_every_server(outcome: ExitOutcome, procs: Seq<ProcessView>)
    requires
        outcome != ExitOutcome::Code(0),
    ensures
        termination_targets(outcome, procs) == server_pids(procs),
        termination_targets(ExitOutcome::Unknown, procs) == server_pids(procs),
{
}

/// However the single attempts end, each of them is followed by the attempt
/// on the next target: after as many attempts as there are targets, every
/// target was attempted once, in order, and nothing is pending.
pub proof fn lemma_failure_does_not_stop_batch(batch: BatchView, outcomes: Seq<bool>)
    requires
        batch.results.len() == 0,
        outcomes.len() <= batch.targets.len(),
    ensures
        batch.record_all(outcomes).targets == batch.targets,
        batch.record_all(outcomes).results == outcomes,
        batch.record_all(outcomes).attempted() == batch.targets.take(outcomes.len() as int),
        outcomes.len() < batch.targets.len() ==> batch.record_all(outcomes).pending() == Some(
            batch.targets[outcomes.len() as int],
        ),
        outcomes.len() == batch.targets.len() ==> batch.record_all(outcomes).pending() is None
            && batch.record_all(outcomes).attempted() == batch.targets,
    decreases outcomes.len(),
{
    if outcomes.len() > 0 {
        lemma_failure_does_not_stop_batch(batch, outcomes.drop_last());
        assert(outcomes.drop_last().push(outcomes.last()) =~= outcomes);
    } else {
        assert(batch.results =~= outcomes);
    }
    assert(batch.targets.take(batch.targets.len() as int) =~= batch.targets);
}

} // verus!
