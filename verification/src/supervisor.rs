//! The supervisor: what one poll of the process inventory leads to.

use crate::locator::{
    find_helper_instances, helper_pids, is_helper, lemma_helper_instances_exact, ProcessView,
    Snapshot,
};
use vstd::prelude::*;

verus! {

/// After this many polls in a row without a fresh helper, the next such poll
/// triggers the corrective action.
pub const MISSING_THRESHOLD: u8 = 10;

/// The delay between two polls, in milliseconds.
pub const POLL_DELAY_MILLIS: u64 = 1500;

/// What the supervisor carries from one poll to the next.
#[derive(Clone, Copy, Debug, PartialEq, Eq, Structural)]
pub struct Supervisor {
    /// Polls in a row that found no fresh helper.
    pub missing: u8,
    /// The helper instance that was traced last.
    pub last_traced: Option<u32>,
}

/// What the driver has to do after a poll.
#[derive(Clone, Copy, Debug, PartialEq, Eq, Structural)]
pub enum PollAction {
    /// Trace this helper instance until its session is over.
    Trace(u32),
    /// Nothing; poll again after the delay.
    Idle,
    /// The helper has been missing for too long: run the corrective action
    /// with no exit information.
    Correct,
}

/// The first helper instance of `helpers` that was not traced last.
pub open spec fn first_fresh(helpers: Seq<u32>, last: Option<u32>) -> Option<u32>
    decreases helpers.len(),
{
    if helpers.len() == 0 {
        None
    } else if Some(helpers[0]) != last {
        Some(helpers[0])
    } else {
        first_fresh(helpers.drop_first(), last)
    }
}

impl Supervisor {
    /// The counter never exceeds the threshold between polls.
    pub open spec fn wf(self) -> bool {
        self.missing <= MISSING_THRESHOLD
    }

    /// One poll that found the fresh helper instance `found`, or none.
    ///
    /// A fresh instance resets the counter and becomes the one traced last.
    /// Without one the counter goes up by one; when that takes it over the
    /// threshold, the corrective action is due and the counter starts again
    /// at 0.
    pub open spec fn step(self, found: Option<u32>) -> (Supervisor, PollAction) {
        match found {
            Some(pid) => (Supervisor { missing: 0, last_traced: Some(pid) }, PollAction::Trace(pid)),
            None => if self.missing + 1 > MISSING_THRESHOLD {
                (Supervisor { missing: 0, last_traced: self.last_traced }, PollAction::Correct)
            } else {
                (
                    Supervisor {
                        missing: (self.missing + 1) as u8,
                        last_traced: self.last_traced,
                    },
                    PollAction::Idle,
                )
            },
        }
    }

    /// One poll on the inventory `procs`.
    pub open spec fn poll_spec(self, procs: Seq<ProcessView>) -> (Supervisor, PollAction) {
        self.step(first_fresh(helper_pids(procs), self.last_traced))
    }

    /// The supervisor after one poll on each of `inventories`, in order.
    pub open spec fn after_polls(self, inventories: Seq<Seq<ProcessView>>) -> Supervisor
        decreases inventories.len(),
    {
        if inventories.len() == 0 {
            self
        } else {
            self.after_polls(inventories.drop_last()).poll_spec(inventories.last()).0
        }
    }

    /// How often the corrective action was due in the polls on `inventories`.
    pub open spec fn corrections_in_polls(self, inventories: Seq<Seq<ProcessView>>) -> nat
        decreases inventories.len(),
    {
        if inventories.len() == 0 {
            0
        } else {
            let earlier = inventories.drop_last();
            let due = self.after_polls(earlier).poll_spec(inventories.last()).1
                == PollAction::Correct;
            self.corrections_in_polls(earlier) + if due {
                1nat
            } else {
                0nat
            }
        }
    }

    /// The supervisor at start: nothing missed, nothing traced.
    pub fn new() -> (supervisor: Supervisor)
        ensures
            supervisor == (Supervisor { missing: 0, last_traced: None }),
            supervisor.wf(),
    {
        Supervisor { missing: 0, last_traced: None }
    }

    /// Takes one fresh snapshot of the inventory and answers with the
    /// supervisor after this poll and the action for the driver.
    pub fn poll(self, snapshot: &Snapshot) -> (next: (Supervisor, PollAction))
        ensures
            next == self.poll_spec(snapshot@),
            next.0.wf(),
    {
        let helpers = find_helper_instances(snapshot);
        match pick_fresh(&helpers, self.last_traced) {
            Some(pid) => (Supervisor { missing: 0, last_traced: Some(pid) }, PollAction::Trace(pid)),
            None => {
                if self.missing >= MISSING_THRESHOLD {
                    (Supervisor { missing: 0, last_traced: self.last_traced }, PollAction::Correct)
                } else {
                    (
                        Supervisor { missing: self.missing + 1, last_traced: self.last_traced },
                        PollAction::Idle,
                    )
                }
            },
        }
    }
}

/// The first of `helpers` that is not the instance traced last. An instance
/// that was traced before is skipped, whatever its place.
pub fn pick_fresh(helpers: &Vec<u32>, last: Option<u32>) -> (fresh: Option<u32>)
    ensures
        fresh == first_fresh(helpers@, last),
{
    let mut i: usize = 0;
    assert(helpers@.skip(0) =~= helpers@);
    while i < helpers.len()
        invariant
            i <= helpers.len(),
            first_fresh(helpers@, last) == first_fresh(helpers@.skip(i as int), last),
        decreases helpers.len() - i,
    {
        let pid = helpers[i];
        let stale = match last {
            Some(traced) => traced == pid,
            None => false,
        };
        if !stale {
            return Some(pid);
        }
        assert(helpers@.skip(i as int).drop_first() =~= helpers@.skip(i + 1));
        i += 1;
    }
    None
}

/// The inventory `procs` shows no helper instance but, at most, the one that
/// was traced last.
pub open spec fn no_fresh_helper(procs: Seq<ProcessView>, last: Option<u32>) -> bool {
    first_fresh(helper_pids(procs), last) is None
}

/// A poll on an inventory without any process named as the helper is a poll
/// without a fresh helper.
pub proof fn lemma_no_helper_is_no_fresh_helper(procs: Seq<ProcessView>, last: Option<u32>)
    requires
        forall|i: int| 0 <= i < procs.len() ==> !is_helper(#[trigger] procs[i]),
    ensures
        no_fresh_helper(procs, last),
{
    lemma_helper_instances_exact(procs);
}

/// Starting from a counter at 0, polls in a row that find no fresh helper
/// only count up as long as there are no more of them than the threshold;
/// one more, and the corrective action is due, for the first time and once,
/// on that last poll, and the counter is back at 0.
pub proof fn lemma_missing_run_corrects_once(start: Supervisor, inventories: Seq<Seq<ProcessView>>)
    requires
        start.missing == 0,
        inventories.len() <= MISSING_THRESHOLD + 1,
        forall|i: int|
            0 <= i < inventories.len() ==> no_fresh_helper(
                #[trigger] inventories[i],
                start.last_traced,
            ),
    ensures
        start.after_polls(inventories).last_traced == start.last_traced,
        inventories.len() <= MISSING_THRESHOLD ==> start.after_polls(inventories).missing
            == inventories.len() && start.corrections_in_polls(inventories) == 0,
        inventories.len() == MISSING_THRESHOLD + 1 ==> start.after_polls(inventories).missing == 0
            && start.corrections_in_polls(inventories) == 1 && start.after_polls(
            inventories.drop_last(),
        ).poll_spec(inventories.last()).1 == PollAction::Correct,
    decreases inventories.len(),
{
    if inventories.len() > 0 {
        let earlier = inventories.drop_last();
        assert forall|i: int| 0 <= i < earlier.len() implies no_fresh_helper(
            #[trigger] earlier[i],
            start.last_traced,
        ) by {
            assert(earlier[i] == inventories[i]);
        }
        lemma_missing_run_corrects_once(start, earlier);
        assert(no_fresh_helper(inventories[inventories.len() - 1], start.last_traced));
    }
}

/// A poll that reports the instance traced last as the only helper does not
/// trace it again: it goes as a poll without a helper goes.
pub proof fn lemma_stale_instance_not_retraced(
    supervisor: Supervisor,
    procs: Seq<ProcessView>,
    pid: u32,
)
    requires
        supervisor.last_traced == Some(pid),
        helper_pids(procs) == seq![pid],
    ensures
        no_fresh_helper(procs, supervisor.last_traced),
        supervisor.poll_spec(procs) == supervisor.step(None),
        !(supervisor.poll_spec(procs).1 matches PollAction::Trace(_)),
        supervisor.poll_spec(procs).0.last_traced == Some(pid),
{
    assert(seq![pid].drop_first() =~= Seq::<u32>::empty());
    reveal_with_fuel(first_fresh, 3);
}

/// No poll traces the instance that was traced last, wherever it stands among
/// the helpers, and an instance that is traced is one of the helpers found.
pub proof fn lemma_fresh_is_never_last(helpers: Seq<u32>, last: Option<u32>)
    ensures
        first_fresh(helpers, last) is Some ==> first_fresh(helpers, last) != last
            && helpers.contains(first_fresh(helpers, last)->Some_0),
        first_fresh(helpers, last) is None <==> forall|i: int|
            0 <= i < helpers.len() ==> Some(#[trigger] helpers[i]) == last,
    decreases helpers.len(),
{
    if helpers.len() > 0 {
        let rest = helpers.drop_first();
        lemma_fresh_is_never_last(rest, last);
        if Some(helpers[0]) == last {
            if first_fresh(rest, last) is Some {
                let p = first_fresh(rest, last)->Some_0;
                let k = choose|k: int| 0 <= k < rest.len() && rest[k] == p;
                assert(helpers[k + 1] == p);
                let j = choose|j: int| 0 <= j < rest.len() && Some(#[trigger] rest[j]) != last;
                assert(Some(helpers[j + 1]) != last);
            } else {
                assert forall|i: int| 0 <= i < helpers.len() implies Some(#[trigger] helpers[i])
                    == last by {
                    if i > 0 {
                        assert(rest[i - 1] == helpers[i]);
                    }
                }
            }
        } else {
            assert(helpers.contains(helpers[0]));
        }
    }
}

} // verus!
