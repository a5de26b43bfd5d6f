//! Finding the helper and the graphical server in a process inventory.

use vstd::prelude::*;

verus! {

/// What the watchdog reads of one live process.
#[derive(Debug)]
pub struct ProcessInfo {
    pub pid: u32,
    pub name: String,
    pub parent: Option<u32>,
}

/// The mathematical value of a [`ProcessInfo`].
pub struct ProcessView {
    pub pid: u32,
    pub name: Seq<char>,
    pub parent: Option<u32>,
}

impl View for ProcessInfo {
    type V = ProcessView;

    open spec fn view(&self) -> ProcessView {
        ProcessView { pid: self.pid, name: self.name@, parent: self.parent }
    }
}

/// All live processes as seen at one instant, in inventory order.
#[derive(Debug)]
pub struct Snapshot {
    pub processes: Vec<ProcessInfo>,
}

impl View for Snapshot {
    type V = Seq<ProcessView>;

    open spec fn view(&self) -> Seq<ProcessView> {
        self.processes@.map_values(|p: ProcessInfo| p@)
    }
}

/// Name of the helper process under supervision.
pub open spec fn helper_name() -> Seq<char> {
    "sddm-helper"@
}

/// Name of the graphical server process.
pub open spec fn server_name() -> Seq<char> {
    "X"@
}

/// Name of the display manager that owns both.
pub open spec fn display_manager_name() -> Seq<char> {
    "sddm"@
}

/// `p` is named exactly as the helper.
pub open spec fn is_helper(p: ProcessView) -> bool {
    p.name == helper_name()
}

/// Some process of `procs` has the identifier `pid` and the display
/// manager's name.
pub open spec fn is_display_manager_pid(procs: Seq<ProcessView>, pid: u32) -> bool {
    exists|j: int|
        0 <= j < procs.len() && (#[trigger] procs[j]).pid == pid && procs[j].name
            == display_manager_name()
}

/// `p` is named exactly as the graphical server and its parent resolves, within
/// `procs`, to the display manager. A process without a parent, or whose
/// parent is not in `procs`, is no server instance.
pub open spec fn is_server_instance(procs: Seq<ProcessView>, p: ProcessView) -> bool {
    p.name == server_name() && p.parent is Some && is_display_manager_pid(
        procs,
        p.parent->Some_0,
    )
}

/// Identifiers of the processes of `procs` of which `pred` holds, in
/// inventory order.
pub open spec fn select(procs: Seq<ProcessView>, pred: spec_fn(ProcessView) -> bool) -> Seq<u32> {
    procs.filter(pred).map_values(|p: ProcessView| p.pid)
}

/// Identifiers of the helper instances of `procs`, in inventory order.
pub open spec fn helper_pids(procs: Seq<ProcessView>) -> Seq<u32> {
    select(procs, |p: ProcessView| is_helper(p))
}

/// Identifiers of the server instances of `procs`, in inventory order.
pub open spec fn server_pids(procs: Seq<ProcessView>) -> Seq<u32> {
    select(procs, |p: ProcessView| is_server_instance(procs, p))
}

/// How many processes of `procs` are named exactly as the helper.
pub open spec fn helper_count(procs: Seq<ProcessView>) -> nat
    decreases procs.len(),
{
    if procs.len() == 0 {
        0
    } else if is_helper(procs.last()) {
        helper_count(procs.drop_last()) + 1
    } else {
        helper_count(procs.drop_last())
    }
}

/// No two processes of `procs` share an identifier, as it is among the
/// processes that live at one instant.
pub open spec fn pids_distinct(procs: Seq<ProcessView>) -> bool {
    forall|i: int, j: int|
        0 <= i < procs.len() && 0 <= j < procs.len() && i != j ==> (#[trigger] procs[i]).pid != (
        #[trigger] procs[j]).pid
}

impl Snapshot {
    /// A snapshot of the given processes.
    pub fn new(processes: Vec<ProcessInfo>) -> (snapshot: Snapshot)
        ensures
            snapshot.processes == processes,
    {
        Snapshot { processes }
    }

    /// Whether a process with identifier `pid` and the display manager's name
    /// is in the snapshot.
    pub fn has_display_manager(&self, pid: u32) -> (found: bool)
        ensures
            found == is_display_manager_pid(self@, pid),
    {
        let manager = "sddm".to_owned();
        let mut i: usize = 0;
        while i < self.processes.len()
            invariant
                i <= self.processes.len(),
                manager@ == display_manager_name(),
                forall|j: int|
                    0 <= j < i ==> !((#[trigger] self@[j]).pid == pid && self@[j].name
                        == display_manager_name()),
            decreases self.processes.len() - i,
        {
            let p = &self.processes[i];
            if p.pid == pid && p.name == manager {
                assert(self@[i as int].pid == pid && self@[i as int].name
                    == display_manager_name());
                return true;
            }
            i += 1;
        }
        false
    }
}

/// Appending one process to `procs` appends it to the selection exactly when
/// `pred` holds of it.
proof fn lemma_select_push(
    procs: Seq<ProcessView>,
    p: ProcessView,
    pred: spec_fn(ProcessView) -> bool,
)
    ensures
        select(procs.push(p), pred) == if pred(p) {
            select(procs, pred).push(p.pid)
        } else {
            select(procs, pred)
        },
{
    reveal(Seq::filter);
    assert(procs.push(p).drop_last() =~= procs);
    if pred(p) {
        assert(select(procs.push(p), pred) =~= select(procs, pred).push(p.pid));
    }
}

/// Some process of `procs` of which `pred` holds has the identifier `pid`.
pub open spec fn has_match(
    procs: Seq<ProcessView>,
    pred: spec_fn(ProcessView) -> bool,
    pid: u32,
) -> bool {
    exists|i: int| 0 <= i < procs.len() && pred(#[trigger] procs[i]) && procs[i].pid == pid
}

/// The selection holds the identifiers of the processes of which `pred`
/// holds, and no others.
proof fn lemma_select_members(procs: Seq<ProcessView>, pred: spec_fn(ProcessView) -> bool)
    ensures
        forall|k: int|
            0 <= k < select(procs, pred).len() ==> has_match(
                procs,
                pred,
                #[trigger] select(procs, pred)[k],
            ),
        forall|i: int|
            0 <= i < procs.len() && pred(#[trigger] procs[i]) ==> select(procs, pred).contains(
                procs[i].pid,
            ),
    decreases procs.len(),
{
    if procs.len() == 0 {
        reveal(Seq::filter);
    } else {
        let init = procs.drop_last();
        let p = procs.last();
        let before = select(init, pred);
        let all = select(procs, pred);
        lemma_select_members(init, pred);
        assert(init.push(p) =~= procs);
        lemma_select_push(init, p, pred);
        assert forall|k: int| 0 <= k < all.len() implies has_match(
            procs,
            pred,
            #[trigger] all[k],
        ) by {
            if k < before.len() {
                assert(all[k] == before[k]);
                assert(has_match(init, pred, before[k]));
                let i = choose|i: int|
                    0 <= i < init.len() && pred(#[trigger] init[i]) && init[i].pid == before[k];
                assert(pred(procs[i]) && procs[i].pid == all[k]);
            } else {
                assert(pred(procs[procs.len() - 1]) && procs[procs.len() - 1].pid == all[k]);
            }
        }
        assert forall|i: int| 0 <= i < procs.len() && pred(#[trigger] procs[i]) implies all.contains(
            procs[i].pid,
        ) by {
            if i < init.len() {
                assert(pred(init[i]));
                let k = choose|k: int| 0 <= k < before.len() && before[k] == init[i].pid;
                assert(all[k] == procs[i].pid);
            } else {
                assert(all[all.len() - 1] == procs[i].pid);
            }
        }
    }
}

/// All live processes named exactly as the helper, in inventory order, each
/// given by its identifier.
pub fn find_helper_instances(snapshot: &Snapshot) -> (pids: Vec<u32>)
    ensures
        pids@ == helper_pids(snapshot@),
{
    let helper = "sddm-helper".to_owned();
    let mut pids: Vec<u32> = Vec::new();
    let mut i: usize = 0;
    assert(snapshot@.take(0) =~= Seq::empty());
    assert(helper_pids(Seq::empty()) =~= Seq::<u32>::empty()) by {
        reveal(Seq::filter);
    }
    while i < snapshot.processes.len()
        invariant
            i <= snapshot.processes.len(),
            helper@ == helper_name(),
            pids@ == helper_pids(snapshot@.take(i as int)),
        decreases snapshot.processes.len() - i,
    {
        let p = &snapshot.processes[i];
        proof {
            assert(snapshot@.take(i + 1) =~= snapshot@.take(i as int).push(snapshot@[i as int]));
            lemma_select_push(
                snapshot@.take(i as int),
                snapshot@[i as int],
                |p: ProcessView| is_helper(p),
            );
        }
        if p.name == helper {
            pids.push(p.pid);
        }
        i += 1;
    }
    assert(snapshot@.take(i as int) =~= snapshot@);
    pids
}

/// All live processes named exactly as the graphical server whose parent is,
/// in the same snapshot, the display manager; in inventory order, each given
/// by its identifier.
pub fn find_server_instances(snapshot: &Snapshot) -> (pids: Vec<u32>)
    ensures
        pids@ == server_pids(snapshot@),
{
    let server = "X".to_owned();
    let mut pids: Vec<u32> = Vec::new();
    let mut i: usize = 0;
    let ghost pred = |p: ProcessView| is_server_instance(snapshot@, p);
    assert(snapshot@.take(0) =~= Seq::empty());
    assert(select(Seq::empty(), pred) =~= Seq::<u32>::empty()) by {
        reveal(Seq::filter);
    }
    while i < snapshot.processes.len()
        invariant
            i <= snapshot.processes.len(),
            server@ == server_name(),
            pred == |p: ProcessView| is_server_instance(snapshot@, p),
            pids@ == select(snapshot@.take(i as int), pred),
        decreases snapshot.processes.len() - i,
    {
        let p = &snapshot.processes[i];
        proof {
            assert(snapshot@.take(i + 1) =~= snapshot@.take(i as int).push(snapshot@[i as int]));
            lemma_select_push(snapshot@.take(i as int), snapshot@[i as int], pred);
        }
        let is_server = p.name == server && match p.parent {
            Some(parent) => snapshot.has_display_manager(parent),
            None => false,
        };
        if is_server {
            pids.push(p.pid);
        }
        i += 1;
    }
    assert(snapshot@.take(i as int) =~= snapshot@);
    pids
}

/// The helper instances found are the processes named as the helper, no
/// more and no fewer: as many identifiers as there are such processes, each
/// of them the identifier of one, and none of those left out. Where no
/// process is named as the helper, nothing is found.
pub proof fn lemma_helper_instances_exact(procs: Seq<ProcessView>)
    ensures
        helper_pids(procs).len() == helper_count(procs),
        (forall|i: int| 0 <= i < procs.len() ==> !is_helper(#[trigger] procs[i])) ==> helper_pids(
            procs,
        ) == Seq::<u32>::empty(),
        forall|k: int|
            0 <= k < helper_pids(procs).len() ==> has_match(
                procs,
                |p: ProcessView| is_helper(p),
                #[trigger] helper_pids(procs)[k],
            ),
        forall|i: int|
            0 <= i < procs.len() && is_helper(#[trigger] procs[i]) ==> helper_pids(procs).contains(
                procs[i].pid,
            ),
    decreases procs.len(),
{
    let pred = |p: ProcessView| is_helper(p);
    lemma_select_members(procs, pred);
    if procs.len() == 0 {
        reveal(Seq::filter);
    } else {
        lemma_helper_instances_exact(procs.drop_last());
        assert(procs.drop_last().push(procs.last()) =~= procs);
        lemma_select_push(procs.drop_last(), procs.last(), pred);
    }
    if forall|i: int| 0 <= i < procs.len() ==> !is_helper(#[trigger] procs[i]) {
        if helper_pids(procs).len() > 0 {
            assert(has_match(procs, pred, helper_pids(procs)[0]));
            let i = choose|i: int|
                0 <= i < procs.len() && pred(#[trigger] procs[i]) && procs[i].pid == helper_pids(
                    procs,
                )[0];
            assert(is_helper(procs[i]));
        }
        assert(helper_pids(procs) =~= Seq::<u32>::empty());
    }
}

/// A process named as the server is found as a server instance when its
/// parent is the display manager. It is left out when it has no parent, when
/// its parent is not in the inventory, and when its parent bears another
/// name.
pub proof fn lemma_server_instances_by_parent(procs: Seq<ProcessView>, i: int)
    requires
        0 <= i < procs.len(),
    ensures
        is_server_instance(procs, procs[i]) ==> server_pids(procs).contains(procs[i].pid),
        pids_distinct(procs) && !is_server_instance(procs, procs[i]) ==> !server_pids(
            procs,
        ).contains(procs[i].pid),
        pids_distinct(procs) && procs[i].parent is Some ==> forall|j: int|
            0 <= j < procs.len() && (#[trigger] procs[j]).pid == procs[i].parent->Some_0
                ==> (is_server_instance(procs, procs[i]) <==> procs[i].name == server_name()
                && procs[j].name == display_manager_name()),
{
    let pred = |p: ProcessView| is_server_instance(procs, p);
    lemma_select_members(procs, pred);
    if is_server_instance(procs, procs[i]) {
        assert(pred(procs[i]));
    }
    if pids_distinct(procs) && !is_server_instance(procs, procs[i]) && server_pids(procs).contains(
        procs[i].pid,
    ) {
        let k = choose|k: int|
            0 <= k < server_pids(procs).len() && server_pids(procs)[k] == procs[i].pid;
        assert(has_match(procs, pred, server_pids(procs)[k]));
        let j = choose|j: int|
            0 <= j < procs.len() && pred(#[trigger] procs[j]) && procs[j].pid == server_pids(
                procs,
            )[k];
        assert(j == i);
    }
}

} // verus!
