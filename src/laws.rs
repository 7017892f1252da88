use crate::events::{AppEvent, KeyCode, KeyInput};
use crate::state::{
    base_for, call_for, next, ActivePane, Operation, Outcome, RemoteCall, SortingView, StateView,
    WorkingView,
};
use vstd::prelude::*;

verus! {

/// A poll that has not resolved leaves every stage that waits on pending
/// work exactly as it was and starts nothing, however often it repeats.
pub proof fn lemma_unresolved_poll_keeps_state(
    s: StateView,
    branch: String,
    cmd: String,
    pane: ActivePane,
    e: AppEvent,
)
    requires
        s.awaits_outcome(),
    ensures
        next(s, branch, cmd, pane, e, Outcome::NotReady) == (s, None::<Operation>),
{
}

/// Work that resolves to an error sends every stage that waits on it to
/// `Failed`, and `Failed` never moves again.
pub proof fn lemma_failure_is_final(
    s: StateView,
    branch: String,
    cmd: String,
    pane: ActivePane,
    e: AppEvent,
    o: Outcome,
)
    ensures
        s.awaits_outcome() ==> next(s, branch, cmd, pane, e, Outcome::Failed) == (
            StateView::Failed,
            None::<Operation>,
        ),
        next(StateView::Failed, branch, cmd, pane, e, o) == (StateView::Failed, None::<Operation>),
{
}

/// While ordering, up then down, or down then up, brings the cursor back to
/// where it was and changes nothing else.
pub proof fn lemma_cursor_round_trip(
    m: SortingView,
    branch: String,
    cmd: String,
    up: KeyInput,
    down: KeyInput,
    o1: Outcome,
    o2: Outcome,
)
    requires
        m.wf(),
        m.unsorted.len() > 0,
        up.code == KeyCode::Up,
        down.code == KeyCode::Down,
    ensures
        next(
            next(StateView::WaitingForSort(m), branch, cmd, ActivePane::List, AppEvent::Input(up), o1).0,
            branch,
            cmd,
            ActivePane::List,
            AppEvent::Input(down),
            o2,
        ) == (StateView::WaitingForSort(m), None::<Operation>),
        next(
            next(
                StateView::WaitingForSort(m),
                branch,
                cmd,
                ActivePane::List,
                AppEvent::Input(down),
                o1,
            ).0,
            branch,
            cmd,
            ActivePane::List,
            AppEvent::Input(up),
            o2,
        ) == (StateView::WaitingForSort(m), None::<Operation>),
{
}

/// While ordering, enter then escape gives back the chain as it was and
/// the unplaced candidates with the same contents, the cursor at the start;
/// with the cursor on the last unplaced candidate, in the same order too.
pub proof fn lemma_enter_escape_round_trip(
    m: SortingView,
    branch: String,
    cmd: String,
    enter: KeyInput,
    esc: KeyInput,
    o1: Outcome,
    o2: Outcome,
)
    requires
        m.wf(),
        m.unsorted.len() > 0,
        enter.code == KeyCode::Enter,
        esc.code == KeyCode::Esc,
    ensures
        ({
            let after = next(
                next(
                    StateView::WaitingForSort(m),
                    branch,
                    cmd,
                    ActivePane::List,
                    AppEvent::Input(enter),
                    o1,
                ).0,
                branch,
                cmd,
                ActivePane::List,
                AppEvent::Input(esc),
                o2,
            );
            &&& after.1 is None
            &&& after.0 matches StateView::WaitingForSort(r)
            &&& r.chain == m.chain
            &&& r.unsorted.to_multiset() == m.unsorted.to_multiset()
            &&& r.cursor == 0
            &&& m.cursor + 1 == m.unsorted.len() ==> r.unsorted == m.unsorted
        }),
{
    broadcast use vstd::seq_lib::group_to_multiset_ensures;
    broadcast use vstd::multiset::group_multiset_axioms;

    let i = m.cursor as int;
    let x = m.unsorted[i];
    let rest = m.unsorted.remove(i);
    assert(m.chain.push(x).drop_last() =~= m.chain);
    assert(m.unsorted.to_multiset().contains(x));
    assert(rest.push(x).to_multiset() =~= m.unsorted.to_multiset());
    if m.cursor + 1 == m.unsorted.len() {
        assert(rest.push(x) =~= m.unsorted);
    }
}

/// While ordering, up, down, enter and escape keep the number of
/// candidates, placed and unplaced together, and keep the cursor valid.
pub proof fn lemma_sorting_keeps_candidates(
    m: SortingView,
    branch: String,
    cmd: String,
    pane: ActivePane,
    key: KeyInput,
    o: Outcome,
)
    requires
        m.wf(),
        key.code == KeyCode::Up || key.code == KeyCode::Down || key.code == KeyCode::Enter
            || key.code == KeyCode::Esc,
    ensures
        next(StateView::WaitingForSort(m), branch, cmd, pane, AppEvent::Input(key), o).0 matches StateView::WaitingForSort(r)
            && r.total() == m.total() && r.wf(),
{
}

/// Every step of the rebase loop keeps the number of candidates in the
/// chain, finished, current and waiting; a successful push moves one
/// candidate from waiting to finished, and the last one hands the whole
/// chain over to be merged.
pub proof fn lemma_chain_size_kept(
    s: StateView,
    branch: String,
    cmd: String,
    pane: ActivePane,
    e: AppEvent,
    o: Outcome,
)
    requires
        s.working() is Some,
    ensures
        ({
            let w = s.working()->Some_0;
            let t = next(s, branch, cmd, pane, e, o).0;
            &&& t.working() is Some ==> t.working()->Some_0.total() == w.total()
            &&& t matches StateView::Merging(q) ==> q.len() == w.total()
            &&& (s is PushingCandidate && o == Outcome::Resolved(true) && w.next.len() > 0) ==> {
                &&& t.working() is Some
                &&& t.working()->Some_0.next.len() == w.next.len() - 1
                &&& t.working()->Some_0.done.len() == w.done.len() + 1
            }
            &&& (s is PushingCandidate && o == Outcome::Resolved(true) && w.next.len() == 0) ==> t == StateView::Merging(
                w.done.push(w.current),
            )
        }),
{
}

/// A candidate is retargeted, and then rebased, onto the target branch while
/// no candidate is finished, and onto the head of the last finished one
/// after that.
pub proof fn lemma_retarget_base(w: WorkingView, branch: String, cmd: String, pane: ActivePane, e: AppEvent)
    ensures
        base_for(w.done, branch) == (if w.done.len() == 0 {
            branch
        } else {
            w.done.last().head
        }),
        call_for(StateView::UpdatingCandidate(w), branch) == Some(
            RemoteCall::SetBase { number: w.current.number, base: base_for(w.done, branch) },
        ),
        next(StateView::CheckingOutCandidate(w), branch, cmd, pane, e, Outcome::Resolved(true)).1
            == Some(Operation::Rebase(base_for(w.done, branch))),
{
}

} // verus!
