use crate::candidate::MergeCandidate;
use crate::events::{AppEvent, KeyCode};
use crate::state::{
    base_for, chain_selected, checking_next, checking_out_target_next, checkout_candidate_next,
    conflicts_next, fail, fixing_next, getting_pulls_next, merging_next, pulling_next,
    pushing_next, rebasing_next, sort_next, unchain_last, updating_next, validating_next,
    waiting_clean_next, waiting_resolution_next, ActivePane, AppState, MergingState, Operation,
    Outcome, SortingState, WorkingState,
};
use vstd::prelude::*;

verus! {

impl Operation {
    /// The outcome of an operation whose program has exited with
    /// `exit_code` (none when a signal ended it), having printed nothing
    /// when `printed_nothing`.
    ///
    /// A rebase, a rebase probe and a validation report whether their program
    /// exited with status zero: the rebase finished, no conflicts remain,
    /// validation passed. Any other operation fails unless its program exited
    /// with status zero; the status check then reports whether the tree is
    /// clean, and a checkout, pull or push reports `true`.
    pub fn outcome_of(&self, exit_code: Option<i32>, printed_nothing: bool) -> (o: Outcome)
        ensures
            o == match self {
                Operation::Rebase(_) | Operation::ContinueRebase | Operation::Validate(_) => Outcome::Resolved(
                    exit_code == Some(0i32),
                ),
                Operation::CheckClean => if exit_code == Some(0i32) {
                    Outcome::Resolved(printed_nothing)
                } else {
                    Outcome::Failed
                },
                _ => if exit_code == Some(0i32) {
                    Outcome::Resolved(true)
                } else {
                    Outcome::Failed
                },
            },
    {
        let exited_cleanly = match exit_code {
            Some(code) => code == 0,
            None => false,
        };
        match self {
            Operation::Rebase(_) | Operation::ContinueRebase | Operation::Validate(_) => Outcome::Resolved(
                exited_cleanly,
            ),
            Operation::CheckClean => if exited_cleanly {
                Outcome::Resolved(printed_nothing)
            } else {
                Outcome::Failed
            },
            _ => if exited_cleanly {
                Outcome::Resolved(true)
            } else {
                Outcome::Failed
            },
        }
    }
}

/// A step's result: the next stage and the task to start, if any.
pub type Step = (AppState, Option<Operation>);

fn failed() -> (r: Step)
    ensures
        (r.0@, r.1) == fail(),
{
    (AppState::Failed, None)
}

/// The branch the current candidate goes onto: the head of the last
/// finished candidate, or the target branch while none is finished.
pub fn retarget_base(branch: &String, done: &Vec<MergeCandidate>) -> (base: String)
    ensures
        base == base_for(done@, *branch),
{
    if done.len() == 0 {
        branch.clone()
    } else {
        done[done.len() - 1].head.clone()
    }
}

/// Whether the event is the space key, the operator's "go on".
fn is_space(e: &AppEvent) -> (r: bool)
    ensures
        r == (e matches AppEvent::Input(k) && k.code == KeyCode::Char(' ')),
{
    match e {
        AppEvent::Input(k) => k.code == KeyCode::Char(' '),
        _ => false,
    }
}

/// Whether the event reports a failure of the multiplexer.
fn is_error(e: &AppEvent) -> (r: bool)
    ensures
        r == (e is Error),
{
    match e {
        AppEvent::Error(_) => true,
        _ => false,
    }
}

pub fn transition_checking(outcome: Outcome, branch: &String) -> (r: Step)
    ensures
        (r.0@, r.1) == checking_next(outcome, *branch),
{
    match outcome {
        Outcome::NotReady => (AppState::CheckingRepo, None),
        Outcome::Resolved(is_clean) => if is_clean {
            (AppState::CheckingOutTargetBranch, Some(Operation::Checkout(branch.clone())))
        } else {
            (AppState::WaitingForCleanRepo, None)
        },
        _ => failed(),
    }
}

pub fn transition_waiting_clean(last_event: &AppEvent) -> (r: Step)
    ensures
        (r.0@, r.1) == waiting_clean_next(*last_event),
{
    if is_space(last_event) {
        (AppState::CheckingRepo, Some(Operation::CheckClean))
    } else if is_error(last_event) {
        failed()
    } else {
        (AppState::WaitingForCleanRepo, None)
    }
}

pub fn transition_checking_out_target(outcome: Outcome) -> (r: Step)
    ensures
        (r.0@, r.1) == checking_out_target_next(outcome),
{
    match outcome {
        Outcome::NotReady => (AppState::CheckingOutTargetBranch, None),
        Outcome::Resolved(true) => (AppState::PullingRemote, Some(Operation::PullRemote)),
        _ => failed(),
    }
}

pub fn transition_pull_remote(outcome: Outcome) -> (r: Step)
    ensures
        (r.0@, r.1) == pulling_next(outcome),
{
    match outcome {
        Outcome::NotReady => (AppState::PullingRemote, None),
        Outcome::Resolved(true) => (AppState::GettingPulls, None),
        _ => failed(),
    }
}

pub fn transition_getting_pulls(outcome: Outcome) -> (r: Step)
    ensures
        (r.0@, r.1) == getting_pulls_next(outcome),
        r.0@.wf(),
{
    match outcome {
        Outcome::NotReady => (AppState::GettingPulls, None),
        Outcome::Fetched(pulls) => {
            let merge_chain: Vec<MergeCandidate> = Vec::new();
            assert(merge_chain@ =~= seq![]);
            let sorting = SortingState { unsorted: pulls, current_index: 0, merge_chain };
            (AppState::WaitingForSort(sorting), None)
        },
        _ => failed(),
    }
}

pub fn transition_waiting_sort(pane: &ActivePane, last_event: &AppEvent, state: SortingState) -> (r:
    Step)
    requires
        state@.wf(),
    ensures
        (r.0@, r.1) == sort_next(state@, *pane, *last_event),
        r.0@.wf(),
{
    if is_error(last_event) {
        return failed();
    }
    let code = match last_event {
        AppEvent::Input(k) => k.code,
        _ => {
            return (AppState::WaitingForSort(state), None);
        },
    };
    if *pane == ActivePane::Log {
        return (AppState::WaitingForSort(state), None);
    }
    let ghost m = state@;
    let SortingState { current_index, mut unsorted, mut merge_chain } = state;
    let new_state = match code {
        // select the previous candidate
        KeyCode::Up => {
            let current_index = if unsorted.len() == 0 {
                current_index
            } else if current_index == 0 {
                unsorted.len() - 1
            } else {
                current_index - 1
            };
            SortingState { unsorted, current_index, merge_chain }
        },
        // select the next candidate
        KeyCode::Down => {
            let current_index = if unsorted.len() == 0 {
                current_index
            } else if current_index + 1 == unsorted.len() {
                0
            } else {
                current_index + 1
            };
            SortingState { unsorted, current_index, merge_chain }
        },
        // put the selected candidate at the end of the chain
        KeyCode::Enter => {
            if unsorted.len() > 0 {
                let next_head = unsorted.remove(current_index);
                merge_chain.push(next_head);
            }
            SortingState { unsorted, current_index: 0, merge_chain }
        },
        // take the end of the chain back
        KeyCode::Esc => {
            if let Some(head) = merge_chain.pop() {
                unsorted.push(head);
            }
            SortingState { unsorted, current_index: 0, merge_chain }
        },
        // confirm the chain
        KeyCode::Char(' ') => {
            if merge_chain.len() == 0 {
                return (AppState::Done, None);
            }
            let current_checkout = merge_chain.remove(0);
            assert(merge_chain@ =~= m.chain.drop_first());
            let done: Vec<MergeCandidate> = Vec::new();
            assert(done@ =~= seq![]);
            let working = WorkingState { current_checkout, next: merge_chain, done };
            return (AppState::UpdatingCandidate(working), None);
        },
        _ => SortingState { unsorted, current_index, merge_chain },
    };
    proof {
        if code == KeyCode::Enter && m.unsorted.len() > 0 {
            assert(new_state@ =~= chain_selected(m));
        }
        if code == KeyCode::Esc && m.chain.len() > 0 {
            assert(new_state@.chain =~= m.chain.drop_last());
            assert(new_state@ =~= unchain_last(m));
        }
    }
    (AppState::WaitingForSort(new_state), None)
}

/// Points the current candidate at its base once the hosting service took
/// the change, then starts checking out its branch.
pub fn transition_updating_candidate(branch: &String, s: WorkingState, outcome: Outcome) -> (r: Step)
    ensures
        (r.0@, r.1) == updating_next(s@, *branch, outcome),
{
    match outcome {
        Outcome::NotReady => (AppState::UpdatingCandidate(s), None),
        Outcome::Resolved(true) => {
            let base = retarget_base(branch, &s.done);
            let WorkingState { current_checkout, next, done } = s;
            let head = current_checkout.head.clone();
            let current_checkout = current_checkout.retarget(base);
            (
                AppState::CheckingOutCandidate(WorkingState { current_checkout, next, done }),
                Some(Operation::Checkout(head)),
            )
        },
        _ => failed(),
    }
}

pub fn transition_checkout_candidate(branch: &String, outcome: Outcome, s: WorkingState) -> (r: Step)
    ensures
        (r.0@, r.1) == checkout_candidate_next(s@, *branch, outcome),
{
    match outcome {
        Outcome::NotReady => (AppState::CheckingOutCandidate(s), None),
        Outcome::Resolved(true) => {
            let next_base = retarget_base(branch, &s.done);
            (AppState::RebaseCandidate(s), Some(Operation::Rebase(next_base)))
        },
        _ => failed(),
    }
}

pub fn transition_rebasing(cmd: &String, outcome: Outcome, s: WorkingState) -> (r: Step)
    ensures
        (r.0@, r.1) == rebasing_next(s@, *cmd, outcome),
{
    match outcome {
        Outcome::NotReady => (AppState::RebaseCandidate(s), None),
        Outcome::Resolved(finished) => if finished {
            (AppState::Validating(s), Some(Operation::Validate(cmd.clone())))
        } else {
            (AppState::CheckingForConflicts(s), Some(Operation::ContinueRebase))
        },
        _ => failed(),
    }
}

pub fn transition_check_conflicts(cmd: &String, outcome: Outcome, s: WorkingState) -> (r: Step)
    ensures
        (r.0@, r.1) == conflicts_next(s@, *cmd, outcome),
{
    match outcome {
        Outcome::NotReady => (AppState::CheckingForConflicts(s), None),
        Outcome::Resolved(no_conflicts) => if no_conflicts {
            (AppState::Validating(s), Some(Operation::Validate(cmd.clone())))
        } else {
            (AppState::WaitingForResolution(s), None)
        },
        _ => failed(),
    }
}

pub fn transition_waiting_resolution(last_event: &AppEvent, s: WorkingState) -> (r: Step)
    ensures
        (r.0@, r.1) == waiting_resolution_next(s@, *last_event),
{
    if is_space(last_event) {
        (AppState::CheckingForConflicts(s), Some(Operation::ContinueRebase))
    } else if is_error(last_event) {
        failed()
    } else {
        (AppState::WaitingForResolution(s), None)
    }
}

pub fn transition_validate(outcome: Outcome, s: WorkingState) -> (r: Step)
    ensures
        (r.0@, r.1) == validating_next(s@, outcome),
{
    match outcome {
        Outcome::NotReady => (AppState::Validating(s), None),
        Outcome::Resolved(is_validated) => if is_validated {
            (AppState::PushingCandidate(s), Some(Operation::Push))
        } else {
            (AppState::WaitingForFix(s), None)
        },
        _ => failed(),
    }
}

pub fn transition_fixing(last_event: &AppEvent, cmd: &String, s: WorkingState) -> (r: Step)
    ensures
        (r.0@, r.1) == fixing_next(s@, *cmd, *last_event),
{
    if is_space(last_event) {
        (AppState::Validating(s), Some(Operation::Validate(cmd.clone())))
    } else if is_error(last_event) {
        failed()
    } else {
        (AppState::WaitingForFix(s), None)
    }
}

/// A pushed candidate joins the finished ones; the next waiting candidate
/// becomes current, or the finished chain goes on to be merged.
pub fn transition_pushing(outcome: Outcome, s: WorkingState) -> (r: Step)
    ensures
        (r.0@, r.1) == pushing_next(s@, outcome),
{
    match outcome {
        Outcome::NotReady => (AppState::PushingCandidate(s), None),
        Outcome::Resolved(true) => {
            let ghost w = s@;
            let WorkingState { current_checkout, mut next, mut done } = s;
            done.push(current_checkout);
            if next.len() == 0 {
                (AppState::Merging(MergingState { to_merge: done }), None)
            } else {
                let current_checkout = next.remove(0);
                assert(next@ =~= w.next.drop_first());
                (AppState::UpdatingCandidate(WorkingState { current_checkout, next, done }), None)
            }
        },
        _ => failed(),
    }
}

/// Drops the front of the queue once its merge call succeeded; the session
/// is done when the queue runs out.
pub fn transition_merging(s: MergingState, outcome: Outcome) -> (r: Step)
    ensures
        (r.0@, r.1) == merging_next(s@, outcome),
{
    let MergingState { mut to_merge } = s;
    if to_merge.len() == 0 {
        return (AppState::Done, None);
    }
    match outcome {
        Outcome::NotReady => (AppState::Merging(MergingState { to_merge }), None),
        Outcome::Resolved(true) => {
            if to_merge.len() == 1 {
                (AppState::Done, None)
            } else {
                let ghost q = to_merge@;
                let _merged = to_merge.remove(0);
                assert(to_merge@ =~= q.drop_first());
                (AppState::Merging(MergingState { to_merge }), None)
            }
        },
        _ => failed(),
    }
}

} // verus!
