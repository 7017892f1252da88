use crate::candidate::MergeCandidate;
use crate::events::{AppEvent, KeyCode};
use vstd::prelude::*;

verus! {

/// Which pane of the interface has the keyboard.
#[derive(Debug, Clone, Copy, PartialEq, Eq, Structural)]
pub enum ActivePane {
    List,
    Log,
}

/// The operator ordering the candidates: `unsorted` holds those not yet
/// placed, `merge_chain` the chosen order, bottom of the stack first, and
/// `current_index` the cursor into `unsorted`.
#[derive(Debug, Clone, PartialEq, Eq)]
pub struct SortingState {
    pub unsorted: Vec<MergeCandidate>,
    pub current_index: usize,
    pub merge_chain: Vec<MergeCandidate>,
}

/// A chain being rebased: `current_checkout` is moving through the
/// pipeline, `next` waits behind it and `done` lists the finished ones in
/// the order they were finished.
#[derive(Debug, Clone, PartialEq, Eq)]
pub struct WorkingState {
    pub current_checkout: MergeCandidate,
    pub next: Vec<MergeCandidate>,
    pub done: Vec<MergeCandidate>,
}

/// The rebased chain, merged from the front.
#[derive(Debug, Clone, PartialEq, Eq)]
pub struct MergingState {
    pub to_merge: Vec<MergeCandidate>,
}

/// The stages of the pipeline. A stage that waits for a background task
/// carries no handle: the driver holds the one task in flight.
#[derive(Debug, Clone, PartialEq, Eq)]
pub enum AppState {
    /// waiting for the "is the working tree clean" task
    CheckingRepo,
    /// waiting for the operator to clean up and press space
    WaitingForCleanRepo,
    /// waiting for the checkout of the target branch
    CheckingOutTargetBranch,
    /// waiting for the pull from the remote
    PullingRemote,
    /// about to list the open pull requests
    GettingPulls,
    /// the operator orders the pull requests
    WaitingForSort(SortingState),
    /// about to point the current pull request at its predecessor
    UpdatingCandidate(WorkingState),
    /// waiting for the checkout of the current pull request's branch
    CheckingOutCandidate(WorkingState),
    /// waiting for the rebase onto the predecessor
    RebaseCandidate(WorkingState),
    /// waiting for the probe that continues a paused rebase
    CheckingForConflicts(WorkingState),
    /// waiting for the operator to resolve conflicts and press space
    WaitingForResolution(WorkingState),
    /// waiting for the validation command
    Validating(WorkingState),
    /// waiting for the operator to fix the branch and press space
    WaitingForFix(WorkingState),
    /// waiting for the force push
    PushingCandidate(WorkingState),
    /// merging the rebased chain, one pull request per call
    Merging(MergingState),
    Done,
    Failed,
}

/// A background task for the driver to start; its result comes back as an
/// [`Outcome`] on a later step.
#[derive(Debug, Clone, PartialEq, Eq)]
pub enum Operation {
    /// is the working tree clean
    CheckClean,
    /// check out the named branch
    Checkout(String),
    /// pull the current branch from its remote
    PullRemote,
    /// rebase the checked out branch onto the named one; reports whether it
    /// finished without pausing
    Rebase(String),
    /// continue a paused rebase; reports whether no conflicts remain
    ContinueRebase,
    /// run the validation command; reports whether it passed
    Validate(String),
    /// force-push the checked out branch
    Push,
}

/// A call to the hosting service that a stage makes before it can move on.
#[derive(Debug, Clone, PartialEq, Eq)]
pub enum RemoteCall {
    /// list the open pull requests
    ListPulls,
    /// change the base branch of a pull request
    SetBase { number: u64, base: String },
    /// merge a pull request
    Merge { number: u64 },
}

/// What the driver observed for the stage's pending work.
#[derive(Debug, Clone, PartialEq, Eq)]
pub enum Outcome {
    /// nothing has resolved yet
    NotReady,
    /// the work succeeded and reports a flag; work without a flag of its
    /// own reports `true`, and `false` counts as its failure
    Resolved(bool),
    /// the work failed, or its task vanished without a result
    Failed,
    /// the open pull requests were listed
    Fetched(Vec<MergeCandidate>),
}

/// A [`SortingState`] as mathematics.
pub struct SortingView {
    pub unsorted: Seq<MergeCandidate>,
    pub cursor: nat,
    pub chain: Seq<MergeCandidate>,
}

/// A [`WorkingState`] as mathematics.
pub struct WorkingView {
    pub current: MergeCandidate,
    pub next: Seq<MergeCandidate>,
    pub done: Seq<MergeCandidate>,
}

/// An [`AppState`] as mathematics.
pub enum StateView {
    CheckingRepo,
    WaitingForCleanRepo,
    CheckingOutTargetBranch,
    PullingRemote,
    GettingPulls,
    WaitingForSort(SortingView),
    UpdatingCandidate(WorkingView),
    CheckingOutCandidate(WorkingView),
    RebaseCandidate(WorkingView),
    CheckingForConflicts(WorkingView),
    WaitingForResolution(WorkingView),
    Validating(WorkingView),
    WaitingForFix(WorkingView),
    PushingCandidate(WorkingView),
    Merging(Seq<MergeCandidate>),
    Done,
    Failed,
}

impl View for SortingState {
    type V = SortingView;

    open spec fn view(&self) -> SortingView {
        SortingView {
            unsorted: self.unsorted@,
            cursor: self.current_index as nat,
            chain: self.merge_chain@,
        }
    }
}

impl View for WorkingState {
    type V = WorkingView;

    open spec fn view(&self) -> WorkingView {
        WorkingView { current: self.current_checkout, next: self.next@, done: self.done@ }
    }
}

impl View for MergingState {
    type V = Seq<MergeCandidate>;

    open spec fn view(&self) -> Seq<MergeCandidate> {
        self.to_merge@
    }
}

impl View for AppState {
    type V = StateView;

    open spec fn view(&self) -> StateView {
        match self {
            AppState::CheckingRepo => StateView::CheckingRepo,
            AppState::WaitingForCleanRepo => StateView::WaitingForCleanRepo,
            AppState::CheckingOutTargetBranch => StateView::CheckingOutTargetBranch,
            AppState::PullingRemote => StateView::PullingRemote,
            AppState::GettingPulls => StateView::GettingPulls,
            AppState::WaitingForSort(s) => StateView::WaitingForSort(s@),
            AppState::UpdatingCandidate(w) => StateView::UpdatingCandidate(w@),
            AppState::CheckingOutCandidate(w) => StateView::CheckingOutCandidate(w@),
            AppState::RebaseCandidate(w) => StateView::RebaseCandidate(w@),
            AppState::CheckingForConflicts(w) => StateView::CheckingForConflicts(w@),
            AppState::WaitingForResolution(w) => StateView::WaitingForResolution(w@),
            AppState::Validating(w) => StateView::Validating(w@),
            AppState::WaitingForFix(w) => StateView::WaitingForFix(w@),
            AppState::PushingCandidate(w) => StateView::PushingCandidate(w@),
            AppState::Merging(m) => StateView::Merging(m@),
            AppState::Done => StateView::Done,
            AppState::Failed => StateView::Failed,
        }
    }
}

impl SortingView {
    /// The cursor points into `unsorted` whenever `unsorted` is not empty.
    pub open spec fn wf(self) -> bool {
        self.unsorted.len() > 0 ==> self.cursor < self.unsorted.len()
    }

    /// Every candidate of the session, placed or not.
    pub open spec fn total(self) -> nat {
        self.unsorted.len() + self.chain.len()
    }
}

impl WorkingView {
    /// Every candidate of the chain: finished, current and waiting.
    pub open spec fn total(self) -> nat {
        self.done.len() + self.next.len() + 1
    }
}

impl StateView {
    pub open spec fn wf(self) -> bool {
        match self {
            StateView::WaitingForSort(m) => m.wf(),
            _ => true,
        }
    }

    /// The stages that cannot move before their pending work resolves.
    pub open spec fn awaits_outcome(self) -> bool {
        match self {
            StateView::CheckingRepo => true,
            StateView::CheckingOutTargetBranch => true,
            StateView::PullingRemote => true,
            StateView::GettingPulls => true,
            StateView::UpdatingCandidate(_) => true,
            StateView::CheckingOutCandidate(_) => true,
            StateView::RebaseCandidate(_) => true,
            StateView::CheckingForConflicts(_) => true,
            StateView::Validating(_) => true,
            StateView::PushingCandidate(_) => true,
            StateView::Merging(q) => q.len() > 0,
            _ => false,
        }
    }

    /// The working state a stage of the rebase loop carries.
    pub open spec fn working(self) -> Option<WorkingView> {
        match self {
            StateView::UpdatingCandidate(w) => Some(w),
            StateView::CheckingOutCandidate(w) => Some(w),
            StateView::RebaseCandidate(w) => Some(w),
            StateView::CheckingForConflicts(w) => Some(w),
            StateView::WaitingForResolution(w) => Some(w),
            StateView::Validating(w) => Some(w),
            StateView::WaitingForFix(w) => Some(w),
            StateView::PushingCandidate(w) => Some(w),
            _ => None,
        }
    }
}

/// The branch the current candidate is based on: the head of the last
/// finished candidate, or the target branch while none is finished.
pub open spec fn base_for(done: Seq<MergeCandidate>, branch: String) -> String {
    if done.len() == 0 {
        branch
    } else {
        done.last().head
    }
}

/// The stage stays as it is and nothing is started.
pub open spec fn stay(s: StateView) -> (StateView, Option<Operation>) {
    (s, None)
}

pub open spec fn fail() -> (StateView, Option<Operation>) {
    (StateView::Failed, None)
}

/// A stage that polls a task: unresolved it stays, resolved it takes the
/// branch for the reported flag, and an error or a mismatched outcome fails.
/// Work without a flag of its own passes `fail()` for `false`.
pub open spec fn after_poll(
    o: Outcome,
    waiting: StateView,
    on_true: (StateView, Option<Operation>),
    on_false: (StateView, Option<Operation>),
) -> (StateView, Option<Operation>) {
    match o {
        Outcome::NotReady => stay(waiting),
        Outcome::Resolved(flag) => if flag {
            on_true
        } else {
            on_false
        },
        _ => fail(),
    }
}

/// A stage that waits for the operator: space moves on, an error event
/// fails, anything else leaves it as it is.
pub open spec fn after_key(e: AppEvent, waiting: StateView, on_space: (StateView, Option<Operation>)) -> (
    StateView,
    Option<Operation>,
) {
    match e {
        AppEvent::Input(k) => if k.code == KeyCode::Char(' ') {
            on_space
        } else {
            stay(waiting)
        },
        AppEvent::Error(_) => fail(),
        _ => stay(waiting),
    }
}

pub open spec fn checking_next(o: Outcome, branch: String) -> (StateView, Option<Operation>) {
    after_poll(
        o,
        StateView::CheckingRepo,
        (StateView::CheckingOutTargetBranch, Some(Operation::Checkout(branch))),
        (StateView::WaitingForCleanRepo, None),
    )
}

pub open spec fn waiting_clean_next(e: AppEvent) -> (StateView, Option<Operation>) {
    after_key(e, StateView::WaitingForCleanRepo, (StateView::CheckingRepo, Some(Operation::CheckClean)))
}

pub open spec fn checking_out_target_next(o: Outcome) -> (StateView, Option<Operation>) {
    let on_ok = (StateView::PullingRemote, Some(Operation::PullRemote));
    after_poll(o, StateView::CheckingOutTargetBranch, on_ok, fail())
}

pub open spec fn pulling_next(o: Outcome) -> (StateView, Option<Operation>) {
    let on_ok = (StateView::GettingPulls, None);
    after_poll(o, StateView::PullingRemote, on_ok, fail())
}

pub open spec fn getting_pulls_next(o: Outcome) -> (StateView, Option<Operation>) {
    match o {
        Outcome::NotReady => stay(StateView::GettingPulls),
        Outcome::Fetched(pulls) => (
            StateView::WaitingForSort(SortingView { unsorted: pulls@, cursor: 0, chain: seq![] }),
            None,
        ),
        _ => fail(),
    }
}

/// Up moves the cursor back, wrapping from the first to the last place.
pub open spec fn cursor_up(m: SortingView) -> nat {
    if m.cursor == 0 {
        (m.unsorted.len() - 1) as nat
    } else {
        (m.cursor - 1) as nat
    }
}

/// Down moves the cursor on, wrapping from the last to the first place.
pub open spec fn cursor_down(m: SortingView) -> nat {
    if m.cursor + 1 == m.unsorted.len() {
        0
    } else {
        m.cursor + 1
    }
}

/// Enter moves the candidate under the cursor to the end of the chain.
pub open spec fn chain_selected(m: SortingView) -> SortingView {
    if m.unsorted.len() == 0 {
        SortingView { cursor: 0, ..m }
    } else {
        SortingView {
            unsorted: m.unsorted.remove(m.cursor as int),
            cursor: 0,
            chain: m.chain.push(m.unsorted[m.cursor as int]),
        }
    }
}

/// Escape moves the end of the chain back to the end of `unsorted`.
pub open spec fn unchain_last(m: SortingView) -> SortingView {
    if m.chain.len() == 0 {
        SortingView { cursor: 0, ..m }
    } else {
        SortingView { unsorted: m.unsorted.push(m.chain.last()), cursor: 0, chain: m.chain.drop_last() }
    }
}

/// Space confirms the chain: its first candidate starts the rebase loop,
/// and an empty chain ends the session.
pub open spec fn confirm_chain(m: SortingView) -> (StateView, Option<Operation>) {
    if m.chain.len() == 0 {
        (StateView::Done, None)
    } else {
        (
            StateView::UpdatingCandidate(
                WorkingView { current: m.chain[0], next: m.chain.drop_first(), done: seq![] },
            ),
            None,
        )
    }
}

pub open spec fn sort_key(m: SortingView, code: KeyCode) -> (StateView, Option<Operation>) {
    match code {
        KeyCode::Up => if m.unsorted.len() == 0 {
            stay(StateView::WaitingForSort(m))
        } else {
            stay(StateView::WaitingForSort(SortingView { cursor: cursor_up(m), ..m }))
        },
        KeyCode::Down => if m.unsorted.len() == 0 {
            stay(StateView::WaitingForSort(m))
        } else {
            stay(StateView::WaitingForSort(SortingView { cursor: cursor_down(m), ..m }))
        },
        KeyCode::Enter => stay(StateView::WaitingForSort(chain_selected(m))),
        KeyCode::Esc => stay(StateView::WaitingForSort(unchain_last(m))),
        KeyCode::Char(c) => if c == ' ' {
            confirm_chain(m)
        } else {
            stay(StateView::WaitingForSort(m))
        },
        _ => stay(StateView::WaitingForSort(m)),
    }
}

/// Ordering reacts to keys only while the list pane has the keyboard; an
/// error event fails.
pub open spec fn sort_next(m: SortingView, pane: ActivePane, e: AppEvent) -> (
    StateView,
    Option<Operation>,
) {
    match e {
        AppEvent::Error(_) => fail(),
        AppEvent::Input(k) => if pane == ActivePane::Log {
            stay(StateView::WaitingForSort(m))
        } else {
            sort_key(m, k.code)
        },
        _ => stay(StateView::WaitingForSort(m)),
    }
}

/// Once the base is set, the candidate records it and its branch is
/// checked out.
pub open spec fn updating_next(w: WorkingView, branch: String, o: Outcome) -> (
    StateView,
    Option<Operation>,
) {
    let retargeted = WorkingView {
        current: MergeCandidate { base: base_for(w.done, branch), ..w.current },
        ..w
    };
    let on_ok = (StateView::CheckingOutCandidate(retargeted), Some(Operation::Checkout(w.current.head)));
    after_poll(o, StateView::UpdatingCandidate(w), on_ok, fail())
}

pub open spec fn checkout_candidate_next(w: WorkingView, branch: String, o: Outcome) -> (
    StateView,
    Option<Operation>,
) {
    let on_ok = (StateView::RebaseCandidate(w), Some(Operation::Rebase(base_for(w.done, branch))));
    after_poll(o, StateView::CheckingOutCandidate(w), on_ok, fail())
}

pub open spec fn rebasing_next(w: WorkingView, cmd: String, o: Outcome) -> (
    StateView,
    Option<Operation>,
) {
    after_poll(
        o,
        StateView::RebaseCandidate(w),
        (StateView::Validating(w), Some(Operation::Validate(cmd))),
        (StateView::CheckingForConflicts(w), Some(Operation::ContinueRebase)),
    )
}

pub open spec fn conflicts_next(w: WorkingView, cmd: String, o: Outcome) -> (
    StateView,
    Option<Operation>,
) {
    after_poll(
        o,
        StateView::CheckingForConflicts(w),
        (StateView::Validating(w), Some(Operation::Validate(cmd))),
        (StateView::WaitingForResolution(w), None),
    )
}

pub open spec fn waiting_resolution_next(w: WorkingView, e: AppEvent) -> (
    StateView,
    Option<Operation>,
) {
    after_key(
        e,
        StateView::WaitingForResolution(w),
        (StateView::CheckingForConflicts(w), Some(Operation::ContinueRebase)),
    )
}

pub open spec fn validating_next(w: WorkingView, o: Outcome) -> (StateView, Option<Operation>) {
    after_poll(
        o,
        StateView::Validating(w),
        (StateView::PushingCandidate(w), Some(Operation::Push)),
        (StateView::WaitingForFix(w), None),
    )
}

pub open spec fn fixing_next(w: WorkingView, cmd: String, e: AppEvent) -> (
    StateView,
    Option<Operation>,
) {
    after_key(e, StateView::WaitingForFix(w), (StateView::Validating(w), Some(Operation::Validate(cmd))))
}

/// A pushed candidate is finished: the next one takes its place, or the
/// finished chain goes on to be merged.
pub open spec fn advance(w: WorkingView) -> (StateView, Option<Operation>) {
    let done = w.done.push(w.current);
    if w.next.len() == 0 {
        (StateView::Merging(done), None)
    } else {
        (StateView::UpdatingCandidate(WorkingView { current: w.next[0], next: w.next.drop_first(), done }), None)
    }
}

pub open spec fn pushing_next(w: WorkingView, o: Outcome) -> (StateView, Option<Operation>) {
    after_poll(o, StateView::PushingCandidate(w), advance(w), fail())
}

/// Merging drops the front of the queue once its merge call succeeded.
pub open spec fn merging_next(q: Seq<MergeCandidate>, o: Outcome) -> (StateView, Option<Operation>) {
    let on_ok = if q.len() <= 1 {
        (StateView::Done, None)
    } else {
        (StateView::Merging(q.drop_first()), None)
    };
    if q.len() == 0 {
        (StateView::Done, None)
    } else {
        after_poll(o, StateView::Merging(q), on_ok, fail())
    }
}

/// One step of the pipeline: the next stage and the task to start, from the
/// stage, the target branch, the validation command, the focused pane, the
/// last event and the outcome of the stage's pending work.
pub open spec fn next(
    s: StateView,
    branch: String,
    cmd: String,
    pane: ActivePane,
    e: AppEvent,
    o: Outcome,
) -> (StateView, Option<Operation>) {
    match s {
        StateView::CheckingRepo => checking_next(o, branch),
        StateView::WaitingForCleanRepo => waiting_clean_next(e),
        StateView::CheckingOutTargetBranch => checking_out_target_next(o),
        StateView::PullingRemote => pulling_next(o),
        StateView::GettingPulls => getting_pulls_next(o),
        StateView::WaitingForSort(m) => sort_next(m, pane, e),
        StateView::UpdatingCandidate(w) => updating_next(w, branch, o),
        StateView::CheckingOutCandidate(w) => checkout_candidate_next(w, branch, o),
        StateView::RebaseCandidate(w) => rebasing_next(w, cmd, o),
        StateView::CheckingForConflicts(w) => conflicts_next(w, cmd, o),
        StateView::WaitingForResolution(w) => waiting_resolution_next(w, e),
        StateView::Validating(w) => validating_next(w, o),
        StateView::WaitingForFix(w) => fixing_next(w, cmd, e),
        StateView::PushingCandidate(w) => pushing_next(w, o),
        StateView::Merging(q) => merging_next(q, o),
        StateView::Done => stay(StateView::Done),
        StateView::Failed => stay(StateView::Failed),
    }
}

/// The call to the hosting service a stage needs before it can step.
pub open spec fn call_for(s: StateView, branch: String) -> Option<RemoteCall> {
    match s {
        StateView::GettingPulls => Some(RemoteCall::ListPulls),
        StateView::UpdatingCandidate(w) => Some(
            RemoteCall::SetBase { number: w.current.number, base: base_for(w.done, branch) },
        ),
        StateView::Merging(q) => if q.len() > 0 {
            Some(RemoteCall::Merge { number: q[0].number })
        } else {
            None
        },
        _ => None,
    }
}

} // verus!
