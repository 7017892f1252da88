use crate::events::{AppEvent, KeyCode};
use crate::remote::Remote;
use crate::state::{call_for, next, ActivePane, AppState, Operation, Outcome, RemoteCall};
use crate::transition::{
    retarget_base, transition_check_conflicts, transition_checking, transition_checking_out_target,
    transition_checkout_candidate, transition_fixing, transition_getting_pulls, transition_merging,
    transition_pull_remote, transition_pushing, transition_rebasing, transition_updating_candidate,
    transition_validate, transition_waiting_clean, transition_waiting_resolution,
    transition_waiting_sort,
};
use vstd::prelude::*;

verus! {

/// A request to the log viewer.
#[derive(Debug, Clone, Copy, PartialEq, Eq, Structural)]
pub enum LogKey {
    PrevPage,
    NextPage,
    Escape,
}

/// What the driver loop does after a step.
#[derive(Debug, Clone, PartialEq, Eq)]
pub enum SessionControl {
    /// redraw and wait for the next event
    Continue,
    /// the operator asked to terminate: end normally
    Quit,
    /// the event source failed: end with this error
    Abort(String),
}

/// The workflow: its stage, the remote the pull requests live on, the
/// validation command, the target branch, the focused pane and the last
/// event observed.
pub struct Marge {
    pub app_state: AppState,
    pub remote: Remote,
    pub cmd: String,
    pub branch: String,
    pub active_pane: ActivePane,
    pub last_event: AppEvent,
}

/// Left and right switch the focused pane.
pub open spec fn switches_pane(e: AppEvent) -> bool {
    e matches AppEvent::Input(k) && (k.code == KeyCode::Left || k.code == KeyCode::Right)
}

pub open spec fn other_pane(p: ActivePane) -> ActivePane {
    match p {
        ActivePane::List => ActivePane::Log,
        ActivePane::Log => ActivePane::List,
    }
}

/// With the log pane focused, up and down page through the log and space
/// leaves it; with the list focused the log is kept out of its scrolled mode.
pub open spec fn log_key_for(pane: ActivePane, e: AppEvent) -> Option<LogKey> {
    match pane {
        ActivePane::Log => match e {
            AppEvent::Input(k) => match k.code {
                KeyCode::Up => Some(LogKey::PrevPage),
                KeyCode::Down => Some(LogKey::NextPage),
                KeyCode::Char(c) => if c == ' ' {
                    Some(LogKey::Escape)
                } else {
                    None
                },
                _ => None,
            },
            _ => None,
        },
        ActivePane::List => Some(LogKey::Escape),
    }
}

pub open spec fn control_for(e: AppEvent) -> SessionControl {
    match e {
        AppEvent::Error(message) => SessionControl::Abort(message),
        AppEvent::Signal => SessionControl::Quit,
        _ => SessionControl::Continue,
    }
}

impl Marge {
    pub open spec fn wf(&self) -> bool {
        self.app_state@.wf()
    }

    /// A workflow that starts by checking the working tree: the returned
    /// operation is the first task to start.
    pub fn new(remote: Remote, cmd: String, branch: String) -> (r: (Marge, Operation))
        ensures
            r.0.app_state == AppState::CheckingRepo,
            r.0.remote == remote,
            r.0.cmd == cmd,
            r.0.branch == branch,
            r.0.active_pane == ActivePane::List,
            r.0.last_event == AppEvent::Tick,
            r.0.wf(),
            r.1 == Operation::CheckClean,
    {
        let marge = Marge {
            app_state: AppState::CheckingRepo,
            remote,
            cmd,
            branch,
            active_pane: ActivePane::List,
            last_event: AppEvent::Tick,
        };
        (marge, Operation::CheckClean)
    }

    /// The call to the hosting service the current stage needs before it
    /// can step; its result is the outcome of the next step.
    pub fn remote_call(&self) -> (call: Option<RemoteCall>)
        ensures
            call == call_for(self.app_state@, self.branch),
    {
        match &self.app_state {
            AppState::GettingPulls => Some(RemoteCall::ListPulls),
            AppState::UpdatingCandidate(w) => Some(
                RemoteCall::SetBase {
                    number: w.current_checkout.number,
                    base: retarget_base(&self.branch, &w.done),
                },
            ),
            AppState::Merging(m) => if m.to_merge.len() > 0 {
                Some(m.to_merge[0].merge())
            } else {
                None
            },
            _ => None,
        }
    }

    /// Takes one step from the last event and the outcome of the stage's
    /// pending work; returns the task to start, if any.
    pub fn try_transition(&mut self, outcome: Outcome) -> (launch: Option<Operation>)
        requires
            old(self).wf(),
        ensures
            (final(self).app_state@, launch) == next(
                old(self).app_state@,
                old(self).branch,
                old(self).cmd,
                old(self).active_pane,
                old(self).last_event,
                outcome,
            ),
            final(self).wf(),
            final(self).remote == old(self).remote,
            final(self).cmd == old(self).cmd,
            final(self).branch == old(self).branch,
            final(self).active_pane == old(self).active_pane,
            final(self).last_event == old(self).last_event,
    {
        let mut old_state = AppState::Failed;
        std::mem::swap(&mut self.app_state, &mut old_state);
        let (state, launch) = match old_state {
            AppState::CheckingRepo => transition_checking(outcome, &self.branch),
            AppState::WaitingForCleanRepo => transition_waiting_clean(&self.last_event),
            AppState::CheckingOutTargetBranch => transition_checking_out_target(outcome),
            AppState::PullingRemote => transition_pull_remote(outcome),
            AppState::GettingPulls => transition_getting_pulls(outcome),
            AppState::WaitingForSort(s) => transition_waiting_sort(
                &self.active_pane,
                &self.last_event,
                s,
            ),
            AppState::UpdatingCandidate(s) => transition_updating_candidate(&self.branch, s, outcome),
            AppState::CheckingOutCandidate(s) => transition_checkout_candidate(
                &self.branch,
                outcome,
                s,
            ),
            AppState::RebaseCandidate(s) => transition_rebasing(&self.cmd, outcome, s),
            AppState::CheckingForConflicts(s) => transition_check_conflicts(&self.cmd, outcome, s),
            AppState::WaitingForResolution(s) => transition_waiting_resolution(&self.last_event, s),
            AppState::Validating(s) => transition_validate(outcome, s),
            AppState::WaitingForFix(s) => transition_fixing(&self.last_event, &self.cmd, s),
            AppState::PushingCandidate(s) => transition_pushing(outcome, s),
            AppState::Merging(s) => transition_merging(s, outcome),
            AppState::Done => (AppState::Done, None),
            AppState::Failed => (AppState::Failed, None),
        };
        self.app_state = state;
        launch
    }

    /// Switches the focused pane when the last event asks for it.
    pub fn update_active_pane(&mut self)
        ensures
            final(self).active_pane == (if switches_pane(old(self).last_event) {
                other_pane(old(self).active_pane)
            } else {
                old(self).active_pane
            }),
            final(self).app_state == old(self).app_state,
            final(self).remote == old(self).remote,
            final(self).cmd == old(self).cmd,
            final(self).branch == old(self).branch,
            final(self).last_event == old(self).last_event,
    {
        let switch = match &self.last_event {
            AppEvent::Input(k) => k.code == KeyCode::Left || k.code == KeyCode::Right,
            _ => false,
        };
        if switch {
            self.active_pane = match self.active_pane {
                ActivePane::List => ActivePane::Log,
                ActivePane::Log => ActivePane::List,
            };
        }
    }

    /// The request the last event makes of the log viewer, if any.
    pub fn log_key(&self) -> (key: Option<LogKey>)
        ensures
            key == log_key_for(self.active_pane, self.last_event),
    {
        match self.active_pane {
            ActivePane::Log => match &self.last_event {
                AppEvent::Input(k) => match k.code {
                    KeyCode::Up => Some(LogKey::PrevPage),
                    KeyCode::Down => Some(LogKey::NextPage),
                    KeyCode::Char(c) => if c == ' ' {
                        Some(LogKey::Escape)
                    } else {
                        None
                    },
                    _ => None,
                },
                _ => None,
            },
            ActivePane::List => Some(LogKey::Escape),
        }
    }

    /// Whether the session goes on after the last event: a termination
    /// request ends it, a failed event source ends it with that error.
    pub fn session_control(&self) -> (c: SessionControl)
        ensures
            c == control_for(self.last_event),
    {
        match &self.last_event {
            AppEvent::Error(message) => SessionControl::Abort(message.clone()),
            AppEvent::Signal => SessionControl::Quit,
            _ => SessionControl::Continue,
        }
    }
}

} // verus!
