//! Orchestration core for rebasing and merging a chain of dependent pull
//! requests: the candidate model, the event mapping, the remote lookup and
//! the state machine that drives the pipeline one step per event.
pub mod candidate;
pub mod events;
pub mod state;
pub mod transition;
pub mod remote;
pub mod marge;
pub mod laws;
