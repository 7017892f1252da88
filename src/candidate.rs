use crate::state::RemoteCall;
use vstd::prelude::*;

verus! {

/// One pull request under consideration.
///
/// Everything but `base` stays as it was fetched; `base` changes when the
/// pull request is retargeted onto its predecessor in the chain.
#[derive(Debug, Clone, PartialEq, Eq)]
pub struct MergeCandidate {
    /// The pull request's number on the hosting service.
    pub number: u64,
    /// Name of the branch the pull request wants to merge.
    pub head: String,
    /// Title, when the pull request has one.
    pub title: Option<String>,
    /// Branch the pull request currently targets.
    pub base: String,
}

impl MergeCandidate {
    #[must_use]
    pub fn new(number: u64, head: String, title: Option<String>, base: String) -> (r: MergeCandidate)
        ensures
            r == (MergeCandidate { number, head, title, base }),
    {
        MergeCandidate { number, head, title, base }
    }

    /// The same pull request, now targeting `base`.
    #[must_use]
    pub fn retarget(self, base: String) -> (r: MergeCandidate)
        ensures
            r == (MergeCandidate { base, ..self }),
    {
        MergeCandidate { base, ..self }
    }

    /// The call that merges this pull request.
    pub fn merge(&self) -> (call: RemoteCall)
        ensures
            call == (RemoteCall::Merge { number: self.number }),
    {
        RemoteCall::Merge { number: self.number }
    }
}

} // verus!
