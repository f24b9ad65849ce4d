//! The `Completed` state of a pod, where its lifecycle ends.

use crate::states::pod::{pod_state_label, pod_transition, Phase, PodStateName, PodStatus, PodTransition};
use vstd::prelude::*;

verus! {

/// The `Completed` state of a pod; it ends the lifecycle successfully.
#[derive(Default, Debug)]
pub struct Completed;

impl Completed {
    /// The transition out of this state: the end of the lifecycle, with success.
    pub fn next(self) -> (t: PodTransition)
        ensures
            t == PodTransition::Complete(Ok(())),
            t == pod_transition(PodStateName::Completed),
    {
        PodTransition::Complete(Ok(()))
    }

    /// The status reported while a pod is in this state.
    pub fn status(&self) -> (s: PodStatus)
        ensures
            s.phase == Phase::Succeeded,
            s.reason@ == pod_state_label(PodStateName::Completed),
    {
        PodStatus { phase: Phase::Succeeded, reason: String::from_str("Completed") }
    }
}

} // verus!
