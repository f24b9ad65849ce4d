//! The `Running` state of a pod.

use crate::states::pod::{pod_state_label, pod_transition, Phase, PodStateName, PodStatus, PodTransition};
use vstd::prelude::*;

verus! {

/// The `Running` state of a pod; it hands on to `Completed`.
#[derive(Default, Debug)]
pub struct Running;

impl Running {
    /// The transition out of this state.
    pub fn next(self) -> (t: PodTransition)
        ensures
            t == PodTransition::Next(PodStateName::Completed),
            t == pod_transition(PodStateName::Running),
    {
        PodTransition::Next(PodStateName::Completed)
    }

    /// The status reported while a pod is in this state.
    pub fn status(&self) -> (s: PodStatus)
        ensures
            s.phase == Phase::Succeeded,
            s.reason@ == pod_state_label(PodStateName::Running),
    {
        PodStatus { phase: Phase::Succeeded, reason: String::from_str("Running") }
    }
}

} // verus!
