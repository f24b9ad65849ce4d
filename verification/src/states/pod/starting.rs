//! The `Starting` state of a pod.

use crate::states::pod::{pod_state_label, pod_transition, Phase, PodStateName, PodStatus, PodTransition};
use vstd::prelude::*;

verus! {

/// The `Starting` state of a pod; it hands on to `Running`.
#[derive(Default, Debug)]
pub struct Starting;

impl Starting {
    /// The transition out of this state.
    pub fn next(self) -> (t: PodTransition)
        ensures
            t == PodTransition::Next(PodStateName::Running),
            t == pod_transition(PodStateName::Starting),
    {
        PodTransition::Next(PodStateName::Running)
    }

    /// The status reported while a pod is in this state.
    pub fn status(&self) -> (s: PodStatus)
        ensures
            s.phase == Phase::Succeeded,
            s.reason@ == pod_state_label(PodStateName::Starting),
    {
        PodStatus { phase: Phase::Succeeded, reason: String::from_str("Starting") }
    }
}

} // verus!
