//! The `Initializing` state of a pod.

use crate::states::pod::{pod_state_label, pod_transition, Phase, PodStateName, PodStatus, PodTransition};
use vstd::prelude::*;

verus! {

/// The `Initializing` state of a pod; it hands on to `Starting`.
#[derive(Default, Debug)]
pub struct Initializing;

impl Initializing {
    /// The transition out of this state.
    pub fn next(self) -> (t: PodTransition)
        ensures
            t == PodTransition::Next(PodStateName::Starting),
            t == pod_transition(PodStateName::Initializing),
    {
        PodTransition::Next(PodStateName::Starting)
    }

    /// The status reported while a pod is in this state.
    pub fn status(&self) -> (s: PodStatus)
        ensures
            s.phase == Phase::Succeeded,
            s.reason@ == pod_state_label(PodStateName::Initializing),
    {
        PodStatus { phase: Phase::Succeeded, reason: String::from_str("Initializing") }
    }
}

} // verus!
