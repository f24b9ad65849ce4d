//! The `Terminated` state of a container.

use crate::states::container::{container_state_label, container_transition, ContainerStateName, ContainerStatus, ContainerTransition};
use vstd::prelude::*;

verus! {

/// The `Terminated` state of a container.
#[derive(Default, Debug)]
pub struct Terminated;

impl Terminated {
    /// A container in this state.
    pub fn new() -> Self {
        Terminated {}
    }

    /// The transition out of this state.
    pub fn next(self) -> (t: ContainerTransition)
        ensures
            t == container_transition(ContainerStateName::Terminated),
    {
        ContainerTransition::Complete(Ok(()))
    }

    /// The status reported while a container is in this state.
    pub fn status(&self) -> (s: ContainerStatus)
        ensures
            s is Waiting,
            s->Waiting_message@ == container_state_label(ContainerStateName::Terminated),
    {
        ContainerStatus::Waiting { message: String::from_str("Terminated") }
    }
}

} // verus!
