//! The `Running` state of a container.

use crate::states::container::{container_state_label, container_transition, ContainerStateName, ContainerStatus, ContainerTransition};
use vstd::prelude::*;

verus! {

/// The `Running` state of a container.
#[derive(Default, Debug)]
pub struct Running;

impl Running {
    /// A container in this state.
    pub fn new() -> Self {
        Running {}
    }

    /// The transition out of this state.
    pub fn next(self) -> (t: ContainerTransition)
        ensures
            t == container_transition(ContainerStateName::Running),
    {
        ContainerTransition::Next(ContainerStateName::Terminated)
    }

    /// The status reported while a container is in this state.
    pub fn status(&self) -> (s: ContainerStatus)
        ensures
            s is Waiting,
            s->Waiting_message@ == container_state_label(ContainerStateName::Running),
    {
        ContainerStatus::Waiting { message: String::from_str("Running") }
    }
}

} // verus!
