//! The `Waiting` state of a container.

use crate::states::container::{container_state_label, container_transition, ContainerStateName, ContainerStatus, ContainerTransition};
use vstd::prelude::*;

verus! {

/// The `Waiting` state of a container.
#[derive(Default, Debug)]
pub struct Waiting;

impl Waiting {

    /// The transition out of this state.
    pub fn next(self) -> (t: ContainerTransition)
        ensures
            t == container_transition(ContainerStateName::Waiting),
    {
        ContainerTransition::Next(ContainerStateName::Running)
    }

    /// The status reported while a container is in this state.
    pub fn status(&self) -> (s: ContainerStatus)
        ensures
            s is Waiting,
            s->Waiting_message@ == container_state_label(ContainerStateName::Waiting),
    {
        ContainerStatus::Waiting { message: String::from_str("Waiting") }
    }
}

} // verus!
