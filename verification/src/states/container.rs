//! The lifecycle of a container.

use vstd::prelude::*;

pub mod running;
pub mod terminated;
pub mod waiting;

verus! {

/// The status that a container state reports: waiting, with a message.
#[derive(Debug, PartialEq, Eq)]
pub enum ContainerStatus {
    Waiting { message: String },
}

/// The states of a container's lifecycle.
#[derive(Debug, Clone, Copy, PartialEq, Eq)]
pub enum ContainerStateName {
    Waiting,
    Running,
    Terminated,
}

/// What a container state hands on: the state to run next, or the end of the
/// lifecycle with its outcome.
#[derive(Debug, PartialEq, Eq)]
pub enum ContainerTransition {
    Next(ContainerStateName),
    Complete(Result<(), String>),
}

/// The step after each state: `Some` of the next state, or `None` when the
/// lifecycle completes successfully.
pub open spec fn container_successor(state: ContainerStateName) -> Option<ContainerStateName> {
    match state {
        ContainerStateName::Waiting => Some(ContainerStateName::Running),
        ContainerStateName::Running => Some(ContainerStateName::Terminated),
        ContainerStateName::Terminated => None,
    }
}

/// The transition out of each state.
pub open spec fn container_transition(state: ContainerStateName) -> ContainerTransition {
    match container_successor(state) {
        Some(next) => ContainerTransition::Next(next),
        None => ContainerTransition::Complete(Ok(())),
    }
}

/// The position of a state in the lifecycle.
pub open spec fn container_rank(state: ContainerStateName) -> nat {
    match state {
        ContainerStateName::Waiting => 0,
        ContainerStateName::Running => 1,
        ContainerStateName::Terminated => 2,
    }
}

/// The message that a state reports in its status: its own name.
pub open spec fn container_state_label(state: ContainerStateName) -> Seq<char> {
    match state {
        ContainerStateName::Waiting => "Waiting"@,
        ContainerStateName::Running => "Running"@,
        ContainerStateName::Terminated => "Terminated"@,
    }
}

/// The number of transitions from `state` to the end of the lifecycle.
pub open spec fn container_steps_to_complete(state: ContainerStateName) -> nat
    decreases 3 - container_rank(state),
{
    match container_successor(state) {
        Some(next) => 1 + container_steps_to_complete(next),
        None => 1,
    }
}

/// Every transition of a container moves one state forward, and only
/// `Terminated` ends the lifecycle, always with success.
pub proof fn lemma_container_lifecycle_moves_forward(state: ContainerStateName)
    ensures
        container_successor(state) is Some
            ==> container_rank(container_successor(state)->0) == container_rank(state) + 1,
        container_transition(state) is Complete <==> state == ContainerStateName::Terminated,
        container_transition(state) is Complete
            ==> container_transition(state) == ContainerTransition::Complete(Ok(())),
{
}

/// A waiting container completes after exactly three transitions.
pub proof fn lemma_container_lifecycle_completes()
    ensures
        container_steps_to_complete(ContainerStateName::Waiting) == 3,
{
    assert(container_steps_to_complete(ContainerStateName::Terminated) == 1);
    assert(container_steps_to_complete(ContainerStateName::Running) == 2);
}

} // verus!
