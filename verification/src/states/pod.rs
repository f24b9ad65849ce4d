//! The state that a pod's handlers share, and the lifecycle of a pod.

use crate::myprovider::{ModuleRunContext, StringHashMap};
use vstd::prelude::*;

pub mod completed;
pub mod initializing;
pub mod running;
pub mod starting;

verus! {

/// The number of errors that a pod may record before the next one trips the threshold.
pub const ERROR_THRESHOLD: usize = 3;

/// The two sequences of retries that a pod backs off in.
#[derive(Debug, Clone, Copy, PartialEq, Eq)]
pub enum BackoffSequence {
    ImagePull,
    CrashLoop,
}

/// Whether recording an error tripped the error threshold.
#[derive(Debug, Clone, Copy, PartialEq, Eq)]
pub enum ThresholdTrigger {
    Triggered,
    Untriggered,
}

/// The error count after one more error is recorded on `errors`, and whether
/// that error trips the threshold (after which the count starts again at zero).
pub open spec fn next_error_count(errors: nat) -> (nat, bool) {
    if errors + 1 > ERROR_THRESHOLD {
        (0, true)
    } else {
        (errors + 1, false)
    }
}

/// The error count after `n` more errors are recorded on a count of `start`.
pub open spec fn errors_after(start: nat, n: nat) -> nat
    decreases n,
{
    if n == 0 {
        start
    } else {
        next_error_count(errors_after(start, (n - 1) as nat)).0
    }
}

/// Whether the `n`-th of the errors recorded on a count of `start` (counting
/// from one) trips the threshold.
pub open spec fn trips_at(start: nat, n: nat) -> bool
    recommends
        n >= 1,
{
    next_error_count(errors_after(start, (n - 1) as nat)).1
}

/// The phase that a pod's status reports.
#[derive(Debug, Clone, Copy, PartialEq, Eq)]
pub enum Phase {
    Pending,
    Running,
    Succeeded,
    Failed,
    Unknown,
}

/// The status that a pod state reports: a phase and the reason for it.
pub struct PodStatus {
    pub phase: Phase,
    pub reason: String,
}

/// The states of a pod's lifecycle.
#[derive(Debug, Clone, Copy, PartialEq, Eq)]
pub enum PodStateName {
    Initializing,
    Starting,
    Running,
    Completed,
}

/// What a pod state hands on: the state to run next, or the end of the
/// lifecycle with its outcome.
#[derive(Debug, PartialEq, Eq)]
pub enum PodTransition {
    Next(PodStateName),
    Complete(Result<(), String>),
}

/// The state that follows each state of the lifecycle; `Completed` is the last.
pub open spec fn pod_successor(state: PodStateName) -> Option<PodStateName> {
    match state {
        PodStateName::Initializing => Some(PodStateName::Starting),
        PodStateName::Starting => Some(PodStateName::Running),
        PodStateName::Running => Some(PodStateName::Completed),
        PodStateName::Completed => None,
    }
}

/// The transition out of each state: on to its successor, or the end of the
/// lifecycle, with success, after the last state.
pub open spec fn pod_transition(state: PodStateName) -> PodTransition {
    match pod_successor(state) {
        Some(next) => PodTransition::Next(next),
        None => PodTransition::Complete(Ok(())),
    }
}

/// The position of a state in the lifecycle.
pub open spec fn pod_rank(state: PodStateName) -> nat {
    match state {
        PodStateName::Initializing => 0,
        PodStateName::Starting => 1,
        PodStateName::Running => 2,
        PodStateName::Completed => 3,
    }
}

/// The reason that a state reports in its status: its own name.
pub open spec fn pod_state_label(state: PodStateName) -> Seq<char> {
    match state {
        PodStateName::Initializing => "Initializing"@,
        PodStateName::Starting => "Starting"@,
        PodStateName::Running => "Running"@,
        PodStateName::Completed => "Completed"@,
    }
}

/// The state `steps` transitions after `state`, if the lifecycle goes that far.
pub open spec fn pod_after(state: PodStateName, steps: nat) -> Option<PodStateName>
    decreases steps,
{
    if steps == 0 {
        Some(state)
    } else {
        match pod_successor(state) {
            Some(next) => pod_after(next, (steps - 1) as nat),
            None => None,
        }
    }
}

/// A count of errors that never exceeds [`ERROR_THRESHOLD`].
struct ErrorCounter {
    count: usize,
}

impl ErrorCounter {
    /// The count never exceeds the threshold.
    #[verifier::type_invariant]
    spec fn in_bounds(self) -> bool {
        self.count <= ERROR_THRESHOLD
    }

    spec fn value(self) -> nat {
        self.count as nat
    }

    fn new() -> (c: ErrorCounter)
        ensures
            c.value() == 0,
    {
        ErrorCounter { count: 0 }
    }

    fn get(&self) -> (n: usize)
        ensures
            n == self.value(),
            n <= ERROR_THRESHOLD,
    {
        proof {
            use_type_invariant(self);
        }
        self.count
    }

    fn record(&mut self) -> (tripped: bool)
        ensures
            old(self).value() <= ERROR_THRESHOLD,
            final(self).value() <= ERROR_THRESHOLD,
            (final(self).value(), tripped) == next_error_count(old(self).value()),
    {
        proof {
            use_type_invariant(&*self);
        }
        let errors = self.count + 1;
        if errors > ERROR_THRESHOLD {
            self.count = 0;
            true
        } else {
            self.count = errors;
            false
        }
    }
}

/// The state shared by the handlers of one pod: its key, the run context of
/// its modules, its error count, and one backoff strategy per retry sequence.
#[verifier::reject_recursive_types(V)]
pub struct PodState<K, V, B> {
    key: K,
    run_context: ModuleRunContext<V>,
    errors: ErrorCounter,
    image_pull_backoff_strategy: B,
    crash_loop_backoff_strategy: B,
}

impl<K, V, B> PodState<K, V, B> {
    /// The key of the pod.
    pub closed spec fn key(self) -> K {
        self.key
    }

    /// The run context of the pod's modules.
    pub closed spec fn context(self) -> ModuleRunContext<V> {
        self.run_context
    }

    /// The number of errors recorded since the threshold last tripped.
    pub closed spec fn error_count(self) -> nat {
        self.errors.value()
    }

    /// The backoff strategy of a retry sequence.
    pub closed spec fn strategy(self, sequence: BackoffSequence) -> B {
        match sequence {
            BackoffSequence::ImagePull => self.image_pull_backoff_strategy,
            BackoffSequence::CrashLoop => self.crash_loop_backoff_strategy,
        }
    }

    /// The error count never exceeds the threshold.
    pub open spec fn wf(self) -> bool {
        self.error_count() <= ERROR_THRESHOLD
    }

    /// The key, the error count and both strategies are those of `other`.
    pub open spec fn unchanged_besides_context(self, other: Self) -> bool {
        &&& self.key() == other.key()
        &&& self.error_count() == other.error_count()
        &&& forall|s: BackoffSequence| #[trigger] self.strategy(s) == other.strategy(s)
    }

    /// The state of a pod that has just been admitted: an empty run context,
    /// no errors, and the two given backoff strategies.
    pub fn new(key: K, image_pull_backoff_strategy: B, crash_loop_backoff_strategy: B) -> (s: Self)
        ensures
            s.wf(),
            s.key() == key,
            s.error_count() == 0,
            s.context().modules@ == Map::<Seq<char>, Vec<u8>>::empty(),
            s.context().volumes@ == Map::<Seq<char>, V>::empty(),
            s.context().env_vars@ == Map::<Seq<char>, StringHashMap<String>>::empty(),
            s.strategy(BackoffSequence::ImagePull) == image_pull_backoff_strategy,
            s.strategy(BackoffSequence::CrashLoop) == crash_loop_backoff_strategy,
    {
        PodState {
            key,
            run_context: ModuleRunContext::new(),
            errors: ErrorCounter::new(),
            image_pull_backoff_strategy,
            crash_loop_backoff_strategy,
        }
    }

    /// The key of the pod.
    pub fn pod_key(&self) -> (k: &K)
        ensures
            *k == self.key(),
    {
        &self.key
    }

    /// The run context of the pod's modules.
    pub fn run_context(&self) -> (c: &ModuleRunContext<V>)
        ensures
            *c == self.context(),
    {
        &self.run_context
    }

    /// The number of errors recorded since the threshold last tripped.
    pub fn errors(&self) -> (n: usize)
        ensures
            n == self.error_count(),
            n <= ERROR_THRESHOLD,
    {
        self.errors.get()
    }

    /// Replaces the environment variables of the containers.
    pub fn set_env_vars(&mut self, env_vars: StringHashMap<StringHashMap<String>>)
        ensures
            final(self).context().env_vars@ == env_vars@,
            final(self).context().modules == old(self).context().modules,
            final(self).context().volumes == old(self).context().volumes,
            final(self).unchanged_besides_context(*old(self)),
    {
        self.run_context.env_vars = env_vars;
    }

    /// Replaces the modules.
    pub fn set_modules(&mut self, modules: StringHashMap<Vec<u8>>)
        ensures
            final(self).context().modules@ == modules@,
            final(self).context().volumes == old(self).context().volumes,
            final(self).context().env_vars == old(self).context().env_vars,
            final(self).unchanged_besides_context(*old(self)),
    {
        self.run_context.modules = modules;
    }

    /// Adds volumes to those the pod has: a volume of a name already present
    /// is replaced, the others are kept.
    pub fn set_volumes(&mut self, volumes: StringHashMap<V>)
        ensures
            final(self).context().volumes@ == old(self).context().volumes@.union_prefer_right(volumes@),
            final(self).context().modules == old(self).context().modules,
            final(self).context().env_vars == old(self).context().env_vars,
            final(self).unchanged_besides_context(*old(self)),
    {
        self.run_context.volumes.union_prefer_right(volumes);
    }

    /// The backoff strategy of `sequence`, to wait on or to reset; whatever is
    /// done to it is done to that strategy alone.
    pub fn backoff_strategy(&mut self, sequence: BackoffSequence) -> (strategy: &mut B)
        ensures
            *strategy == old(self).strategy(sequence),
            final(self).strategy(sequence) == *final(strategy),
            forall|other: BackoffSequence| other != sequence
                ==> #[trigger] final(self).strategy(other) == old(self).strategy(other),
            final(self).key() == old(self).key(),
            final(self).context() == old(self).context(),
            final(self).error_count() == old(self).error_count(),
    {
        match sequence {
            BackoffSequence::ImagePull => &mut self.image_pull_backoff_strategy,
            BackoffSequence::CrashLoop => &mut self.crash_loop_backoff_strategy,
        }
    }

    /// Records one more error. The error that brings the count above
    /// [`ERROR_THRESHOLD`] trips the threshold and sets the count back to zero.
    pub fn record_error(&mut self) -> (t: ThresholdTrigger)
        ensures
            old(self).wf(),
            final(self).wf(),
            (final(self).error_count(), t == ThresholdTrigger::Triggered)
                == next_error_count(old(self).error_count()),
            final(self).key() == old(self).key(),
            final(self).context() == old(self).context(),
            forall|s: BackoffSequence| #[trigger] final(self).strategy(s) == old(self).strategy(s),
    {
        if self.errors.record() {
            ThresholdTrigger::Triggered
        } else {
            ThresholdTrigger::Untriggered
        }
    }
}

/// Every transition of a pod moves one state forward, so no state is entered
/// twice, and `Completed` has no successor.
pub proof fn lemma_pod_lifecycle_moves_forward(state: PodStateName)
    ensures
        pod_successor(state) is Some ==> pod_rank(pod_successor(state)->0) == pod_rank(state) + 1,
        pod_successor(state) is None <==> state == PodStateName::Completed,
        pod_transition(state) is Complete <==> state == PodStateName::Completed,
        pod_transition(state) is Complete ==> pod_transition(state) == PodTransition::Complete(Ok(())),
{
}

/// A pod that starts initializing is completed after exactly three transitions.
pub proof fn lemma_pod_lifecycle_completes()
    ensures
        pod_after(PodStateName::Initializing, 3) == Some(PodStateName::Completed),
        pod_after(PodStateName::Initializing, 4) is None,
        forall|k: nat| k < 3 ==> #[trigger] pod_after(PodStateName::Initializing, k) is Some
            && pod_after(PodStateName::Initializing, k)->0 != PodStateName::Completed,
{
    reveal_with_fuel(pod_after, 5);
    assert forall|k: nat| k < 3 implies #[trigger] pod_after(PodStateName::Initializing, k) is Some
        && pod_after(PodStateName::Initializing, k)->0 != PodStateName::Completed by {
        if k == 0 {
        } else if k == 1 {
        } else {
        }
    }
}

/// Errors recorded in a row on a count `start` of at most three: after `n`
/// of them the count is `(start + n) % 4`, and the `n`-th trips the threshold
/// exactly when `(start + n) % 4 == 0`. From a fresh count this is every
/// fourth error and no other.
pub proof fn lemma_threshold_trips_every_fourth_error(start: nat, n: nat)
    requires
        start <= ERROR_THRESHOLD,
    ensures
        errors_after(start, n) == (start + n) % 4,
        n >= 1 ==> (trips_at(start, n) <==> (start + n) % 4 == 0),
    decreases n,
{
    if n == 0 {
        assert(start % 4 == start) by (nonlinear_arith)
            requires
                start <= 3,
        ;
    } else {
        let m = (n - 1) as nat;
        lemma_threshold_trips_every_fourth_error(start, m);
        let x = start + m;
        assert(x % 4 < 3 ==> (x + 1) % 4 == x % 4 + 1) by (nonlinear_arith);
        assert(x % 4 == 3 ==> (x + 1) % 4 == 0) by (nonlinear_arith);
    }
}

/// Of any four errors recorded in a row on a count of at most three, exactly
/// one trips the threshold: one of them does, and no two of them do.
pub proof fn lemma_threshold_trips_once_in_four(start: nat, j: nat)
    requires
        start <= ERROR_THRESHOLD,
        j >= 1,
    ensures
        trips_at(start, j) || trips_at(start, j + 1) || trips_at(start, j + 2) || trips_at(
            start,
            j + 3,
        ),
        forall|d: nat|
            1 <= d < 4 && trips_at(start, j) ==> !#[trigger] trips_at(start, j + d),
{
    lemma_threshold_trips_every_fourth_error(start, j);
    lemma_threshold_trips_every_fourth_error(start, j + 1);
    lemma_threshold_trips_every_fourth_error(start, j + 2);
    lemma_threshold_trips_every_fourth_error(start, j + 3);
    let x = start + j;
    assert((x % 4 == 0) || ((x + 1) % 4 == 0) || ((x + 2) % 4 == 0) || ((x + 3) % 4 == 0))
        by (nonlinear_arith);
    assert forall|d: nat| 1 <= d < 4 && trips_at(start, j) implies !#[trigger] trips_at(start, j + d) by {
        lemma_threshold_trips_every_fourth_error(start, j + d);
        assert(x % 4 == 0 && 1 <= d < 4 ==> (x + d) % 4 != 0) by (nonlinear_arith);
    }
}

/// Adding volumes keeps every volume whose name the addition does not use,
/// and the added volumes replace those of the same name.
pub proof fn lemma_set_volumes_keeps_other_names<V>(
    before: Map<Seq<char>, V>,
    added: Map<Seq<char>, V>,
    name: Seq<char>,
)
    ensures
        before.contains_key(name) && !added.contains_key(name)
            ==> before.union_prefer_right(added).contains_key(name)
            && before.union_prefer_right(added)[name] == before[name],
        added.contains_key(name) ==> before.union_prefer_right(added).contains_key(name)
            && before.union_prefer_right(added)[name] == added[name],
        !before.contains_key(name) && !added.contains_key(name)
            ==> !before.union_prefer_right(added).contains_key(name),
{
}

} // verus!
