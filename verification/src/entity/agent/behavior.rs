//! The life cycle an agent's thread goes through while it executes its behavior.
use vstd::prelude::*;

verus! {

/// The phases of an agent's execution. In each phase the runtime performs one piece of
///  work and reports one yes/no outcome, from which [`next_phase`] decides the next phase.
#[derive(Debug, Clone, Copy, PartialEq, Eq, Structural)]
pub enum Phase {
    /// Wait until the agent is started. Outcome: the agent is still in the Initiated state.
    Init,
    /// Run the behavior's `setup`. Outcome: setup succeeded.
    Setup,
    /// Stay parked while suspended, then look whether the agent was terminated.
    ///  Outcome: the agent is terminated.
    Supervision,
    /// Run the behavior's `action`, then its `failure_detection` on the action's result.
    ///  Outcome: a failure was detected.
    Action,
    /// Run the behavior's `failure_identification` and `failure_recovery`. Outcome: unused.
    Recovery,
    /// Run the behavior's `done`. Outcome: the agent is done.
    Completion,
    /// Ask the AMS to deregister the agent and wait for its answer. Outcome: unused.
    Takedown,
    /// The execution is over.
    Finished,
}

/// The phase that follows `phase` when its work reported `outcome`.
pub open spec fn phase_after(phase: Phase, outcome: bool) -> Phase {
    match phase {
        Phase::Init => if outcome {
            Phase::Init
        } else {
            Phase::Setup
        },
        Phase::Setup => if outcome {
            Phase::Supervision
        } else {
            Phase::Finished
        },
        Phase::Supervision => if outcome {
            Phase::Finished
        } else {
            Phase::Action
        },
        Phase::Action => if outcome {
            Phase::Recovery
        } else {
            Phase::Completion
        },
        Phase::Recovery => Phase::Completion,
        Phase::Completion => if outcome {
            Phase::Takedown
        } else {
            Phase::Supervision
        },
        Phase::Takedown => Phase::Finished,
        Phase::Finished => Phase::Finished,
    }
}

/// The phase an execution starts in.
pub fn first_phase() -> (phase: Phase)
    ensures
        phase == Phase::Init,
{
    Phase::Init
}

/// Decides the phase that follows `phase` when its work reported `outcome`.
pub fn next_phase(phase: Phase, outcome: bool) -> (next: Phase)
    ensures
        next == phase_after(phase, outcome),
{
    match phase {
        Phase::Init => if outcome {
            Phase::Init
        } else {
            Phase::Setup
        },
        Phase::Setup => if outcome {
            Phase::Supervision
        } else {
            Phase::Finished
        },
        Phase::Supervision => if outcome {
            Phase::Finished
        } else {
            Phase::Action
        },
        Phase::Action => if outcome {
            Phase::Recovery
        } else {
            Phase::Completion
        },
        Phase::Recovery => Phase::Completion,
        Phase::Completion => if outcome {
            Phase::Takedown
        } else {
            Phase::Supervision
        },
        Phase::Takedown => Phase::Finished,
        Phase::Finished => Phase::Finished,
    }
}

/// Once the execution is over it stays over.
pub proof fn finished_is_final(outcome: bool)
    ensures
        phase_after(Phase::Finished, outcome) == Phase::Finished,
{
}

/// The behavior's action only runs right after a check that found the agent not terminated.
pub proof fn action_follows_supervision(phase: Phase, outcome: bool)
    ensures
        phase_after(phase, outcome) == Phase::Action <==> phase == Phase::Supervision && !outcome,
{
}

/// The agent is taken down only when its behavior reports that it is done.
pub proof fn takedown_only_when_done(phase: Phase, outcome: bool)
    ensures
        phase_after(phase, outcome) == Phase::Takedown <==> phase == Phase::Completion && outcome,
{
}

/// Setup runs once, right after the agent has been started.
pub proof fn setup_follows_start(phase: Phase, outcome: bool)
    ensures
        phase_after(phase, outcome) == Phase::Setup <==> phase == Phase::Init && !outcome,
{
}

/// Recovery runs exactly when a failure has been detected after an action.
pub proof fn recovery_follows_detected_failure(phase: Phase, outcome: bool)
    ensures
        phase_after(phase, outcome) == Phase::Recovery <==> phase == Phase::Action && outcome,
{
}

} // verus!
