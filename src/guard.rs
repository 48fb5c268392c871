//! The scoped awake guard, as a state machine. The program around it performs
//! each action that a step returns (calls the platform entry point, waits for
//! the trigger to stop, exits) and hands the outcome back as the next event.
use vstd::prelude::*;

use crate::flags::{ES_CONTINUOUS, ExecutionState, Flag};
use crate::mode::AwakeMode;

verus! {

/// Exit code of a run that ended as the user asked.
pub const EXIT_SUCCESS: i32 = 0;

/// Exit code of a run that failed or was interrupted.
pub const EXIT_FAILURE: i32 = 1;

/// Where a guard is in its life.
#[derive(Clone, Copy, Debug, PartialEq, Eq, Structural)]
pub enum Phase {
    /// The entry point has not been resolved yet.
    Unresolved,
    /// The requested state has been handed to the entry point.
    Activating,
    /// The requested state is in effect; the program waits for the trigger to stop.
    Active,
    /// The baseline has been handed to the entry point; the program then exits
    /// with `exit_code`.
    Releasing { exit_code: i32 },
    /// The baseline is back in effect and the program has exited.
    Released,
    /// The program has exited before anything was changed.
    Aborted,
}

/// What happened outside, reported to the guard.
#[derive(Clone, Copy, Debug, PartialEq, Eq, Structural)]
pub enum Event {
    /// The entry point was found.
    Resolved,
    /// The power-management module or the entry point could not be found.
    ResolutionFailed,
    /// The entry point returned from the activating call.
    Applied,
    /// The trigger to stop came (a line was read).
    WaitEnded,
    /// Waiting for the trigger failed (the input stream gave an error).
    WaitFailed,
    /// The program was interrupted.
    Interrupted,
    /// The entry point returned from the releasing call.
    Restored,
}

/// What the program is to do next.
#[derive(Clone, Copy, Debug, PartialEq, Eq, Structural)]
pub enum Action {
    /// Call the entry point with this state to start the override.
    Activate(ExecutionState),
    /// Block until the trigger to stop comes.
    Wait,
    /// Call the entry point with this state to end the override.
    Release(ExecutionState),
    /// End the process with this exit code.
    Exit(i32),
    /// Nothing: the event does not apply in the current phase.
    Idle,
}

/// The one owner of the power-state override of a run.
#[derive(Clone, Copy, Debug, PartialEq, Eq, Structural)]
pub struct Guard {
    pub mode: AwakeMode,
    pub phase: Phase,
}

/// The state that ends an override: the persistence bit and nothing else.
pub open spec fn baseline() -> ExecutionState {
    ExecutionState { bits: ES_CONTINUOUS }
}

/// The phase that follows `phase` on `ev`, and the action to perform.
pub open spec fn next(mode: AwakeMode, phase: Phase, ev: Event) -> (Phase, Action) {
    match (phase, ev) {
        (Phase::Unresolved, Event::Resolved) => (
            Phase::Activating,
            Action::Activate(mode.activation_spec()),
        ),
        (Phase::Unresolved, Event::ResolutionFailed) => (Phase::Aborted, Action::Exit(EXIT_FAILURE)),
        (Phase::Unresolved, Event::Interrupted) => (Phase::Aborted, Action::Exit(EXIT_FAILURE)),
        (Phase::Activating, Event::Applied) => (Phase::Active, Action::Wait),
        (Phase::Activating, Event::Interrupted) => (
            Phase::Releasing { exit_code: EXIT_FAILURE },
            Action::Release(baseline()),
        ),
        (Phase::Active, Event::WaitEnded) => (
            Phase::Releasing { exit_code: EXIT_SUCCESS },
            Action::Release(baseline()),
        ),
        (Phase::Active, Event::WaitFailed) => (
            Phase::Releasing { exit_code: EXIT_FAILURE },
            Action::Release(baseline()),
        ),
        (Phase::Active, Event::Interrupted) => (
            Phase::Releasing { exit_code: EXIT_FAILURE },
            Action::Release(baseline()),
        ),
        (Phase::Releasing { exit_code }, Event::Restored) => (
            Phase::Released,
            Action::Exit(exit_code),
        ),
        _ => (phase, Action::Idle),
    }
}

impl Guard {
    /// A guard for `mode` whose entry point is still to be resolved.
    pub fn new(mode: AwakeMode) -> (r: Guard)
        ensures
            r.mode == mode,
            r.phase == Phase::Unresolved,
    {
        Guard { mode, phase: Phase::Unresolved }
    }

    /// Takes in `ev` and returns what to do about it.
    pub fn step(&mut self, ev: Event) -> (r: Action)
        ensures
            final(self).mode == old(self).mode,
            (final(self).phase, r) == next(old(self).mode, old(self).phase, ev),
    {
        let (phase, action) = match (self.phase, ev) {
            (Phase::Unresolved, Event::Resolved) => (
                Phase::Activating,
                Action::Activate(self.mode.activation_state()),
            ),
            (Phase::Unresolved, Event::ResolutionFailed) => (
                Phase::Aborted,
                Action::Exit(EXIT_FAILURE),
            ),
            (Phase::Unresolved, Event::Interrupted) => (Phase::Aborted, Action::Exit(EXIT_FAILURE)),
            (Phase::Activating, Event::Applied) => (Phase::Active, Action::Wait),
            (Phase::Activating, Event::Interrupted) => (
                Phase::Releasing { exit_code: EXIT_FAILURE },
                Action::Release(ExecutionState::continuous()),
            ),
            (Phase::Active, Event::WaitEnded) => (
                Phase::Releasing { exit_code: EXIT_SUCCESS },
                Action::Release(ExecutionState::continuous()),
            ),
            (Phase::Active, Event::WaitFailed) => (
                Phase::Releasing { exit_code: EXIT_FAILURE },
                Action::Release(ExecutionState::continuous()),
            ),
            (Phase::Active, Event::Interrupted) => (
                Phase::Releasing { exit_code: EXIT_FAILURE },
                Action::Release(ExecutionState::continuous()),
            ),
            (Phase::Releasing { exit_code }, Event::Restored) => (
                Phase::Released,
                Action::Exit(exit_code),
            ),
            _ => (self.phase, Action::Idle),
        };
        self.phase = phase;
        action
    }
}

/// The phase reached from `phase` on the events `evs`, one step each, and the
/// actions returned along the way.
pub open spec fn trace(mode: AwakeMode, phase: Phase, evs: Seq<Event>) -> (Phase, Seq<Action>)
    decreases evs.len(),
{
    if evs.len() == 0 {
        (phase, Seq::empty())
    } else {
        let (p, a) = next(mode, phase, evs[0]);
        let (q, rest) = trace(mode, p, evs.drop_first());
        (q, seq![a] + rest)
    }
}

/// How many actions of `acts` activate the override.
pub open spec fn activations(acts: Seq<Action>) -> nat
    decreases acts.len(),
{
    if acts.len() == 0 {
        0
    } else {
        (if acts[0] is Activate { 1nat } else { 0nat }) + activations(acts.drop_first())
    }
}

/// How many actions of `acts` release the override.
pub open spec fn releases(acts: Seq<Action>) -> nat
    decreases acts.len(),
{
    if acts.len() == 0 {
        0
    } else {
        (if acts[0] is Release { 1nat } else { 0nat }) + releases(acts.drop_first())
    }
}

/// Whether one of `acts` ends the process.
pub open spec fn exits(acts: Seq<Action>) -> bool {
    exists|i: int| 0 <= i < acts.len() && #[trigger] acts[i] is Exit
}

/// 1 once a guard in `phase` has had its override activated, else 0.
spec fn activated(phase: Phase) -> nat {
    match phase {
        Phase::Unresolved | Phase::Aborted => 0,
        _ => 1,
    }
}

/// 1 once a guard in `phase` has had its override released, else 0.
spec fn released(phase: Phase) -> nat {
    match phase {
        Phase::Releasing { .. } | Phase::Released => 1,
        _ => 0,
    }
}

/// Whether the process has exited in `phase`.
spec fn terminal(phase: Phase) -> bool {
    phase is Released || phase is Aborted
}

/// Along any trace, the activations and releases issued are those that the
/// phases account for, and an exit leaves the guard in a final phase that
/// it never leaves.
proof fn lemma_trace_accounts(mode: AwakeMode, phase: Phase, evs: Seq<Event>)
    ensures
        ({
            let (q, acts) = trace(mode, phase, evs);
            &&& activations(acts) + activated(phase) == activated(q)
            &&& releases(acts) + released(phase) == released(q)
            &&& terminal(phase) ==> q == phase
            &&& exits(acts) ==> terminal(q)
            &&& forall|i: int|
                0 <= i < acts.len() ==> #[trigger] issued_by(mode, acts[i])
        }),
    decreases evs.len(),
{
    if evs.len() > 0 {
        let (p, a) = next(mode, phase, evs[0]);
        let (q, rest) = trace(mode, p, evs.drop_first());
        lemma_trace_accounts(mode, p, evs.drop_first());
        let acts = seq![a] + rest;
        assert(acts.drop_first() =~= rest);
        assert forall|i: int| 0 <= i < acts.len() implies #[trigger] issued_by(mode, acts[i]) by {
            if i > 0 {
                assert(acts[i] == rest[i - 1]);
            }
        }
        if exits(acts) {
            let i = choose|i: int| 0 <= i < acts.len() && #[trigger] acts[i] is Exit;
            if i > 0 {
                assert(rest[i - 1] is Exit);
            }
        }
    }
}

/// What a step may hand to the entry point: the mode's activation state, or the
/// baseline.
pub open spec fn issued_by(mode: AwakeMode, a: Action) -> bool {
    match a {
        Action::Activate(s) => s == mode.activation_spec(),
        Action::Release(s) => s == baseline(),
        _ => true,
    }
}

/// Over every sequence of events from a new guard, the override is released
/// at most once, never before it was activated, and, once the process exits,
/// exactly as many times as it was activated.
pub proof fn lemma_release_exactly_once(mode: AwakeMode, evs: Seq<Event>)
    ensures
        ({
            let (q, acts) = trace(mode, Phase::Unresolved, evs);
            &&& activations(acts) <= 1
            &&& releases(acts) <= activations(acts)
            &&& exits(acts) ==> releases(acts) == activations(acts)
        }),
{
    lemma_trace_accounts(mode, Phase::Unresolved, evs);
}

/// Every state that a guard hands to the entry point to start an override,
/// whatever the mode and the events, holds the persistence bit and exactly one
/// of the display and system requirements.
pub proof fn lemma_activation_is_persistent(mode: AwakeMode, evs: Seq<Event>)
    ensures
        ({
            let acts = trace(mode, Phase::Unresolved, evs).1;
            forall|i: int|
                0 <= i < acts.len() ==> (#[trigger] acts[i] matches Action::Activate(s) ==> {
                    &&& s@.contains(Flag::Continuous)
                    &&& s@.contains(Flag::DisplayRequired) != s@.contains(Flag::SystemRequired)
                })
        }),
{
    lemma_trace_accounts(mode, Phase::Unresolved, evs);
    mode.lemma_activation_flags();
    let acts = trace(mode, Phase::Unresolved, evs).1;
    assert forall|i: int| 0 <= i < acts.len() implies (#[trigger] acts[i] matches Action::Activate(
        s,
    ) ==> {
        &&& s@.contains(Flag::Continuous)
        &&& s@.contains(Flag::DisplayRequired) != s@.contains(Flag::SystemRequired)
    }) by {
        assert(issued_by(mode, acts[i]));
    }
}

/// Every state that a guard hands to the entry point to end an override,
/// whatever was activated before, is the persistence bit and nothing else.
pub proof fn lemma_release_is_baseline(mode: AwakeMode, evs: Seq<Event>)
    ensures
        ({
            let acts = trace(mode, Phase::Unresolved, evs).1;
            forall|i: int|
                0 <= i < acts.len() ==> (#[trigger] acts[i] matches Action::Release(s) ==> {
                    &&& s.bits == ES_CONTINUOUS
                    &&& s@ == set![Flag::Continuous]
                })
        }),
{
    lemma_trace_accounts(mode, Phase::Unresolved, evs);
    assert(0x8000_0000u32 & 0x8000_0000u32 != 0) by (bit_vector);
    assert(0x8000_0000u32 & 2u32 == 0) by (bit_vector);
    assert(0x8000_0000u32 & 1u32 == 0) by (bit_vector);
    assert(baseline()@ =~= set![Flag::Continuous]);
    let acts = trace(mode, Phase::Unresolved, evs).1;
    assert forall|i: int| 0 <= i < acts.len() implies (#[trigger] acts[i] matches Action::Release(
        s,
    ) ==> {
        &&& s.bits == ES_CONTINUOUS
        &&& s@ == set![Flag::Continuous]
    }) by {
        assert(issued_by(mode, acts[i]));
    }
}

/// When the entry point cannot be resolved, the process exits with a failure
/// code at once, and whatever follows, the entry point is never called.
pub proof fn lemma_resolution_failure_changes_nothing(mode: AwakeMode, evs: Seq<Event>)
    ensures
        ({
            let (q, acts) = trace(mode, Phase::Unresolved, seq![Event::ResolutionFailed] + evs);
            &&& acts[0] == Action::Exit(EXIT_FAILURE)
            &&& q == Phase::Aborted
            &&& activations(acts) == 0
            &&& releases(acts) == 0
        }),
{
    let all = seq![Event::ResolutionFailed] + evs;
    assert(all.drop_first() =~= evs);
    lemma_trace_accounts(mode, Phase::Aborted, evs);
    let rest = trace(mode, Phase::Aborted, evs).1;
    assert((seq![Action::Exit(EXIT_FAILURE)] + rest).drop_first() =~= rest);
}

} // verus!
