use stay_awake::flags::{ES_ALL, ES_CONTINUOUS, ES_DISPLAY_REQUIRED, ES_SYSTEM_REQUIRED};
use stay_awake::guard::{EXIT_FAILURE, EXIT_SUCCESS};
use stay_awake::{Action, Args, AwakeMode, Event, ExecutionState, Guard, Phase};

/// An entry point that records every state it is called with and reports
/// `previous` as the state that was in effect.
struct MockEntryPoint {
    calls: Vec<u32>,
    previous: u32,
}

impl MockEntryPoint {
    fn new(previous: u32) -> Self {
        MockEntryPoint { calls: Vec::new(), previous }
    }

    fn call(&mut self, state: ExecutionState) -> u32 {
        self.calls.push(state.bits);
        self.previous
    }
}

/// Runs a guard to its exit, the way the program does, with `resolved` as the
/// outcome of resolution and `stop` as the event that ends the wait.
fn drive(mode: AwakeMode, resolved: bool, stop: Event, ep: &mut MockEntryPoint) -> (i32, Vec<u32>) {
    let mut guard = Guard::new(mode);
    let mut previous = Vec::new();
    let mut action = guard.step(if resolved { Event::Resolved } else { Event::ResolutionFailed });
    loop {
        action = match action {
            Action::Activate(s) => {
                previous.push(ep.call(s));
                guard.step(Event::Applied)
            }
            Action::Wait => guard.step(stop),
            Action::Release(s) => {
                previous.push(ep.call(s));
                guard.step(Event::Restored)
            }
            Action::Exit(code) => return (code, previous),
            Action::Idle => panic!("event not taken in phase {:?}", guard.phase),
        };
    }
}

#[test]
fn mode_mapping_display() {
    let s = AwakeMode::Display.activation_state();
    assert_eq!(s.bits, 0x8000_0002);
    assert_eq!(s, ExecutionState::continuous().union(ExecutionState::display_required()));
    assert!(s.is_persistent_request());
}

#[test]
fn mode_mapping_system() {
    let s = AwakeMode::System.activation_state();
    assert_eq!(s.bits, 0x8000_0001);
    assert_eq!(s, ExecutionState::continuous().union(ExecutionState::system_required()));
    assert!(s.is_persistent_request());
}

#[test]
fn requirement_leaves_out_persistence() {
    assert_eq!(AwakeMode::Display.requirement().bits, ES_DISPLAY_REQUIRED);
    assert_eq!(AwakeMode::System.requirement().bits, ES_SYSTEM_REQUIRED);
    assert!(!AwakeMode::System.requirement().is_persistent_request());
}

#[test]
fn activation_holds_exactly_one_requirement() {
    for mode in [AwakeMode::Display, AwakeMode::System] {
        let bits = mode.activation_state().bits;
        assert_ne!(bits & ES_CONTINUOUS, 0);
        let display = bits & ES_DISPLAY_REQUIRED != 0;
        let system = bits & ES_SYSTEM_REQUIRED != 0;
        assert!(display != system);
        assert_eq!(bits & !ES_ALL, 0);
    }
}

#[test]
fn named_constants() {
    assert_eq!(ExecutionState::continuous().bits, 0x8000_0000);
    assert_eq!(ExecutionState::display_required().bits, 0x0000_0002);
    assert_eq!(ExecutionState::system_required().bits, 0x0000_0001);
}

#[test]
fn persistence_alone_is_no_request() {
    assert!(!ExecutionState::continuous().is_persistent_request());
    let both = ExecutionState::display_required().union(ExecutionState::system_required());
    assert_eq!(both.bits, 3);
    assert!(!both.is_persistent_request());
    assert!(ExecutionState::continuous().union(both).is_persistent_request());
}

#[test]
fn from_bits_accepts_named_bits_only() {
    assert_eq!(ExecutionState::from_bits(0x8000_0001), Some(AwakeMode::System.activation_state()));
    assert_eq!(ExecutionState::from_bits(0).map(|s| s.bits), Some(0));
    assert_eq!(ExecutionState::from_bits(0x8000_0003).map(|s| s.bits), Some(0x8000_0003));
    assert_eq!(ExecutionState::from_bits(0x0000_0040), None);
    assert_eq!(ExecutionState::from_bits(0x8000_0004), None);
}

#[test]
fn union_is_bitwise_or() {
    let u = ExecutionState::continuous().union(ExecutionState::continuous());
    assert_eq!(u, ExecutionState::continuous());
    let v = ExecutionState::system_required().union(ExecutionState::continuous());
    assert_eq!(v.bits, 0x8000_0001);
}

#[test]
fn system_run_with_zero_previous_state() {
    let mut ep = MockEntryPoint::new(0x0);
    let (code, previous) = drive(AwakeMode::System, true, Event::WaitEnded, &mut ep);
    assert_eq!(code, 0);
    assert_eq!(previous, vec![0x0, 0x0]);
    assert_eq!(ep.calls, vec![0x8000_0001, 0x8000_0000]);
    assert_eq!(ep.calls.len(), 2);
}

#[test]
fn display_run_applies_display_state() {
    let mut ep = MockEntryPoint::new(0x8000_0000);
    let (code, _) = drive(AwakeMode::Display, true, Event::WaitEnded, &mut ep);
    assert_eq!(code, EXIT_SUCCESS);
    assert_eq!(ep.calls, vec![0x8000_0002, 0x8000_0000]);
}

#[test]
fn release_once_after_wait_error() {
    let mut ep = MockEntryPoint::new(0x8000_0000);
    let (code, _) = drive(AwakeMode::Display, true, Event::WaitFailed, &mut ep);
    assert_eq!(code, EXIT_FAILURE);
    assert_eq!(ep.calls, vec![0x8000_0002, 0x8000_0000]);
}

#[test]
fn release_once_after_interrupt() {
    let mut ep = MockEntryPoint::new(0x0);
    let (code, _) = drive(AwakeMode::System, true, Event::Interrupted, &mut ep);
    assert_eq!(code, 1);
    assert_eq!(ep.calls, vec![0x8000_0001, 0x8000_0000]);
}

#[test]
fn interrupt_during_activation_still_releases() {
    let mut guard = Guard::new(AwakeMode::Display);
    assert_eq!(guard.step(Event::Resolved), Action::Activate(AwakeMode::Display.activation_state()));
    assert_eq!(guard.step(Event::Interrupted), Action::Release(ExecutionState::continuous()));
    assert_eq!(guard.phase, Phase::Releasing { exit_code: EXIT_FAILURE });
    assert_eq!(guard.step(Event::Applied), Action::Idle);
    assert_eq!(guard.step(Event::Interrupted), Action::Idle);
    assert_eq!(guard.step(Event::Restored), Action::Exit(EXIT_FAILURE));
    assert_eq!(guard.phase, Phase::Released);
}

#[test]
fn resolution_failure_never_calls_entry_point() {
    let mut ep = MockEntryPoint::new(0x0);
    let (code, _) = drive(AwakeMode::System, false, Event::WaitEnded, &mut ep);
    assert_ne!(code, 0);
    assert!(ep.calls.is_empty());
}

#[test]
fn aborted_guard_ignores_everything() {
    let mut guard = Guard::new(AwakeMode::System);
    assert_eq!(guard.step(Event::ResolutionFailed), Action::Exit(EXIT_FAILURE));
    assert_eq!(guard.phase, Phase::Aborted);
    for ev in [
        Event::Resolved,
        Event::Applied,
        Event::WaitEnded,
        Event::WaitFailed,
        Event::Interrupted,
        Event::Restored,
    ] {
        assert_eq!(guard.step(ev), Action::Idle);
        assert_eq!(guard.phase, Phase::Aborted);
    }
}

#[test]
fn interrupt_before_resolution_exits_without_calls() {
    let mut guard = Guard::new(AwakeMode::Display);
    assert_eq!(guard.step(Event::Interrupted), Action::Exit(EXIT_FAILURE));
    assert_eq!(guard.step(Event::Resolved), Action::Idle);
}

#[test]
fn released_guard_never_releases_again() {
    let mut guard = Guard::new(AwakeMode::System);
    guard.step(Event::Resolved);
    guard.step(Event::Applied);
    assert_eq!(guard.step(Event::WaitEnded), Action::Release(ExecutionState::continuous()));
    assert_eq!(guard.step(Event::WaitEnded), Action::Idle);
    assert_eq!(guard.step(Event::Interrupted), Action::Idle);
    assert_eq!(guard.step(Event::Restored), Action::Exit(EXIT_SUCCESS));
    for ev in [Event::WaitEnded, Event::WaitFailed, Event::Interrupted, Event::Restored] {
        assert_eq!(guard.step(ev), Action::Idle);
    }
    assert_eq!(guard.phase, Phase::Released);
}

#[test]
fn events_out_of_order_are_ignored() {
    let mut guard = Guard::new(AwakeMode::System);
    assert_eq!(guard.step(Event::Applied), Action::Idle);
    assert_eq!(guard.step(Event::WaitEnded), Action::Idle);
    assert_eq!(guard.step(Event::Restored), Action::Idle);
    assert_eq!(guard.phase, Phase::Unresolved);
    assert_eq!(guard.step(Event::Resolved), Action::Activate(AwakeMode::System.activation_state()));
    assert_eq!(guard.step(Event::Resolved), Action::Idle);
    assert_eq!(guard.step(Event::WaitEnded), Action::Idle);
    assert_eq!(guard.phase, Phase::Activating);
}

#[test]
fn args_carry_the_mode() {
    let args = Args { awake_mode: AwakeMode::Display };
    assert_eq!(Guard::new(args.awake_mode).mode, AwakeMode::Display);
    assert_eq!(Guard::new(AwakeMode::System).phase, Phase::Unresolved);
}
