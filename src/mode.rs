//! What the user asks to keep awake, and the state that asks for it.
use vstd::prelude::*;

use crate::flags::{ES_ALL, ES_CONTINUOUS, ES_DISPLAY_REQUIRED, ES_SYSTEM_REQUIRED, ExecutionState, Flag};

verus! {

/// Which idle timer the program keeps from running out.
#[derive(Clone, Copy, Debug, PartialEq, Eq, Structural)]
pub enum AwakeMode {
    /// The machine does not go to sleep and the display stays on.
    Display,
    /// The machine does not go to sleep.
    System,
}

/// The program's arguments.
#[derive(Clone, Copy, Debug, PartialEq, Eq, Structural)]
pub struct Args {
    pub awake_mode: AwakeMode,
}

impl AwakeMode {
    /// The requirement flag of this mode, without the persistence bit.
    pub open spec fn requirement_spec(self) -> ExecutionState {
        match self {
            AwakeMode::Display => ExecutionState { bits: ES_DISPLAY_REQUIRED },
            AwakeMode::System => ExecutionState { bits: ES_SYSTEM_REQUIRED },
        }
    }

    /// The state that the guard applies for this mode: the requirement with the
    /// persistence bit.
    pub open spec fn activation_spec(self) -> ExecutionState {
        ExecutionState { bits: ES_CONTINUOUS | self.requirement_spec().bits }
    }

    /// The named flags of the state applied for this mode.
    pub open spec fn activation_flags(self) -> Set<Flag> {
        match self {
            AwakeMode::Display => set![Flag::Continuous, Flag::DisplayRequired],
            AwakeMode::System => set![Flag::Continuous, Flag::SystemRequired],
        }
    }

    /// The activation state of each mode has exactly the mode's named flags.
    pub proof fn lemma_activation_flags(self)
        ensures
            self.activation_spec()@ == self.activation_flags(),
            self.activation_spec().bits & !ES_ALL == 0,
    {
        assert((0x8000_0000u32 | 2u32) & 0x8000_0000u32 != 0) by (bit_vector);
        assert((0x8000_0000u32 | 2u32) & 2u32 != 0) by (bit_vector);
        assert((0x8000_0000u32 | 2u32) & 1u32 == 0) by (bit_vector);
        assert((0x8000_0000u32 | 2u32) & !0x8000_0003u32 == 0) by (bit_vector);
        assert((0x8000_0000u32 | 1u32) & 0x8000_0000u32 != 0) by (bit_vector);
        assert((0x8000_0000u32 | 1u32) & 2u32 == 0) by (bit_vector);
        assert((0x8000_0000u32 | 1u32) & 1u32 != 0) by (bit_vector);
        assert((0x8000_0000u32 | 1u32) & !0x8000_0003u32 == 0) by (bit_vector);
        assert(self.activation_spec()@ =~= self.activation_flags());
    }

    /// The requirement flag of this mode.
    pub fn requirement(&self) -> (r: ExecutionState)
        ensures
            r == self.requirement_spec(),
            r@ == (match self {
                AwakeMode::Display => set![Flag::DisplayRequired],
                AwakeMode::System => set![Flag::SystemRequired],
            }),
    {
        match self {
            AwakeMode::Display => ExecutionState::display_required(),
            AwakeMode::System => ExecutionState::system_required(),
        }
    }

    /// The state applied on activation: the persistence bit together with this
    /// mode's requirement, and nothing else.
    pub fn activation_state(&self) -> (r: ExecutionState)
        ensures
            r == self.activation_spec(),
            r@ == self.activation_flags(),
            r.is_persistent_request_spec(),
    {
        let r = ExecutionState::continuous().union(self.requirement());
        proof {
            self.lemma_activation_flags();
        }
        r
    }
}

} // verus!
