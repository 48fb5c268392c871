//! The power-state bitmask handed to the platform's execution-state entry point.
use vstd::prelude::*;

verus! {

/// The state being set stays in effect until it is explicitly cleared.
pub const ES_CONTINUOUS: u32 = 0x8000_0000;

/// Keeps the display on by resetting the display idle timer.
pub const ES_DISPLAY_REQUIRED: u32 = 0x0000_0002;

/// Keeps the system in the working state by resetting the system idle timer.
pub const ES_SYSTEM_REQUIRED: u32 = 0x0000_0001;

/// Every bit that has a name.
pub const ES_ALL: u32 = 0x8000_0003;

/// One named bit of an execution state.
#[derive(Clone, Copy, Debug, PartialEq, Eq, Structural)]
pub enum Flag {
    Continuous,
    DisplayRequired,
    SystemRequired,
}

impl Flag {
    /// The bit that stands for this flag.
    pub open spec fn bit(self) -> u32 {
        match self {
            Flag::Continuous => ES_CONTINUOUS,
            Flag::DisplayRequired => ES_DISPLAY_REQUIRED,
            Flag::SystemRequired => ES_SYSTEM_REQUIRED,
        }
    }
}

/// A set of power-state bits, compared by their bit pattern.
#[derive(Clone, Copy, Debug, PartialEq, Eq, Structural)]
pub struct ExecutionState {
    pub bits: u32,
}

/// Whether `bits` holds only named bits.
pub open spec fn only_named_bits(bits: u32) -> bool {
    bits & !ES_ALL == 0
}

impl ExecutionState {
    /// The named flags that are set.
    pub open spec fn view(self) -> Set<Flag> {
        Set::new(|f: Flag| self.bits & f.bit() != 0)
    }

    /// A state that asks for a lasting override: it is continuous and keeps at
    /// least the display or the system awake.
    pub open spec fn is_persistent_request_spec(self) -> bool {
        &&& self@.contains(Flag::Continuous)
        &&& (self@.contains(Flag::DisplayRequired) || self@.contains(Flag::SystemRequired))
    }

    /// The baseline: continuous, with no requirement.
    pub fn continuous() -> (r: ExecutionState)
        ensures
            r.bits == ES_CONTINUOUS,
            r@ == set![Flag::Continuous],
    {
        let r = ExecutionState { bits: ES_CONTINUOUS };
        proof {
            lemma_named_constants();
            assert(r@ =~= set![Flag::Continuous]);
        }
        r
    }

    /// Keeps the display on.
    pub fn display_required() -> (r: ExecutionState)
        ensures
            r.bits == ES_DISPLAY_REQUIRED,
            r@ == set![Flag::DisplayRequired],
    {
        let r = ExecutionState { bits: ES_DISPLAY_REQUIRED };
        proof {
            lemma_named_constants();
            assert(r@ =~= set![Flag::DisplayRequired]);
        }
        r
    }

    /// Keeps the system in the working state.
    pub fn system_required() -> (r: ExecutionState)
        ensures
            r.bits == ES_SYSTEM_REQUIRED,
            r@ == set![Flag::SystemRequired],
    {
        let r = ExecutionState { bits: ES_SYSTEM_REQUIRED };
        proof {
            lemma_named_constants();
            assert(r@ =~= set![Flag::SystemRequired]);
        }
        r
    }

    /// The state with exactly `bits`, provided that every bit in it has a name.
    pub fn from_bits(bits: u32) -> (r: Option<ExecutionState>)
        ensures
            r is Some <==> only_named_bits(bits),
            r matches Some(s) ==> s.bits == bits,
    {
        if bits & !ES_ALL == 0 {
            Some(ExecutionState { bits })
        } else {
            None
        }
    }

    /// Both sets of flags together: the bitwise or of the two patterns.
    pub fn union(self, other: ExecutionState) -> (r: ExecutionState)
        ensures
            r.bits == self.bits | other.bits,
            r@ == self@ + other@,
            only_named_bits(self.bits) && only_named_bits(other.bits) ==> only_named_bits(r.bits),
    {
        let r = ExecutionState { bits: self.bits | other.bits };
        proof {
            lemma_or_named(self.bits, other.bits);
            assert(r@ =~= self@ + other@);
        }
        r
    }

    /// Whether this state asks for a lasting override.
    pub fn is_persistent_request(&self) -> (r: bool)
        ensures
            r == self.is_persistent_request_spec(),
    {
        self.bits & ES_CONTINUOUS != 0 && (self.bits & ES_DISPLAY_REQUIRED != 0 || self.bits
            & ES_SYSTEM_REQUIRED != 0)
    }
}

/// A named bit is set in `a | b` exactly when it is set in `a` or in `b`.
proof fn lemma_or_named(a: u32, b: u32)
    ensures
        forall|f: Flag| #![auto] (a | b) & f.bit() != 0 <==> (a & f.bit() != 0 || b & f.bit() != 0),
        only_named_bits(a) && only_named_bits(b) ==> only_named_bits(a | b),
{
    assert forall|f: Flag| #![auto] (a | b) & f.bit() != 0 <==> (a & f.bit() != 0 || b & f.bit()
        != 0) by {
        let k = f.bit();
        assert((a | b) & k != 0 <==> (a & k != 0 || b & k != 0)) by (bit_vector);
    }
    assert((a & !0x8000_0003u32 == 0 && b & !0x8000_0003u32 == 0) ==> (a | b) & !0x8000_0003u32
        == 0) by (bit_vector);
}


/// Which named bit each single-flag constant carries.
proof fn lemma_named_constants()
    ensures
        ES_CONTINUOUS & ES_CONTINUOUS != 0,
        ES_CONTINUOUS & ES_DISPLAY_REQUIRED == 0,
        ES_CONTINUOUS & ES_SYSTEM_REQUIRED == 0,
        ES_DISPLAY_REQUIRED & ES_CONTINUOUS == 0,
        ES_DISPLAY_REQUIRED & ES_DISPLAY_REQUIRED != 0,
        ES_DISPLAY_REQUIRED & ES_SYSTEM_REQUIRED == 0,
        ES_SYSTEM_REQUIRED & ES_CONTINUOUS == 0,
        ES_SYSTEM_REQUIRED & ES_DISPLAY_REQUIRED == 0,
        ES_SYSTEM_REQUIRED & ES_SYSTEM_REQUIRED != 0,
        only_named_bits(ES_CONTINUOUS),
        only_named_bits(ES_DISPLAY_REQUIRED),
        only_named_bits(ES_SYSTEM_REQUIRED),
{
    assert(0x8000_0000u32 & 0x8000_0000u32 != 0) by (bit_vector);
    assert(0x8000_0000u32 & 2u32 == 0) by (bit_vector);
    assert(0x8000_0000u32 & 1u32 == 0) by (bit_vector);
    assert(2u32 & 0x8000_0000u32 == 0) by (bit_vector);
    assert(2u32 & 2u32 != 0) by (bit_vector);
    assert(2u32 & 1u32 == 0) by (bit_vector);
    assert(1u32 & 0x8000_0000u32 == 0) by (bit_vector);
    assert(1u32 & 2u32 == 0) by (bit_vector);
    assert(1u32 & 1u32 != 0) by (bit_vector);
    assert(0x8000_0000u32 & !0x8000_0003u32 == 0) by (bit_vector);
    assert(2u32 & !0x8000_0003u32 == 0) by (bit_vector);
    assert(1u32 & !0x8000_0003u32 == 0) by (bit_vector);
}

} // verus!
