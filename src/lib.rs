//! Keeps the machine awake for as long as a scoped guard is alive, and puts
//! the power state back to its baseline when the guard is released.
use vstd::prelude::*;

pub mod flags;
pub mod guard;
pub mod mode;

pub use flags::{ExecutionState, Flag};
pub use guard::{Action, Event, Guard, Phase};
pub use mode::{Args, AwakeMode};
