//! The commands that the engine itself understands.

use vstd::prelude::*;

verus! {

/// Runtime identifier of a kind of command.
pub type CommandType = u64;

/// Asks the engine to leave its loop.
pub struct ExitCmd {}

/// The kind of `ExitCmd`.
pub const EXIT_CMD: CommandType = 0;

} // verus!
