//! Configuration errors raised while the firmware is wired up at startup.

use vstd::prelude::*;

verus! {

/// A fatal configuration error: the fixed pools of the firmware were
/// exceeded while it was being wired up.  The firmware does not partially
/// start; the caller aborts on any of these.
#[derive(Copy, Clone, Debug, PartialEq, Eq, Structural)]
pub enum ConfigError {
    /// More channels were requested than the fixed channel pool holds.
    TooManyChannels,
    /// More tasks were registered than the fixed task-slot pool holds.
    TooManyTasks,
}

} // verus!
