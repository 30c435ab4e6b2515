//! The event vocabulary of the message bus.

use vstd::prelude::*;

verus! {

/// One event travelling over the bus.
///
/// `Msg::Empty` is the designated empty value: the non-blocking receive
/// returns it when a queue is empty, and it is never itself enqueued.
#[derive(Copy, Clone, Debug, PartialEq, Eq, Structural)]
pub enum Msg {
    /// Nothing: the sentinel returned by a receive on an empty queue.
    Empty,
    /// The push-to-talk button changed state; `true` means pressed.
    PttButton(bool),
    /// A key was typed on the keyboard.
    Keyboard { key: char },
}

} // verus!
