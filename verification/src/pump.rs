//! The decisions of a message loop.
//!
//! The loop itself belongs to whoever calls the native subsystem: it
//! retrieves the next message, and does with it what the two functions here
//! decide.

use crate::handle::Handle;
use vstd::prelude::*;

verus! {

/// What a message loop does next.
#[derive(Clone, Copy, PartialEq, Eq, Structural, Debug)]
pub enum Pump {
    /// Leave the loop, with this result.
    Exit(i32),
    /// Offer the message to the accelerator table.
    Accelerate,
    /// Turn the message's key strokes into characters, and dispatch it to
    /// its window.
    Dispatch,
    /// Retrieve the next message: this one has been dealt with.
    Next,
}

/// What to do with a message, given what its retrieval returned and the
/// accelerator table of the loop.
///
/// A result of zero is the quit message and a negative one an error: both
/// end the loop, with that result. Without an accelerator table the message
/// is dispatched; with one it is offered to the table first.
pub fn retrieved(result: i32, accel: Handle) -> (pump: Pump)
    ensures
        pump == (if result <= 0 {
            Pump::Exit(result)
        } else if accel.raw == 0 {
            Pump::Dispatch
        } else {
            Pump::Accelerate
        }),
{
    if result <= 0 {
        Pump::Exit(result)
    } else if accel.is_null() {
        Pump::Dispatch
    } else {
        Pump::Accelerate
    }
}

/// What to do with a message that was offered to the accelerator table,
/// given what the table returned: zero where it did not take the message,
/// which is then dispatched.
pub fn accelerated(result: i32) -> (pump: Pump)
    ensures
        pump == (if result == 0 {
            Pump::Dispatch
        } else {
            Pump::Next
        }),
{
    if result == 0 {
        Pump::Dispatch
    } else {
        Pump::Next
    }
}

} // verus!
