//! Native handles as plain values.

use vstd::prelude::*;

verus! {

/// A handle of the native subsystem: a window, a menu, a module instance,
/// an icon, a cursor or a brush. Zero is the null handle.
#[derive(Clone, Copy, PartialEq, Eq, Structural, Debug)]
pub struct Handle {
    /// The handle's value, as the native subsystem gave it.
    pub raw: usize,
}

impl Handle {
    /// The null handle.
    pub fn null() -> (handle: Handle)
        ensures
            handle.raw == 0,
    {
        Handle { raw: 0 }
    }

    /// The handle with this value.
    pub fn from_raw(raw: usize) -> (handle: Handle)
        ensures
            handle.raw == raw,
    {
        Handle { raw }
    }

    /// Whether this is the null handle.
    pub fn is_null(&self) -> (null: bool)
        ensures
            null == (self.raw == 0),
    {
        self.raw == 0
    }
}

} // verus!
