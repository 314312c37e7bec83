//! The two event codes that the lifetime protocol singles out.

use vstd::prelude::*;

verus! {

/// The creation event: the one event that carries the reference to the
/// ownership cell, and on which the slot is bound.
pub const WM_CREATE: u32 = 0x0001;

/// The teardown event: the last event a window receives, and on which the
/// slot is cleared.
pub const WM_NCDESTROY: u32 = 0x0082;

} // verus!
