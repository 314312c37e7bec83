//! The per-window slot that associates a window with its ownership cell.

use crate::cell::Retained;
use crate::protocol::SlotState;
use vstd::prelude::*;

verus! {

/// One window's slot: empty, or holding the reference to the ownership cell
/// of the window's callback.
///
/// A slot is written at most twice: it is bound once and cleared once, in
/// that order.
pub struct Slot<P> {
    reference: Option<Retained<P>>,
    written: bool,
}

impl<P> View for Slot<P> {
    type V = SlotState;

    closed spec fn view(&self) -> SlotState {
        if self.reference is Some {
            SlotState::Bound
        } else if self.written {
            SlotState::Cleared
        } else {
            SlotState::Vacant
        }
    }
}

impl<P> Slot<P> {
    /// The instance that the slot's reference keeps reachable, if the slot is
    /// bound.
    pub closed spec fn instance(&self) -> Option<P> {
        match self.reference {
            Some(reference) => Some(reference.instance()),
            None => None,
        }
    }

    /// How often the slot has been written.
    pub open spec fn writes(&self) -> nat {
        match self@ {
            SlotState::Vacant => 0,
            SlotState::Bound => 1,
            SlotState::Cleared => 2,
        }
    }

    /// A slot that has never been written.
    pub fn new() -> (slot: Self)
        ensures
            slot@ is Vacant,
            slot.instance() is None,
    {
        Slot { reference: None, written: false }
    }

    /// Whether the slot holds a reference.
    pub fn is_bound(&self) -> (bound: bool)
        ensures
            bound == (self@ is Bound),
            bound == (self.instance() is Some),
    {
        self.reference.is_some()
    }

    /// Whether the slot reads as empty.
    pub fn is_empty(&self) -> (empty: bool)
        ensures
            empty == !(self@ is Bound),
    {
        self.reference.is_none()
    }

    /// The first write: the slot takes the reference.
    pub fn bind(&mut self, reference: Retained<P>)
        requires
            old(self)@ is Vacant,
        ensures
            final(self)@ is Bound,
            final(self).instance() == Some(reference.instance()),
            final(self).writes() == old(self).writes() + 1,
    {
        self.reference = Some(reference);
        self.written = true;
    }

    /// The second write: the slot is emptied for good and hands back the
    /// reference it held.
    pub fn clear(&mut self) -> (reference: Retained<P>)
        requires
            old(self)@ is Bound,
        ensures
            final(self)@ is Cleared,
            final(self).instance() is None,
            Some(reference.instance()) == old(self).instance(),
            final(self).writes() == old(self).writes() + 1,
    {
        self.written = true;
        self.reference.take().unwrap()
    }
}

} // verus!
