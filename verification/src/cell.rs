//! The ownership cell: a counted holder of one callback instance.
//!
//! Every outstanding reference to the instance is a [`Retained`] value. The
//! cell counts them; references are made by [`OwnershipCell::new`] and
//! [`OwnershipCell::retain`] and given back to [`OwnershipCell::release`],
//! and the instance is destroyed when the last one has come back.

use std::rc::Rc;
use vstd::prelude::*;

verus! {

/// Another pointer to the allocation of `shared`.
///
/// Trusted: `Rc::clone` returns a pointer to the value that `shared` points
/// to. Nothing else is claimed of it.
#[verifier::external_body]
fn share<P>(shared: &Rc<P>) -> (handle: Rc<P>)
    ensures
        handle == *shared,
{
    Rc::clone(shared)
}

/// One counted reference to the instance in an [`OwnershipCell`].
pub struct Retained<P> {
    target: Rc<P>,
}

impl<P> Retained<P> {
    /// The instance that this reference keeps reachable.
    pub closed spec fn instance(&self) -> P {
        *self.target
    }

    /// The instance itself.
    pub fn get(&self) -> (instance: &P)
        ensures
            *instance == self.instance(),
    {
        &*self.target
    }
}

/// What an [`OwnershipCell`] is, as plain values.
pub struct CellView<P> {
    /// The number of outstanding references.
    pub count: nat,
    /// The instance, while it has not been destroyed.
    pub instance: Option<P>,
    /// How often the instance has been destroyed.
    pub drops: nat,
}

impl<P> CellView<P> {
    /// The cell's invariant: the instance lives exactly while references are
    /// outstanding, and it has been destroyed once when none are.
    pub open spec fn wf(self) -> bool {
        &&& self.instance is Some <==> self.count > 0
        &&& self.drops == (if self.count > 0 {
            0nat
        } else {
            1nat
        })
    }

    /// The cell after one more reference was taken.
    pub open spec fn retained(self) -> CellView<P> {
        CellView { count: self.count + 1, ..self }
    }

    /// The cell after one reference was given back.
    pub open spec fn released(self) -> CellView<P> {
        if self.count == 1 {
            CellView { count: 0, instance: None, drops: self.drops + 1 }
        } else {
            CellView { count: (self.count - 1) as nat, ..self }
        }
    }
}

/// A counted holder of one instance of `P`.
pub struct OwnershipCell<P> {
    instance: Option<Rc<P>>,
    count: usize,
    drops: Ghost<nat>,
}

impl<P> View for OwnershipCell<P> {
    type V = CellView<P>;

    closed spec fn view(&self) -> CellView<P> {
        CellView {
            count: self.count as nat,
            instance: match self.instance {
                Some(shared) => Some(*shared),
                None => None,
            },
            drops: self.drops@,
        }
    }
}

impl<P> OwnershipCell<P> {
    /// Whether this cell is well formed.
    pub open spec fn wf(&self) -> bool {
        self@.wf() && self@.count <= usize::MAX
    }

    /// Takes ownership of `instance`. The count starts at one: the reference
    /// returned with the cell is the one that is to be handed to a window's
    /// slot.
    pub fn new(instance: P) -> (made: (Self, Retained<P>))
        ensures
            made.0.wf(),
            made.0@ == (CellView { count: 1, instance: Some(instance), drops: 0 }),
            made.1.instance() == instance,
    {
        let shared = Rc::new(instance);
        let first = Retained { target: share(&shared) };
        (OwnershipCell { instance: Some(shared), count: 1, drops: Ghost(0) }, first)
    }

    /// The number of outstanding references.
    pub fn count(&self) -> (count: usize)
        ensures
            count == self@.count,
    {
        self.count
    }

    /// Whether the instance still exists.
    pub fn is_alive(&self) -> (alive: bool)
        requires
            self.wf(),
        ensures
            alive == (self@.instance is Some),
            alive == (self@.count > 0),
            alive == (self@.drops == 0),
    {
        self.count > 0
    }

    /// Takes one more reference to the instance.
    ///
    /// The instance must still exist, and the count must not be at its
    /// machine limit.
    pub fn retain(&mut self) -> (reference: Retained<P>)
        requires
            old(self).wf(),
            old(self)@.count > 0,
            old(self)@.count < usize::MAX,
        ensures
            final(self).wf(),
            final(self)@ == old(self)@.retained(),
            Some(reference.instance()) == old(self)@.instance,
    {
        self.count = self.count + 1;
        let shared = self.instance.as_ref().unwrap();
        Retained { target: share(shared) }
    }

    /// Gives one reference back. With the last one the instance is
    /// destroyed, before this call returns. Returns whether it was.
    pub fn release(&mut self, reference: Retained<P>) -> (destroyed: bool)
        requires
            old(self).wf(),
            old(self)@.count > 0,
        ensures
            final(self).wf(),
            final(self)@ == old(self)@.released(),
            destroyed == (old(self)@.count == 1),
    {
        self.count = self.count - 1;
        if self.count == 0 {
            self.instance = None;
            self.drops = Ghost((self.drops@ + 1) as nat);
            true
        } else {
            false
        }
    }
}

} // verus!
