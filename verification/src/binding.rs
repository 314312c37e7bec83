//! The dispatch trampoline's work on one window: binding the window's slot
//! to the callback's ownership cell, handing each event to the callback
//! under a temporary reference, and unbinding at teardown.

use crate::cell::{OwnershipCell, Retained};
use crate::error::Error;
use crate::handle::Handle;
use crate::laws::{law_unbound_dispatch, lemma_initial_inv};
use crate::message::{WM_CREATE, WM_NCDESTROY};
use crate::protocol::{Frame, Protocol, Step};
use crate::slot::Slot;
use vstd::prelude::*;

verus! {

/// The behaviour of a window, supplied by the application.
///
/// The procedure is only called on the thread that dispatches the window's
/// events, but it may be called again before an earlier call has returned:
/// whatever it does to make the native subsystem deliver another event on the
/// same stack re-enters it.
pub trait WindowProc {
    /// Handles one event of the window `hwnd`. `None` asks for the native
    /// subsystem's default handling.
    fn window_proc(&self, hwnd: Handle, msg: u32, wparam: usize, lparam: isize) -> Option<isize>;
}

/// What the trampoline answers the native subsystem.
#[derive(Clone, Copy, PartialEq, Eq, Structural, Debug)]
pub enum Reply {
    /// The callback handled the event, with this result.
    Handled(isize),
    /// Nobody handled the event: the native subsystem's default handling
    /// applies, and its result is the answer.
    Default,
}

impl Reply {
    /// The answer to an event for which the callback returned `result`.
    pub open spec fn of(result: Option<isize>) -> Reply {
        match result {
            Some(code) => Reply::Handled(code),
            None => Reply::Default,
        }
    }

    /// The answer to an event for which the callback returned `result`.
    pub fn from_result(result: Option<isize>) -> (reply: Reply)
        ensures
            reply == Reply::of(result),
    {
        match result {
            Some(code) => Reply::Handled(code),
            None => Reply::Default,
        }
    }
}

/// What the return of a dispatch did.
#[derive(Clone, Copy, PartialEq, Eq, Structural, Debug)]
pub struct Departure {
    /// The answer to the native subsystem.
    pub reply: Reply,
    /// The slot was cleared: the driver of the bridge then empties the
    /// native slot.
    pub cleared: bool,
    /// The callback instance was destroyed: nothing refers to the bridge any
    /// more.
    pub destroyed: bool,
}

/// What became of a window's construction.
#[derive(Clone, Copy, PartialEq, Eq, Debug)]
pub struct Completion {
    /// The window's handle, or the error where the native creation call
    /// failed.
    pub outcome: Result<Handle, Error>,
    /// The callback instance was destroyed: nothing refers to the bridge any
    /// more.
    pub destroyed: bool,
}

/// The reference that a dispatch works with, as the word that the native
/// subsystem stores and carries: the word in the window's slot, or, where
/// the slot is empty and the event is the creation event, the word that the
/// event carries from the creation call. Zero is no reference.
pub fn referent(stored: usize, msg: u32, payload: usize) -> (word: usize)
    ensures
        word == (if stored == 0 && msg == WM_CREATE {
            payload
        } else {
            stored
        }),
{
    if stored == 0 && msg == WM_CREATE {
        payload
    } else {
        stored
    }
}

/// One dispatch in flight: made by [`Binding::enter`], given back to
/// [`Binding::leave`]. It holds the dispatch's temporary reference.
pub struct InFlight<P> {
    msg: u32,
    binds: bool,
    reference: Option<Retained<P>>,
}

impl<P> View for InFlight<P> {
    type V = Frame;

    closed spec fn view(&self) -> Frame {
        Frame { msg: self.msg, retained: self.reference is Some }
    }
}

impl<P> InFlight<P> {
    /// The instance that the dispatch keeps reachable, if it holds a
    /// reference.
    pub closed spec fn instance(&self) -> Option<P> {
        match self.reference {
            Some(reference) => Some(reference.instance()),
            None => None,
        }
    }

    /// Whether the dispatch, on entering, bound the slot.
    pub closed spec fn bound(&self) -> bool {
        self.binds
    }

    /// The event being dispatched.
    pub fn msg(&self) -> (msg: u32)
        ensures
            msg == self@.msg,
    {
        self.msg
    }

    /// Whether the dispatch, on entering, bound the slot: the driver of the
    /// bridge then writes the native slot.
    pub fn binds(&self) -> (binds: bool)
        ensures
            binds == self.bound(),
    {
        self.binds
    }

    /// The callback to hand the event to: the instance, if the dispatch
    /// found the slot bound, and nothing if it found it empty.
    pub fn target(&self) -> (target: Option<&P>)
        ensures
            target is Some == self@.retained,
            target matches Some(instance) ==> Some(*instance) == self.instance(),
    {
        match &self.reference {
            Some(reference) => Some(reference.get()),
            None => None,
        }
    }
}

/// The bridge of one window: the callback's ownership cell, the window's
/// slot, and the reference that was made at construction while it is on its
/// way to the slot.
pub struct Binding<P> {
    cell: OwnershipCell<P>,
    slot: Slot<P>,
    pending: Option<Retained<P>>,
    instance: Ghost<P>,
    frames: Ghost<Seq<Frame>>,
    log: Ghost<Seq<u32>>,
}

impl<P> View for Binding<P> {
    type V = Protocol;

    closed spec fn view(&self) -> Protocol {
        Protocol {
            pending: self.pending is Some,
            slot: self.slot@,
            refs: self.cell@.count,
            drops: self.cell@.drops,
            frames: self.frames@,
            log: self.log@,
        }
    }
}

impl<P> Binding<P> {
    /// The callback instance that this bridge was made for.
    pub closed spec fn instance(&self) -> P {
        self.instance@
    }

    /// Whether every reference that this bridge holds is one to its own
    /// instance, and its cell is well formed.
    pub closed spec fn sound(&self) -> bool {
        &&& self.cell.wf()
        &&& self.cell@.instance matches Some(instance) ==> instance == self.instance@
        &&& self.pending matches Some(reference) ==> reference.instance() == self.instance@
        &&& self.slot.instance() matches Some(instance) ==> instance == self.instance@
    }

    /// Whether this bridge is well formed: it is sound, and its state is one
    /// that a window can reach.
    pub open spec fn wf(&self) -> bool {
        &&& self.sound()
        &&& self@.inv()
        &&& self@.refs <= usize::MAX
    }

    /// The bridge of a window that is about to be constructed, with
    /// `window_proc` as its callback.
    pub fn new(window_proc: P) -> (binding: Self)
        ensures
            binding.wf(),
            binding@ == Protocol::initial(),
            binding.instance() == window_proc,
    {
        let (cell, first) = OwnershipCell::new(window_proc);
        let binding = Binding {
            cell,
            slot: Slot::new(),
            pending: Some(first),
            instance: Ghost(window_proc),
            frames: Ghost(Seq::empty()),
            log: Ghost(Seq::empty()),
        };
        proof {
            lemma_initial_inv();
        }
        binding
    }

    /// The number of outstanding references to the callback instance.
    pub fn references(&self) -> (count: usize)
        ensures
            count == self@.refs,
    {
        self.cell.count()
    }

    /// Whether the callback instance still exists.
    pub fn is_alive(&self) -> (alive: bool)
        requires
            self.wf(),
        ensures
            alive == self@.alive(),
            alive == (self@.refs > 0),
    {
        self.cell.is_alive()
    }

    /// Whether the window's slot holds the reference.
    pub fn is_bound(&self) -> (bound: bool)
        ensures
            bound == (self@.slot is Bound),
    {
        self.slot.is_bound()
    }

    /// Whether the reference made at construction is still on its way to the
    /// slot.
    pub fn is_pending(&self) -> (pending: bool)
        ensures
            pending == self@.pending,
    {
        self.pending.is_some()
    }

    /// Enters the dispatch of `msg`.
    ///
    /// If `msg` is the creation event, the reference made at construction is
    /// written into the slot. Then the slot is read: if it is bound, the
    /// dispatch takes a temporary reference, and the callback is to be called
    /// with the event; if it is empty, nothing is to be called.
    pub fn enter(&mut self, msg: u32) -> (call: InFlight<P>)
        requires
            old(self).wf(),
            old(self)@.refs < usize::MAX,
        ensures
            final(self).wf(),
            final(self).instance() == old(self).instance(),
            final(self)@ == old(self)@.enter(msg),
            call@ == (Frame { msg, retained: old(self)@.delivers(msg) }),
            call.bound() == old(self)@.binds(msg),
            call@.retained ==> call.instance() == Some(old(self).instance()),
    {
        let mut binds = false;
        if msg == WM_CREATE {
            match self.pending.take() {
                Some(reference) => {
                    self.slot.bind(reference);
                    binds = true;
                },
                None => {},
            }
        }
        let reference = if self.slot.is_bound() {
            Some(self.cell.retain())
        } else {
            None
        };
        let call = InFlight { msg, binds, reference };
        proof {
            let frames = self.frames@;
            assert(frames.push(call@).drop_last() =~= frames);
            if call@.retained {
                self.log@ = self.log@.push(msg);
            }
            self.frames@ = frames.push(call@);
        }
        call
    }

    /// Leaves the dispatch `call`, the innermost one in flight, for which
    /// the callback returned `result`.
    ///
    /// The dispatch's temporary reference is given back. If its event is the
    /// teardown event and the slot is bound, the slot is cleared and the
    /// reference that was in it is given back too. The callback instance is
    /// destroyed here exactly if that leaves no reference outstanding.
    ///
    /// The answer is the callback's result, and the default handling where
    /// there is none or the callback was not called.
    pub fn leave(&mut self, call: InFlight<P>, result: Option<isize>) -> (left: Departure)
        requires
            old(self).wf(),
            old(self)@.frames.len() > 0,
            old(self)@.frames.last() == call@,
        ensures
            final(self).wf(),
            final(self).instance() == old(self).instance(),
            final(self)@ == old(self)@.leave(),
            left.reply == (if call@.retained {
                Reply::of(result)
            } else {
                Reply::Default
            }),
            left.cleared == old(self)@.clears(),
            left.destroyed == old(self)@.destroys(Step::Leave),
    {
        let InFlight { msg, binds: _, reference } = call;
        proof {
            self.frames@ = self.frames@.drop_last();
        }
        let mut destroyed = false;
        let reply = match reference {
            Some(reference) => {
                destroyed = self.cell.release(reference);
                Reply::from_result(result)
            },
            None => Reply::Default,
        };
        let cleared = msg == WM_NCDESTROY && self.slot.is_bound();
        if cleared {
            let reference = self.slot.clear();
            destroyed = self.cell.release(reference);
        }
        Departure { reply, cleared, destroyed }
    }

    /// Takes the outcome of the native creation call: the window's handle,
    /// null if the call failed.
    ///
    /// On failure the reference made at construction is given back here, if
    /// it has not reached the slot: no creation event will carry it there.
    pub fn complete(&mut self, hwnd: Handle) -> (done: Completion)
        requires
            old(self).wf(),
        ensures
            final(self).wf(),
            final(self).instance() == old(self).instance(),
            hwnd.raw != 0 ==> done.outcome == Ok::<Handle, Error>(hwnd) && !done.destroyed
                && final(self)@ == old(self)@,
            hwnd.raw == 0 ==> done.outcome == Err::<Handle, Error>(Error::WindowCreationFailed)
                && done.destroyed == old(self)@.destroys(Step::Fail) && final(self)@ == old(
                self,
            )@.fail(),
    {
        if hwnd.is_null() {
            let destroyed = match self.pending.take() {
                Some(reference) => self.cell.release(reference),
                None => false,
            };
            Completion { outcome: Err(Error::WindowCreationFailed), destroyed }
        } else {
            Completion { outcome: Ok(hwnd), destroyed: false }
        }
    }
}

impl<P: WindowProc> Binding<P> {
    /// Dispatches one event of the window `hwnd` to its callback: enters the
    /// dispatch, calls the callback if the slot is bound, and leaves.
    ///
    /// The callback decides the answer where it is called. Where the slot is
    /// empty it is not called, and the answer is the default handling.
    pub fn dispatch(&mut self, hwnd: Handle, msg: u32, wparam: usize, lparam: isize) -> (left:
        Departure)
        requires
            old(self).wf(),
            old(self)@.refs < usize::MAX,
        ensures
            final(self).wf(),
            final(self).instance() == old(self).instance(),
            final(self)@ == old(self)@.enter(msg).leave(),
            left.cleared == old(self)@.enter(msg).clears(),
            left.destroyed == old(self)@.enter(msg).destroys(Step::Leave),
            !old(self)@.delivers(msg) ==> left.reply == Reply::Default && final(self)@ == old(
                self,
            )@,
    {
        proof {
            if !self@.delivers(msg) {
                law_unbound_dispatch(self@, msg);
            }
        }
        let call = self.enter(msg);
        let result = match call.target() {
            Some(window_proc) => window_proc.window_proc(hwnd, msg, wparam, lparam),
            None => None,
        };
        self.leave(call, result)
    }
}

} // verus!
