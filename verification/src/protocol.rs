//! The lifetime protocol of one window as a state machine over plain values.
//!
//! A window's state changes in three kinds of step: a dispatch is entered, the
//! innermost dispatch in flight returns, or the native creation call reports
//! failure. Dispatches nest, so the dispatches in flight form a stack.

use crate::message::{WM_CREATE, WM_NCDESTROY};
use vstd::prelude::*;

verus! {

/// What a window's slot holds, and whether it has been written.
pub enum SlotState {
    /// Never written: empty.
    Vacant,
    /// Written once: holds the reference to the ownership cell.
    Bound,
    /// Written twice: empty again, for good.
    Cleared,
}

/// One dispatch in flight.
pub struct Frame {
    /// The event being dispatched.
    pub msg: u32,
    /// Whether the dispatch holds a temporary reference, which it does
    /// exactly if it found the slot bound.
    pub retained: bool,
}

/// The state of one window's bridge.
pub struct Protocol {
    /// The reference made at construction has not reached the slot yet.
    pub pending: bool,
    /// The window's slot.
    pub slot: SlotState,
    /// The ownership cell's count of outstanding references.
    pub refs: nat,
    /// How often the callback instance has been destroyed.
    pub drops: nat,
    /// The dispatches in flight, outermost first.
    pub frames: Seq<Frame>,
    /// The events handed to the callback so far, in order.
    pub log: Seq<u32>,
}

/// One step of a window's life.
pub enum Step {
    /// The native subsystem enters the trampoline with this event.
    Enter(u32),
    /// The innermost dispatch in flight returns.
    Leave,
    /// The native creation call returns an invalid handle.
    Fail,
}

/// The number of frames that hold a temporary reference.
pub open spec fn retained_frames(frames: Seq<Frame>) -> nat
    decreases frames.len(),
{
    if frames.len() == 0 {
        0
    } else {
        retained_frames(frames.drop_last()) + (if frames.last().retained {
            1nat
        } else {
            0nat
        })
    }
}

/// How often `msg` occurs in `events`.
pub open spec fn occurrences(events: Seq<u32>, msg: u32) -> nat
    decreases events.len(),
{
    if events.len() == 0 {
        0
    } else {
        occurrences(events.drop_last(), msg) + (if events.last() == msg {
            1nat
        } else {
            0nat
        })
    }
}

impl Protocol {
    /// A window's state when its construction begins: the cell has just been
    /// made, and its one reference is on its way to the slot.
    pub open spec fn initial() -> Protocol {
        Protocol {
            pending: true,
            slot: SlotState::Vacant,
            refs: 1,
            drops: 0,
            frames: Seq::empty(),
            log: Seq::empty(),
        }
    }

    /// Whether the callback instance still exists.
    pub open spec fn alive(self) -> bool {
        self.drops == 0
    }

    /// The references that no dispatch holds: the one on its way to the slot,
    /// or the one in it.
    pub open spec fn held(self) -> nat {
        if self.pending || self.slot is Bound {
            1
        } else {
            0
        }
    }

    /// One reference is given up; with the last one the instance goes.
    pub open spec fn release(self) -> Protocol {
        Protocol {
            refs: (self.refs - 1) as nat,
            drops: if self.refs == 1 {
                self.drops + 1
            } else {
                self.drops
            },
            ..self
        }
    }

    /// Whether a dispatch of `msg` entered now binds the slot: the creation
    /// event does, while the reference made at construction is on its way.
    pub open spec fn binds(self, msg: u32) -> bool {
        msg == WM_CREATE && self.pending
    }

    /// The state as the dispatch of `msg` finds it after its first step, in
    /// which the creation event binds the slot.
    pub open spec fn bind(self, msg: u32) -> Protocol {
        if self.binds(msg) {
            Protocol { pending: false, slot: SlotState::Bound, ..self }
        } else {
            self
        }
    }

    /// Whether a dispatch of `msg` entered now reaches the callback.
    pub open spec fn delivers(self, msg: u32) -> bool {
        self.bind(msg).slot is Bound
    }

    /// A dispatch of `msg` is entered: the slot is bound if this is the
    /// creation event; if the slot is then bound, the dispatch takes a
    /// temporary reference and the callback is about to see the event.
    pub open spec fn enter(self, msg: u32) -> Protocol {
        let s = self.bind(msg);
        if s.slot is Bound {
            Protocol {
                refs: s.refs + 1,
                frames: s.frames.push(Frame { msg, retained: true }),
                log: s.log.push(msg),
                ..s
            }
        } else {
            Protocol { frames: s.frames.push(Frame { msg, retained: false }), ..s }
        }
    }

    /// Whether the innermost dispatch, on returning, clears the slot.
    pub open spec fn clears(self) -> bool {
        self.frames.len() > 0 && self.frames.last().msg == WM_NCDESTROY && self.slot is Bound
    }

    /// The innermost dispatch returns: it gives up its temporary reference,
    /// and if its event is the teardown event and the slot is bound, the slot
    /// is cleared and the reference that was in it is given up too.
    pub open spec fn leave(self) -> Protocol {
        if self.frames.len() == 0 {
            self
        } else {
            let frame = self.frames.last();
            let popped = Protocol { frames: self.frames.drop_last(), ..self };
            let returned = if frame.retained {
                popped.release()
            } else {
                popped
            };
            if frame.msg == WM_NCDESTROY && returned.slot is Bound {
                (Protocol { slot: SlotState::Cleared, ..returned }).release()
            } else {
                returned
            }
        }
    }

    /// The native creation call has failed: the reference that never reached
    /// the slot is given up.
    pub open spec fn fail(self) -> Protocol {
        if self.pending {
            (Protocol { pending: false, ..self }).release()
        } else {
            self
        }
    }

    /// One step.
    pub open spec fn step(self, step: Step) -> Protocol {
        match step {
            Step::Enter(msg) => self.enter(msg),
            Step::Leave => self.leave(),
            Step::Fail => self.fail(),
        }
    }

    /// Whether `step` destroys the callback instance.
    pub open spec fn destroys(self, step: Step) -> bool {
        self.alive() && !self.step(step).alive()
    }

    /// The state after all of `steps`, in order.
    pub open spec fn run(self, steps: Seq<Step>) -> Protocol
        decreases steps.len(),
    {
        if steps.len() == 0 {
            self
        } else {
            self.run(steps.drop_last()).step(steps.last())
        }
    }

    /// What holds of every state that a window can reach.
    ///
    /// The count of outstanding references is one for the reference on its
    /// way to the slot or in it, plus one for each dispatch in flight that
    /// holds a temporary reference. The instance is destroyed exactly when
    /// the count is zero, and no more than once. While the reference is on
    /// its way, the slot has never been written. The callback has seen
    /// nothing exactly while the slot is vacant, and what it saw first is the
    /// creation event.
    pub open spec fn inv(self) -> bool {
        &&& self.refs == self.held() + retained_frames(self.frames)
        &&& self.drops == (if self.refs > 0 {
            0nat
        } else {
            1nat
        })
        &&& self.pending ==> self.slot is Vacant
        &&& self.slot is Vacant <==> self.log.len() == 0
        &&& self.log.len() > 0 ==> self.log[0] == WM_CREATE
    }
}

/// The events that `steps` enter, in order.
pub open spec fn entered(steps: Seq<Step>) -> Seq<u32>
    decreases steps.len(),
{
    if steps.len() == 0 {
        Seq::empty()
    } else {
        match steps.last() {
            Step::Enter(msg) => entered(steps.drop_last()).push(msg),
            _ => entered(steps.drop_last()),
        }
    }
}

} // verus!
