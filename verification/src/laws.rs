//! What holds of the lifetime protocol, over every sequence of steps that a
//! window can take.

use crate::message::{WM_CREATE, WM_NCDESTROY};
use crate::protocol::{entered, occurrences, retained_frames, Frame, Protocol, SlotState, Step};
use vstd::prelude::*;

verus! {

/// One more frame in flight counts once if it holds a reference.
pub proof fn lemma_retained_push(frames: Seq<Frame>, frame: Frame)
    ensures
        retained_frames(frames.push(frame)) == retained_frames(frames) + (if frame.retained {
            1nat
        } else {
            0nat
        }),
{
    assert(frames.push(frame).drop_last() =~= frames);
}

/// A frame in flight that holds a reference is counted.
pub proof fn lemma_retained_member(frames: Seq<Frame>, i: int)
    requires
        0 <= i < frames.len(),
        frames[i].retained,
    ensures
        retained_frames(frames) >= 1,
    decreases frames.len(),
{
    if i < frames.len() - 1 {
        lemma_retained_member(frames.drop_last(), i);
    }
}

/// A window's life begins in a state that meets the protocol's invariant.
pub proof fn lemma_initial_inv()
    ensures
        Protocol::initial().inv(),
{
    assert(retained_frames(Protocol::initial().frames) == 0);
}

/// Every step keeps the protocol's invariant.
pub proof fn lemma_step_inv(s: Protocol, step: Step)
    requires
        s.inv(),
    ensures
        s.step(step).inv(),
{
    match step {
        Step::Enter(msg) => {
            let bound = s.bind(msg);
            lemma_retained_push(bound.frames, Frame { msg, retained: bound.slot is Bound });
        },
        Step::Leave => {},
        Step::Fail => {},
    }
}

/// Every sequence of steps keeps the protocol's invariant.
pub proof fn lemma_run_inv(s: Protocol, steps: Seq<Step>)
    requires
        s.inv(),
    ensures
        s.run(steps).inv(),
    decreases steps.len(),
{
    if steps.len() > 0 {
        lemma_run_inv(s, steps.drop_last());
        lemma_step_inv(s.run(steps.drop_last()), steps.last());
    }
}

/// Running two sequences of steps one after the other is running their
/// concatenation.
pub proof fn lemma_run_concat(s: Protocol, first: Seq<Step>, then: Seq<Step>)
    ensures
        s.run(first + then) == s.run(first).run(then),
    decreases then.len(),
{
    if then.len() == 0 {
        assert(first + then =~= first);
    } else {
        assert((first + then).drop_last() =~= first + then.drop_last());
        lemma_run_concat(s, first, then.drop_last());
    }
}

/// The count of outstanding references is always one for the reference that
/// is on its way to the slot or in it, plus one for each dispatch in flight
/// that holds a temporary reference; and the callback instance is destroyed
/// exactly when that count is zero.
pub proof fn law_reference_count(steps: Seq<Step>)
    ensures
        ({
            let s = Protocol::initial().run(steps);
            &&& s.refs == s.held() + retained_frames(s.frames)
            &&& s.alive() <==> s.refs > 0
        }),
{
    lemma_initial_inv();
    lemma_run_inv(Protocol::initial(), steps);
}

/// Once no reference is outstanding, none ever is again: nothing is bound,
/// delivered or destroyed any more.
pub proof fn lemma_dead_stays(s: Protocol, more: Seq<Step>)
    requires
        s.inv(),
        s.refs == 0,
    ensures
        s.run(more).inv(),
        s.run(more).refs == 0,
        s.run(more).drops == s.drops,
        s.run(more).slot == s.slot,
        s.run(more).log == s.log,
    decreases more.len(),
{
    if more.len() > 0 {
        lemma_dead_stays(s, more.drop_last());
        let before = s.run(more.drop_last());
        lemma_step_inv(before, more.last());
        match more.last() {
            Step::Enter(msg) => {
                lemma_retained_push(before.frames, Frame { msg, retained: false });
            },
            Step::Leave => {},
            Step::Fail => {},
        }
    }
}

/// How many of `steps`, taken from the state `s`, destroy the callback
/// instance.
pub open spec fn destructions(s: Protocol, steps: Seq<Step>) -> nat
    decreases steps.len(),
{
    if steps.len() == 0 {
        0
    } else {
        destructions(s, steps.drop_last()) + (if s.run(steps.drop_last()).destroys(steps.last()) {
            1nat
        } else {
            0nat
        })
    }
}

/// The steps that destroy the instance are the steps that are counted as
/// such.
proof fn lemma_destructions(steps: Seq<Step>)
    ensures
        Protocol::initial().run(steps).inv(),
        destructions(Protocol::initial(), steps) == Protocol::initial().run(steps).drops,
    decreases steps.len(),
{
    lemma_initial_inv();
    if steps.len() > 0 {
        lemma_destructions(steps.drop_last());
        lemma_step_inv(Protocol::initial().run(steps.drop_last()), steps.last());
    }
}

/// The callback instance is destroyed exactly once: no more than one step
/// of a window's life destroys it, and one has done so exactly when no
/// reference is left, which is when the slot holds none, none is on its way
/// to the slot, and no dispatch in flight holds a temporary one. For a
/// window that was created that is when its teardown has been processed in
/// full, the dispatches around it included. From then on the instance stays
/// destroyed.
pub proof fn law_destroyed_once(steps: Seq<Step>, more: Seq<Step>)
    ensures
        ({
            let s = Protocol::initial().run(steps);
            let t = Protocol::initial().run(steps + more);
            &&& destructions(Protocol::initial(), steps) == s.drops
            &&& s.drops <= 1
            &&& s.drops == 1 <==> !s.pending && !(s.slot is Bound) && retained_frames(s.frames)
                == 0
            &&& s.drops == 1 ==> t.drops == 1
        }),
{
    let s = Protocol::initial().run(steps);
    lemma_destructions(steps);
    law_reference_count(steps);
    lemma_run_concat(Protocol::initial(), steps, more);
    if s.drops == 1 {
        lemma_dead_stays(s, more);
    }
}

/// While a dispatch that holds a temporary reference is in flight, the
/// callback instance exists, whatever has happened since the dispatch was
/// entered, the teardown of the window included. The instance goes only when
/// the outermost such dispatch has returned.
pub proof fn law_alive_during_dispatch(steps: Seq<Step>, i: int)
    requires
        0 <= i < Protocol::initial().run(steps).frames.len(),
        Protocol::initial().run(steps).frames[i].retained,
    ensures
        Protocol::initial().run(steps).alive(),
        Protocol::initial().run(steps).refs >= 1,
{
    law_reference_count(steps);
    lemma_retained_member(Protocol::initial().run(steps).frames, i);
}

/// A dispatch that finds the slot empty reaches no callback and changes
/// nothing: it takes no reference, the callback sees no event, and when the
/// dispatch has returned the window's state is what it was.
pub proof fn law_unbound_dispatch(s: Protocol, msg: u32)
    requires
        !s.delivers(msg),
    ensures
        s.enter(msg) == (Protocol {
            frames: s.frames.push(Frame { msg, retained: false }),
            ..s
        }),
        s.enter(msg).leave() == s,
{
    assert(s.frames.push(Frame { msg, retained: false }).drop_last() =~= s.frames);
}

/// While the slot has never been written, every step that is not the
/// creation event leaves it so, and no dispatch takes a reference.
proof fn lemma_never_created(steps: Seq<Step>)
    requires
        occurrences(entered(steps), WM_CREATE) == 0,
    ensures
        ({
            let s = Protocol::initial().run(steps);
            &&& s.inv()
            &&& s.slot is Vacant
            &&& retained_frames(s.frames) == 0
        }),
    decreases steps.len(),
{
    lemma_initial_inv();
    if steps.len() > 0 {
        let before = Protocol::initial().run(steps.drop_last());
        match steps.last() {
            Step::Enter(msg) => {
                assert(entered(steps.drop_last()).push(msg).drop_last() =~= entered(
                    steps.drop_last(),
                ));
                lemma_never_created(steps.drop_last());
                lemma_retained_push(before.frames, Frame { msg, retained: false });
            },
            _ => {
                lemma_never_created(steps.drop_last());
            },
        }
        lemma_step_inv(before, steps.last());
    }
}

/// If the native creation call fails without the creation event having been
/// delivered, the reference made at construction is given back at once, and
/// the instance is destroyed with it, once and for good. The slot is never
/// written, and the callback never sees an event: neither the creation nor
/// the teardown event, nor any other, whatever is delivered before or after.
pub proof fn law_failed_creation(before: Seq<Step>, after: Seq<Step>)
    requires
        occurrences(entered(before), WM_CREATE) == 0,
    ensures
        ({
            let s = Protocol::initial().run(before.push(Step::Fail) + after);
            &&& s.refs == 0
            &&& s.drops == 1
            &&& s.slot is Vacant
            &&& s.log.len() == 0
        }),
{
    lemma_never_created(before);
    let failing = Protocol::initial().run(before);
    assert(before.push(Step::Fail).drop_last() =~= before);
    let failed = Protocol::initial().run(before.push(Step::Fail));
    assert(failed == failing.fail());
    lemma_step_inv(failing, Step::Fail);
    lemma_run_concat(Protocol::initial(), before.push(Step::Fail), after);
    lemma_dead_stays(failed, after);
}

/// How far a slot has come in its life.
pub open spec fn slot_rank(slot: SlotState) -> nat {
    match slot {
        SlotState::Vacant => 0,
        SlotState::Bound => 1,
        SlotState::Cleared => 2,
    }
}

/// A slot is only written forwards, and the events handed to the callback
/// only grow; once the slot is cleared, nothing is handed to it any more.
pub proof fn lemma_forwards(s: Protocol, more: Seq<Step>)
    requires
        s.inv(),
    ensures
        s.run(more).inv(),
        slot_rank(s.slot) <= slot_rank(s.run(more).slot),
        s.log.len() <= s.run(more).log.len(),
        s.run(more).log.take(s.log.len() as int) == s.log,
        s.slot is Cleared ==> s.run(more).log == s.log,
    decreases more.len(),
{
    if more.len() == 0 {
        assert(s.log.take(s.log.len() as int) =~= s.log);
    } else {
        lemma_forwards(s, more.drop_last());
        let before = s.run(more.drop_last());
        lemma_step_inv(before, more.last());
        let after = before.step(more.last());
        assert(after.log.take(s.log.len() as int) =~= before.log.take(s.log.len() as int));
    }
}

/// The slot is written at most twice, in the order vacant, bound, cleared.
/// The callback sees nothing before the creation event: what it sees first
/// is that event, and it has seen it exactly when the slot has been written.
/// It sees nothing after the teardown: once the slot is cleared, no further
/// event reaches it. What it has seen is never taken back.
pub proof fn law_delivery_window(steps: Seq<Step>, more: Seq<Step>)
    ensures
        ({
            let s = Protocol::initial().run(steps);
            let t = Protocol::initial().run(steps + more);
            &&& s.slot is Vacant <==> s.log.len() == 0
            &&& s.log.len() > 0 ==> s.log[0] == WM_CREATE
            &&& slot_rank(s.slot) <= slot_rank(t.slot)
            &&& s.log.len() <= t.log.len() && t.log.take(s.log.len() as int) == s.log
            &&& s.slot is Cleared ==> t.slot is Cleared && t.log == s.log
        }),
{
    lemma_initial_inv();
    lemma_run_inv(Protocol::initial(), steps);
    lemma_run_concat(Protocol::initial(), steps, more);
    lemma_forwards(Protocol::initial().run(steps), more);
}

/// The slot is bound only by a dispatch of the creation event, and cleared
/// only by the return of a dispatch of the teardown event.
pub proof fn law_slot_writes(s: Protocol, step: Step)
    requires
        s.inv(),
    ensures
        s.step(step).slot != s.slot ==> {
            ||| s.slot is Vacant && s.step(step).slot is Bound && step == Step::Enter(WM_CREATE)
            ||| s.slot is Bound && s.step(step).slot is Cleared && step == Step::Leave
                && s.frames.len() > 0 && s.frames.last().msg == WM_NCDESTROY
        },
{
}

/// An event is handed to the callback no more often than it is entered.
pub proof fn lemma_delivered_at_most(steps: Seq<Step>, msg: u32)
    ensures
        occurrences(Protocol::initial().run(steps).log, msg) <= occurrences(entered(steps), msg),
    decreases steps.len(),
{
    if steps.len() > 0 {
        lemma_delivered_at_most(steps.drop_last(), msg);
        let before = Protocol::initial().run(steps.drop_last());
        match steps.last() {
            Step::Enter(event) => {
                assert(entered(steps.drop_last()).push(event).drop_last() =~= entered(
                    steps.drop_last(),
                ));
                assert(before.log.push(event).drop_last() =~= before.log);
            },
            _ => {},
        }
    }
}

/// Where the creation event is the first step, every event entered while
/// the slot is bound has been handed to the callback, and a cleared slot
/// means that the callback has seen the teardown event.
proof fn lemma_created_first(steps: Seq<Step>)
    requires
        steps.len() > 0,
        steps[0] == Step::Enter(WM_CREATE),
    ensures
        ({
            let s = Protocol::initial().run(steps);
            &&& s.inv()
            &&& !s.pending
            &&& !(s.slot is Vacant)
            &&& s.slot is Bound ==> occurrences(s.log, WM_NCDESTROY) == occurrences(
                entered(steps),
                WM_NCDESTROY,
            )
            &&& s.slot is Cleared ==> occurrences(s.log, WM_NCDESTROY) >= 1
            &&& forall|i: int|
                0 <= i < s.frames.len() && (#[trigger] s.frames[i]).msg == WM_NCDESTROY
                    ==> occurrences(entered(steps), WM_NCDESTROY) >= 1
        }),
    decreases steps.len(),
{
    lemma_initial_inv();
    lemma_run_inv(Protocol::initial(), steps);
    let prefix = steps.drop_last();
    let before = Protocol::initial().run(prefix);
    let s = Protocol::initial().run(steps);
    if steps.len() == 1 {
        assert(prefix.len() == 0);
        assert(before == Protocol::initial());
        assert(entered(prefix) =~= Seq::<u32>::empty());
        assert(s == Protocol::initial().enter(WM_CREATE));
        assert(s.log.drop_last() =~= before.log);
        assert(entered(prefix).push(WM_CREATE).drop_last() =~= entered(prefix));
    } else {
        assert(prefix[0] == steps[0]);
        lemma_created_first(prefix);
        match steps.last() {
            Step::Enter(event) => {
                assert(entered(prefix).push(event).drop_last() =~= entered(prefix));
                assert(before.log.push(event).drop_last() =~= before.log);
                assert forall|i: int|
                    0 <= i < s.frames.len() && (#[trigger] s.frames[i]).msg
                        == WM_NCDESTROY implies occurrences(entered(steps), WM_NCDESTROY)
                    >= 1 by {
                    if i < before.frames.len() {
                        assert(s.frames[i] == before.frames[i]);
                    }
                }
            },
            Step::Leave => {
                if before.frames.len() > 0 {
                    assert forall|i: int|
                        0 <= i < s.frames.len() && (#[trigger] s.frames[i]).msg
                            == WM_NCDESTROY implies occurrences(entered(steps), WM_NCDESTROY)
                        >= 1 by {
                        assert(s.frames[i] == before.frames[i]);
                    }
                    if before.frames.last().msg == WM_NCDESTROY {
                        assert(before.frames[before.frames.len() - 1].msg == WM_NCDESTROY);
                    }
                }
            },
            Step::Fail => {},
        }
    }
}

/// An event that opens a sequence occurs in it.
proof fn lemma_first_occurs(events: Seq<u32>, msg: u32)
    requires
        events.len() > 0,
        events[0] == msg,
    ensures
        occurrences(events, msg) >= 1,
    decreases events.len(),
{
    if events.len() > 1 {
        lemma_first_occurs(events.drop_last(), msg);
    }
}

/// Where the native subsystem delivers the creation event first, and
/// delivers it once, and delivers the teardown event once, the callback sees
/// exactly one creation event and exactly one teardown event, and the
/// creation event before every other.
pub proof fn law_one_creation_one_teardown(steps: Seq<Step>)
    requires
        steps.len() > 0,
        steps[0] == Step::Enter(WM_CREATE),
        occurrences(entered(steps), WM_CREATE) == 1,
        occurrences(entered(steps), WM_NCDESTROY) == 1,
    ensures
        ({
            let s = Protocol::initial().run(steps);
            &&& s.log.len() > 0
            &&& s.log[0] == WM_CREATE
            &&& occurrences(s.log, WM_CREATE) == 1
            &&& occurrences(s.log, WM_NCDESTROY) == 1
        }),
{
    let s = Protocol::initial().run(steps);
    lemma_created_first(steps);
    lemma_delivered_at_most(steps, WM_CREATE);
    lemma_delivered_at_most(steps, WM_NCDESTROY);
    lemma_first_occurs(s.log, WM_CREATE);
}

} // verus!
