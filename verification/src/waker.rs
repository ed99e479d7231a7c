//! The slot in which the loop of the worker leaves word how to wake it.

use atomic_waker::AtomicWaker;
use std::task::Waker;
use vstd::prelude::*;

verus! {

#[verifier::external_type_specification]
#[verifier::external_body]
pub struct ExAtomicWaker(atomic_waker::AtomicWaker);

#[verifier::external_type_specification]
#[verifier::external_body]
pub struct ExWaker(std::task::Waker);

/// Whether the slot holds a waker.
pub uninterp spec fn parked(slot: AtomicWaker) -> bool;

/// Whether the slot is at rest: no registration and no wakeup of it is under way, nor was one
/// broken off by a panic of the waker.
pub uninterp spec fn at_rest(slot: AtomicWaker) -> bool;

/// A slot for one waker, and a record of what went through it. Only the functions of this module
/// touch either.
pub struct WakerSlot {
    slot: AtomicWaker,
    record: Ghost<SlotView>,
}

/// The record of a slot. A waker in it stands for the task that it wakes.
pub struct SlotView {
    /// The waker that was registered last, if it has not been woken.
    pub parked: Option<Waker>,
    /// The wakers that have been woken, in order.
    pub woken: Seq<Waker>,
}

impl SlotView {
    /// A waker takes the place of the one before.
    pub open spec fn register(self, waker: Waker) -> SlotView {
        SlotView { parked: Some(waker), ..self }
    }

    /// The registered waker, if there is one, is woken and leaves.
    pub open spec fn wake(self) -> SlotView {
        SlotView {
            parked: None,
            woken: match self.parked {
                Some(waker) => self.woken.push(waker),
                None => self.woken,
            },
        }
    }
}

impl View for WakerSlot {
    type V = SlotView;

    closed spec fn view(&self) -> SlotView {
        self.record@
    }
}

impl WakerSlot {
    /// The slot itself.
    pub closed spec fn cell(&self) -> AtomicWaker {
        self.slot
    }

    /// The slot is at rest, and holds a waker where the record says so.
    pub open spec fn wf(&self) -> bool {
        at_rest(self.cell()) && parked(self.cell()) == (self@.parked is Some)
    }
}

/// `AtomicWaker::new`: a new slot is empty and at rest, and has woken nobody.
#[verifier::external_body]
pub(crate) fn new_slot() -> (slot: WakerSlot)
    ensures
        at_rest(slot.cell()),
        !parked(slot.cell()),
        slot@ == (SlotView { parked: None, woken: Seq::empty() }),
{
    WakerSlot {
        slot: AtomicWaker::new(),
        record: Ghost(SlotView { parked: None, woken: Seq::empty() }),
    }
}

/// `AtomicWaker::register`, by the only user of the slot at that moment: where the slot was at
/// rest, it then holds a waker that wakes the same task as `waker`, in place of any other, and
/// nobody is woken.
#[verifier::external_body]
pub(crate) fn register(slot: &mut WakerSlot, waker: &Waker)
    ensures
        old(slot).wf() ==> {
            &&& at_rest(final(slot).cell())
            &&& parked(final(slot).cell())
            &&& final(slot)@ == old(slot)@.register(*waker)
        },
{
    slot.slot.register(waker);
    slot.record = Ghost(slot@.register(*waker));
}

/// `AtomicWaker::wake`, by the only user of the slot at that moment: where the slot was at rest,
/// the waker that it held, if any, has been woken, and has left it.
#[verifier::external_body]
pub(crate) fn wake(slot: &mut WakerSlot)
    ensures
        old(slot).wf() ==> {
            &&& at_rest(final(slot).cell())
            &&& !parked(final(slot).cell())
            &&& final(slot)@ == old(slot)@.wake()
        },
{
    slot.slot.wake();
    slot.record = Ghost(slot@.wake());
}

} // verus!
