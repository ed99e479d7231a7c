//! The state that the page and the worker share.

use concurrent_queue::ConcurrentQueue;
use std::task::Waker;
use vstd::prelude::*;

use crate::event::{Event, PhysicalSize, WindowEvent, WindowId};
use crate::queue::{self, ForwardedEvent};
use crate::waker::{self, SlotView, WakerSlot};

verus! {

/// What the page and the worker share: the page adds events and wakes the worker, the worker takes
/// them. Each operation has the state to itself.
pub struct Shared {
    pub window_id: WindowId,
    pub events: ConcurrentQueue<ForwardedEvent>,
    pub notified: bool,
    pub user_events: usize,
    pub closed: bool,
    pub waker: WakerSlot,
}

/// The contents of a [`Shared`].
pub struct SharedView {
    pub window_id: WindowId,
    /// The events that the worker has yet to take, the oldest first.
    pub events: Seq<ForwardedEvent>,
    /// Whether there is news for the worker since it last looked.
    pub notified: bool,
    /// How many times the application was woken since it was last told.
    pub user_events: usize,
    /// Whether the loop of the worker has ended.
    pub closed: bool,
    /// Whom to wake at news: the loop of the worker, if it has left word since it was last woken.
    pub parked: Option<Waker>,
    /// Who has been woken, in order.
    pub woken: Seq<Waker>,
}

/// Whether the page passes an event on. The worker makes its own cycles, so the marks of the
/// page's cycles stay behind.
pub open spec fn crosses(event: Event) -> bool {
    !(event is NewEvents) && event != Event::AboutToWait
}

/// The answer to wait for after `event` is delivered: only a change of the scale factor has one,
/// and only while it can still be given.
pub open spec fn size_reply_of(event: Event) -> Option<(u64, PhysicalSize)> {
    match event {
        Event::WindowEvent {
            event: WindowEvent::ScaleFactorChanged { details, inner_size: Some(size) },
            ..
        } => Some((details, size)),
        _ => None,
    }
}

/// The event as it is queued.
pub open spec fn parcel(event: Event) -> ForwardedEvent {
    ForwardedEvent { event, size_reply: size_reply_of(event) }
}

impl SharedView {
    /// Only events that the page passes on are queued, each with its answer.
    pub open spec fn wf(self) -> bool {
        forall|i: int|
            0 <= i < self.events.len() ==> crosses((#[trigger] self.events[i]).event)
                && self.events[i] == parcel(self.events[i].event)
    }

    /// What is shared before the worker has started.
    pub open spec fn fresh(window_id: WindowId) -> SharedView {
        SharedView {
            window_id,
            events: Seq::empty(),
            notified: false,
            user_events: 0,
            closed: false,
            parked: None,
            woken: Seq::empty(),
        }
    }

    /// The worker is told that there is news: whoever has left word is woken.
    pub open spec fn notify(self) -> SharedView {
        let slot = SlotView { parked: self.parked, woken: self.woken }.wake();
        SharedView { notified: true, parked: slot.parked, woken: slot.woken, ..self }
    }

    /// The application is woken once.
    pub open spec fn wake_user(self) -> SharedView {
        if self.closed {
            self
        } else {
            SharedView {
                user_events: if self.user_events == usize::MAX {
                    0
                } else {
                    (self.user_events + 1) as usize
                },
                ..self
            }.notify()
        }
    }

    /// Whether an event is queued for the worker.
    pub open spec fn takes(self, event: Event) -> bool {
        !self.closed && crosses(event)
    }

    /// The page has had `event`.
    pub open spec fn forward(self, event: Event) -> SharedView {
        if self.takes(event) {
            SharedView { events: self.events.push(parcel(event)), ..self }.notify()
        } else {
            self
        }
    }

    /// Whether the loop of the worker has something to do.
    pub open spec fn ready(self) -> bool {
        self.notified || self.closed
    }

    /// The loop of the worker has looked for news and left word that `waker` wakes it.
    pub open spec fn poll(self, waker: Waker) -> SharedView {
        SharedView { notified: false, parked: Some(waker), ..self }
    }
}

impl View for Shared {
    type V = SharedView;

    open spec fn view(&self) -> SharedView {
        SharedView {
            window_id: self.window_id,
            events: queue::queued(self.events),
            notified: self.notified,
            user_events: self.user_events,
            closed: self.closed,
            parked: self.waker@.parked,
            woken: self.waker@.woken,
        }
    }
}

impl Shared {
    /// The queue takes every event, and holds only what the page passes on.
    pub open spec fn wf(&self) -> bool {
        &&& queue::unlimited(self.events)
        &&& self.waker.wf()
        &&& self@.wf()
    }

    /// The state for a window whose worker has yet to start.
    pub fn new(window_id: WindowId) -> (shared: Shared)
        ensures
            shared.wf(),
            shared@ == SharedView::fresh(window_id),
    {
        Shared {
            window_id,
            events: queue::new_queue(),
            notified: false,
            user_events: 0,
            closed: false,
            waker: waker::new_slot(),
        }
    }

    /// Tells the worker that there is news, and wakes it if it sleeps.
    pub fn notify(&mut self)
        requires
            old(self).wf(),
        ensures
            final(self).wf(),
            final(self)@ == old(self)@.notify(),
    {
        self.notified = true;
        waker::wake(&mut self.waker);
    }

    /// Wakes the application, which is told so once for each call. Does nothing once the loop has
    /// ended.
    pub fn wake_user(&mut self)
        requires
            old(self).wf(),
        ensures
            final(self).wf(),
            final(self)@ == old(self)@.wake_user(),
    {
        if !self.closed {
            self.user_events = self.user_events.wrapping_add(1);
            self.notify();
        }
    }

    /// Passes an event of the page on to the worker, and says whether it did: not once the loop
    /// has ended, and not the marks of the page's own cycles.
    pub fn forward(&mut self, event: Event) -> (taken: bool)
        requires
            old(self).wf(),
        ensures
            final(self).wf(),
            final(self)@ == old(self)@.forward(event),
            taken == old(self)@.takes(event),
    {
        if self.closed {
            return false;
        }
        let size_reply = match event {
            Event::WindowEvent {
                event: WindowEvent::ScaleFactorChanged { details, inner_size: Some(size) },
                ..
            } => Some((details, size)),
            _ => None,
        };
        match event {
            Event::NewEvents(_) | Event::AboutToWait => return false,
            _ => (),
        }
        let taken = queue::push(&mut self.events, ForwardedEvent { event, size_reply });
        self.notify();
        taken
    }

    /// Takes the oldest event.
    pub fn take_event(&mut self) -> (event: Option<ForwardedEvent>)
        requires
            old(self).wf(),
        ensures
            final(self).wf(),
            event == if old(self)@.events.len() > 0 {
                Some(old(self)@.events[0])
            } else {
                None
            },
            final(self)@ == (SharedView {
                events: if old(self)@.events.len() > 0 {
                    old(self)@.events.drop_first()
                } else {
                    old(self)@.events
                },
                ..old(self)@
            }),
    {
        queue::pop(&mut self.events)
    }

    /// Takes the number of times that the application was woken.
    pub fn take_user_events(&mut self) -> (count: usize)
        requires
            old(self).wf(),
        ensures
            final(self).wf(),
            count == old(self)@.user_events,
            final(self)@ == (SharedView { user_events: 0, ..old(self)@ }),
    {
        let count: usize = self.user_events;
        self.user_events = 0;
        count
    }

    /// Whether the loop of the worker has something to do. If not, it sleeps until `waker` wakes
    /// it: word is left before the news are looked for, so none is missed in between.
    pub fn poll_ready(&mut self, waker: &Waker) -> (ready: bool)
        requires
            old(self).wf(),
        ensures
            final(self).wf(),
            ready == old(self)@.ready(),
            final(self)@ == old(self)@.poll(*waker),
    {
        waker::register(&mut self.waker, waker);
        let notified = self.notified;
        self.notified = false;
        notified || self.closed
    }

    /// Ends the loop of the worker, for good.
    pub fn close(&mut self)
        requires
            old(self).wf(),
        ensures
            final(self).wf(),
            final(self)@ == (SharedView { closed: true, ..old(self)@ }).notify(),
    {
        self.closed = true;
        self.notify();
    }
}

} // verus!
