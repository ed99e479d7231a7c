//! What passes from the page to the application: its events, and word that there is news.
//!
//! The laws of single calls say what holds once a function has returned:
//! `call_ensures(f, arguments, result)` is that `f` was called so, and gave this result.

use std::task::Waker;
use vstd::prelude::*;

use crate::event::{Event, WindowEvent, WindowId};
use crate::laws::law_sound;
use crate::queue::{self, ForwardedEvent};
use crate::shared::{Shared, SharedView};
use crate::world::{Happening, World};

verus! {

/// What is shared once news has been announced: whoever had left word was woken and has left.
pub open spec fn with_news(shared: SharedView) -> SharedView {
    SharedView {
        notified: true,
        parked: None,
        woken: match shared.parked {
            Some(waker) => shared.woken.push(waker),
            None => shared.woken,
        },
        ..shared
    }
}

/// Whether this is how an event is queued: as it is, with the answer to wait for where the scale
/// factor has changed and can be answered.
pub open spec fn carries(queued: ForwardedEvent, event: Event) -> bool {
    &&& queued.event == event
    &&& match event {
        Event::WindowEvent { event: WindowEvent::ScaleFactorChanged { details, inner_size }, .. } => {
            match inner_size {
                Some(size) => queued.size_reply == Some((details, size)),
                None => queued.size_reply is None,
            }
        },
        _ => queued.size_reply is None,
    }
}

/// What is shared is as it is held: the events of the queue, the marks and the count, and the record
/// of the slot.
pub proof fn law_state_is_as_held(shared: Shared)
    ensures
        shared@.window_id == shared.window_id,
        shared@.events == queue::queued(shared.events),
        shared@.notified == shared.notified,
        shared@.user_events == shared.user_events,
        shared@.closed == shared.closed,
        shared@.parked == shared.waker@.parked,
        shared@.woken == shared.waker@.woken,
{
}

/// Before the worker starts, nothing waits, nobody has left word and nobody was woken.
pub proof fn law_new_state_is_empty(window_id: WindowId, shared: Shared)
    requires
        call_ensures(Shared::new, (window_id,), shared),
    ensures
        shared.wf(),
        shared@.window_id == window_id,
        shared@.events.len() == 0,
        shared@.user_events == 0,
        !shared@.notified,
        !shared@.closed,
        shared@.parked is None,
        shared@.woken.len() == 0,
{
}

/// The page's events are passed on unchanged and in order: all of them but the marks of its own
/// cycles, until the loop has ended. Each goes behind those that wait, with the answer to wait for
/// where the scale factor has changed and can be answered. It is announced, and nothing else
/// changes.
pub proof fn law_event_is_passed_on(shared: &mut Shared, event: Event, taken: bool)
    requires
        call_ensures(Shared::forward, (shared, event), taken),
    ensures
        taken <==> !old(shared)@.closed && !(event is NewEvents) && !(event is AboutToWait),
        !taken ==> final(shared)@ == old(shared)@,
        taken ==> {
            let queued = final(shared)@.events.last();
            &&& queued.event == event
            &&& match event {
                Event::WindowEvent {
                    event: WindowEvent::ScaleFactorChanged { details, inner_size },
                    ..
                } => match inner_size {
                    Some(size) => queued.size_reply == Some((details, size)),
                    None => queued.size_reply is None,
                },
                _ => queued.size_reply is None,
            }
            &&& carries(queued, event)
            &&& final(shared)@.events == old(shared)@.events.push(queued)
            &&& final(shared)@ == with_news(
                SharedView { events: final(shared)@.events, ..old(shared)@ },
            )
        },
{
}

/// The oldest event is taken, and those behind it stay, in order. Nothing else changes.
pub proof fn law_oldest_event_is_taken(shared: &mut Shared, event: Option<ForwardedEvent>)
    requires
        call_ensures(Shared::take_event, (shared,), event),
    ensures
        event is None <==> old(shared)@.events.len() == 0,
        event is None ==> final(shared)@ == old(shared)@,
        event is Some ==> {
            &&& seq![event->0] + final(shared)@.events == old(shared)@.events
            &&& final(shared)@ == (SharedView { events: final(shared)@.events, ..old(shared)@ })
        },
{
    if event is Some {
        assert(seq![event->0] + final(shared)@.events =~= old(shared)@.events);
    }
}

/// An event that is passed on where none waits is the next to be taken, as it was.
pub proof fn law_passed_on_event_is_taken(
    page: &mut Shared,
    event: Event,
    passed: bool,
    worker: &mut Shared,
    taken: Option<ForwardedEvent>,
)
    requires
        call_ensures(Shared::forward, (page, event), passed),
        call_ensures(Shared::take_event, (worker,), taken),
        old(page)@.events.len() == 0,
    ensures
        old(worker)@ == final(page)@ ==> (taken is Some <==> passed),
        old(worker)@ == final(page)@ && passed ==> taken->0.event == event
            && final(worker)@.events.len() == 0,
{
    law_event_is_passed_on(page, event, passed);
    law_oldest_event_is_taken(worker, taken);
    if old(worker)@ == final(page)@ && passed {
        let waiting = old(worker)@.events;
        assert(waiting.len() == 1);
        assert(waiting[0] == (seq![taken->0] + final(worker)@.events)[0]);
        assert((seq![taken->0] + final(worker)@.events).len() == 1);
    }
}

/// News is announced, and whoever had left word is woken. Nothing else changes.
pub proof fn law_news_is_announced(shared: &mut Shared)
    requires
        call_ensures(Shared::notify, (shared,), ()),
    ensures
        final(shared)@.notified,
        final(shared)@.parked is None,
        match old(shared)@.parked {
            Some(waker) => final(shared)@.woken == old(shared)@.woken.push(waker),
            None => final(shared)@.woken == old(shared)@.woken,
        },
        final(shared)@.events == old(shared)@.events,
        final(shared)@.user_events == old(shared)@.user_events,
        final(shared)@.closed == old(shared)@.closed,
        final(shared)@.window_id == old(shared)@.window_id,
        final(shared)@ == with_news(old(shared)@),
{
}

/// Each wakeup of the application counts one, until the loop has ended, and is announced. The count
/// starts anew past the largest number.
pub proof fn law_wakeup_counts_one(shared: &mut Shared)
    requires
        call_ensures(Shared::wake_user, (shared,), ()),
    ensures
        old(shared)@.closed ==> final(shared)@ == old(shared)@,
        !old(shared)@.closed ==> {
            &&& final(shared)@ == with_news(
                SharedView { user_events: final(shared)@.user_events, ..old(shared)@ },
            )
            &&& old(shared)@.user_events < usize::MAX ==> final(shared)@.user_events == old(shared)@.user_events + 1
            &&& old(shared)@.user_events == usize::MAX ==> final(shared)@.user_events == 0
        },
{
}

/// The count of wakeups is taken as a whole, and none of them is counted again.
pub proof fn law_wakeups_are_taken(shared: &mut Shared, count: usize)
    requires
        call_ensures(Shared::take_user_events, (shared,), count),
    ensures
        count == old(shared)@.user_events,
        final(shared)@ == (SharedView { user_events: 0, ..old(shared)@ }),
{
}

/// The loop has something to do where there is news, or where it has ended. Whoever listens leaves
/// word, and the news is no longer new. Nothing that waits is lost, and nobody is woken.
pub proof fn law_listening_leaves_word(shared: &mut Shared, waker: &Waker, ready: bool)
    requires
        call_ensures(Shared::poll_ready, (shared, waker), ready),
    ensures
        ready <==> old(shared)@.notified || old(shared)@.closed,
        final(shared)@ == (SharedView { notified: false, parked: Some(*waker), ..old(shared)@ }),
{
}

/// Once closed, the state stays closed, and whoever had left word learns of it.
pub proof fn law_closing_is_announced(shared: &mut Shared)
    requires
        call_ensures(Shared::close, (shared,), ()),
    ensures
        final(shared)@ == with_news(SharedView { closed: true, ..old(shared)@ }),
{
}

/// The events inside what is queued.
pub open spec fn unpacked(queued: Seq<ForwardedEvent>) -> Seq<Event> {
    queued.map_values(|forwarded: ForwardedEvent| forwarded.event)
}

/// The events that the page has in a sequence of happenings, but for the marks of its cycles and
/// for what comes after the loop has ended.
pub open spec fn passed_on<C>(world: World<C>, happenings: Seq<Happening>) -> Seq<Event>
    decreases happenings.len(),
{
    if happenings.len() == 0 {
        seq![]
    } else {
        let earlier = passed_on(world, happenings.drop_last());
        match happenings.last() {
            Happening::Forward(event) => if event is NewEvents || event is AboutToWait
                || world.after(happenings.drop_last()).shared.closed {
                earlier
            } else {
                earlier.push(event)
            },
            _ => earlier,
        }
    }
}

/// A sequence of events without the ends of the page's loop.
pub open spec fn without_end(events: Seq<Event>) -> Seq<Event>
    decreases events.len(),
{
    if events.len() == 0 {
        seq![]
    } else if events.last() is LoopExiting {
        without_end(events.drop_last())
    } else {
        without_end(events.drop_last()).push(events.last())
    }
}

/// What the application is told of the page is, event for event and in order, what the page has
/// had: the events that were taken and those that wait are those that waited at first and those
/// that the page has passed on since, each as it was. The application is told of all that were
/// taken, but not that the page ends its loop.
pub proof fn law_events_arrive_unchanged<C>(world: World<C>, happenings: Seq<Happening>)
    requires
        world.begins(),
    ensures
        unpacked(world.taken(happenings)) + unpacked(world.after(happenings).shared.events)
            == unpacked(world.shared.events) + passed_on(world, happenings),
        world.delivered(happenings) == without_end(unpacked(world.taken(happenings))),
    decreases happenings.len(),
{
    if happenings.len() == 0 {
        assert(unpacked(world.taken(happenings)) =~= seq![]);
        assert(unpacked(world.taken(happenings)) + unpacked(world.shared.events) =~= unpacked(
            world.shared.events,
        ) + passed_on(world, happenings));
    } else {
        let earlier = happenings.drop_last();
        let before = world.after(earlier);
        let happening = happenings.last();
        law_events_arrive_unchanged(world, earlier);
        law_sound(world, earlier);
        let (taken, taking) = (world.taken(earlier), before.taking(happening));
        let (queued, rest) = (before.shared.events, before.next(happening).shared.events);
        let (first, passed) = (unpacked(world.shared.events), passed_on(world, earlier));
        let now_passed = passed_on(world, happenings);
        assert(unpacked(taken + taking) =~= unpacked(taken) + unpacked(taking));
        if before.drains(happening) {
            assert(taking + rest =~= queued);
            assert(unpacked(taking) + unpacked(rest) =~= unpacked(queued));
            if taking.len() > 0 {
                let all = unpacked(taken + taking);
                assert(all.drop_last() =~= unpacked(taken));
                assert(all.last() == taking[0].event);
                assert(world.delivered(happenings) =~= without_end(all));
            } else {
                assert(unpacked(taken + taking) =~= unpacked(taken));
                assert(world.delivered(happenings) =~= world.delivered(earlier));
            }
            assert((unpacked(taken) + unpacked(taking)) + unpacked(rest) =~= unpacked(taken) + (
            unpacked(taking) + unpacked(rest)));
        } else {
            assert(unpacked(taken + taking) =~= unpacked(taken));
            assert(world.delivered(happenings) =~= world.delivered(earlier));
            if now_passed.len() > passed.len() {
                assert(unpacked(rest) =~= unpacked(queued).push(happening->Forward_0));
                assert(unpacked(taken) + unpacked(rest) =~= (unpacked(taken) + unpacked(
                    queued,
                )).push(happening->Forward_0));
                assert(first + now_passed =~= (first + passed).push(happening->Forward_0));
            } else {
                assert(rest =~= queued);
            }
        }
    }
}

} // verus!
