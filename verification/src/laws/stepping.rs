//! What each action of a cycle tells the application, and what it leaves.

use vstd::prelude::*;

use crate::event::{Event, PhysicalSize, StartCause, WindowEvent};
use crate::runner::{Action, Phase, Step, WorkerRunner};
use crate::shared::{Shared, SharedView};
use crate::time::{Clock, Moment};

verus! {

/// Whether an action tells the application of an event, or lets go of it where there is none.
pub open spec fn tells_of(handler: bool, action: Action, event: Event) -> bool {
    &&& handler ==> action == Action::Emit(event)
    &&& !handler ==> action == Action::Discard(event)
}

/// An idle loop does nothing.
pub proof fn law_idle_loop_rests<C>(
    runner: &mut WorkerRunner<C>,
    shared: &mut Shared,
    now: Moment,
    action: Action,
)
    requires
        call_ensures(WorkerRunner::<C>::step_at, (runner, shared, now), action),
        old(runner).phase is Idle,
    ensures
        action == Action::Sleep,
        *final(runner) == *old(runner),
        final(shared)@ == old(shared)@,
{
}

/// A cycle starts by dropping the timer, if one is set.
pub proof fn law_cycle_drops_the_timer<C>(
    runner: &mut WorkerRunner<C>,
    shared: &mut Shared,
    now: Moment,
    action: Action,
    cause: StartCause,
)
    requires
        call_ensures(WorkerRunner::<C>::step_at, (runner, shared, now), action),
        old(runner).phase == Phase::Start(cause),
    ensures
        old(runner).timer ==> action == Action::CancelTimer,
        !old(runner).timer ==> action == Action::Continue,
        *final(runner) == (WorkerRunner {
            timer: false,
            phase: Phase::Begin(cause),
            ..*old(runner)
        }),
        final(shared)@ == old(shared)@,
{
}

/// The application is told why the cycle begins, and, in the very first, that it may create its
/// window.
pub proof fn law_cycle_is_told<C>(
    runner: &mut WorkerRunner<C>,
    shared: &mut Shared,
    now: Moment,
    action: Action,
    cause: StartCause,
)
    requires
        call_ensures(WorkerRunner::<C>::step_at, (runner, shared, now), action),
        old(runner).phase == Phase::Begin(cause),
    ensures
        tells_of(old(runner).handler, action, Event::NewEvents(cause)),
        cause is Init ==> final(runner).phase is Resume,
        !(cause is Init) ==> final(runner).phase is Drain,
        *final(runner) == (WorkerRunner { phase: final(runner).phase, ..*old(runner) }),
        final(shared)@ == old(shared)@,
{
}

/// The first cycle goes on with the events of the page once the application may create its window.
pub proof fn law_start_is_told<C>(
    runner: &mut WorkerRunner<C>,
    shared: &mut Shared,
    now: Moment,
    action: Action,
)
    requires
        call_ensures(WorkerRunner::<C>::step_at, (runner, shared, now), action),
        old(runner).phase is Resume,
    ensures
        tells_of(old(runner).handler, action, Event::Resumed),
        *final(runner) == (WorkerRunner { phase: Phase::Drain, ..*old(runner) }),
        final(shared)@ == old(shared)@,
{
}

/// The oldest event of the page is told as it is, and leaves, before any other. Where it can be
/// answered with a size, that comes next, by its details and the size it started out as. Where no
/// event waits, the cycle goes on. That the page ends its loop is not told: the worker then ends its
/// own, and the page's other events wait.
pub proof fn law_oldest_event_is_told<C>(
    runner: &mut WorkerRunner<C>,
    shared: &mut Shared,
    now: Moment,
    action: Action,
)
    requires
        call_ensures(WorkerRunner::<C>::step_at, (runner, shared, now), action),
        old(runner).phase is Drain,
    ensures
        old(shared)@.events.len() == 0 ==> {
            &&& action == Action::Continue
            &&& *final(runner) == (WorkerRunner { phase: Phase::Count, ..*old(runner) })
            &&& final(shared)@ == old(shared)@
        },
        old(shared)@.events.len() > 0 ==> {
            let oldest = old(shared)@.events[0];
            &&& seq![oldest] + final(shared)@.events == old(shared)@.events
            &&& final(shared)@ == (SharedView { events: final(shared)@.events, ..old(shared)@ })
            &&& oldest.event is LoopExiting ==> {
                &&& action == Action::Continue
                &&& *final(runner) == (WorkerRunner {
                    phase: Phase::Count,
                    exit: true,
                    ..*old(runner)
                })
            }
            &&& !(oldest.event is LoopExiting) ==> {
                &&& tells_of(old(runner).handler, action, oldest.event)
                &&& oldest.size_reply is None ==> *final(runner) == *old(runner)
                &&& oldest.size_reply is Some ==> {
                    let (details, initial) = oldest.size_reply->0;
                    *final(runner) == (WorkerRunner {
                        phase: Phase::Reply { details, initial },
                        ..*old(runner)
                    })
                }
            }
        },
{
    if old(shared)@.events.len() > 0 {
        assert(seq![old(shared)@.events[0]] + final(shared)@.events =~= old(shared)@.events);
    }
}

/// The answer to a change of the scale factor is looked up by the details of that change.
pub proof fn law_answer_is_looked_up<C>(
    runner: &mut WorkerRunner<C>,
    shared: &mut Shared,
    now: Moment,
    action: Action,
    details: u64,
    initial: PhysicalSize,
)
    requires
        call_ensures(WorkerRunner::<C>::step_at, (runner, shared, now), action),
        old(runner).phase == (Phase::Reply { details, initial }),
    ensures
        action == Action::ReadSize(details),
        *final(runner) == *old(runner),
        final(shared)@ == old(shared)@,
{
}

/// The page is asked for the size that the application has answered exactly where its width or its
/// height is another than the one that the change started out as. The cycle then goes on with the
/// events of the page.
pub proof fn law_answered_size_is_asked_for<C>(
    runner: &mut WorkerRunner<C>,
    reply: PhysicalSize,
    request: Option<PhysicalSize>,
    details: u64,
    initial: PhysicalSize,
)
    requires
        call_ensures(WorkerRunner::<C>::size_reply, (runner, reply), request),
        old(runner).phase == (Phase::Reply { details, initial }),
    ensures
        reply.width != initial.width || reply.height != initial.height ==> request == Some(reply),
        reply.width == initial.width && reply.height == initial.height ==> request is None,
        *final(runner) == (WorkerRunner { phase: Phase::Drain, ..*old(runner) }),
{
}

/// A size that nobody has asked the application for changes nothing.
pub proof fn law_unasked_size_is_ignored<C>(
    runner: &mut WorkerRunner<C>,
    reply: PhysicalSize,
    request: Option<PhysicalSize>,
)
    requires
        call_ensures(WorkerRunner::<C>::size_reply, (runner, reply), request),
        !(old(runner).phase is Reply),
    ensures
        request is None,
        *final(runner) == *old(runner),
{
}

/// All wakeups of the application that were counted are taken, to be told one by one.
pub proof fn law_wakeups_are_taken_over<C>(
    runner: &mut WorkerRunner<C>,
    shared: &mut Shared,
    now: Moment,
    action: Action,
)
    requires
        call_ensures(WorkerRunner::<C>::step_at, (runner, shared, now), action),
        old(runner).phase is Count,
    ensures
        action == Action::Continue,
        *final(runner) == (WorkerRunner {
            phase: Phase::User(old(shared)@.user_events),
            ..*old(runner)
        }),
        final(shared)@ == (SharedView { user_events: 0, ..old(shared)@ }),
{
}

/// Each wakeup is told once: one fewer is left after each, and with none left the cycle goes on.
pub proof fn law_each_wakeup_is_told<C>(
    runner: &mut WorkerRunner<C>,
    shared: &mut Shared,
    now: Moment,
    action: Action,
    count: usize,
)
    requires
        call_ensures(WorkerRunner::<C>::step_at, (runner, shared, now), action),
        old(runner).phase == Phase::User(count),
    ensures
        count > 0 ==> {
            &&& tells_of(old(runner).handler, action, Event::UserEvent)
            &&& final(runner).phase is User
            &&& final(runner).phase->User_0 + 1 == count
        },
        count == 0 ==> action == Action::Continue && final(runner).phase is Redraw,
        *final(runner) == (WorkerRunner { phase: final(runner).phase, ..*old(runner) }),
        final(shared)@ == old(shared)@,
{
}

/// The application is told to draw its window where a frame has come, once for that frame, and not
/// otherwise.
pub proof fn law_redraw_is_told<C>(
    runner: &mut WorkerRunner<C>,
    shared: &mut Shared,
    now: Moment,
    action: Action,
)
    requires
        call_ensures(WorkerRunner::<C>::step_at, (runner, shared, now), action),
        old(runner).phase is Redraw,
    ensures
        old(runner).redraw ==> tells_of(
            old(runner).handler,
            action,
            Event::WindowEvent {
                window_id: old(shared)@.window_id,
                event: WindowEvent::RedrawRequested,
            },
        ),
        !old(runner).redraw ==> action == Action::Continue,
        *final(runner) == (WorkerRunner {
            redraw: false,
            phase: Phase::AboutToWait,
            ..*old(runner)
        }),
        final(shared)@ == old(shared)@,
{
}

/// The application is told that the cycle is over before it is decided how to go on.
pub proof fn law_end_of_cycle_is_told<C>(
    runner: &mut WorkerRunner<C>,
    shared: &mut Shared,
    now: Moment,
    action: Action,
)
    requires
        call_ensures(WorkerRunner::<C>::step_at, (runner, shared, now), action),
        old(runner).phase is AboutToWait,
    ensures
        tells_of(old(runner).handler, action, Event::AboutToWait),
        *final(runner) == (WorkerRunner { phase: Phase::Settle, ..*old(runner) }),
        final(shared)@ == old(shared)@,
{
}

/// A cycle goes on by the clock as it does as of the moment that the clock is read to tell.
pub proof fn law_step_by_the_clock<C>(
    runner: &mut WorkerRunner<C>,
    shared: &mut Shared,
    clock: &Clock,
    action: Action,
)
    requires
        call_ensures(WorkerRunner::<C>::step, (runner, shared, clock), action),
    ensures
        exists|now: Moment|
            call_ensures(Clock::now, (clock,), now) && (Step {
                runner: *final(runner),
                shared: final(shared)@,
                action,
            }) == #[trigger] old(runner).advance(old(shared)@, now),
{
}

} // verus!
