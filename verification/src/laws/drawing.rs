//! How the application comes to draw: it asks for a redraw, a frame is scheduled, the frame comes,
//! and a cycle tells the application to draw.

use vstd::prelude::*;

use crate::event::{Event, WindowEvent, WorkerRedrawStrategy};
use crate::laws::waiting::due_cause;
use crate::runner::{Action, FrameChange, Phase, WorkerRunner};
use crate::shared::Shared;
use crate::time::{Clock, Moment};
use crate::worker::set_worker_redraw_strategy;
use crate::world::{Happening, World};

verus! {

/// A redraw that is asked for is scheduled, in the way that is set, whatever the loop is at: only
/// where a frame is scheduled already, or the loop is to end, it is not. Nothing else changes.
pub proof fn law_redraw_is_scheduled<C>(
    runner: &mut WorkerRunner<C>,
    schedule: Option<WorkerRedrawStrategy>,
)
    requires
        call_ensures(WorkerRunner::<C>::request_redraw, (runner,), schedule),
    ensures
        !old(runner).frame && !old(runner).exit ==> schedule == Some(old(runner).redraw_strategy)
            && final(runner).frame,
        old(runner).frame || old(runner).exit ==> schedule is None && final(runner).frame == old(runner).frame,
        *final(runner) == (WorkerRunner { frame: final(runner).frame, ..*old(runner) }),
{
}

/// Of two redraws that are asked for at once, one is scheduled at most: a second frame is not.
pub proof fn law_second_redraw_is_not_scheduled<C>(
    runner: &mut WorkerRunner<C>,
    first: Option<WorkerRedrawStrategy>,
    again: &mut WorkerRunner<C>,
    second: Option<WorkerRedrawStrategy>,
)
    requires
        call_ensures(WorkerRunner::<C>::request_redraw, (runner,), first),
        call_ensures(WorkerRunner::<C>::request_redraw, (again,), second),
    ensures
        *old(again) == *final(runner) ==> second is None && *final(again) == *final(runner),
{
    law_redraw_is_scheduled(runner, first);
    law_redraw_is_scheduled(again, second);
}

/// In every run, and whatever the loop is at, a redraw that is asked for has a frame scheduled,
/// unless the loop is to end.
pub proof fn law_redraw_in_every_phase<C>(world: World<C>)
    ensures
        !world.runner.exit ==> world.next(Happening::RequestRedraw).runner.frame,
        !world.runner.exit && !world.runner.frame ==> world.schedules(Happening::RequestRedraw)
            == 1,
        world.runner.frame || world.runner.exit ==> world.next(Happening::RequestRedraw) == world
            && world.schedules(Happening::RequestRedraw) == 0,
        world.next(Happening::RequestRedraw).runner.phase == world.runner.phase,
        world.next(Happening::RequestRedraw).shared == world.shared,
{
}

/// Whether this is what becomes of a scheduled frame where the pacing changes: to another pacing it
/// is moved, so that a paused frame comes after all; where the loop is to end it is dropped; and
/// where the pacing stays as it was, or no frame is scheduled, nothing becomes of it.
pub open spec fn frame_moved<C>(
    before: WorkerRunner<C>,
    strategy: WorkerRedrawStrategy,
    after: WorkerRunner<C>,
    change: FrameChange,
) -> bool {
    let moved = before.frame && before.redraw_strategy != strategy;
    &&& moved && !before.exit ==> change == FrameChange::Reschedule(strategy) && after.frame
    &&& moved && before.exit ==> change is Cancel && !after.frame
    &&& !moved ==> change is Keep && after.frame == before.frame
    &&& after == (WorkerRunner { redraw_strategy: strategy, frame: after.frame, ..before })
}

/// A pending redraw is rescheduled where the pacing changes, and the pacing holds from then on.
pub proof fn law_pending_redraw_is_moved<C>(
    runner: &mut WorkerRunner<C>,
    strategy: WorkerRedrawStrategy,
    change: FrameChange,
)
    requires
        call_ensures(WorkerRunner::<C>::set_redraw_strategy, (runner, strategy), change),
    ensures
        old(runner).frame && !old(runner).exit && old(runner).redraw_strategy != strategy
            ==> change == FrameChange::Reschedule(strategy) && final(runner).frame,
        old(runner).frame && old(runner).exit && old(runner).redraw_strategy != strategy ==> change
            == FrameChange::Cancel && !final(runner).frame,
        !old(runner).frame || old(runner).redraw_strategy == strategy ==> change
            == FrameChange::Keep && final(runner).frame == old(runner).frame,
        final(runner).redraw_strategy == strategy,
        *final(runner) == (WorkerRunner {
            redraw_strategy: strategy,
            frame: final(runner).frame,
            ..*old(runner)
        }),
        frame_moved(*old(runner), strategy, *final(runner), change),
{
}

/// The pacing of an attached worker changes, with what becomes of its scheduled frame. Where no
/// worker is attached, there is nothing to change, and the answer is no.
pub proof fn law_worker_is_repaced<C>(
    slot: &mut Option<WorkerRunner<C>>,
    strategy: WorkerRedrawStrategy,
    result: (bool, FrameChange),
)
    requires
        call_ensures(set_worker_redraw_strategy::<C>, (slot, strategy), result),
    ensures
        result.0 <==> *old(slot) is Some,
        *final(slot) is Some <==> *old(slot) is Some,
        *old(slot) is Some ==> frame_moved(
            (*old(slot))->0,
            strategy,
            (*final(slot))->0,
            result.1,
        ),
        *old(slot) is None ==> result.1 is Keep,
{
}

/// A redraw that is asked for after the pacing has changed is scheduled in the new way, whether or
/// not one was pending.
pub proof fn law_new_pacing_holds<C>(
    runner: &mut WorkerRunner<C>,
    strategy: WorkerRedrawStrategy,
    change: FrameChange,
    asking: &mut WorkerRunner<C>,
    schedule: Option<WorkerRedrawStrategy>,
)
    requires
        call_ensures(WorkerRunner::<C>::set_redraw_strategy, (runner, strategy), change),
        call_ensures(WorkerRunner::<C>::request_redraw, (asking,), schedule),
    ensures
        *old(asking) == *final(runner) && schedule is Some ==> schedule == Some(strategy),
        *old(asking) == *final(runner) && !old(runner).exit ==> final(asking).frame && (schedule
            is Some <==> !old(runner).frame),
{
    law_pending_redraw_is_moved(runner, strategy, change);
    law_redraw_is_scheduled(asking, schedule);
}

/// A runner that a frame has come to at `now`.
pub open spec fn frame_has_come<C>(
    before: WorkerRunner<C>,
    closed: bool,
    now: Moment,
    after: WorkerRunner<C>,
) -> bool {
    &&& !after.frame
    &&& after.redraw
    &&& after.phase == if before.phase is Idle && !closed {
        Phase::Start(due_cause(before, now))
    } else {
        before.phase
    }
    &&& after == (WorkerRunner { frame: false, redraw: true, phase: after.phase, ..before })
}

/// A frame that comes is no longer scheduled, and has the application draw. Between cycles, it
/// begins one, unless the loop has ended.
pub proof fn law_frame_comes<C>(
    runner: &mut WorkerRunner<C>,
    shared: &Shared,
    now: Moment,
    begun: bool,
)
    requires
        call_ensures(WorkerRunner::<C>::frame_fired_at, (runner, shared, now), begun),
    ensures
        begun <==> old(runner).phase is Idle && !shared@.closed,
        begun ==> final(runner).phase is Start,
        !begun ==> final(runner).phase == old(runner).phase,
        *final(runner) == (WorkerRunner {
            frame: false,
            redraw: true,
            phase: final(runner).phase,
            ..*old(runner)
        }),
        frame_has_come(*old(runner), shared@.closed, now, *final(runner)),
{
}

/// The same by a clock, which is read for it.
pub proof fn law_frame_comes_by_the_clock<C>(
    runner: &mut WorkerRunner<C>,
    shared: &Shared,
    clock: &Clock,
    begun: bool,
)
    requires
        call_ensures(WorkerRunner::<C>::frame_fired, (runner, shared, clock), begun),
    ensures
        begun <==> old(runner).phase is Idle && !shared@.closed,
        exists|now: Moment| #[trigger]
            call_ensures(Clock::now, (clock,), now) && frame_has_come(*old(runner), shared@.closed, now, *final(runner)),
{
    let now = choose|now: Moment|
        clock.tells(now) && *final(runner) == #[trigger] old(runner).framed().waking(shared@, now);
    assert(call_ensures(Clock::now, (clock,), now) && frame_has_come(*old(runner), shared@.closed, now, *final(runner)));
}

/// Once a frame has come and was drawn, the application that asks for the next redraw gets it.
pub proof fn law_animation_goes_on<C>(
    runner: &mut WorkerRunner<C>,
    shared: &mut Shared,
    now: Moment,
    action: Action,
    asking: &mut WorkerRunner<C>,
    schedule: Option<WorkerRedrawStrategy>,
)
    requires
        call_ensures(WorkerRunner::<C>::step_at, (runner, shared, now), action),
        call_ensures(WorkerRunner::<C>::request_redraw, (asking,), schedule),
        old(runner).phase is Redraw,
        old(runner).redraw,
        old(runner).handler,
        !old(runner).frame,
        !old(runner).exit,
    ensures
        action == Action::Emit(
            Event::WindowEvent {
                window_id: old(shared)@.window_id,
                event: WindowEvent::RedrawRequested,
            },
        ),
        *old(asking) == *final(runner) ==> schedule == Some(old(runner).redraw_strategy) && final(asking).frame,
{
    law_redraw_is_scheduled(asking, schedule);
}

} // verus!
