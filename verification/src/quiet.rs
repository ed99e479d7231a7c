//! What one cycle does where nobody interferes.

use vstd::prelude::*;

use crate::event::{ControlFlow, Event, StartCause, WindowEvent};
use crate::laws::passing::with_news;
use crate::queue::ForwardedEvent;
use crate::runner::{redraw_event, Action, Phase, WorkerRunner};
use crate::shared::SharedView;
use crate::time::Moment;
use crate::world::{Happening, World};

verus! {

/// The order in which the phases of a cycle follow each other, counted down.
pub open spec fn rank(phase: Phase) -> nat {
    match phase {
        Phase::Start(_) => 11,
        Phase::Begin(_) => 10,
        Phase::Resume => 9,
        Phase::Drain | Phase::Reply { .. } => 8,
        Phase::Count => 7,
        Phase::User(_) => 6,
        Phase::Redraw => 5,
        Phase::AboutToWait => 4,
        Phase::Settle => 3,
        Phase::Exiting => 2,
        Phase::Leaving => 1,
        Phase::Idle => 0,
    }
}

/// How far a phase is from its end.
pub open spec fn remainder(phase: Phase) -> nat {
    match phase {
        Phase::User(count) => count as nat,
        Phase::Reply { .. } => 1,
        _ => 0,
    }
}

/// What happens to a loop until its cycle is over, where the caller performs the actions at `now`,
/// the page and the application do nothing meanwhile, and the application leaves the size alone
/// when the scale factor changes.
#[verifier::opaque]
pub open spec fn quiet_happenings<C>(world: World<C>, now: Moment) -> Seq<Happening>
    decreases
            rank(world.runner.phase),
            world.shared.events.len(),
            remainder(world.runner.phase),
{
    let World { runner, shared } = world;
    match runner.phase {
        Phase::Idle => seq![],
        Phase::Reply { initial, .. } => seq![Happening::Reply(initial)] + quiet_happenings(
            World { runner: runner.replied(), shared },
            now,
        ),
        _ => {
            let step = runner.advance(shared, now);
            seq![Happening::Step(now)] + quiet_happenings(
                World { runner: step.runner, shared: step.shared },
                now,
            )
        },
    }
}

/// The events of the page up to the end of its loop, if that is among them.
pub open spec fn before_end(events: Seq<ForwardedEvent>) -> Seq<Event>
    decreases events.len(),
{
    if events.len() == 0 || events[0].event == Event::LoopExiting {
        seq![]
    } else {
        seq![events[0].event] + before_end(events.drop_first())
    }
}

/// The events of the page after the end of its loop, if that is among them.
pub open spec fn after_end(events: Seq<ForwardedEvent>) -> Seq<ForwardedEvent>
    decreases events.len(),
{
    if events.len() == 0 {
        seq![]
    } else if events[0].event == Event::LoopExiting {
        events.drop_first()
    } else {
        after_end(events.drop_first())
    }
}

/// Whether the end of the page's loop is among its events.
pub open spec fn has_end(events: Seq<ForwardedEvent>) -> bool
    decreases events.len(),
{
    events.len() > 0 && (events[0].event == Event::LoopExiting || has_end(events.drop_first()))
}

/// The event, if `condition` holds.
pub open spec fn when(condition: bool, event: Event) -> Seq<Event> {
    if condition {
        seq![event]
    } else {
        seq![]
    }
}

/// What a cycle tells the application, from its cause, what the page has sent and what the runner
/// has to pass on: that it begins, and, at the very first, that the application may create its
/// window; the events of the page; each wakeup; a redraw that is due; that the cycle is over; and,
/// where the loop is to end or the page has ended its own, that the loop ends.
pub open spec fn cycle_events<C>(
    runner: WorkerRunner<C>,
    shared: SharedView,
    cause: StartCause,
) -> Seq<Event> {
    seq![Event::NewEvents(cause)] + when(cause == StartCause::Init, Event::Resumed) + before_end(
        shared.events,
    ) + Seq::new(shared.user_events as nat, |i: int| Event::UserEvent) + when(
        runner.redraw,
        Event::WindowEvent { window_id: shared.window_id, event: WindowEvent::RedrawRequested },
    ) + seq![Event::AboutToWait] + when(
        runner.exit || has_end(shared.events),
        Event::LoopExiting,
    )
}

/// What a cycle leaves at `now`. Everything that waited is gone, but for what the page sent after
/// it ended its loop. A loop that was to end has ended; any other waits from `now` on.
pub open spec fn cycle_leaves<C>(
    runner: WorkerRunner<C>,
    shared: SharedView,
    now: Moment,
) -> World<C> {
    let ends = runner.exit || has_end(shared.events);
    World {
        runner: WorkerRunner {
            phase: Phase::Idle,
            redraw: false,
            exit: ends,
            handler: !ends,
            frame: runner.frame && !ends,
            timer: !ends && runner.control != ControlFlow::Wait,
            waiting_since: if ends {
                runner.waiting_since
            } else {
                now
            },
            ..runner
        },
        shared: SharedView {
            events: after_end(shared.events),
            user_events: 0,
            closed: ends,
            ..if ends {
                with_news(shared)
            } else {
                shared
            }
        },
    }
}

/// A cycle that nobody interferes with tells the application exactly what there is to tell, in
/// order, and leaves nothing waiting but what the page sent after it ended its loop.
pub proof fn law_quiet_cycle<C>(world: World<C>, cause: StartCause, now: Moment)
    requires
        world.runner.phase == Phase::Start(cause),
        world.runner.handler,
        !world.shared.closed,
    ensures
        world.told(quiet_happenings(world, now)) == cycle_events(
            world.runner,
            world.shared,
            cause,
        ),
        world.after(quiet_happenings(world, now)) == cycle_leaves(world.runner, world.shared, now),
{
    let World { runner, shared } = world;
    finish_is_a_run(world, now);
    let draining = World {
        runner: WorkerRunner { timer: false, phase: Phase::Drain, ..runner },
        shared,
    };
    finish_drain(draining, now);
    finish_start(world, draining, cause, now);
    cycle_joins(draining, cause);
}

/// What such a cycle leaves, and what it tells the application.
#[verifier::opaque]
spec fn finish<C>(world: World<C>, now: Moment) -> (World<C>, Seq<Event>)
    decreases
            rank(world.runner.phase),
            world.shared.events.len(),
            remainder(world.runner.phase),
{
    let World { runner, shared } = world;
    match runner.phase {
        Phase::Idle => (world, seq![]),
        Phase::Reply { .. } => finish(World { runner: runner.replied(), shared }, now),
        _ => {
            let step = runner.advance(shared, now);
            let rest = finish(World { runner: step.runner, shared: step.shared }, now);
            match step.action {
                Action::Emit(event) => (rest.0, seq![event] + rest.1),
                _ => rest,
            }
        },
    }
}

/// A cycle that nobody interferes with is a run of the loop like any other.
proof fn finish_is_a_run<C>(world: World<C>, now: Moment)
    ensures
        world.after(quiet_happenings(world, now)) == finish(world, now).0,
        world.told(quiet_happenings(world, now)) == finish(world, now).1,
    decreases
            rank(world.runner.phase),
            world.shared.events.len(),
            remainder(world.runner.phase),
{
    let World { runner, shared } = world;
    match runner.phase {
        Phase::Idle => {
            finish_idle(world, now);
            reveal(quiet_happenings);
        },
        Phase::Reply { initial, .. } => {
            let rest = World { runner: runner.at(Phase::Drain), shared };
            finish_reply(world, now);
            finish_is_a_run(rest, now);
            happening_first(world, Happening::Reply(initial), quiet_happenings(rest, now));
            assert(seq![] + finish(rest, now).1 =~= finish(rest, now).1);
            reveal(quiet_happenings);
        },
        _ => {
            finish_step(world, now);
            quiet_step(world, now);
            step_shrinks(world, now);
            finish_is_a_run(next(world, now), now);
        },
    }
}

/// What the next action of a cycle leaves.
#[verifier::opaque]
spec fn next<C>(world: World<C>, now: Moment) -> World<C> {
    let step = world.runner.advance(world.shared, now);
    World { runner: step.runner, shared: step.shared }
}

/// What the next action of a cycle tells the application.
spec fn telling<C>(world: World<C>, now: Moment) -> Seq<Event> {
    match world.runner.advance(world.shared, now).action {
        Action::Emit(event) => seq![event],
        _ => seq![],
    }
}

proof fn finish_step<C>(world: World<C>, now: Moment)
    requires
        !(world.runner.phase is Idle),
        !(world.runner.phase is Reply),
    ensures
        finish(world, now).0 == finish(next(world, now), now).0,
        finish(world, now).1 == telling(world, now) + finish(next(world, now), now).1,
{
    reveal(finish);
    reveal(next);
    let rest = finish(next(world, now), now).1;
    assert(seq![] + rest =~= rest);
}

proof fn finish_idle<C>(world: World<C>, now: Moment)
    requires
        world.runner.phase is Idle,
    ensures
        finish(world, now).0 == world,
        finish(world, now).1 == Seq::<Event>::empty(),
{
    reveal(finish);
}

proof fn finish_reply<C>(world: World<C>, now: Moment)
    requires
        world.runner.phase is Reply,
    ensures
        finish(world, now) == finish(
            World { runner: world.runner.at(Phase::Drain), shared: world.shared },
            now,
        ),
{
    reveal(finish);
}

/// The application is installed, the loop has not ended, and no timer is set.
spec fn going<C>(world: World<C>) -> bool {
    world.runner.handler && !world.shared.closed && !world.runner.timer
}

/// What is told at the start of a cycle.
spec fn start_events(cause: StartCause) -> Seq<Event> {
    seq![Event::NewEvents(cause)] + when(cause == StartCause::Init, Event::Resumed)
}

/// What is told from the events of the page on.
spec fn drain_events<C>(world: World<C>) -> Seq<Event> {
    before_end(world.shared.events) + user_events(
        with_exit(world, has_end(world.shared.events)),
        world.shared.user_events as nat,
    )
}

/// A world in which the page has ended its loop, if `ends`.
spec fn with_exit<C>(world: World<C>, ends: bool) -> World<C> {
    World {
        runner: WorkerRunner { exit: world.runner.exit || ends, ..world.runner },
        shared: world.shared,
    }
}

/// What is told from the wakeups on.
spec fn user_events<C>(world: World<C>, count: nat) -> Seq<Event> {
    Seq::new(count, |i: int| Event::UserEvent) + redraw_events(world)
}

/// What is told from the redraw on.
spec fn redraw_events<C>(world: World<C>) -> Seq<Event> {
    when(world.runner.redraw, redraw_event(world.shared)) + seq![Event::AboutToWait]
        + settle_events(world)
}

/// What is told from the decision on how to go on.
spec fn settle_events<C>(world: World<C>) -> Seq<Event> {
    when(world.runner.exit, Event::LoopExiting)
}

/// What is left from the decision on how to go on.
spec fn settle_leaves<C>(world: World<C>, now: Moment) -> World<C> {
    let World { runner, shared } = world;
    World {
        runner: WorkerRunner {
            phase: Phase::Idle,
            handler: !runner.exit,
            frame: runner.frame && !runner.exit,
            timer: !runner.exit && runner.control != ControlFlow::Wait,
            waiting_since: if runner.exit {
                runner.waiting_since
            } else {
                now
            },
            ..runner
        },
        shared: SharedView {
            closed: runner.exit,
            ..if runner.exit {
                shared.notify()
            } else {
                shared
            }
        },
    }
}

/// The redraw that was due, if any, has been told.
spec fn undue<C>(world: World<C>) -> World<C> {
    World { runner: WorkerRunner { redraw: false, ..world.runner }, shared: world.shared }
}

/// The wakeups of the application have been taken.
spec fn unwoken<C>(world: World<C>) -> World<C> {
    World { runner: world.runner, shared: SharedView { user_events: 0, ..world.shared } }
}

proof fn finish_settle<C>(world: World<C>, now: Moment)
    requires
        going(world),
        world.runner.phase == Phase::Settle,
    ensures
        finish(world, now).0 == settle_leaves(world, now),
        finish(world, now).1 == settle_events(world),
{
    reveal(next);
    finish_step(world, now);
    let second = next(world, now);
    if world.runner.exit {
        finish_step(second, now);
        let third = next(second, now);
        finish_step(third, now);
        finish_idle(next(third, now), now);
    } else {
        finish_idle(second, now);
    }
    assert(finish(world, now).1 =~= settle_events(world));
}

proof fn finish_redraw<C>(world: World<C>, now: Moment)
    requires
        going(world),
        world.runner.phase == Phase::Redraw,
    ensures
        finish(world, now).0 == settle_leaves(undue(world), now),
        finish(world, now).1 == redraw_events(world),
{
    reveal(next);
    finish_step(world, now);
    let second = next(world, now);
    finish_step(second, now);
    finish_settle(next(second, now), now);
    assert(finish(world, now).1 =~= redraw_events(world));
}

proof fn finish_user<C>(world: World<C>, now: Moment, count: usize)
    requires
        going(world),
        world.runner.phase == Phase::User(count),
    ensures
        finish(world, now).0 == settle_leaves(undue(world), now),
        finish(world, now).1 == user_events(world, count as nat),
    decreases count,
{
    reveal(next);
    finish_step(world, now);
    if count == 0 {
        finish_redraw(next(world, now), now);
    } else {
        finish_user(next(world, now), now, (count - 1) as usize);
    }
    assert(finish(world, now).1 =~= user_events(world, count as nat));
}

proof fn finish_count<C>(world: World<C>, now: Moment)
    requires
        going(world),
        world.runner.phase == Phase::Count,
    ensures
        finish(world, now).0 == settle_leaves(undue(unwoken(world)), now),
        finish(world, now).1 == user_events(world, world.shared.user_events as nat),
{
    reveal(next);
    finish_step(world, now);
    finish_user(next(world, now), now, world.shared.user_events);
    assert(finish(world, now).1 =~= user_events(world, world.shared.user_events as nat));
}

/// Sequences can be joined from either end.
proof fn join(a: Seq<Event>, b: Seq<Event>, c: Seq<Event>)
    ensures
        (a + b) + c == a + (b + c),
{
    assert((a + b) + c =~= a + (b + c));
}

proof fn drain_grows<C>(world: World<C>, rest: World<C>)
    requires
        world.shared.events.len() > 0,
        world.shared.events[0].event != Event::LoopExiting,
        rest.runner == world.runner,
        rest.shared == (SharedView {
            events: world.shared.events.drop_first(),
            ..world.shared
        }),
    ensures
        seq![world.shared.events[0].event] + drain_events(rest) == drain_events(world),
{
    let ends = has_end(world.shared.events);
    let count = world.shared.user_events as nat;
    assert(user_events(with_exit(rest, ends), count) == user_events(with_exit(world, ends), count));
    join(
        seq![world.shared.events[0].event],
        before_end(rest.shared.events),
        user_events(with_exit(world, ends), count),
    );
}

proof fn finish_drain<C>(world: World<C>, now: Moment)
    requires
        going(world),
        world.runner.phase == Phase::Drain,
    ensures
        finish(world, now).0 == cycle_leaves(world.runner, world.shared, now),
        finish(world, now).1 == drain_events(world),
    decreases world.shared.events.len(),
{
    reveal(next);
    let World { runner, shared } = world;
    let second = next(world, now);
    finish_step(world, now);
    if shared.events.len() == 0 || shared.events[0].event == Event::LoopExiting {
        finish_count(second, now);
        assert(finish(world, now).0.shared.events =~= after_end(shared.events));
        assert(finish(world, now).1 =~= drain_events(world));
    } else {
        if second.runner.phase is Reply {
            finish_reply(second, now);
        }
        let rest = World { runner, shared: second.shared };
        finish_drain(rest, now);
        drain_grows(world, rest);
    }
}

proof fn finish_start<C>(world: World<C>, draining: World<C>, cause: StartCause, now: Moment)
    requires
        world.runner.phase == Phase::Start(cause),
        world.runner.handler,
        draining.shared == world.shared,
        draining.runner == (WorkerRunner { timer: false, phase: Phase::Drain, ..world.runner }),
    ensures
        finish(world, now).0 == finish(draining, now).0,
        finish(world, now).1 == start_events(cause) + finish(draining, now).1,
{
    reveal(next);
    finish_step(world, now);
    let second = next(world, now);
    finish_step(second, now);
    let third = next(second, now);
    let rest = finish(draining, now).1;
    if cause == StartCause::Init {
        finish_step(third, now);
        assert(next(third, now) == draining);
    } else {
        assert(third == draining);
    }
    assert(finish(world, now).1 =~= start_events(cause) + rest);
}

/// What a cycle tells, whichever end it is joined from.
proof fn cycle_joins<C>(world: World<C>, cause: StartCause)
    ensures
        start_events(cause) + drain_events(world) == cycle_events(
            world.runner,
            world.shared,
            cause,
        ),
{
    let shared = world.shared;
    let start = start_events(cause);
    let page = before_end(shared.events);
    let users = Seq::new(shared.user_events as nat, |i: int| Event::UserEvent);
    let redraw = when(world.runner.redraw, redraw_event(shared));
    let wait = seq![Event::AboutToWait];
    let exit = when(world.runner.exit || has_end(shared.events), Event::LoopExiting);
    assert(drain_events(world) == page + (users + (redraw + wait + exit)));
    join(start, page, users + (redraw + wait + exit));
    join(start + page, users, redraw + wait + exit);
    join(start + page + users, redraw + wait, exit);
    join(start + page + users, redraw, wait);
}

proof fn happening_first<C>(world: World<C>, first: Happening, rest: Seq<Happening>)
    ensures
        world.after(seq![first] + rest) == world.next(first).after(rest),
        world.told(seq![first] + rest) == world.telling(first) + world.next(first).told(rest),
    decreases rest.len(),
{
    let all = seq![first] + rest;
    if rest.len() == 0 {
        assert(all.drop_last() =~= seq![]);
        assert(world.told(all.drop_last()) =~= seq![]);
        assert(world.after(all.drop_last()) == world);
        assert(world.told(all) =~= world.telling(first) + world.next(first).told(rest));
    } else {
        assert(all.drop_last() =~= seq![first] + rest.drop_last());
        happening_first(world, first, rest.drop_last());
        assert(world.told(all) =~= world.telling(first) + world.next(first).told(rest));
    }
}

proof fn quiet_step<C>(world: World<C>, now: Moment)
    requires
        !(world.runner.phase is Idle),
        !(world.runner.phase is Reply),
    ensures
        ({
            let rest = quiet_happenings(next(world, now), now);
            &&& world.after(quiet_happenings(world, now)) == next(world, now).after(rest)
            &&& world.told(quiet_happenings(world, now)) == telling(world, now) + next(
                world,
                now,
            ).told(rest)
        }),
{
    reveal(quiet_happenings);
    reveal(next);
    happening_first(world, Happening::Step(now), quiet_happenings(next(world, now), now));
}

proof fn step_shrinks<C>(world: World<C>, now: Moment)
    requires
        !(world.runner.phase is Idle),
        !(world.runner.phase is Reply),
    ensures
        ({
            let (before, after) = (world, next(world, now));
            let (rank_before, rank_after) = (rank(before.runner.phase), rank(after.runner.phase));
            let (left_before, left_after) = (before.shared.events.len(), after.shared.events.len());
            ||| rank_after < rank_before
            ||| rank_after == rank_before && left_after < left_before
            ||| rank_after == rank_before && left_after == left_before && remainder(
                after.runner.phase,
            ) < remainder(before.runner.phase)
        }),
{
    reveal(next);
}

} // verus!
