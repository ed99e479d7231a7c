//! How the loop waits between cycles, and how the next cycle begins.

use vstd::prelude::*;

use crate::event::{ControlFlow, StartCause};
use crate::runner::{Action, Phase, Timer, Wakeup, WorkerRunner};
use crate::shared::Shared;
use crate::time::{timer_delay, Clock, Moment};

verus! {

/// The time between two moments is their difference, or nothing where there is none.
pub proof fn law_time_passes(later: Moment, earlier: Moment, nanos: u128)
    requires
        call_ensures(Moment::saturating_duration_since, (later, earlier), nanos),
    ensures
        earlier.nanos <= later.nanos ==> earlier.nanos + nanos == later.nanos,
        earlier.nanos >= later.nanos ==> nanos == 0,
{
}

/// A timer is set to the fewest milliseconds that reach the deadline, give or take less than a
/// microsecond. No timer is longer than `i32::MAX`.
pub proof fn law_delay_reaches_deadline(start: Moment, deadline: Moment, delay: i32)
    requires
        call_ensures(timer_delay, (start, deadline), delay),
    ensures
        0 <= delay <= i32::MAX,
        delay == 0 <==> deadline.nanos - start.nanos < 1000,
        delay > 0 ==> (delay - 1) * 1_000_000 + 1000 <= deadline.nanos - start.nanos,
        delay < i32::MAX ==> delay * 1_000_000 + 1000 > deadline.nanos - start.nanos,
{
}

/// A timer set at one moment for another is never shorter where the other comes later.
pub proof fn law_later_deadline_waits_longer(
    start: Moment,
    deadline: Moment,
    delay: i32,
    later: Moment,
    longer: i32,
)
    requires
        call_ensures(timer_delay, (start, deadline), delay),
        call_ensures(timer_delay, (start, later), longer),
        deadline.nanos <= later.nanos,
    ensures
        delay <= longer,
{
    law_delay_reaches_deadline(start, deadline, delay);
    law_delay_reaches_deadline(start, later, longer);
}

/// A cycle that is over has the loop wait from then on: for an event it sets no timer; where it does
/// not wait, one at once; and for a moment, one of the fewest milliseconds that reach it, give or
/// take less than a microsecond, or at once where it has come. Nothing else changes.
pub proof fn law_cycle_settles<C>(
    runner: &mut WorkerRunner<C>,
    shared: &mut Shared,
    now: Moment,
    action: Action,
)
    requires
        call_ensures(WorkerRunner::<C>::step_at, (runner, shared, now), action),
        old(runner).phase is Settle,
        !old(runner).exit,
    ensures
        match old(runner).control {
            ControlFlow::Wait => action == Action::Sleep,
            ControlFlow::Poll => action == Action::Arm(Timer::Immediate),
            ControlFlow::WaitUntil(deadline) => {
                let nanos = deadline.nanos - now.nanos;
                &&& action == Action::Arm(Timer::Immediate) <==> nanos < 1000
                &&& nanos >= 1000 ==> action is Arm && action->Arm_0 is Timeout && {
                    let millis = action->Arm_0->Timeout_0;
                    &&& millis > 0
                    &&& (millis - 1) * 1_000_000 + 1000 <= nanos
                    &&& millis < i32::MAX ==> millis * 1_000_000 + 1000 > nanos
                }
            },
        },
        final(shared)@ == old(shared)@,
        final(runner).timer == (old(runner).timer || old(runner).control != ControlFlow::Wait),
        *final(runner) == (WorkerRunner {
            phase: Phase::Idle,
            waiting_since: now,
            timer: final(runner).timer,
            ..*old(runner)
        }),
{
}

/// Why a cycle of this runner begins at `now`.
pub open spec fn due_cause<C>(runner: WorkerRunner<C>, now: Moment) -> StartCause {
    let start = runner.waiting_since;
    match runner.control {
        ControlFlow::Poll => StartCause::Poll,
        ControlFlow::Wait => StartCause::WaitCancelled { start, requested_resume: None },
        ControlFlow::WaitUntil(deadline) => if now.nanos < deadline.nanos {
            StartCause::WaitCancelled { start, requested_resume: Some(deadline) }
        } else {
            StartCause::ResumeTimeReached { start, requested_resume: deadline }
        },
    }
}

/// The cause of a cycle is what the application asked for: that it polls; that it waited since the
/// end of the last cycle; and, where it waited for a moment, that very moment, and whether it has
/// come.
pub proof fn law_cause_is_due<C>(runner: &WorkerRunner<C>, now: Moment, cause: StartCause)
    requires
        call_ensures(WorkerRunner::<C>::wake_cause_at, (runner, now), cause),
    ensures
        match runner.control {
            ControlFlow::Poll => cause == StartCause::Poll,
            ControlFlow::Wait => {
                &&& cause is WaitCancelled
                &&& cause->WaitCancelled_start == runner.waiting_since
                &&& cause->WaitCancelled_requested_resume is None
            },
            ControlFlow::WaitUntil(deadline) => {
                &&& deadline.nanos <= now.nanos ==> cause == (StartCause::ResumeTimeReached {
                    start: runner.waiting_since,
                    requested_resume: deadline,
                })
                &&& deadline.nanos > now.nanos ==> cause == (StartCause::WaitCancelled {
                    start: runner.waiting_since,
                    requested_resume: Some(deadline),
                })
            },
        },
        cause == due_cause(*runner, now),
{
}

/// The same by a clock, which is read for it.
pub proof fn law_cause_is_due_by_the_clock<C>(
    runner: &WorkerRunner<C>,
    clock: &Clock,
    cause: StartCause,
)
    requires
        call_ensures(WorkerRunner::<C>::wake_cause, (runner, clock), cause),
    ensures
        exists|now: Moment| #[trigger]
            call_ensures(Clock::now, (clock,), now) && cause == due_cause(*runner, now),
{
    let now = choose|now: Moment| clock.tells(now) && cause == #[trigger] runner.cause_at(now);
    assert(call_ensures(Clock::now, (clock,), now) && cause == due_cause(*runner, now));
}

/// A loop that has settled to wait for a moment is told, when it next begins a cycle, since when it
/// has waited and for which moment, and that the moment has come where it has.
pub proof fn law_wait_is_remembered<C>(
    runner: &mut WorkerRunner<C>,
    shared: &mut Shared,
    now: Moment,
    action: Action,
    waiting: &WorkerRunner<C>,
    later: Moment,
    cause: StartCause,
    deadline: Moment,
)
    requires
        call_ensures(WorkerRunner::<C>::step_at, (runner, shared, now), action),
        call_ensures(WorkerRunner::<C>::wake_cause_at, (waiting, later), cause),
        old(runner).phase is Settle,
        !old(runner).exit,
        old(runner).control == ControlFlow::WaitUntil(deadline),
    ensures
        *waiting == *final(runner) && later.nanos >= deadline.nanos ==> cause
            == (StartCause::ResumeTimeReached { start: now, requested_resume: deadline }),
        *waiting == *final(runner) && later.nanos < deadline.nanos ==> cause
            == (StartCause::WaitCancelled { start: now, requested_resume: Some(deadline) }),
{
    law_cycle_settles(runner, shared, now, action);
    law_cause_is_due(waiting, later, cause);
}

/// Whether a runner has begun a cycle for a cause, as far as it could: not within a cycle, nor after
/// the loop has ended. Nothing but how far the cycle has come changes.
pub open spec fn begun_for<C>(
    before: WorkerRunner<C>,
    closed: bool,
    cause: StartCause,
    after: WorkerRunner<C>,
) -> bool {
    after == if before.phase is Idle && !closed {
        WorkerRunner { phase: Phase::Start(cause), ..before }
    } else {
        before
    }
}

/// A cycle begins for its cause between two cycles, until the loop has ended.
pub proof fn law_cycle_begins<C>(
    runner: &mut WorkerRunner<C>,
    shared: &Shared,
    cause: StartCause,
    begun: bool,
)
    requires
        call_ensures(WorkerRunner::<C>::cycle, (runner, shared, cause), begun),
    ensures
        begun <==> old(runner).phase is Idle && !shared@.closed,
        begun ==> *final(runner) == (WorkerRunner { phase: Phase::Start(cause), ..*old(runner) }),
        !begun ==> *final(runner) == *old(runner),
        begun_for(*old(runner), shared@.closed, cause, *final(runner)),
{
}

/// The application is installed, and the first cycle begins as such.
pub proof fn law_loop_runs<C>(runner: &mut WorkerRunner<C>, shared: &Shared, begun: bool)
    requires
        call_ensures(WorkerRunner::<C>::run, (runner, shared), begun),
    ensures
        begun <==> old(runner).phase is Idle && !shared@.closed,
        begun_for(
            WorkerRunner { handler: true, ..*old(runner) },
            shared@.closed,
            StartCause::Init,
            *final(runner),
        ),
{
}

/// A timer that fires begins a cycle for the cause that is due.
pub proof fn law_timer_fires<C>(
    runner: &mut WorkerRunner<C>,
    shared: &Shared,
    now: Moment,
    begun: bool,
)
    requires
        call_ensures(WorkerRunner::<C>::timer_fired_at, (runner, shared, now), begun),
    ensures
        begun <==> old(runner).phase is Idle && !shared@.closed,
        begun_for(*old(runner), shared@.closed, due_cause(*old(runner), now), *final(runner)),
{
}

/// The same by a clock, which is read for it.
pub proof fn law_timer_fires_by_the_clock<C>(
    runner: &mut WorkerRunner<C>,
    shared: &Shared,
    clock: &Clock,
    begun: bool,
)
    requires
        call_ensures(WorkerRunner::<C>::timer_fired, (runner, shared, clock), begun),
    ensures
        begun <==> old(runner).phase is Idle && !shared@.closed,
        exists|now: Moment| #[trigger]
            call_ensures(Clock::now, (clock,), now) && begun_for(
                *old(runner),
                shared@.closed,
                due_cause(*old(runner), now),
                *final(runner),
            ),
{
    let now = choose|now: Moment|
        clock.tells(now) && *final(runner) == #[trigger] old(runner).waking(shared@, now);
    assert(call_ensures(Clock::now, (clock,), now) && begun_for(
        *old(runner),
        shared@.closed,
        due_cause(*old(runner), now),
        *final(runner),
    ));
}

/// What the loop does once it was woken: it stops where it has ended, begins a cycle between two,
/// and otherwise goes on listening.
pub open spec fn wakes_up<C>(runner: WorkerRunner<C>, closed: bool, wakeup: Wakeup) -> bool {
    &&& wakeup is Stop <==> closed
    &&& wakeup is Cycle <==> !closed && runner.phase is Idle
    &&& wakeup is Busy <==> !closed && !(runner.phase is Idle)
}

/// A loop that is woken begins a cycle for the cause that is due.
pub proof fn law_woken_loop_goes_on<C>(
    runner: &mut WorkerRunner<C>,
    shared: &Shared,
    now: Moment,
    wakeup: Wakeup,
)
    requires
        call_ensures(WorkerRunner::<C>::woken_at, (runner, shared, now), wakeup),
    ensures
        wakes_up(*old(runner), shared@.closed, wakeup),
        begun_for(*old(runner), shared@.closed, due_cause(*old(runner), now), *final(runner)),
{
}

/// The same by a clock, which is read for it.
pub proof fn law_woken_loop_goes_on_by_the_clock<C>(
    runner: &mut WorkerRunner<C>,
    shared: &Shared,
    clock: &Clock,
    wakeup: Wakeup,
)
    requires
        call_ensures(WorkerRunner::<C>::woken, (runner, shared, clock), wakeup),
    ensures
        wakes_up(*old(runner), shared@.closed, wakeup),
        exists|now: Moment| #[trigger]
            call_ensures(Clock::now, (clock,), now) && begun_for(
                *old(runner),
                shared@.closed,
                due_cause(*old(runner), now),
                *final(runner),
            ),
{
    let now = choose|now: Moment|
        clock.tells(now) && *final(runner) == #[trigger] old(runner).waking(shared@, now);
    assert(call_ensures(Clock::now, (clock,), now) && begun_for(
        *old(runner),
        shared@.closed,
        due_cause(*old(runner), now),
        *final(runner),
    ));
}

} // verus!
