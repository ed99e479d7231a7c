//! What the application sets is what it reads back, and its window is handed out once.

use vstd::prelude::*;

use crate::event::{ControlFlow, PollStrategy, WaitUntilStrategy, WorkerRedrawStrategy};
use crate::runner::{ClaimedWindow, OsError, Phase, WorkerRunner};

verus! {

/// What holds unless it is set otherwise: pages poll and wait through the scheduler, and redraws
/// follow animation frames.
pub proof fn law_defaults(
    poll: PollStrategy,
    wait: WaitUntilStrategy,
    redraw: WorkerRedrawStrategy,
)
    requires
        call_ensures(PollStrategy::default, (), poll),
        call_ensures(WaitUntilStrategy::default, (), wait),
        call_ensures(WorkerRedrawStrategy::default, (), redraw),
    ensures
        poll == PollStrategy::Scheduler,
        wait == WaitUntilStrategy::Scheduler,
        redraw == WorkerRedrawStrategy::AnimationFrame,
{
}

/// The control flow that was set is the one that is read, and nothing else is changed by it.
pub proof fn law_control_flow_is_kept<C>(
    runner: &mut WorkerRunner<C>,
    flow: ControlFlow,
    reader: &WorkerRunner<C>,
    read: ControlFlow,
)
    requires
        call_ensures(WorkerRunner::<C>::set_control_flow, (runner, flow), ()),
        call_ensures(WorkerRunner::<C>::control_flow, (reader,), read),
    ensures
        *reader == *final(runner) ==> read == flow,
        *reader == *old(runner) ==> read == old(runner).control,
        *final(runner) == (WorkerRunner { control: flow, ..*old(runner) }),
{
}

/// The strategy for polling that was set is the one that is read, and nothing else is changed.
pub proof fn law_poll_strategy_is_kept<C>(
    runner: &mut WorkerRunner<C>,
    strategy: PollStrategy,
    reader: &WorkerRunner<C>,
    read: PollStrategy,
)
    requires
        call_ensures(WorkerRunner::<C>::set_poll_strategy, (runner, strategy), ()),
        call_ensures(WorkerRunner::<C>::poll_strategy, (reader,), read),
    ensures
        *reader == *final(runner) ==> read == strategy,
        *reader == *old(runner) ==> read == old(runner).poll,
        *final(runner) == (WorkerRunner { poll: strategy, ..*old(runner) }),
{
}

/// The strategy for waiting that was set is the one that is read, and nothing else is changed.
pub proof fn law_wait_until_strategy_is_kept<C>(
    runner: &mut WorkerRunner<C>,
    strategy: WaitUntilStrategy,
    reader: &WorkerRunner<C>,
    read: WaitUntilStrategy,
)
    requires
        call_ensures(WorkerRunner::<C>::set_wait_until_strategy, (runner, strategy), ()),
        call_ensures(WorkerRunner::<C>::wait_until_strategy, (reader,), read),
    ensures
        *reader == *final(runner) ==> read == strategy,
        *reader == *old(runner) ==> read == old(runner).wait,
        *final(runner) == (WorkerRunner { wait: strategy, ..*old(runner) }),
{
}

/// The window is handed out the first time that it is asked for, with the attributes that were
/// asked for and for the host of the worker, and not again.
pub proof fn law_window_is_handed_out<C, A>(
    runner: &mut WorkerRunner<C>,
    attributes: A,
    window: Result<ClaimedWindow<A>, OsError>,
)
    requires
        call_ensures(WorkerRunner::<C>::create_window::<A>, (runner, attributes), window),
    ensures
        window is Ok <==> !old(runner).window_claimed,
        window is Ok ==> window->Ok_0.attributes == attributes && window->Ok_0.worker_id == old(runner).id,
        window is Err ==> window->Err_0 == OsError::WindowClaimed,
        *final(runner) == (WorkerRunner { window_claimed: true, ..*old(runner) }),
{
}

/// Whoever asks for the window after it was asked for is refused.
pub proof fn law_second_window_is_refused<C, A, B>(
    runner: &mut WorkerRunner<C>,
    attributes: A,
    first: Result<ClaimedWindow<A>, OsError>,
    again: &mut WorkerRunner<C>,
    others: B,
    second: Result<ClaimedWindow<B>, OsError>,
)
    requires
        call_ensures(WorkerRunner::<C>::create_window::<A>, (runner, attributes), first),
        call_ensures(WorkerRunner::<C>::create_window::<B>, (again, others), second),
    ensures
        *old(again) == *final(runner) ==> second is Err && *final(again) == *final(runner),
{
    law_window_is_handed_out(runner, attributes, first);
    law_window_is_handed_out(again, others, second);
}

/// The host of a worker is the one it is attached to.
pub proof fn law_host_is_known<C>(runner: &WorkerRunner<C>, id: u32)
    requires
        call_ensures(WorkerRunner::<C>::host_id, (runner,), id),
    ensures
        id == runner.id,
{
}

/// A loop is idle exactly where no cycle is under way.
pub proof fn law_idle_is_between_cycles<C>(runner: &WorkerRunner<C>, idle: bool)
    requires
        call_ensures(WorkerRunner::<C>::is_idle, (runner,), idle),
    ensures
        idle <==> runner.phase == Phase::Idle,
{
}

} // verus!
