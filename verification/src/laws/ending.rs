//! How the loop ends.

use vstd::prelude::*;

use crate::event::Event;
use crate::laws::passing::with_news;
use crate::laws::stepping::tells_of;
use crate::runner::{Action, Phase, WorkerRunner};
use crate::shared::{Shared, SharedView};
use crate::time::Moment;

verus! {

/// A request to end is kept and announced, so that the loop comes to it. Nothing else changes, and
/// nothing that waits is lost.
pub proof fn law_end_is_asked_for<C>(runner: &mut WorkerRunner<C>, shared: &mut Shared)
    requires
        call_ensures(WorkerRunner::<C>::exit, (runner, shared), ()),
    ensures
        *final(runner) == (WorkerRunner { exit: true, ..*old(runner) }),
        final(shared)@ == with_news(old(shared)@),
{
}

/// Whether the loop is to end is as it was asked for.
pub proof fn law_exiting_is_told<C>(runner: &WorkerRunner<C>, exiting: bool)
    requires
        call_ensures(WorkerRunner::<C>::exiting, (runner,), exiting),
    ensures
        exiting == runner.exit,
{
}

/// A loop that is to end closes what it shares with the page once the cycle is over, drops the frame
/// that is scheduled, and sets no timer.
pub proof fn law_loop_closes<C>(
    runner: &mut WorkerRunner<C>,
    shared: &mut Shared,
    now: Moment,
    action: Action,
)
    requires
        call_ensures(WorkerRunner::<C>::step_at, (runner, shared, now), action),
        old(runner).phase is Settle,
        old(runner).exit,
    ensures
        old(runner).frame ==> action == Action::CancelFrame,
        !old(runner).frame ==> action == Action::Continue,
        *final(runner) == (WorkerRunner { phase: Phase::Exiting, frame: false, ..*old(runner) }),
        final(shared)@ == with_news(SharedView { closed: true, ..old(shared)@ }),
{
}

/// The application is told that the loop ends.
pub proof fn law_end_is_told<C>(
    runner: &mut WorkerRunner<C>,
    shared: &mut Shared,
    now: Moment,
    action: Action,
)
    requires
        call_ensures(WorkerRunner::<C>::step_at, (runner, shared, now), action),
        old(runner).phase is Exiting,
    ensures
        tells_of(old(runner).handler, action, Event::LoopExiting),
        *final(runner) == (WorkerRunner { phase: Phase::Leaving, ..*old(runner) }),
        final(shared)@ == old(shared)@,
{
}

/// Then the application is let go, and the page ends its loop. The canvas stays.
pub proof fn law_application_is_let_go<C>(
    runner: &mut WorkerRunner<C>,
    shared: &mut Shared,
    now: Moment,
    action: Action,
)
    requires
        call_ensures(WorkerRunner::<C>::step_at, (runner, shared, now), action),
        old(runner).phase is Leaving,
    ensures
        action == Action::ExitHost,
        *final(runner) == (WorkerRunner { phase: Phase::Idle, handler: false, ..*old(runner) }),
        final(shared)@ == old(shared)@,
{
}

} // verus!
