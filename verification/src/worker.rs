//! The worker's side: the one canvas that a worker is attached to.

use vstd::prelude::*;

use crate::event::{ControlFlow, PollStrategy, WaitUntilStrategy, WorkerRedrawStrategy};
use crate::host::{Hosts, HostsView};
use crate::runner::{FrameChange, Phase, WorkerRunner};
use crate::time::{Clock, Moment};

verus! {

/// A worker could not be attached.
#[derive(Clone, Copy, Debug, PartialEq, Eq, Structural)]
pub enum AttachError {
    /// This is not a dedicated worker.
    NotDedicated,
    /// The worker has a canvas already.
    Attached,
    /// No host of this number waits for a worker.
    UnknownHost,
}

impl AttachError {
    /// The message of the error.
    pub fn message(&self) -> (message: &'static str)
        ensures
            message@ == match *self {
                AttachError::NotDedicated => "attach_worker requires a dedicated worker"@,
                AttachError::Attached => "a worker window is already attached"@,
                AttachError::UnknownHost => "unknown or already attached worker host"@,
            },
    {
        match self {
            AttachError::NotDedicated => "attach_worker requires a dedicated worker",
            AttachError::Attached => "a worker window is already attached",
            AttachError::UnknownHost => "unknown or already attached worker host",
        }
    }
}

/// A window has no handle.
#[derive(Clone, Copy, Debug, PartialEq, Eq, Structural)]
pub enum HandleError {
    /// This worker does not own the canvas of the window.
    Unavailable,
}

/// Where code runs.
#[derive(Clone, Copy, Debug, PartialEq, Eq, Structural)]
pub struct Scope {
    /// Whether this is the page.
    pub page: bool,
    /// Whether this is a dedicated worker.
    pub dedicated_worker: bool,
}

/// Whether attaching succeeds, for a worker that `slot` belongs to.
pub open spec fn attach_result<H, C>(
    slot: Option<WorkerRunner<C>>,
    hosts: HostsView<H>,
    id: u32,
    scope: Scope,
) -> Result<H, AttachError> {
    if scope.page || !scope.dedicated_worker {
        Err(AttachError::NotDedicated)
    } else if slot is Some {
        Err(AttachError::Attached)
    } else {
        match hosts.host(id) {
            Some(host) => Ok(host),
            None => Err(AttachError::UnknownHost),
        }
    }
}

/// What a worker is attached to afterwards.
pub open spec fn attach_slot<H, C>(
    slot: Option<WorkerRunner<C>>,
    hosts: HostsView<H>,
    id: u32,
    canvas: C,
    scope: Scope,
    now: Moment,
) -> Option<WorkerRunner<C>> {
    if attach_result(slot, hosts, id, scope) is Ok {
        Some(WorkerRunner::attached(id, canvas, now))
    } else {
        slot
    }
}

/// The hosts that wait afterwards.
pub open spec fn attach_hosts<H, C>(
    slot: Option<WorkerRunner<C>>,
    hosts: HostsView<H>,
    id: u32,
    scope: Scope,
) -> HostsView<H> {
    if attach_result(slot, hosts, id, scope) is Ok {
        hosts.take(id)
    } else {
        hosts
    }
}

/// What a worker gets where it is attached.
pub struct Attachment<H> {
    /// The host that it is attached to.
    pub host: H,
    /// The clock of its loop.
    pub clock: Clock,
}

/// The runner of a worker that is attached at `now`.
fn attached_runner<C>(id: u32, canvas: C, now: Moment) -> (runner: WorkerRunner<C>)
    ensures
        runner == WorkerRunner::attached(id, canvas, now),
{
    WorkerRunner {
        id,
        canvas,
        handler: false,
        control: ControlFlow::Wait,
        poll: PollStrategy::default(),
        wait: WaitUntilStrategy::default(),
        exit: false,
        phase: Phase::Idle,
        window_claimed: false,
        redraw: false,
        redraw_strategy: WorkerRedrawStrategy::AnimationFrame,
        waiting_since: now,
        timer: false,
        frame: false,
    }
}

/// Takes the host that a worker is attached to, if it can be attached.
fn claim_host<H, C>(
    slot: &Option<WorkerRunner<C>>,
    hosts: &mut Hosts<H>,
    id: u32,
    scope: Scope,
) -> (claimed: Result<H, AttachError>)
    ensures
        claimed == attach_result(*slot, old(hosts)@, id, scope),
        final(hosts)@ == attach_hosts(*slot, old(hosts)@, id, scope),
{
    if scope.page || !scope.dedicated_worker {
        return Err(AttachError::NotDedicated);
    }
    if slot.is_some() {
        return Err(AttachError::Attached);
    }
    match hosts.take(id) {
        None => {
            assert(hosts@.hosts =~= old(hosts)@.hosts);
            Err(AttachError::UnknownHost)
        },
        Some(host) => Ok(host),
    }
}

/// Attaches a prepared canvas to its owning worker, as of `now`, and returns the host.
pub fn attach_worker_at<H, C>(
    slot: &mut Option<WorkerRunner<C>>,
    hosts: &mut Hosts<H>,
    id: u32,
    canvas: C,
    scope: Scope,
    now: Moment,
) -> (attached: Result<H, AttachError>)
    ensures
        attached == attach_result(*old(slot), old(hosts)@, id, scope),
        *final(slot) == attach_slot(*old(slot), old(hosts)@, id, canvas, scope, now),
        final(hosts)@ == attach_hosts(*old(slot), old(hosts)@, id, scope),
{
    let claimed = claim_host(slot, hosts, id, scope);
    if claimed.is_ok() {
        *slot = Some(attached_runner(id, canvas, now));
    }
    claimed
}

/// Attaches a prepared canvas to its owning worker, and returns the host and the clock of the loop.
/// A worker has one canvas, and a host one worker. No clock is read where the worker is refused:
/// other places need not have one.
pub fn attach_worker<H, C>(
    slot: &mut Option<WorkerRunner<C>>,
    hosts: &mut Hosts<H>,
    id: u32,
    canvas: C,
    scope: Scope,
) -> (attached: Result<Attachment<H>, AttachError>)
    ensures
        match attach_result(*old(slot), old(hosts)@, id, scope) {
            Ok(host) => attached is Ok && attached->Ok_0.host == host && exists|now: Moment|
                attached->Ok_0.clock.tells(now) && *final(slot) == #[trigger] attach_slot(
                    *old(slot),
                    old(hosts)@,
                    id,
                    canvas,
                    scope,
                    now,
                ),
            Err(error) => attached == Err::<Attachment<H>, AttachError>(error) && *final(slot)
                == *old(slot),
        },
        final(hosts)@ == attach_hosts(*old(slot), old(hosts)@, id, scope),
{
    match claim_host(slot, hosts, id, scope) {
        Err(error) => Err(error),
        Ok(host) => {
            let clock = Clock::new();
            let now = clock.now();
            *slot = Some(attached_runner(id, canvas, now));
            assert(*slot == attach_slot(*old(slot), old(hosts)@, id, canvas, scope, now));
            Ok(Attachment { host, clock })
        },
    }
}

/// Whether the current worker has an attached page canvas.
pub fn worker_attached<C>(slot: &Option<WorkerRunner<C>>) -> (attached: bool)
    ensures
        attached == slot is Some,
{
    slot.is_some()
}

/// Changes redraw pacing on the owning worker. Returns false outside an attached worker. What
/// becomes of a pending redraw comes with it: it is rescheduled, so changes also wake a paused
/// animation frame.
pub fn set_worker_redraw_strategy<C>(
    slot: &mut Option<WorkerRunner<C>>,
    strategy: WorkerRedrawStrategy,
) -> (result: (bool, FrameChange))
    ensures
        result == match *old(slot) {
            Some(runner) => (true, runner.frame_change(strategy)),
            None => (false, FrameChange::Keep),
        },
        *final(slot) == match *old(slot) {
            Some(runner) => Some(runner.repaced(strategy)),
            None => None,
        },
{
    match slot {
        Some(runner) => (true, runner.set_redraw_strategy(strategy)),
        None => (false, FrameChange::Keep),
    }
}

/// The canvas of the window that belongs to a host, on the worker that owns it.
pub fn window_handle<C>(slot: &Option<WorkerRunner<C>>, id: u32) -> (canvas: Result<
    &C,
    HandleError,
>)
    ensures
        canvas == match *slot {
            Some(runner) => if runner.id == id {
                Ok(&runner.canvas)
            } else {
                Err(HandleError::Unavailable)
            },
            None => Err(HandleError::Unavailable),
        },
{
    match slot {
        Some(runner) => {
            if runner.id == id {
                Ok(&runner.canvas)
            } else {
                Err(HandleError::Unavailable)
            }
        },
        None => Err(HandleError::Unavailable),
    }
}

} // verus!
