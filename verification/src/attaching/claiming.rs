//! How a worker comes by its canvas, and who can draw on it.

use vstd::prelude::*;

use crate::event::{ControlFlow, PollStrategy, WaitUntilStrategy, WorkerRedrawStrategy};
use crate::host::Hosts;
use crate::runner::{Phase, WorkerRunner};
use crate::time::{Clock, Moment};
use crate::worker::{
    attach_worker, attach_worker_at, window_handle, worker_attached, AttachError, Attachment,
    HandleError, Scope,
};

verus! {

/// A worker is attached to the host that it names, and takes it, with the canvas that it brings. It
/// is refused where it is not a dedicated worker, where it has a canvas already, and where no such
/// host waits, in this order; then nothing changes. Attached, it has no application and no window
/// yet, waits for events, and follows animation frames.
pub proof fn law_worker_is_attached<H, C>(
    slot: &mut Option<WorkerRunner<C>>,
    hosts: &mut Hosts<H>,
    id: u32,
    canvas: C,
    scope: Scope,
    now: Moment,
    attached: Result<H, AttachError>,
)
    requires
        call_ensures(
            attach_worker_at::<H, C>,
            (slot, hosts, id, canvas, scope, now),
            attached,
        ),
    ensures
        attached == Err::<H, AttachError>(AttachError::NotDedicated) <==> scope.page
            || !scope.dedicated_worker,
        attached == Err::<H, AttachError>(AttachError::Attached) <==> !scope.page
            && scope.dedicated_worker && *old(slot) is Some,
        attached == Err::<H, AttachError>(AttachError::UnknownHost) <==> !scope.page
            && scope.dedicated_worker && *old(slot) is None && !old(hosts)@.hosts.contains_key(id),
        attached is Err ==> *final(slot) == *old(slot) && final(hosts)@ == old(hosts)@,
        attached is Ok ==> {
            &&& old(hosts)@.hosts.contains_key(id)
            &&& attached->Ok_0 == old(hosts)@.hosts[id]
            &&& final(hosts)@.hosts == old(hosts)@.hosts.remove(id)
            &&& final(hosts)@.next == old(hosts)@.next
            &&& *final(slot) == Some(
                WorkerRunner {
                    id,
                    canvas,
                    handler: false,
                    control: ControlFlow::Wait,
                    poll: PollStrategy::Scheduler,
                    wait: WaitUntilStrategy::Scheduler,
                    exit: false,
                    phase: Phase::Idle,
                    window_claimed: false,
                    redraw: false,
                    redraw_strategy: WorkerRedrawStrategy::AnimationFrame,
                    waiting_since: now,
                    timer: false,
                    frame: false,
                },
            )
        },
{
}

/// The same by a clock, which comes back with the host and was read to tell since when the worker
/// waits.
pub proof fn law_worker_is_attached_by_the_clock<H, C>(
    slot: &mut Option<WorkerRunner<C>>,
    hosts: &mut Hosts<H>,
    id: u32,
    canvas: C,
    scope: Scope,
    attached: Result<Attachment<H>, AttachError>,
)
    requires
        call_ensures(attach_worker::<H, C>, (slot, hosts, id, canvas, scope), attached),
    ensures
        attached == Err::<Attachment<H>, AttachError>(AttachError::NotDedicated) <==> scope.page
            || !scope.dedicated_worker,
        attached == Err::<Attachment<H>, AttachError>(AttachError::Attached) <==> !scope.page
            && scope.dedicated_worker && *old(slot) is Some,
        attached == Err::<Attachment<H>, AttachError>(AttachError::UnknownHost) <==> !scope.page
            && scope.dedicated_worker && *old(slot) is None && !old(hosts)@.hosts.contains_key(id),
        attached is Err ==> *final(slot) == *old(slot) && final(hosts)@ == old(hosts)@,
        attached is Ok ==> {
            &&& old(hosts)@.hosts.contains_key(id)
            &&& attached->Ok_0.host == old(hosts)@.hosts[id]
            &&& final(hosts)@.hosts == old(hosts)@.hosts.remove(id)
            &&& final(hosts)@.next == old(hosts)@.next
            &&& *final(slot) is Some
            &&& call_ensures(
                Clock::now,
                (&attached->Ok_0.clock,),
                (*final(slot))->0.waiting_since,
            )
            &&& *final(slot) == Some(
                WorkerRunner {
                    id,
                    canvas,
                    handler: false,
                    control: ControlFlow::Wait,
                    poll: PollStrategy::Scheduler,
                    wait: WaitUntilStrategy::Scheduler,
                    exit: false,
                    phase: Phase::Idle,
                    window_claimed: false,
                    redraw: false,
                    redraw_strategy: WorkerRedrawStrategy::AnimationFrame,
                    waiting_since: (*final(slot))->0.waiting_since,
                    timer: false,
                    frame: false,
                },
            )
        },
{
}

/// A worker is attached exactly where it has a canvas.
pub proof fn law_attached_worker_has_a_canvas<C>(slot: &Option<WorkerRunner<C>>, attached: bool)
    requires
        call_ensures(worker_attached::<C>, (slot,), attached),
    ensures
        attached <==> *slot is Some,
{
}

/// The window of a host can be drawn on by the worker that is attached to that host, on the canvas
/// that it brought, and by no other.
pub proof fn law_handle_is_the_canvas<C>(
    slot: &Option<WorkerRunner<C>>,
    id: u32,
    canvas: Result<&C, HandleError>,
)
    requires
        call_ensures(window_handle::<C>, (slot, id), canvas),
    ensures
        canvas is Ok <==> *slot is Some && (*slot)->0.id == id,
        canvas is Ok ==> *canvas->Ok_0 == (*slot)->0.canvas,
        canvas is Err ==> canvas->Err_0 == HandleError::Unavailable,
{
}

/// The canvas that a worker was attached with is the one that its window is drawn on.
pub proof fn law_canvas_is_drawn_on<H, C>(
    slot: &mut Option<WorkerRunner<C>>,
    hosts: &mut Hosts<H>,
    id: u32,
    canvas: C,
    scope: Scope,
    now: Moment,
    attached: Result<H, AttachError>,
    owner: &Option<WorkerRunner<C>>,
    asked: u32,
    handle: Result<&C, HandleError>,
)
    requires
        call_ensures(
            attach_worker_at::<H, C>,
            (slot, hosts, id, canvas, scope, now),
            attached,
        ),
        call_ensures(window_handle::<C>, (owner, asked), handle),
    ensures
        attached is Ok && *owner == *final(slot) ==> (handle is Ok <==> asked == id),
        attached is Ok && *owner == *final(slot) && asked == id ==> *handle->Ok_0 == canvas,
{
    law_worker_is_attached(slot, hosts, id, canvas, scope, now, attached);
    law_handle_is_the_canvas(owner, asked, handle);
}

} // verus!
