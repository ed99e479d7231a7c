//! What holds of hosts, of the workers that attach to them, and of what the page passes on.

use vstd::prelude::*;

use crate::event::{Event, WindowId};
use crate::host::{prepare_hosts, prepare_step, Forwarder, HostsView, PageReply, PageStep};
use crate::queue::ForwardedEvent;
use crate::runner::WorkerRunner;
use crate::shared::{parcel, SharedView};
use crate::time::Moment;
use crate::worker::{attach_hosts, attach_result, attach_slot, AttachError, Scope};

pub mod claiming;
pub mod preparing;

verus! {

/// Whether a reply is one to what the page was to do.
pub open spec fn answers<H>(step: PageStep, reply: PageReply<H>) -> bool {
    match step {
        PageStep::CreateWindow => reply is Window,
        PageStep::TransferCanvas(window) => reply matches PageReply::Canvas { window_id, .. }
            && window_id == window,
        PageStep::Share(_) => reply is Host,
        PageStep::Run(_) | PageStep::Fail(_) => false,
    }
}

/// Whether replies are those of one preparation, in which `hosts` waited at each: the first says
/// whether this is the page, and each of the others answers what the page was to do before.
pub open spec fn preparation<H>(hosts: Seq<HostsView<H>>, replies: Seq<PageReply<H>>) -> bool {
    &&& hosts.len() == replies.len()
    &&& replies.len() > 0 ==> replies[0] is Page
    &&& forall|i: int|
        0 < i < replies.len() ==> answers(
            prepare_step(hosts[i - 1], replies[i - 1]),
            #[trigger] replies[i],
        )
}

/// Whether a window was created, its canvas handed over, and what is shared made for it.
pub open spec fn prepared_for<H>(
    hosts: Seq<HostsView<H>>,
    replies: Seq<PageReply<H>>,
    window: WindowId,
) -> bool {
    &&& replies[1] == PageReply::<H>::Window(Ok(window))
    &&& replies[2] == (PageReply::<H>::Canvas { window_id: window, transferred: true })
    &&& prepare_step(hosts[2], replies[2]) == PageStep::Share(SharedView::fresh(window))
}

/// A preparation registers a host at its very end, or not at all: only where this is the page, its
/// window was created and the canvas of that window was handed over. What the host shares with the
/// worker is made for that window. Anything that fails is the end, and leaves the hosts alone.
pub proof fn law_preparation_is_complete<H>(
    hosts: Seq<HostsView<H>>,
    replies: Seq<PageReply<H>>,
    i: int,
)
    requires
        preparation(hosts, replies),
        0 <= i < replies.len(),
    ensures
        replies.len() <= 4,
        prepare_step(hosts[i], replies[i]) is Run <==> replies[i] is Host,
        prepare_step(hosts[i], replies[i]) is Fail ==> i == replies.len() - 1,
        !(replies[i] is Host) ==> prepare_hosts(hosts[i], replies[i]) == hosts[i],
        replies[i] is Host ==> {
            &&& i == 3
            &&& replies[0] == PageReply::<H>::Page(true)
            &&& exists|window: WindowId| #[trigger] prepared_for(hosts, replies, window)
            &&& prepare_step(hosts[i], replies[i]) == PageStep::Run(hosts[i].next)
            &&& prepare_hosts(hosts[i], replies[i]) == hosts[i].register(replies[i]->Host_0)
        },
{
    let len = replies.len();
    if len > 1 {
        assert(answers(prepare_step(hosts[0], replies[0]), replies[1]));
    }
    if len > 2 {
        assert(answers(prepare_step(hosts[1], replies[1]), replies[2]));
    }
    if len > 3 {
        assert(answers(prepare_step(hosts[2], replies[2]), replies[3]));
        let window = replies[1]->Window_0->Ok_0;
        assert(prepared_for(hosts, replies, window));
    }
    if len > 4 {
        assert(answers(prepare_step(hosts[3], replies[3]), replies[4]));
    }
    if i + 1 < len {
        assert(answers(prepare_step(hosts[i], replies[i]), replies[i + 1]));
    }
}

/// Whether code runs where a worker can be attached.
pub open spec fn on_dedicated_worker(scope: Scope) -> bool {
    !scope.page && scope.dedicated_worker
}

/// A host that was prepared can be attached to a worker that has no canvas, once: no worker is
/// attached to it again.
pub proof fn law_host_attaches_once<H, C>(
    hosts: HostsView<H>,
    host: H,
    scope: Scope,
    other: Option<WorkerRunner<C>>,
    other_scope: Scope,
)
    requires
        on_dedicated_worker(scope),
    ensures
        ({
            let id = hosts.next;
            let waiting = hosts.register(host);
            let left = attach_hosts::<H, C>(None, waiting, id, scope);
            &&& attach_result::<H, C>(None, waiting, id, scope) == Ok::<
                H,
                AttachError,
            >(host)
            &&& attach_result::<H, C>(other, left, id, other_scope) is Err
            &&& attach_result::<H, C>(None, left, id, scope) == Err::<
                H,
                AttachError,
            >(AttachError::UnknownHost)
        }),
{
}

/// A worker has one canvas: once attached, it is not attached again, and keeps the runner it has.
pub proof fn law_worker_attaches_once<H, C>(
    hosts: HostsView<H>,
    id: u32,
    canvas: C,
    scope: Scope,
    now: Moment,
    more: HostsView<H>,
    other: u32,
    other_canvas: C,
    later: Moment,
)
    requires
        attach_result::<H, C>(None, hosts, id, scope) is Ok,
    ensures
        ({
            let slot = attach_slot(None, hosts, id, canvas, scope, now);
            &&& slot == Some(WorkerRunner::attached(id, canvas, now))
            &&& attach_result(slot, more, other, scope) == Err::<H, AttachError>(
                AttachError::Attached,
            )
            &&& attach_slot(slot, more, other, other_canvas, scope, later) == slot
        }),
{
}

/// A worker that is refused leaves everything as it was, and the host can still be attached.
pub proof fn law_refusal_changes_nothing<H, C>(
    slot: Option<WorkerRunner<C>>,
    hosts: HostsView<H>,
    id: u32,
    canvas: C,
    scope: Scope,
    now: Moment,
)
    requires
        attach_result(slot, hosts, id, scope) is Err,
    ensures
        attach_slot(slot, hosts, id, canvas, scope, now) == slot,
        attach_hosts(slot, hosts, id, scope) == hosts,
{
}

/// Something that happens to the hosts that wait.
pub enum HostChange<H> {
    /// A host is registered.
    Register(H),
    /// The host of a number is asked for.
    Take(u32),
}

/// What a sequence of changes leaves.
pub open spec fn hosts_after<H>(hosts: HostsView<H>, changes: Seq<HostChange<H>>) -> HostsView<H>
    decreases changes.len(),
{
    if changes.len() == 0 {
        hosts
    } else {
        let before = hosts_after(hosts, changes.drop_last());
        match changes.last() {
            HostChange::Register(host) => before.register(host),
            HostChange::Take(id) => before.take(id),
        }
    }
}

/// How many hosts are registered in a sequence of changes.
pub open spec fn registrations<H>(changes: Seq<HostChange<H>>) -> nat
    decreases changes.len(),
{
    if changes.len() == 0 {
        0
    } else {
        registrations(changes.drop_last()) + if changes.last() is Register {
            1nat
        } else {
            0nat
        }
    }
}

/// The number of a host that is registered so many hosts after another.
pub open spec fn number_after(first: u32, count: int) -> u32 {
    ((first + count) % 0x1_0000_0000) as u32
}

/// The number under which a change registers its host.
pub open spec fn number_at<H>(hosts: HostsView<H>, changes: Seq<HostChange<H>>, i: int) -> u32 {
    number_after(hosts.next, registrations(changes.take(i)) as int)
}

/// Numbers are given in order, whatever is taken in between: the next is as far from the first as
/// hosts were registered.
pub proof fn law_numbers_in_order<H>(hosts: HostsView<H>, changes: Seq<HostChange<H>>)
    ensures
        hosts_after(hosts, changes).next == number_after(
            hosts.next,
            registrations(changes) as int,
        ),
        hosts.next + registrations(changes) <= u32::MAX ==> hosts_after(hosts, changes).next
            == hosts.next + registrations(changes),
    decreases changes.len(),
{
    if changes.len() > 0 {
        law_numbers_in_order(hosts, changes.drop_last());
    }
}

/// Hosts do not get in each other's way, as long as the numbers last: a host is found under its
/// number until that is taken, whatever is registered and taken besides.
pub proof fn law_hosts_apart<H>(hosts: HostsView<H>, changes: Seq<HostChange<H>>, i: int)
    requires
        registrations(changes) <= 0x1_0000_0000,
        0 <= i < changes.len(),
        changes[i] is Register,
        forall|j: int|
            i < j < changes.len() ==> #[trigger] changes[j] != HostChange::<H>::Take(
                number_at(hosts, changes, i),
            ),
    ensures
        hosts_after(hosts, changes).host(number_at(hosts, changes, i)) == Some(
            changes[i]->Register_0,
        ),
    decreases changes.len(),
{
    let earlier = changes.drop_last();
    law_numbers_in_order(hosts, earlier);
    assert(earlier.take(i) =~= changes.take(i));
    if i == earlier.len() {
        assert(changes.take(i) =~= earlier);
    } else {
        assert(earlier[i] == changes[i]);
        assert forall|j: int| i < j < earlier.len() implies #[trigger] earlier[j] != HostChange::<
            H,
        >::Take(number_at(hosts, earlier, i)) by {
            assert(earlier[j] == changes[j]);
        }
        law_hosts_apart(hosts, earlier, i);
        registrations_grow(earlier, i);
        if changes.last() is Register {
            numbers_differ(
                hosts.next,
                registrations(changes.take(i)) as int,
                registrations(earlier) as int,
            );
        } else {
            assert(changes[changes.len() - 1] != HostChange::<H>::Take(
                number_at(hosts, changes, i),
            ));
        }
    }
}

proof fn registrations_grow<H>(changes: Seq<HostChange<H>>, i: int)
    requires
        0 <= i < changes.len(),
        changes[i] is Register,
    ensures
        registrations(changes.take(i)) < registrations(changes),
    decreases changes.len(),
{
    let earlier = changes.drop_last();
    assert(changes.take(i) =~= earlier.take(i));
    if i == earlier.len() {
        assert(changes.take(i) =~= earlier);
    } else {
        assert(earlier[i] == changes[i]);
        registrations_grow(earlier, i);
    }
}

proof fn numbers_differ(first: u32, i: int, j: int)
    requires
        0 <= i < j < 0x1_0000_0000,
    ensures
        number_after(first, i) != number_after(first, j),
{
}

/// What is left of a sequence of events of the page: not the first time that it is resumed, nor
/// the marks of its cycles.
pub open spec fn passed_on(events: Seq<Event>) -> Seq<ForwardedEvent>
    decreases events.len(),
{
    if events.len() == 0 {
        seq![]
    } else {
        let event = events.last();
        let start = event == Event::Resumed && !events.drop_last().contains(Event::Resumed);
        if start || event is NewEvents || event is AboutToWait {
            passed_on(events.drop_last())
        } else {
            passed_on(events.drop_last()).push(parcel(event))
        }
    }
}

/// The page has had a sequence of events.
pub open spec fn page_run(shared: SharedView, events: Seq<Event>) -> (Forwarder, SharedView)
    decreases events.len(),
{
    if events.len() == 0 {
        (Forwarder { initial_resume: true }, shared)
    } else {
        let (forwarder, shared) = page_run(shared, events.drop_last());
        (forwarder.having(events.last()), forwarder.forwarding(shared, events.last()))
    }
}

/// The worker gets every event of the page, in order, but for the marks of the page's own cycles
/// and the first time that it is resumed, which is its own start. A page that is resumed again is
/// not held back.
pub proof fn law_page_start_is_held_back(shared: SharedView, events: Seq<Event>)
    requires
        !shared.closed,
    ensures
        page_run(shared, events).0.initial_resume == !events.contains(Event::Resumed),
        page_run(shared, events).1.events == shared.events + passed_on(events),
        !page_run(shared, events).1.closed,
    decreases events.len(),
{
    if events.len() == 0 {
        assert(shared.events + passed_on(events) =~= shared.events);
    } else {
        let earlier = events.drop_last();
        law_page_start_is_held_back(shared, earlier);
        assert(events =~= earlier.push(events.last()));
        assert(events.contains(Event::Resumed) == (earlier.contains(Event::Resumed)
            || events.last() == Event::Resumed)) by {
            if earlier.contains(Event::Resumed) {
                let i = choose|i: int| 0 <= i < earlier.len() && earlier[i] == Event::Resumed;
                assert(events[i] == Event::Resumed);
            }
            if events.last() == Event::Resumed {
                assert(events[events.len() - 1] == Event::Resumed);
            }
            if events.contains(Event::Resumed) && events.last() != Event::Resumed {
                let i = choose|i: int| 0 <= i < events.len() && events[i] == Event::Resumed;
                assert(earlier[i] == Event::Resumed);
            }
        }
        assert(page_run(shared, events).1.events =~= shared.events + passed_on(events));
    }
}

} // verus!
