//! What the page does to prepare a canvas, which hosts wait for a worker, and what the page passes
//! on.

use vstd::prelude::*;

use crate::attaching::{law_page_start_is_held_back, page_run};
use crate::event::Event;
use crate::host::{prepare_worker, Forwarder, Hosts, PageAction, PageReply, PrepareError};
use crate::laws::passing::{carries, unpacked, with_news};
use crate::shared::{Shared, SharedView};

verus! {

/// The hosts that wait are those that are held.
pub proof fn law_hosts_are_as_held<H>(hosts: Hosts<H>)
    ensures
        hosts@.next == hosts.next,
        hosts@.hosts == hosts.hosts@,
{
}

/// At first no host waits, and the first will have the number one.
pub proof fn law_no_host_waits_at_first<H>(hosts: Hosts<H>)
    requires
        call_ensures(Hosts::<H>::new, (), hosts),
    ensures
        hosts@.next == 1,
        forall|id: u32| !(#[trigger] hosts@.hosts.contains_key(id)),
{
}

/// A host waits under the number that comes back, and every other stays as it was. The numbers go
/// up by one, and start anew at zero.
pub proof fn law_host_waits_under_its_number<H>(hosts: &mut Hosts<H>, host: H, id: u32)
    requires
        call_ensures(Hosts::<H>::register, (hosts, host), id),
    ensures
        id == old(hosts)@.next,
        id < u32::MAX ==> final(hosts)@.next == id + 1,
        id == u32::MAX ==> final(hosts)@.next == 0,
        final(hosts)@.hosts == old(hosts)@.hosts.insert(id, host),
{
}

/// The host of a number is taken, if there is one, and every other stays as it was.
pub proof fn law_host_is_taken<H>(hosts: &mut Hosts<H>, id: u32, host: Option<H>)
    requires
        call_ensures(Hosts::<H>::take, (hosts, id), host),
    ensures
        host is Some <==> old(hosts)@.hosts.contains_key(id),
        host is Some ==> host->0 == old(hosts)@.hosts[id],
        final(hosts)@.hosts == old(hosts)@.hosts.remove(id),
        final(hosts)@.next == old(hosts)@.next,
{
}

/// A host that was registered is the one that is taken under its number, and only once.
pub proof fn law_registered_host_is_taken_once<H>(
    page: &mut Hosts<H>,
    host: H,
    id: u32,
    worker: &mut Hosts<H>,
    first: Option<H>,
    again: &mut Hosts<H>,
    second: Option<H>,
)
    requires
        call_ensures(Hosts::<H>::register, (page, host), id),
        call_ensures(Hosts::<H>::take, (worker, id), first),
        call_ensures(Hosts::<H>::take, (again, id), second),
    ensures
        old(worker)@ == final(page)@ ==> first == Some(host),
        old(again)@ == final(worker)@ ==> second is None,
{
    law_host_waits_under_its_number(page, host, id);
    law_host_is_taken(worker, id, first);
    law_host_is_taken(again, id, second);
}

/// Each reply leads on to what the page does next, for the very window that the reply is about.
/// What fails, fails for its own reason. Only a complete host is registered, and is run under the
/// number that it is registered under.
pub proof fn law_reply_leads_on<H>(hosts: &mut Hosts<H>, reply: PageReply<H>, action: PageAction)
    requires
        call_ensures(prepare_worker::<H>, (hosts, reply), action),
    ensures
        match reply {
            PageReply::Page(page) => {
                &&& page ==> action is CreateWindow
                &&& !page ==> action is Fail && action->Fail_0 is NotAPage
            },
            PageReply::Window(window) => match window {
                Ok(id) => action is TransferCanvas && action->TransferCanvas_0 == id,
                Err(reason) => action is Fail && action->Fail_0 == PrepareError::Window(reason),
            },
            PageReply::Canvas { window_id, transferred } => {
                &&& transferred ==> {
                    &&& action is Share
                    &&& action->Share_0.wf()
                    &&& action->Share_0@.window_id == window_id
                    &&& action->Share_0@.events.len() == 0
                    &&& action->Share_0@.user_events == 0
                    &&& !action->Share_0@.notified
                    &&& !action->Share_0@.closed
                    &&& action->Share_0@.parked is None
                    &&& action->Share_0@.woken.len() == 0
                }
                &&& !transferred ==> action is Fail && action->Fail_0 is Canvas
            },
            PageReply::Host(host) => {
                &&& action is Run && action->Run_0 == old(hosts)@.next
                &&& final(hosts)@.hosts == old(hosts)@.hosts.insert(old(hosts)@.next, host)
                &&& old(hosts)@.next < u32::MAX ==> final(hosts)@.next == old(hosts)@.next + 1
                &&& old(hosts)@.next == u32::MAX ==> final(hosts)@.next == 0
            },
        },
        !(reply is Host) ==> final(hosts)@ == old(hosts)@,
{
}

/// Where a window could not be created, the reason is the message.
pub proof fn law_reason_is_told(error: &PrepareError, message: Option<&str>)
    requires
        call_ensures(PrepareError::message, (error,), message),
    ensures
        *error is Window ==> message is Some && message->0@ == (*error)->Window_0@,
        *error is Canvas <==> message is None,
{
}

/// The first time that the page is resumed stays behind, and nothing else that the page would pass
/// on: every other event is queued for the worker as it is.
pub proof fn law_first_resume_stays_behind(
    forwarder: &mut Forwarder,
    shared: &mut Shared,
    event: Event,
    taken: bool,
)
    requires
        call_ensures(Forwarder::page_event, (forwarder, shared, event), taken),
    ensures
        final(forwarder).initial_resume <==> old(forwarder).initial_resume && !(event is Resumed),
        event is NewEvents || event is AboutToWait || old(shared)@.closed ==> !taken,
        event is Resumed && old(forwarder).initial_resume ==> !taken,
        event is Resumed && !old(forwarder).initial_resume && !old(shared)@.closed ==> taken,
        !(event is NewEvents || event is AboutToWait || event is Resumed) && !old(shared)@.closed
            ==> taken,
        !taken ==> final(shared)@ == old(shared)@,
        taken ==> {
            let queued = final(shared)@.events.last();
            &&& queued.event == event
            &&& carries(queued, event)
            &&& final(shared)@.events == old(shared)@.events.push(queued)
            &&& final(shared)@ == with_news(
                SharedView { events: final(shared)@.events, ..old(shared)@ },
            )
        },
{
}

/// At first the page has not been resumed.
pub proof fn law_page_is_not_resumed_at_first(forwarder: Forwarder)
    requires
        call_ensures(Forwarder::new, (), forwarder),
    ensures
        forwarder.initial_resume,
{
}

/// What the worker is to get of a sequence of events of the page: not the marks of the page's
/// cycles, nor the first time that it is resumed.
pub open spec fn for_the_worker(events: Seq<Event>) -> Seq<Event>
    decreases events.len(),
{
    if events.len() == 0 {
        seq![]
    } else {
        let earlier = for_the_worker(events.drop_last());
        match events.last() {
            Event::NewEvents(_) | Event::AboutToWait => earlier,
            Event::Resumed => if events.drop_last().contains(Event::Resumed) {
                earlier.push(Event::Resumed)
            } else {
                earlier
            },
            event => earlier.push(event),
        }
    }
}

/// The worker gets the page's events as they are and in order, as long as its loop has not ended.
pub proof fn law_page_events_arrive_unchanged(shared: SharedView, events: Seq<Event>)
    requires
        !shared.closed,
    ensures
        unpacked(page_run(shared, events).1.events) == unpacked(shared.events) + for_the_worker(
            events,
        ),
    decreases events.len(),
{
    if events.len() == 0 {
        assert(unpacked(shared.events) + for_the_worker(events) =~= unpacked(shared.events));
    } else {
        let earlier = events.drop_last();
        law_page_events_arrive_unchanged(shared, earlier);
        law_page_start_is_held_back(shared, earlier);
        let before = page_run(shared, earlier).1.events;
        let after = page_run(shared, events).1.events;
        if for_the_worker(events).len() > for_the_worker(earlier).len() {
            assert(unpacked(after) =~= unpacked(before).push(events.last()));
            assert(unpacked(after) =~= unpacked(shared.events) + for_the_worker(events));
        } else {
            assert(after =~= before);
        }
    }
}

} // verus!
