//! The page's side: canvases that are ready for a worker, and what the page passes on.

use std::collections::BTreeMap;
use vstd::prelude::*;

use crate::event::{Event, WindowId};
use crate::shared::{Shared, SharedView};

verus! {

/// The hosts that wait for a worker, each under its number.
pub struct Hosts<H> {
    /// The number of the next host.
    pub next: u32,
    pub hosts: BTreeMap<u32, H>,
}

/// The contents of a [`Hosts`].
pub struct HostsView<H> {
    pub next: u32,
    pub hosts: Map<u32, H>,
}

impl<H> View for Hosts<H> {
    type V = HostsView<H>;

    open spec fn view(&self) -> HostsView<H> {
        HostsView { next: self.next, hosts: self.hosts@ }
    }
}

impl<H> HostsView<H> {
    /// A host is added under the next number.
    pub open spec fn register(self, host: H) -> HostsView<H> {
        HostsView {
            next: if self.next == u32::MAX {
                0
            } else {
                (self.next + 1) as u32
            },
            hosts: self.hosts.insert(self.next, host),
        }
    }

    /// A host is taken out.
    pub open spec fn take(self, id: u32) -> HostsView<H> {
        HostsView { hosts: self.hosts.remove(id), ..self }
    }

    /// The host under a number.
    pub open spec fn host(self, id: u32) -> Option<H> {
        if self.hosts.contains_key(id) {
            Some(self.hosts[id])
        } else {
            None
        }
    }
}

impl<H> Hosts<H> {
    /// No hosts. The first will have the number one.
    pub fn new() -> (hosts: Hosts<H>)
        ensures
            hosts@ == (HostsView { next: 1u32, hosts: Map::<u32, H>::empty() }),
    {
        Hosts { next: 1, hosts: BTreeMap::new() }
    }

    /// Adds a host, and returns its number.
    pub fn register(&mut self, host: H) -> (id: u32)
        ensures
            id == old(self)@.next,
            final(self)@ == old(self)@.register(host),
    {
        let id: u32 = self.next;
        self.next = id.wrapping_add(1);
        self.hosts.insert(id, host);
        id
    }

    /// Takes a host out, if it is there.
    pub fn take(&mut self, id: u32) -> (host: Option<H>)
        ensures
            host == old(self)@.host(id),
            final(self)@ == old(self)@.take(id),
    {
        self.hosts.remove(&id)
    }
}

/// A canvas could not be prepared.
#[derive(Debug, PartialEq, Eq)]
pub enum PrepareError {
    /// This is not the page.
    NotAPage,
    /// The window could not be created, for this reason.
    Window(String),
    /// The browser did not hand over control of the canvas. It has its own reason.
    Canvas,
}

impl PrepareError {
    /// The message of the error, where it is not the browser's.
    pub fn message(&self) -> (message: Option<&str>)
        ensures
            match *self {
                PrepareError::NotAPage => message is Some && message->0@
                    == "worker host requires a page"@,
                PrepareError::Window(reason) => message is Some && message->0@ == reason@,
                PrepareError::Canvas => message is None,
            },
    {
        match self {
            PrepareError::NotAPage => Some("worker host requires a page"),
            PrepareError::Window(reason) => Some(reason.as_str()),
            PrepareError::Canvas => None,
        }
    }
}

/// What the page has found out while a canvas is prepared.
pub enum PageReply<H> {
    /// Whether this is the page.
    Page(bool),
    /// The window for the canvas was created, or it was not.
    Window(Result<WindowId, String>),
    /// The canvas was handed over, or it was not.
    Canvas { window_id: WindowId, transferred: bool },
    /// The host is complete.
    Host(H),
}

/// What the page does next while a canvas is prepared.
pub enum PageAction {
    /// Create a window for the canvas.
    CreateWindow,
    /// Take the canvas of this window out of the page's control.
    TransferCanvas(WindowId),
    /// Make a host that shares this with the worker.
    Share(Shared),
    /// Run the page's loop for the host of this number. The canvas is ready.
    Run(u32),
    /// Give up.
    Fail(PrepareError),
}

/// What the page does next, by what it is about.
pub enum PageStep {
    CreateWindow,
    TransferCanvas(WindowId),
    Share(SharedView),
    Run(u32),
    Fail(PrepareError),
}

impl View for PageAction {
    type V = PageStep;

    open spec fn view(&self) -> PageStep {
        match *self {
            PageAction::CreateWindow => PageStep::CreateWindow,
            PageAction::TransferCanvas(window_id) => PageStep::TransferCanvas(window_id),
            PageAction::Share(shared) => PageStep::Share(shared@),
            PageAction::Run(id) => PageStep::Run(id),
            PageAction::Fail(error) => PageStep::Fail(error),
        }
    }
}

/// What the page does next after a reply.
pub open spec fn prepare_step<H>(hosts: HostsView<H>, reply: PageReply<H>) -> PageStep {
    match reply {
        PageReply::Page(true) => PageStep::CreateWindow,
        PageReply::Page(false) => PageStep::Fail(PrepareError::NotAPage),
        PageReply::Window(Ok(window_id)) => PageStep::TransferCanvas(window_id),
        PageReply::Window(Err(reason)) => PageStep::Fail(PrepareError::Window(reason)),
        PageReply::Canvas { window_id, transferred: true } => PageStep::Share(
            SharedView::fresh(window_id),
        ),
        PageReply::Canvas { transferred: false, .. } => PageStep::Fail(PrepareError::Canvas),
        PageReply::Host(_) => PageStep::Run(hosts.next),
    }
}

/// The hosts that wait after a reply.
pub open spec fn prepare_hosts<H>(hosts: HostsView<H>, reply: PageReply<H>) -> HostsView<H> {
    match reply {
        PageReply::Host(host) => hosts.register(host),
        _ => hosts,
    }
}

/// Prepares one page canvas for an application hosted in a dedicated worker, reply by reply: the
/// first says whether this is the page, and each of the others answers the action before. Where
/// the canvas is ready, the host has the number that [`crate::worker::attach_worker`] takes.
pub fn prepare_worker<H>(hosts: &mut Hosts<H>, reply: PageReply<H>) -> (action: PageAction)
    ensures
        action@ == prepare_step(old(hosts)@, reply),
        final(hosts)@ == prepare_hosts(old(hosts)@, reply),
        action matches PageAction::Share(shared) ==> shared.wf(),
{
    match reply {
        PageReply::Page(page) => {
            if page {
                PageAction::CreateWindow
            } else {
                PageAction::Fail(PrepareError::NotAPage)
            }
        },
        PageReply::Window(Ok(window_id)) => PageAction::TransferCanvas(window_id),
        PageReply::Window(Err(reason)) => PageAction::Fail(PrepareError::Window(reason)),
        PageReply::Canvas { window_id, transferred } => {
            if transferred {
                PageAction::Share(Shared::new(window_id))
            } else {
                PageAction::Fail(PrepareError::Canvas)
            }
        },
        PageReply::Host(host) => PageAction::Run(hosts.register(host)),
    }
}

/// Passes the events of the page's loop on to the worker. The worker has its own start, so the one
/// of the page stays behind: the first time that the page is resumed is not passed on.
#[derive(Clone, Copy, Debug, PartialEq, Eq, Structural)]
pub struct Forwarder {
    /// Whether the page has yet to be resumed for the first time.
    pub initial_resume: bool,
}

impl Forwarder {
    /// The page has not been resumed yet.
    pub fn new() -> (forwarder: Forwarder)
        ensures
            forwarder == (Forwarder { initial_resume: true }),
    {
        Forwarder { initial_resume: true }
    }

    /// Whether an event stays behind as the page's start.
    pub open spec fn holds_back(self, event: Event) -> bool {
        self.initial_resume && event == Event::Resumed
    }

    /// The page has had an event.
    pub open spec fn having(self, event: Event) -> Forwarder {
        Forwarder { initial_resume: self.initial_resume && event != Event::Resumed }
    }

    /// What is shared after the page has had an event.
    pub open spec fn forwarding(self, shared: SharedView, event: Event) -> SharedView {
        if self.holds_back(event) {
            shared
        } else {
            shared.forward(event)
        }
    }

    /// Passes an event on, and says whether it is queued for the worker.
    pub fn page_event(&mut self, shared: &mut Shared, event: Event) -> (taken: bool)
        requires
            old(shared).wf(),
        ensures
            final(shared).wf(),
            *final(self) == old(self).having(event),
            final(shared)@ == old(self).forwarding(old(shared)@, event),
            taken == (!old(self).holds_back(event) && old(shared)@.takes(event)),
    {
        if let Event::Resumed = event {
            let initial = self.initial_resume;
            self.initial_resume = false;
            if initial {
                return false;
            }
        }
        shared.forward(event)
    }
}

} // verus!
