use canvas_worker::callback::{Callback, FrameRequest, Teardown};
use canvas_worker::event::{
    ControlFlow, PollStrategy, WaitUntilStrategy, WindowId, WorkerRedrawStrategy,
};
use canvas_worker::host::{prepare_worker, Hosts, PageAction, PageReply, PrepareError};
use canvas_worker::runner::{FrameChange, OsError, WorkerRunner};
use canvas_worker::shared::Shared;
use canvas_worker::time::Moment;
use canvas_worker::worker::{
    attach_worker, attach_worker_at, set_worker_redraw_strategy, window_handle, worker_attached,
    AttachError, HandleError, Scope,
};

const WORKER: Scope = Scope { page: false, dedicated_worker: true };
const NOW: Moment = Moment { nanos: 5 };

type Slot = Option<WorkerRunner<&'static str>>;

#[test]
fn preparing_runs_through_its_steps() {
    let mut hosts: Hosts<char> = Hosts::new();
    assert!(matches!(
        prepare_worker(&mut hosts, PageReply::Page(true)),
        PageAction::CreateWindow
    ));
    assert!(matches!(
        prepare_worker(&mut hosts, PageReply::Window(Ok(WindowId(8)))),
        PageAction::TransferCanvas(WindowId(8))
    ));
    let reply = PageReply::Canvas { window_id: WindowId(8), transferred: true };
    match prepare_worker(&mut hosts, reply) {
        PageAction::Share(shared) => assert_eq!(shared.window_id, WindowId(8)),
        _ => panic!("no state to share"),
    }
    assert!(matches!(prepare_worker(&mut hosts, PageReply::Host('a')), PageAction::Run(1)));
    assert!(matches!(prepare_worker(&mut hosts, PageReply::Host('b')), PageAction::Run(2)));
    assert_eq!(hosts.take(1), Some('a'));
    assert_eq!(hosts.take(2), Some('b'));
}

#[test]
fn preparing_fails_off_the_page() {
    let mut hosts: Hosts<char> = Hosts::new();
    match prepare_worker(&mut hosts, PageReply::Page(false)) {
        PageAction::Fail(error) => {
            assert_eq!(error, PrepareError::NotAPage);
            assert_eq!(error.message(), Some("worker host requires a page"));
        }
        _ => panic!("not refused"),
    }
}

#[test]
fn preparing_fails_without_a_window() {
    let mut hosts: Hosts<char> = Hosts::new();
    match prepare_worker(&mut hosts, PageReply::Window(Err("no canvas".to_string()))) {
        PageAction::Fail(error) => assert_eq!(error.message(), Some("no canvas")),
        _ => panic!("not refused"),
    }
}

#[test]
fn preparing_fails_without_the_canvas() {
    let mut hosts: Hosts<char> = Hosts::new();
    let reply = PageReply::Canvas { window_id: WindowId(8), transferred: false };
    match prepare_worker(&mut hosts, reply) {
        PageAction::Fail(error) => assert_eq!(error.message(), None),
        _ => panic!("not refused"),
    }
    assert_eq!(hosts.register('a'), 1);
}

/// Answers each action of a preparation, and returns the number of the host.
fn prepare(
    hosts: &mut Hosts<WindowId>,
    page: bool,
    window: Result<WindowId, String>,
    transferred: bool,
) -> Result<u32, PrepareError> {
    let mut action = prepare_worker(hosts, PageReply::Page(page));
    loop {
        let reply = match action {
            PageAction::CreateWindow => PageReply::Window(window.clone()),
            PageAction::TransferCanvas(window_id) => PageReply::Canvas { window_id, transferred },
            PageAction::Share(shared) => PageReply::Host(shared.window_id),
            PageAction::Run(id) => return Ok(id),
            PageAction::Fail(error) => return Err(error),
        };
        action = prepare_worker(hosts, reply);
    }
}

#[test]
fn host_waits_only_after_a_whole_preparation() {
    let mut hosts: Hosts<WindowId> = Hosts::new();
    let window = WindowId(8);
    assert_eq!(prepare(&mut hosts, false, Ok(window), true), Err(PrepareError::NotAPage));
    assert_eq!(
        prepare(&mut hosts, true, Err("no canvas".to_string()), true),
        Err(PrepareError::Window("no canvas".to_string()))
    );
    assert_eq!(prepare(&mut hosts, true, Ok(window), false), Err(PrepareError::Canvas));
    assert!(hosts.hosts.is_empty());
    assert_eq!(prepare(&mut hosts, true, Ok(window), true), Ok(1));
    assert_eq!(prepare(&mut hosts, true, Ok(WindowId(9)), true), Ok(2));
    assert_eq!(hosts.take(1), Some(window));
    assert_eq!(hosts.take(2), Some(WindowId(9)));
}

#[test]
fn host_numbers_wrap_around() {
    let mut hosts: Hosts<char> = Hosts::new();
    hosts.next = u32::MAX;
    assert_eq!(hosts.register('a'), u32::MAX);
    assert_eq!(hosts.register('b'), 0);
    assert_eq!(hosts.take(u32::MAX), Some('a'));
    assert_eq!(hosts.take(0), Some('b'));
    assert_eq!(hosts.take(0), None);
}

#[test]
fn taken_numbers_are_not_given_again() {
    let mut hosts: Hosts<char> = Hosts::new();
    assert_eq!(hosts.register('a'), 1);
    assert_eq!(hosts.take(1), Some('a'));
    assert_eq!(hosts.register('b'), 2);
    assert_eq!(hosts.take(1), None);
    assert_eq!(hosts.register('c'), 3);
    assert_eq!(hosts.take(2), Some('b'));
}

#[test]
fn host_attaches_once() {
    let mut hosts: Hosts<char> = Hosts::new();
    let id = hosts.register('a');
    let mut first: Slot = None;
    let mut second: Slot = None;
    assert!(!worker_attached(&first));
    assert_eq!(attach_worker_at(&mut first, &mut hosts, id, "one", WORKER, NOW), Ok('a'));
    assert!(worker_attached(&first));
    assert_eq!(
        attach_worker_at(&mut second, &mut hosts, id, "two", WORKER, NOW),
        Err(AttachError::UnknownHost)
    );
    assert!(!worker_attached(&second));
}

#[test]
fn worker_attaches_once() {
    let mut hosts: Hosts<char> = Hosts::new();
    let first = hosts.register('a');
    let second = hosts.register('b');
    let mut slot: Slot = None;
    assert_eq!(attach_worker_at(&mut slot, &mut hosts, first, "one", WORKER, NOW), Ok('a'));
    assert_eq!(
        attach_worker_at(&mut slot, &mut hosts, second, "two", WORKER, NOW),
        Err(AttachError::Attached)
    );
    assert_eq!(slot.as_ref().unwrap().canvas, "one");
    assert_eq!(hosts.take(second), Some('b'));
}

#[test]
fn attaching_needs_a_dedicated_worker() {
    let mut hosts: Hosts<char> = Hosts::new();
    let id = hosts.register('a');
    let mut slot: Slot = None;
    for scope in [
        Scope { page: true, dedicated_worker: false },
        Scope { page: true, dedicated_worker: true },
        Scope { page: false, dedicated_worker: false },
    ] {
        assert_eq!(
            attach_worker_at(&mut slot, &mut hosts, id, "one", scope, NOW),
            Err(AttachError::NotDedicated)
        );
    }
    let refused = attach_worker(&mut slot, &mut hosts, id, "one", Scope { page: true, ..WORKER });
    assert_eq!(refused.err(), Some(AttachError::NotDedicated));
    assert!(slot.is_none());
    let attachment = attach_worker(&mut slot, &mut hosts, id, "one", WORKER).unwrap();
    assert_eq!(attachment.host, 'a');
    let since = slot.as_ref().unwrap().waiting_since;
    assert!(0 <= since.nanos && since.nanos <= attachment.clock.now().nanos);
    let again = attach_worker(&mut slot, &mut hosts, id, "two", WORKER);
    assert_eq!(again.err(), Some(AttachError::Attached));
    assert_eq!(slot.unwrap().canvas, "one");
    let mut other: Slot = None;
    let unknown = attach_worker(&mut other, &mut hosts, id, "two", WORKER);
    assert_eq!(unknown.err(), Some(AttachError::UnknownHost));
}

#[test]
fn attach_errors_have_messages() {
    assert_eq!(
        AttachError::NotDedicated.message(),
        "attach_worker requires a dedicated worker"
    );
    assert_eq!(AttachError::Attached.message(), "a worker window is already attached");
    assert_eq!(AttachError::UnknownHost.message(), "unknown or already attached worker host");
    assert_eq!(OsError::WindowClaimed.message(), "worker mode supports one pre-created canvas");
}

fn attached() -> Slot {
    let mut hosts: Hosts<char> = Hosts::new();
    let id = hosts.register('a');
    let mut slot: Slot = None;
    attach_worker_at(&mut slot, &mut hosts, id, "one", WORKER, NOW).unwrap();
    slot
}

#[test]
fn attached_worker_starts_out_idle() {
    let runner = attached().unwrap();
    assert_eq!(runner.host_id(), 1);
    assert_eq!(runner.control_flow(), ControlFlow::Wait);
    assert_eq!(runner.poll_strategy(), PollStrategy::Scheduler);
    assert_eq!(runner.wait_until_strategy(), WaitUntilStrategy::Scheduler);
    assert_eq!(runner.redraw_strategy, WorkerRedrawStrategy::default());
    assert_eq!(runner.waiting_since, NOW);
    assert!(!runner.exiting());
    assert!(runner.is_idle());
}

#[test]
fn canvas_belongs_to_its_host() {
    let slot = attached();
    assert_eq!(window_handle(&slot, 1), Ok(&"one"));
    assert_eq!(window_handle(&slot, 2), Err(HandleError::Unavailable));
    let none: Slot = None;
    assert_eq!(window_handle(&none, 1), Err(HandleError::Unavailable));
}

#[test]
fn canvas_outlives_the_loop() {
    let mut slot = attached();
    let mut shared = Shared::new(WindowId(8));
    let runner = slot.as_mut().unwrap();
    runner.exit(&mut shared);
    assert!(runner.run(&shared));
    while !runner.is_idle() {
        runner.step_at(&mut shared, NOW);
    }
    assert!(shared.closed);
    assert_eq!(window_handle(&slot, 1), Ok(&"one"));
}

#[test]
fn redraw_strategy_needs_a_worker() {
    let mut none: Slot = None;
    assert_eq!(
        set_worker_redraw_strategy(&mut none, WorkerRedrawStrategy::Immediate),
        (false, FrameChange::Keep)
    );
    assert!(none.is_none());
}

#[test]
fn redraw_strategy_reschedules_a_pending_frame() {
    let mut slot = attached();
    assert_eq!(
        set_worker_redraw_strategy(&mut slot, WorkerRedrawStrategy::Immediate),
        (true, FrameChange::Keep)
    );
    let schedule = slot.as_mut().unwrap().request_redraw();
    assert_eq!(schedule, Some(WorkerRedrawStrategy::Immediate));
    assert_eq!(
        set_worker_redraw_strategy(&mut slot, WorkerRedrawStrategy::Immediate),
        (true, FrameChange::Keep)
    );
    assert_eq!(
        set_worker_redraw_strategy(&mut slot, WorkerRedrawStrategy::AnimationFrame),
        (true, FrameChange::Reschedule(WorkerRedrawStrategy::AnimationFrame))
    );
    assert!(slot.as_ref().unwrap().frame);
    slot.as_mut().unwrap().exit = true;
    assert_eq!(
        set_worker_redraw_strategy(&mut slot, WorkerRedrawStrategy::Immediate),
        (true, FrameChange::Cancel)
    );
    assert!(!slot.as_ref().unwrap().frame);
}

#[test]
fn callbacks_are_dropped_as_they_were_made() {
    assert_eq!(Callback::immediate().teardown(), Teardown::ClosePort);
    assert_eq!(Callback::timeout(7).teardown(), Teardown::ClearTimeout(7));
    match Callback::frame(Some(9)) {
        FrameRequest::Scheduled(callback) => {
            assert_eq!(callback.teardown(), Teardown::CancelAnimationFrame(9));
        }
        FrameRequest::SetTimeout(_) => panic!("refused"),
    }
    assert_eq!(Callback::frame(None), FrameRequest::SetTimeout(16));
}
