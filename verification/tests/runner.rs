use canvas_worker::event::{
    ControlFlow, Event, PhysicalSize, PollStrategy, StartCause, WaitUntilStrategy, WindowEvent,
    WindowId, WorkerRedrawStrategy,
};
use canvas_worker::host::Hosts;
use canvas_worker::runner::{Action, OsError, Timer, Wakeup, WorkerRunner};
use canvas_worker::shared::Shared;
use canvas_worker::time::{Clock, Moment};
use canvas_worker::worker::{attach_worker_at, Scope};

const WINDOW: WindowId = WindowId(4);
const SIZE: PhysicalSize = PhysicalSize { width: 320, height: 240 };
const WIDER: PhysicalSize = PhysicalSize { width: 420, height: 240 };

fn at(millis: i128) -> Moment {
    Moment { nanos: millis * 1_000_000 }
}

fn attached() -> (WorkerRunner<()>, Shared) {
    let mut hosts: Hosts<()> = Hosts::new();
    let id = hosts.register(());
    let mut slot: Option<WorkerRunner<()>> = None;
    let scope = Scope { page: false, dedicated_worker: true };
    attach_worker_at(&mut slot, &mut hosts, id, (), scope, at(0)).unwrap();
    (slot.unwrap(), Shared::new(WINDOW))
}

/// Finishes a cycle: the actions that come up, without those that ask for nothing.
fn finish(runner: &mut WorkerRunner<()>, shared: &mut Shared, now: Moment) -> Vec<Action> {
    let mut actions = Vec::new();
    while !runner.is_idle() {
        match runner.step_at(shared, now) {
            Action::Continue => {}
            Action::ReadSize(details) => {
                actions.push(Action::ReadSize(details));
                assert_eq!(runner.size_reply(SIZE), None);
            }
            action => actions.push(action),
        }
    }
    actions
}

fn started() -> (WorkerRunner<()>, Shared) {
    let (mut runner, mut shared) = attached();
    assert!(runner.run(&shared));
    finish(&mut runner, &mut shared, at(0));
    (runner, shared)
}

fn waited(since: i128) -> StartCause {
    StartCause::WaitCancelled { start: at(since), requested_resume: None }
}

fn other(number: u64) -> Event {
    Event::WindowEvent { window_id: WINDOW, event: WindowEvent::Other(number) }
}

fn redraw() -> Event {
    Event::WindowEvent { window_id: WINDOW, event: WindowEvent::RedrawRequested }
}

#[test]
fn first_cycle_resumes_the_application() {
    let (mut runner, mut shared) = attached();
    assert!(runner.run(&shared));
    assert_eq!(
        finish(&mut runner, &mut shared, at(3)),
        vec![
            Action::Emit(Event::NewEvents(StartCause::Init)),
            Action::Emit(Event::Resumed),
            Action::Emit(Event::AboutToWait),
            Action::Sleep,
        ]
    );
    assert_eq!(runner.waiting_since, at(3));
}

#[test]
fn cycle_tells_everything_in_order() {
    let (mut runner, mut shared) = started();
    shared.forward(other(1));
    shared.wake_user();
    shared.forward(Event::Suspended);
    shared.wake_user();
    assert!(runner.request_redraw().is_some());
    assert!(runner.frame_fired_at(&shared, at(9)));
    assert_eq!(
        finish(&mut runner, &mut shared, at(10)),
        vec![
            Action::Emit(Event::NewEvents(waited(0))),
            Action::Emit(other(1)),
            Action::Emit(Event::Suspended),
            Action::Emit(Event::UserEvent),
            Action::Emit(Event::UserEvent),
            Action::Emit(redraw()),
            Action::Emit(Event::AboutToWait),
            Action::Sleep,
        ]
    );
    assert!(runner.cycle(&shared, StartCause::Poll));
    assert_eq!(
        finish(&mut runner, &mut shared, at(11)),
        vec![
            Action::Emit(Event::NewEvents(StartCause::Poll)),
            Action::Emit(Event::AboutToWait),
            Action::Sleep,
        ]
    );
}

#[test]
fn nothing_is_told_without_an_application() {
    let (mut runner, mut shared) = attached();
    shared.forward(other(1));
    assert!(runner.cycle(&shared, StartCause::Poll));
    assert_eq!(
        finish(&mut runner, &mut shared, at(1)),
        vec![
            Action::Discard(Event::NewEvents(StartCause::Poll)),
            Action::Discard(other(1)),
            Action::Discard(Event::AboutToWait),
            Action::Sleep,
        ]
    );
    assert_eq!(shared.take_event(), None);
}

#[test]
fn cycles_do_not_nest() {
    let (mut runner, mut shared) = started();
    assert!(runner.cycle(&shared, StartCause::Poll));
    runner.step_at(&mut shared, at(1));
    assert!(!runner.cycle(&shared, StartCause::Poll));
    assert!(!runner.timer_fired_at(&shared, at(1)));
    assert_eq!(runner.woken_at(&shared, at(1)), Wakeup::Busy);
    assert_eq!(runner.step_at(&mut shared, at(1)), Action::Emit(Event::NewEvents(StartCause::Poll)));
}

#[test]
fn frame_within_a_cycle_is_drawn_in_it() {
    let (mut runner, mut shared) = started();
    runner.request_redraw();
    assert!(runner.cycle(&shared, StartCause::Poll));
    assert!(!runner.frame_fired_at(&shared, at(1)));
    assert!(finish(&mut runner, &mut shared, at(1)).contains(&Action::Emit(redraw())));
}

#[test]
fn wait_sets_no_timer() {
    let (mut runner, mut shared) = started();
    runner.cycle(&shared, StartCause::Poll);
    assert_eq!(finish(&mut runner, &mut shared, at(5)).pop(), Some(Action::Sleep));
    assert!(!runner.timer);
    assert_eq!(runner.wake_cause_at(at(7)), waited(5));
}

#[test]
fn poll_sets_an_immediate_timer() {
    let (mut runner, mut shared) = started();
    runner.set_control_flow(ControlFlow::Poll);
    runner.cycle(&shared, StartCause::Poll);
    assert_eq!(
        finish(&mut runner, &mut shared, at(5)).pop(),
        Some(Action::Arm(Timer::Immediate))
    );
    assert!(runner.timer);
    assert_eq!(runner.wake_cause_at(at(7)), StartCause::Poll);
    assert!(runner.timer_fired_at(&shared, at(7)));
    assert_eq!(runner.step_at(&mut shared, at(7)), Action::CancelTimer);
    assert_eq!(runner.step_at(&mut shared, at(7)), Action::Emit(Event::NewEvents(StartCause::Poll)));
}

#[test]
fn cycle_drops_the_timer_and_may_set_none() {
    let (mut runner, mut shared) = started();
    runner.set_control_flow(ControlFlow::Poll);
    runner.cycle(&shared, StartCause::Poll);
    finish(&mut runner, &mut shared, at(5));
    runner.set_control_flow(ControlFlow::Wait);
    runner.request_redraw();
    assert!(runner.frame_fired_at(&shared, at(6)));
    let actions = finish(&mut runner, &mut shared, at(6));
    assert_eq!(actions.first(), Some(&Action::CancelTimer));
    assert_eq!(actions.last(), Some(&Action::Sleep));
    assert!(!runner.timer);
}

#[test]
fn deadline_sets_a_timer_and_is_told_when_it_comes() {
    let (mut runner, mut shared) = started();
    let deadline = at(45);
    runner.set_control_flow(ControlFlow::WaitUntil(deadline));
    runner.cycle(&shared, StartCause::Poll);
    assert_eq!(
        finish(&mut runner, &mut shared, at(5)).pop(),
        Some(Action::Arm(Timer::Timeout(40)))
    );
    assert_eq!(
        runner.wake_cause_at(at(44)),
        StartCause::WaitCancelled { start: at(5), requested_resume: Some(deadline) }
    );
    let reached = StartCause::ResumeTimeReached { start: at(5), requested_resume: deadline };
    assert_eq!(runner.wake_cause_at(at(45)), reached);
    assert_eq!(runner.wake_cause_at(at(46)), reached);
}

#[test]
fn past_deadline_sets_an_immediate_timer() {
    let (mut runner, mut shared) = started();
    runner.set_control_flow(ControlFlow::WaitUntil(at(4)));
    runner.cycle(&shared, StartCause::Poll);
    assert_eq!(
        finish(&mut runner, &mut shared, at(5)).pop(),
        Some(Action::Arm(Timer::Immediate))
    );
}

#[test]
fn redraw_does_not_bypass_a_deadline() {
    let (mut runner, mut shared) = started();
    let deadline = at(45);
    runner.set_control_flow(ControlFlow::WaitUntil(deadline));
    runner.request_redraw();
    assert!(runner.frame_fired_at(&shared, at(20)));
    assert_eq!(
        finish(&mut runner, &mut shared, at(20)),
        vec![
            Action::Emit(Event::NewEvents(StartCause::WaitCancelled {
                start: at(0),
                requested_resume: Some(deadline),
            })),
            Action::Emit(redraw()),
            Action::Emit(Event::AboutToWait),
            Action::Arm(Timer::Timeout(25)),
        ]
    );
}

#[test]
fn one_frame_is_scheduled_at_a_time() {
    let (mut runner, shared) = started();
    assert_eq!(runner.request_redraw(), Some(WorkerRedrawStrategy::AnimationFrame));
    assert_eq!(runner.request_redraw(), None);
    assert!(runner.frame_fired_at(&shared, at(1)));
    assert_eq!(runner.request_redraw(), Some(WorkerRedrawStrategy::AnimationFrame));
}

#[test]
fn changed_answer_resizes_the_window() {
    let (mut runner, mut shared) = started();
    let event = Event::WindowEvent {
        window_id: WINDOW,
        event: WindowEvent::ScaleFactorChanged { details: 6, inner_size: Some(SIZE) },
    };
    for (reply, request) in [(WIDER, Some(WIDER)), (SIZE, None)] {
        shared.forward(event);
        shared.forward(other(2));
        runner.cycle(&shared, StartCause::Poll);
        runner.step_at(&mut shared, at(1));
        runner.step_at(&mut shared, at(1));
        assert_eq!(runner.step_at(&mut shared, at(1)), Action::Emit(event));
        assert_eq!(runner.step_at(&mut shared, at(1)), Action::ReadSize(6));
        assert_eq!(runner.step_at(&mut shared, at(1)), Action::ReadSize(6));
        assert_eq!(runner.size_reply(reply), request);
        assert_eq!(runner.size_reply(reply), None);
        assert_eq!(runner.step_at(&mut shared, at(1)), Action::Emit(other(2)));
        finish(&mut runner, &mut shared, at(1));
    }
}

#[test]
fn exit_ends_the_loop_after_the_cycle() {
    let (mut runner, mut shared) = started();
    runner.request_redraw();
    runner.exit(&mut shared);
    assert!(runner.exiting());
    assert!(shared.notified);
    assert_eq!(runner.woken_at(&shared, at(1)), Wakeup::Cycle);
    assert_eq!(
        finish(&mut runner, &mut shared, at(1)),
        vec![
            Action::Emit(Event::NewEvents(waited(0))),
            Action::Emit(Event::AboutToWait),
            Action::CancelFrame,
            Action::Emit(Event::LoopExiting),
            Action::ExitHost,
        ]
    );
    assert!(shared.closed);
    assert_eq!(runner.woken_at(&shared, at(2)), Wakeup::Stop);
    assert!(!runner.cycle(&shared, StartCause::Poll));
    assert_eq!(runner.request_redraw(), None);
    assert!(!shared.forward(Event::Suspended));
}

#[test]
fn exit_again_changes_nothing() {
    let (mut runner, mut shared) = started();
    runner.exit(&mut shared);
    runner.exit(&mut shared);
    assert!(runner.exiting());
    assert!(!shared.closed);
    assert!(runner.is_idle());
}

#[test]
fn loop_that_ran_again_after_its_end_tells_nothing() {
    let (mut runner, mut shared) = started();
    runner.exit(&mut shared);
    assert_eq!(runner.woken_at(&shared, at(1)), Wakeup::Cycle);
    finish(&mut runner, &mut shared, at(1));
    assert!(!runner.run(&shared));
    assert_eq!(finish(&mut runner, &mut shared, at(2)), vec![]);
    assert!(!runner.timer_fired_at(&shared, at(2)));
}

#[test]
fn end_of_the_page_ends_the_loop() {
    let (mut runner, mut shared) = started();
    shared.forward(other(1));
    shared.forward(Event::LoopExiting);
    shared.forward(other(2));
    shared.wake_user();
    runner.cycle(&shared, StartCause::Poll);
    assert_eq!(
        finish(&mut runner, &mut shared, at(1)),
        vec![
            Action::Emit(Event::NewEvents(StartCause::Poll)),
            Action::Emit(other(1)),
            Action::Emit(Event::UserEvent),
            Action::Emit(Event::AboutToWait),
            Action::Emit(Event::LoopExiting),
            Action::ExitHost,
        ]
    );
    assert_eq!(shared.take_event().unwrap().event, other(2));
}

#[test]
fn news_within_a_cycle_is_announced_for_the_next() {
    let (mut runner, mut shared) = started();
    runner.cycle(&shared, StartCause::Poll);
    loop {
        let action = runner.step_at(&mut shared, at(1));
        if action == Action::Emit(Event::AboutToWait) {
            break;
        }
    }
    shared.forward(other(1));
    shared.wake_user();
    finish(&mut runner, &mut shared, at(1));
    assert!(shared.notified);
    assert_eq!(runner.woken_at(&shared, at(2)), Wakeup::Cycle);
    assert_eq!(
        finish(&mut runner, &mut shared, at(2)),
        vec![
            Action::Emit(Event::NewEvents(waited(1))),
            Action::Emit(other(1)),
            Action::Emit(Event::UserEvent),
            Action::Emit(Event::AboutToWait),
            Action::Sleep,
        ]
    );
}

#[test]
fn window_is_handed_out_once() {
    let (mut runner, _) = started();
    let window = runner.create_window("title").unwrap();
    assert_eq!(window.attributes, "title");
    assert_eq!(window.worker_id, 1);
    assert_eq!(runner.create_window("again").unwrap_err(), OsError::WindowClaimed);
    assert_eq!(runner.create_window("again").unwrap_err(), OsError::WindowClaimed);
}

#[test]
fn strategies_are_kept() {
    let (mut runner, _) = started();
    runner.set_poll_strategy(PollStrategy::IdleCallback);
    runner.set_wait_until_strategy(WaitUntilStrategy::Worker);
    runner.set_control_flow(ControlFlow::Poll);
    assert_eq!(runner.poll_strategy(), PollStrategy::IdleCallback);
    assert_eq!(runner.wait_until_strategy(), WaitUntilStrategy::Worker);
    assert_eq!(runner.control_flow(), ControlFlow::Poll);
}

#[test]
fn loop_runs_by_the_clock() {
    let (mut runner, mut shared) = attached();
    let clock = Clock::new();
    assert!(runner.run(&shared));
    while !runner.is_idle() {
        runner.step(&mut shared, &clock);
    }
    let since = runner.waiting_since;
    assert!(since.nanos <= clock.now().nanos);
    runner.set_control_flow(ControlFlow::WaitUntil(since));
    assert_eq!(
        runner.wake_cause(&clock),
        StartCause::ResumeTimeReached { start: since, requested_resume: since }
    );
    assert!(runner.timer_fired(&shared, &clock));
    while !runner.is_idle() {
        runner.step(&mut shared, &clock);
    }
    assert!(runner.timer);
    runner.request_redraw();
    assert!(runner.frame_fired(&shared, &clock));
    assert_eq!(runner.woken(&shared, &clock), Wakeup::Busy);
}
