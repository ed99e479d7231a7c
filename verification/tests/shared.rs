use std::sync::atomic::{AtomicUsize, Ordering};
use std::sync::Arc;
use std::task::{Wake, Waker};

use canvas_worker::event::{Event, PhysicalSize, StartCause, WindowEvent, WindowId};
use canvas_worker::host::Forwarder;
use canvas_worker::queue::ForwardedEvent;
use canvas_worker::shared::Shared;

struct Count(AtomicUsize);

impl Wake for Count {
    fn wake(self: Arc<Self>) {
        self.0.fetch_add(1, Ordering::SeqCst);
    }
}

fn counter() -> (Arc<Count>, Waker) {
    let count = Arc::new(Count(AtomicUsize::new(0)));
    (count.clone(), Waker::from(count))
}

fn woken(count: &Arc<Count>) -> usize {
    count.0.load(Ordering::SeqCst)
}

fn window(event: WindowEvent) -> Event {
    Event::WindowEvent { window_id: WindowId(3), event }
}

const SIZE: PhysicalSize = PhysicalSize { width: 320, height: 240 };

#[test]
fn fresh_state_holds_nothing() {
    let mut shared = Shared::new(WindowId(3));
    assert_eq!(shared.window_id, WindowId(3));
    assert_eq!(shared.take_event(), None);
    assert_eq!(shared.take_user_events(), 0);
    assert!(!shared.closed);
    assert!(!shared.notified);
}

#[test]
fn events_come_out_in_order() {
    let mut shared = Shared::new(WindowId(3));
    for number in 0..100 {
        assert!(shared.forward(window(WindowEvent::Other(number))));
    }
    for number in 0..100 {
        let event = window(WindowEvent::Other(number));
        assert_eq!(shared.take_event(), Some(ForwardedEvent { event, size_reply: None }));
    }
    assert_eq!(shared.take_event(), None);
}

#[test]
fn cycle_marks_of_the_page_stay_behind() {
    let mut shared = Shared::new(WindowId(3));
    assert!(!shared.forward(Event::NewEvents(StartCause::Poll)));
    assert!(!shared.forward(Event::AboutToWait));
    assert!(!shared.notified);
    assert_eq!(shared.take_event(), None);
    for event in [
        Event::Suspended,
        Event::Resumed,
        Event::UserEvent,
        Event::LoopExiting,
        Event::MemoryWarning,
        Event::DeviceEvent(1),
    ] {
        assert!(shared.forward(event));
        assert!(shared.notified);
        assert_eq!(shared.take_event().unwrap().event, event);
    }
}

#[test]
fn scale_change_carries_its_answer() {
    let mut shared = Shared::new(WindowId(3));
    let live = window(WindowEvent::ScaleFactorChanged { details: 9, inner_size: Some(SIZE) });
    let dead = window(WindowEvent::ScaleFactorChanged { details: 9, inner_size: None });
    shared.forward(live);
    shared.forward(dead);
    assert_eq!(shared.take_event().unwrap().size_reply, Some((9, SIZE)));
    assert_eq!(shared.take_event().unwrap().size_reply, None);
}

#[test]
fn news_wakes_a_sleeping_loop() {
    let mut shared = Shared::new(WindowId(3));
    let (count, waker) = counter();
    assert!(!shared.poll_ready(&waker));
    assert_eq!(woken(&count), 0);
    shared.forward(Event::Suspended);
    assert_eq!(woken(&count), 1);
    shared.wake_user();
    assert_eq!(woken(&count), 1);
    assert!(shared.poll_ready(&waker));
    assert!(!shared.poll_ready(&waker));
    shared.wake_user();
    assert_eq!(woken(&count), 2);
}

#[test]
fn last_waker_is_the_one_woken() {
    let mut shared = Shared::new(WindowId(3));
    let (first, first_waker) = counter();
    let (second, second_waker) = counter();
    assert!(!shared.poll_ready(&first_waker));
    assert!(!shared.poll_ready(&second_waker));
    shared.notify();
    shared.notify();
    assert_eq!(woken(&first), 0);
    assert_eq!(woken(&second), 1);
}

#[test]
fn wakeups_are_counted() {
    let mut shared = Shared::new(WindowId(3));
    shared.wake_user();
    shared.wake_user();
    shared.wake_user();
    assert_eq!(shared.take_user_events(), 3);
    assert_eq!(shared.take_user_events(), 0);
}

#[test]
fn wakeups_wrap_around() {
    let mut shared = Shared::new(WindowId(3));
    shared.user_events = usize::MAX;
    shared.wake_user();
    assert_eq!(shared.take_user_events(), 0);
}

#[test]
fn closed_state_takes_nothing_and_stays_ready() {
    let mut shared = Shared::new(WindowId(3));
    let (count, waker) = counter();
    assert!(!shared.poll_ready(&waker));
    shared.close();
    assert_eq!(woken(&count), 1);
    assert!(!shared.forward(Event::Suspended));
    shared.wake_user();
    assert_eq!(shared.take_event(), None);
    assert_eq!(shared.take_user_events(), 0);
    assert!(shared.poll_ready(&waker));
    assert!(shared.poll_ready(&waker));
}

#[test]
fn first_resume_of_the_page_is_held_back() {
    let mut shared = Shared::new(WindowId(3));
    let mut forwarder = Forwarder::new();
    assert!(!forwarder.page_event(&mut shared, Event::NewEvents(StartCause::Init)));
    assert!(forwarder.page_event(&mut shared, Event::Suspended));
    assert!(!forwarder.page_event(&mut shared, Event::Resumed));
    assert!(forwarder.page_event(&mut shared, Event::Resumed));
    assert!(forwarder.page_event(&mut shared, Event::Resumed));
    assert_eq!(shared.take_event().unwrap().event, Event::Suspended);
    assert_eq!(shared.take_event().unwrap().event, Event::Resumed);
    assert_eq!(shared.take_event().unwrap().event, Event::Resumed);
    assert_eq!(shared.take_event(), None);
}
