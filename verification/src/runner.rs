//! The event loop of the worker.
//!
//! The loop runs in cycles. A cycle tells the application what has come in since the last one, and
//! ends with the decision when the next one begins. [`WorkerRunner::cycle`] begins a cycle, and
//! [`WorkerRunner::step`] takes it one action further: the caller performs the action and comes
//! back for the next, until the runner is idle. In between, while it handles an event, the
//! application may call the runner as it likes.

use vstd::prelude::*;

use crate::event::{
    ControlFlow, Event, PhysicalSize, PollStrategy, StartCause, WaitUntilStrategy, WindowEvent,
    WorkerRedrawStrategy,
};
use crate::shared::{Shared, SharedView};
use crate::time::{delay_spec, timer_delay, Clock, Moment};

verus! {

/// How far a cycle has come: what is to happen next.
#[derive(Clone, Copy, Debug, PartialEq, Eq)]
pub enum Phase {
    /// No cycle is under way.
    Idle,
    /// Drop the timer.
    Start(StartCause),
    /// Tell the application that a cycle has begun.
    Begin(StartCause),
    /// Tell the application that it may create its window.
    Resume,
    /// Deliver what the page has sent.
    Drain,
    /// Look at the answer to a change of the scale factor, which started out as `initial`.
    Reply { details: u64, initial: PhysicalSize },
    /// Take the number of times that the application was woken.
    Count,
    /// Tell the application so that many times more.
    User(usize),
    /// Have the application draw, if it asked for that.
    Redraw,
    /// Tell the application that the cycle is over.
    AboutToWait,
    /// Decide how to go on.
    Settle,
    /// Tell the application that the loop ends.
    Exiting,
    /// Let go of the application and end the loop of the page.
    Leaving,
}

/// A timer for the next cycle.
#[derive(Clone, Copy, Debug, PartialEq, Eq, Structural)]
pub enum Timer {
    /// Through a message task, at once.
    Immediate,
    /// After so many milliseconds.
    Timeout(i32),
}

/// What the caller of [`WorkerRunner::step`] is to do.
#[derive(Clone, Copy, Debug, PartialEq, Eq)]
pub enum Action {
    /// Nothing.
    Continue,
    /// Drop the timer.
    CancelTimer,
    /// Hand an event to the application.
    Emit(Event),
    /// Let go of an event that there is no application to hand to.
    Discard(Event),
    /// Look up the size that the application has answered, and hand it to
    /// [`WorkerRunner::size_reply`].
    ReadSize(u64),
    /// Set the timer. The cycle is over.
    Arm(Timer),
    /// Wait for news. The cycle is over.
    Sleep,
    /// Drop the scheduled frame.
    CancelFrame,
    /// Drop the application and have the page end its loop. The cycle is over.
    ExitHost,
}

/// What becomes of the scheduled frame.
#[derive(Clone, Copy, Debug, PartialEq, Eq, Structural)]
pub enum FrameChange {
    /// It stays as it is.
    Keep,
    /// It is dropped.
    Cancel,
    /// It is dropped, and scheduled anew in this way.
    Reschedule(WorkerRedrawStrategy),
}

/// What the loop does once it was woken.
#[derive(Clone, Copy, Debug, PartialEq, Eq, Structural)]
pub enum Wakeup {
    /// It stops listening.
    Stop,
    /// It has begun a cycle.
    Cycle,
    /// It goes on listening: a cycle is already under way.
    Busy,
}

/// The one window of the worker, as it is handed out.
#[derive(Debug)]
pub struct ClaimedWindow<A> {
    /// The attributes that the page is to give it.
    pub attributes: A,
    /// The host it belongs to.
    pub worker_id: u32,
}

/// A window could not be created.
#[derive(Clone, Copy, Debug, PartialEq, Eq, Structural)]
pub enum OsError {
    /// The window of the worker has already been handed out.
    WindowClaimed,
}

impl OsError {
    /// The message of the error.
    pub fn message(&self) -> (message: &'static str)
        ensures
            message@ == "worker mode supports one pre-created canvas"@,
    {
        "worker mode supports one pre-created canvas"
    }
}

/// The loop of a worker whose canvas is a `C`.
pub struct WorkerRunner<C> {
    /// The host that the worker is attached to.
    pub id: u32,
    /// Kept for the lifetime of the worker, including after the loop has ended: a surface of the
    /// application may outlive the loop.
    pub canvas: C,
    /// Whether the application is installed.
    pub handler: bool,
    pub control: ControlFlow,
    pub poll: PollStrategy,
    pub wait: WaitUntilStrategy,
    /// Whether the loop is to end with the present cycle, or with the next.
    pub exit: bool,
    pub phase: Phase,
    /// Whether the window has been handed out.
    pub window_claimed: bool,
    /// Whether the application is to draw in the next cycle.
    pub redraw: bool,
    pub redraw_strategy: WorkerRedrawStrategy,
    /// When the loop began to wait.
    pub waiting_since: Moment,
    /// Whether a timer is set.
    pub timer: bool,
    /// Whether a frame is scheduled.
    pub frame: bool,
}

/// Why a cycle begins at `now`, for a loop that has waited since `since`.
pub open spec fn wake_cause_spec(control: ControlFlow, since: Moment, now: Moment) -> StartCause {
    match control {
        ControlFlow::Poll => StartCause::Poll,
        ControlFlow::Wait => StartCause::WaitCancelled { start: since, requested_resume: None },
        ControlFlow::WaitUntil(deadline) => if deadline.nanos <= now.nanos {
            StartCause::ResumeTimeReached { start: since, requested_resume: deadline }
        } else {
            StartCause::WaitCancelled { start: since, requested_resume: Some(deadline) }
        },
    }
}

/// The timer that is set at `now` for the next cycle.
pub open spec fn timer_spec(control: ControlFlow, now: Moment) -> Option<Timer> {
    match control {
        ControlFlow::Wait => None,
        ControlFlow::Poll => Some(Timer::Immediate),
        ControlFlow::WaitUntil(deadline) => if delay_spec(now, deadline) == 0 {
            Some(Timer::Immediate)
        } else {
            Some(Timer::Timeout(delay_spec(now, deadline) as i32))
        },
    }
}

/// A runner and what it shares, after an action.
pub struct Step<C> {
    pub runner: WorkerRunner<C>,
    pub shared: SharedView,
    pub action: Action,
}

impl<C> WorkerRunner<C> {
    /// The runner of a worker that has just been attached at `now`.
    pub open spec fn attached(id: u32, canvas: C, now: Moment) -> WorkerRunner<C> {
        WorkerRunner {
            id,
            canvas,
            handler: false,
            control: ControlFlow::Wait,
            poll: PollStrategy::Scheduler,
            wait: WaitUntilStrategy::Scheduler,
            exit: false,
            phase: Phase::Idle,
            window_claimed: false,
            redraw: false,
            redraw_strategy: WorkerRedrawStrategy::AnimationFrame,
            waiting_since: now,
            timer: false,
            frame: false,
        }
    }

    /// The runner in another phase.
    pub open spec fn at(self, phase: Phase) -> WorkerRunner<C> {
        WorkerRunner { phase, ..self }
    }

    /// The application is told of an event, or, if there is none, nobody is.
    pub open spec fn telling(self, event: Event) -> Action {
        if self.handler {
            Action::Emit(event)
        } else {
            Action::Discard(event)
        }
    }

    /// Whether a cycle can begin.
    pub open spec fn can_cycle(self, shared: SharedView) -> bool {
        !shared.closed && self.phase == Phase::Idle
    }

    /// A cycle begins, if one can.
    pub open spec fn cycling(self, shared: SharedView, cause: StartCause) -> WorkerRunner<C> {
        if self.can_cycle(shared) {
            self.at(Phase::Start(cause))
        } else {
            self
        }
    }

    /// Why a cycle begins at `now`.
    pub open spec fn cause_at(self, now: Moment) -> StartCause {
        wake_cause_spec(self.control, self.waiting_since, now)
    }

    /// The oldest event of the page is delivered, or there is none. That the page ends its loop is
    /// not delivered: the worker then ends its own, and delivers nothing more of the page.
    pub open spec fn drained(self, shared: SharedView) -> Step<C> {
        if shared.events.len() == 0 {
            Step { runner: self.at(Phase::Count), shared, action: Action::Continue }
        } else {
            let rest = SharedView { events: shared.events.drop_first(), ..shared };
            let next = shared.events[0];
            if next.event == Event::LoopExiting {
                Step {
                    runner: WorkerRunner { exit: true, ..self.at(Phase::Count) },
                    shared: rest,
                    action: Action::Continue,
                }
            } else {
                Step {
                    runner: match next.size_reply {
                        Some((details, initial)) => self.at(Phase::Reply { details, initial }),
                        None => self,
                    },
                    shared: rest,
                    action: self.telling(next.event),
                }
            }
        }
    }

    /// The cycle is over at `now`: the loop ends, or waits.
    pub open spec fn settled(self, shared: SharedView, now: Moment) -> Step<C> {
        if self.exit {
            Step {
                runner: WorkerRunner { frame: false, ..self.at(Phase::Exiting) },
                shared: SharedView { closed: true, ..shared }.notify(),
                action: if self.frame {
                    Action::CancelFrame
                } else {
                    Action::Continue
                },
            }
        } else {
            let timer = timer_spec(self.control, now);
            Step {
                runner: WorkerRunner {
                    waiting_since: now,
                    timer: self.timer || timer is Some,
                    ..self.at(Phase::Idle)
                },
                shared,
                action: match timer {
                    None => Action::Sleep,
                    Some(timer) => Action::Arm(timer),
                },
            }
        }
    }

    /// The next action of a cycle, and what it leaves.
    pub open spec fn advance(self, shared: SharedView, now: Moment) -> Step<C> {
        match self.phase {
            Phase::Idle => Step { runner: self, shared, action: Action::Sleep },
            Phase::Start(cause) => Step {
                runner: WorkerRunner { timer: false, ..self.at(Phase::Begin(cause)) },
                shared,
                action: if self.timer {
                    Action::CancelTimer
                } else {
                    Action::Continue
                },
            },
            Phase::Begin(cause) => Step {
                runner: self.at(
                    if cause == StartCause::Init {
                        Phase::Resume
                    } else {
                        Phase::Drain
                    },
                ),
                shared,
                action: self.telling(Event::NewEvents(cause)),
            },
            Phase::Resume => Step {
                runner: self.at(Phase::Drain),
                shared,
                action: self.telling(Event::Resumed),
            },
            Phase::Drain => self.drained(shared),
            Phase::Reply { details, initial } => Step {
                runner: self,
                shared,
                action: Action::ReadSize(details),
            },
            Phase::Count => Step {
                runner: self.at(Phase::User(shared.user_events)),
                shared: SharedView { user_events: 0, ..shared },
                action: Action::Continue,
            },
            Phase::User(count) => if count == 0 {
                Step { runner: self.at(Phase::Redraw), shared, action: Action::Continue }
            } else {
                Step {
                    runner: self.at(Phase::User((count - 1) as usize)),
                    shared,
                    action: self.telling(Event::UserEvent),
                }
            },
            Phase::Redraw => Step {
                runner: WorkerRunner { redraw: false, ..self.at(Phase::AboutToWait) },
                shared,
                action: if self.redraw {
                    self.telling(redraw_event(shared))
                } else {
                    Action::Continue
                },
            },
            Phase::AboutToWait => Step {
                runner: self.at(Phase::Settle),
                shared,
                action: self.telling(Event::AboutToWait),
            },
            Phase::Settle => self.settled(shared, now),
            Phase::Exiting => Step {
                runner: self.at(Phase::Leaving),
                shared,
                action: self.telling(Event::LoopExiting),
            },
            Phase::Leaving => Step {
                runner: WorkerRunner { handler: false, ..self.at(Phase::Idle) },
                shared,
                action: Action::ExitHost,
            },
        }
    }

    /// The answer to a change of the scale factor has been looked at.
    pub open spec fn replied(self) -> WorkerRunner<C> {
        if self.phase is Reply {
            self.at(Phase::Drain)
        } else {
            self
        }
    }

    /// The size that the page is to give to the window, where the application has answered
    /// `reply`.
    pub open spec fn requested_size(self, reply: PhysicalSize) -> Option<PhysicalSize> {
        match self.phase {
            Phase::Reply { initial, .. } => if reply != initial {
                Some(reply)
            } else {
                None
            },
            _ => None,
        }
    }

    /// The application is installed, and the first cycle begins, if it can.
    pub open spec fn running(self, shared: SharedView) -> WorkerRunner<C> {
        WorkerRunner { handler: true, ..self }.cycling(shared, StartCause::Init)
    }

    /// A cycle begins at `now`, if one can.
    pub open spec fn waking(self, shared: SharedView, now: Moment) -> WorkerRunner<C> {
        self.cycling(shared, self.cause_at(now))
    }

    /// What the loop does once it was woken.
    pub open spec fn wakeup(self, shared: SharedView) -> Wakeup {
        if shared.closed {
            Wakeup::Stop
        } else if self.can_cycle(shared) {
            Wakeup::Cycle
        } else {
            Wakeup::Busy
        }
    }

    /// The scheduled frame has come.
    pub open spec fn framed(self) -> WorkerRunner<C> {
        WorkerRunner { frame: false, redraw: true, ..self }
    }

    /// Whether a redraw can be scheduled.
    pub open spec fn can_schedule(self) -> bool {
        !self.frame && !self.exit
    }

    /// A redraw is asked for.
    pub open spec fn redrawing(self) -> WorkerRunner<C> {
        WorkerRunner { frame: self.frame || self.can_schedule(), ..self }
    }

    /// What becomes of the scheduled frame, if there is one, where the pacing changes.
    pub open spec fn frame_change(self, strategy: WorkerRedrawStrategy) -> FrameChange {
        if !self.frame || self.redraw_strategy == strategy {
            FrameChange::Keep
        } else if self.exit {
            FrameChange::Cancel
        } else {
            FrameChange::Reschedule(strategy)
        }
    }

    /// The pacing changes.
    pub open spec fn repaced(self, strategy: WorkerRedrawStrategy) -> WorkerRunner<C> {
        WorkerRunner {
            redraw_strategy: strategy,
            frame: self.frame && self.frame_change(strategy) != FrameChange::Cancel,
            ..self
        }
    }
}

/// The event by which the application is told to draw.
pub open spec fn redraw_event(shared: SharedView) -> Event {
    Event::WindowEvent { window_id: shared.window_id, event: WindowEvent::RedrawRequested }
}

impl<C> WorkerRunner<C> {
    /// The action that tells the application of an event.
    fn emit(&self, event: Event) -> (action: Action)
        ensures
            action == self.telling(event),
    {
        if self.handler {
            Action::Emit(event)
        } else {
            Action::Discard(event)
        }
    }

    /// Begins a cycle, and says whether it did: not after the loop has ended, nor within a cycle.
    pub fn cycle(&mut self, shared: &Shared, cause: StartCause) -> (begun: bool)
        ensures
            begun == old(self).can_cycle(shared@),
            *final(self) == old(self).cycling(shared@, cause),
    {
        if shared.closed {
            return false;
        }
        match self.phase {
            Phase::Idle => {
                self.phase = Phase::Start(cause);
                true
            },
            _ => false,
        }
    }

    /// Takes the cycle one action further, as of `now`.
    #[verifier::rlimit(30)]
    pub fn step_at(&mut self, shared: &mut Shared, now: Moment) -> (action: Action)
        requires
            old(shared).wf(),
        ensures
            final(shared).wf(),
            *final(self) == old(self).advance(old(shared)@, now).runner,
            final(shared)@ == old(self).advance(old(shared)@, now).shared,
            action == old(self).advance(old(shared)@, now).action,
    {
        match self.phase {
            Phase::Idle => Action::Sleep,
            Phase::Start(cause) => {
                self.phase = Phase::Begin(cause);
                if self.timer {
                    self.timer = false;
                    Action::CancelTimer
                } else {
                    Action::Continue
                }
            },
            Phase::Begin(cause) => {
                self.phase = match cause {
                    StartCause::Init => Phase::Resume,
                    _ => Phase::Drain,
                };
                self.emit(Event::NewEvents(cause))
            },
            Phase::Resume => {
                self.phase = Phase::Drain;
                self.emit(Event::Resumed)
            },
            Phase::Drain => self.drain(shared),
            Phase::Reply { details, .. } => Action::ReadSize(details),
            Phase::Count => {
                self.phase = Phase::User(shared.take_user_events());
                Action::Continue
            },
            Phase::User(count) => {
                if count == 0 {
                    self.phase = Phase::Redraw;
                    Action::Continue
                } else {
                    self.phase = Phase::User(count - 1);
                    self.emit(Event::UserEvent)
                }
            },
            Phase::Redraw => {
                self.phase = Phase::AboutToWait;
                if self.redraw {
                    self.redraw = false;
                    let window_id = shared.window_id;
                    self.emit(
                        Event::WindowEvent { window_id, event: WindowEvent::RedrawRequested },
                    )
                } else {
                    Action::Continue
                }
            },
            Phase::AboutToWait => {
                self.phase = Phase::Settle;
                self.emit(Event::AboutToWait)
            },
            Phase::Settle => self.settle(shared, now),
            Phase::Exiting => {
                self.phase = Phase::Leaving;
                self.emit(Event::LoopExiting)
            },
            Phase::Leaving => {
                self.phase = Phase::Idle;
                self.handler = false;
                Action::ExitHost
            },
        }
    }

    /// Delivers the oldest event of the page. That the page ends its loop is not delivered: the
    /// worker then ends its own.
    fn drain(&mut self, shared: &mut Shared) -> (action: Action)
        requires
            old(shared).wf(),
            old(self).phase == Phase::Drain,
        ensures
            final(shared).wf(),
            (Step { runner: *final(self), shared: final(shared)@, action }) == old(self).drained(
                old(shared)@,
            ),
    {
        match shared.take_event() {
            None => {
                self.phase = Phase::Count;
                Action::Continue
            },
            Some(forwarded) => {
                if let Event::LoopExiting = forwarded.event {
                    self.exit = true;
                    self.phase = Phase::Count;
                    return Action::Continue;
                }
                if let Some((details, initial)) = forwarded.size_reply {
                    self.phase = Phase::Reply { details, initial };
                }
                self.emit(forwarded.event)
            },
        }
    }

    /// Ends the loop, or decides when the next cycle begins.
    fn settle(&mut self, shared: &mut Shared, now: Moment) -> (action: Action)
        requires
            old(shared).wf(),
            old(self).phase == Phase::Settle,
        ensures
            final(shared).wf(),
            (Step { runner: *final(self), shared: final(shared)@, action }) == old(self).settled(
                old(shared)@,
                now,
            ),
    {
        if self.exit {
            self.phase = Phase::Exiting;
            shared.close();
            if self.frame {
                self.frame = false;
                return Action::CancelFrame;
            }
            return Action::Continue;
        }
        self.phase = Phase::Idle;
        self.waiting_since = now;
        let delay: i32 = match self.control {
            ControlFlow::Wait => return Action::Sleep,
            ControlFlow::Poll => 0,
            ControlFlow::WaitUntil(deadline) => timer_delay(now, deadline),
        };
        self.timer = true;
        if delay == 0 {
            Action::Arm(Timer::Immediate)
        } else {
            Action::Arm(Timer::Timeout(delay))
        }
    }

    /// Takes the cycle one action further.
    pub fn step(&mut self, shared: &mut Shared, clock: &Clock) -> (action: Action)
        requires
            old(shared).wf(),
        ensures
            final(shared).wf(),
            exists|now: Moment|
                clock.tells(now) && (Step { runner: *final(self), shared: final(shared)@, action })
                    == #[trigger] old(self).advance(old(shared)@, now),
    {
        let now = clock.now();
        self.step_at(shared, now)
    }

    /// Hands over the size that the application has answered after [`Action::ReadSize`]. A size
    /// comes back if the page is to give it to the window: the answer, unless it is what it
    /// started out as. The cycle then goes on.
    pub fn size_reply(&mut self, reply: PhysicalSize) -> (request: Option<PhysicalSize>)
        ensures
            *final(self) == old(self).replied(),
            request == old(self).requested_size(reply),
    {
        match self.phase {
            Phase::Reply { initial, .. } => {
                self.phase = Phase::Drain;
                if reply != initial {
                    Some(reply)
                } else {
                    None
                }
            },
            _ => None,
        }
    }

    /// Installs the application and begins the first cycle, unless one cannot begin. Says whether
    /// it began.
    pub fn run(&mut self, shared: &Shared) -> (begun: bool)
        requires
            !old(self).handler,
        ensures
            begun == old(self).can_cycle(shared@),
            *final(self) == old(self).running(shared@),
    {
        self.handler = true;
        self.cycle(shared, StartCause::Init)
    }

    /// Why a cycle begins at `now`.
    pub fn wake_cause_at(&self, now: Moment) -> (cause: StartCause)
        ensures
            cause == self.cause_at(now),
    {
        let start = self.waiting_since;
        match self.control {
            ControlFlow::Poll => StartCause::Poll,
            ControlFlow::Wait => StartCause::WaitCancelled { start, requested_resume: None },
            ControlFlow::WaitUntil(deadline) => {
                if deadline.nanos <= now.nanos {
                    StartCause::ResumeTimeReached { start, requested_resume: deadline }
                } else {
                    StartCause::WaitCancelled { start, requested_resume: Some(deadline) }
                }
            },
        }
    }

    /// Why a cycle begins now.
    pub fn wake_cause(&self, clock: &Clock) -> (cause: StartCause)
        ensures
            exists|now: Moment| clock.tells(now) && cause == #[trigger] self.cause_at(now),
    {
        self.wake_cause_at(clock.now())
    }

    /// The timer has fired, as of `now`: begins a cycle, and says whether it did.
    pub fn timer_fired_at(&mut self, shared: &Shared, now: Moment) -> (begun: bool)
        ensures
            begun == old(self).can_cycle(shared@),
            *final(self) == old(self).waking(shared@, now),
    {
        let cause = self.wake_cause_at(now);
        self.cycle(shared, cause)
    }

    /// The timer has fired: begins a cycle, and says whether it did.
    pub fn timer_fired(&mut self, shared: &Shared, clock: &Clock) -> (begun: bool)
        ensures
            begun == old(self).can_cycle(shared@),
            exists|now: Moment|
                clock.tells(now) && *final(self) == #[trigger] old(self).waking(shared@, now),
    {
        self.timer_fired_at(shared, clock.now())
    }

    /// The loop was woken, as of `now`, by news of the page or by its own end.
    pub fn woken_at(&mut self, shared: &Shared, now: Moment) -> (wakeup: Wakeup)
        ensures
            wakeup == old(self).wakeup(shared@),
            *final(self) == old(self).waking(shared@, now),
    {
        if shared.closed {
            return Wakeup::Stop;
        }
        let cause = self.wake_cause_at(now);
        if self.cycle(shared, cause) {
            Wakeup::Cycle
        } else {
            Wakeup::Busy
        }
    }

    /// The loop was woken, by news of the page or by its own end.
    pub fn woken(&mut self, shared: &Shared, clock: &Clock) -> (wakeup: Wakeup)
        ensures
            wakeup == old(self).wakeup(shared@),
            exists|now: Moment|
                clock.tells(now) && *final(self) == #[trigger] old(self).waking(shared@, now),
    {
        self.woken_at(shared, clock.now())
    }

    /// The scheduled frame has come, as of `now`: the application is to draw in a cycle, which
    /// begins if one can. Says whether it began.
    pub fn frame_fired_at(&mut self, shared: &Shared, now: Moment) -> (begun: bool)
        ensures
            begun == old(self).can_cycle(shared@),
            *final(self) == old(self).framed().waking(shared@, now),
    {
        self.frame = false;
        self.redraw = true;
        let cause = self.wake_cause_at(now);
        self.cycle(shared, cause)
    }

    /// The scheduled frame has come: the application is to draw in a cycle, which begins if one
    /// can. Says whether it began.
    pub fn frame_fired(&mut self, shared: &Shared, clock: &Clock) -> (begun: bool)
        ensures
            begun == old(self).can_cycle(shared@),
            exists|now: Moment|
                clock.tells(now) && *final(self) == #[trigger] old(self).framed().waking(shared@, now),
    {
        self.frame_fired_at(shared, clock.now())
    }

    /// Asks for a redraw. How to schedule a frame for it comes back, unless one is scheduled
    /// already or the loop is to end.
    pub fn request_redraw(&mut self) -> (schedule: Option<WorkerRedrawStrategy>)
        ensures
            *final(self) == old(self).redrawing(),
            schedule == if old(self).can_schedule() {
                Some(old(self).redraw_strategy)
            } else {
                None
            },
    {
        if self.frame || self.exit {
            return None;
        }
        self.frame = true;
        Some(self.redraw_strategy)
    }

    /// Changes the pacing of redraws, and says what becomes of a scheduled frame: where the pacing
    /// is another one, it is scheduled anew, or dropped if the loop is to end.
    pub fn set_redraw_strategy(&mut self, strategy: WorkerRedrawStrategy) -> (change: FrameChange)
        ensures
            *final(self) == old(self).repaced(strategy),
            change == old(self).frame_change(strategy),
    {
        let before = self.redraw_strategy;
        self.redraw_strategy = strategy;
        if before != strategy {
            let pending = self.frame;
            self.frame = false;
            if pending {
                return match self.request_redraw() {
                    Some(schedule) => FrameChange::Reschedule(schedule),
                    None => FrameChange::Cancel,
                };
            }
        }
        FrameChange::Keep
    }

    /// Hands out the window of the worker, the first time.
    pub fn create_window<A>(&mut self, attributes: A) -> (window: Result<ClaimedWindow<A>, OsError>)
        ensures
            *final(self) == (WorkerRunner { window_claimed: true, ..*old(self) }),
            window == if old(self).window_claimed {
                Err(OsError::WindowClaimed)
            } else {
                Ok(ClaimedWindow { attributes, worker_id: old(self).id })
            },
    {
        if self.window_claimed {
            return Err(OsError::WindowClaimed);
        }
        self.window_claimed = true;
        Ok(ClaimedWindow { attributes, worker_id: self.id })
    }

    /// Has the loop end with the present cycle, or with the next one, which the news begins.
    pub fn exit(&mut self, shared: &mut Shared)
        requires
            old(shared).wf(),
        ensures
            final(shared).wf(),
            *final(self) == (WorkerRunner { exit: true, ..*old(self) }),
            final(shared)@ == old(shared)@.notify(),
    {
        self.exit = true;
        shared.notify();
    }

    /// Whether the loop is to end.
    pub fn exiting(&self) -> (exiting: bool)
        ensures
            exiting == self.exit,
    {
        self.exit
    }

    /// The host that the worker is attached to.
    pub fn host_id(&self) -> (id: u32)
        ensures
            id == self.id,
    {
        self.id
    }

    /// Whether no cycle is under way.
    pub fn is_idle(&self) -> (idle: bool)
        ensures
            idle == (self.phase == Phase::Idle),
    {
        match self.phase {
            Phase::Idle => true,
            _ => false,
        }
    }

    pub fn control_flow(&self) -> (flow: ControlFlow)
        ensures
            flow == self.control,
    {
        self.control
    }

    pub fn set_control_flow(&mut self, flow: ControlFlow)
        ensures
            *final(self) == (WorkerRunner { control: flow, ..*old(self) }),
    {
        self.control = flow;
    }

    pub fn poll_strategy(&self) -> (strategy: PollStrategy)
        ensures
            strategy == self.poll,
    {
        self.poll
    }

    pub fn set_poll_strategy(&mut self, strategy: PollStrategy)
        ensures
            *final(self) == (WorkerRunner { poll: strategy, ..*old(self) }),
    {
        self.poll = strategy;
    }

    pub fn wait_until_strategy(&self) -> (strategy: WaitUntilStrategy)
        ensures
            strategy == self.wait,
    {
        self.wait
    }

    pub fn set_wait_until_strategy(&mut self, strategy: WaitUntilStrategy)
        ensures
            *final(self) == (WorkerRunner { wait: strategy, ..*old(self) }),
    {
        self.wait = strategy;
    }
}

} // verus!
