//! What the page and the worker tell the application, and what the application asks for.

use vstd::prelude::*;

use crate::time::Moment;

verus! {

/// Names the window of the page that a canvas belongs to.
#[derive(Clone, Copy, Debug, PartialEq, Eq, Structural)]
pub struct WindowId(pub u32);

/// A size in physical pixels.
#[derive(Clone, Copy, Debug, PartialEq, Eq, Structural)]
pub struct PhysicalSize {
    pub width: u32,
    pub height: u32,
}

/// Why a cycle of the event loop began.
#[allow(inconsistent_fields)]
#[derive(Clone, Copy, Debug, PartialEq, Eq)]
pub enum StartCause {
    /// The moment that the application asked to wait for has come.
    ResumeTimeReached { start: Moment, requested_resume: Moment },
    /// Something came up before the application was due.
    WaitCancelled { start: Moment, requested_resume: Option<Moment> },
    /// The application does not wait.
    Poll,
    /// The loop has just started.
    Init,
}

/// What the loop does after a cycle.
#[derive(Clone, Copy, Debug, PartialEq, Eq, Structural)]
pub enum ControlFlow {
    /// Begin the next cycle at once.
    Poll,
    /// Wait for an event.
    Wait,
    /// Wait for an event, or for a moment.
    WaitUntil(Moment),
}

/// How the page polls while the control flow is [`ControlFlow::Poll`].
#[derive(Clone, Copy, Debug, PartialEq, Eq, Structural)]
pub enum PollStrategy {
    IdleCallback,
    Scheduler,
}

/// How the page waits while the control flow is [`ControlFlow::WaitUntil`].
#[derive(Clone, Copy, Debug, PartialEq, Eq, Structural)]
pub enum WaitUntilStrategy {
    Scheduler,
    Worker,
}

impl Default for PollStrategy {
    fn default() -> (strategy: PollStrategy)
        ensures
            strategy == PollStrategy::Scheduler,
    {
        PollStrategy::Scheduler
    }
}

impl Default for WaitUntilStrategy {
    fn default() -> (strategy: WaitUntilStrategy)
        ensures
            strategy == WaitUntilStrategy::Scheduler,
    {
        WaitUntilStrategy::Scheduler
    }
}

/// How an attached worker schedules requested redraws. This controls application
/// pacing, not the browser compositor's presentation mode.
#[derive(Clone, Copy, Debug, PartialEq, Eq, Structural)]
pub enum WorkerRedrawStrategy {
    /// Follow dedicated-worker animation frames (the default).
    AnimationFrame,
    /// Yield through a message task without waiting for a display refresh.
    /// Browsers may still throttle or suspend background workers.
    Immediate,
}

impl Default for WorkerRedrawStrategy {
    fn default() -> (strategy: WorkerRedrawStrategy)
        ensures
            strategy == WorkerRedrawStrategy::AnimationFrame,
    {
        WorkerRedrawStrategy::AnimationFrame
    }
}

/// An event of a window. The details that the loop does not look at stay with the page: a number
/// stands for them, by which they are found again when the event is delivered.
#[derive(Clone, Copy, Debug, PartialEq, Eq)]
pub enum WindowEvent {
    /// The scale factor of the window has changed. The application may answer with a size:
    /// `inner_size` is the size that the answer starts out as, if it can still be given.
    ScaleFactorChanged { details: u64, inner_size: Option<PhysicalSize> },
    /// The application is to draw.
    RedrawRequested,
    /// Any other event.
    Other(u64),
}

/// An event of the loop.
#[derive(Clone, Copy, Debug, PartialEq, Eq)]
pub enum Event {
    NewEvents(StartCause),
    WindowEvent { window_id: WindowId, event: WindowEvent },
    DeviceEvent(u64),
    UserEvent,
    Suspended,
    Resumed,
    AboutToWait,
    LoopExiting,
    MemoryWarning,
}

} // verus!
