//! The browser's callbacks: how each is asked for, and how it is dropped again.

use vstd::prelude::*;

verus! {

/// The milliseconds after which a frame is drawn where the browser has no animation frames for
/// workers.
pub const FRAME_FALLBACK_MILLIS: i32 = 16;

/// A callback that the browser was asked for.
#[derive(Clone, Copy, Debug, PartialEq, Eq, Structural)]
pub struct Callback {
    /// The number that the browser gave it.
    pub handle: i32,
    /// Whether it is an animation frame.
    pub frame: bool,
    /// Whether it comes as a message, through a port.
    pub port: bool,
}

/// What is left to do for an animation frame once the browser was asked for it.
#[derive(Clone, Copy, Debug, PartialEq, Eq, Structural)]
pub enum FrameRequest {
    /// Nothing: it will come.
    Scheduled(Callback),
    /// It will not come: a timeout of so many milliseconds is to take its place.
    SetTimeout(i32),
}

/// How a callback is dropped.
#[derive(Clone, Copy, Debug, PartialEq, Eq, Structural)]
pub enum Teardown {
    /// The port lets go of its listener and is closed.
    ClosePort,
    /// The animation frame of this number is cancelled.
    CancelAnimationFrame(i32),
    /// The timeout of this number is cleared.
    ClearTimeout(i32),
}

impl Callback {
    /// A callback through a message that has been posted.
    pub fn immediate() -> (callback: Callback)
        ensures
            callback == (Callback { handle: 0, frame: false, port: true }),
    {
        Callback { handle: 0, frame: false, port: true }
    }

    /// A callback through a timeout that has been set.
    pub fn timeout(handle: i32) -> (callback: Callback)
        ensures
            callback == (Callback { handle, frame: false, port: false }),
    {
        Callback { handle, frame: false, port: false }
    }

    /// A callback through an animation frame, by what the browser answered: the number of the
    /// frame, or none where it refused.
    pub fn frame(answer: Option<i32>) -> (request: FrameRequest)
        ensures
            request == match answer {
                Some(handle) => FrameRequest::Scheduled(
                    Callback { handle, frame: true, port: false },
                ),
                None => FrameRequest::SetTimeout(FRAME_FALLBACK_MILLIS),
            },
    {
        match answer {
            Some(handle) => FrameRequest::Scheduled(Callback { handle, frame: true, port: false }),
            None => FrameRequest::SetTimeout(FRAME_FALLBACK_MILLIS),
        }
    }

    /// How the callback is dropped: a message by its port, anything else by its number.
    pub fn teardown(&self) -> (teardown: Teardown)
        ensures
            self.port ==> teardown == Teardown::ClosePort,
            !self.port && self.frame ==> teardown == Teardown::CancelAnimationFrame(self.handle),
            !self.port && !self.frame ==> teardown == Teardown::ClearTimeout(self.handle),
    {
        if self.port {
            Teardown::ClosePort
        } else if self.frame {
            Teardown::CancelAnimationFrame(self.handle)
        } else {
            Teardown::ClearTimeout(self.handle)
        }
    }
}

/// A callback is dropped in the way in which it was asked for, and by the number that the browser
/// gave it: a message by its port, a timeout as a timeout, and an animation frame as one. Where the
/// browser refuses an animation frame, a timeout of sixteen milliseconds takes its place.
pub proof fn law_callback_is_dropped_as_asked_for(
    handle: i32,
    answer: Option<i32>,
    request: FrameRequest,
    callback: Callback,
    teardown: Teardown,
)
    requires
        call_ensures(Callback::frame, (answer,), request),
        call_ensures(Callback::teardown, (&callback,), teardown),
    ensures
        call_ensures(Callback::immediate, (), callback) ==> teardown == Teardown::ClosePort,
        call_ensures(Callback::timeout, (handle,), callback) ==> teardown == Teardown::ClearTimeout(
            handle,
        ),
        answer is Some ==> request is Scheduled,
        answer is Some && callback == request->Scheduled_0 ==> teardown
            == Teardown::CancelAnimationFrame(answer->0),
        answer is None ==> request == FrameRequest::SetTimeout(16),
{
}

} // verus!
