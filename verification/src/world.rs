//! A running loop, and whatever may happen to it.
//!
//! The page, the browser and the application act on the loop in any order. A [`World`] is the loop
//! together with what it shares with the page, a [`Happening`] one act, and the functions of this
//! module say what a sequence of them leaves, and what the application was told meanwhile.

use std::task::Waker;
use vstd::prelude::*;

use crate::event::{
    ControlFlow, Event, PhysicalSize, PollStrategy, StartCause, WaitUntilStrategy,
    WorkerRedrawStrategy,
};
use crate::queue::ForwardedEvent;
use crate::runner::{Action, FrameChange, Phase, WorkerRunner};
use crate::shared::{parcel, SharedView};
use crate::time::Moment;

verus! {

/// A loop and what it shares with the page.
pub struct World<C> {
    pub runner: WorkerRunner<C>,
    pub shared: SharedView,
}

/// Something that happens to a running loop.
pub enum Happening {
    /// The caller asks for the next action of a cycle, and performs it.
    Step(Moment),
    /// The caller hands over the size that the application has answered.
    Reply(PhysicalSize),
    /// The timer fires.
    Timer(Moment),
    /// The scheduled frame comes.
    Frame(Moment),
    /// Between two cycles, the loop listens for news, and begins a cycle if there is any. It
    /// leaves word that the waker wakes it.
    Listen(Moment, Waker),
    /// The application asks for a redraw.
    RequestRedraw,
    /// The application changes the pacing of redraws.
    SetRedrawStrategy(WorkerRedrawStrategy),
    /// The application says how to go on after the cycle.
    SetControlFlow(ControlFlow),
    SetPollStrategy(PollStrategy),
    SetWaitUntilStrategy(WaitUntilStrategy),
    /// The application asks for its window.
    CreateWindow,
    /// The application ends the loop.
    Exit,
    /// The page has an event.
    Forward(Event),
    /// The application is woken from anywhere.
    WakeUser,
}

impl<C> World<C> {
    /// The loop has been started: the application is installed and the first cycle has begun.
    pub open spec fn begins(self) -> bool {
        &&& self.runner.phase == Phase::Start(StartCause::Init)
        &&& self.runner.handler
        &&& !self.shared.closed
        &&& self.shared.wf()
    }

    /// What a happening leaves.
    pub open spec fn next(self, happening: Happening) -> World<C> {
        let World { runner, shared } = self;
        match happening {
            Happening::Step(now) => World {
                runner: runner.advance(shared, now).runner,
                shared: runner.advance(shared, now).shared,
            },
            Happening::Reply(_) => World { runner: runner.replied(), shared },
            Happening::Timer(now) => if runner.timer {
                World { runner: runner.waking(shared, now), shared }
            } else {
                self
            },
            Happening::Frame(now) => if runner.frame {
                World { runner: runner.framed().waking(shared, now), shared }
            } else {
                self
            },
            Happening::Listen(now, waker) => if runner.phase != Phase::Idle {
                self
            } else if shared.ready() {
                World { runner: runner.waking(shared.poll(waker), now), shared: shared.poll(waker) }
            } else {
                World { runner, shared: shared.poll(waker) }
            },
            Happening::RequestRedraw => World { runner: runner.redrawing(), shared },
            Happening::SetRedrawStrategy(strategy) => World {
                runner: runner.repaced(strategy),
                shared,
            },
            Happening::SetControlFlow(flow) => World {
                runner: WorkerRunner { control: flow, ..runner },
                shared,
            },
            Happening::SetPollStrategy(strategy) => World {
                runner: WorkerRunner { poll: strategy, ..runner },
                shared,
            },
            Happening::SetWaitUntilStrategy(strategy) => World {
                runner: WorkerRunner { wait: strategy, ..runner },
                shared,
            },
            Happening::CreateWindow => World {
                runner: WorkerRunner { window_claimed: true, ..runner },
                shared,
            },
            Happening::Exit => World {
                runner: WorkerRunner { exit: true, ..runner },
                shared: shared.notify(),
            },
            Happening::Forward(event) => World { runner, shared: shared.forward(event) },
            Happening::WakeUser => World { runner, shared: shared.wake_user() },
        }
    }

    /// The action that a happening performs.
    pub open spec fn action(self, happening: Happening) -> Action {
        match happening {
            Happening::Step(now) => self.runner.advance(self.shared, now).action,
            _ => Action::Continue,
        }
    }

    /// What a happening tells the application.
    pub open spec fn telling(self, happening: Happening) -> Seq<Event> {
        match self.action(happening) {
            Action::Emit(event) => seq![event],
            _ => seq![],
        }
    }

    /// The events that the page gets queued by a happening.
    pub open spec fn sending(self, happening: Happening) -> Seq<ForwardedEvent> {
        match happening {
            Happening::Forward(event) => if self.shared.takes(event) {
                seq![parcel(event)]
            } else {
                seq![]
            },
            _ => seq![],
        }
    }

    /// Whether a happening delivers an event of the page, or learns that there is none.
    pub open spec fn drains(self, happening: Happening) -> bool {
        happening is Step && self.runner.phase == Phase::Drain
    }

    /// The events of the page that a happening takes from the queue.
    pub open spec fn taking(self, happening: Happening) -> Seq<ForwardedEvent> {
        if self.drains(happening) && self.shared.events.len() > 0 {
            seq![self.shared.events[0]]
        } else {
            seq![]
        }
    }

    /// The events of the page that a happening tells the application.
    pub open spec fn delivering(self, happening: Happening) -> Seq<Event> {
        if self.drains(happening) {
            self.telling(happening)
        } else {
            seq![]
        }
    }

    /// Whether a happening wakes the application.
    pub open spec fn wakes(self, happening: Happening) -> bool {
        happening is WakeUser && !self.shared.closed
    }

    /// Whether a happening tells the application that it was woken.
    pub open spec fn tells_wake(self, happening: Happening) -> bool {
        happening is Step && self.runner.phase is User && self.telling(happening).len() > 0
    }

    /// How many frames a happening schedules.
    pub open spec fn schedules(self, happening: Happening) -> nat {
        match happening {
            Happening::RequestRedraw => if self.runner.can_schedule() {
                1
            } else {
                0
            },
            Happening::SetRedrawStrategy(strategy) => if self.runner.frame_change(
                strategy,
            ) is Reschedule {
                1
            } else {
                0
            },
            _ => 0,
        }
    }

    /// How many scheduled frames a happening drops.
    pub open spec fn drops(self, happening: Happening) -> nat {
        match happening {
            Happening::SetRedrawStrategy(strategy) => if self.runner.frame_change(strategy)
                == FrameChange::Keep {
                0
            } else {
                1
            },
            _ => if self.action(happening) == Action::CancelFrame {
                1
            } else {
                0
            },
        }
    }

    /// How many scheduled frames come with a happening.
    pub open spec fn comes(self, happening: Happening) -> nat {
        if happening is Frame && self.runner.frame {
            1
        } else {
            0
        }
    }

    /// Whether a happening has the application draw because a frame has come.
    pub open spec fn draws(self, happening: Happening) -> nat {
        if happening is Step && self.runner.phase == Phase::Redraw && self.telling(happening).len()
            > 0 {
            1
        } else {
            0
        }
    }

    /// How many timers a happening sets.
    pub open spec fn arms(self, happening: Happening) -> nat {
        if self.action(happening) is Arm {
            1
        } else {
            0
        }
    }

    /// How many timers a happening drops.
    pub open spec fn disarms(self, happening: Happening) -> nat {
        if self.action(happening) == Action::CancelTimer {
            1
        } else {
            0
        }
    }

    /// What a sequence of happenings leaves.
    pub open spec fn after(self, happenings: Seq<Happening>) -> World<C>
        decreases happenings.len(),
    {
        if happenings.len() == 0 {
            self
        } else {
            self.after(happenings.drop_last()).next(happenings.last())
        }
    }

    /// What a sequence of happenings tells the application.
    pub open spec fn told(self, happenings: Seq<Happening>) -> Seq<Event>
        decreases happenings.len(),
    {
        if happenings.len() == 0 {
            seq![]
        } else {
            self.told(happenings.drop_last()) + self.after(happenings.drop_last()).telling(
                happenings.last(),
            )
        }
    }

    /// The events that the page gets queued in a sequence of happenings.
    pub open spec fn sent(self, happenings: Seq<Happening>) -> Seq<ForwardedEvent>
        decreases happenings.len(),
    {
        if happenings.len() == 0 {
            seq![]
        } else {
            self.sent(happenings.drop_last()) + self.after(happenings.drop_last()).sending(
                happenings.last(),
            )
        }
    }

    /// The events of the page that a sequence of happenings takes from the queue.
    pub open spec fn taken(self, happenings: Seq<Happening>) -> Seq<ForwardedEvent>
        decreases happenings.len(),
    {
        if happenings.len() == 0 {
            seq![]
        } else {
            self.taken(happenings.drop_last()) + self.after(happenings.drop_last()).taking(
                happenings.last(),
            )
        }
    }

    /// The events of the page that a sequence of happenings tells the application.
    pub open spec fn delivered(self, happenings: Seq<Happening>) -> Seq<Event>
        decreases happenings.len(),
    {
        if happenings.len() == 0 {
            seq![]
        } else {
            self.delivered(happenings.drop_last()) + self.after(happenings.drop_last()).delivering(
                happenings.last(),
            )
        }
    }

    /// How often the application is woken.
    pub open spec fn woken(self, happenings: Seq<Happening>) -> nat
        decreases happenings.len(),
    {
        if happenings.len() == 0 {
            0
        } else {
            self.woken(happenings.drop_last()) + if self.after(happenings.drop_last()).wakes(
                happenings.last(),
            ) {
                1nat
            } else {
                0nat
            }
        }
    }

    /// How often the application is told that it was woken.
    pub open spec fn told_woken(self, happenings: Seq<Happening>) -> nat
        decreases happenings.len(),
    {
        if happenings.len() == 0 {
            0
        } else {
            self.told_woken(happenings.drop_last()) + if self.after(
                happenings.drop_last(),
            ).tells_wake(happenings.last()) {
                1nat
            } else {
                0nat
            }
        }
    }

    /// How many frames are scheduled.
    pub open spec fn scheduled(self, happenings: Seq<Happening>) -> nat
        decreases happenings.len(),
    {
        if happenings.len() == 0 {
            0
        } else {
            self.scheduled(happenings.drop_last()) + self.after(happenings.drop_last()).schedules(
                happenings.last(),
            )
        }
    }

    /// How many scheduled frames are dropped.
    pub open spec fn dropped(self, happenings: Seq<Happening>) -> nat
        decreases happenings.len(),
    {
        if happenings.len() == 0 {
            0
        } else {
            self.dropped(happenings.drop_last()) + self.after(happenings.drop_last()).drops(
                happenings.last(),
            )
        }
    }

    /// How many scheduled frames come.
    pub open spec fn came(self, happenings: Seq<Happening>) -> nat
        decreases happenings.len(),
    {
        if happenings.len() == 0 {
            0
        } else {
            self.came(happenings.drop_last()) + self.after(happenings.drop_last()).comes(
                happenings.last(),
            )
        }
    }

    /// How often the application is told to draw because a frame has come.
    pub open spec fn drawn(self, happenings: Seq<Happening>) -> nat
        decreases happenings.len(),
    {
        if happenings.len() == 0 {
            0
        } else {
            self.drawn(happenings.drop_last()) + self.after(happenings.drop_last()).draws(
                happenings.last(),
            )
        }
    }

    /// How many timers are set.
    pub open spec fn armed(self, happenings: Seq<Happening>) -> nat
        decreases happenings.len(),
    {
        if happenings.len() == 0 {
            0
        } else {
            self.armed(happenings.drop_last()) + self.after(happenings.drop_last()).arms(
                happenings.last(),
            )
        }
    }

    /// How many timers are dropped.
    pub open spec fn disarmed(self, happenings: Seq<Happening>) -> nat
        decreases happenings.len(),
    {
        if happenings.len() == 0 {
            0
        } else {
            self.disarmed(happenings.drop_last()) + self.after(happenings.drop_last()).disarms(
                happenings.last(),
            )
        }
    }
}

} // verus!
