//! What holds of every run of the loop, whatever happens to it.

use std::task::Waker;
use vstd::prelude::*;

use crate::event::{ControlFlow, Event, StartCause};
use crate::queue::ForwardedEvent;
use crate::runner::{wake_cause_spec, Action, Phase, WorkerRunner};
use crate::shared::SharedView;
use crate::time::{delay_spec, Moment};
use crate::world::{Happening, World};

pub mod drawing;
pub mod ending;
pub mod passing;
pub mod settings;
pub mod stepping;
pub mod waiting;

verus! {

/// Where a sequence of events stands that the application was told.
pub enum Order {
    /// Nothing was told.
    Fresh,
    /// The first cycle has begun.
    First,
    /// A cycle is under way.
    Inside,
    /// The last cycle is over.
    Between,
    /// The loop has ended.
    Over,
    /// No loop tells this.
    Broken,
}

/// Where a sequence stands after one more event. The first cycle begins with `NewEvents(Init)` and
/// `Resumed`, any other with `NewEvents` of another cause. A cycle ends with `AboutToWait`. The loop
/// ends with `LoopExiting`, after a cycle.
pub open spec fn order_next(order: Order, event: Event) -> Order {
    match order {
        Order::Fresh => if event == Event::NewEvents(StartCause::Init) {
            Order::First
        } else {
            Order::Broken
        },
        Order::First => if event == Event::Resumed {
            Order::Inside
        } else {
            Order::Broken
        },
        Order::Inside => match event {
            Event::NewEvents(_) | Event::LoopExiting => Order::Broken,
            Event::AboutToWait => Order::Between,
            _ => Order::Inside,
        },
        Order::Between => match event {
            Event::NewEvents(cause) => if cause == StartCause::Init {
                Order::Broken
            } else {
                Order::Inside
            },
            Event::LoopExiting => Order::Over,
            _ => Order::Broken,
        },
        Order::Over | Order::Broken => Order::Broken,
    }
}

/// Where a sequence of events stands.
pub open spec fn order(events: Seq<Event>) -> Order
    decreases events.len(),
{
    if events.len() == 0 {
        Order::Fresh
    } else {
        order_next(order(events.drop_last()), events.last())
    }
}

/// Where the events stand that a runner has told an application.
pub open spec fn order_of<C>(runner: WorkerRunner<C>) -> Order {
    match runner.phase {
        Phase::Start(cause) | Phase::Begin(cause) => if cause == StartCause::Init {
            Order::Fresh
        } else {
            Order::Between
        },
        Phase::Resume => Order::First,
        Phase::Drain | Phase::Reply { .. } | Phase::Count | Phase::User(_) | Phase::Redraw
        | Phase::AboutToWait => Order::Inside,
        Phase::Settle | Phase::Exiting => Order::Between,
        Phase::Leaving => Order::Over,
        Phase::Idle => if runner.handler {
            Order::Between
        } else {
            Order::Over
        },
    }
}

/// What is true of a started loop at every moment.
pub open spec fn sound<C>(world: World<C>) -> bool {
    let World { runner, shared } = world;
    &&& shared.wf()
    // The loop has ended exactly where the application was, or is about to be, told so.
    &&& match runner.phase {
        Phase::Exiting | Phase::Leaving => shared.closed && runner.handler,
        Phase::Idle => shared.closed != runner.handler,
        _ => !shared.closed && runner.handler,
    }
    // A loop that has ended has no frame scheduled, and schedules none.
    &&& shared.closed ==> runner.exit && !runner.frame
    // A timer is set only between cycles.
    &&& !(runner.phase is Idle) && !(runner.phase is Start) ==> !runner.timer
    &&& shared.closed ==> !runner.timer
}

/// The loop never sleeps on news: what came in after the cycle looked is announced.
pub open spec fn alert<C>(world: World<C>) -> bool {
    let World { runner, shared } = world;
    match runner.phase {
        Phase::Idle => shared.closed || shared.notified || (shared.events.len() == 0
            && shared.user_events == 0 && !runner.exit),
        Phase::Count => shared.notified || runner.exit || shared.events.len() == 0,
        Phase::User(_) | Phase::Redraw | Phase::AboutToWait | Phase::Settle => shared.notified
            || runner.exit || (shared.events.len() == 0 && shared.user_events == 0),
        _ => true,
    }
}

proof fn sound_next<C>(world: World<C>, happening: Happening)
    requires
        sound(world),
    ensures
        sound(world.next(happening)),
{
}

proof fn alert_next<C>(world: World<C>, happening: Happening)
    requires
        sound(world),
        alert(world),
    ensures
        alert(world.next(happening)),
{
}

/// A worker that was attached, and whose loop has not ended, is started by running its loop.
pub proof fn law_running_begins<C>(id: u32, canvas: C, since: Moment, shared: SharedView)
    requires
        shared.wf(),
        !shared.closed,
    ensures
        (World {
            runner: WorkerRunner::attached(id, canvas, since).running(shared),
            shared,
        }).begins(),
{
}

/// Every started loop is sound, whatever happens to it.
pub proof fn law_sound<C>(world: World<C>, happenings: Seq<Happening>)
    requires
        world.begins(),
    ensures
        sound(world.after(happenings)),
    decreases happenings.len(),
{
    if happenings.len() > 0 {
        law_sound(world, happenings.drop_last());
        sound_next(world.after(happenings.drop_last()), happenings.last());
    }
}

proof fn order_grows<C>(world: World<C>, happening: Happening, events: Seq<Event>)
    requires
        sound(world),
        order(events) == order_of(world.runner),
    ensures
        order(events + world.telling(happening)) == order_of(world.next(happening).runner),
{
    let told = world.telling(happening);
    if told.len() == 0 {
        assert(events + told =~= events);
    } else {
        assert((events + told).drop_last() =~= events);
    }
}

/// The application is told of events in order: `NewEvents(Init)` and `Resumed` come first, each
/// cycle begins with `NewEvents` and ends with `AboutToWait`, and `LoopExiting` comes after a
/// cycle, once, and last.
pub proof fn law_events_in_order<C>(world: World<C>, happenings: Seq<Happening>)
    requires
        world.begins(),
    ensures
        order(world.told(happenings)) == order_of(world.after(happenings).runner),
        order(world.told(happenings)) != Order::Broken,
    decreases happenings.len(),
{
    if happenings.len() > 0 {
        law_events_in_order(world, happenings.drop_last());
        law_sound(world, happenings.drop_last());
        order_grows(
            world.after(happenings.drop_last()),
            happenings.last(),
            world.told(happenings.drop_last()),
        );
    }
}

/// What the order of events means: how a sequence starts, what surrounds the end of a cycle, and
/// that nothing follows the end of the loop.
pub proof fn law_order_meaning(events: Seq<Event>)
    requires
        order(events) != Order::Broken,
    ensures
        events.len() > 0 ==> events[0] == Event::NewEvents(StartCause::Init),
        events.len() > 1 ==> events[1] == Event::Resumed,
        forall|i: int|
            0 < i < events.len() && (#[trigger] events[i] is NewEvents || events[i]
                == Event::LoopExiting) ==> events[i - 1] == Event::AboutToWait && events[i]
                != Event::NewEvents(StartCause::Init),
        forall|i: int|
            0 <= i < events.len() - 1 && #[trigger] events[i] == Event::AboutToWait ==> (events[i
                + 1] is NewEvents || events[i + 1] == Event::LoopExiting),
        forall|i: int|
            0 <= i < events.len() && #[trigger] events[i] == Event::LoopExiting ==> i
                == events.len() - 1,
        order(events) == Order::Over <==> (events.len() > 0 && events.last()
            == Event::LoopExiting),
        order(events) == Order::Between <==> (events.len() > 0 && events.last()
            == Event::AboutToWait),
    decreases events.len(),
{
    if events.len() > 0 {
        let before = events.drop_last();
        law_order_meaning(before);
        assert forall|i: int| 0 <= i < before.len() implies #[trigger] events[i] == before[i] by {}
        if events.len() == 2 {
            assert(order(before) == order_next(order(before.drop_last()), before.last()));
            assert(before.drop_last().len() == 0);
        }
        if events.len() > 1 {
            assert(before.last() == events[events.len() - 2]);
        }
    }
}

/// What a sequence of events taken from the page has the application told: all of them but the
/// end of the page's loop.
pub open spec fn contents(taken: Seq<ForwardedEvent>) -> Seq<Event>
    decreases taken.len(),
{
    if taken.len() == 0 {
        seq![]
    } else if taken.last().event == Event::LoopExiting {
        contents(taken.drop_last())
    } else {
        contents(taken.drop_last()).push(taken.last().event)
    }
}

proof fn contents_grow(taken: Seq<ForwardedEvent>, taking: Seq<ForwardedEvent>)
    requires
        taking.len() <= 1,
    ensures
        contents(taken + taking) == contents(taken) + contents(taking),
{
    if taking.len() == 0 {
        assert(taken + taking =~= taken);
    } else {
        assert((taken + taking).drop_last() =~= taken);
        assert(contents(taking.drop_last()) =~= seq![]);
    }
}

proof fn queue_step<C>(world: World<C>, happening: Happening)
    requires
        sound(world),
    ensures
        world.taking(happening).len() <= 1,
        world.taking(happening) + world.next(happening).shared.events == world.shared.events
            + world.sending(happening),
        world.delivering(happening) == contents(world.taking(happening)),
{
    let taking = world.taking(happening);
    let rest = world.next(happening).shared.events;
    if taking.len() > 0 {
        assert(taking + rest =~= world.shared.events + world.sending(happening));
        assert(contents(taking.drop_last()) =~= seq![]);
        assert(world.delivering(happening) =~= contents(taking));
    } else {
        assert(taking + rest =~= rest);
        assert(rest =~= world.shared.events + world.sending(happening));
    }
}

/// No event of the page is lost, doubled or overtaken: those that were taken and those that wait
/// are, in order, those that waited at first and those that the page has sent since. And those that
/// were taken are what the application was told, but for the end of the page's loop.
pub proof fn law_nothing_lost<C>(world: World<C>, happenings: Seq<Happening>)
    requires
        world.begins(),
    ensures
        world.taken(happenings) + world.after(happenings).shared.events == world.shared.events
            + world.sent(happenings),
        world.delivered(happenings) == contents(world.taken(happenings)),
    decreases happenings.len(),
{
    if happenings.len() == 0 {
        assert(world.taken(happenings) + world.shared.events =~= world.shared.events + world.sent(
            happenings,
        ));
    } else {
        let earlier = happenings.drop_last();
        let before = world.after(earlier);
        law_nothing_lost(world, earlier);
        law_sound(world, earlier);
        queue_step(before, happenings.last());
        let (taken, taking) = (world.taken(earlier), before.taking(happenings.last()));
        let (sent, sending) = (world.sent(earlier), before.sending(happenings.last()));
        let rest = before.next(happenings.last()).shared.events;
        assert((taken + taking) + rest =~= taken + (taking + rest));
        assert((taken + before.shared.events) + sending =~= taken + (before.shared.events
            + sending));
        assert(world.shared.events + (sent + sending) =~= (world.shared.events + sent) + sending);
        contents_grow(taken, taking);
    }
}

/// How often an application is yet to be told that it was woken.
pub open spec fn untold<C>(world: World<C>) -> nat {
    world.shared.user_events as nat + match world.runner.phase {
        Phase::User(count) => count as nat,
        _ => 0nat,
    }
}

proof fn untold_step<C>(world: World<C>, happening: Happening)
    requires
        sound(world),
        world.wakes(happening) ==> world.shared.user_events < usize::MAX,
    ensures
        untold(world.next(happening)) + (if world.tells_wake(happening) {
            1nat
        } else {
            0nat
        }) == untold(world) + if world.wakes(happening) {
            1nat
        } else {
            0nat
        },
{
}

/// Whether a `usize` can count the wakeups of the application, each time that it is woken.
pub open spec fn countable<C>(world: World<C>, happenings: Seq<Happening>) -> bool
    decreases happenings.len(),
{
    happenings.len() > 0 ==> {
        let before = world.after(happenings.drop_last());
        &&& countable(world, happenings.drop_last())
        &&& before.wakes(happenings.last()) ==> before.shared.user_events < usize::MAX
    }
}

/// Each wakeup of the application is told once, as long as the wakeups that are yet to be taken can
/// be counted.
pub proof fn law_wakeups_told<C>(world: World<C>, happenings: Seq<Happening>)
    requires
        world.begins(),
        countable(world, happenings),
    ensures
        world.told_woken(happenings) + untold(world.after(happenings)) == world.shared.user_events
            + world.woken(happenings),
    decreases happenings.len(),
{
    if happenings.len() > 0 {
        law_wakeups_told(world, happenings.drop_last());
        law_sound(world, happenings.drop_last());
        untold_step(world.after(happenings.drop_last()), happenings.last());
    }
}

/// Each frame that is scheduled comes, is dropped, or is still scheduled, and there is never more
/// than one. The application draws no more often than frames come.
pub proof fn law_frames_accounted<C>(world: World<C>, happenings: Seq<Happening>)
    requires
        world.begins(),
    ensures
        world.scheduled(happenings) + (if world.runner.frame {
            1int
        } else {
            0
        }) == world.came(happenings) + world.dropped(happenings) + (if world.after(
            happenings,
        ).runner.frame {
            1int
        } else {
            0
        }),
        world.drawn(happenings) + (if world.after(happenings).runner.redraw {
            1int
        } else {
            0
        }) <= world.came(happenings) + (if world.runner.redraw {
            1int
        } else {
            0
        }),
    decreases happenings.len(),
{
    if happenings.len() > 0 {
        law_frames_accounted(world, happenings.drop_last());
        law_sound(world, happenings.drop_last());
    }
}

/// Whether a cycle is under way that has yet to come to the redraw.
pub open spec fn before_redraw(phase: Phase) -> bool {
    match phase {
        Phase::Start(_) | Phase::Begin(_) | Phase::Resume | Phase::Drain | Phase::Reply { .. }
        | Phase::Count | Phase::User(_) | Phase::Redraw => true,
        _ => false,
    }
}

/// Whether no frame comes in a sequence of happenings.
pub open spec fn frameless(happenings: Seq<Happening>) -> bool {
    forall|i: int| 0 <= i < happenings.len() ==> !(#[trigger] happenings[i] is Frame)
}

proof fn draw_step<C>(world: World<C>, happening: Happening)
    requires
        sound(world),
    ensures
        before_redraw(world.runner.phase) && world.runner.redraw ==> {
            ||| world.draws(happening) == 1
            ||| before_redraw(world.next(happening).runner.phase) && world.next(
                happening,
            ).runner.redraw && world.draws(happening) == 0
        },
        world.draws(happening) <= 1,
        !(happening is Frame) && (world.draws(happening) == 1 || !world.runner.redraw)
            ==> !world.next(happening).runner.redraw,
        world.draws(happening) == 1 ==> world.runner.redraw,
{
}

proof fn due_redraw_is_drawn<C>(world: World<C>, happenings: Seq<Happening>)
    requires
        sound(world),
        before_redraw(world.runner.phase),
        world.runner.redraw,
    ensures
        ({
            let after = world.after(happenings);
            &&& sound(after)
            &&& world.drawn(happenings) == 0 ==> before_redraw(after.runner.phase)
                && after.runner.redraw
            &&& frameless(happenings) ==> world.drawn(happenings) <= 1 && (world.drawn(happenings)
                == 1 ==> !after.runner.redraw)
        }),
    decreases happenings.len(),
{
    if happenings.len() > 0 {
        let earlier = happenings.drop_last();
        due_redraw_is_drawn(world, earlier);
        sound_next(world.after(earlier), happenings.last());
        draw_step(world.after(earlier), happenings.last());
        if frameless(happenings) {
            assert(forall|i: int| 0 <= i < earlier.len() ==> earlier[i] == happenings[i]);
            assert(frameless(earlier));
        }
    }
}

/// A frame that comes between cycles begins a cycle, and is drawn in it: once the cycle is past the
/// redraw, the application was told to draw, and, where no other frame has come, just once.
pub proof fn law_frame_is_drawn<C>(world: World<C>, now: Moment, happenings: Seq<Happening>)
    requires
        sound(world),
        world.runner.phase == Phase::Idle,
        !world.shared.closed,
        world.runner.frame,
    ensures
        ({
            let begun = world.next(Happening::Frame(now));
            let after = begun.after(happenings);
            &&& begun.runner.phase is Start
            &&& !before_redraw(after.runner.phase) ==> begun.drawn(happenings) >= 1
            &&& !before_redraw(after.runner.phase) && frameless(happenings) ==> begun.drawn(
                happenings,
            ) == 1
        }),
{
    sound_next(world, Happening::Frame(now));
    due_redraw_is_drawn(world.next(Happening::Frame(now)), happenings);
}

/// The loop never sleeps on news: while it is between cycles and has not ended, an event that
/// waits, a wakeup of the application and a request to end are announced, so that the loop, when it
/// next listens, begins a cycle.
pub proof fn law_never_sleeps_on_news<C>(
    world: World<C>,
    happenings: Seq<Happening>,
    now: Moment,
    waker: Waker,
)
    requires
        world.begins(),
    ensures
        alert(world.after(happenings)),
        ({
            let World { runner, shared } = world.after(happenings);
            runner.phase == Phase::Idle && !shared.closed && (shared.events.len() > 0
                || shared.user_events > 0 || runner.exit) ==> shared.ready() && world.after(
                happenings,
            ).next(Happening::Listen(now, waker)).runner.phase is Start
        }),
    decreases happenings.len(),
{
    if happenings.len() > 0 {
        law_never_sleeps_on_news(world, happenings.drop_last(), now, waker);
        law_sound(world, happenings.drop_last());
        alert_next(world.after(happenings.drop_last()), happenings.last());
    }
}

/// Whether a happening brings news: an event of the page is queued, the application is woken, or
/// the loop is to end.
pub open spec fn brings_news<C>(world: World<C>, happening: Happening) -> bool {
    match happening {
        Happening::Forward(event) => !world.shared.closed && !(event is NewEvents) && !(event
            is AboutToWait),
        Happening::WakeUser => !world.shared.closed,
        Happening::Exit => true,
        _ => false,
    }
}

/// News wakes whoever has left word, once, and is announced.
pub proof fn law_news_wakes<C>(world: World<C>, happening: Happening)
    requires
        brings_news(world, happening),
    ensures
        world.next(happening).shared.notified,
        world.next(happening).shared.parked is None,
        world.next(happening).shared.woken == match world.shared.parked {
            Some(waker) => world.shared.woken.push(waker),
            None => world.shared.woken,
        },
{
}

/// Nobody sleeps while there is news: whoever had left word when it was announced was woken.
pub proof fn law_nobody_sleeps_beside_news<C>(world: World<C>, happenings: Seq<Happening>)
    requires
        world.shared.notified ==> world.shared.parked is None,
    ensures
        ({
            let shared = world.after(happenings).shared;
            shared.notified ==> shared.parked is None
        }),
    decreases happenings.len(),
{
    if happenings.len() > 0 {
        law_nobody_sleeps_beside_news(world, happenings.drop_last());
    }
}

/// Whether the loop does not listen in a sequence of happenings.
pub open spec fn deaf(happenings: Seq<Happening>) -> bool {
    forall|i: int| 0 <= i < happenings.len() ==> !(#[trigger] happenings[i] is Listen)
}

/// What has become of a loop that went to sleep where `woken` had been woken before: it sleeps on,
/// or there was news, and it was woken once.
pub open spec fn asleep_or_woken<C>(world: World<C>, woken: Seq<Waker>, waker: Waker) -> bool {
    if world.shared.notified {
        world.shared.parked is None && world.shared.woken == woken.push(waker)
    } else {
        world.shared.parked == Some(waker) && world.shared.woken == woken
    }
}

proof fn sleep_step<C>(world: World<C>, happening: Happening, woken: Seq<Waker>, waker: Waker)
    requires
        asleep_or_woken(world, woken, waker),
        !(happening is Listen),
    ensures
        asleep_or_woken(world.next(happening), woken, waker),
{
}

proof fn sleeps_until_news<C>(
    world: World<C>,
    happenings: Seq<Happening>,
    woken: Seq<Waker>,
    waker: Waker,
)
    requires
        asleep_or_woken(world, woken, waker),
        deaf(happenings),
    ensures
        asleep_or_woken(world.after(happenings), woken, waker),
    decreases happenings.len(),
{
    if happenings.len() > 0 {
        let earlier = happenings.drop_last();
        assert forall|i: int| 0 <= i < earlier.len() implies !(#[trigger] earlier[i] is Listen) by {
            assert(earlier[i] == happenings[i]);
        }
        sleeps_until_news(world, earlier, woken, waker);
        sleep_step(world.after(earlier), happenings.last(), woken, waker);
    }
}

/// No wakeup is lost. A loop that listens between cycles, finds nothing and goes to sleep is woken
/// by the next news, once, and by nothing else, whatever happens until it listens again. While an
/// event, a wakeup of the application or a request to end waits between cycles, it has been woken,
/// and it begins a cycle when it listens.
pub proof fn law_sleeper_is_woken<C>(
    world: World<C>,
    before: Seq<Happening>,
    now: Moment,
    waker: Waker,
    meanwhile: Seq<Happening>,
    later: Moment,
)
    requires
        world.begins(),
        world.after(before).runner.phase == Phase::Idle,
        !world.after(before).shared.ready(),
        deaf(meanwhile),
    ensures
        ({
            let asleep = world.after(before).next(Happening::Listen(now, waker));
            let after = asleep.after(meanwhile);
            let woken = world.after(before).shared.woken;
            &&& asleep_or_woken(after, woken, waker)
            &&& after.runner.phase == Phase::Idle && !after.shared.closed && (
            after.shared.events.len() > 0 || after.shared.user_events > 0 || after.runner.exit) ==> {
                &&& after.shared.woken == woken.push(waker)
                &&& after.next(Happening::Listen(later, waker)).runner.phase is Start
            }
        }),
{
    let listen = Happening::Listen(now, waker);
    let asleep = world.after(before).next(listen);
    let woken = world.after(before).shared.woken;
    sleeps_until_news(asleep, meanwhile, woken, waker);
    assert(before.push(listen).drop_last() =~= before);
    after_joins(world, before.push(listen), meanwhile);
    law_never_sleeps_on_news(world, before.push(listen) + meanwhile, later, waker);
}

/// What follows a run is a run from where it left.
proof fn after_joins<C>(world: World<C>, first: Seq<Happening>, second: Seq<Happening>)
    ensures
        world.after(first + second) == world.after(first).after(second),
    decreases second.len(),
{
    if second.len() == 0 {
        assert(first + second =~= first);
    } else {
        assert((first + second).drop_last() =~= first + second.drop_last());
        after_joins(world, first, second.drop_last());
    }
}

/// The end of the loop is final: once it has ended and the application was let go, nothing begins
/// a cycle, the application is told nothing, and nothing more is queued.
pub proof fn law_end_is_final<C>(world: World<C>, happenings: Seq<Happening>)
    requires
        world.shared.closed,
        world.runner.phase == Phase::Idle,
    ensures
        world.after(happenings).shared.closed,
        world.after(happenings).runner.phase == Phase::Idle,
        world.after(happenings).shared.events == world.shared.events,
        world.after(happenings).shared.user_events == world.shared.user_events,
        world.told(happenings) == Seq::<Event>::empty(),
        world.sent(happenings) == Seq::<ForwardedEvent>::empty(),
    decreases happenings.len(),
{
    if happenings.len() > 0 {
        law_end_is_final(world, happenings.drop_last());
        assert(world.told(happenings) =~= Seq::empty());
        assert(world.sent(happenings) =~= Seq::empty());
    }
}

/// A request to end is never taken back, and a second one changes nothing more.
pub proof fn law_exit_is_kept<C>(world: World<C>, happenings: Seq<Happening>)
    ensures
        world.runner.exit ==> world.after(happenings).runner.exit,
        world.next(Happening::Exit).next(Happening::Exit) == world.next(Happening::Exit),
        world.next(Happening::Exit).runner.exit,
        world.next(Happening::Exit).shared.closed == world.shared.closed,
        world.telling(Happening::Exit) == Seq::<Event>::empty(),
    decreases happenings.len(),
{
    if happenings.len() > 0 {
        law_exit_is_kept(world, happenings.drop_last());
    }
}

/// How many cycles begin in a sequence of events.
pub open spec fn beginnings(events: Seq<Event>) -> nat
    decreases events.len(),
{
    if events.len() == 0 {
        0
    } else {
        beginnings(events.drop_last()) + if events.last() is NewEvents {
            1nat
        } else {
            0nat
        }
    }
}

/// How many more cycles a loop begins that is to end.
pub open spec fn cycles_left<C>(world: World<C>) -> nat {
    match world.runner.phase {
        Phase::Start(_) | Phase::Begin(_) => 1,
        Phase::Idle => if world.shared.closed {
            0
        } else {
            1
        },
        _ => 0,
    }
}

proof fn cycles_left_step<C>(world: World<C>, happening: Happening)
    requires
        sound(world),
        world.runner.exit,
    ensures
        world.next(happening).runner.exit,
        cycles_left(world.next(happening)) + (if world.telling(happening).len() > 0
            && world.telling(happening)[0] is NewEvents {
            1nat
        } else {
            0nat
        }) <= cycles_left(world),
{
}

/// A request to end is kept, and obeyed with the cycle that is under way, or, between cycles, with
/// the next: no other cycle begins.
pub proof fn law_exit_ends_the_loop<C>(world: World<C>, happenings: Seq<Happening>)
    requires
        sound(world),
        world.runner.exit,
    ensures
        sound(world.after(happenings)),
        world.after(happenings).runner.exit,
        beginnings(world.told(happenings)) + cycles_left(world.after(happenings)) <= cycles_left(
            world,
        ),
    decreases happenings.len(),
{
    if happenings.len() > 0 {
        let earlier = happenings.drop_last();
        let before = world.after(earlier);
        law_exit_ends_the_loop(world, earlier);
        sound_next(before, happenings.last());
        cycles_left_step(before, happenings.last());
        let telling = before.telling(happenings.last());
        if telling.len() == 0 {
            assert(world.told(happenings) =~= world.told(earlier));
        } else {
            assert(world.told(happenings).drop_last() =~= world.told(earlier));
        }
    }
}

/// There is never more than one timer: one is set only where none is, and dropped only where one
/// is. It is set between cycles alone, and not at all once the loop has ended.
pub proof fn law_one_timer<C>(world: World<C>, happenings: Seq<Happening>, happening: Happening)
    requires
        world.begins(),
    ensures
        ({
            let before = world.after(happenings);
            let after = before.next(happening);
            match before.action(happening) {
                Action::Arm(_) => !before.runner.timer && after.runner.timer,
                Action::CancelTimer => before.runner.timer && !after.runner.timer,
                _ => after.runner.timer == before.runner.timer,
            }
        }),
        world.after(happenings).shared.closed ==> !world.after(happenings).runner.timer,
{
    law_sound(world, happenings);
}

/// Each timer that is set is dropped, by the cycle after it, or is still set.
pub proof fn law_timers_accounted<C>(world: World<C>, happenings: Seq<Happening>)
    requires
        world.begins(),
    ensures
        world.armed(happenings) + (if world.runner.timer {
            1int
        } else {
            0
        }) == world.disarmed(happenings) + (if world.after(happenings).runner.timer {
            1int
        } else {
            0
        }),
    decreases happenings.len(),
{
    if happenings.len() > 0 {
        law_timers_accounted(world, happenings.drop_last());
        law_one_timer(world, happenings.drop_last(), happenings.last());
    }
}

/// Where no timer is set, none begins a cycle until one is set.
pub proof fn law_unset_timer_begins_nothing<C>(
    world: World<C>,
    happenings: Seq<Happening>,
    now: Moment,
)
    requires
        !world.runner.timer,
        world.armed(happenings) == 0,
    ensures
        !world.after(happenings).runner.timer,
        world.after(happenings).next(Happening::Timer(now)) == world.after(happenings),
    decreases happenings.len(),
{
    if happenings.len() > 0 {
        law_unset_timer_begins_nothing(world, happenings.drop_last(), now);
    }
}

/// A timer that was dropped begins no cycle, whatever happens, until another is set.
pub proof fn law_dropped_timer_begins_nothing<C>(
    world: World<C>,
    earlier: Seq<Happening>,
    drop: Happening,
    later: Seq<Happening>,
    now: Moment,
)
    requires
        world.begins(),
        world.after(earlier).action(drop) == Action::CancelTimer,
        world.after(earlier).next(drop).armed(later) == 0,
    ensures
        ({
            let after = world.after(earlier).next(drop).after(later);
            after.next(Happening::Timer(now)) == after
        }),
{
    law_one_timer(world, earlier, drop);
    law_unset_timer_begins_nothing(world.after(earlier).next(drop), later, now);
}

/// Whether a happening gives a loop between cycles cause for a cycle: the timer that is set fires,
/// the frame that is scheduled comes, or the loop listens and there is news.
pub open spec fn gives_cause<C>(world: World<C>, happening: Happening) -> bool {
    match happening {
        Happening::Timer(_) => world.runner.timer,
        Happening::Frame(_) => world.runner.frame,
        Happening::Listen(_, _) => world.shared.notified,
        _ => false,
    }
}

/// Between cycles, a cycle begins exactly where there is cause for one, unless the loop has ended.
pub proof fn law_cycle_has_a_cause<C>(world: World<C>, happening: Happening)
    requires
        world.runner.phase == Phase::Idle,
    ensures
        world.next(happening).runner.phase == Phase::Idle <==> world.shared.closed || !gives_cause(
            world,
            happening,
        ),
{
}

/// How often the application is given its window.
pub open spec fn claims<C>(world: World<C>, happenings: Seq<Happening>) -> nat
    decreases happenings.len(),
{
    if happenings.len() == 0 {
        0
    } else {
        claims(world, happenings.drop_last()) + if happenings.last() is CreateWindow && !world.after(
            happenings.drop_last(),
        ).runner.window_claimed {
            1nat
        } else {
            0nat
        }
    }
}

/// A worker has one window: however often the application asks, it is given one once at most.
pub proof fn law_one_window<C>(world: World<C>, happenings: Seq<Happening>)
    ensures
        claims(world, happenings) <= 1,
        claims(world, happenings) == 1 <==> (world.after(happenings).runner.window_claimed
            && !world.runner.window_claimed),
        world.runner.window_claimed ==> world.after(happenings).runner.window_claimed,
    decreases happenings.len(),
{
    if happenings.len() > 0 {
        law_one_window(world, happenings.drop_last());
    }
}

/// The canvas stays with the worker, and the worker with its host, whatever happens.
pub proof fn law_canvas_is_kept<C>(world: World<C>, happenings: Seq<Happening>)
    ensures
        world.after(happenings).runner.canvas == world.runner.canvas,
        world.after(happenings).runner.id == world.runner.id,
        world.after(happenings).shared.window_id == world.shared.window_id,
    decreases happenings.len(),
{
    if happenings.len() > 0 {
        law_canvas_is_kept(world, happenings.drop_last());
    }
}

/// A loop that waits for a moment is not told that it polls, nor that it has just started. It is
/// told since when it has waited, and for which moment, and that the moment has come exactly where
/// it has.
pub proof fn law_wait_until_is_kept(deadline: Moment, since: Moment, now: Moment)
    ensures
        ({
            let cause = wake_cause_spec(ControlFlow::WaitUntil(deadline), since, now);
            &&& cause != StartCause::Poll
            &&& cause != StartCause::Init
            &&& (cause is ResumeTimeReached <==> now.nanos >= deadline.nanos)
            &&& now.nanos >= deadline.nanos ==> cause == (StartCause::ResumeTimeReached {
                start: since,
                requested_resume: deadline,
            })
            &&& now.nanos < deadline.nanos ==> cause == (StartCause::WaitCancelled {
                start: since,
                requested_resume: Some(deadline),
            })
        }),
{
}

/// A timer for a moment is set to the fewest milliseconds that reach it, give or take less than a
/// microsecond, unless no timer can be set for so long.
pub proof fn law_timer_reaches_deadline(start: Moment, deadline: Moment)
    ensures
        ({
            let delay = delay_spec(start, deadline);
            let nanos = deadline.nanos - start.nanos;
            &&& 0 <= delay <= i32::MAX
            &&& delay < i32::MAX ==> delay * 1_000_000 > nanos - 1000
            &&& delay > 0 ==> (delay - 1) * 1_000_000 <= nanos - 1000
            &&& (delay == 0 <==> nanos < 1000)
        }),
{
}

} // verus!
