//! What holds of a wait, the polling loop, those who run it and the signals between them, taken
//! together.

use vstd::prelude::*;
use crate::reap_laws::{PollerEvent, Pollers, ReapEvent, ReapWorld};
use crate::reaper::{ReapStep, ReapView};
use crate::status::StatusState;
use crate::status_laws::StatusEvent;
use crate::system::System;

verus! {

/// Something that bears on a wait for a process, on the reaper, or on who polls it.
pub enum WakeEvent<T: System> {
    /// The process exited, which raised `SIGCHLD`.
    Exited,
    /// `SIGCHLD` was raised by something else.
    Raised,
    /// Something happened to the polling loop or its list.
    Reaper(ReapEvent<T::Process>),
    /// Whoever put a process on the list then had the reaper driven, with this outcome.
    PusherDrove(Result<(), ()>),
    /// Something happened to the wait, other than that it had the reaper driven.
    Waiter(StatusEvent<T>),
    /// The wait had the reaper driven, with this outcome.
    WaiterDrove(Result<(), ()>),
    /// Something happened to those who poll the reaper.
    Poller(PollerEvent),
}

/// A process, one wait for it, the polling loop, and who runs it.
pub struct WakeWorld<T: System> {
    /// Whether the process still runs.
    pub running: bool,
    /// How many raised signals the polling loop has yet to pick up.
    pub pending: nat,
    /// The polling loop and its list.
    pub reaper: ReapWorld<T::Process>,
    /// How many have put a process on the list and have yet to have the reaper driven.
    pub pushers: nat,
    /// The wait.
    pub wait: StatusState<T>,
    /// Whether the listener of the wait has been notified.
    pub notified: bool,
    /// Who polls.
    pub pollers: Pollers,
}

/// Whether a wait holds a registered listener.
pub open spec fn listening<T: System>(wait: StatusState<T>) -> bool {
    wait is Drive || armed(wait)
}

/// Whether a wait holds a registered listener and has had the reaper driven since.
pub open spec fn armed<T: System>(wait: StatusState<T>) -> bool {
    wait matches StatusState::Check(Some(_)) || wait is Sleep
}

/// Whether somebody polls the reaper, or a cleanup routine waits to do so as soon as the lock is
/// free, or one is ending and will wake everybody who listens unless another is there.
pub open spec fn covered(pollers: Pollers) -> bool {
    ||| pollers.locked()
    ||| pollers.waiting > 0
    ||| pollers.leaving > 0
    ||| pollers.waking > 0
}

impl<T: System> WakeWorld<T> {
    /// A process that has just been launched, with a wait about to begin and nobody polling.
    pub open spec fn start() -> WakeWorld<T> {
        WakeWorld {
            running: true,
            pending: 0,
            reaper: ReapWorld::start(),
            pushers: 0,
            wait: StatusState::Check(None),
            notified: false,
            pollers: Pollers::start(),
        }
    }

    /// Whether there is anything on the list or in the pass under way.
    pub open spec fn has_zombies(self) -> bool {
        self.reaper.list.len() > 0 || self.reaper.pass().zombies.len() > 0
    }

    /// Whether `event` can happen now. The loop runs only while somebody polls, and picks up only
    /// signals that were raised; a loop is ended by the cleanup routine that gives up the lock. An
    /// answer that is no error says that the process runs exactly while it does, only a notified
    /// listener wakes its wait, and a routine that hands over sees what is on the list.
    pub open spec fn admits(self, event: WakeEvent<T>) -> bool {
        match event {
            WakeEvent::Exited => self.running,
            WakeEvent::Raised => true,
            WakeEvent::Reaper(event) => {
                &&& self.reaper.admits(event)
                &&& !(event is Ended)
                &&& !(event is Pushed) ==> self.pollers.locked()
                &&& event is Signalled ==> self.pending > 0
            },
            WakeEvent::PusherDrove(attempt) => self.pushers > 0 && self.pollers.allows(attempt),
            WakeEvent::Waiter(event) => {
                &&& self.wait.admits(event)
                &&& !(event is Driven)
                &&& event matches StatusEvent::Answered(Ok(status)) ==> {
                    self.running <==> status is None
                }
                &&& event is Woken ==> self.notified
            },
            WakeEvent::WaiterDrove(attempt) => {
                &&& self.wait.admits(StatusEvent::Driven)
                &&& self.pollers.allows(attempt)
            },
            WakeEvent::Poller(event) => {
                &&& self.pollers.admits(event)
                &&& event is Released ==> self.reaper.admits(ReapEvent::Ended)
                &&& event is Drove ==> self.reaper.list.len() > 0
                &&& event is Finished ==> self.reaper.list.len() == 0
            },
        }
    }

    /// What `event` leads to. A notification reaches every listener that is registered by then.
    pub open spec fn after(self, event: WakeEvent<T>) -> WakeWorld<T> {
        match event {
            WakeEvent::Exited => WakeWorld { running: false, pending: self.pending + 1, ..self },
            WakeEvent::Raised => WakeWorld { pending: self.pending + 1, ..self },
            WakeEvent::Reaper(event) => WakeWorld {
                reaper: self.reaper.after(event),
                pushers: if event is Pushed {
                    self.pushers + 1
                } else {
                    self.pushers
                },
                pending: if event is Signalled {
                    (self.pending - 1) as nat
                } else {
                    self.pending
                },
                notified: self.notified || (event is Notified && listening(self.wait)),
                ..self
            },
            WakeEvent::PusherDrove(attempt) => WakeWorld {
                pushers: (self.pushers - 1) as nat,
                pollers: self.pollers.after(PollerEvent::Driven(attempt)),
                ..self
            },
            WakeEvent::Waiter(event) => WakeWorld {
                wait: self.wait.after(event),
                notified: if event is Listening {
                    false
                } else {
                    self.notified
                },
                ..self
            },
            WakeEvent::WaiterDrove(attempt) => WakeWorld {
                wait: self.wait.after(StatusEvent::Driven),
                pollers: self.pollers.after(PollerEvent::Driven(attempt)),
                ..self
            },
            WakeEvent::Poller(event) => WakeWorld {
                pollers: self.pollers.after(event),
                reaper: if event is Released {
                    self.reaper.after(ReapEvent::Ended)
                } else {
                    self.reaper
                },
                notified: self.notified || (event is Woke && listening(self.wait)),
                ..self
            },
        }
    }

    /// What a history leads to.
    pub open spec fn run(history: Seq<WakeEvent<T>>) -> WakeWorld<T>
        decreases history.len(),
    {
        if history.len() == 0 {
            WakeWorld::start()
        } else {
            WakeWorld::run(history.drop_last()).after(history.last())
        }
    }

    /// Whether everything in a history could happen when it did.
    pub open spec fn possible(history: Seq<WakeEvent<T>>) -> bool
        decreases history.len(),
    {
        history.len() == 0 || {
            &&& WakeWorld::possible(history.drop_last())
            &&& WakeWorld::run(history.drop_last()).admits(history.last())
        }
    }
}

/// The exit of a process reaches whoever waits for it: whenever a wait sleeps although the process
/// has exited, its listener has been notified, or the polling loop is about to notify it, or a
/// signal is on its way that will make the loop do so. This holds whoever polls, and whoever stops
/// polling meanwhile; that somebody polls is [`law_no_wait_is_abandoned`].
pub proof fn law_exit_always_reaches_the_wait<T: System>(history: Seq<WakeEvent<T>>)
    requires
        WakeWorld::<T>::possible(history),
    ensures
        ({
            let world = WakeWorld::<T>::run(history);
            !world.running && world.wait is Sleep ==> {
                ||| world.notified
                ||| world.reaper.reap == ReapView::<T::Process>::Notify
                ||| world.pending > 0
            }
        }),
    decreases history.len(),
{
    if history.len() > 0 {
        law_exit_always_reaches_the_wait(history.drop_last());
    }
}

/// No wait is abandoned when a poller goes: whenever a wait sleeps, or is about to, on a listener
/// that has not been notified, somebody polls the reaper, or a cleanup routine waits to do so, or
/// one is ending that will wake the wait unless another is there. A wait that is woken asks again,
/// and has the reaper driven again before it sleeps.
pub proof fn law_no_wait_is_abandoned<T: System>(history: Seq<WakeEvent<T>>)
    requires
        WakeWorld::<T>::possible(history),
    ensures
        ({
            let world = WakeWorld::<T>::run(history);
            armed(world.wait) && !world.notified ==> covered(world.pollers)
        }),
    decreases history.len(),
{
    if history.len() > 0 {
        law_no_wait_is_abandoned(history.drop_last());
    }
}

proof fn lemma_loop_is_polled<T: System>(history: Seq<WakeEvent<T>>)
    requires
        WakeWorld::<T>::possible(history),
    ensures
        ({
            let world = WakeWorld::<T>::run(history);
            !(world.reaper.reap is Wait) ==> world.pollers.locked()
        }),
        !(WakeWorld::<T>::run(history).pollers.backup && WakeWorld::<T>::run(
            history,
        ).pollers.cleanup),
    decreases history.len(),
{
    if history.len() > 0 {
        lemma_loop_is_polled(history.drop_last());
    }
}

/// No zombie is abandoned when a poller goes: whenever there is a process on the list or in a pass,
/// somebody polls the reaper, or a cleanup routine waits to do so, or one is ending that will see
/// to it, or whoever put the process there is about to have the reaper driven.
pub proof fn law_no_zombie_is_abandoned<T: System>(history: Seq<WakeEvent<T>>)
    requires
        WakeWorld::<T>::possible(history),
    ensures
        ({
            let world = WakeWorld::<T>::run(history);
            world.has_zombies() ==> {
                ||| covered(world.pollers)
                ||| world.pollers.driving > 0
                ||| world.pushers > 0
            }
        }),
    decreases history.len(),
{
    if history.len() > 0 {
        law_no_zombie_is_abandoned(history.drop_last());
        lemma_loop_is_polled(history.drop_last());
        lemma_loop_is_polled(history);
    }
}

/// A wait ends with an exit status only when the process has exited.
pub proof fn law_wait_ends_only_after_the_exit<T: System>(history: Seq<WakeEvent<T>>)
    requires
        WakeWorld::<T>::possible(history),
    ensures
        WakeWorld::<T>::run(history).wait matches StatusState::Done(Ok(_)) ==> !WakeWorld::<
            T,
        >::run(history).running,
    decreases history.len(),
{
    if history.len() > 0 {
        law_wait_ends_only_after_the_exit(history.drop_last());
    }
}

/// Whether `event` is something that those do who are on hand already, with no decision of anybody
/// else: no process is launched or dropped, no cleanup routine begins or is told to end, nobody
/// else has the reaper driven, and no other signal is raised.
pub open spec fn unaided<T: System>(event: WakeEvent<T>) -> bool {
    match event {
        WakeEvent::Reaper(event) => !(event is Pushed),
        WakeEvent::Waiter(_) => true,
        WakeEvent::WaiterDrove(_) => true,
        WakeEvent::Poller(event) => event is Locked || event is Left || event is Woke,
        _ => false,
    }
}

/// Whether `longer` is `history` followed by what those do who are on hand already.
pub open spec fn continues<T: System>(
    history: Seq<WakeEvent<T>>,
    longer: Seq<WakeEvent<T>>,
) -> bool {
    &&& history.len() <= longer.len()
    &&& forall|i: int| 0 <= i < history.len() ==> #[trigger] longer[i] == history[i]
    &&& forall|i: int| history.len() <= i < longer.len() ==> unaided(#[trigger] longer[i])
}

proof fn lemma_pass_valid<T: System>(history: Seq<WakeEvent<T>>)
    requires
        WakeWorld::<T>::possible(history),
    ensures
        WakeWorld::<T>::run(history).reaper.pass().valid(),
    decreases history.len(),
{
    if history.len() > 0 {
        lemma_pass_valid(history.drop_last());
    }
}

/// How far a wait is from its end, roughest measure first: what the wait itself has to do, who has
/// to come to poll, where the loop stands, how many processes its pass has yet to ask, and whether
/// a yield is due.
spec fn distance<T: System>(world: WakeWorld<T>) -> (nat, nat, nat, nat, nat) {
    let asleep = world.wait is Sleep && !world.notified;
    let steps: nat = match world.wait {
        StatusState::Done(_) => 0,
        StatusState::Check(_) => 1,
        StatusState::Drive(_) => 2,
        StatusState::Listen => 3,
        StatusState::Sleep(_) => if world.notified {
            2
        } else {
            4
        },
    };
    let comers: nat = if !asleep || world.pollers.locked() {
        0
    } else if world.pollers.waiting > 0 || world.pollers.waking > 0 {
        1
    } else {
        1 + world.pollers.leaving
    };
    let phase: nat = match world.reaper.reap {
        ReapView::Notify => 0,
        ReapView::Wait => 1,
        ReapView::Poll(_) => 2,
        ReapView::Take => 3,
    };
    let pass = world.reaper.pass();
    let unasked = (pass.zombies.len() - pass.next) as nat;
    (
        steps,
        comers,
        phase,
        unasked,
        if pass.budget == 0 {
            1
        } else {
            0
        },
    )
}

/// What those on hand do next towards the end of the wait, in a world where the process has exited.
spec fn next_event<T: System>(world: WakeWorld<T>, status: T::ExitStatus) -> WakeEvent<T> {
    match world.wait {
        StatusState::Check(_) => WakeEvent::Waiter(StatusEvent::Answered(Ok(Some(status)))),
        StatusState::Listen => WakeEvent::Waiter(StatusEvent::Listening(arbitrary())),
        StatusState::Drive(_) => WakeEvent::WaiterDrove(
            if world.pollers.locked() {
                Err(())
            } else {
                Ok(())
            },
        ),
        _ => if world.notified {
            WakeEvent::Waiter(StatusEvent::Woken)
        } else if world.pollers.locked() {
            match world.reaper.reap.step() {
                ReapStep::Wait => WakeEvent::Reaper(ReapEvent::Signalled),
                ReapStep::Notify => WakeEvent::Reaper(ReapEvent::Notified),
                ReapStep::Take => WakeEvent::Reaper(ReapEvent::Taken),
                ReapStep::Poll => WakeEvent::Reaper(ReapEvent::Polled(true)),
                ReapStep::Yield => WakeEvent::Reaper(ReapEvent::Yielded),
                ReapStep::PutBack => WakeEvent::Reaper(ReapEvent::PutBack),
            }
        } else if world.pollers.waiting > 0 {
            WakeEvent::Poller(PollerEvent::Locked)
        } else if world.pollers.waking > 0 {
            WakeEvent::Poller(PollerEvent::Woke)
        } else {
            WakeEvent::Poller(PollerEvent::Left)
        },
    }
}

proof fn lemma_wait_can_end<T: System>(
    history: Seq<WakeEvent<T>>,
    status: T::ExitStatus,
) -> (longer: Seq<WakeEvent<T>>)
    requires
        WakeWorld::<T>::possible(history),
        !WakeWorld::<T>::run(history).running,
        !(WakeWorld::<T>::run(history).wait is Done),
    ensures
        continues(history, longer),
        WakeWorld::<T>::possible(longer),
        WakeWorld::<T>::run(longer).wait == StatusState::<T>::Done(Ok(status)),
    decreases
            distance(WakeWorld::<T>::run(history)).0,
            distance(WakeWorld::<T>::run(history)).1,
            distance(WakeWorld::<T>::run(history)).2,
            distance(WakeWorld::<T>::run(history)).3,
            distance(WakeWorld::<T>::run(history)).4,
{
    let world = WakeWorld::<T>::run(history);
    law_exit_always_reaches_the_wait(history);
    law_no_wait_is_abandoned(history);
    lemma_loop_is_polled(history);
    lemma_pass_valid(history);
    let event = next_event(world, status);
    assert(world.admits(event));
    let next = history.push(event);
    assert(next.drop_last() =~= history);
    assert(WakeWorld::<T>::run(next) == world.after(event));
    if WakeWorld::<T>::run(next).wait is Done {
        next
    } else {
        let longer = lemma_wait_can_end(next, status);
        assert forall|i: int| 0 <= i < history.len() implies #[trigger] longer[i] == history[i] by {
            assert(longer[i] == next[i]);
        }
        assert forall|i: int| history.len() <= i < longer.len() implies unaided(
            #[trigger] longer[i],
        ) by {
            if i == history.len() {
                assert(longer[i] == next[i]);
            }
        }
        longer
    }
}

/// A wait for a process that has exited can always come to its end, with the status that the
/// process exited with: whatever has happened so far, and whoever has polled and gone meanwhile,
/// those who are on hand already need only do what they do next.
pub proof fn law_wait_can_end_after_the_exit<T: System>(
    history: Seq<WakeEvent<T>>,
    status: T::ExitStatus,
)
    requires
        WakeWorld::<T>::possible(history),
        !WakeWorld::<T>::run(history).running,
        !(WakeWorld::<T>::run(history).wait is Done),
    ensures
        exists|longer: Seq<WakeEvent<T>>|
            {
                &&& continues(history, longer)
                &&& #[trigger] WakeWorld::<T>::possible(longer)
                &&& WakeWorld::<T>::run(longer).wait == StatusState::<T>::Done(Ok(status))
            },
{
    let longer = lemma_wait_can_end(history, status);
    assert(WakeWorld::<T>::possible(longer));
}

} // verus!
