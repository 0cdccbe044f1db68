//! What a wait on the count of exited processes keeps true, whatever other threads do to the count.

use vstd::prelude::*;
use crate::event::Listener;
use crate::pipe::PipeWait;

verus! {

/// Something that happens to the count or to the one who waits on it.
pub enum PipeEvent {
    /// A process exited and was counted.
    Counted,
    /// Everybody who listened was notified of an exit that had been counted.
    Notified,
    /// The count was read.
    Loaded,
    /// The attempt to lower the count was made.
    Exchanged,
    /// The listener was registered.
    Listened(Listener),
    /// The count was read again.
    Rechecked,
    /// The listener was notified.
    Woken,
    /// A wait was over and the next one began.
    Again,
}

/// The count, the wait, and what has happened so far.
pub struct PipeWorld {
    /// The count.
    pub count: usize,
    /// The wait.
    pub wait: PipeWait,
    /// How many exits have been counted and not been announced yet.
    pub unannounced: nat,
    /// Whether the listener of the wait has been notified.
    pub notified: bool,
    /// How many processes have exited.
    pub completions: int,
    /// How many waits have returned.
    pub returns: int,
}

impl PipeWorld {
    /// Nothing has happened yet.
    pub open spec fn start() -> PipeWorld {
        PipeWorld {
            count: 0,
            wait: PipeWait::Load,
            unannounced: 0,
            notified: false,
            completions: 0,
            returns: 0,
        }
    }

    /// Whether `event` can happen now. A process can exit at any time; the count has room for as
    /// many as a machine can hold. An exit is announced after it was counted, and only a notified
    /// listener wakes its wait.
    pub open spec fn admits(self, event: PipeEvent) -> bool {
        match event {
            PipeEvent::Counted => self.count < usize::MAX,
            PipeEvent::Notified => self.unannounced > 0,
            PipeEvent::Loaded => self.wait is Load,
            PipeEvent::Exchanged => self.wait is Exchange,
            PipeEvent::Listened(_) => self.wait is Listen,
            PipeEvent::Rechecked => self.wait is Recheck,
            PipeEvent::Woken => self.wait is Sleep && self.notified,
            PipeEvent::Again => self.wait is Done,
        }
    }

    /// What `event` leads to. An exchange succeeds when the count is still what it was read to be.
    /// A notification reaches every listener that is registered by then.
    pub open spec fn after(self, event: PipeEvent) -> PipeWorld {
        match event {
            PipeEvent::Counted => PipeWorld {
                count: (self.count + 1) as usize,
                unannounced: self.unannounced + 1,
                completions: self.completions + 1,
                ..self
            },
            PipeEvent::Notified => PipeWorld {
                unannounced: (self.unannounced - 1) as nat,
                notified: self.notified || self.wait is Recheck || self.wait is Sleep,
                ..self
            },
            PipeEvent::Loaded => PipeWorld { wait: PipeWait::after_load(self.count), ..self },
            PipeEvent::Exchanged => if self.count == self.wait->Exchange_0 {
                PipeWorld {
                    count: (self.count - 1) as usize,
                    wait: PipeWait::after_exchange(Ok(self.count)),
                    returns: self.returns + (if PipeWait::after_exchange(Ok(self.count)) is Done {
                        1int
                    } else {
                        0int
                    }),
                    ..self
                }
            } else {
                PipeWorld { wait: PipeWait::after_exchange(Err(self.count)), ..self }
            },
            PipeEvent::Listened(listener) => PipeWorld {
                wait: PipeWait::Recheck(listener),
                notified: false,
                ..self
            },
            PipeEvent::Rechecked => PipeWorld {
                wait: PipeWait::after_recheck(self.wait->Recheck_0, self.count),
                ..self
            },
            PipeEvent::Woken => PipeWorld { wait: PipeWait::Load, ..self },
            PipeEvent::Again => PipeWorld { wait: PipeWait::Load, ..self },
        }
    }

    /// What a history leads to.
    pub open spec fn run(history: Seq<PipeEvent>) -> PipeWorld
        decreases history.len(),
    {
        if history.len() == 0 {
            PipeWorld::start()
        } else {
            PipeWorld::run(history.drop_last()).after(history.last())
        }
    }

    /// Whether everything in a history could happen when it did.
    pub open spec fn possible(history: Seq<PipeEvent>) -> bool
        decreases history.len(),
    {
        history.len() == 0 || {
            &&& PipeWorld::possible(history.drop_last())
            &&& PipeWorld::run(history.drop_last()).admits(history.last())
        }
    }
}

/// Every exited process ends exactly one wait, and no wait ends without one: at every moment, the
/// processes that have exited are those still on the count and those that ended a wait. The count
/// is never lowered below zero.
pub proof fn law_each_exit_ends_one_wait(history: Seq<PipeEvent>)
    requires
        PipeWorld::possible(history),
    ensures
        ({
            let world = PipeWorld::run(history);
            &&& world.completions == world.count + world.returns
            &&& world.wait.wf()
        }),
    decreases history.len(),
{
    if history.len() > 0 {
        law_each_exit_ends_one_wait(history.drop_last());
    }
}

/// No exit is slept through: whenever a wait sleeps although there is an exit on the count, its
/// listener has been notified, or the announcement of an exit is still to come.
pub proof fn law_no_exit_is_slept_through(history: Seq<PipeEvent>)
    requires
        PipeWorld::possible(history),
    ensures
        ({
            let world = PipeWorld::run(history);
            world.wait is Sleep && world.count > 0 ==> world.notified || world.unannounced > 0
        }),
    decreases history.len(),
{
    if history.len() > 0 {
        law_no_exit_is_slept_through(history.drop_last());
    }
}

/// What a number that was read leads to, however large it is: an exit on the count is taken off it,
/// at the number that was read, and only an empty count is waited for, on the listener that was
/// registered. An exit that was taken off ends the wait; one that was not is looked for again.
pub proof fn law_an_exit_on_the_count_is_taken(
    listener: Listener,
    count: usize,
    outcome: Result<usize, usize>,
)
    ensures
        count > 0 ==> PipeWait::after_load(count) == PipeWait::Exchange(count),
        count > 0 ==> PipeWait::after_recheck(listener, count) == PipeWait::Exchange(count),
        count == 0 ==> PipeWait::after_load(count) is Listen,
        count == 0 ==> PipeWait::after_recheck(listener, count) == PipeWait::Sleep(listener),
        outcome is Ok ==> PipeWait::after_exchange(outcome) is Done,
        outcome matches Err(found) ==> {
            &&& found > 0 ==> PipeWait::after_exchange(outcome) == PipeWait::Exchange(found)
            &&& found == 0 ==> PipeWait::after_exchange(outcome) is Listen
        },
{
}

spec fn distance(world: PipeWorld) -> int {
    match world.wait {
        PipeWait::Done => 0,
        PipeWait::Exchange(count) => if count == world.count {
            1
        } else {
            2
        },
        PipeWait::Load => 2,
        PipeWait::Recheck(_) => 3,
        PipeWait::Listen => 4,
        PipeWait::Sleep(_) => if world.notified {
            3
        } else {
            4
        },
    }
}

proof fn lemma_wait_can_end(history: Seq<PipeEvent>) -> (longer: Seq<PipeEvent>)
    requires
        PipeWorld::possible(history),
        PipeWorld::run(history).count > 0 || PipeWorld::run(history).wait is Done,
    ensures
        history.len() <= longer.len(),
        forall|i: int| 0 <= i < history.len() ==> #[trigger] longer[i] == history[i],
        forall|i: int| history.len() <= i < longer.len() ==> !(#[trigger] longer[i] is Counted),
        PipeWorld::possible(longer),
        PipeWorld::run(longer).wait is Done,
    decreases distance(PipeWorld::run(history)),
{
    let world = PipeWorld::run(history);
    law_no_exit_is_slept_through(history);
    law_each_exit_ends_one_wait(history);
    if world.wait is Done {
        history
    } else {
        let event = match world.wait {
            PipeWait::Load => PipeEvent::Loaded,
            PipeWait::Exchange(_) => PipeEvent::Exchanged,
            PipeWait::Listen => PipeEvent::Listened(arbitrary()),
            PipeWait::Recheck(_) => PipeEvent::Rechecked,
            _ => if world.notified {
                PipeEvent::Woken
            } else {
                PipeEvent::Notified
            },
        };
        let next = history.push(event);
        assert(next.drop_last() =~= history);
        assert(PipeWorld::run(next) == world.after(event));
        let longer = lemma_wait_can_end(next);
        assert forall|i: int| 0 <= i < history.len() implies #[trigger] longer[i] == history[i] by {
            assert(longer[i] == next[i]);
        }
        assert forall|i: int| history.len() <= i < longer.len() implies !(
        #[trigger] longer[i] is Counted) by {
            if i == history.len() {
                assert(longer[i] == next[i]);
            }
        }
        longer
    }
}

/// As long as there is an exit on the count, a wait can come to its end without any further exit,
/// wherever it stands.
pub proof fn law_a_wait_can_end_while_there_is_an_exit(history: Seq<PipeEvent>)
    requires
        PipeWorld::possible(history),
        PipeWorld::run(history).count > 0,
    ensures
        exists|longer: Seq<PipeEvent>|
            {
                &&& history.len() <= longer.len()
                &&& forall|i: int| 0 <= i < history.len() ==> #[trigger] longer[i] == history[i]
                &&& forall|i: int|
                    history.len() <= i < longer.len() ==> !(#[trigger] longer[i] is Counted)
                &&& #[trigger] PipeWorld::possible(longer)
                &&& PipeWorld::run(longer).wait is Done
            },
{
    let longer = lemma_wait_can_end(history);
    assert(PipeWorld::possible(longer));
}

} // verus!
