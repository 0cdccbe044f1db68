//! What the polling loop keeps true, however long it runs and whatever happens around it.

use vstd::prelude::*;
use vstd::multiset::Multiset;
use crate::event::{Busy, Lock};
use crate::reaper::{Reap, ReapStep, ReapView};
use crate::zombies::PassView;

verus! {

/// Something that happens to the polling loop or to the list of zombies.
pub enum ReapEvent<P> {
    /// A running process lost its last handle and was put on the list.
    Pushed(P),
    /// `SIGCHLD` came.
    Signalled,
    /// The listeners were notified.
    Notified,
    /// The list was taken.
    Taken,
    /// The current zombie answered: `true` if it still runs.
    Polled(bool),
    /// Other tasks had their turn.
    Yielded,
    /// The rest of the pass was put back on the list.
    PutBack,
    /// The loop was ended, and all that its pass still held was put back on the list. The next
    /// poller begins a new loop.
    Ended,
}

/// The loop, or the next one if there is none, the list it works on, and what has gone in and out
/// so far.
#[verifier::ext_equal]
pub struct ReapWorld<P> {
    pub reap: ReapView<P>,
    pub list: Seq<P>,
    pub pushed: Multiset<P>,
    pub reaped: Multiset<P>,
}

impl<P> ReapWorld<P> {
    /// A loop about to wait for its first signal, with nothing on the list.
    pub open spec fn start() -> ReapWorld<P> {
        ReapWorld {
            reap: ReapView::Wait,
            list: Seq::empty(),
            pushed: Multiset::empty(),
            reaped: Multiset::empty(),
        }
    }

    /// Whether `event` can happen now. A push can happen at any time. The loop can be ended
    /// wherever it waits for something: for the next signal, or for its turn after a yield.
    pub open spec fn admits(self, event: ReapEvent<P>) -> bool {
        match event {
            ReapEvent::Pushed(_) => true,
            ReapEvent::Signalled => self.reap.step() == ReapStep::Wait,
            ReapEvent::Notified => self.reap.step() == ReapStep::Notify,
            ReapEvent::Taken => self.reap.step() == ReapStep::Take,
            ReapEvent::Polled(_) => self.reap.step() == ReapStep::Poll,
            ReapEvent::Yielded => self.reap.step() == ReapStep::Yield,
            ReapEvent::PutBack => self.reap.step() == ReapStep::PutBack,
            ReapEvent::Ended => {
                ||| self.reap.step() == ReapStep::Wait
                ||| self.reap.step() == ReapStep::Yield
            },
        }
    }

    /// The pass under way, if there is one.
    pub open spec fn pass(self) -> PassView<P> {
        match self.reap {
            ReapView::Poll(pass) => pass,
            _ => PassView::fresh(Seq::empty()),
        }
    }

    /// What `event` leads to.
    pub open spec fn after(self, event: ReapEvent<P>) -> ReapWorld<P> {
        match event {
            ReapEvent::Pushed(p) => ReapWorld {
                list: self.list.push(p),
                pushed: self.pushed.insert(p),
                ..self
            },
            ReapEvent::Signalled => ReapWorld { reap: ReapView::Notify, ..self },
            ReapEvent::Notified => ReapWorld { reap: ReapView::Take, ..self },
            ReapEvent::Taken => ReapWorld {
                reap: ReapView::taken(self.list),
                list: Seq::empty(),
                ..self
            },
            ReapEvent::Polled(running) => ReapWorld {
                reap: ReapView::Poll(self.pass().polled(running)),
                reaped: if running {
                    self.reaped
                } else {
                    self.reaped.insert(self.pass().zombies[self.pass().next])
                },
                ..self
            },
            ReapEvent::Yielded => ReapWorld { reap: ReapView::Poll(self.pass().yielded()), ..self },
            ReapEvent::PutBack => ReapWorld {
                reap: ReapView::Wait,
                list: self.pass().zombies + self.list,
                ..self
            },
            ReapEvent::Ended => ReapWorld {
                reap: ReapView::Wait,
                list: match self.reap {
                    ReapView::Poll(pass) => pass.zombies + self.list,
                    _ => self.list,
                },
                ..self
            },
        }
    }

    /// What a history leads to.
    pub open spec fn run(history: Seq<ReapEvent<P>>) -> ReapWorld<P>
        decreases history.len(),
    {
        if history.len() == 0 {
            ReapWorld::start()
        } else {
            ReapWorld::run(history.drop_last()).after(history.last())
        }
    }

    /// Whether everything in a history could happen when it did.
    pub open spec fn possible(history: Seq<ReapEvent<P>>) -> bool
        decreases history.len(),
    {
        history.len() == 0 || {
            &&& ReapWorld::possible(history.drop_last())
            &&& ReapWorld::run(history.drop_last()).admits(history.last())
        }
    }
}

/// How often `kind` holds in a history.
pub open spec fn times<P>(history: Seq<ReapEvent<P>>, kind: spec_fn(ReapEvent<P>) -> bool) -> int
    decreases history.len(),
{
    if history.len() == 0 {
        0
    } else {
        times(history.drop_last(), kind) + (if kind(history.last()) { 1int } else { 0int })
    }
}

proof fn lemma_pass_valid<P>(history: Seq<ReapEvent<P>>)
    requires
        ReapWorld::possible(history),
    ensures
        ReapWorld::run(history).pass().valid(),
    decreases history.len(),
{
    if history.len() > 0 {
        lemma_pass_valid(history.drop_last());
    }
}

/// No process is ever lost or reaped twice: at every moment, the processes pushed so far are those
/// on the list, those in the pass under way, and those whose exit a poll has found. This holds
/// however many loops are ended, in the middle of a pass or not, and however many follow them.
pub proof fn law_no_process_is_lost<P>(history: Seq<ReapEvent<P>>)
    requires
        ReapWorld::possible(history),
    ensures
        ({
            let world = ReapWorld::run(history);
            world.pushed == world.list.to_multiset().add(world.pass().zombies.to_multiset()).add(
                world.reaped,
            )
        }),
    decreases history.len(),
{
    broadcast use vstd::seq_lib::group_to_multiset_ensures;

    let world = ReapWorld::run(history);
    if history.len() == 0 {
        assert(world.list.to_multiset() =~= Multiset::<P>::empty());
    } else {
        let before = ReapWorld::run(history.drop_last());
        law_no_process_is_lost(history.drop_last());
        lemma_pass_valid(history.drop_last());
        match history.last() {
            ReapEvent::Polled(running) => {
                let pass = before.pass();
                if !running {
                    let rest = pass.polled(false).zombies;
                    crate::zombie_laws::lemma_swap_remove(pass.zombies, pass.next);
                    assert(pass.zombies =~= pass.zombies.take(pass.next) + pass.zombies.skip(
                        pass.next,
                    ));
                    assert(rest =~= rest.take(pass.next) + rest.skip(pass.next));
                    vstd::seq_lib::lemma_multiset_commutative(
                        pass.zombies.take(pass.next),
                        pass.zombies.skip(pass.next),
                    );
                    vstd::seq_lib::lemma_multiset_commutative(
                        rest.take(pass.next),
                        rest.skip(pass.next),
                    );
                }
            },
            ReapEvent::PutBack | ReapEvent::Ended => {
                vstd::seq_lib::lemma_multiset_commutative(before.pass().zombies, before.list);
            },
            _ => {},
        }
        assert(world.pushed =~= world.list.to_multiset().add(
            world.pass().zombies.to_multiset(),
        ).add(world.reaped));
    }
}

/// Every `SIGCHLD` is passed on to the listeners exactly once, and followed by exactly one look at
/// the list, before the loop waits for the next one.
pub proof fn law_every_signal_is_passed_on<P>(history: Seq<ReapEvent<P>>)
    requires
        ReapWorld::possible(history),
    ensures
        times(history, |e: ReapEvent<P>| e is Signalled) == times(
            history,
            |e: ReapEvent<P>| e is Notified,
        ) + (if ReapWorld::run(history).reap is Notify { 1int } else { 0int }),
        times(history, |e: ReapEvent<P>| e is Notified) == times(
            history,
            |e: ReapEvent<P>| e is Taken,
        ) + (if ReapWorld::run(history).reap is Take { 1int } else { 0int }),
    decreases history.len(),
{
    if history.len() > 0 {
        law_every_signal_is_passed_on(history.drop_last());
    }
}

/// Something that bears on who polls the reaper.
pub enum PollerEvent {
    /// Somebody needed the reaper to be driven and tried to take the lock for a backup thread, with
    /// this outcome.
    Driven(Result<(), ()>),
    /// A cleanup routine began and was counted.
    Joined,
    /// A cleanup routine got the lock.
    Locked,
    /// The cleanup routine that held the lock is ending and gave it up.
    Released,
    /// A cleanup routine is ending that was still waiting for the lock.
    GaveUp,
    /// A cleanup routine that is ending was counted out.
    Left,
    /// The last cleanup routine to leave woke everybody who listened.
    Woke,
    /// It then had the reaper driven, with this outcome, because there were zombies.
    Drove(Result<(), ()>),
    /// It then found that there were no zombies.
    Finished,
}

/// Who polls the reaper, and who is about to see to it that somebody does.
pub struct Pollers {
    /// Whether the backup thread polls.
    pub backup: bool,
    /// Whether a cleanup routine polls.
    pub cleanup: bool,
    /// How many cleanup routines wait for the lock.
    pub waiting: nat,
    /// How many cleanup routines are ending and have not been counted out.
    pub leaving: nat,
    /// How many were the last to leave and have yet to wake everybody who listens.
    pub waking: nat,
    /// How many have done that, and have yet to look for zombies.
    pub driving: nat,
    /// How many backup threads have been started.
    pub started: int,
}

impl Pollers {
    /// Nobody polls yet.
    pub open spec fn start() -> Pollers {
        Pollers {
            backup: false,
            cleanup: false,
            waiting: 0,
            leaving: 0,
            waking: 0,
            driving: 0,
            started: 0,
        }
    }

    /// Whether the lock is held.
    pub open spec fn locked(self) -> bool {
        self.backup || self.cleanup
    }

    /// How many cleanup routines are counted.
    pub open spec fn counted(self) -> int {
        self.waiting + self.leaving + (if self.cleanup { 1int } else { 0int })
    }

    /// Whether an attempt to take the lock at once can have this outcome. It succeeds only while
    /// nobody holds the lock. It fails while somebody does, and may fail when a cleanup routine has
    /// waited for the lock so long that it is served first.
    pub open spec fn allows(self, attempt: Result<(), ()>) -> bool {
        match attempt {
            Ok(_) => !self.locked(),
            Err(_) => self.locked() || self.waiting > 0,
        }
    }

    /// After an attempt to have the reaper driven.
    pub open spec fn driven(self, attempt: Result<(), ()>) -> Pollers {
        if crate::reaper::needs_backup(attempt) {
            Pollers { backup: true, started: self.started + 1, ..self }
        } else {
            self
        }
    }

    /// Whether `event` can happen now. The lock goes to one at a time, and the backup thread never
    /// gives it up.
    pub open spec fn admits(self, event: PollerEvent) -> bool {
        match event {
            PollerEvent::Driven(attempt) => self.allows(attempt),
            PollerEvent::Joined => true,
            PollerEvent::Locked => !self.locked() && self.waiting > 0,
            PollerEvent::Released => self.cleanup,
            PollerEvent::GaveUp => self.waiting > 0,
            PollerEvent::Left => self.leaving > 0,
            PollerEvent::Woke => self.waking > 0,
            PollerEvent::Drove(attempt) => self.driving > 0 && self.allows(attempt),
            PollerEvent::Finished => self.driving > 0,
        }
    }

    /// What `event` leads to.
    pub open spec fn after(self, event: PollerEvent) -> Pollers {
        match event {
            PollerEvent::Driven(attempt) => self.driven(attempt),
            PollerEvent::Joined => Pollers { waiting: self.waiting + 1, ..self },
            PollerEvent::Locked => Pollers {
                waiting: (self.waiting - 1) as nat,
                cleanup: true,
                ..self
            },
            PollerEvent::Released => Pollers { cleanup: false, leaving: self.leaving + 1, ..self },
            PollerEvent::GaveUp => Pollers {
                waiting: (self.waiting - 1) as nat,
                leaving: self.leaving + 1,
                ..self
            },
            PollerEvent::Left => Pollers {
                leaving: (self.leaving - 1) as nat,
                waking: if crate::cleanup::last(self.counted()) {
                    self.waking + 1
                } else {
                    self.waking
                },
                ..self
            },
            PollerEvent::Woke => Pollers {
                waking: (self.waking - 1) as nat,
                driving: self.driving + 1,
                ..self
            },
            PollerEvent::Drove(attempt) => Pollers {
                driving: (self.driving - 1) as nat,
                ..self.driven(attempt)
            },
            PollerEvent::Finished => Pollers { driving: (self.driving - 1) as nat, ..self },
        }
    }

    /// What a history leads to.
    pub open spec fn run(history: Seq<PollerEvent>) -> Pollers
        decreases history.len(),
    {
        if history.len() == 0 {
            Pollers::start()
        } else {
            Pollers::run(history.drop_last()).after(history.last())
        }
    }

    /// Whether everything in a history could happen when it did.
    pub open spec fn possible(history: Seq<PollerEvent>) -> bool
        decreases history.len(),
    {
        history.len() == 0 || {
            &&& Pollers::possible(history.drop_last())
            &&& Pollers::run(history.drop_last()).admits(history.last())
        }
    }
}

/// There is never more than one poller, and never more than one backup thread.
pub proof fn law_one_poller_at_a_time(history: Seq<PollerEvent>)
    requires
        Pollers::possible(history),
    ensures
        !(Pollers::run(history).backup && Pollers::run(history).cleanup),
        Pollers::run(history).started == (if Pollers::run(history).backup { 1int } else { 0int }),
    decreases history.len(),
{
    if history.len() > 0 {
        law_one_poller_at_a_time(history.drop_last());
    }
}

/// Whoever needs the reaper driven finds it driven: after the attempt there is a poller, or a
/// cleanup routine that is to get the lock next. A backup thread is started for that only if there
/// was no poller.
pub proof fn law_driven_means_polled(history: Seq<PollerEvent>)
    requires
        Pollers::possible(history),
        history.len() > 0,
        history.last() is Driven,
    ensures
        Pollers::run(history).locked() || Pollers::run(history).waiting > 0,
        Pollers::run(history.drop_last()).locked() ==> Pollers::run(history) == Pollers::run(
            history.drop_last(),
        ),
{
}

/// A cleanup routine keeps the backup thread away: from the moment on at which a routine holds the
/// lock, no backup thread is started until the lock is given up, whatever else needs the reaper
/// driven meanwhile.
pub proof fn law_cleanup_keeps_the_thread_away(history: Seq<PollerEvent>, from: int)
    requires
        Pollers::possible(history),
        0 <= from <= history.len(),
        Pollers::run(history.take(from)).cleanup,
        forall|i: int| from <= i < history.len() ==> !(#[trigger] history[i] is Released),
    ensures
        Pollers::run(history).cleanup,
        Pollers::run(history).started == Pollers::run(history.take(from)).started,
    decreases history.len(),
{
    if from == history.len() {
        assert(history.take(from) =~= history);
    } else {
        let before = history.drop_last();
        assert(before.take(from) =~= history.take(from));
        assert forall|i: int|
            from <= i < before.len() implies !(#[trigger] before[i] is Released) by {
            assert(before[i] == history[i]);
        }
        assert(!(history[history.len() - 1] is Released));
        law_cleanup_keeps_the_thread_away(before, from);
    }
}

/// A cleanup routine that ends with nothing left to be done starts no backup thread either: the
/// thread is started only by somebody who needs the reaper driven, or by the last routine to leave
/// when there are zombies.
pub proof fn law_thread_starts_only_for_a_need(history: Seq<PollerEvent>)
    requires
        Pollers::possible(history),
        history.len() > 0,
        Pollers::run(history).started != Pollers::run(history.drop_last()).started,
    ensures
        history.last() is Driven || history.last() is Drove,
{
}

/// A loop that finds processes on the list asks all of them: it begins a pass that holds just those
/// processes and has asked nobody yet. It goes back to waiting only if there are none.
pub proof fn law_a_round_begins_with_everybody_unasked<P>(zombies: Seq<P>)
    ensures
        zombies.len() == 0 <==> ReapView::taken(zombies) == ReapView::<P>::Wait,
        zombies.len() > 0 ==> {
            &&& ReapView::taken(zombies) is Poll
            &&& ReapView::taken(zombies)->Poll_0.zombies == zombies
            &&& ReapView::taken(zombies)->Poll_0.next == 0
            &&& ReapView::taken(zombies)->Poll_0.budget == crate::zombies::BATCH
        },
{
}

/// What the loop does next: what it waits for while it waits, then telling everybody, then looking
/// at the list, then asking as long as there is anybody to ask, and putting back only when there is
/// nobody left.
pub proof fn law_the_loop_goes_on_in_order<P>(reap: ReapView<P>)
    ensures
        reap.step() == ReapStep::Wait <==> reap is Wait,
        reap.step() == ReapStep::Notify <==> reap is Notify,
        reap.step() == ReapStep::Take <==> reap is Take,
        reap matches ReapView::Poll(pass) ==> {
            &&& reap.step() == ReapStep::Yield <==> pass.budget == 0
            &&& reap.step() == ReapStep::PutBack ==> pass.next >= pass.zombies.len()
            &&& reap.step() == ReapStep::Poll ==> pass.next < pass.zombies.len()
            &&& pass.budget != 0 && pass.next < pass.zombies.len() ==> reap.step()
                == ReapStep::Poll
            &&& pass.budget != 0 && pass.next >= pass.zombies.len() ==> reap.step()
                == ReapStep::PutBack
        },
{
}

/// How many zombies have answered since the list was last taken.
pub open spec fn asked_since_taken<P>(history: Seq<ReapEvent<P>>) -> int
    decreases history.len(),
{
    if history.len() == 0 || history.last() is Taken {
        0
    } else {
        asked_since_taken(history.drop_last()) + (if history.last() is Polled {
            1int
        } else {
            0int
        })
    }
}

/// How many processes were on the list when it was last taken.
pub open spec fn taken_last<P>(history: Seq<ReapEvent<P>>) -> int
    decreases history.len(),
{
    if history.len() == 0 {
        0
    } else if history.last() is Taken {
        ReapWorld::run(history.drop_last()).list.len() as int
    } else {
        taken_last(history.drop_last())
    }
}

proof fn lemma_asked_since_taken<P>(history: Seq<ReapEvent<P>>)
    requires
        ReapWorld::possible(history),
    ensures
        ReapWorld::run(history).reap matches ReapView::Poll(pass) ==> pass.valid()
            && asked_since_taken(history) == taken_last(history) - (pass.zombies.len() - pass.next),
    decreases history.len(),
{
    if history.len() > 0 {
        lemma_asked_since_taken(history.drop_last());
    }
}

/// A round asks everybody: when the loop puts the rest of a pass back, as many zombies have
/// answered since the list was taken as were on it then.
pub proof fn law_everybody_was_asked_before_the_rest_goes_back<P>(history: Seq<ReapEvent<P>>)
    requires
        ReapWorld::possible(history),
        ReapWorld::run(history).reap.step() == ReapStep::PutBack,
    ensures
        asked_since_taken(history) == taken_last(history),
{
    lemma_asked_since_taken(history);
}

/// What is put back are just those that answered "still running", in the order in which they were
/// asked, each process on the list having been asked exactly once.
pub proof fn law_a_round_puts_back_just_the_running<P>(zombies: Seq<P>, answers: Seq<bool>)
    requires
        zombies.len() > 0,
        answers.len() == zombies.len(),
    ensures
        ({
            let pass = ReapView::taken(zombies)->Poll_0;
            let asked = crate::zombie_laws::asked(pass, answers);
            let end = crate::zombie_laws::drive(pass, answers);
            &&& asked.len() == zombies.len()
            &&& asked.to_multiset() == zombies.to_multiset()
            &&& ReapView::Poll(end).step() == ReapStep::PutBack
            &&& end.zombies == crate::zombie_laws::kept(asked, answers)
        }),
{
    crate::zombie_laws::law_pass_asks_everyone_once(zombies, answers);
}

/// An attempt to have a reaper driven is an attempt on its own lock: a loop comes with that lock
/// and is about to wait for its first signal, and a refusal is a refusal of that lock.
pub proof fn law_attempts_are_on_this_lock<'r, P>(
    lock: Lock,
    attempt: Result<Reap<'r, P>, Busy>,
)
    requires
        crate::reaper::attempted(lock, attempt),
    ensures
        attempt matches Ok(reap) ==> reap.guard().mutex() == lock.mutex() && reap@ is Wait,
        attempt matches Err(busy) ==> busy.mutex() == lock.mutex(),
{
}

/// Whoever gets the lock polls, and whoever does not get it does not. Of the cleanup routines, the
/// one that leaves nobody behind is the last.
pub proof fn law_who_gets_the_lock_polls<G, X>(guard: G, refusal: X, found: int)
    ensures
        crate::reaper::needs_backup(Ok::<G, X>(guard)),
        !crate::reaper::needs_backup(Err::<G, X>(refusal)),
        crate::cleanup::last(found) <==> found - 1 == 0,
{
}

/// A reaper that nobody polls and no routine waits for is had by whoever needs it driven: the
/// attempt succeeds, and from then on there is a poller. So an attempt that fails shows that
/// somebody else polls or is about to.
pub proof fn law_a_free_reaper_is_driven_at_once(pollers: Pollers, attempt: Result<(), ()>)
    requires
        pollers.allows(attempt),
    ensures
        !pollers.locked() && pollers.waiting == 0 ==> attempt is Ok && pollers.driven(
            attempt,
        ).locked(),
        attempt is Err ==> pollers.locked() || pollers.waiting > 0,
        pollers.driven(attempt).locked() || pollers.driven(attempt).waiting > 0,
{
}

} // verus!
