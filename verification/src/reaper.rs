//! The reaper: who polls for exited processes, and what a poll does.

use vstd::prelude::*;
use async_lock::{Mutex, MutexGuard};
use event_listener::Event;
use crate::atomic::{Added, Counter, Subtracted};
use crate::event::{Busy, Comparison, Listener, Lock, Notice, PollingGuard, Reach};
use crate::zombies::{Pass, PassStep, PassView, Zombies};

verus! {

/// The part of the reaper that all threads share: the event that announces `SIGCHLD`, the lock that
/// admits one poller at a time, and the number of cleanup routines under way.
pub struct Reaper {
    sigchld: Event,
    polling_guard: Lock,
    routines: Counter,
}

/// What comes of an attempt to have the reaper driven whose lock is `lock`: a loop that holds this
/// very lock and is about to wait for its first signal, or the record that this very lock was not
/// to be had.
pub open spec fn attempted<'r, P>(lock: Lock, attempt: Result<Reap<'r, P>, Busy>) -> bool {
    match attempt {
        Ok(reap) => reap.guard().mutex() == lock.mutex() && reap@ == ReapView::<P>::Wait,
        Err(busy) => busy.mutex() == lock.mutex(),
    }
}

/// Something that can be driven, by whoever has been given it, with a single attempt: the attempt
/// uses it up. Nothing else can be done with it, so that an attempt that fails cannot fail because
/// of another one made in the same place.
///
/// This trait is sealed: a reference to a [`Reaper`] is the one thing that can be driven.
pub trait Drivable<'r, P>: Sized + crate::sealed::Sealed {
    /// The lock that the attempt is for.
    spec fn lock(&self) -> Lock;

    /// Makes the attempt, as [`Reaper::driven`] does.
    fn drive(self) -> (backup: Result<Reap<'r, P>, Busy>)
        ensures
            attempted(self.lock(), backup),
    ;
}

impl<'r> crate::sealed::Sealed for &'r Reaper {}

impl<'r, P> Drivable<'r, P> for &'r Reaper {
    open spec fn lock(&self) -> Lock {
        self.guard()
    }

    fn drive(self) -> (backup: Result<Reap<'r, P>, Busy>) {
        self.driven()
    }
}

/// A guard that came from some other lock, with the comparison that showed it.
pub struct Foreign<'r> {
    /// The guard.
    pub guard: PollingGuard<'r>,
    /// The comparison of its lock with the one that was wanted.
    pub comparison: Comparison,
}

impl Reaper {
    /// The event that is signalled every time the `SIGCHLD` signal occurs.
    pub closed spec fn sigchld(&self) -> Event {
        self.sigchld
    }

    /// The lock that the one poller holds.
    pub closed spec fn guard(&self) -> Lock {
        self.polling_guard
    }

    /// The number of cleanup routines that have begun and not ended, whether they poll or wait for
    /// the lock.
    pub closed spec fn routines(&self) -> Counter {
        self.routines
    }

    /// Creates a reaper that nobody polls yet.
    pub fn new() -> (reaper: Reaper)
        ensures
            !reaper.guard().held_at_first(),
            reaper.routines().initial() == 0,
    {
        Reaper {
            sigchld: Event::new(),
            polling_guard: crate::event::lock(),
            routines: crate::atomic::counter(0),
        }
    }

    /// The polling loop of this reaper, for whoever holds its lock.
    pub fn reap<'r, P>(&self, guard: PollingGuard<'r>) -> (reap: Reap<'r, P>)
        requires
            guard.mutex() == self.guard().mutex(),
        ensures
            reap.guard() == guard,
            reap@ == ReapView::<P>::Wait,
    {
        Reap { guard, state: ReapState::Wait }
    }

    /// Makes sure that somebody polls the reaper: when nobody does, the polling loop returned here
    /// holds the lock and is to be run on a backup thread of its own. There is none only when the
    /// lock that a poller holds was not to be had.
    pub fn driven<P>(&self) -> (backup: Result<Reap<'_, P>, Busy>)
        ensures
            attempted(self.guard(), backup),
    {
        self.backup(crate::event::try_lock(self.polling_guard.inner()))
    }

    /// Decides whether a backup poller is needed, given what an attempt to take the lock brought:
    /// the loop to run when the lock was free, and otherwise why it was not to be had.
    pub fn backup<'r, P>(&self, attempt: Result<PollingGuard<'r>, Busy>) -> (backup: Result<
        Reap<'r, P>,
        Busy,
    >)
        requires
            attempt matches Ok(guard) ==> guard.mutex() == self.guard().mutex(),
        ensures
            backup is Ok <==> needs_backup(attempt),
            backup matches Ok(reap) ==> reap.guard() == attempt->Ok_0 && reap@ == ReapView::<
                P,
            >::Wait,
            backup matches Err(busy) ==> busy == attempt->Err_0,
    {
        match attempt {
            Ok(guard) => Ok(self.reap(guard)),
            Err(busy) => Err(busy),
        }
    }

    /// Takes a guard for that of this reaper's lock, which was waited for with
    /// [`Reaper::polling_guard`]. A guard that came from another lock is handed back.
    pub fn hold<'r>(&self, guard: MutexGuard<'r, ()>) -> (held: Result<
        PollingGuard<'r>,
        Foreign<'r>,
    >)
        ensures
            held matches Ok(held) ==> held.inner() == guard && held.mutex() == self.guard().mutex(),
            held matches Err(foreign) ==> {
                &&& foreign.guard.inner() == guard
                &&& foreign.comparison.left() == foreign.guard.mutex()
                &&& foreign.comparison.right() == self.guard().mutex()
                &&& !foreign.comparison.same()
            },
    {
        let (guard, mutex) = crate::event::held(guard);
        let comparison = crate::event::same(mutex, self.polling_guard.inner());
        if comparison.is_same() {
            Ok(guard)
        } else {
            Err(Foreign { guard, comparison })
        }
    }

    /// Puts a process that nobody holds any more on the list, which the caller has locked, given
    /// what `try_wait` just said of it, and has the reaper driven as [`Reaper::driven`] does.
    pub fn push_zombie<P, S, X>(
        &self,
        zombies: &mut Zombies<P>,
        child: P,
        wait: Result<Option<S>, X>,
    ) -> (backup: Result<Reap<'_, P>, Busy>)
        ensures
            final(zombies)@ == if crate::zombies::still_running(wait) {
                old(zombies)@.push(child)
            } else {
                old(zombies)@
            },
            attempted(self.guard(), backup),
    {
        zombies.push_zombie(child, wait);
        self.driven()
    }

    /// Registers a listener for the next `SIGCHLD`.
    pub fn listen(&self) -> (listener: Listener)
        ensures
            listener.event() == self.sigchld(),
    {
        crate::event::listen(&self.sigchld)
    }

    /// Wakes everybody who listens for `SIGCHLD`.
    pub(crate) fn notify(&self) -> (notice: Notice)
        ensures
            notice.event() == self.sigchld(),
            notice.reach() == Reach::AtLeast(usize::MAX),
    {
        crate::event::notify(&self.sigchld, usize::MAX)
    }

    /// Counts one more cleanup routine.
    pub(crate) fn join(&self) -> (joined: Added)
        ensures
            joined.counter() == self.routines(),
            joined.amount() == 1,
    {
        crate::atomic::fetch_add(&self.routines, 1)
    }

    /// Counts one cleanup routine less.
    pub(crate) fn leave(&self) -> (left: Subtracted)
        ensures
            left.counter() == self.routines(),
            left.amount() == 1,
    {
        crate::atomic::fetch_sub(&self.routines, 1)
    }

    /// The lock that a poller has to hold, for those who are ready to wait for it.
    pub fn polling_guard(&self) -> (mutex: &Mutex<()>)
        ensures
            *mutex == self.guard().mutex(),
    {
        self.polling_guard.inner()
    }
}

/// Whether a backup poller is needed, given what an attempt to take the lock brought: it is when
/// the lock was free.
pub open spec fn needs_backup<G, X>(attempt: Result<G, X>) -> bool {
    attempt is Ok
}

/// What the polling loop does next.
#[derive(Clone, Copy, Debug, PartialEq, Eq, Structural)]
pub enum ReapStep {
    /// Wait for the next `SIGCHLD`.
    Wait,
    /// Wake everybody who waits for a process to exit.
    Notify,
    /// Lock the list of zombies and take what is on it.
    Take,
    /// Ask the current zombie whether it has exited.
    Poll,
    /// Let other tasks run.
    Yield,
    /// Lock the list of zombies and put the rest back.
    PutBack,
}

enum ReapState<P> {
    Wait,
    Notify,
    Take,
    Poll(Pass<P>),
}

/// The polling loop. It never ends by itself and holds the lock for as long as it exists. Whoever
/// ends it does so with [`Reap::release`].
pub struct Reap<'r, P> {
    guard: PollingGuard<'r>,
    state: ReapState<P>,
}

/// Where the polling loop stands.
#[verifier::ext_equal]
pub enum ReapView<P> {
    /// Waiting for `SIGCHLD`.
    Wait,
    /// `SIGCHLD` came and nobody has been told yet.
    Notify,
    /// Everybody has been told and the list is yet to be looked at.
    Take,
    /// In the middle of a pass.
    Poll(PassView<P>),
}

impl<P> ReapView<P> {
    /// What comes next.
    pub open spec fn step(self) -> ReapStep {
        match self {
            ReapView::Wait => ReapStep::Wait,
            ReapView::Notify => ReapStep::Notify,
            ReapView::Take => ReapStep::Take,
            ReapView::Poll(pass) => match pass.step() {
                PassStep::Poll => ReapStep::Poll,
                PassStep::Yield => ReapStep::Yield,
                PassStep::Finished => ReapStep::PutBack,
            },
        }
    }

    /// After the list was found to hold `zombies`: a pass over them, or back to waiting when there
    /// are none.
    pub open spec fn taken(zombies: Seq<P>) -> ReapView<P> {
        if zombies.len() == 0 {
            ReapView::Wait
        } else {
            ReapView::Poll(PassView::fresh(zombies))
        }
    }
}

impl<'r, P> View for Reap<'r, P> {
    type V = ReapView<P>;

    closed spec fn view(&self) -> ReapView<P> {
        match self.state {
            ReapState::Wait => ReapView::Wait,
            ReapState::Notify => ReapView::Notify,
            ReapState::Take => ReapView::Take,
            ReapState::Poll(pass) => ReapView::Poll(pass@),
        }
    }
}

impl<'r, P> Reap<'r, P> {
    /// The lock that the loop holds.
    pub closed spec fn guard(&self) -> PollingGuard<'r> {
        self.guard
    }

    /// The invariant of the loop: a pass under way is a proper one.
    pub open spec fn wf(&self) -> bool {
        self@ matches ReapView::Poll(pass) ==> pass.valid()
    }

    /// What the loop does next.
    pub fn step(&self) -> (step: ReapStep)
        ensures
            step == self@.step(),
    {
        match &self.state {
            ReapState::Wait => ReapStep::Wait,
            ReapState::Notify => ReapStep::Notify,
            ReapState::Take => ReapStep::Take,
            ReapState::Poll(pass) => match pass.step() {
                PassStep::Poll => ReapStep::Poll,
                PassStep::Yield => ReapStep::Yield,
                PassStep::Finished => ReapStep::PutBack,
            },
        }
    }

    /// Records that `SIGCHLD` came.
    pub fn signalled(&mut self)
        requires
            old(self)@.step() == ReapStep::Wait,
        ensures
            final(self).wf(),
            final(self).guard() == old(self).guard(),
            final(self)@ == ReapView::<P>::Notify,
    {
        self.state = ReapState::Notify;
    }

    /// Wakes everybody who listens for `SIGCHLD`.
    pub fn notify(&mut self, reaper: &Reaper) -> (notice: Notice)
        requires
            old(self)@.step() == ReapStep::Notify,
        ensures
            final(self).wf(),
            final(self).guard() == old(self).guard(),
            final(self)@ == ReapView::<P>::Take,
            notice.event() == reaper.sigchld(),
            notice.reach() == Reach::AtLeast(usize::MAX),
    {
        self.state = ReapState::Take;
        reaper.notify()
    }

    /// Takes the list of zombies, which the caller has locked.
    pub fn take(&mut self, zombies: &mut Zombies<P>)
        requires
            old(self)@.step() == ReapStep::Take,
        ensures
            final(self).wf(),
            final(self).guard() == old(self).guard(),
            final(self)@ == ReapView::taken(old(zombies)@),
            final(zombies)@ == Seq::<P>::empty(),
    {
        self.state = match zombies.take() {
            Some(pass) => ReapState::Poll(pass),
            None => ReapState::Wait,
        };
    }

    /// The zombie to ask.
    pub fn zombie(&self) -> (zombie: &P)
        requires
            self.wf(),
            self@.step() == ReapStep::Poll,
        ensures
            self@ matches ReapView::Poll(pass) && *zombie == pass.zombies[pass.next],
    {
        match &self.state {
            ReapState::Poll(pass) => pass.zombie(),
            _ => vstd::pervasive::unreached(),
        }
    }

    /// Records what `try_wait` said of the current zombie.
    pub fn polled<S, X>(&mut self, wait: Result<Option<S>, X>)
        requires
            old(self).wf(),
            old(self)@.step() == ReapStep::Poll,
        ensures
            final(self).wf(),
            final(self).guard() == old(self).guard(),
            old(self)@ matches ReapView::Poll(pass) && final(self)@ == ReapView::Poll(
                pass.polled(crate::zombies::still_running(wait)),
            ),
    {
        if let ReapState::Poll(pass) = &mut self.state {
            pass.polled(wait);
        }
    }

    /// Records that other tasks had their turn.
    pub fn yielded(&mut self)
        requires
            old(self).wf(),
            old(self)@.step() == ReapStep::Yield,
        ensures
            final(self).wf(),
            final(self).guard() == old(self).guard(),
            old(self)@ matches ReapView::Poll(pass) && final(self)@ == ReapView::Poll(
                pass.yielded(),
            ),
    {
        if let ReapState::Poll(pass) = &mut self.state {
            pass.yielded();
        }
    }

    /// Puts the rest of a finished pass back on the list, which the caller has locked.
    pub fn put_back(&mut self, zombies: &mut Zombies<P>)
        requires
            old(self)@.step() == ReapStep::PutBack,
        ensures
            final(self).wf(),
            final(self).guard() == old(self).guard(),
            final(self)@ == ReapView::<P>::Wait,
            old(self)@ matches ReapView::Poll(pass) && final(zombies)@ == pass.zombies + old(
                zombies,
            )@,
    {
        let mut state = ReapState::Wait;
        std::mem::swap(&mut state, &mut self.state);
        if let ReapState::Poll(pass) = state {
            zombies.put_back(pass);
        }
    }

    /// Ends the loop, at whatever point it stands: puts all that a pass under way still holds back
    /// on the list, which the caller has locked, and hands the lock out.
    pub fn release(self, zombies: &mut Zombies<P>) -> (guard: PollingGuard<'r>)
        ensures
            guard == self.guard(),
            final(zombies)@ == match self@ {
                ReapView::Poll(pass) => pass.zombies + old(zombies)@,
                _ => old(zombies)@,
            },
    {
        if let ReapState::Poll(pass) = self.state {
            zombies.put_back(pass);
        }
        self.guard
    }
}

/// The state of a loop shows where it stands, with the whole pass if it is in one.
proof fn law_loops_show_where_they_stand<'r, P>(reap: Reap<'r, P>)
    ensures
        reap.guard() == reap.guard,
        reap.state is Wait <==> reap@ is Wait,
        reap.state is Notify <==> reap@ is Notify,
        reap.state is Take <==> reap@ is Take,
        reap.state matches ReapState::Poll(pass) ==> reap@ == ReapView::Poll(pass@),
{
}

} // verus!
