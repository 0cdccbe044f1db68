//! Reaping zombies alongside a future of the caller's.
//!
//! A cleanup routine begins with an attempt to take the lock on the reaper, before the future first
//! runs, and ends when the future is ready or is dropped. However it ends, nothing that depended on
//! its polling is left behind: see [`Ending`].

use vstd::prelude::*;
use crate::atomic::{Added, Subtracted};
use crate::event::{Busy, Notice, PollingGuard, Reach, Unlocked};
use crate::reaper::{Drivable, Reap, ReapView, Reaper};
use crate::zombies::Zombies;

verus! {

/// Where a cleanup routine stands.
pub enum CleanupState<'r, P> {
    /// Wait for the lock on the reaper, which was not to be had; then [`Cleanup::locked`].
    Lock(Busy),
    /// Run the polling loop, which never ends by itself.
    Reap(Reap<'r, P>),
}

/// A cleanup routine. It counts as under way from its beginning to its end, and is ended with
/// [`Cleanup::end`].
pub struct Cleanup<'r, P> {
    /// The record that the routine was counted.
    pub joined: Added,
    /// Where the routine stands.
    pub state: CleanupState<'r, P>,
}

/// Run the zombie process cleanup routine along with a future.
///
/// This avoids the need to spawn the "async-process" thread in order to reap zombie processes:
/// the routine is counted and tries to take the lock on the reaper before the future first runs.
/// Only one thread can wait on the `SIGCHLD` signal at a time, so if another thread is already
/// waiting on the signal, then the future just runs without reaping zombie processes.
pub fn cleanup_zombies<'r, P>(reaper: &'r Reaper) -> (cleanup: Cleanup<'r, P>)
    ensures
        cleanup.joined.counter() == reaper.routines(),
        cleanup.joined.amount() == 1,
        crate::reaper::attempted(
            reaper.guard(),
            match cleanup.state {
                CleanupState::Reap(reap) => Ok(reap),
                CleanupState::Lock(busy) => Err(busy),
            },
        ),
{
    let joined = reaper.join();
    Cleanup::begun(joined, reaper.driven())
}

impl<'r, P> Cleanup<'r, P> {
    /// The invariant of the routine: a loop under way is a proper one.
    pub open spec fn wf(&self) -> bool {
        self.state matches CleanupState::Reap(reap) ==> reap.wf()
    }

    /// The routine that results from the first attempt to take the lock.
    pub fn begun(joined: Added, attempt: Result<Reap<'r, P>, Busy>) -> (cleanup: Cleanup<'r, P>)
        ensures
            cleanup.joined == joined,
            cleanup.state == match attempt {
                Ok(reap) => CleanupState::Reap(reap),
                Err(busy) => CleanupState::<'r, P>::Lock(busy),
            },
    {
        let state = match attempt {
            Ok(reap) => CleanupState::Reap(reap),
            Err(busy) => CleanupState::Lock(busy),
        };
        Cleanup { joined, state }
    }

    /// Records that the lock on `reaper` was acquired. From now on this is the one poller.
    pub fn locked(self, reaper: &Reaper, guard: PollingGuard<'r>) -> (next: Cleanup<'r, P>)
        requires
            self.state is Lock,
            guard.mutex() == reaper.guard().mutex(),
        ensures
            next.wf(),
            next.joined == self.joined,
            next.state matches CleanupState::Reap(reap) && reap.guard() == guard && reap@
                == ReapView::<P>::Wait,
    {
        Cleanup { joined: self.joined, state: CleanupState::Reap(reaper.reap(guard)) }
    }

    /// Ends the routine: all that a pass under way still holds goes back on the list, which the
    /// caller has locked, and only then the lock on the reaper is given up, if the routine held it.
    pub fn end(self, zombies: &mut Zombies<P>) -> (ending: Ending<'r, P>)
        ensures
            final(zombies)@ == match self.state {
                CleanupState::Reap(reap) => match reap@ {
                    ReapView::Poll(pass) => pass.zombies + old(zombies)@,
                    _ => old(zombies)@,
                },
                CleanupState::Lock(_) => old(zombies)@,
            },
            ending matches Ending::Leave(unlocked) && match self.state {
                CleanupState::Reap(reap) => unlocked matches Some(unlocked) && unlocked.mutex()
                    == reap.guard().mutex(),
                CleanupState::Lock(_) => unlocked is None,
            },
    {
        match self.state {
            CleanupState::Reap(reap) => {
                let guard = reap.release(zombies);
                Ending::Leave(Some(crate::event::unlock(guard)))
            },
            CleanupState::Lock(_) => Ending::Leave(None),
        }
    }
}

/// Whether a routine that found this many under way when it left, itself included, is the last.
pub open spec fn last(found: int) -> bool {
    found == 1
}

/// The end of a cleanup routine. Each state waits for one call.
///
/// As long as another routine is under way, that one polls or waits for the lock to poll. The last
/// one to leave hands over: it wakes everybody who listens, who then ask again and have the reaper
/// driven if they go on waiting, and it has the reaper driven itself if there are zombies left.
pub enum Ending<'r, P> {
    /// The lock, if it was held, has been given up: count one routine less, with
    /// [`Ending::leave`].
    Leave(Option<Unlocked>),
    /// Other routines are under way: this one has ended.
    Others(Subtracted),
    /// This was the last routine: wake everybody who listens, with [`Ending::wake`].
    Wake(Subtracted),
    /// Everybody has been woken: have the reaper driven if there are zombies, with
    /// [`Ending::drive`].
    Drive(Notice),
    /// The routine has ended. A loop is to be run on a backup thread, as with [`Reaper::driven`].
    Done(Option<Result<Reap<'r, P>, Busy>>),
}

impl<'r, P> Ending<'r, P> {
    /// What having been counted out leads to.
    pub fn left(left: Subtracted) -> (next: Ending<'r, P>)
        ensures
            next == if last(left.found() as int) {
                Ending::<'r, P>::Wake(left)
            } else {
                Ending::<'r, P>::Others(left)
            },
    {
        if left.previous() == 1 {
            Ending::Wake(left)
        } else {
            Ending::Others(left)
        }
    }

    /// Counts one routine less.
    pub fn leave(self, reaper: &'r Reaper) -> (next: Ending<'r, P>)
        requires
            self is Leave,
        ensures
            next is Wake || next is Others,
            next matches Ending::Wake(left) ==> {
                &&& left.counter() == reaper.routines()
                &&& left.amount() == 1
                &&& last(left.found() as int)
            },
            next matches Ending::Others(left) ==> {
                &&& left.counter() == reaper.routines()
                &&& left.amount() == 1
                &&& !last(left.found() as int)
            },
    {
        Ending::left(reaper.leave())
    }

    /// Wakes everybody who listens for `SIGCHLD`.
    pub fn wake(self, reaper: &'r Reaper) -> (next: Ending<'r, P>)
        requires
            self is Wake,
        ensures
            next matches Ending::Drive(notice) && notice.event() == reaper.sigchld()
                && notice.reach() == Reach::AtLeast(usize::MAX),
    {
        Ending::Drive(reaper.notify())
    }

    /// Has the reaper driven if there is anything on the list, which the caller has locked.
    pub fn drive<D: Drivable<'r, P>>(self, reaper: D, zombies: &Zombies<P>) -> (next: Ending<
        'r,
        P,
    >)
        requires
            self is Drive,
        ensures
            next matches Ending::Done(backup) && if zombies@.len() == 0 {
                backup is None
            } else {
                backup matches Some(backup) && crate::reaper::attempted(reaper.lock(), backup)
            },
    {
        if zombies.is_empty() {
            Ending::Done(None)
        } else {
            Ending::Done(Some(reaper.drive()))
        }
    }
}

} // verus!
