//! Waiting for a process to exit.

use vstd::prelude::*;
use crate::child::{ChildGuard, Disposal};
use crate::event::{Busy, Listener};
use crate::reaper::{Drivable, Reap, Reaper};
use crate::shared::{Owner, StillShared};
use crate::system::System;

verus! {

/// Where a wait for a process stands.
pub enum StatusState<T: System> {
    /// About to ask whether the process has exited, listening for `SIGCHLD` or not yet.
    Check(Option<Listener>),
    /// The process runs, and nobody listens for `SIGCHLD` yet.
    Listen,
    /// Listening, and it is yet to be made sure that somebody polls the reaper.
    Drive(Listener),
    /// The process was still running after the listener had been registered.
    Sleep(Listener),
    /// The wait is over.
    Done(Result<T::ExitStatus, T::Error>),
}

/// What a wait does next.
#[derive(Clone, Copy, Debug, PartialEq, Eq, Structural)]
pub enum StatusStep {
    /// Ask whether the process has exited.
    TryWait,
    /// Listen for `SIGCHLD`.
    Listen,
    /// Have the reaper driven.
    Drive,
    /// Wait for the listener to be notified.
    Sleep,
    /// Return the result.
    Finish,
}

impl<T: System> StatusState<T> {
    /// What comes next.
    pub open spec fn step(self) -> StatusStep {
        match self {
            StatusState::Check(_) => StatusStep::TryWait,
            StatusState::Listen => StatusStep::Listen,
            StatusState::Drive(_) => StatusStep::Drive,
            StatusState::Sleep(_) => StatusStep::Sleep,
            StatusState::Done(_) => StatusStep::Finish,
        }
    }

    /// After `try_wait` answered. An exit status or an error ends the wait. Otherwise a wait that
    /// does not listen yet begins to, and one that listens goes to sleep.
    pub open spec fn checked(self, answer: Result<Option<T::ExitStatus>, T::Error>) -> StatusState<
        T,
    > {
        match (self, answer) {
            (_, Err(error)) => StatusState::Done(Err(error)),
            (_, Ok(Some(status))) => StatusState::Done(Ok(status)),
            (StatusState::Check(Some(listener)), Ok(None)) => StatusState::Sleep(listener),
            (_, Ok(None)) => StatusState::Listen,
        }
    }
}

/// A wait for a process to exit. It holds the process like any other handle.
pub struct StatusWait<T: System> {
    child: Owner<ChildGuard<T>>,
    state: StatusState<T>,
}

impl<T: System> StatusWait<T> {
    /// The process that is waited for.
    pub closed spec fn guard(&self) -> ChildGuard<T> {
        self.child.value()
    }

    /// The label of the handle that the wait holds.
    pub closed spec fn handle(&self) -> int {
        self.child.label()
    }

    /// Where the wait stands.
    pub closed spec fn state(&self) -> StatusState<T> {
        self.state
    }

    pub(crate) fn new(child: Owner<ChildGuard<T>>) -> (wait: StatusWait<T>)
        ensures
            wait.guard() == child.value(),
            wait.handle() == child.label(),
            wait.state() == StatusState::<T>::Check(None),
    {
        StatusWait { child, state: StatusState::Check(None) }
    }

    /// What the wait does next.
    pub fn step(&self) -> (step: StatusStep)
        ensures
            step == self.state().step(),
    {
        match &self.state {
            StatusState::Check(_) => StatusStep::TryWait,
            StatusState::Listen => StatusStep::Listen,
            StatusState::Drive(_) => StatusStep::Drive,
            StatusState::Sleep(_) => StatusStep::Sleep,
            StatusState::Done(_) => StatusStep::Finish,
        }
    }

    /// The process to ask.
    pub fn process(&self) -> (process: &T::Process)
        ensures
            *process == self.guard().process,
    {
        &self.child.get().process
    }

    /// Records what `try_wait` said.
    pub fn checked(&mut self, answer: Result<Option<T::ExitStatus>, T::Error>)
        requires
            old(self).state().step() == StatusStep::TryWait,
        ensures
            final(self).guard() == old(self).guard(),
            final(self).handle() == old(self).handle(),
            final(self).state() == old(self).state().checked(answer),
    {
        let mut state = StatusState::Listen;
        std::mem::swap(&mut state, &mut self.state);
        match answer {
            Err(error) => self.state = StatusState::Done(Err(error)),
            Ok(Some(status)) => self.state = StatusState::Done(Ok(status)),
            Ok(None) => {
                if let StatusState::Check(Some(listener)) = state {
                    self.state = StatusState::Sleep(listener);
                }
            },
        }
    }

    /// Listens for `SIGCHLD`.
    pub fn listen(&mut self, reaper: &Reaper)
        requires
            old(self).state().step() == StatusStep::Listen,
        ensures
            final(self).guard() == old(self).guard(),
            final(self).handle() == old(self).handle(),
            final(self).state() matches StatusState::Drive(listener) && listener.event()
                == reaper.sigchld(),
    {
        self.state = StatusState::Drive(reaper.listen());
    }

    /// Has the reaper driven, as [`Reaper::driven`] does. By now the listener is registered, so
    /// that whoever polls, or stops polling, reaches it. The process is asked once more before
    /// anybody goes to sleep.
    pub fn drive<'r, D: Drivable<'r, T::Process>>(&mut self, reaper: D) -> (backup: Result<
        Reap<'r, T::Process>,
        Busy,
    >)
        requires
            old(self).state().step() == StatusStep::Drive,
        ensures
            final(self).guard() == old(self).guard(),
            final(self).handle() == old(self).handle(),
            old(self).state() matches StatusState::Drive(listener) && final(self).state()
                == StatusState::<T>::Check(Some(listener)),
            crate::reaper::attempted(reaper.lock(), backup),
    {
        let mut state = StatusState::Check(None);
        std::mem::swap(&mut state, &mut self.state);
        if let StatusState::Drive(listener) = state {
            self.state = StatusState::Check(Some(listener));
        }
        reaper.drive()
    }

    /// Hands the listener out to be awaited. When it has been notified, the process is asked again.
    pub fn sleep(&mut self) -> (listener: Listener)
        requires
            old(self).state().step() == StatusStep::Sleep,
        ensures
            final(self).guard() == old(self).guard(),
            final(self).handle() == old(self).handle(),
            old(self).state() == StatusState::<T>::Sleep(listener),
            final(self).state() == StatusState::<T>::Check(None),
    {
        let mut state = StatusState::Check(None);
        std::mem::swap(&mut state, &mut self.state);
        match state {
            StatusState::Sleep(listener) => listener,
            _ => vstd::pervasive::unreached(),
        }
    }

    /// Ends the wait: returns its result, and what [`StatusWait::release`] returns.
    pub fn finish(self) -> (end: (
        Result<T::ExitStatus, T::Error>,
        Result<Disposal<T>, StillShared<ChildGuard<T>>>,
    ))
        requires
            self.state().step() == StatusStep::Finish,
        ensures
            self.state() == StatusState::<T>::Done(end.0),
            crate::child::let_go(self.guard(), self.handle(), end.1),
    {
        match self.state {
            StatusState::Done(result) => (
                result,
                crate::child::dropped(crate::shared::give_up(self.child)),
            ),
            _ => vstd::pervasive::unreached(),
        }
    }

    /// Gives the wait up. Returns what is to be done about the process if this was the last handle
    /// to it, and the record that others hold the process if it was not.
    pub fn release(self) -> (disposal: Result<Disposal<T>, StillShared<ChildGuard<T>>>)
        ensures
            crate::child::let_go(self.guard(), self.handle(), disposal),
    {
        crate::child::dropped(crate::shared::give_up(self.child))
    }
}

} // verus!
