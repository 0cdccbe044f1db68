//! A spawned process and the handles to it.

use vstd::prelude::*;
use crate::output::OutputWait;
use crate::shared::{Owner, StillShared};
use crate::status::StatusWait;
use crate::system::System;

verus! {

/// What becomes of a process when its last handle is dropped.
#[derive(Clone, Copy, Debug, PartialEq, Eq, Structural)]
pub struct DropPolicy {
    /// Collect its exit status in the background.
    pub reap_on_drop: bool,
    /// Kill it.
    pub kill_on_drop: bool,
}

/// A process together with what becomes of it when nobody holds it any more.
pub struct ChildGuard<T: System> {
    /// The identifier that the system gave the process.
    pub id: u32,
    /// The handle to the process.
    pub process: T::Process,
    /// What becomes of the process in the end.
    pub policy: DropPolicy,
}

/// What is left to be done about a process whose last handle was dropped.
pub enum Disposal<T: System> {
    /// Kill the process; then go on with [`Disposal::killed`].
    Kill(ChildGuard<T>),
    /// Hand the process to the reaper, with [`Reaper::push_zombie`][crate::Reaper::push_zombie].
    Reap(T::Process),
    /// Nothing; the handle is simply closed.
    Leave(T::Process),
}

impl<T: System> Disposal<T> {
    /// What is done once it is settled that the process need not be killed, or that an attempt
    /// was made.
    pub open spec fn reaping(guard: ChildGuard<T>) -> Disposal<T> {
        if guard.policy.reap_on_drop {
            Disposal::Reap(guard.process)
        } else {
            Disposal::Leave(guard.process)
        }
    }

    /// What is done first about `guard`.
    pub open spec fn starting(guard: ChildGuard<T>) -> Disposal<T> {
        if guard.policy.kill_on_drop {
            Disposal::Kill(guard)
        } else {
            Disposal::reaping(guard)
        }
    }

    /// Decides what is to be done about a process that nobody holds any more.
    pub fn new(guard: ChildGuard<T>) -> (disposal: Disposal<T>)
        ensures
            disposal == Disposal::starting(guard),
    {
        if guard.policy.kill_on_drop {
            Disposal::Kill(guard)
        } else {
            Disposal::settled(guard)
        }
    }

    fn settled(guard: ChildGuard<T>) -> (disposal: Disposal<T>)
        ensures
            disposal == Disposal::reaping(guard),
    {
        if guard.policy.reap_on_drop {
            Disposal::Reap(guard.process)
        } else {
            Disposal::Leave(guard.process)
        }
    }

    /// Goes on after the attempt to kill the process, whatever came of it.
    pub fn killed(self, outcome: Result<(), T::Error>) -> (disposal: Disposal<T>)
        requires
            self is Kill,
        ensures
            disposal == Disposal::reaping(self->Kill_0),
    {
        match self {
            Disposal::Kill(guard) => Disposal::settled(guard),
            other => other,
        }
    }
}

/// What giving a handle up leads to: something is done about the process only if the handle was the
/// last.
pub open spec fn dropping<T: System, X>(last: Result<ChildGuard<T>, X>) -> Result<Disposal<T>, X> {
    match last {
        Ok(guard) => Ok(Disposal::starting(guard)),
        Err(shared) => Err(shared),
    }
}

/// What is to be done when a handle was dropped: something only if it was the last.
pub fn dropped<T: System, X>(last: Result<ChildGuard<T>, X>) -> (disposal: Result<Disposal<T>, X>)
    ensures
        disposal == dropping(last),
{
    match last {
        Ok(guard) => Ok(Disposal::new(guard)),
        Err(shared) => Err(shared),
    }
}

/// What the end of the handle `handle` to `guard` brings: what is done first about the process, or
/// the record that this very handle was given up while others hold this very process.
pub open spec fn let_go<T: System>(
    guard: ChildGuard<T>,
    handle: int,
    disposal: Result<Disposal<T>, StillShared<ChildGuard<T>>>,
) -> bool {
    match disposal {
        Ok(disposal) => disposal == Disposal::starting(guard),
        Err(shared) => shared.value() == guard && shared.label() == handle,
    }
}

/// The question, yet to be put to a process, whether it has exited and how.
pub struct TryStatus<'a, P> {
    /// The process to ask, without waiting.
    pub process: &'a P,
}

/// Why a process was not killed.
#[derive(Debug)]
pub enum KillError<X> {
    /// The process has already exited.
    InvalidInput,
    /// The system refused.
    Refused(X),
}

/// Forcing a process to exit. Each state waits for the outcome of one call.
pub enum Killing<'a, P, X> {
    /// Ask, without waiting, whether the process has exited; then [`Killing::checked`].
    Check(&'a P),
    /// Kill the process; then [`Killing::killed`].
    Kill(&'a P),
    /// It is done, or it failed.
    Done(Result<(), KillError<X>>),
}

impl<'a, P, X> Killing<'a, P, X> {
    /// Records what `try_wait` said. A process that has exited is not killed; where the answer is
    /// an error, the kill is attempted.
    pub fn checked<S>(self, answer: Result<Option<S>, X>) -> (next: Killing<'a, P, X>)
        requires
            self is Check,
        ensures
            next == if answer matches Ok(Some(_)) {
                Killing::<'a, P, X>::Done(Err(KillError::InvalidInput))
            } else {
                Killing::<'a, P, X>::Kill(self->Check_0)
            },
    {
        match (self, answer) {
            (_, Ok(Some(_))) => Killing::Done(Err(KillError::InvalidInput)),
            (Killing::Check(process), _) => Killing::Kill(process),
            (other, _) => other,
        }
    }

    /// Records the outcome of the kill.
    pub fn killed(self, outcome: Result<(), X>) -> (next: Killing<'a, P, X>)
        requires
            self is Kill,
        ensures
            next == Killing::<'a, P, X>::Done(
                match outcome {
                    Ok(_) => Ok(()),
                    Err(error) => Err(KillError::Refused(error)),
                },
            ),
    {
        match outcome {
            Ok(_) => Killing::Done(Ok(())),
            Err(error) => Killing::Done(Err(KillError::Refused(error))),
        }
    }
}

/// A spawned child process.
///
/// If the [`Child`] is dropped, the process keeps running in the background, unless its
/// [`DropPolicy`] says otherwise.
pub struct Child<T: System> {
    /// The handle for writing to the child's standard input, if it has been captured.
    pub stdin: Option<T::Stdin>,

    /// The handle for reading from the child's standard output, if it has been captured.
    pub stdout: Option<T::Stdout>,

    /// The handle for reading from the child's standard error, if it has been captured.
    pub stderr: Option<T::Stderr>,

    /// The process, shared with the waits for it.
    pub child: Owner<ChildGuard<T>>,
}

impl<T: System> Child<T> {
    /// The process that this is a handle to.
    pub open spec fn guard(&self) -> ChildGuard<T> {
        self.child.value()
    }

    /// The label of this handle.
    pub open spec fn handle(&self) -> int {
        self.child.label()
    }

    pub(crate) fn assemble(
        guard: ChildGuard<T>,
        stdin: Option<T::Stdin>,
        stdout: Option<T::Stdout>,
        stderr: Option<T::Stderr>,
    ) -> (child: Child<T>)
        ensures
            child.guard() == guard,
            child.stdin == stdin,
            child.stdout == stdout,
            child.stderr == stderr,
    {
        Child { stdin, stdout, stderr, child: Owner::new(guard) }
    }

    /// Returns the OS-assigned process identifier associated with this child.
    pub fn id(&self) -> (id: u32)
        ensures
            id == self.guard().id,
    {
        self.child.get().id
    }

    /// Forces the child process to exit.
    ///
    /// If the child has already exited, the answer is [`KillError::InvalidInput`].
    pub fn kill(&mut self) -> (killing: Killing<'_, T::Process, T::Error>)
        ensures
            killing == Killing::<'_, T::Process, T::Error>::Check(&old(self).guard().process),
            *final(self) == *old(self),
    {
        Killing::Check(&self.child.get().process)
    }

    /// Asks for the exit status if the process has exited.
    ///
    /// Unlike [`Child::status`], this leaves the stdin handle open.
    pub fn try_status(&mut self) -> (question: TryStatus<'_, T::Process>)
        ensures
            question.process == &old(self).guard().process,
            *final(self) == *old(self),
    {
        TryStatus { process: &self.child.get().process }
    }

    /// Drops the stdin handle and waits for the process to exit.
    ///
    /// Closing the stdin of the process helps avoid deadlocks. It ensures that the process does
    /// not block waiting for input from the parent process while the parent waits for the child
    /// to exit.
    pub fn status(&mut self) -> (wait: StatusWait<T>)
        ensures
            final(self).stdin is None,
            final(self).stdout == old(self).stdout,
            final(self).stderr == old(self).stderr,
            final(self).guard() == old(self).guard(),
            final(self).handle() == old(self).handle(),
            wait.guard() == old(self).guard(),
            wait.handle() != old(self).handle(),
            wait.state() == crate::status::StatusState::<T>::Check(None),
    {
        self.stdin = None;
        StatusWait::new(crate::shared::share(&self.child))
    }

    /// Drops the stdin handle and collects the output of the process.
    ///
    /// Only what was captured can be collected: stdout and stderr have to be piped.
    pub fn output(self) -> (wait: OutputWait<T>)
        ensures
            wait.guard() == self.guard(),
            wait.handle() != self.handle(),
            wait.waiting() == crate::status::StatusState::<T>::Check(None),
            wait.state() == crate::output::OutputState::<T>::Read(self.stdout, self.stderr),
    {
        let mut this = self;
        let wait = this.status();
        OutputWait::new(wait, this.stdout, this.stderr)
    }

    /// Drops this handle. Returns what is to be done about the process if it was the last one, and
    /// the record that others hold the process if it was not.
    pub fn release(self) -> (disposal: Result<Disposal<T>, StillShared<ChildGuard<T>>>)
        ensures
            let_go(self.guard(), self.handle(), disposal),
    {
        dropped(crate::shared::give_up(self.child))
    }
}

} // verus!
