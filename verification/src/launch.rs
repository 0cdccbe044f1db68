//! Turning a command into a running child.

use vstd::prelude::*;
use crate::child::{Child, ChildGuard, DropPolicy};
use crate::event::Busy;
use crate::invocation::Invocation;
use crate::output::{OutputState, OutputWait};
use crate::reaper::{Drivable, Reap};
use crate::status::{StatusState, StatusWait};
use crate::system::System;

verus! {

/// A process that has just been spawned.
pub struct Spawned<T: System> {
    /// The identifier that the system gave the process.
    pub id: u32,
    /// The handle to the process.
    pub process: T::Process,
}

/// Where the launch of a child stands. Each state waits for the outcome of one call; the first
/// failure ends the launch.
pub enum Launch<T: System> {
    /// Spawn the process; then [`Launch::spawned`].
    Spawn { invocation: Invocation, policy: DropPolicy },
    /// Take the process's stdin pipe, if it has one, and make it asynchronous; then
    /// [`Launch::stdin_wrapped`].
    WrapStdin { guard: ChildGuard<T> },
    /// The same for stdout; then [`Launch::stdout_wrapped`].
    WrapStdout { guard: ChildGuard<T>, stdin: Option<T::Stdin> },
    /// The same for stderr; then [`Launch::stderr_wrapped`].
    WrapStderr { guard: ChildGuard<T>, stdin: Option<T::Stdin>, stdout: Option<T::Stdout> },
    /// Have the reaper driven, with [`Launch::drive`].
    Drive {
        guard: ChildGuard<T>,
        stdin: Option<T::Stdin>,
        stdout: Option<T::Stdout>,
        stderr: Option<T::Stderr>,
    },
    /// Register the process with the reaper; then [`Launch::registered`].
    Register {
        guard: ChildGuard<T>,
        stdin: Option<T::Stdin>,
        stdout: Option<T::Stdout>,
        stderr: Option<T::Stderr>,
    },
    /// The launch is over.
    Done(Result<Child<T>, T::Error>),
}

impl<T: System> Launch<T> {
    /// What the outcome of spawning the process leads to.
    pub open spec fn after_spawn(self, outcome: Result<Spawned<T>, T::Error>) -> Launch<T> {
        match outcome {
            Ok(spawned) => {
                let guard = ChildGuard::<T> {
                    id: spawned.id,
                    process: spawned.process,
                    policy: self->Spawn_policy,
                };
                Launch::WrapStdin { guard }
            },
            Err(error) => Launch::Done(Err(error)),
        }
    }

    /// What the outcome of making stdin asynchronous leads to.
    pub open spec fn after_stdin(self, outcome: Result<Option<T::Stdin>, T::Error>) -> Launch<T> {
        match outcome {
            Ok(stdin) => Launch::WrapStdout { guard: self->WrapStdin_guard, stdin },
            Err(error) => Launch::Done(Err(error)),
        }
    }

    /// What the outcome of making stdout asynchronous leads to.
    pub open spec fn after_stdout(self, outcome: Result<Option<T::Stdout>, T::Error>) -> Launch<T> {
        match outcome {
            Ok(stdout) => Launch::WrapStderr {
                guard: self->WrapStdout_guard,
                stdin: self->WrapStdout_stdin,
                stdout,
            },
            Err(error) => Launch::Done(Err(error)),
        }
    }

    /// What the outcome of making stderr asynchronous leads to.
    pub open spec fn after_stderr(self, outcome: Result<Option<T::Stderr>, T::Error>) -> Launch<T> {
        match outcome {
            Ok(stderr) => Launch::Drive {
                guard: self->WrapStderr_guard,
                stdin: self->WrapStderr_stdin,
                stdout: self->WrapStderr_stdout,
                stderr,
            },
            Err(error) => Launch::Done(Err(error)),
        }
    }

    /// What having the reaper driven leads to.
    pub open spec fn after_drive(self) -> Launch<T> {
        Launch::Register {
            guard: self->Drive_guard,
            stdin: self->Drive_stdin,
            stdout: self->Drive_stdout,
            stderr: self->Drive_stderr,
        }
    }

    /// Records the outcome of spawning the process.
    pub fn spawned(self, outcome: Result<Spawned<T>, T::Error>) -> (next: Launch<T>)
        requires
            self is Spawn,
        ensures
            next == self.after_spawn(outcome),
    {
        match (self, outcome) {
            (_, Err(error)) => Launch::Done(Err(error)),
            (Launch::Spawn { invocation: _, policy }, Ok(spawned)) => Launch::WrapStdin {
                guard: ChildGuard { id: spawned.id, process: spawned.process, policy },
            },
            (other, _) => other,
        }
    }

    /// Records the outcome of making stdin asynchronous.
    pub fn stdin_wrapped(self, outcome: Result<Option<T::Stdin>, T::Error>) -> (next: Launch<T>)
        requires
            self is WrapStdin,
        ensures
            next == self.after_stdin(outcome),
    {
        match (self, outcome) {
            (_, Err(error)) => Launch::Done(Err(error)),
            (Launch::WrapStdin { guard }, Ok(stdin)) => Launch::WrapStdout { guard, stdin },
            (other, _) => other,
        }
    }

    /// Records the outcome of making stdout asynchronous.
    pub fn stdout_wrapped(self, outcome: Result<Option<T::Stdout>, T::Error>) -> (next: Launch<T>)
        requires
            self is WrapStdout,
        ensures
            next == self.after_stdout(outcome),
    {
        match (self, outcome) {
            (_, Err(error)) => Launch::Done(Err(error)),
            (Launch::WrapStdout { guard, stdin }, Ok(stdout)) => Launch::WrapStderr {
                guard,
                stdin,
                stdout,
            },
            (other, _) => other,
        }
    }

    /// Records the outcome of making stderr asynchronous.
    pub fn stderr_wrapped(self, outcome: Result<Option<T::Stderr>, T::Error>) -> (next: Launch<T>)
        requires
            self is WrapStderr,
        ensures
            next == self.after_stderr(outcome),
    {
        match (self, outcome) {
            (_, Err(error)) => Launch::Done(Err(error)),
            (Launch::WrapStderr { guard, stdin, stdout }, Ok(stderr)) => Launch::Drive {
                guard,
                stdin,
                stdout,
                stderr,
            },
            (other, _) => other,
        }
    }

    /// Has the reaper driven, as [`Reaper::driven`][crate::Reaper::driven] does, so that somebody is
    /// there to notice the process's exit.
    pub fn drive<'r, D: Drivable<'r, T::Process>>(self, reaper: D) -> (driven: (
        Launch<T>,
        Result<Reap<'r, T::Process>, Busy>,
    ))
        requires
            self is Drive,
        ensures
            driven.0 == self.after_drive(),
            crate::reaper::attempted(reaper.lock(), driven.1),
    {
        let next = match self {
            Launch::Drive { guard, stdin, stdout, stderr } => Launch::Register {
                guard,
                stdin,
                stdout,
                stderr,
            },
            other => other,
        };
        (next, reaper.drive())
    }

    /// Records the outcome of registering the process with the reaper. With that the child is
    /// complete.
    pub fn registered(self, outcome: Result<(), T::Error>) -> (next: Launch<T>)
        requires
            self is Register,
        ensures
            outcome matches Err(error) ==> next == Launch::<T>::Done(Err(error)),
            outcome is Ok ==> {
                &&& next matches Launch::Done(Ok(child))
                &&& child.stdin == self->Register_stdin
                &&& child.stdout == self->Register_stdout
                &&& child.stderr == self->Register_stderr
                &&& child.guard() == self->Register_guard
            },
    {
        match (self, outcome) {
            (_, Err(error)) => Launch::Done(Err(error)),
            (Launch::Register { guard, stdin, stdout, stderr }, Ok(_)) => Launch::Done(
                Ok(Child::assemble(guard, stdin, stdout, stderr)),
            ),
            (other, _) => other,
        }
    }

    /// Goes on to wait for the child to exit, unless the launch failed. The child stays with the
    /// wait, so that its output pipes remain open until the wait is over.
    pub fn status(self) -> (wait: Result<(Child<T>, StatusWait<T>), T::Error>)
        requires
            self is Done,
        ensures
            self->Done_0 matches Err(error) ==> wait == Err::<(Child<T>, StatusWait<T>), T::Error>(
                error,
            ),
            self->Done_0 matches Ok(child) ==> {
                &&& wait matches Ok((held, wait))
                &&& held.stdin is None
                &&& held.stdout == child.stdout
                &&& held.stderr == child.stderr
                &&& held.guard() == child.guard()
                &&& held.handle() == child.handle()
                &&& wait.guard() == child.guard()
                &&& wait.handle() != child.handle()
                &&& wait.state() == StatusState::<T>::Check(None)
            },
    {
        match self {
            Launch::Done(Ok(child)) => {
                let mut child = child;
                let wait = child.status();
                Ok((child, wait))
            },
            Launch::Done(Err(error)) => Err(error),
            _ => vstd::pervasive::unreached(),
        }
    }

    /// Goes on to collect the child's output, unless the launch failed.
    pub fn output(self) -> (wait: Result<OutputWait<T>, T::Error>)
        requires
            self is Done,
        ensures
            self->Done_0 matches Err(error) ==> wait == Err::<OutputWait<T>, T::Error>(error),
            self->Done_0 matches Ok(child) ==> {
                &&& wait matches Ok(wait)
                &&& wait.guard() == child.guard()
                &&& wait.handle() != child.handle()
                &&& wait.waiting() == StatusState::<T>::Check(None)
                &&& wait.state() == OutputState::<T>::Read(child.stdout, child.stderr)
            },
    {
        match self {
            Launch::Done(Ok(child)) => Ok(child.output()),
            Launch::Done(Err(error)) => Err(error),
            _ => vstd::pervasive::unreached(),
        }
    }
}

} // verus!
