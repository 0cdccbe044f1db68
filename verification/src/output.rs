//! Collecting what a process writes.

use vstd::prelude::*;
use crate::child::{ChildGuard, Disposal};
use crate::shared::StillShared;
use crate::status::{StatusState, StatusStep, StatusWait};
use crate::system::System;

verus! {

/// The output of a finished process.
pub struct Output<S> {
    /// How the process ended.
    pub status: S,
    /// What the process wrote to stdout.
    pub stdout: Vec<u8>,
    /// What the process wrote to stderr.
    pub stderr: Vec<u8>,
}

/// Where the collection of a process's output stands.
pub enum OutputState<T: System> {
    /// The streams that were captured are yet to be read.
    Read(Option<T::Stdout>, Option<T::Stderr>),
    /// The streams are being read to their end, both at once.
    Reading,
    /// Both streams have ended; the exit status is still missing.
    Status(Vec<u8>, Vec<u8>),
    /// Reading failed.
    Failed(T::Error),
}

/// What the collection does next.
#[derive(Clone, Copy, Debug, PartialEq, Eq, Structural)]
pub enum OutputStep {
    /// Take the streams and read both to their end.
    Read,
    /// Wait for the reading to end.
    Reading,
    /// Carry on with the wait for the exit status.
    Status(StatusStep),
    /// Return the result.
    Finish,
}

impl<T: System> OutputState<T> {
    /// After both streams were read to their end, or one of them failed.
    pub open spec fn collected(self, read: Result<(Vec<u8>, Vec<u8>), T::Error>) -> OutputState<T> {
        match read {
            Ok((stdout, stderr)) => OutputState::Status(stdout, stderr),
            Err(error) => OutputState::Failed(error),
        }
    }

    /// What comes next, with the wait for the exit status standing at `waiting`. The exit status is
    /// not asked for before both streams have ended.
    pub open spec fn step(self, waiting: StatusState<T>) -> OutputStep {
        match self {
            OutputState::Read(..) => OutputStep::Read,
            OutputState::Reading => OutputStep::Reading,
            OutputState::Status(..) => if waiting is Done {
                OutputStep::Finish
            } else {
                OutputStep::Status(waiting.step())
            },
            OutputState::Failed(_) => OutputStep::Finish,
        }
    }

    /// The result of the collection, once there is one.
    pub open spec fn result(self, waiting: StatusState<T>) -> Result<
        Output<T::ExitStatus>,
        T::Error,
    >
        recommends
            self.step(waiting) == OutputStep::Finish,
    {
        match self {
            OutputState::Failed(error) => Err(error),
            OutputState::Status(stdout, stderr) => match waiting->Done_0 {
                Ok(status) => Ok(Output { status, stdout, stderr }),
                Err(error) => Err(error),
            },
            _ => arbitrary(),
        }
    }
}

/// What a stream yields: nothing if it was not captured, otherwise what reading it to its end
/// brought.
pub fn stream_bytes<X>(read: Option<Result<Vec<u8>, X>>) -> (bytes: Result<Vec<u8>, X>)
    ensures
        read is None ==> (bytes matches Ok(bytes) && bytes@ == Seq::<u8>::empty()),
        read matches Some(read) ==> bytes == read,
{
    match read {
        Some(bytes) => bytes,
        None => Ok(Vec::new()),
    }
}

/// The collection of a process's output. It holds the process like any other handle.
pub struct OutputWait<T: System> {
    wait: StatusWait<T>,
    state: OutputState<T>,
}

impl<T: System> OutputWait<T> {
    /// The process whose output is collected.
    pub closed spec fn guard(&self) -> ChildGuard<T> {
        self.wait.guard()
    }

    /// The label of the handle that the collection holds.
    pub closed spec fn handle(&self) -> int {
        self.wait.handle()
    }

    /// Where the wait for the exit status stands.
    pub closed spec fn waiting(&self) -> StatusState<T> {
        self.wait.state()
    }

    /// Where the collection stands.
    pub closed spec fn state(&self) -> OutputState<T> {
        self.state
    }

    pub(crate) fn new(
        wait: StatusWait<T>,
        stdout: Option<T::Stdout>,
        stderr: Option<T::Stderr>,
    ) -> (output: OutputWait<T>)
        ensures
            output.guard() == wait.guard(),
            output.handle() == wait.handle(),
            output.waiting() == wait.state(),
            output.state() == OutputState::<T>::Read(stdout, stderr),
    {
        OutputWait { wait, state: OutputState::Read(stdout, stderr) }
    }

    /// What the collection does next.
    pub fn step(&self) -> (step: OutputStep)
        ensures
            step == self.state().step(self.waiting()),
    {
        match &self.state {
            OutputState::Read(..) => OutputStep::Read,
            OutputState::Reading => OutputStep::Reading,
            OutputState::Status(..) => match self.wait.step() {
                StatusStep::Finish => OutputStep::Finish,
                step => OutputStep::Status(step),
            },
            OutputState::Failed(_) => OutputStep::Finish,
        }
    }

    /// Hands the captured streams out to be read.
    pub fn streams(&mut self) -> (streams: (Option<T::Stdout>, Option<T::Stderr>))
        requires
            old(self).state() is Read,
        ensures
            final(self).guard() == old(self).guard(),
            final(self).handle() == old(self).handle(),
            final(self).waiting() == old(self).waiting(),
            final(self).state() == OutputState::<T>::Reading,
            old(self).state() == OutputState::<T>::Read(streams.0, streams.1),
    {
        let mut state = OutputState::Reading;
        std::mem::swap(&mut state, &mut self.state);
        match state {
            OutputState::Read(stdout, stderr) => (stdout, stderr),
            _ => vstd::pervasive::unreached(),
        }
    }

    /// Records what reading the streams brought.
    pub fn collected(&mut self, read: Result<(Vec<u8>, Vec<u8>), T::Error>)
        requires
            old(self).state() is Reading,
        ensures
            final(self).guard() == old(self).guard(),
            final(self).handle() == old(self).handle(),
            final(self).waiting() == old(self).waiting(),
            final(self).state() == old(self).state().collected(read),
    {
        match read {
            Ok((stdout, stderr)) => self.state = OutputState::Status(stdout, stderr),
            Err(error) => self.state = OutputState::Failed(error),
        }
    }

    /// The wait for the exit status, to be carried on.
    pub fn status(&mut self) -> (wait: &mut StatusWait<T>)
        requires
            old(self).state() is Status,
        ensures
            (*wait).guard() == old(self).guard(),
            (*wait).handle() == old(self).handle(),
            (*wait).state() == old(self).waiting(),
            final(self).guard() == final(wait).guard(),
            final(self).handle() == final(wait).handle(),
            final(self).waiting() == final(wait).state(),
            final(self).state() == old(self).state(),
    {
        &mut self.wait
    }

    /// Ends the collection: returns its result, and what [`OutputWait::release`] returns.
    pub fn finish(self) -> (end: (
        Result<Output<T::ExitStatus>, T::Error>,
        Result<Disposal<T>, StillShared<ChildGuard<T>>>,
    ))
        requires
            self.state().step(self.waiting()) == OutputStep::Finish,
        ensures
            end.0 == self.state().result(self.waiting()),
            crate::child::let_go(self.guard(), self.handle(), end.1),
    {
        match self.state {
            OutputState::Failed(error) => (Err(error), self.wait.release()),
            OutputState::Status(stdout, stderr) => {
                let (status, disposal) = self.wait.finish();
                match status {
                    Ok(status) => (Ok(Output { status, stdout, stderr }), disposal),
                    Err(error) => (Err(error), disposal),
                }
            },
            _ => vstd::pervasive::unreached(),
        }
    }

    /// Gives the collection up. Returns what is to be done about the process if this was the last
    /// handle to it, and the record that others hold the process if it was not.
    pub fn release(self) -> (disposal: Result<Disposal<T>, StillShared<ChildGuard<T>>>)
        ensures
            crate::child::let_go(self.guard(), self.handle(), disposal),
    {
        self.wait.release()
    }
}

} // verus!
