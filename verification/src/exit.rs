//! What is known of a process's exit.

use vstd::prelude::*;

verus! {

/// A process together with its exit status, once that is known.
///
/// A status that has been found stays: from then on the process is not asked any more, and
/// everybody who wants to know gets that status.
pub struct Remembered<P, S> {
    process: P,
    exit: Option<S>,
}

/// What somebody is told who wants to know whether a process has exited, when `exit` is remembered
/// and the system, if it is asked, says `system`.
pub open spec fn told<S, X>(exit: Option<S>, system: Result<Option<S>, X>) -> Result<Option<S>, X> {
    match exit {
        Some(status) => Ok(Some(status)),
        None => system,
    }
}

/// What is remembered after that.
pub open spec fn remembered<S, X>(exit: Option<S>, system: Result<Option<S>, X>) -> Option<S> {
    match told(exit, system) {
        Ok(Some(status)) => Some(status),
        _ => exit,
    }
}

impl<P, S: Copy> Remembered<P, S> {
    /// The process.
    pub closed spec fn process(&self) -> P {
        self.process
    }

    /// Its exit status, if that is known.
    pub closed spec fn exit(&self) -> Option<S> {
        self.exit
    }

    /// A process of whose exit nothing is known.
    pub fn new(process: P) -> (new: Remembered<P, S>)
        ensures
            new.process() == process,
            new.exit() is None,
    {
        Remembered { process, exit: None }
    }

    /// The exit status, if it is known. If it is not, the system is to be asked; then
    /// [`Remembered::answered`].
    pub fn known(&self) -> (exit: Option<S>)
        ensures
            exit == self.exit(),
    {
        self.exit
    }

    /// The process, for calls to be made on it.
    pub fn process_mut(&mut self) -> (process: &mut P)
        ensures
            *process == old(self).process(),
            final(self).process() == *final(process),
            final(self).exit() == old(self).exit(),
    {
        &mut self.process
    }

    /// Records what the system said, and returns what whoever asked is told.
    pub fn answered<X>(&mut self, system: Result<Option<S>, X>) -> (answer: Result<Option<S>, X>)
        ensures
            answer == told(old(self).exit(), system),
            final(self).exit() == remembered(old(self).exit(), system),
            final(self).process() == old(self).process(),
    {
        if let Some(status) = self.exit {
            return Ok(Some(status));
        }
        if let Ok(Some(status)) = &system {
            self.exit = Some(*status);
        }
        system
    }
}

} // verus!
