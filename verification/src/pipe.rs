//! The stand-in for `SIGCHLD` where there is no such signal: a count of the processes that have
//! exited and have not been acted on yet.

use event_listener::Event;
use vstd::prelude::*;
use crate::atomic::{Added, Counter, Exchanged, Loaded};
use crate::event::{Listener, Notice, Reach};

verus! {

/// A count of exited processes that one can wait on.
pub struct Pipe {
    signal: Event,
    complete: Counter,
}

impl Pipe {
    /// The event that is signalled when a process exits.
    pub closed spec fn signal(&self) -> Event {
        self.signal
    }

    /// The number of processes that have exited and have not been acted on yet.
    pub closed spec fn complete(&self) -> Counter {
        self.complete
    }

    /// Creates a pipe that has seen nothing yet.
    pub fn new() -> (pipe: Pipe)
        ensures
            pipe.complete().initial() == 0,
    {
        Pipe { signal: Event::new(), complete: crate::atomic::counter(0) }
    }

    /// Begins to wait for the next exited process.
    pub fn wait(&self) -> (wait: PipeWait)
        ensures
            wait == PipeWait::Load,
    {
        PipeWait::Load
    }

    /// Begins to take note that one more process has exited.
    pub fn completed(&self) -> (completion: Completion)
        ensures
            completion == Completion::Count,
    {
        Completion::Count
    }
}

/// Taking note of an exited process: it is counted first, and only then everybody who waits for one
/// is woken.
pub enum Completion {
    /// Count the process.
    Count,
    /// The process has been counted: wake everybody who waits.
    Wake(Added),
    /// Note has been taken.
    Done(Added, Notice),
}

impl Completion {
    /// Makes the one call on `pipe` that is due. What is done stays as it is.
    pub fn advance(self, pipe: &Pipe) -> (next: Completion)
        ensures
            self is Count ==> {
                &&& next matches Completion::Wake(added)
                &&& added.counter() == pipe.complete()
                &&& added.amount() == 1
            },
            self matches Completion::Wake(added) ==> {
                &&& next matches Completion::Done(counted, notice)
                &&& counted == added
                &&& notice.event() == pipe.signal()
                &&& notice.reach() == Reach::Additional(usize::MAX)
            },
            self is Done ==> next == self,
    {
        match self {
            Completion::Count => Completion::Wake(crate::atomic::fetch_add(&pipe.complete, 1)),
            Completion::Wake(added) => Completion::Done(
                added,
                crate::event::notify_additional(&pipe.signal, usize::MAX),
            ),
            done => done,
        }
    }
}

/// The call that a wait made on a [`Pipe`], if any.
pub enum PipeCall {
    /// The count was read.
    Loaded(Loaded),
    /// An attempt was made to lower the count.
    Exchanged(Exchanged),
    /// A listener was registered, which the wait now holds.
    Listened,
    /// No call was due.
    Nothing,
}

/// Where a wait for the next exited process stands.
pub enum PipeWait {
    /// Read the count; then [`PipeWait::loaded`].
    Load,
    /// The count was this: try to lower it by one; then [`PipeWait::exchanged`].
    Exchange(usize),
    /// The count was zero: listen for the next process to exit; then [`PipeWait::listened`].
    Listen,
    /// Listening: read the count once more; then [`PipeWait::rechecked`].
    Recheck(Listener),
    /// The count was still zero after the listener had been registered: await the listener; then
    /// [`PipeWait::woken`].
    Sleep(Listener),
    /// One exited process has been taken off the count.
    Done,
}

impl PipeWait {
    /// A count to be lowered is not zero.
    pub open spec fn wf(self) -> bool {
        self matches PipeWait::Exchange(count) ==> count > 0
    }

    /// What a count that was just read leads to.
    pub open spec fn after_load(count: usize) -> PipeWait {
        if count > 0 {
            PipeWait::Exchange(count)
        } else {
            PipeWait::Listen
        }
    }

    /// What the attempt to lower the count leads to. A failure tells what the count is now.
    pub open spec fn after_exchange(outcome: Result<usize, usize>) -> PipeWait {
        match outcome {
            Ok(_) => PipeWait::Done,
            Err(actual) => PipeWait::after_load(actual),
        }
    }

    /// What a count that was read while listening leads to.
    pub open spec fn after_recheck(listener: Listener, count: usize) -> PipeWait {
        if count > 0 {
            PipeWait::Exchange(count)
        } else {
            PipeWait::Sleep(listener)
        }
    }

    /// Records the count.
    pub fn loaded(count: usize) -> (next: PipeWait)
        ensures
            next == PipeWait::after_load(count),
            next.wf(),
    {
        if count > 0 {
            PipeWait::Exchange(count)
        } else {
            PipeWait::Listen
        }
    }

    /// Records the outcome of the attempt to lower the count.
    pub fn exchanged(outcome: Result<usize, usize>) -> (next: PipeWait)
        ensures
            next == PipeWait::after_exchange(outcome),
            next.wf(),
    {
        match outcome {
            Ok(_) => PipeWait::Done,
            Err(actual) => PipeWait::loaded(actual),
        }
    }

    /// Records that the listener has been registered.
    pub fn listened(listener: Listener) -> (next: PipeWait)
        ensures
            next == PipeWait::Recheck(listener),
    {
        PipeWait::Recheck(listener)
    }

    /// Records the count that was read while listening.
    pub fn rechecked(listener: Listener, count: usize) -> (next: PipeWait)
        ensures
            next == PipeWait::after_recheck(listener, count),
            next.wf(),
    {
        if count > 0 {
            PipeWait::Exchange(count)
        } else {
            PipeWait::Sleep(listener)
        }
    }

    /// Records that the listener was notified. The wait begins anew.
    pub fn woken() -> (next: PipeWait)
        ensures
            next == PipeWait::Load,
    {
        PipeWait::Load
    }

    /// Makes the one call on `pipe` that the wait calls for. A wait that sleeps or is over stays as
    /// it is.
    pub fn advance(self, pipe: &Pipe) -> (made: (PipeWait, PipeCall))
        requires
            self.wf(),
        ensures
            made.0.wf(),
            self is Load ==> {
                &&& made.1 matches PipeCall::Loaded(loaded)
                &&& loaded.counter() == pipe.complete()
                &&& made.0 == PipeWait::after_load(loaded.count())
            },
            self matches PipeWait::Exchange(count) ==> {
                &&& made.1 matches PipeCall::Exchanged(exchanged)
                &&& exchanged.counter() == pipe.complete()
                &&& exchanged.current() == count
                &&& exchanged.replacement() == count - 1
                &&& made.0 == PipeWait::after_exchange(exchanged.outcome())
            },
            self is Listen ==> {
                &&& made.1 is Listened
                &&& made.0 matches PipeWait::Recheck(listener)
                &&& listener.event() == pipe.signal()
            },
            self matches PipeWait::Recheck(listener) ==> {
                &&& made.1 matches PipeCall::Loaded(loaded)
                &&& loaded.counter() == pipe.complete()
                &&& made.0 == PipeWait::after_recheck(listener, loaded.count())
            },
            self is Sleep || self is Done ==> made.0 == self && made.1 is Nothing,
    {
        match self {
            PipeWait::Load => {
                let loaded = crate::atomic::load(&pipe.complete);
                (PipeWait::loaded(loaded.value()), PipeCall::Loaded(loaded))
            },
            PipeWait::Exchange(count) => {
                let exchanged = crate::atomic::compare_exchange(&pipe.complete, count, count - 1);
                (PipeWait::exchanged(exchanged.result()), PipeCall::Exchanged(exchanged))
            },
            PipeWait::Listen => {
                let listener = crate::event::listen(&pipe.signal);
                (PipeWait::listened(listener), PipeCall::Listened)
            },
            PipeWait::Recheck(listener) => {
                let loaded = crate::atomic::load(&pipe.complete);
                (PipeWait::rechecked(listener, loaded.value()), PipeCall::Loaded(loaded))
            },
            other => (other, PipeCall::Nothing),
        }
    }
}

} // verus!
