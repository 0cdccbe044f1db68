//! The list of processes that nobody holds a handle to any more, and the passes that reap them.
//!
//! A process enters the list when its last handle is dropped while it still runs. A pass takes
//! the whole list, asks every process on it once whether it has exited, and puts those that still
//! run back in front of whatever was added meanwhile.

use vstd::prelude::*;

verus! {

/// How many processes a pass polls before it yields to other tasks.
pub const BATCH: usize = 100;

/// Whether an answer of `try_wait` says that the process still runs.
///
/// An error counts as an exit: there is nothing left to wait for.
pub open spec fn still_running<S, X>(wait: Result<Option<S>, X>) -> bool {
    wait matches Ok(status) && status is None
}

/// The processes that have not been waited for and have no handle left.
pub struct Zombies<P> {
    list: Vec<P>,
}

impl<P> View for Zombies<P> {
    type V = Seq<P>;

    closed spec fn view(&self) -> Seq<P> {
        self.list@
    }
}

impl<P> Zombies<P> {
    /// Creates an empty list.
    pub fn new() -> (zombies: Zombies<P>)
        ensures
            zombies@ == Seq::<P>::empty(),
    {
        Zombies { list: Vec::new() }
    }

    /// Adds `child` to the list, given what `try_wait` just said of it.
    ///
    /// A process that has already exited has been collected by that very call and is not added.
    pub fn push_zombie<S, X>(&mut self, child: P, wait: Result<Option<S>, X>)
        ensures
            final(self)@ == if still_running(wait) {
                old(self)@.push(child)
            } else {
                old(self)@
            },
    {
        if let Ok(None) = wait {
            self.list.push(child);
        }
    }

    /// Whether there is nobody on the list.
    pub fn is_empty(&self) -> (empty: bool)
        ensures
            empty == (self@.len() == 0),
    {
        self.list.is_empty()
    }

    /// Takes the whole list out for a pass, unless it is empty.
    pub fn take(&mut self) -> (pass: Option<Pass<P>>)
        ensures
            pass is None <==> old(self)@.len() == 0,
            final(self)@ == Seq::<P>::empty(),
            pass matches Some(pass) ==> pass.wf() && pass@ == PassView::fresh(old(self)@),
    {
        if self.list.is_empty() {
            return None;
        }
        let mut zombies: Vec<P> = Vec::new();
        zombies.append(&mut self.list);
        Some(Pass { zombies, next: 0, budget: BATCH })
    }

    /// Puts the processes that a finished pass found running back, in front of those that were
    /// added while the pass was under way.
    pub fn put_back(&mut self, pass: Pass<P>)
        ensures
            final(self)@ == pass@.zombies + old(self)@,
    {
        let mut zombies = pass.zombies;
        zombies.append(&mut self.list);
        self.list = zombies;
    }
}

/// What a pass does next.
#[derive(Clone, Copy, Debug, PartialEq, Eq, Structural)]
pub enum PassStep {
    /// Ask the current process whether it has exited.
    Poll,
    /// Let other tasks run.
    Yield,
    /// Every process has been asked.
    Finished,
}

/// One walk over the processes that were on the list when it began.
pub struct Pass<P> {
    zombies: Vec<P>,
    next: usize,
    budget: usize,
}

/// The state of a pass: the processes it still holds, the position of the one to ask next, and
/// how many may be asked before the next yield.
#[verifier::ext_equal]
pub struct PassView<P> {
    pub zombies: Seq<P>,
    pub next: int,
    pub budget: int,
}

impl<P> PassView<P> {
    /// A pass that has asked nobody yet.
    pub open spec fn fresh(zombies: Seq<P>) -> PassView<P> {
        PassView { zombies, next: 0, budget: BATCH as int }
    }

    /// The position lies on the list and the budget within a batch.
    pub open spec fn valid(self) -> bool {
        &&& 0 <= self.next <= self.zombies.len()
        &&& 0 <= self.budget <= BATCH
    }

    /// What comes next: a yield when the batch is used up, even with nobody left to ask.
    pub open spec fn step(self) -> PassStep {
        if self.budget == 0 {
            PassStep::Yield
        } else if self.next < self.zombies.len() {
            PassStep::Poll
        } else {
            PassStep::Finished
        }
    }

    /// After the current process answered: one that runs is passed over, one that has exited
    /// gives its place to the last on the list.
    pub open spec fn polled(self, running: bool) -> PassView<P> {
        if running {
            PassView { next: self.next + 1, budget: self.budget - 1, ..self }
        } else {
            PassView {
                zombies: self.zombies.update(self.next, self.zombies.last()).drop_last(),
                budget: self.budget - 1,
                ..self
            }
        }
    }

    /// After other tasks had their turn.
    pub open spec fn yielded(self) -> PassView<P> {
        PassView { budget: BATCH as int, ..self }
    }
}

impl<P> View for Pass<P> {
    type V = PassView<P>;

    closed spec fn view(&self) -> PassView<P> {
        PassView { zombies: self.zombies@, next: self.next as int, budget: self.budget as int }
    }
}

impl<P> Pass<P> {
    /// The invariant of every pass.
    pub open spec fn wf(&self) -> bool {
        self@.valid()
    }

    /// What the pass does next.
    pub fn step(&self) -> (step: PassStep)
        ensures
            step == self@.step(),
    {
        if self.budget == 0 {
            PassStep::Yield
        } else if self.next < self.zombies.len() {
            PassStep::Poll
        } else {
            PassStep::Finished
        }
    }

    /// The process to ask.
    pub fn zombie(&self) -> (zombie: &P)
        requires
            self@.step() == PassStep::Poll,
            self.wf(),
        ensures
            *zombie == self@.zombies[self@.next],
    {
        &self.zombies[self.next]
    }

    /// Records what `try_wait` said of the current process.
    pub fn polled<S, X>(&mut self, wait: Result<Option<S>, X>)
        requires
            old(self).wf(),
            old(self)@.step() == PassStep::Poll,
        ensures
            final(self).wf(),
            final(self)@ == old(self)@.polled(still_running(wait)),
    {
        assert(self.next < self.zombies.len());
        self.budget = self.budget - 1;
        if let Ok(None) = wait {
            self.next = self.next + 1;
        } else {
            self.zombies.swap_remove(self.next);
        }
    }

    /// Records that other tasks had their turn.
    pub fn yielded(&mut self)
        requires
            old(self).wf(),
            old(self)@.step() == PassStep::Yield,
        ensures
            final(self).wf(),
            final(self)@ == old(self)@.yielded(),
    {
        self.budget = BATCH;
    }
}

/// The contents of a list, and the state of a pass, are all that they hold.
proof fn law_lists_and_passes_show_everything<P>(zombies: Zombies<P>, pass: Pass<P>)
    ensures
        zombies@ == zombies.list@,
        pass@.zombies == pass.zombies@,
        pass@.next == pass.next,
        pass@.budget == pass.budget,
{
}

} // verus!
