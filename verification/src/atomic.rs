//! The operations on a shared counter, each with a record of what was asked of it.
//!
//! What a counter holds at any moment is up to other threads, so the records say which counter an
//! operation was applied to, with which numbers, and what it answered.

use std::sync::atomic::{AtomicUsize, Ordering};
use vstd::prelude::*;

verus! {

/// A number that threads share, made by [`counter`] alone.
pub struct Counter {
    inner: AtomicUsize,
    initial: Ghost<usize>,
}

impl Counter {
    /// What the counter held in the beginning.
    pub closed spec fn initial(&self) -> usize {
        self.initial@
    }
}

/// `AtomicUsize::new`: a counter that holds `initial`. What it holds later is up to whoever shares
/// it.
pub(crate) fn counter(initial: usize) -> (counter: Counter)
    ensures
        counter.initial() == initial,
{
    Counter { inner: AtomicUsize::new(initial), initial: Ghost(initial) }
}

/// The record of an addition, made by [`fetch_add`] alone.
pub struct Added {
    counter: Ghost<Counter>,
    amount: Ghost<usize>,
}

impl Added {
    /// The counter that was added to.
    pub closed spec fn counter(&self) -> Counter {
        self.counter@
    }

    /// What was added.
    pub closed spec fn amount(&self) -> usize {
        self.amount@
    }
}

/// `AtomicUsize::fetch_add`, sequentially consistent: adds `amount` to `counter`, wrapping around
/// on overflow. What the counter held before is not used.
pub(crate) fn fetch_add(counter: &Counter, amount: usize) -> (added: Added)
    ensures
        added.counter() == *counter,
        added.amount() == amount,
{
    counter.inner.fetch_add(amount, Ordering::SeqCst);
    Added { counter: Ghost(*counter), amount: Ghost(amount) }
}

/// The record of a subtraction, made by [`fetch_sub`] alone.
pub struct Subtracted {
    found: usize,
    counter: Ghost<Counter>,
    amount: Ghost<usize>,
}

impl Subtracted {
    /// The counter that was subtracted from.
    pub closed spec fn counter(&self) -> Counter {
        self.counter@
    }

    /// What was subtracted.
    pub closed spec fn amount(&self) -> usize {
        self.amount@
    }

    /// What the counter held before.
    pub closed spec fn found(&self) -> usize {
        self.found
    }

    /// What the counter held before.
    pub fn previous(&self) -> (found: usize)
        ensures
            found == self.found(),
    {
        self.found
    }
}

/// `AtomicUsize::fetch_sub`, sequentially consistent: subtracts `amount` from `counter`, wrapping
/// around on overflow, and tells what the counter held before. Which number that is depends on the
/// other threads.
pub(crate) fn fetch_sub(counter: &Counter, amount: usize) -> (subtracted: Subtracted)
    ensures
        subtracted.counter() == *counter,
        subtracted.amount() == amount,
{
    Subtracted {
        found: counter.inner.fetch_sub(amount, Ordering::SeqCst),
        counter: Ghost(*counter),
        amount: Ghost(amount),
    }
}

/// A reading of a counter, taken by [`load`] alone.
pub struct Loaded {
    count: usize,
    counter: Ghost<Counter>,
}

impl Loaded {
    /// The counter that was read.
    pub closed spec fn counter(&self) -> Counter {
        self.counter@
    }

    /// What it held.
    pub closed spec fn count(&self) -> usize {
        self.count
    }

    /// What the counter held.
    pub fn value(&self) -> (count: usize)
        ensures
            count == self.count(),
    {
        self.count
    }
}

/// `AtomicUsize::load` with acquire ordering: what `counter` holds at this moment. Which number
/// that is depends on the other threads.
pub(crate) fn load(counter: &Counter) -> (loaded: Loaded)
    ensures
        loaded.counter() == *counter,
{
    Loaded { count: counter.inner.load(Ordering::Acquire), counter: Ghost(*counter) }
}

/// The record of an attempt to replace what a counter holds, made by [`compare_exchange`] alone.
pub struct Exchanged {
    outcome: Result<usize, usize>,
    counter: Ghost<Counter>,
    current: Ghost<usize>,
    replacement: Ghost<usize>,
}

impl Exchanged {
    /// The counter that was to be changed.
    pub closed spec fn counter(&self) -> Counter {
        self.counter@
    }

    /// What it had to hold for the attempt to succeed.
    pub closed spec fn current(&self) -> usize {
        self.current@
    }

    /// What it was to hold after.
    pub closed spec fn replacement(&self) -> usize {
        self.replacement@
    }

    /// What came of the attempt: in either case what the counter held before.
    pub closed spec fn outcome(&self) -> Result<usize, usize> {
        self.outcome
    }

    /// What came of the attempt.
    pub fn result(&self) -> (outcome: Result<usize, usize>)
        ensures
            outcome == self.outcome(),
    {
        self.outcome
    }
}

/// `AtomicUsize::compare_exchange`, sequentially consistent: replaces what `counter` holds by
/// `replacement` if it is `current`. Success carries `current`, failure the other number that was
/// found. Which of the two it is depends on the other threads.
#[verifier::external_body]
pub(crate) fn compare_exchange(
    counter: &Counter,
    current: usize,
    replacement: usize,
) -> (exchanged: Exchanged)
    ensures
        exchanged.counter() == *counter,
        exchanged.current() == current,
        exchanged.replacement() == replacement,
        exchanged.outcome() matches Ok(found) ==> found == current,
        exchanged.outcome() matches Err(found) ==> found != current,
{
    Exchanged {
        outcome: counter.inner.compare_exchange(
            current,
            replacement,
            Ordering::SeqCst,
            Ordering::SeqCst,
        ),
        counter: Ghost(*counter),
        current: Ghost(current),
        replacement: Ghost(replacement),
    }
}

} // verus!
