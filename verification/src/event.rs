//! The outside synchronisation primitives: the event that announces `SIGCHLD` and the lock that
//! keeps a second poller out.

use vstd::prelude::*;
use async_lock::{Mutex, MutexGuard};
use event_listener::{Event, EventListener};

verus! {

/// The type of `event_listener`, carried through unopened.
#[verifier::external_type_specification]
#[verifier::external_body]
pub struct ExEvent(Event);

/// The type of `event_listener`, carried through unopened.
#[verifier::external_type_specification]
#[verifier::external_body]
pub struct ExEventListener(EventListener);

/// The type of `async_lock`, carried through unopened.
#[verifier::external_type_specification]
#[verifier::external_body]
#[verifier::reject_recursive_types(T)]
pub struct ExMutex<T: ?Sized>(Mutex<T>);

/// The type of `async_lock`, carried through unopened.
#[verifier::external_type_specification]
#[verifier::external_body]
#[verifier::reject_recursive_types(T)]
pub struct ExMutexGuard<'a, T: ?Sized>(MutexGuard<'a, T>);

/// `Event::new`: an event that nobody listens to. Who will listen is up to other threads, so
/// nothing is claimed of the value.
pub assume_specification[ Event::new ]() -> Event;

/// How many listeners a notification was meant to reach.
pub enum Reach {
    /// At least this many listeners in all, those woken earlier included.
    AtLeast(usize),
    /// This many listeners on top of those woken earlier.
    Additional(usize),
}

/// The record of a notification, made by [`notify`] and [`notify_additional`] alone.
pub struct Notice {
    event: Ghost<Event>,
    reach: Ghost<Reach>,
}

impl Notice {
    /// The event whose listeners were notified.
    pub closed spec fn event(&self) -> Event {
        self.event@
    }

    /// How many of them the notification was meant to reach.
    pub closed spec fn reach(&self) -> Reach {
        self.reach@
    }
}

/// `Event::notify`: notifies the listeners of `event`, at least `n` in all. Listeners live in
/// other tasks, so the record says only what was sent; which of them it woke is left unsaid.
#[verifier::external_body]
pub(crate) fn notify(event: &Event, n: usize) -> (notice: Notice)
    ensures
        notice.event() == *event,
        notice.reach() == Reach::AtLeast(n),
{
    event.notify(n);
    Notice { event: Ghost(*event), reach: Ghost(Reach::AtLeast(n)) }
}

/// `Event::notify_additional`: notifies `n` more listeners of `event`. Listeners live in other
/// tasks, so the record says only what was sent; which of them it woke is left unsaid.
#[verifier::external_body]
pub(crate) fn notify_additional(event: &Event, n: usize) -> (notice: Notice)
    ensures
        notice.event() == *event,
        notice.reach() == Reach::Additional(n),
{
    event.notify_additional(n);
    Notice { event: Ghost(*event), reach: Ghost(Reach::Additional(n)) }
}

/// A registration with an event, made by [`listen`] alone.
pub struct Listener {
    inner: EventListener,
    event: Ghost<Event>,
}

impl Listener {
    /// The event that the listener was registered with.
    pub closed spec fn event(&self) -> Event {
        self.event@
    }

    /// The listener that was registered.
    pub closed spec fn inner(&self) -> EventListener {
        self.inner
    }

    /// Hands the registered listener out, to be awaited.
    pub fn into_inner(self) -> (listener: EventListener)
        ensures
            listener == self.inner(),
    {
        self.inner
    }
}

/// `Event::listen`: registers a new listener with `event` and returns it.
#[verifier::external_body]
pub(crate) fn listen(event: &Event) -> (listener: Listener)
    ensures
        listener.event() == *event,
{
    Listener { inner: event.listen(), event: Ghost(*event) }
}

/// A mutex together with how it was made, by [`lock`] alone.
pub struct Lock {
    mutex: Mutex<()>,
    held_at_first: Ghost<bool>,
}

impl Lock {
    /// The mutex.
    pub closed spec fn mutex(&self) -> Mutex<()> {
        self.mutex
    }

    /// Whether somebody held the mutex when it was made.
    pub closed spec fn held_at_first(&self) -> bool {
        self.held_at_first@
    }

    /// The mutex.
    pub fn inner(&self) -> (mutex: &Mutex<()>)
        ensures
            *mutex == self.mutex(),
    {
        &self.mutex
    }
}

/// `Mutex::new`: a mutex that nobody holds. Who holds it later is up to other threads.
#[verifier::external_body]
pub(crate) fn lock() -> (lock: Lock)
    ensures
        !lock.held_at_first(),
{
    Lock { mutex: Mutex::new(()), held_at_first: Ghost(false) }
}

/// Possession of a mutex, obtained by [`try_lock`] and [`held`] alone.
pub struct PollingGuard<'a> {
    guard: MutexGuard<'a, ()>,
    mutex: Ghost<Mutex<()>>,
}

impl<'a> PollingGuard<'a> {
    /// The mutex that is held.
    pub closed spec fn mutex(&self) -> Mutex<()> {
        self.mutex@
    }

    /// What holds it.
    pub closed spec fn inner(&self) -> MutexGuard<'a, ()> {
        self.guard
    }
}

/// `MutexGuard::source`: the mutex that `guard` came from, beside `guard` with that mutex on
/// record.
#[verifier::external_body]
pub(crate) fn held<'a>(guard: MutexGuard<'a, ()>) -> (held: (PollingGuard<'a>, &'a Mutex<()>))
    ensures
        held.0.inner() == guard,
        held.0.mutex() == *held.1,
{
    let mutex = MutexGuard::source(&guard);
    (PollingGuard { guard, mutex: Ghost(*mutex) }, mutex)
}

/// The record that a mutex was given up, made by [`unlock`] alone.
pub struct Unlocked {
    mutex: Ghost<Mutex<()>>,
}

impl Unlocked {
    /// The mutex that was given up.
    pub closed spec fn mutex(&self) -> Mutex<()> {
        self.mutex@
    }
}

/// The `Drop` of `MutexGuard`: gives the mutex up that `guard` holds.
#[verifier::external_body]
pub(crate) fn unlock(guard: PollingGuard<'_>) -> (unlocked: Unlocked)
    ensures
        unlocked.mutex() == guard.mutex(),
{
    let unlocked = Unlocked { mutex: guard.mutex };
    drop(guard.guard);
    unlocked
}

/// The record of a comparison of two mutexes, made by [`same`] alone.
pub struct Comparison {
    same: bool,
    left: Ghost<Mutex<()>>,
    right: Ghost<Mutex<()>>,
}

impl Comparison {
    /// Whether they are one and the same.
    pub closed spec fn same(&self) -> bool {
        self.same
    }

    /// The one mutex.
    pub closed spec fn left(&self) -> Mutex<()> {
        self.left@
    }

    /// The other.
    pub closed spec fn right(&self) -> Mutex<()> {
        self.right@
    }

    /// Whether the two are one and the same.
    pub fn is_same(&self) -> (same: bool)
        ensures
            same == self.same(),
    {
        self.same
    }
}

/// `std::ptr::eq`: whether two references lead to the same place, and so to the same mutex.
#[verifier::external_body]
pub(crate) fn same(left: &Mutex<()>, right: &Mutex<()>) -> (comparison: Comparison)
    ensures
        comparison.left() == *left,
        comparison.right() == *right,
        comparison.same() ==> *left == *right,
{
    Comparison { same: std::ptr::eq(left, right), left: Ghost(*left), right: Ghost(*right) }
}

/// The record of an attempt to take a mutex that was not to be had, made by [`try_lock`] alone.
pub struct Busy {
    mutex: Ghost<Mutex<()>>,
}

impl Busy {
    /// The mutex that was not to be had.
    pub closed spec fn mutex(&self) -> Mutex<()> {
        self.mutex@
    }
}

/// `Mutex::try_lock`: a guard of this very mutex, or the record that this very mutex was not to be
/// had at this moment. Which of the two it is depends on the other threads.
#[verifier::external_body]
pub(crate) fn try_lock(mutex: &Mutex<()>) -> (attempt: Result<PollingGuard<'_>, Busy>)
    ensures
        attempt matches Ok(guard) ==> guard.mutex() == *mutex,
        attempt matches Err(busy) ==> busy.mutex() == *mutex,
{
    match mutex.try_lock() {
        Some(guard) => Ok(PollingGuard { guard, mutex: Ghost(*mutex) }),
        None => Err(Busy { mutex: Ghost(*mutex) }),
    }
}

} // verus!
