//! The pipes to a child, and how they become standard streams of the next one.

use vstd::prelude::*;
use crate::platform::Platform;

verus! {

/// A handle to a child process's standard input (stdin).
///
/// When a [`ChildStdin`] is dropped, the underlying handle gets closed. If the child process was
/// previously blocked on input, it becomes unblocked after dropping.
#[derive(Debug)]
pub struct ChildStdin<H>(pub H);

/// A handle to a child process's standard output (stdout).
///
/// When a [`ChildStdout`] is dropped, the underlying handle gets closed.
#[derive(Debug)]
pub struct ChildStdout<H>(pub H);

/// A handle to a child process's standard error (stderr).
///
/// When a [`ChildStderr`] is dropped, the underlying handle gets closed.
#[derive(Debug)]
pub struct ChildStderr<H>(pub H);

impl<H> ChildStdin<H> {
    /// Converts the handle into a standard stream for the next process.
    pub fn into_stdio<F, X>(self) -> (conversion: IntoStdio<H, F, X>)
        ensures
            conversion == IntoStdio::<H, F, X>::Unwrap(self.0),
    {
        IntoStdio::Unwrap(self.0)
    }
}

impl<H> ChildStdout<H> {
    /// Converts the handle into a standard stream for the next process.
    pub fn into_stdio<F, X>(self) -> (conversion: IntoStdio<H, F, X>)
        ensures
            conversion == IntoStdio::<H, F, X>::Unwrap(self.0),
    {
        IntoStdio::Unwrap(self.0)
    }
}

impl<H> ChildStderr<H> {
    /// Converts the handle into a standard stream for the next process.
    pub fn into_stdio<F, X>(self) -> (conversion: IntoStdio<H, F, X>)
        ensures
            conversion == IntoStdio::<H, F, X>::Unwrap(self.0),
    {
        IntoStdio::Unwrap(self.0)
    }
}

/// The conversion of an asynchronous handle `H` into a plain one `F` that a process can be given.
pub enum IntoStdio<H, F, X> {
    /// Take the plain handle out of the asynchronous one; then [`IntoStdio::unwrapped`].
    Unwrap(H),
    /// Move the plain handle out of non-blocking mode with a [`BlockingFd`]; then
    /// [`IntoStdio::unblocked`].
    Unblock(F),
    /// The conversion is over.
    Done(Result<F, X>),
}

impl<H, F, X> IntoStdio<H, F, X> {
    /// Records the outcome of taking the plain handle out. Only on Unix is it in non-blocking mode.
    pub fn unwrapped(outcome: Result<F, X>, platform: Platform) -> (next: IntoStdio<H, F, X>)
        ensures
            next == match (outcome, platform) {
                (Ok(handle), Platform::Linux | Platform::OtherUnix) => IntoStdio::<
                    H,
                    F,
                    X,
                >::Unblock(handle),
                (outcome, _) => IntoStdio::<H, F, X>::Done(outcome),
            },
    {
        match (outcome, platform) {
            (Ok(handle), Platform::Linux | Platform::OtherUnix) => IntoStdio::Unblock(handle),
            (outcome, _) => IntoStdio::Done(outcome),
        }
    }

    /// Records the outcome of moving the handle out of non-blocking mode.
    pub fn unblocked(self, outcome: Result<(), X>) -> (next: IntoStdio<H, F, X>)
        requires
            self is Unblock,
        ensures
            next == IntoStdio::<H, F, X>::Done(
                match outcome {
                    Ok(_) => Ok(self->Unblock_0),
                    Err(error) => Err(error),
                },
            ),
    {
        match (self, outcome) {
            (_, Err(error)) => IntoStdio::Done(Err(error)),
            (IntoStdio::Unblock(handle), Ok(_)) => IntoStdio::Done(Ok(handle)),
            (other, _) => other,
        }
    }
}

/// Moving a descriptor out of non-blocking mode.
pub enum BlockingFd<X> {
    /// Clear non-blocking mode in one call, `ioctl(FIONBIO)`; then [`BlockingFd::switched`].
    Switch,
    /// Read the descriptor's flags; then [`BlockingFd::flags_read`].
    GetFlags,
    /// Write these flags; then [`BlockingFd::switched`].
    SetFlags(u32),
    /// It is done, or it failed.
    Done(Result<(), X>),
}

/// Begins to move a descriptor out of non-blocking mode.
///
/// On Linux one atomic call does it; elsewhere that call behaves differently from platform to
/// platform, so the flags are read and written back.
pub fn blocking_fd<X>(platform: Platform) -> (next: BlockingFd<X>)
    requires
        platform != Platform::Windows,
    ensures
        platform == Platform::Linux ==> next == BlockingFd::<X>::Switch,
        platform == Platform::OtherUnix ==> next == BlockingFd::<X>::GetFlags,
{
    match platform {
        Platform::Linux => BlockingFd::Switch,
        _ => BlockingFd::GetFlags,
    }
}

impl<X> BlockingFd<X> {
    /// Records the descriptor's flags, with `nonblock` the flag to be cleared. Flags that do not
    /// hold it are left alone.
    pub fn flags_read(self, flags: Result<u32, X>, nonblock: u32) -> (next: BlockingFd<X>)
        requires
            self is GetFlags,
        ensures
            flags matches Err(error) ==> next == BlockingFd::<X>::Done(Err(error)),
            flags matches Ok(flags) ==> next == if flags & nonblock == 0 {
                BlockingFd::<X>::Done(Ok(()))
            } else {
                BlockingFd::<X>::SetFlags(flags & !nonblock)
            },
    {
        match flags {
            Err(error) => BlockingFd::Done(Err(error)),
            Ok(previous) => {
                let new: u32 = previous & !nonblock;
                assert(previous & !nonblock == previous <==> previous & nonblock == 0)
                    by (bit_vector);
                if new != previous {
                    BlockingFd::SetFlags(new)
                } else {
                    BlockingFd::Done(Ok(()))
                }
            },
        }
    }

    /// Records the outcome of the call that clears non-blocking mode.
    pub fn switched(self, outcome: Result<(), X>) -> (next: BlockingFd<X>)
        requires
            self is Switch || self is SetFlags,
        ensures
            next == BlockingFd::<X>::Done(outcome),
    {
        BlockingFd::Done(outcome)
    }
}

/// The flags that end up on a descriptor have `nonblock` cleared and are otherwise those that were
/// read, and a second attempt finds nothing left to do.
pub proof fn law_blocking_clears_just_nonblock(flags: u32, nonblock: u32)
    ensures
        (flags & !nonblock) & nonblock == 0,
        (flags & !nonblock) & !nonblock == flags & !nonblock,
        (flags & !nonblock) | (flags & nonblock) == flags,
{
    assert((flags & !nonblock) & nonblock == 0) by (bit_vector);
    assert((flags & !nonblock) & !nonblock == flags & !nonblock) by (bit_vector);
    assert((flags & !nonblock) | (flags & nonblock) == flags) by (bit_vector);
}

} // verus!
