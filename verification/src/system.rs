//! The kinds of values that the operating system hands out.

use vstd::prelude::*;

verus! {

/// What stands for processes, pipes, exit statuses and errors. The library passes these values on
/// and never looks inside them.
pub trait System: Sized {
    /// A handle to a process, good for waiting and killing. Whoever asks it whether it has exited
    /// does so by way of a [`Remembered`][crate::Remembered].
    type Process;

    /// The parent's end of a pipe to the child's standard input.
    type Stdin;

    /// The parent's end of a pipe from the child's standard output.
    type Stdout;

    /// The parent's end of a pipe from the child's standard error.
    type Stderr;

    /// How a process ended.
    type ExitStatus;

    /// Why a call to the system failed.
    type Error;
}

} // verus!
