//! What a standard stream of a new process is connected to.

use vstd::prelude::*;

verus! {

/// Describes what to do with a standard stream of a child process.
#[derive(Clone, Copy, Debug, PartialEq, Eq, Structural)]
pub enum Stdio {
    /// The stream is that of the parent.
    Inherit,
    /// The stream is empty for reading and swallows what is written.
    Null,
    /// The stream is a new pipe, whose other end the parent gets.
    Piped,
    /// The stream is an open handle that the caller keeps under this number.
    Handle(usize),
}

impl Stdio {
    /// The child inherits the stream from the parent.
    pub fn inherit() -> (stdio: Stdio)
        ensures
            stdio == Stdio::Inherit,
    {
        Stdio::Inherit
    }

    /// The stream is ignored.
    pub fn null() -> (stdio: Stdio)
        ensures
            stdio == Stdio::Null,
    {
        Stdio::Null
    }

    /// A new pipe connects the parent and the child.
    pub fn piped() -> (stdio: Stdio)
        ensures
            stdio == Stdio::Piped,
    {
        Stdio::Piped
    }
}

} // verus!
