//! Unix-specific extensions.

use vstd::prelude::*;
use crate::command::Command;
use crate::invocation::Invocation;

verus! {

/// The number of a user.
pub type UserId = u32;

/// The number of a group.
pub type GroupId = u32;

/// Unix-specific extensions to the [`Command`] builder.
///
/// This trait is sealed: it cannot be implemented outside this crate.
/// This is so that future additional methods are not breaking changes.
pub trait CommandExt: crate::sealed::Sealed {
    /// Sets the child process's user ID. This translates to a
    /// `setuid` call in the child process. Failure in the `setuid`
    /// call will cause the spawn to fail.
    fn uid(&mut self, id: UserId) -> &mut Command;

    /// Similar to `uid`, but sets the group ID of the child process. This has
    /// the same semantics as the `uid` field.
    fn gid(&mut self, id: GroupId) -> &mut Command;

    /// Gives what is to be executed in place of the current process, without a `fork`.
    ///
    /// A stream that has been configured is what it was configured to be. A stream that has not
    /// been configured is inherited from the current process, whatever an earlier launch connected
    /// it to. Only if the command was made from something that had the stream connected already,
    /// and has not been launched since, that connection is kept. The command itself is left as it
    /// is.
    fn exec(&mut self) -> Invocation;

    /// Sets the first process argument, `argv[0]`, to something other than the
    /// default executable path.
    fn arg0(&mut self, arg: &[u8]) -> &mut Command;
}

} // verus!
