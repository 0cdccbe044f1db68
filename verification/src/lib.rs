//! The decisions behind asynchronous processes.
//!
//! An asynchronous process library launches children, waits for them to exit, collects what they
//! write, and cleans up after those that nobody holds a handle to any more. Between the calls to
//! the operating system that this takes there are decisions: what comes next, given what the last
//! call brought. This crate holds those decisions, each with a contract that Verus proves, and
//! makes no call to the operating system itself. Whoever drives it makes the calls, awaits what has
//! to be awaited, and reports back.
//!
//! * A [`Command`] says what is to be executed. Executing it begins a [`Launch`], which ends with a
//!   [`Child`] or an error.
//! * [`Child::status`] begins a [`StatusWait`], [`Child::output`] an [`OutputWait`].
//! * When the last handle to a child is dropped, a [`Disposal`] says what becomes of the process.
//! * The [`Reaper`] is what all of them share. Its polling loop, [`Reap`], passes every `SIGCHLD`
//!   on to the waits and works through the list of [`Zombies`]. It runs on a backup thread, or
//!   alongside a future by way of [`cleanup_zombies`], whose [`Ending`] hands over what is left.
//!
//! What the system hands out (processes, pipes, exit statuses, errors) is passed on unopened; the
//! [`System`] trait names the types.
//!
//! The modules whose names end in `laws` state what holds across calls, however long things go on
//! and in whatever order they happen.

pub mod atomic;
pub mod child;
pub mod child_laws;
pub mod cleanup;
pub mod command;
pub mod command_laws;
pub mod event;
pub mod exit;
pub mod handle;
pub mod invocation;
pub mod launch;
pub mod output;
pub mod output_laws;
pub mod pipe;
pub mod pipe_laws;
pub mod platform;
pub mod reap_laws;
pub mod reaper;
mod sealed;
pub mod shared;
pub mod status;
pub mod status_laws;
pub mod stdio;
pub mod system;
pub mod unix;
pub mod view_laws;
pub mod wake_laws;
pub mod zombie_laws;
pub mod zombies;

pub use crate::child::{
    Child, ChildGuard, Disposal, DropPolicy, KillError, Killing, TryStatus,
};
pub use crate::cleanup::{cleanup_zombies, Cleanup, CleanupState, Ending};
pub use crate::command::{Command, CommandDebug};
pub use crate::event::{Busy, Listener, Notice, PollingGuard};
pub use crate::exit::Remembered;
pub use crate::handle::{blocking_fd, BlockingFd, ChildStderr, ChildStdin, ChildStdout, IntoStdio};
pub use crate::invocation::{EnvChange, Invocation};
pub use crate::launch::{Launch, Spawned};
pub use crate::output::{stream_bytes, Output, OutputStep, OutputWait};
pub use crate::pipe::{Completion, Pipe, PipeCall, PipeWait};
pub use crate::platform::Platform;
pub use crate::reaper::{Drivable, Foreign, Reap, ReapStep, Reaper};
pub use crate::shared::{Owner, StillShared};
pub use crate::status::{StatusStep, StatusWait};
pub use crate::stdio::Stdio;
pub use crate::system::System;
pub use crate::zombies::{Pass, PassStep, Zombies};
