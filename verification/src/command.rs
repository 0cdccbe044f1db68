//! The builder for processes.

use vstd::prelude::*;
use crate::child::DropPolicy;
use crate::invocation::{EnvChange, EnvChangeView, Invocation, InvocationView};
use crate::launch::Launch;
use crate::stdio::Stdio;
use crate::system::System;
use crate::unix::{CommandExt, GroupId, UserId};

verus! {

/// A builder for spawning processes.
pub struct Command {
    inner: Invocation,
    stdin: bool,
    stdout: bool,
    stderr: bool,
    reap_on_drop: bool,
    kill_on_drop: bool,
}

/// The contents of a [`Command`]: what would be executed, which of the standard streams the caller
/// has configured, and what becomes of the process in the end.
#[verifier::ext_equal]
pub struct CommandView {
    pub inner: InvocationView,
    pub stdin: bool,
    pub stdout: bool,
    pub stderr: bool,
    pub policy: DropPolicy,
}

/// What a launch connects a stream to: what the caller configured, or else `default`.
pub open spec fn connected(configured: bool, to: Option<Stdio>, default: Stdio) -> Option<Stdio> {
    if configured {
        to
    } else {
        Some(default)
    }
}

impl CommandView {
    /// A command as it is before anything has been configured.
    pub open spec fn unconfigured(inner: InvocationView) -> CommandView {
        CommandView {
            inner,
            stdin: false,
            stdout: false,
            stderr: false,
            policy: DropPolicy { reap_on_drop: true, kill_on_drop: false },
        }
    }

    /// The command with other things to execute.
    pub open spec fn with(self, inner: InvocationView) -> CommandView {
        CommandView { inner, ..self }
    }

    /// The command with one more argument.
    pub open spec fn arg(self, arg: Seq<u8>) -> CommandView {
        self.with(InvocationView { args: self.inner.args.push(arg), ..self.inner })
    }

    /// The command with more arguments.
    pub open spec fn args(self, args: Seq<Seq<u8>>) -> CommandView {
        self.with(InvocationView { args: self.inner.args + args, ..self.inner })
    }

    /// The command with one more change to the environment.
    pub open spec fn change_env(self, change: EnvChangeView) -> CommandView {
        self.with(InvocationView { env: self.inner.env.push(change), ..self.inner })
    }

    /// The command with more changes to the environment.
    pub open spec fn change_envs(self, changes: Seq<EnvChangeView>) -> CommandView {
        self.with(InvocationView { env: self.inner.env + changes, ..self.inner })
    }

    /// The command with the streams that the caller has not configured connected to the defaults.
    pub open spec fn connect(self, stdin: Stdio, stdout: Stdio, stderr: Stdio) -> CommandView {
        self.with(
            InvocationView {
                stdin: connected(self.stdin, self.inner.stdin, stdin),
                stdout: connected(self.stdout, self.inner.stdout, stdout),
                stderr: connected(self.stderr, self.inner.stderr, stderr),
                ..self.inner
            },
        )
    }

    /// The command after a launch: a stream that the caller has not configured is connected to
    /// nothing in particular any more, whatever it was connected to when the command was made.
    pub open spec fn launched(self) -> CommandView {
        self.with(
            InvocationView {
                stdin: if self.stdin {
                    self.inner.stdin
                } else {
                    None
                },
                stdout: if self.stdout {
                    self.inner.stdout
                } else {
                    None
                },
                stderr: if self.stderr {
                    self.inner.stderr
                } else {
                    None
                },
                ..self.inner
            },
        )
    }

    /// Whether `launch` is the beginning of a launch of this command.
    pub open spec fn launches<T: System>(self, launch: Launch<T>) -> bool {
        launch matches Launch::Spawn { invocation, policy } && invocation@ == self.inner && policy
            == self.policy
    }
}

impl View for Command {
    type V = CommandView;

    closed spec fn view(&self) -> CommandView {
        CommandView {
            inner: self.inner@,
            stdin: self.stdin,
            stdout: self.stdout,
            stderr: self.stderr,
            policy: DropPolicy {
                reap_on_drop: self.reap_on_drop,
                kill_on_drop: self.kill_on_drop,
            },
        }
    }
}

/// The strings of a list of borrowed strings.
pub open spec fn slices(list: Seq<&[u8]>) -> Seq<Seq<u8>> {
    list.map_values(|bytes: &[u8]| bytes@)
}

/// The assignments of a list of borrowed pairs.
pub open spec fn assignments(vars: Seq<(&[u8], &[u8])>) -> Seq<EnvChangeView> {
    vars.map_values(|var: (&[u8], &[u8])| EnvChangeView::Assign(var.0@, var.1@))
}

impl Command {
    /// Constructs a new [`Command`] for launching `program`.
    ///
    /// The initial configuration (the working directory and environment variables) is inherited
    /// from the current process.
    pub fn new(program: &[u8]) -> (command: Command)
        ensures
            command@ == CommandView::unconfigured(InvocationView::plain(program@)),
    {
        Command::from(Invocation::new(program))
    }

    /// Adds a single argument to pass to the program.
    pub fn arg(&mut self, arg: &[u8]) -> (command: &mut Command)
        ensures
            (*command)@ == old(self)@.arg(arg@),
            *final(self) == *final(command),
    {
        self.inner.args.push(crate::invocation::copied(arg));
        assert(self@ =~= old(self)@.arg(arg@));
        self
    }

    /// Adds multiple arguments to pass to the program.
    pub fn args(&mut self, args: &[&[u8]]) -> (command: &mut Command)
        ensures
            (*command)@ == old(self)@.args(slices(args@)),
            *final(self) == *final(command),
    {
        assert(self@ =~= old(self)@.args(slices(args@.take(0))));
        for i in 0..args.len()
            invariant
                self@ == old(self)@.args(slices(args@.take(i as int))),
        {
            self.arg(args[i]);
            assert(self@ =~= old(self)@.args(slices(args@.take(i + 1))));
        }
        assert(args@.take(args@.len() as int) =~= args@);
        self
    }

    /// Configures an environment variable for the new process.
    ///
    /// Note that environment variable names are case-insensitive (but case-preserving) on Windows,
    /// and case-sensitive on all other platforms.
    pub fn env(&mut self, key: &[u8], val: &[u8]) -> (command: &mut Command)
        ensures
            (*command)@ == old(self)@.change_env(EnvChangeView::Assign(key@, val@)),
            *final(self) == *final(command),
    {
        let change = EnvChange::Assign(
            crate::invocation::copied(key),
            crate::invocation::copied(val),
        );
        self.inner.env.push(change);
        assert(self@ =~= old(self)@.change_env(EnvChangeView::Assign(key@, val@)));
        self
    }

    /// Configures multiple environment variables for the new process.
    ///
    /// Note that environment variable names are case-insensitive (but case-preserving) on Windows,
    /// and case-sensitive on all other platforms.
    pub fn envs(&mut self, vars: &[(&[u8], &[u8])]) -> (command: &mut Command)
        ensures
            (*command)@ == old(self)@.change_envs(assignments(vars@)),
            *final(self) == *final(command),
    {
        assert(self@ =~= old(self)@.change_envs(assignments(vars@.take(0))));
        for i in 0..vars.len()
            invariant
                self@ == old(self)@.change_envs(assignments(vars@.take(i as int))),
        {
            let (key, val) = vars[i];
            self.env(key, val);
            assert(self@ =~= old(self)@.change_envs(assignments(vars@.take(i + 1))));
        }
        assert(vars@.take(vars@.len() as int) =~= vars@);
        self
    }

    /// Removes an environment variable mapping.
    pub fn env_remove(&mut self, key: &[u8]) -> (command: &mut Command)
        ensures
            (*command)@ == old(self)@.change_env(EnvChangeView::Remove(key@)),
            *final(self) == *final(command),
    {
        self.inner.env.push(EnvChange::Remove(crate::invocation::copied(key)));
        assert(self@ =~= old(self)@.change_env(EnvChangeView::Remove(key@)));
        self
    }

    /// Removes all environment variable mappings.
    pub fn env_clear(&mut self) -> (command: &mut Command)
        ensures
            (*command)@ == old(self)@.change_env(EnvChangeView::Clear),
            *final(self) == *final(command),
    {
        self.inner.env.push(EnvChange::Clear);
        assert(self@ =~= old(self)@.change_env(EnvChangeView::Clear));
        self
    }

    /// Configures the working directory for the new process.
    pub fn current_dir(&mut self, dir: &[u8]) -> (command: &mut Command)
        ensures
            (*command)@ == old(self)@.with(
                InvocationView { current_dir: Some(dir@), ..old(self)@.inner },
            ),
            *final(self) == *final(command),
    {
        self.inner.current_dir = Some(crate::invocation::copied(dir));
        self
    }

    /// Configures the standard input (stdin) for the new process.
    pub fn stdin(&mut self, cfg: Stdio) -> (command: &mut Command)
        ensures
            (*command)@ == (CommandView {
                stdin: true,
                inner: InvocationView { stdin: Some(cfg), ..old(self)@.inner },
                ..old(self)@
            }),
            *final(self) == *final(command),
    {
        self.stdin = true;
        self.inner.stdin = Some(cfg);
        self
    }

    /// Configures the standard output (stdout) for the new process.
    pub fn stdout(&mut self, cfg: Stdio) -> (command: &mut Command)
        ensures
            (*command)@ == (CommandView {
                stdout: true,
                inner: InvocationView { stdout: Some(cfg), ..old(self)@.inner },
                ..old(self)@
            }),
            *final(self) == *final(command),
    {
        self.stdout = true;
        self.inner.stdout = Some(cfg);
        self
    }

    /// Configures the standard error (stderr) for the new process.
    pub fn stderr(&mut self, cfg: Stdio) -> (command: &mut Command)
        ensures
            (*command)@ == (CommandView {
                stderr: true,
                inner: InvocationView { stderr: Some(cfg), ..old(self)@.inner },
                ..old(self)@
            }),
            *final(self) == *final(command),
    {
        self.stderr = true;
        self.inner.stderr = Some(cfg);
        self
    }

    /// Configures whether to reap the zombie process when [`Child`][crate::Child] is dropped.
    ///
    /// When the process finishes, it becomes a "zombie" and some resources associated with it
    /// remain until its exit code is collected. The default value of this option is `true`.
    pub fn reap_on_drop(&mut self, reap_on_drop: bool) -> (command: &mut Command)
        ensures
            (*command)@ == (CommandView {
                policy: DropPolicy { reap_on_drop, ..old(self)@.policy },
                ..old(self)@
            }),
            *final(self) == *final(command),
    {
        self.reap_on_drop = reap_on_drop;
        self
    }

    /// Configures whether to kill the process when [`Child`][crate::Child] is dropped.
    ///
    /// The default value of this option is `false`.
    pub fn kill_on_drop(&mut self, kill_on_drop: bool) -> (command: &mut Command)
        ensures
            (*command)@ == (CommandView {
                policy: DropPolicy { kill_on_drop, ..old(self)@.policy },
                ..old(self)@
            }),
            *final(self) == *final(command),
    {
        self.kill_on_drop = kill_on_drop;
        self
    }

    /// What the command executes as it stands.
    pub fn invocation(&self) -> (invocation: &Invocation)
        ensures
            invocation@ == self@.inner,
    {
        &self.inner
    }

    /// Begins a launch, with the streams that the caller has not configured connected to the
    /// defaults.
    fn launch<T: System>(
        &mut self,
        stdin: Stdio,
        stdout: Stdio,
        stderr: Stdio,
    ) -> (launch: Launch<T>)
        ensures
            final(self)@ == old(self)@.launched(),
            old(self)@.connect(stdin, stdout, stderr).launches(launch),
    {
        let mut invocation = self.inner.copied();
        if !self.stdin {
            invocation.stdin = Some(stdin);
            self.inner.stdin = None;
        }
        if !self.stdout {
            invocation.stdout = Some(stdout);
            self.inner.stdout = None;
        }
        if !self.stderr {
            invocation.stderr = Some(stderr);
            self.inner.stderr = None;
        }
        Launch::Spawn {
            invocation,
            policy: DropPolicy {
                reap_on_drop: self.reap_on_drop,
                kill_on_drop: self.kill_on_drop,
            },
        }
    }

    /// Executes the command, for the caller to hold the [`Child`][crate::Child] handle to it.
    ///
    /// If not configured, stdin, stdout and stderr will be set to [`Stdio::inherit()`].
    pub fn spawn<T: System>(&mut self) -> (launch: Launch<T>)
        ensures
            final(self)@ == old(self)@.launched(),
            old(self)@.connect(Stdio::Inherit, Stdio::Inherit, Stdio::Inherit).launches(launch),
    {
        self.launch(Stdio::inherit(), Stdio::inherit(), Stdio::inherit())
    }

    /// Executes the command, to wait for it to exit with [`Launch::status`].
    ///
    /// If not configured, stdin, stdout and stderr will be set to [`Stdio::inherit()`].
    pub fn status<T: System>(&mut self) -> (launch: Launch<T>)
        ensures
            final(self)@ == old(self)@.launched(),
            old(self)@.connect(Stdio::Inherit, Stdio::Inherit, Stdio::Inherit).launches(launch),
    {
        self.spawn()
    }

    /// Executes the command, to collect its output with [`Launch::output`].
    ///
    /// If not configured, stdin will be set to [`Stdio::null()`], and stdout and stderr will be
    /// set to [`Stdio::piped()`].
    pub fn output<T: System>(&mut self) -> (launch: Launch<T>)
        ensures
            final(self)@ == old(self)@.launched(),
            old(self)@.connect(Stdio::Null, Stdio::Piped, Stdio::Piped).launches(launch),
    {
        self.launch(Stdio::null(), Stdio::piped(), Stdio::piped())
    }

    /// What the command shows of itself for debugging: the command line alone, as is useful in
    /// logs, or in the alternate, long form all that is configured.
    pub fn fmt(&self, alternate: bool) -> (debug: CommandDebug<'_>)
        ensures
            !alternate ==> {
                &&& debug matches CommandDebug::CommandLine(inner)
                &&& inner@ == self@.inner
            },
            alternate ==> {
                &&& debug matches CommandDebug::Fields {
                    inner,
                    stdin,
                    stdout,
                    stderr,
                    reap_on_drop,
                    kill_on_drop,
                }
                &&& self@ == (CommandView {
                    inner: inner@,
                    stdin,
                    stdout,
                    stderr,
                    policy: DropPolicy { reap_on_drop, kill_on_drop },
                })
            },
    {
        if alternate {
            CommandDebug::Fields {
                inner: &self.inner,
                stdin: self.stdin,
                stdout: self.stdout,
                stderr: self.stderr,
                reap_on_drop: self.reap_on_drop,
                kill_on_drop: self.kill_on_drop,
            }
        } else {
            CommandDebug::CommandLine(&self.inner)
        }
    }
}

/// What a command shows of itself for debugging.
pub enum CommandDebug<'a> {
    /// The command line.
    CommandLine(&'a Invocation),
    /// A structure with these fields, in this order.
    Fields {
        inner: &'a Invocation,
        stdin: bool,
        stdout: bool,
        stderr: bool,
        reap_on_drop: bool,
        kill_on_drop: bool,
    },
}

impl crate::sealed::Sealed for Command {}

impl CommandExt for Command {
    fn uid(&mut self, id: UserId) -> (command: &mut Command)
        ensures
            (*command)@ == old(self)@.with(InvocationView { uid: Some(id), ..old(self)@.inner }),
            *final(self) == *final(command),
    {
        self.inner.uid = Some(id);
        self
    }

    fn gid(&mut self, id: GroupId) -> (command: &mut Command)
        ensures
            (*command)@ == old(self)@.with(InvocationView { gid: Some(id), ..old(self)@.inner }),
            *final(self) == *final(command),
    {
        self.inner.gid = Some(id);
        self
    }

    fn exec(&mut self) -> (invocation: Invocation)
        ensures
            invocation@ == old(self)@.inner,
            *final(self) == *old(self),
    {
        self.inner.copied()
    }

    fn arg0(&mut self, arg: &[u8]) -> (command: &mut Command)
        ensures
            (*command)@ == old(self)@.with(InvocationView { arg0: Some(arg@), ..old(self)@.inner }),
            *final(self) == *final(command),
    {
        self.inner.arg0 = Some(crate::invocation::copied(arg));
        self
    }
}

impl From<Invocation> for Command {
    fn from(inner: Invocation) -> (command: Command)
        ensures
            command@ == CommandView::unconfigured(inner@),
    {
        Command {
            inner,
            stdin: false,
            stdout: false,
            stderr: false,
            reap_on_drop: true,
            kill_on_drop: false,
        }
    }
}

impl vstd::std_specs::convert::FromSpecImpl<Invocation> for Command {
    open spec fn obeys_from_spec() -> bool {
        true
    }

    closed spec fn from_spec(inner: Invocation) -> Command {
        Command {
            inner,
            stdin: false,
            stdout: false,
            stderr: false,
            reap_on_drop: true,
            kill_on_drop: false,
        }
    }
}

/// The contents of a command are all that it holds.
proof fn law_commands_show_everything(command: Command)
    ensures
        command@.inner == command.inner@,
        command@.stdin == command.stdin,
        command@.stdout == command.stdout,
        command@.stderr == command.stderr,
        command@.policy.reap_on_drop == command.reap_on_drop,
        command@.policy.kill_on_drop == command.kill_on_drop,
{
}

} // verus!
