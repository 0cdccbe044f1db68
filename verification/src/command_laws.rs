//! What holds of commands across calls.

use vstd::prelude::*;
use crate::command::CommandView;
use crate::invocation::{EnvChangeView, InvocationView};
use crate::launch::Launch;
use crate::stdio::Stdio;
use crate::system::System;

verus! {

/// A launch leaves nothing behind that a later one would notice: streams that the caller has not
/// configured are connected to the defaults of the launch at hand, whatever launch came before. So
/// a command can be spawned first and asked for its output later, or the other way round.
pub proof fn law_defaults_do_not_stick(
    command: CommandView,
    stdin: Stdio,
    stdout: Stdio,
    stderr: Stdio,
)
    ensures
        command.launched().connect(stdin, stdout, stderr) == command.connect(
            stdin,
            stdout,
            stderr,
        ),
        command.launched().launched() == command.launched(),
{
}

/// A stream that the caller has configured stays connected to what the caller chose, whatever the
/// defaults of a launch; and a launch configures nothing by itself.
pub proof fn law_configured_streams_are_kept(
    command: CommandView,
    stdin: Stdio,
    stdout: Stdio,
    stderr: Stdio,
)
    ensures
        ({
            let launched = command.connect(stdin, stdout, stderr);
            &&& command.stdin ==> launched.inner.stdin == command.inner.stdin
            &&& command.stdout ==> launched.inner.stdout == command.inner.stdout
            &&& command.stderr ==> launched.inner.stderr == command.inner.stderr
            &&& !command.stdin ==> launched.inner.stdin == Some(stdin)
            &&& !command.stdout ==> launched.inner.stdout == Some(stdout)
            &&& !command.stderr ==> launched.inner.stderr == Some(stderr)
            &&& launched.stdin == command.stdin
            &&& launched.stdout == command.stdout
            &&& launched.stderr == command.stderr
            &&& launched.policy == command.policy
        }),
{
}

/// Several arguments given at once are the same as the arguments given one by one, in their order.
pub proof fn law_args_are_added_one_by_one(
    command: CommandView,
    args: Seq<Seq<u8>>,
    last: Seq<u8>,
)
    ensures
        command.args(Seq::empty()) == command,
        command.args(args.push(last)) == command.args(args).arg(last),
{
    assert(command.args(Seq::empty()) =~= command);
    assert(command.args(args.push(last)) =~= command.args(args).arg(last));
}

/// Several changes to the environment made at once are the same as the changes made one by one, in
/// their order.
pub proof fn law_environment_changes_one_by_one(
    command: CommandView,
    changes: Seq<EnvChangeView>,
    last: EnvChangeView,
)
    ensures
        command.change_envs(Seq::empty()) == command,
        command.change_envs(changes.push(last)) == command.change_envs(changes).change_env(last),
{
    assert(command.change_envs(Seq::empty()) =~= command);
    assert(command.change_envs(changes.push(last)) =~= command.change_envs(changes).change_env(
        last,
    ));
}

/// Whether `change` has a bearing on the variable `key`.
pub open spec fn touches(
    change: EnvChangeView,
    same: spec_fn(Seq<u8>, Seq<u8>) -> bool,
    key: Seq<u8>,
) -> bool {
    match change {
        EnvChangeView::Assign(name, _) => same(name, key),
        EnvChangeView::Remove(name) => same(name, key),
        EnvChangeView::Clear => true,
    }
}

/// The environment is that of the parent at the moment of spawning: a variable that no change
/// bears on is in the child what it is in the parent then, and it is missing in the child if it is
/// missing in the parent.
pub proof fn law_environment_is_captured_at_spawn(
    changes: Seq<EnvChangeView>,
    inherited: spec_fn(Seq<u8>) -> Option<Seq<u8>>,
    same: spec_fn(Seq<u8>, Seq<u8>) -> bool,
    key: Seq<u8>,
)
    requires
        forall|i: int| 0 <= i < changes.len() ==> !touches(#[trigger] changes[i], same, key),
    ensures
        crate::invocation::variable(changes, inherited, same, key) == inherited(key),
    decreases changes.len(),
{
    if changes.len() > 0 {
        let before = changes.drop_last();
        assert forall|i: int| 0 <= i < before.len() implies !touches(
            #[trigger] before[i],
            same,
            key,
        ) by {
            assert(before[i] == changes[i]);
        }
        assert(!touches(changes[changes.len() - 1], same, key));
        law_environment_is_captured_at_spawn(before, inherited, same, key);
    }
}

/// A change made to a command is made to the environment that the command had before it, whatever
/// the parent has: it decides on the variable that it names, and leaves the others as they were. A
/// clearing leaves no variable.
pub proof fn law_changes_build_on_each_other(
    command: CommandView,
    name: Seq<u8>,
    value: Seq<u8>,
    inherited: spec_fn(Seq<u8>) -> Option<Seq<u8>>,
    same: spec_fn(Seq<u8>, Seq<u8>) -> bool,
    key: Seq<u8>,
)
    ensures
        ({
            let before = crate::invocation::variable(command.inner.env, inherited, same, key);
            let assigned = command.change_env(EnvChangeView::Assign(name, value)).inner.env;
            let removed = command.change_env(EnvChangeView::Remove(name)).inner.env;
            let cleared = command.change_env(EnvChangeView::Clear).inner.env;
            &&& crate::invocation::variable(assigned, inherited, same, key) == if same(name, key) {
                Some(value)
            } else {
                before
            }
            &&& crate::invocation::variable(removed, inherited, same, key) == if same(name, key) {
                None
            } else {
                before
            }
            &&& crate::invocation::variable(cleared, inherited, same, key) is None
        }),
{
    let env = command.inner.env;
    assert(env.push(EnvChangeView::Assign(name, value)).drop_last() =~= env);
    assert(env.push(EnvChangeView::Remove(name)).drop_last() =~= env);
}

/// The last change that bears on a variable decides: after an assignment the child has the variable
/// with that value, after a removal or a clearing of everything it does not have it, whatever came
/// before and whatever the parent has.
pub proof fn law_last_change_decides(
    changes: Seq<EnvChangeView>,
    inherited: spec_fn(Seq<u8>) -> Option<Seq<u8>>,
    same: spec_fn(Seq<u8>, Seq<u8>) -> bool,
    key: Seq<u8>,
    at: int,
)
    requires
        0 <= at < changes.len(),
        touches(changes[at], same, key),
        forall|i: int| at < i < changes.len() ==> !touches(#[trigger] changes[i], same, key),
    ensures
        crate::invocation::variable(changes, inherited, same, key) == match changes[at] {
            EnvChangeView::Assign(_, value) => Some(value),
            _ => None,
        },
    decreases changes.len(),
{
    if at < changes.len() - 1 {
        let before = changes.drop_last();
        assert forall|i: int| at < i < before.len() implies !touches(
            #[trigger] before[i],
            same,
            key,
        ) by {
            assert(before[i] == changes[i]);
        }
        assert(!touches(changes[changes.len() - 1], same, key));
        assert(before[at] == changes[at]);
        law_last_change_decides(before, inherited, same, key, at);
    }
}

/// Two names of one variable, such as names that differ in case alone on Windows, stand for the
/// same value in the child if they do in the parent, whichever of them the changes are made under.
pub proof fn law_names_of_one_variable_agree(
    changes: Seq<EnvChangeView>,
    inherited: spec_fn(Seq<u8>) -> Option<Seq<u8>>,
    same: spec_fn(Seq<u8>, Seq<u8>) -> bool,
    key: Seq<u8>,
    other: Seq<u8>,
)
    requires
        crate::invocation::names(same),
        same(key, other),
        inherited(key) == inherited(other),
    ensures
        crate::invocation::variable(changes, inherited, same, key)
            == crate::invocation::variable(changes, inherited, same, other),
    decreases changes.len(),
{
    if changes.len() > 0 {
        law_names_of_one_variable_agree(changes.drop_last(), inherited, same, key, other);
        match changes.last() {
            EnvChangeView::Assign(name, _) | EnvChangeView::Remove(name) => {
                assert(same(other, key));
                assert(same(name, key) ==> same(name, other));
                assert(same(name, other) ==> same(name, key));
            },
            EnvChangeView::Clear => {},
        }
    }
}

/// Whether two commands differ at most in what they execute.
pub open spec fn same_settings(a: CommandView, b: CommandView) -> bool {
    &&& a.stdin == b.stdin
    &&& a.stdout == b.stdout
    &&& a.stderr == b.stderr
    &&& a.policy == b.policy
}

/// Whether two invocations differ at most in what their standard streams are connected to.
pub open spec fn same_but_streams(a: InvocationView, b: InvocationView) -> bool {
    &&& a.program == b.program
    &&& a.arg0 == b.arg0
    &&& a.args == b.args
    &&& a.env == b.env
    &&& a.current_dir == b.current_dir
    &&& a.uid == b.uid
    &&& a.gid == b.gid
}

/// One more argument is one more argument: those before keep their places, the new one comes last,
/// however many there are, and nothing else changes.
pub proof fn law_an_argument_is_added_behind_the_others(command: CommandView, arg: Seq<u8>)
    ensures
        ({
            let after = command.arg(arg);
            &&& after.inner.args.len() == command.inner.args.len() + 1
            &&& after.inner.args.last() == arg
            &&& forall|i: int|
                0 <= i < command.inner.args.len() ==> #[trigger] after.inner.args[i]
                    == command.inner.args[i]
            &&& after.inner == (InvocationView { args: after.inner.args, ..command.inner })
            &&& same_settings(after, command)
        }),
{
}

/// Many more arguments are that many more arguments: those before keep their places, the new ones
/// follow in their order, and nothing else changes.
pub proof fn law_arguments_are_added_behind_the_others(command: CommandView, args: Seq<Seq<u8>>)
    ensures
        ({
            let after = command.args(args);
            &&& after.inner.args.len() == command.inner.args.len() + args.len()
            &&& forall|i: int|
                0 <= i < command.inner.args.len() ==> #[trigger] after.inner.args[i]
                    == command.inner.args[i]
            &&& forall|i: int|
                0 <= i < args.len() ==> after.inner.args[command.inner.args.len() + i]
                    == #[trigger] args[i]
            &&& after.inner == (InvocationView { args: after.inner.args, ..command.inner })
            &&& same_settings(after, command)
        }),
{
}

/// One more change to the environment is made after all the others, which stay as they are, and
/// nothing else changes.
pub proof fn law_a_change_is_made_after_the_others(command: CommandView, change: EnvChangeView)
    ensures
        ({
            let after = command.change_env(change);
            &&& after.inner.env.len() == command.inner.env.len() + 1
            &&& after.inner.env.last() == change
            &&& forall|i: int|
                0 <= i < command.inner.env.len() ==> #[trigger] after.inner.env[i]
                    == command.inner.env[i]
            &&& after.inner == (InvocationView { env: after.inner.env, ..command.inner })
            &&& same_settings(after, command)
        }),
{
}

/// Many more changes to the environment are made after all the others, in their order, and nothing
/// else changes.
pub proof fn law_changes_are_made_after_the_others(
    command: CommandView,
    changes: Seq<EnvChangeView>,
)
    ensures
        ({
            let after = command.change_envs(changes);
            &&& after.inner.env.len() == command.inner.env.len() + changes.len()
            &&& forall|i: int|
                0 <= i < command.inner.env.len() ==> #[trigger] after.inner.env[i]
                    == command.inner.env[i]
            &&& forall|i: int|
                0 <= i < changes.len() ==> after.inner.env[command.inner.env.len() + i]
                    == #[trigger] changes[i]
            &&& after.inner == (InvocationView { env: after.inner.env, ..command.inner })
            &&& same_settings(after, command)
        }),
{
}

/// A command that executes something else keeps its settings.
pub proof fn law_settings_do_not_depend_on_what_is_executed(
    command: CommandView,
    inner: InvocationView,
)
    ensures
        command.with(inner).inner == inner,
        same_settings(command.with(inner), command),
{
}

/// A launch executes the command and changes nothing but the standard streams: the program, its
/// arguments, its environment, its directory and whom it runs as are those of the command, and so
/// is what becomes of the process in the end. The command is left with all of that too.
pub proof fn law_a_launch_changes_only_the_streams<T: System>(
    command: CommandView,
    stdin: Stdio,
    stdout: Stdio,
    stderr: Stdio,
    launch: Launch<T>,
)
    requires
        command.connect(stdin, stdout, stderr).launches(launch),
    ensures
        launch is Spawn,
        same_but_streams(launch->Spawn_invocation@, command.inner),
        launch->Spawn_policy == command.policy,
        launch->Spawn_invocation@.stdin == if command.stdin {
            command.inner.stdin
        } else {
            Some(stdin)
        },
        launch->Spawn_invocation@.stdout == if command.stdout {
            command.inner.stdout
        } else {
            Some(stdout)
        },
        launch->Spawn_invocation@.stderr == if command.stderr {
            command.inner.stderr
        } else {
            Some(stderr)
        },
        same_but_streams(command.launched().inner, command.inner),
        same_settings(command.launched(), command),
        command.stdin ==> command.launched().inner.stdin == command.inner.stdin,
        command.stdout ==> command.launched().inner.stdout == command.inner.stdout,
        command.stderr ==> command.launched().inner.stderr == command.inner.stderr,
        !command.stdin ==> command.launched().inner.stdin is None,
        !command.stdout ==> command.launched().inner.stdout is None,
        !command.stderr ==> command.launched().inner.stderr is None,
{
}

} // verus!
