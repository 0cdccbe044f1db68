//! What the contents of a command and its parts show.

use vstd::prelude::*;
use crate::command::CommandView;
use crate::invocation::{EnvChange, EnvChangeView, Invocation, InvocationView};

verus! {

/// The contents of a list of strings are as many as the strings, each in its place.
pub proof fn law_lists_show_every_string(list: Seq<Vec<u8>>, borrowed: Seq<&[u8]>)
    ensures
        crate::invocation::list_bytes(list).len() == list.len(),
        forall|i: int|
            0 <= i < list.len() ==> #[trigger] crate::invocation::list_bytes(list)[i] == list[i]@,
        crate::command::slices(borrowed).len() == borrowed.len(),
        forall|i: int|
            0 <= i < borrowed.len() ==> #[trigger] crate::command::slices(borrowed)[i]
                == borrowed[i]@,
{
}

/// The contents of a list of changes, or of a list of variables to be set, are as many as the
/// changes or variables, each in its place.
pub proof fn law_lists_show_every_change(changes: Seq<EnvChange>, vars: Seq<(&[u8], &[u8])>)
    ensures
        crate::invocation::change_views(changes).len() == changes.len(),
        forall|i: int|
            0 <= i < changes.len() ==> #[trigger] crate::invocation::change_views(changes)[i]
                == changes[i]@,
        crate::command::assignments(vars).len() == vars.len(),
        forall|i: int|
            0 <= i < vars.len() ==> #[trigger] crate::command::assignments(vars)[i]
                == EnvChangeView::Assign(vars[i].0@, vars[i].1@),
{
}

/// A change shows what it changes, with its name and its value.
pub proof fn law_changes_show_what_they_change(change: EnvChange)
    ensures
        match change {
            EnvChange::Assign(name, value) => change@ == EnvChangeView::Assign(name@, value@),
            EnvChange::Remove(name) => change@ == EnvChangeView::Remove(name@),
            EnvChange::Clear => change@ == EnvChangeView::Clear,
        },
{
}

/// An invocation shows all that decides how its program is executed, and two that show the same
/// agree in all of it.
pub proof fn law_invocations_show_everything(a: Invocation, b: Invocation)
    ensures
        a@.program == a.program@,
        a@.args.len() == a.args@.len(),
        forall|i: int| 0 <= i < a.args@.len() ==> #[trigger] a@.args[i] == a.args@[i]@,
        a@.env.len() == a.env@.len(),
        forall|i: int| 0 <= i < a.env@.len() ==> #[trigger] a@.env[i] == a.env@[i]@,
        a.arg0 is None <==> a@.arg0 is None,
        a.arg0 is Some ==> a@.arg0 == Some(a.arg0->0@),
        a.current_dir is None <==> a@.current_dir is None,
        a.current_dir is Some ==> a@.current_dir == Some(a.current_dir->0@),
        a@ == b@ ==> {
            &&& a.uid == b.uid
            &&& a.gid == b.gid
            &&& a.stdin == b.stdin
            &&& a.stdout == b.stdout
            &&& a.stderr == b.stderr
        },
        a@.uid == a.uid,
        a@.gid == a.gid,
        a@.stdin == a.stdin,
        a@.stdout == a.stdout,
        a@.stderr == a.stderr,
{
}

/// A new command launches its program alone, with nothing configured: nothing is killed when it is
/// dropped, and everything is reaped.
pub proof fn law_new_commands_are_plain(program: Seq<u8>)
    ensures
        ({
            let command = CommandView::unconfigured(InvocationView::plain(program));
            &&& command.inner.program == program
            &&& command.inner.args.len() == 0
            &&& command.inner.env.len() == 0
            &&& command.inner.arg0 is None
            &&& command.inner.current_dir is None
            &&& command.inner.uid is None
            &&& command.inner.gid is None
            &&& command.inner.stdin is None
            &&& command.inner.stdout is None
            &&& command.inner.stderr is None
            &&& !command.stdin && !command.stdout && !command.stderr
            &&& command.policy.reap_on_drop
            &&& !command.policy.kill_on_drop
        }),
{
}

/// A command made from something to execute executes just that, with no stream configured.
pub proof fn law_commands_execute_what_they_are_made_from(inner: InvocationView)
    ensures
        CommandView::unconfigured(inner).inner == inner,
        !CommandView::unconfigured(inner).stdin,
        !CommandView::unconfigured(inner).stdout,
        !CommandView::unconfigured(inner).stderr,
        CommandView::unconfigured(inner).policy.reap_on_drop,
        !CommandView::unconfigured(inner).policy.kill_on_drop,
{
}

} // verus!
