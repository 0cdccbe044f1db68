//! What holds of children from their launch to their disposal.

use vstd::prelude::*;
use crate::child::{ChildGuard, Disposal, DropPolicy};
use crate::invocation::Invocation;
use crate::launch::{Launch, Spawned};
use crate::shared::StillShared;
use crate::system::System;
use crate::zombies::PassView;

verus! {

/// What is done about a process in the end, in this order.
pub enum Farewell {
    Kill,
    Reap,
}

/// All that is done, from here on, about a process whose last handle was dropped.
pub open spec fn farewells<T: System>(disposal: Disposal<T>) -> Seq<Farewell> {
    match disposal {
        Disposal::Kill(guard) => seq![Farewell::Kill] + match Disposal::reaping(guard) {
            Disposal::Reap(_) => seq![Farewell::Reap],
            _ => Seq::empty(),
        },
        Disposal::Reap(_) => seq![Farewell::Reap],
        Disposal::Leave(_) => Seq::empty(),
    }
}

/// Each option takes effect exactly when it is set and whatever the other is: with `kill_on_drop`
/// the process is killed, with `reap_on_drop` it is handed to the reaper, in this order. It is this
/// very process that is killed and handed over.
pub proof fn law_disposal_follows_the_policy<T: System>(guard: ChildGuard<T>)
    ensures
        farewells(Disposal::starting(guard)) == (if guard.policy.kill_on_drop {
            seq![Farewell::Kill]
        } else {
            Seq::empty()
        }) + (if guard.policy.reap_on_drop {
            seq![Farewell::Reap]
        } else {
            Seq::empty()
        }),
        Disposal::starting(guard) matches Disposal::Kill(killed) ==> killed == guard,
        Disposal::starting(guard) matches Disposal::Reap(process) ==> process == guard.process,
        Disposal::reaping(guard) matches Disposal::Reap(process) ==> process == guard.process,
{
    assert(farewells(Disposal::starting(guard)) =~= (if guard.policy.kill_on_drop {
        seq![Farewell::Kill]
    } else {
        Seq::empty()
    }) + (if guard.policy.reap_on_drop {
        seq![Farewell::Reap]
    } else {
        Seq::empty()
    }));
}

/// A child that is dropped while it runs does not leak: it is handed to the reaper and put on the
/// list. From then on, each pass over a list that holds it leaves it there exactly as long as it is
/// found running.
pub proof fn law_dropped_child_is_reaped<T: System>(
    guard: ChildGuard<T>,
    list: Seq<T::Process>,
    zombies: Seq<T::Process>,
    answers: Seq<bool>,
    running: spec_fn(T::Process) -> bool,
)
    requires
        guard.policy.reap_on_drop,
        zombies.contains(guard.process),
        answers.len() == zombies.len(),
        forall|i: int|
            0 <= i < answers.len() ==> answers[i] == running(
                #[trigger] crate::zombie_laws::asked(PassView::fresh(zombies), answers)[i],
            ),
    ensures
        Disposal::reaping(guard) == Disposal::<T>::Reap(guard.process),
        list.push(guard.process).contains(guard.process),
        crate::zombie_laws::drive(PassView::fresh(zombies), answers).zombies.contains(guard.process)
            <==> running(guard.process),
{
    broadcast use vstd::seq_lib::group_to_multiset_ensures;

    let left = crate::zombie_laws::drive(PassView::fresh(zombies), answers).zombies;
    crate::zombie_laws::law_pass_reaps_exactly_the_exited(zombies, answers, running);
    assert(list.push(guard.process)[list.len() as int] == guard.process);
    assert(zombies.to_multiset().count(guard.process) > 0);
    assert(left.contains(guard.process) <==> left.to_multiset().count(guard.process) > 0);
}

/// Something that happens to the handles to a process.
pub enum HandleEvent {
    /// A wait was begun, which is one more handle.
    Shared,
    /// A handle was given up.
    Released,
}

/// The handles to a process, and what has been decided to do about it.
pub struct Handles<T: System> {
    pub owners: nat,
    pub disposals: Seq<Disposal<T>>,
}

impl<T: System> Handles<T> {
    /// A child that has just been launched, which is the one handle.
    pub open spec fn start() -> Handles<T> {
        Handles { owners: 1, disposals: Seq::empty() }
    }

    /// Whether something can happen now: whoever shares or gives up a handle has one.
    pub open spec fn admits(self, event: HandleEvent) -> bool {
        self.owners > 0
    }

    /// What giving up a handle to `guard` brings: the process if it was the last one.
    pub open spec fn give_up(self, guard: ChildGuard<T>) -> Result<ChildGuard<T>, ()> {
        if self.owners == 1 {
            Ok(guard)
        } else {
            Err(())
        }
    }

    /// What `event` leads to.
    pub open spec fn after(self, guard: ChildGuard<T>, event: HandleEvent) -> Handles<T> {
        match event {
            HandleEvent::Shared => Handles { owners: self.owners + 1, ..self },
            HandleEvent::Released => Handles {
                owners: (self.owners - 1) as nat,
                disposals: match crate::child::dropping(self.give_up(guard)) {
                    Ok(disposal) => self.disposals.push(disposal),
                    Err(_) => self.disposals,
                },
            },
        }
    }

    /// What a history leads to.
    pub open spec fn run(guard: ChildGuard<T>, history: Seq<HandleEvent>) -> Handles<T>
        decreases history.len(),
    {
        if history.len() == 0 {
            Handles::start()
        } else {
            Handles::run(guard, history.drop_last()).after(guard, history.last())
        }
    }

    /// Whether everything in a history could happen when it did.
    pub open spec fn possible(guard: ChildGuard<T>, history: Seq<HandleEvent>) -> bool
        decreases history.len(),
    {
        history.len() == 0 || {
            &&& Handles::possible(guard, history.drop_last())
            &&& Handles::run(guard, history.drop_last()).admits(history.last())
        }
    }
}

/// As long as there is a handle to a process, be it the child or a wait, nothing is done about it:
/// in particular it is not killed, whatever its policy and in whatever order the other handles were
/// dropped. When the last handle goes, what its policy says is done, once.
pub proof fn law_only_the_last_handle_counts<T: System>(
    guard: ChildGuard<T>,
    history: Seq<HandleEvent>,
)
    requires
        Handles::possible(guard, history),
    ensures
        Handles::run(guard, history).owners > 0 ==> Handles::run(guard, history).disposals
            == Seq::<Disposal<T>>::empty(),
        Handles::run(guard, history).owners == 0 ==> Handles::run(guard, history).disposals == seq![
            Disposal::starting(guard),
        ],
    decreases history.len(),
{
    if history.len() > 0 {
        law_only_the_last_handle_counts(guard, history.drop_last());
        assert(Seq::<Disposal<T>>::empty().push(Disposal::starting(guard)) =~= seq![
            Disposal::starting(guard),
        ]);
    }
}

/// The outcomes of the calls that a launch makes.
pub struct Outcomes<T: System> {
    pub spawn: Result<Spawned<T>, T::Error>,
    pub stdin: Result<Option<T::Stdin>, T::Error>,
    pub stdout: Result<Option<T::Stdout>, T::Error>,
    pub stderr: Result<Option<T::Stderr>, T::Error>,
}

/// A launch up to the point where the reaper is driven, or up to the first call that fails.
pub open spec fn launched<T: System>(
    invocation: Invocation,
    policy: DropPolicy,
    outcomes: Outcomes<T>,
) -> Launch<T> {
    let spawned = Launch::Spawn { invocation, policy }.after_spawn(outcomes.spawn);
    if spawned is WrapStdin {
        let stdin = spawned.after_stdin(outcomes.stdin);
        if stdin is WrapStdout {
            let stdout = stdin.after_stdout(outcomes.stdout);
            if stdout is WrapStderr {
                stdout.after_stderr(outcomes.stderr)
            } else {
                stdout
            }
        } else {
            stdin
        }
    } else {
        spawned
    }
}

/// The first call that fails decides the launch, and its error is the launch's. The reaper hears of
/// the process only when all three streams are ready, and then it is the process that was spawned,
/// with the streams it was captured with and the policy of its command.
pub proof fn law_first_failure_decides_the_launch<T: System>(
    invocation: Invocation,
    policy: DropPolicy,
    outcomes: Outcomes<T>,
)
    ensures
        ({
            let end = launched(invocation, policy, outcomes);
            match (outcomes.spawn, outcomes.stdin, outcomes.stdout, outcomes.stderr) {
                (Err(error), _, _, _) => end == Launch::<T>::Done(Err(error)),
                (_, Err(error), _, _) => end == Launch::<T>::Done(Err(error)),
                (_, _, Err(error), _) => end == Launch::<T>::Done(Err(error)),
                (_, _, _, Err(error)) => end == Launch::<T>::Done(Err(error)),
                (Ok(spawned), Ok(stdin), Ok(stdout), Ok(stderr)) => {
                    &&& end is Drive
                    &&& end.after_drive()->Register_guard.id == spawned.id
                    &&& end.after_drive()->Register_guard.process == spawned.process
                    &&& end.after_drive()->Register_guard.policy == policy
                    &&& end.after_drive()->Register_stdin == stdin
                    &&& end.after_drive()->Register_stdout == stdout
                    &&& end.after_drive()->Register_stderr == stderr
                },
            }
        }),
{
}

/// What becomes of a process when its last handle goes: it is killed first if its policy says so,
/// and then, or at once if it is not to be killed, handed to the reaper or left alone as its policy
/// says. It is always this very process.
pub proof fn law_what_becomes_of_a_process<T: System>(guard: ChildGuard<T>)
    ensures
        guard.policy.kill_on_drop ==> Disposal::starting(guard) == Disposal::<T>::Kill(guard),
        !guard.policy.kill_on_drop && guard.policy.reap_on_drop ==> Disposal::starting(guard)
            == Disposal::<T>::Reap(guard.process),
        !guard.policy.kill_on_drop && !guard.policy.reap_on_drop ==> Disposal::starting(guard)
            == Disposal::<T>::Leave(guard.process),
        guard.policy.reap_on_drop ==> Disposal::reaping(guard) == Disposal::<T>::Reap(
            guard.process,
        ),
        !guard.policy.reap_on_drop ==> Disposal::reaping(guard) == Disposal::<T>::Leave(
            guard.process,
        ),
{
}

/// A handle that is given up is given up for good, and for nobody else: nothing is done about the
/// process only on the record that this very handle was not the last one to this very process.
pub proof fn law_letting_go_is_of_this_handle<T: System>(
    guard: ChildGuard<T>,
    handle: int,
    disposal: Result<Disposal<T>, StillShared<ChildGuard<T>>>,
)
    requires
        crate::child::let_go(guard, handle, disposal),
    ensures
        disposal matches Err(shared) ==> shared.value() == guard && shared.label() == handle,
        disposal matches Ok(Disposal::Kill(killed)) ==> killed == guard
            && guard.policy.kill_on_drop,
        disposal matches Ok(Disposal::Reap(process)) ==> process == guard.process
            && guard.policy.reap_on_drop && !guard.policy.kill_on_drop,
        disposal matches Ok(Disposal::Leave(process)) ==> process == guard.process
            && !guard.policy.reap_on_drop && !guard.policy.kill_on_drop,
{
}

/// Giving a handle up leads to something being done if and only if it was the last.
pub proof fn law_only_the_last_handle_leads_to_anything<T: System, X>(
    guard: ChildGuard<T>,
    shared: X,
)
    ensures
        crate::child::dropping(Ok::<ChildGuard<T>, X>(guard)) == Ok::<Disposal<T>, X>(
            Disposal::starting(guard),
        ),
        crate::child::dropping(Err::<ChildGuard<T>, X>(shared)) == Err::<Disposal<T>, X>(shared),
{
}

/// Every outcome of a call that a launch makes is heeded: success leads on, with all that the
/// launch has gathered, and failure ends the launch with its error, at every step.
pub proof fn law_every_outcome_is_heeded<T: System>(
    invocation: Invocation,
    policy: DropPolicy,
    spawned: Spawned<T>,
    guard: ChildGuard<T>,
    stdin: Option<T::Stdin>,
    stdout: Option<T::Stdout>,
    stderr: Option<T::Stderr>,
    error: T::Error,
)
    ensures
        ({
            let spawn = Launch::<T>::Spawn { invocation, policy };
            let next = spawn.after_spawn(Ok(spawned));
            &&& next is WrapStdin
            &&& next->WrapStdin_guard.id == spawned.id
            &&& next->WrapStdin_guard.process == spawned.process
            &&& next->WrapStdin_guard.policy == policy
            &&& spawn.after_spawn(Err(error)) == Launch::<T>::Done(Err(error))
        }),
        ({
            let wrap = Launch::<T>::WrapStdin { guard };
            &&& wrap.after_stdin(Ok(stdin)) == (Launch::<T>::WrapStdout { guard, stdin })
            &&& wrap.after_stdin(Err(error)) == Launch::<T>::Done(Err(error))
        }),
        ({
            let wrap = Launch::<T>::WrapStdout { guard, stdin };
            &&& wrap.after_stdout(Ok(stdout)) == (Launch::<T>::WrapStderr { guard, stdin, stdout })
            &&& wrap.after_stdout(Err(error)) == Launch::<T>::Done(Err(error))
        }),
        ({
            let wrap = Launch::<T>::WrapStderr { guard, stdin, stdout };
            &&& wrap.after_stderr(Ok(stderr)) == (Launch::<T>::Drive {
                guard,
                stdin,
                stdout,
                stderr,
            })
            &&& wrap.after_stderr(Err(error)) == Launch::<T>::Done(Err(error))
        }),
        (Launch::<T>::Drive { guard, stdin, stdout, stderr }).after_drive() == (Launch::<
            T,
        >::Register { guard, stdin, stdout, stderr }),
{
}

} // verus!
