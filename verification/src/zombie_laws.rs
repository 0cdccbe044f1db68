//! What a whole pass over the list of zombies achieves, whatever the processes answer.

use vstd::prelude::*;
use crate::zombies::{PassStep, PassView, BATCH};

verus! {

/// The pass after the processes it asked, in turn, gave `answers` (`true` for "still running").
/// Yields happen as they fall due.
pub open spec fn drive<P>(pass: PassView<P>, answers: Seq<bool>) -> PassView<P>
    decreases answers.len(), (if pass.budget == 0 { 1int } else { 0int }),
{
    match pass.step() {
        PassStep::Yield => drive(pass.yielded(), answers),
        PassStep::Poll => if answers.len() == 0 {
            pass
        } else {
            drive(pass.polled(answers[0]), answers.drop_first())
        },
        PassStep::Finished => pass,
    }
}

/// The processes that the pass asks, in the order in which it asks them.
pub open spec fn asked<P>(pass: PassView<P>, answers: Seq<bool>) -> Seq<P>
    decreases answers.len(), (if pass.budget == 0 { 1int } else { 0int }),
{
    match pass.step() {
        PassStep::Yield => asked(pass.yielded(), answers),
        PassStep::Poll => if answers.len() == 0 {
            Seq::empty()
        } else {
            seq![pass.zombies[pass.next]] + asked(pass.polled(answers[0]), answers.drop_first())
        },
        PassStep::Finished => Seq::empty(),
    }
}

/// The steps that the pass takes before it is finished or out of answers.
pub open spec fn steps<P>(pass: PassView<P>, answers: Seq<bool>) -> Seq<PassStep>
    decreases answers.len(), (if pass.budget == 0 { 1int } else { 0int }),
{
    match pass.step() {
        PassStep::Yield => seq![PassStep::Yield] + steps(pass.yielded(), answers),
        PassStep::Poll => if answers.len() == 0 {
            Seq::empty()
        } else {
            seq![PassStep::Poll] + steps(pass.polled(answers[0]), answers.drop_first())
        },
        PassStep::Finished => Seq::empty(),
    }
}

/// Those of `processes` that answered "still running", in their order.
pub open spec fn kept<P>(processes: Seq<P>, answers: Seq<bool>) -> Seq<P>
    decreases answers.len(),
{
    if answers.len() == 0 {
        Seq::empty()
    } else if answers[0] {
        seq![processes[0]] + kept(processes.drop_first(), answers.drop_first())
    } else {
        kept(processes.drop_first(), answers.drop_first())
    }
}

/// Handing the place at `i` to the last process takes exactly the process at `i` out of those
/// from `i` on.
pub proof fn lemma_swap_remove<P>(zombies: Seq<P>, i: int)
    requires
        0 <= i < zombies.len(),
    ensures
        ({
            let rest = zombies.update(i, zombies.last()).drop_last();
            &&& rest.take(i) == zombies.take(i)
            &&& rest.skip(i).to_multiset().insert(zombies[i]) =~= zombies.skip(i).to_multiset()
        }),
{
    broadcast use vstd::seq_lib::group_to_multiset_ensures;

    let rest = zombies.update(i, zombies.last()).drop_last();
    assert(rest.take(i) =~= zombies.take(i));
    let tail = zombies.skip(i);
    if i == zombies.len() - 1 {
        assert(rest.skip(i) =~= Seq::<P>::empty());
        assert(tail =~= Seq::<P>::empty().push(zombies[i]));
    } else {
        let middle = tail.drop_last().drop_first();
        assert(rest.skip(i) =~= seq![tail.last()] + middle);
        assert(tail =~= (seq![zombies[i]] + middle).push(tail.last()));
        vstd::seq_lib::lemma_multiset_commutative(seq![tail.last()], middle);
        vstd::seq_lib::lemma_multiset_commutative(seq![zombies[i]], middle);
        assert(seq![tail.last()] =~= Seq::<P>::empty().push(tail.last()));
        assert(seq![zombies[i]] =~= Seq::<P>::empty().push(zombies[i]));
    }
}

/// What the rest of a pass does, from any of its states on.
proof fn lemma_rest_of_pass<P>(pass: PassView<P>, answers: Seq<bool>)
    requires
        pass.valid(),
        answers.len() == pass.zombies.len() - pass.next,
    ensures
        drive(pass, answers).step() == PassStep::Finished,
        asked(pass, answers).len() == answers.len(),
        asked(pass, answers).to_multiset() =~= pass.zombies.skip(pass.next).to_multiset(),
        drive(pass, answers).zombies == pass.zombies.take(pass.next) + kept(
            asked(pass, answers),
            answers,
        ),
    decreases answers.len(), (if pass.budget == 0 { 1int } else { 0int }),
{
    broadcast use vstd::seq_lib::group_to_multiset_ensures;

    match pass.step() {
        PassStep::Yield => {
            lemma_rest_of_pass(pass.yielded(), answers);
        },
        PassStep::Poll => {
            let next = pass.polled(answers[0]);
            let order = asked(next, answers.drop_first());
            let current = pass.zombies[pass.next];
            lemma_rest_of_pass(next, answers.drop_first());
            assert((seq![current] + order).drop_first() =~= order);
            vstd::seq_lib::lemma_multiset_commutative(seq![current], order);
            assert(seq![current] =~= Seq::<P>::empty().push(current));
            if answers[0] {
                let rest = pass.zombies.skip(pass.next + 1);
                assert(pass.zombies.take(pass.next + 1) =~= pass.zombies.take(pass.next).push(
                    current,
                ));
                assert(pass.zombies.skip(pass.next) =~= seq![current] + rest);
                vstd::seq_lib::lemma_multiset_commutative(seq![current], rest);
            } else {
                lemma_swap_remove(pass.zombies, pass.next);
            }
        },
        PassStep::Finished => {
            assert(pass.zombies.take(pass.next) =~= pass.zombies);
            assert(pass.zombies.skip(pass.next) =~= Seq::<P>::empty());
        },
    }
}

/// A pass asks every process that was on the list exactly once, and what it leaves are those that
/// answered "still running", in the order in which they were asked.
pub proof fn law_pass_asks_everyone_once<P>(zombies: Seq<P>, answers: Seq<bool>)
    requires
        answers.len() == zombies.len(),
    ensures
        drive(PassView::fresh(zombies), answers).step() == PassStep::Finished,
        asked(PassView::fresh(zombies), answers).len() == zombies.len(),
        asked(PassView::fresh(zombies), answers).to_multiset() == zombies.to_multiset(),
        drive(PassView::fresh(zombies), answers).zombies == kept(
            asked(PassView::fresh(zombies), answers),
            answers,
        ),
{
    lemma_rest_of_pass(PassView::fresh(zombies), answers);
    assert(zombies.skip(0) =~= zombies);
    assert(zombies.take(0) =~= Seq::<P>::empty());
}

proof fn lemma_kept_count<P>(processes: Seq<P>, answers: Seq<bool>, running: spec_fn(P) -> bool)
    requires
        processes.len() == answers.len(),
        forall|i: int| 0 <= i < answers.len() ==> answers[i] == running(#[trigger] processes[i]),
    ensures
        kept(processes, answers).to_multiset() =~= processes.to_multiset().filter(running),
    decreases answers.len(),
{
    broadcast use vstd::seq_lib::group_to_multiset_ensures;

    if answers.len() == 0 {
        assert(processes =~= Seq::<P>::empty());
    } else {
        let first = processes[0];
        let rest = processes.drop_first();
        assert forall|i: int| 0 <= i < rest.len() implies answers.drop_first()[i] == running(
            #[trigger] rest[i],
        ) by {
            assert(rest[i] == processes[i + 1]);
        }
        lemma_kept_count(rest, answers.drop_first(), running);
        assert(processes =~= seq![first] + rest);
        vstd::seq_lib::lemma_multiset_commutative(seq![first], rest);
        vstd::seq_lib::lemma_multiset_commutative(seq![first], kept(rest, answers.drop_first()));
        assert(seq![first] =~= Seq::<P>::empty().push(first));
    }
}

/// A pass reaps exactly the processes that have exited: when every answer is true to `running`,
/// the processes that it leaves are those of the list that run, each as often as before.
pub proof fn law_pass_reaps_exactly_the_exited<P>(
    zombies: Seq<P>,
    answers: Seq<bool>,
    running: spec_fn(P) -> bool,
)
    requires
        answers.len() == zombies.len(),
        forall|i: int|
            0 <= i < answers.len() ==> answers[i] == running(
                #[trigger] asked(PassView::fresh(zombies), answers)[i],
            ),
    ensures
        drive(PassView::fresh(zombies), answers).zombies.to_multiset()
            == zombies.to_multiset().filter(running),
{
    law_pass_asks_everyone_once(zombies, answers);
    lemma_kept_count(asked(PassView::fresh(zombies), answers), answers, running);
}

/// Nothing that runs is lost between two looks at the list. With `zombies` taken for a pass,
/// answers true to `running`, and `added` pushed while the pass was under way, the list afterwards
/// holds the running ones of `zombies` and all of `added`, and nothing else.
pub proof fn law_round_loses_no_running_process<P>(
    zombies: Seq<P>,
    added: Seq<P>,
    answers: Seq<bool>,
    running: spec_fn(P) -> bool,
)
    requires
        answers.len() == zombies.len(),
        forall|i: int|
            0 <= i < answers.len() ==> answers[i] == running(
                #[trigger] asked(PassView::fresh(zombies), answers)[i],
            ),
    ensures
        (drive(PassView::fresh(zombies), answers).zombies + added).to_multiset()
            == zombies.to_multiset().filter(running).add(added.to_multiset()),
{
    law_pass_reaps_exactly_the_exited(zombies, answers, running);
    vstd::seq_lib::lemma_multiset_commutative(
        drive(PassView::fresh(zombies), answers).zombies,
        added,
    );
}

proof fn lemma_yields<P>(pass: PassView<P>, answers: Seq<bool>, k: int)
    requires
        pass.valid(),
        0 <= k < steps(pass, answers).len(),
    ensures
        steps(pass, answers)[k] == PassStep::Yield <==> (k + BATCH - pass.budget) % (BATCH + 1)
            == BATCH,
    decreases answers.len(), (if pass.budget == 0 { 1int } else { 0int }),
{
    if k > 0 {
        match pass.step() {
            PassStep::Yield => {
                lemma_yields(pass.yielded(), answers, k - 1);
                assert((k + BATCH) % (BATCH + 1) == (k - 1) % (BATCH + 1));
            },
            PassStep::Poll => {
                lemma_yields(pass.polled(answers[0]), answers.drop_first(), k - 1);
            },
            PassStep::Finished => {},
        }
    }
}

/// A pass never starves other tasks: it yields after every full batch of questions, and at no
/// other time.
pub proof fn law_pass_yields_after_each_batch<P>(zombies: Seq<P>, answers: Seq<bool>, k: int)
    requires
        0 <= k < steps(PassView::fresh(zombies), answers).len(),
    ensures
        steps(PassView::fresh(zombies), answers)[k] == PassStep::Yield <==> k % (BATCH + 1)
            == BATCH,
{
    lemma_yields(PassView::fresh(zombies), answers, k);
}

/// An answer says that a process still runs only if it says that there is no exit status yet: a
/// status says that it has exited, and an error that there is nothing left to wait for.
pub proof fn law_only_no_status_means_running<S, X>(status: S, error: X)
    ensures
        crate::zombies::still_running(Ok::<Option<S>, X>(None)),
        !crate::zombies::still_running(Ok::<Option<S>, X>(Some(status))),
        !crate::zombies::still_running(Err::<Option<S>, X>(error)),
{
}

/// A pass begins with every process yet to be asked and a full batch of a hundred before the first
/// yield.
pub proof fn law_passes_begin_at_the_beginning<P>(zombies: Seq<P>)
    ensures
        PassView::fresh(zombies).zombies == zombies,
        PassView::fresh(zombies).next == 0,
        PassView::fresh(zombies).budget == 100,
        PassView::fresh(zombies).valid(),
{
}

/// One question settles one process: there is one fewer to be asked, those before it stay as they
/// are, and the process that was asked stays on the list if and only if it runs. Only a yield
/// restores the batch.
pub proof fn law_one_question_settles_one_process<P>(pass: PassView<P>, running: bool)
    requires
        pass.valid(),
        pass.step() == PassStep::Poll,
    ensures
        ({
            let after = pass.polled(running);
            &&& after.valid()
            &&& after.zombies.len() - after.next == pass.zombies.len() - pass.next - 1
            &&& after.budget == pass.budget - 1
            &&& forall|i: int|
                0 <= i < pass.next ==> #[trigger] after.zombies[i] == pass.zombies[i]
            &&& running ==> after.zombies == pass.zombies
            &&& !running ==> after.zombies.to_multiset().insert(pass.zombies[pass.next])
                == pass.zombies.to_multiset()
        }),
        pass.yielded().zombies == pass.zombies,
        pass.yielded().next == pass.next,
        pass.yielded().budget == BATCH,
{
    broadcast use vstd::seq_lib::group_to_multiset_ensures;

    if !running {
        let rest = pass.polled(false).zombies;
        lemma_swap_remove(pass.zombies, pass.next);
        assert(pass.zombies =~= pass.zombies.take(pass.next) + pass.zombies.skip(pass.next));
        assert(rest =~= rest.take(pass.next) + rest.skip(pass.next));
        vstd::seq_lib::lemma_multiset_commutative(
            pass.zombies.take(pass.next),
            pass.zombies.skip(pass.next),
        );
        vstd::seq_lib::lemma_multiset_commutative(rest.take(pass.next), rest.skip(pass.next));
        assert(rest.to_multiset().insert(pass.zombies[pass.next]) =~= pass.zombies.to_multiset());
    }
}

/// A pass that is neither over nor due for a yield asks: it is over only when everybody has been
/// asked, and yields only when its batch is used up.
pub proof fn law_a_pass_goes_on_until_everybody_was_asked<P>(pass: PassView<P>)
    requires
        pass.valid(),
    ensures
        pass.step() == PassStep::Finished ==> pass.next == pass.zombies.len(),
        pass.step() == PassStep::Poll ==> pass.next < pass.zombies.len() && pass.budget > 0,
        pass.step() == PassStep::Yield <==> pass.budget == 0,
{
}

proof fn lemma_number_of_steps<P>(pass: PassView<P>, answers: Seq<bool>)
    requires
        pass.valid(),
        answers.len() == pass.zombies.len() - pass.next,
    ensures
        steps(pass, answers).len() == answers.len() + (answers.len() + BATCH - pass.budget) / (
        BATCH as int),
    decreases answers.len(), (if pass.budget == 0 { 1int } else { 0int }),
{
    match pass.step() {
        PassStep::Yield => {
            lemma_number_of_steps(pass.yielded(), answers);
        },
        PassStep::Poll => {
            lemma_number_of_steps(pass.polled(answers[0]), answers.drop_first());
        },
        PassStep::Finished => {},
    }
}

/// A pass over `n` processes takes `n` questions and a yield for every full batch of them, and is
/// over after that.
pub proof fn law_a_pass_takes_so_many_steps<P>(zombies: Seq<P>, answers: Seq<bool>)
    requires
        answers.len() == zombies.len(),
    ensures
        steps(PassView::fresh(zombies), answers).len() == zombies.len() + zombies.len() / (
        BATCH as nat),
        drive(PassView::fresh(zombies), answers).step() == PassStep::Finished,
{
    lemma_number_of_steps(PassView::fresh(zombies), answers);
    law_pass_asks_everyone_once(zombies, answers);
}

} // verus!
