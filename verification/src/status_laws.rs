//! What a wait for an exit status keeps true, whatever the process and the reaper do.

use vstd::prelude::*;
use crate::event::Listener;
use crate::status::{StatusState, StatusStep};
use crate::system::System;

verus! {

/// Something that happens to a wait.
pub enum StatusEvent<T: System> {
    /// `try_wait` answered.
    Answered(Result<Option<T::ExitStatus>, T::Error>),
    /// A listener was registered for `SIGCHLD`.
    Listening(Listener),
    /// The reaper was driven.
    Driven,
    /// The listener was notified.
    Woken,
}

impl<T: System> StatusState<T> {
    /// Whether `event` can happen now.
    pub open spec fn admits(self, event: StatusEvent<T>) -> bool {
        match event {
            StatusEvent::Answered(_) => self.step() == StatusStep::TryWait,
            StatusEvent::Listening(_) => self.step() == StatusStep::Listen,
            StatusEvent::Driven => self.step() == StatusStep::Drive,
            StatusEvent::Woken => self.step() == StatusStep::Sleep,
        }
    }

    /// What `event` leads to.
    pub open spec fn after(self, event: StatusEvent<T>) -> StatusState<T> {
        match event {
            StatusEvent::Answered(answer) => self.checked(answer),
            StatusEvent::Listening(listener) => StatusState::Drive(listener),
            StatusEvent::Driven => StatusState::Check(Some(self->Drive_0)),
            StatusEvent::Woken => StatusState::Check(None),
        }
    }

    /// What a history leads to, from the beginning of a wait.
    pub open spec fn run(history: Seq<StatusEvent<T>>) -> StatusState<T>
        decreases history.len(),
    {
        if history.len() == 0 {
            StatusState::Check(None)
        } else {
            StatusState::run(history.drop_last()).after(history.last())
        }
    }

    /// Whether everything in a history could happen when it did.
    pub open spec fn possible(history: Seq<StatusEvent<T>>) -> bool
        decreases history.len(),
    {
        history.len() == 0 || {
            &&& StatusState::possible(history.drop_last())
            &&& StatusState::run(history.drop_last()).admits(history.last())
        }
    }
}

proof fn lemma_listening<T: System>(history: Seq<StatusEvent<T>>, listener: Listener)
    requires
        StatusState::possible(history),
        StatusState::run(history) == StatusState::<T>::Check(Some(listener)),
    ensures
        history.len() >= 2,
        history[history.len() - 1] == StatusEvent::<T>::Driven,
        history[history.len() - 2] == StatusEvent::<T>::Listening(listener),
{
    let before = history.drop_last();
    assert(before.last() == StatusEvent::<T>::Listening(listener));
}

/// A wait goes to sleep only on a listener that was registered before the reaper was driven, which
/// in turn was before the process was last asked, and that last answer was "still running". An exit
/// after that answer finds the listener registered and the reaper driven.
pub proof fn law_asks_again_before_sleeping<T: System>(
    history: Seq<StatusEvent<T>>,
    listener: Listener,
)
    requires
        StatusState::possible(history),
        StatusState::run(history) == StatusState::<T>::Sleep(listener),
    ensures
        history.len() >= 3,
        history[history.len() - 1] == StatusEvent::<T>::Answered(Ok(None)),
        history[history.len() - 2] == StatusEvent::<T>::Driven,
        history[history.len() - 3] == StatusEvent::<T>::Listening(listener),
{
    lemma_listening(history.drop_last(), listener);
}

/// A wait ends with the first answer that is not "still running", be it an exit status or an error,
/// and with nothing else: every answer before it was "still running".
pub proof fn law_first_answer_ends_the_wait<T: System>(
    history: Seq<StatusEvent<T>>,
    result: Result<T::ExitStatus, T::Error>,
)
    requires
        StatusState::possible(history),
        StatusState::run(history) == StatusState::<T>::Done(result),
    ensures
        history.len() > 0,
        history.last() == StatusEvent::<T>::Answered(
            match result {
                Ok(status) => Ok(Some(status)),
                Err(error) => Err(error),
            },
        ),
        forall|i: int|
            0 <= i < history.len() - 1 && #[trigger] history[i] is Answered ==> history[i]
                == StatusEvent::<T>::Answered(Ok(None)),
{
    assert(!(StatusState::run(history.drop_last()) is Done));
    lemma_pending(history.drop_last());
    assert forall|i: int|
        0 <= i < history.len() - 1 && #[trigger] history[i] is Answered implies history[i]
        == StatusEvent::<T>::Answered(Ok(None)) by {
        assert(history.drop_last()[i] == history[i]);
    }
}

proof fn lemma_pending<T: System>(history: Seq<StatusEvent<T>>)
    requires
        StatusState::possible(history),
        !(StatusState::run(history) is Done),
    ensures
        forall|i: int|
            0 <= i < history.len() && #[trigger] history[i] is Answered ==> history[i]
                == StatusEvent::<T>::Answered(Ok(None)),
    decreases history.len(),
{
    if history.len() > 0 {
        let before = history.drop_last();
        lemma_pending(before);
        assert forall|i: int|
            0 <= i < history.len() && #[trigger] history[i] is Answered implies history[i]
            == StatusEvent::<T>::Answered(Ok(None)) by {
            if i < before.len() {
                assert(before[i] == history[i]);
            }
        }
    }
}

/// What is remembered of a process's exit after everybody asked whom the system would have told
/// `system`, in turn.
pub open spec fn memory<S, X>(system: Seq<Result<Option<S>, X>>) -> Option<S>
    decreases system.len(),
{
    if system.len() == 0 {
        None
    } else {
        crate::exit::remembered(memory(system.drop_last()), system.last())
    }
}

/// What those are told who ask about one process, in their order, be it by waiting or by
/// [`Child::try_status`][crate::Child::try_status], when the system would have told them `system`.
pub open spec fn answers<S, X>(system: Seq<Result<Option<S>, X>>) -> Seq<Result<Option<S>, X>> {
    Seq::new(
        system.len(),
        |i: int| crate::exit::told(memory(system.take(i)), system[i]),
    )
}

proof fn lemma_status_stays<S, X>(system: Seq<Result<Option<S>, X>>, i: int, j: int, status: S)
    requires
        0 <= i < j <= system.len(),
        answers(system)[i] == Ok::<Option<S>, X>(Some(status)),
    ensures
        memory(system.take(j)) == Some(status),
    decreases j,
{
    let before = system.take(j).drop_last();
    assert(before =~= system.take(j - 1));
    if i < j - 1 {
        lemma_status_stays(system, i, j - 1, status);
    }
}

/// An exit status stays what it is: once anybody who asks about a process is told that it exited
/// with `status`, everybody who asks later is told the same, whatever the system would say by then.
pub proof fn law_later_answers_give_the_same_status<S, X>(
    system: Seq<Result<Option<S>, X>>,
    i: int,
    j: int,
    status: S,
)
    requires
        0 <= i < j < system.len(),
        answers(system)[i] == Ok::<Option<S>, X>(Some(status)),
    ensures
        answers(system)[j] == Ok::<Option<S>, X>(Some(status)),
{
    lemma_status_stays(system, i, j, status);
}

/// Once anybody who asks about a process is told that it exited with `status`, be it by waiting or
/// by asking, every wait that asks only after that ends with its first answer, and with `status`.
pub proof fn law_later_waits_give_the_same_status<T: System>(
    system: Seq<Result<Option<T::ExitStatus>, T::Error>>,
    at: int,
    status: T::ExitStatus,
    history: Seq<StatusEvent<T>>,
)
    requires
        0 <= at < system.len(),
        answers(system)[at] == Ok::<Option<T::ExitStatus>, T::Error>(Some(status)),
        StatusState::possible(history),
        history.len() > 0,
        forall|i: int|
            0 <= i < history.len() && (#[trigger] history[i] matches StatusEvent::Answered(answer))
                ==> exists|j: int|
                at < j < system.len() && #[trigger] answers(system)[j] == history[i]->Answered_0,
    ensures
        StatusState::run(history) == StatusState::<T>::Done(Ok(status)),
        history.len() == 1,
    decreases history.len(),
{
    let before = history.drop_last();
    if before.len() > 0 {
        assert forall|i: int|
            0 <= i < before.len() && (#[trigger] before[i] matches StatusEvent::Answered(answer))
            implies exists|j: int|
            at < j < system.len() && #[trigger] answers(system)[j] == before[i]->Answered_0 by {
            assert(before[i] == history[i]);
        }
        law_later_waits_give_the_same_status(system, at, status, before);
    } else {
        assert(history[0] is Answered);
        let j = choose|j: int|
            at < j < system.len() && #[trigger] answers(system)[j] == history[0]->Answered_0;
        law_later_answers_give_the_same_status(system, at, j, status);
        assert(history.last() == history[0]);
    }
}

/// What a wait does next follows from where it stands, whatever it has learnt: a wait that is over
/// is finished, and no other is.
pub proof fn law_a_wait_that_is_over_is_finished<T: System>(state: StatusState<T>)
    ensures
        state.step() == StatusStep::Finish <==> state is Done,
        state.step() == StatusStep::TryWait <==> state is Check,
        state.step() == StatusStep::Listen <==> state is Listen,
        state.step() == StatusStep::Drive <==> state is Drive,
        state.step() == StatusStep::Sleep <==> state is Sleep,
{
}

/// Every answer is heeded, whether the wait listens or not: a status ends the wait with that
/// status, an error with that error, and "still running" does not end it. A wait that listens keeps
/// its listener to sleep on; one that does not yet is to listen first.
pub proof fn law_every_answer_is_heeded<T: System>(
    listener: Option<Listener>,
    status: T::ExitStatus,
    error: T::Error,
)
    ensures
        ({
            let state = StatusState::<T>::Check(listener);
            &&& state.checked(Ok(Some(status))) == StatusState::<T>::Done(Ok(status))
            &&& state.checked(Err(error)) == StatusState::<T>::Done(Err(error))
            &&& listener is None ==> state.checked(Ok(None)) is Listen
            &&& listener matches Some(listener) ==> state.checked(Ok(None)) == StatusState::<
                T,
            >::Sleep(listener)
        }),
{
}

/// As long as no exit is remembered, whoever asks is told what the system says, and an exit that
/// the system tells of is remembered. Once one is remembered, that is what everybody is told.
pub proof fn law_what_is_told_is_what_the_system_said<S, X>(
    status: S,
    system: Result<Option<S>, X>,
)
    ensures
        crate::exit::told(None::<S>, system) == system,
        crate::exit::told(Some(status), system) == Ok::<Option<S>, X>(Some(status)),
        crate::exit::remembered(Some(status), system) == Some(status),
        crate::exit::remembered(None::<S>, Ok::<Option<S>, X>(Some(status))) == Some(status),
        crate::exit::remembered(None::<S>, Ok::<Option<S>, X>(None)) is None,
        system is Err ==> crate::exit::remembered(None::<S>, system) is None,
{
}

} // verus!
