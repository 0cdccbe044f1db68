//! What the collection of a process's output keeps true.

use vstd::prelude::*;
use crate::output::{Output, OutputState, OutputStep};
use crate::status::StatusState;
use crate::status_laws::StatusEvent;
use crate::system::System;

verus! {

/// Something that happens to the collection of a process's output.
pub enum OutputEvent<T: System> {
    /// The streams were taken to be read.
    Taken,
    /// The reading of both streams ended.
    Collected(Result<(Vec<u8>, Vec<u8>), T::Error>),
    /// Something happened to the wait for the exit status.
    Status(StatusEvent<T>),
}

/// A collection with its wait for the exit status.
pub struct Collection<T: System> {
    pub state: OutputState<T>,
    pub waiting: StatusState<T>,
}

impl<T: System> Collection<T> {
    /// A collection about to begin.
    pub open spec fn start(stdout: Option<T::Stdout>, stderr: Option<T::Stderr>) -> Collection<T> {
        Collection { state: OutputState::Read(stdout, stderr), waiting: StatusState::Check(None) }
    }

    /// What comes next.
    pub open spec fn step(self) -> OutputStep {
        self.state.step(self.waiting)
    }

    /// Whether `event` can happen now.
    pub open spec fn admits(self, event: OutputEvent<T>) -> bool {
        match event {
            OutputEvent::Taken => self.step() == OutputStep::Read,
            OutputEvent::Collected(_) => self.step() == OutputStep::Reading,
            OutputEvent::Status(event) => self.step() is Status && self.waiting.admits(event),
        }
    }

    /// What `event` leads to.
    pub open spec fn after(self, event: OutputEvent<T>) -> Collection<T> {
        match event {
            OutputEvent::Taken => Collection { state: OutputState::Reading, ..self },
            OutputEvent::Collected(read) => Collection {
                state: self.state.collected(read),
                ..self
            },
            OutputEvent::Status(event) => Collection { waiting: self.waiting.after(event), ..self },
        }
    }

    /// What a history leads to.
    pub open spec fn run(self, history: Seq<OutputEvent<T>>) -> Collection<T>
        decreases history.len(),
    {
        if history.len() == 0 {
            self
        } else {
            self.run(history.drop_last()).after(history.last())
        }
    }

    /// Whether everything in a history could happen when it did.
    pub open spec fn possible(self, history: Seq<OutputEvent<T>>) -> bool
        decreases history.len(),
    {
        history.len() == 0 || {
            &&& self.possible(history.drop_last())
            &&& self.run(history.drop_last()).admits(history.last())
        }
    }
}

/// What the first events of a collection have been, by the state it is in.
spec fn beginning<T: System>(now: Collection<T>, history: Seq<OutputEvent<T>>) -> bool {
    &&& now.state is Read ==> history.len() == 0 && now.waiting == StatusState::<T>::Check(None)
    &&& now.state is Reading ==> history.len() == 1 && history[0] is Taken && now.waiting
        == StatusState::<T>::Check(None)
    &&& now.state matches OutputState::Status(stdout, stderr) ==> history.len() >= 2 && history[1]
        == OutputEvent::<T>::Collected(Ok((stdout, stderr)))
    &&& now.state matches OutputState::Failed(error) ==> history.len() == 2 && history[1]
        == OutputEvent::<T>::Collected(Err(error))
}

proof fn lemma_beginning<T: System>(
    stdout: Option<T::Stdout>,
    stderr: Option<T::Stderr>,
    history: Seq<OutputEvent<T>>,
)
    requires
        Collection::start(stdout, stderr).possible(history),
    ensures
        beginning(Collection::start(stdout, stderr).run(history), history),
        forall|i: int| 0 <= i < history.len() && #[trigger] history[i] is Status ==> i >= 2,
    decreases history.len(),
{
    if history.len() > 0 {
        let before = history.drop_last();
        lemma_beginning(stdout, stderr, before);
        assert forall|i: int| 0 <= i < history.len() && #[trigger] history[i] is Status implies i
            >= 2 by {
            if i < before.len() {
                assert(before[i] == history[i]);
            }
        }
        if before.len() > 1 {
            assert(before[1] == history[1]);
        }
    }
}

/// The exit status is asked for only after both streams have been read to their end, so that a
/// process that is still writing is never waited for; and when reading fails, it is not asked for
/// at all.
pub proof fn law_streams_end_before_the_status_is_asked<T: System>(
    stdout: Option<T::Stdout>,
    stderr: Option<T::Stderr>,
    history: Seq<OutputEvent<T>>,
    i: int,
)
    requires
        Collection::start(stdout, stderr).possible(history),
        0 <= i < history.len(),
        history[i] is Status,
    ensures
        i >= 2,
        history[1] matches OutputEvent::Collected(Ok(_)),
{
    lemma_beginning(stdout, stderr, history);
    lemma_status_follows(stdout, stderr, history, i);
}

proof fn lemma_status_follows<T: System>(
    stdout: Option<T::Stdout>,
    stderr: Option<T::Stderr>,
    history: Seq<OutputEvent<T>>,
    i: int,
)
    requires
        Collection::start(stdout, stderr).possible(history),
        0 <= i < history.len(),
        history[i] is Status,
    ensures
        Collection::start(stdout, stderr).run(history).state is Status,
        history[1] matches OutputEvent::Collected(Ok(_)),
    decreases history.len(),
{
    let before = history.drop_last();
    lemma_beginning(stdout, stderr, before);
    lemma_beginning(stdout, stderr, history);
    if i < before.len() {
        assert(before[i] == history[i]);
        lemma_status_follows(stdout, stderr, before, i);
    }
}

/// A collection that succeeds returns exactly what the two streams brought and the status that the
/// wait ended with.
pub proof fn law_output_is_what_was_read<T: System>(
    stdout: Option<T::Stdout>,
    stderr: Option<T::Stderr>,
    history: Seq<OutputEvent<T>>,
    output: Output<T::ExitStatus>,
)
    requires
        Collection::start(stdout, stderr).possible(history),
        Collection::start(stdout, stderr).run(history).step() == OutputStep::Finish,
        ({
            let end = Collection::start(stdout, stderr).run(history);
            end.state.result(end.waiting) == Ok::<Output<T::ExitStatus>, T::Error>(output)
        }),
    ensures
        history.len() >= 2,
        history[1] == OutputEvent::<T>::Collected(Ok((output.stdout, output.stderr))),
        Collection::start(stdout, stderr).run(history).waiting == StatusState::<T>::Done(
            Ok(output.status),
        ),
{
    lemma_beginning(stdout, stderr, history);
}

/// As soon as both streams have been read and the wait for the exit status is over, the collection
/// is finished, whatever was read and however much; and it is finished as soon as reading failed.
/// It is finished in no other case.
pub proof fn law_a_collection_is_finished_when_everything_is_there<T: System>(
    state: OutputState<T>,
    waiting: StatusState<T>,
)
    ensures
        state is Status && waiting is Done ==> state.step(waiting) == OutputStep::Finish,
        state is Failed ==> state.step(waiting) == OutputStep::Finish,
        state.step(waiting) == OutputStep::Finish ==> state is Failed || (state is Status
            && waiting is Done),
        state is Status && !(waiting is Done) ==> state.step(waiting) == OutputStep::Status(
            waiting.step(),
        ),
        state is Read ==> state.step(waiting) == OutputStep::Read,
        state is Reading ==> state.step(waiting) == OutputStep::Reading,
{
}

/// A finished collection returns what was read, byte for byte, with the status that the wait ended
/// with; an error of the wait or of the reading is returned in place of that.
pub proof fn law_a_collection_returns_everything<T: System>(
    stdout: Vec<u8>,
    stderr: Vec<u8>,
    status: T::ExitStatus,
    error: T::Error,
    waiting: StatusState<T>,
)
    ensures
        OutputState::<T>::Status(stdout, stderr).result(StatusState::Done(Ok(status))) == Ok::<
            Output<T::ExitStatus>,
            T::Error,
        >(Output { status, stdout, stderr }),
        OutputState::<T>::Status(stdout, stderr).result(StatusState::Done(Err(error))) == Err::<
            Output<T::ExitStatus>,
            T::Error,
        >(error),
        OutputState::<T>::Failed(error).result(waiting) == Err::<
            Output<T::ExitStatus>,
            T::Error,
        >(error),
        OutputState::<T>::Reading.collected(Ok((stdout, stderr))) == OutputState::<T>::Status(
            stdout,
            stderr,
        ),
        OutputState::<T>::Reading.collected(Err(error)) == OutputState::<T>::Failed(error),
{
}

spec fn distance<T: System>(collection: Collection<T>) -> int {
    match collection.state {
        OutputState::Failed(_) => 0,
        OutputState::Status(..) => match collection.waiting {
            StatusState::Done(_) => 0,
            StatusState::Check(_) => 1,
            StatusState::Drive(_) => 2,
            StatusState::Sleep(_) => 2,
            StatusState::Listen => 3,
        },
        OutputState::Reading => 4,
        OutputState::Read(..) => 5,
    }
}

spec fn next_event<T: System>(
    collection: Collection<T>,
    read: (Vec<u8>, Vec<u8>),
    status: T::ExitStatus,
) -> OutputEvent<T> {
    match collection.state {
        OutputState::Read(..) => OutputEvent::Taken,
        OutputState::Reading => OutputEvent::Collected(Ok(read)),
        _ => OutputEvent::Status(
            match collection.waiting {
                StatusState::Check(_) => StatusEvent::Answered(Ok(Some(status))),
                StatusState::Listen => StatusEvent::Listening(arbitrary()),
                StatusState::Drive(_) => StatusEvent::Driven,
                _ => StatusEvent::Woken,
            },
        ),
    }
}

/// What a collection that goes on from `now` in this way ends with.
spec fn outcome<T: System>(
    now: Collection<T>,
    read: (Vec<u8>, Vec<u8>),
    status: T::ExitStatus,
) -> Result<Output<T::ExitStatus>, T::Error> {
    if now.step() == OutputStep::Finish {
        now.state.result(now.waiting)
    } else {
        match now.state {
            OutputState::Status(stdout, stderr) => Ok(Output { status, stdout, stderr }),
            _ => Ok(Output { status, stdout: read.0, stderr: read.1 }),
        }
    }
}

proof fn lemma_collection_can_end<T: System>(
    start: Collection<T>,
    history: Seq<OutputEvent<T>>,
    read: (Vec<u8>, Vec<u8>),
    status: T::ExitStatus,
) -> (longer: Seq<OutputEvent<T>>)
    requires
        start.possible(history),
        start.run(history).state is Read || start.run(history).state is Reading ==> !(start.run(
            history,
        ).waiting is Done),
    ensures
        history.len() <= longer.len(),
        forall|i: int| 0 <= i < history.len() ==> #[trigger] longer[i] == history[i],
        start.possible(longer),
        start.run(longer).step() == OutputStep::Finish,
        start.run(longer).state.result(start.run(longer).waiting) == outcome(
            start.run(history),
            read,
            status,
        ),
    decreases distance(start.run(history)),
{
    let now = start.run(history);
    if now.step() == OutputStep::Finish {
        history
    } else {
        let event = next_event(now, read, status);
        let next = history.push(event);
        assert(next.drop_last() =~= history);
        assert(start.run(next) == now.after(event));
        let longer = lemma_collection_can_end(start, next, read, status);
        assert forall|i: int| 0 <= i < history.len() implies #[trigger] longer[i] == history[i] by {
            assert(longer[i] == next[i]);
        }
        longer
    }
}

/// A collection can always come to its end: whatever has happened so far, when the streams bring
/// `read` and the process is found to have exited with `status`, it ends with just that, or with
/// what the streams have already brought in place of `read`.
pub proof fn law_a_collection_can_end<T: System>(
    stdout: Option<T::Stdout>,
    stderr: Option<T::Stderr>,
    history: Seq<OutputEvent<T>>,
    read: (Vec<u8>, Vec<u8>),
    status: T::ExitStatus,
)
    requires
        Collection::start(stdout, stderr).possible(history),
        Collection::start(stdout, stderr).run(history).step() != OutputStep::Finish,
    ensures
        exists|longer: Seq<OutputEvent<T>>|
            {
                let end = Collection::start(stdout, stderr).run(longer);
                &&& history.len() <= longer.len()
                &&& forall|i: int| 0 <= i < history.len() ==> #[trigger] longer[i] == history[i]
                &&& #[trigger] Collection::start(stdout, stderr).possible(longer)
                &&& end.step() == OutputStep::Finish
                &&& end.state.result(end.waiting) == Ok::<Output<T::ExitStatus>, T::Error>(
                    match Collection::start(stdout, stderr).run(history).state {
                        OutputState::Status(out, err) => Output {
                            status,
                            stdout: out,
                            stderr: err,
                        },
                        _ => Output { status, stdout: read.0, stderr: read.1 },
                    },
                )
            },
{
    lemma_beginning(stdout, stderr, history);
    let longer = lemma_collection_can_end(
        Collection::start(stdout, stderr),
        history,
        read,
        status,
    );
    assert(Collection::start(stdout, stderr).possible(longer));
}

} // verus!
