use async_process::{Completion, Pipe, PipeCall, PipeWait};
use std::time::Duration;

fn complete(pipe: &Pipe) {
    let completion = pipe.completed().advance(pipe).advance(pipe);
    assert!(matches!(completion, Completion::Done(..)));
}

#[test]
fn a_counted_exit_ends_the_wait() {
    let pipe = Pipe::new();
    complete(&pipe);
    let (wait, call) = pipe.wait().advance(&pipe);
    assert!(matches!(wait, PipeWait::Exchange(1)));
    assert!(matches!(call, PipeCall::Loaded(loaded) if loaded.value() == 1));
    let (wait, call) = wait.advance(&pipe);
    assert!(matches!(wait, PipeWait::Done));
    assert!(matches!(call, PipeCall::Exchanged(exchanged) if exchanged.result() == Ok(1)));
    // That exit has been used up.
    assert!(matches!(pipe.wait().advance(&pipe).0, PipeWait::Listen));
}

#[test]
fn each_exit_ends_one_wait() {
    let pipe = Pipe::new();
    for _ in 0..3 {
        complete(&pipe);
    }
    for _ in 0..3 {
        let wait = pipe.wait().advance(&pipe).0;
        assert!(matches!(wait.advance(&pipe).0, PipeWait::Done));
    }
    assert!(matches!(pipe.wait().advance(&pipe).0, PipeWait::Listen));
}

#[test]
fn a_lost_race_is_run_again() {
    let pipe = Pipe::new();
    complete(&pipe);
    let wait = pipe.wait().advance(&pipe).0;
    complete(&pipe);
    // The count is no longer what it was read to be.
    let (wait, call) = wait.advance(&pipe);
    assert!(matches!(call, PipeCall::Exchanged(exchanged) if exchanged.result() == Err(2)));
    assert!(matches!(wait, PipeWait::Exchange(2)));
    assert!(matches!(wait.advance(&pipe).0, PipeWait::Done));
    assert!(matches!(pipe.wait().advance(&pipe).0, PipeWait::Exchange(1)));
}

#[test]
fn an_exit_while_the_listener_is_registered_is_seen() {
    let pipe = Pipe::new();
    let (wait, call) = pipe.wait().advance(&pipe).0.advance(&pipe);
    assert!(matches!(wait, PipeWait::Recheck(_)));
    assert!(matches!(call, PipeCall::Listened));
    complete(&pipe);
    assert!(matches!(wait.advance(&pipe).0, PipeWait::Exchange(1)));
}

#[test]
fn an_exit_wakes_the_sleeper() {
    let pipe = Pipe::new();
    let wait = pipe.wait().advance(&pipe).0.advance(&pipe).0.advance(&pipe).0;
    // Sleeping takes no more calls.
    let (wait, call) = wait.advance(&pipe);
    assert!(matches!(call, PipeCall::Nothing));
    let listener = match wait {
        PipeWait::Sleep(listener) => listener.into_inner(),
        _ => panic!(),
    };
    complete(&pipe);
    assert!(listener.wait_timeout(Duration::from_secs(5)));
    let wait = PipeWait::woken().advance(&pipe).0;
    assert!(matches!(wait.advance(&pipe).0, PipeWait::Done));
    assert!(matches!(PipeWait::Done.advance(&pipe).0, PipeWait::Done));
}

#[test]
fn every_sleeper_is_woken_and_one_gets_the_exit() {
    let pipe = Pipe::new();
    let asleep = || match pipe.wait().advance(&pipe).0.advance(&pipe).0.advance(&pipe).0 {
        PipeWait::Sleep(listener) => listener.into_inner(),
        _ => panic!(),
    };
    let (first, second) = (asleep(), asleep());
    complete(&pipe);
    assert!(first.wait_timeout(Duration::from_secs(5)));
    assert!(second.wait_timeout(Duration::from_secs(5)));
    let (one, other) = (pipe.wait().advance(&pipe).0, pipe.wait().advance(&pipe).0);
    assert!(matches!(one.advance(&pipe).0, PipeWait::Done));
    assert!(matches!(other.advance(&pipe).0, PipeWait::Listen));
}

#[test]
fn what_a_count_leads_to() {
    assert!(matches!(PipeWait::loaded(0), PipeWait::Listen));
    assert!(matches!(PipeWait::loaded(4), PipeWait::Exchange(4)));
    assert!(matches!(PipeWait::exchanged(Ok(4)), PipeWait::Done));
    assert!(matches!(PipeWait::exchanged(Err(4)), PipeWait::Exchange(4)));
    assert!(matches!(PipeWait::exchanged(Err(0)), PipeWait::Listen));
}

#[test]
fn an_exit_is_counted_before_it_is_announced() {
    let pipe = Pipe::new();
    let asleep = || match pipe.wait().advance(&pipe).0.advance(&pipe).0.advance(&pipe).0 {
        PipeWait::Sleep(listener) => listener.into_inner(),
        _ => panic!(),
    };
    let (first, second) = (asleep(), asleep());
    let completion = pipe.completed();
    assert!(matches!(completion, Completion::Count));
    let completion = completion.advance(&pipe);
    assert!(matches!(completion, Completion::Wake(_)));
    assert!(matches!(pipe.wait().advance(&pipe).0, PipeWait::Exchange(1)));
    assert!(!first.wait_timeout(Duration::from_millis(20)));
    assert!(matches!(completion.advance(&pipe), Completion::Done(..)));
    assert!(second.wait_timeout(Duration::from_secs(5)));
}
