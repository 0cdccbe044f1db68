use async_process::{
    child, stream_bytes, Child, Command, Disposal, DropPolicy, KillError, Killing, Launch,
    OutputStep, OutputWait, Reaper, Remembered, Spawned, StatusStep, System,
};
use std::time::Duration;

struct Fake;

impl System for Fake {
    type Process = &'static str;
    type Stdin = &'static str;
    type Stdout = &'static str;
    type Stderr = &'static str;
    type ExitStatus = i32;
    type Error = &'static str;
}

fn spawned(command: &mut Command) -> Launch<Fake> {
    command.spawn().spawned(Ok(Spawned { id: 42, process: "process" }))
}

fn driven(launch: Launch<Fake>) -> Launch<Fake> {
    launch.drive(&Reaper::new()).0
}

fn launched(command: &mut Command) -> Child<Fake> {
    let launch = spawned(command)
        .stdin_wrapped(Ok(Some("stdin")))
        .stdout_wrapped(Ok(Some("stdout")))
        .stderr_wrapped(Ok(Some("stderr")));
    match driven(launch).registered(Ok(())) {
        Launch::Done(Ok(child)) => child,
        _ => panic!(),
    }
}

fn failure(launch: Launch<Fake>) -> &'static str {
    match launch {
        Launch::Done(Err(error)) => error,
        _ => panic!(),
    }
}

#[test]
fn a_launch_ends_with_the_child() {
    let child = launched(&mut Command::new(b"ls"));
    assert_eq!(child.id(), 42);
    assert_eq!(child.stdin, Some("stdin"));
    assert_eq!(child.stdout, Some("stdout"));
    assert_eq!(child.stderr, Some("stderr"));
    assert_eq!(child.child.process, "process");
    assert_eq!(child.child.policy, DropPolicy { reap_on_drop: true, kill_on_drop: false });
}

#[test]
fn a_stream_that_was_not_captured_is_missing() {
    let launch = spawned(&mut Command::new(b"ls"))
        .stdin_wrapped(Ok(None))
        .stdout_wrapped(Ok(Some("stdout")))
        .stderr_wrapped(Ok(None));
    match driven(launch).registered(Ok(())) {
        Launch::Done(Ok(child)) => {
            assert_eq!((child.stdin, child.stdout, child.stderr), (None, Some("stdout"), None))
        }
        _ => panic!(),
    }
}

#[test]
fn the_first_failure_ends_the_launch() {
    let mut cmd = Command::new(b"ls");
    assert_eq!(failure(cmd.spawn().spawned(Err("spawn"))), "spawn");
    assert_eq!(failure(spawned(&mut cmd).stdin_wrapped(Err("stdin"))), "stdin");
    let launch = spawned(&mut cmd).stdin_wrapped(Ok(None));
    assert_eq!(failure(launch.stdout_wrapped(Err("stdout"))), "stdout");
    let launch = spawned(&mut cmd).stdin_wrapped(Ok(None)).stdout_wrapped(Ok(None));
    assert_eq!(failure(launch.stderr_wrapped(Err("stderr"))), "stderr");
    let launch = spawned(&mut cmd)
        .stdin_wrapped(Ok(None))
        .stdout_wrapped(Ok(None))
        .stderr_wrapped(Ok(None));
    assert_eq!(failure(driven(launch).registered(Err("register"))), "register");
}

#[test]
fn a_failed_launch_fails_what_follows() {
    let mut cmd = Command::new(b"ls");
    let launch: Launch<Fake> = cmd.status();
    assert!(matches!(launch.spawned(Err("spawn")).status(), Err("spawn")));
    let launch: Launch<Fake> = cmd.output();
    assert!(matches!(launch.spawned(Err("spawn")).output(), Err("spawn")));
}

#[test]
fn calls_go_to_the_process() {
    let mut child = launched(&mut Command::new(b"ls"));
    assert!(matches!(child.kill(), Killing::Check(&"process")));
    assert_eq!(*child.try_status().process, "process");
    assert_eq!(child.stdin, Some("stdin"));
}

#[test]
fn an_exited_process_is_not_killed() {
    let mut child = launched(&mut Command::new(b"ls"));
    let killing = child.kill().checked(Ok(Some(0)));
    assert!(matches!(killing, Killing::Done(Err(KillError::InvalidInput))));

    let killing = child.kill().checked::<i32>(Ok(None));
    assert!(matches!(killing, Killing::Kill(&"process")));
    assert!(matches!(killing.killed(Ok(())), Killing::Done(Ok(()))));

    let killing = child.kill().checked::<i32>(Err("ECHILD"));
    assert!(matches!(killing, Killing::Kill(&"process")));
    let killing = killing.killed(Err("EPERM"));
    assert!(matches!(killing, Killing::Done(Err(KillError::Refused("EPERM")))));
}

#[test]
fn status_drops_stdin_alone() {
    let mut child = launched(&mut Command::new(b"ls"));
    let wait = child.status();
    assert_eq!(*wait.process(), "process");
    assert_eq!((child.stdin, child.stdout, child.stderr), (None, Some("stdout"), Some("stderr")));
}

#[test]
fn a_launch_for_its_status_keeps_the_output_pipes() {
    let mut cmd = Command::new(b"ls");
    let launch: Launch<Fake> = cmd.status();
    let launch = launch
        .spawned(Ok(Spawned { id: 1, process: "process" }))
        .stdin_wrapped(Ok(Some("stdin")))
        .stdout_wrapped(Ok(Some("stdout")))
        .stderr_wrapped(Ok(None));
    let (child, wait) = driven(launch).registered(Ok(())).status().unwrap();
    assert_eq!((child.stdin, child.stdout, child.stderr), (None, Some("stdout"), None));
    assert_eq!(wait.step(), StatusStep::TryWait);
}

#[test]
fn a_wait_asks_again_before_it_sleeps() {
    let reaper = Reaper::new();
    let mut child = launched(&mut Command::new(b"ls"));
    let mut wait = child.status();

    assert_eq!(wait.step(), StatusStep::TryWait);
    wait.checked(Ok(None));
    assert_eq!(wait.step(), StatusStep::Listen);
    wait.listen(&reaper);
    assert_eq!(wait.step(), StatusStep::Drive);
    assert!(wait.drive(&reaper).is_ok());
    assert_eq!(wait.step(), StatusStep::TryWait);
    wait.checked(Ok(None));
    assert_eq!(wait.step(), StatusStep::Sleep);

    // Woken, it begins anew without a listener.
    let listener = wait.sleep().into_inner();
    let mut reap = reaper.driven::<&str>().ok().unwrap();
    reap.signalled();
    reap.notify(&reaper);
    assert!(listener.wait_timeout(Duration::from_secs(5)));
    assert_eq!(wait.step(), StatusStep::TryWait);
    wait.checked(Ok(None));
    assert_eq!(wait.step(), StatusStep::Listen);
    wait.listen(&reaper);
    assert!(wait.drive(&reaper).is_err());
    wait.checked(Ok(Some(3)));
    assert_eq!(wait.step(), StatusStep::Finish);
    let (result, disposal) = wait.finish();
    assert_eq!(result, Ok(3));
    // The child still holds the process.
    assert!(disposal.is_err());
}

#[test]
fn a_wait_does_not_ask_for_a_second_poller() {
    let reaper = Reaper::new();
    let backup = reaper.driven::<&str>();
    let mut child = launched(&mut Command::new(b"ls"));
    let mut wait = child.status();
    wait.checked(Ok(None));
    wait.listen(&reaper);
    assert!(wait.drive(&reaper).is_err());
    drop(backup);
}

#[test]
fn an_error_ends_the_wait() {
    let mut child = launched(&mut Command::new(b"ls"));
    let mut wait = child.status();
    wait.checked(Err("ECHILD"));
    assert_eq!(wait.step(), StatusStep::Finish);
    assert_eq!(wait.finish().0, Err("ECHILD"));
}

#[test]
fn a_process_can_be_waited_for_twice() {
    let mut child = launched(&mut Command::new(b"ls"));
    for _ in 0..2 {
        let mut wait = child.status();
        wait.checked(Ok(Some(1)));
        assert_eq!(wait.finish().0, Ok(1));
    }
}

#[test]
fn an_exit_status_stays_what_it_is() {
    let mut process: Remembered<&str, i32> = Remembered::new("process");
    assert_eq!(process.known(), None);
    assert_eq!(process.answered::<&str>(Ok(None)), Ok(None));
    assert_eq!(process.answered(Err("EINTR")), Err("EINTR"));
    assert_eq!(process.known(), None);
    assert_eq!(process.answered::<&str>(Ok(Some(3))), Ok(Some(3)));

    // Whatever the system says from now on.
    assert_eq!(process.known(), Some(3));
    assert_eq!(process.answered::<&str>(Ok(Some(4))), Ok(Some(3)));
    assert_eq!(process.answered::<&str>(Ok(None)), Ok(Some(3)));
    assert_eq!(process.answered(Err("ECHILD")), Ok(Some(3)));
    *process.process_mut() = "other";
    assert_eq!(*process.process_mut(), "other");
    assert_eq!(process.known(), Some(3));
}

fn policy(reap_on_drop: bool, kill_on_drop: bool) -> Command {
    let mut cmd = Command::new(b"ls");
    cmd.reap_on_drop(reap_on_drop).kill_on_drop(kill_on_drop);
    cmd
}

#[test]
fn the_last_handle_decides_what_becomes_of_the_process() {
    let disposal = launched(&mut policy(true, false)).release();
    assert!(matches!(disposal, Ok(Disposal::Reap("process"))));

    let disposal = launched(&mut policy(false, false)).release();
    assert!(matches!(disposal, Ok(Disposal::Leave("process"))));

    for outcome in [Ok(()), Err("kill")] {
        let disposal = launched(&mut policy(true, true)).release().ok().unwrap();
        assert!(matches!(&disposal, Disposal::Kill(guard) if guard.process == "process"));
        assert!(matches!(disposal.killed(outcome), Disposal::Reap("process")));

        let disposal = launched(&mut policy(false, true)).release().ok().unwrap();
        assert!(matches!(disposal, Disposal::Kill(_)));
        assert!(matches!(disposal.killed(outcome), Disposal::Leave("process")));
    }
}

#[test]
fn only_the_last_handle_counts() {
    let mut child = launched(&mut policy(true, true));
    let first = child.status();
    let mut second = child.status();
    assert!(first.release().is_err());
    assert!(child.release().is_err());
    second.checked(Ok(Some(0)));
    let (result, disposal) = second.finish();
    assert_eq!(result, Ok(0));
    assert!(matches!(disposal, Ok(Disposal::Kill(_))));

    assert!(matches!(child::dropped::<Fake, &str>(Err("shared")), Err("shared")));
}

fn reading() -> OutputWait<Fake> {
    let mut wait = launched(&mut Command::new(b"ls")).output();
    assert_eq!(wait.step(), OutputStep::Read);
    assert_eq!(wait.streams(), (Some("stdout"), Some("stderr")));
    assert_eq!(wait.step(), OutputStep::Reading);
    wait
}

#[test]
fn output_is_what_the_streams_brought() {
    let mut wait = reading();
    wait.collected(Ok((b"out".to_vec(), b"err".to_vec())));
    assert_eq!(wait.step(), OutputStep::Status(StatusStep::TryWait));
    wait.status().checked(Ok(None));
    assert_eq!(wait.step(), OutputStep::Status(StatusStep::Listen));
    let reaper = Reaper::new();
    wait.status().listen(&reaper);
    assert!(wait.status().drive(&reaper).is_ok());
    wait.status().checked(Ok(Some(7)));
    assert_eq!(wait.step(), OutputStep::Finish);
    let (result, disposal) = wait.finish();
    let output = match result {
        Ok(output) => output,
        Err(_) => panic!(),
    };
    assert_eq!(output.status, 7);
    assert_eq!(output.stdout, b"out");
    assert_eq!(output.stderr, b"err");
    // The collection held the last handle.
    assert!(matches!(disposal, Ok(Disposal::Reap("process"))));
}

#[test]
fn a_failed_read_ends_the_collection() {
    let mut wait = reading();
    wait.collected(Err("read"));
    assert_eq!(wait.step(), OutputStep::Finish);
    let (result, disposal) = wait.finish();
    assert!(matches!(result, Err("read")));
    assert!(matches!(disposal, Ok(Disposal::Reap("process"))));
}

#[test]
fn a_failed_wait_ends_the_collection() {
    let mut wait = reading();
    wait.collected(Ok((Vec::new(), Vec::new())));
    wait.status().checked(Err("ECHILD"));
    assert!(matches!(wait.finish().0, Err("ECHILD")));
}

#[test]
fn an_abandoned_collection_lets_go_of_the_process() {
    assert!(matches!(reading().release(), Ok(Disposal::Reap("process"))));
}

#[test]
fn a_stream_that_was_not_captured_yields_nothing() {
    assert_eq!(stream_bytes::<()>(None), Ok(Vec::new()));
    assert_eq!(stream_bytes::<()>(Some(Ok(b"x".to_vec()))), Ok(b"x".to_vec()));
    assert_eq!(stream_bytes(Some(Err("read"))), Err("read"));
}
