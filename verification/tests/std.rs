//! These tests are those of the `std::process` test suite, run against a small pretend system.

use async_process::unix::CommandExt;
use async_process::{
    cleanup_zombies, stream_bytes, Child, ChildStdout, CleanupState, Command, Disposal, EnvChange,
    Ending, IntoStdio, Invocation, KillError, Killing, Launch, Output, OutputStep, OutputWait,
    Platform, ReapStep, Reaper, Remembered, Spawned, StatusStep, StatusWait, Stdio, System, Zombies,
};
use std::collections::BTreeMap;
use std::time::Duration;

#[derive(Clone, Copy, Debug, PartialEq)]
struct ExitStatus {
    code: Option<i32>,
    signal: Option<i32>,
}

impl ExitStatus {
    fn success(&self) -> bool {
        self.code == Some(0)
    }

    fn code(&self) -> Option<i32> {
        self.code
    }

    fn signal(&self) -> Option<i32> {
        self.signal
    }
}

#[derive(Clone, Copy, Debug, PartialEq)]
enum ErrorKind {
    NotFound,
}

/// The pretend system: processes are numbers, pipes are the numbers of the processes at their end.
struct Sim;

impl System for Sim {
    type Process = u32;
    type Stdin = u32;
    type Stdout = ChildStdout<u32>;
    type Stderr = u32;
    type ExitStatus = ExitStatus;
    type Error = ErrorKind;
}

struct Proc {
    invocation: Invocation,
    input: Vec<u8>,
    stdin_open: bool,
    stdout: Vec<u8>,
    stderr: Vec<u8>,
    status: Option<ExitStatus>,
    exit: Remembered<u32, ExitStatus>,
    /// How often the process is still found running.
    lasts: u32,
}

struct World {
    reaper: &'static Reaper,
    zombies: Zombies<u32>,
    procs: Vec<Proc>,
    handles: Vec<u32>,
    environment: BTreeMap<Vec<u8>, Vec<u8>>,
    waits: u32,
    /// How often a backup thread would have been started.
    threads: u32,
}

impl World {
    fn new() -> World {
        World {
            reaper: Box::leak(Box::new(Reaper::new())),
            zombies: Zombies::new(),
            procs: Vec::new(),
            handles: Vec::new(),
            environment: BTreeMap::new(),
            waits: 0,
            threads: 0,
        }
    }

    fn spawn(&mut self, invocation: Invocation) -> Result<Spawned<Sim>, ErrorKind> {
        let known: [&[u8]; 8] =
            [b"true", b"false", b"echo", b"/bin/sh", b"mkdir", b"env", b"cat", b"grep"];
        if !known.contains(&invocation.program.as_slice()) {
            return Err(ErrorKind::NotFound);
        }
        let input = match invocation.stdin {
            Some(Stdio::Handle(number)) => {
                let source = self.handles[number];
                self.run(source);
                self.procs[source as usize].stdout.clone()
            }
            _ => Vec::new(),
        };
        let stdin_open = invocation.stdin == Some(Stdio::Piped);
        let id = self.procs.len() as u32;
        self.procs.push(Proc {
            invocation,
            input,
            stdin_open,
            stdout: Vec::new(),
            stderr: Vec::new(),
            status: None,
            exit: Remembered::new(id),
            lasts: 2,
        });
        Ok(Spawned { id, process: id })
    }

    /// Lets a process run to its end, unless it waits for input.
    fn run(&mut self, id: u32) {
        let environment = self.child_environment(id);
        let p = &mut self.procs[id as usize];
        if p.status.is_some() {
            return;
        }
        let args: Vec<&[u8]> = p.invocation.args.iter().map(|a| a.as_slice()).collect();
        let mut code = 0;
        match (p.invocation.program.as_slice(), args.as_slice()) {
            (b"true", _) => {}
            (b"false", _) => code = 1,
            (b"echo", args) => {
                p.stdout = args.join(&b' ');
                p.stdout.push(b'\n');
            }
            (b"mkdir", _) => {
                p.stderr = b"mkdir: cannot create directory".to_vec();
                code = 1;
            }
            (b"cat", _) => p.stdout = b"[package]\nname = \"async-process\"\n".to_vec(),
            (b"grep", [pattern]) => {
                for line in p.input.split(|b| *b == b'\n') {
                    if line.windows(pattern.len()).any(|w| w == *pattern) {
                        p.stdout.extend_from_slice(line);
                        p.stdout.push(b'\n');
                    }
                }
            }
            (b"env", _) => {
                for (key, value) in &environment {
                    p.stdout.extend_from_slice(&[key.as_slice(), b"=", value, b"\n"].concat());
                }
            }
            (b"/bin/sh", [b"-c", b"pwd"]) => {
                p.stdout = p.invocation.current_dir.clone().unwrap_or(b"/tmp".to_vec());
                p.stdout.push(b'\n');
            }
            (b"/bin/sh", [b"-c", script]) => {
                if p.stdin_open {
                    return;
                }
                if *script == b"read line; echo $line" {
                    p.stdout = p.input.clone();
                    p.stdout.push(b'\n');
                }
            }
            _ => unreachable!(),
        }
        p.status = Some(ExitStatus { code: Some(code), signal: None });
    }

    fn child_environment(&self, id: u32) -> BTreeMap<Vec<u8>, Vec<u8>> {
        let mut environment = self.environment.clone();
        for change in &self.procs[id as usize].invocation.env {
            match change {
                EnvChange::Assign(key, value) => {
                    environment.insert(key.clone(), value.clone());
                }
                EnvChange::Remove(key) => {
                    environment.remove(key);
                }
                EnvChange::Clear => environment.clear(),
            }
        }
        environment
    }

    fn close_stdin(&mut self, id: u32) {
        self.procs[id as usize].stdin_open = false;
    }

    fn try_wait(&mut self, id: u32) -> Result<Option<ExitStatus>, ErrorKind> {
        self.waits += 1;
        let p = &mut self.procs[id as usize];
        if let Some(status) = p.exit.known() {
            return Ok(Some(status));
        }
        if p.lasts > 0 && p.status.is_none() {
            p.lasts -= 1;
            return p.exit.answered(Ok(None));
        }
        self.run(id);
        let p = &mut self.procs[id as usize];
        p.exit.answered(Ok(p.status))
    }

    fn kill(
        &mut self,
        mut killing: Killing<'_, u32, ErrorKind>,
    ) -> Result<(), KillError<ErrorKind>> {
        loop {
            killing = match killing {
                Killing::Check(id) => killing.checked(self.try_wait(*id)),
                Killing::Kill(id) => {
                    self.procs[*id as usize].status =
                        Some(ExitStatus { code: None, signal: Some(9) });
                    killing.killed(Ok(()))
                }
                Killing::Done(result) => return result,
            }
        }
    }

    fn launch(&mut self, launch: Launch<Sim>) -> Launch<Sim> {
        let mut launch = launch;
        loop {
            launch = match launch {
                Launch::Spawn { ref invocation, .. } => {
                    let outcome = self.spawn(invocation.copied());
                    launch.spawned(outcome)
                }
                Launch::WrapStdin { ref guard } => {
                    let p = &self.procs[guard.process as usize];
                    let piped = p.invocation.stdin == Some(Stdio::Piped);
                    let pipe = if piped { Some(guard.process) } else { None };
                    launch.stdin_wrapped(Ok(pipe))
                }
                Launch::WrapStdout { ref guard, .. } => {
                    let p = &self.procs[guard.process as usize];
                    let piped = p.invocation.stdout == Some(Stdio::Piped);
                    let pipe = if piped { Some(ChildStdout(guard.process)) } else { None };
                    launch.stdout_wrapped(Ok(pipe))
                }
                Launch::WrapStderr { ref guard, .. } => {
                    let p = &self.procs[guard.process as usize];
                    let piped = p.invocation.stderr == Some(Stdio::Piped);
                    let pipe = if piped { Some(guard.process) } else { None };
                    launch.stderr_wrapped(Ok(pipe))
                }
                Launch::Drive { .. } => {
                    let (next, backup) = launch.drive(self.reaper);
                    if backup.is_ok() {
                        self.threads += 1;
                    }
                    next
                }
                Launch::Register { .. } => launch.registered(Ok(())),
                Launch::Done(_) => return launch,
            }
        }
    }

    fn child(&mut self, launch: Launch<Sim>) -> Result<Child<Sim>, ErrorKind> {
        match self.launch(launch) {
            Launch::Done(result) => result,
            _ => unreachable!(),
        }
    }

    /// One round of the polling loop, as after a signal.
    fn signal(&mut self) {
        let mut reap = self.reaper.driven().ok().unwrap();
        loop {
            match reap.step() {
                ReapStep::Wait => reap.signalled(),
                ReapStep::Notify => {
                    reap.notify(self.reaper);
                }
                ReapStep::Take => {
                    reap.take(&mut self.zombies);
                    if reap.step() == ReapStep::Wait {
                        return;
                    }
                }
                ReapStep::Poll => {
                    let answer = self.try_wait(*reap.zombie());
                    reap.polled(answer);
                }
                ReapStep::Yield => reap.yielded(),
                ReapStep::PutBack => {
                    reap.put_back(&mut self.zombies);
                    return;
                }
            }
        }
    }

    fn advance(&mut self, wait: &mut StatusWait<Sim>) {
        match wait.step() {
            StatusStep::TryWait => {
                let answer = self.try_wait(*wait.process());
                wait.checked(answer);
            }
            StatusStep::Listen => wait.listen(self.reaper),
            StatusStep::Drive => {
                if wait.drive(self.reaper).is_ok() {
                    self.threads += 1;
                }
            }
            StatusStep::Sleep => {
                let listener = wait.sleep().into_inner();
                self.signal();
                assert!(listener.wait_timeout(Duration::from_secs(5)));
            }
            StatusStep::Finish => {}
        }
    }

    fn wait(&mut self, wait: StatusWait<Sim>) -> Result<ExitStatus, ErrorKind> {
        let mut wait = wait;
        while wait.step() != StatusStep::Finish {
            self.advance(&mut wait);
        }
        let (result, disposal) = wait.finish();
        self.dispose(disposal.ok());
        result
    }

    /// Waits for a child, whose stdin is closed by then.
    fn status(&mut self, child: &mut Child<Sim>) -> Result<ExitStatus, ErrorKind> {
        self.close_stdin(child.id());
        let wait = child.status();
        assert!(child.stdin.is_none());
        self.wait(wait)
    }

    fn collect(&mut self, wait: OutputWait<Sim>) -> Result<Output<ExitStatus>, ErrorKind> {
        let mut wait = wait;
        loop {
            match wait.step() {
                OutputStep::Read => {
                    let (stdout, stderr) = wait.streams();
                    let stdout = stdout.map(|pipe| Ok(self.read(pipe.0)));
                    let stderr = stderr.map(|pipe| {
                        self.run(pipe);
                        Ok(self.procs[pipe as usize].stderr.clone())
                    });
                    let read = match (stream_bytes(stdout), stream_bytes(stderr)) {
                        (Ok(stdout), Ok(stderr)) => Ok((stdout, stderr)),
                        (Err(error), _) | (_, Err(error)) => Err(error),
                    };
                    assert_eq!(self.waits, 0);
                    wait.collected(read);
                }
                OutputStep::Reading => unreachable!(),
                OutputStep::Status(_) => self.advance(wait.status()),
                OutputStep::Finish => {
                    let (result, disposal) = wait.finish();
                    self.dispose(disposal.ok());
                    return result;
                }
            }
        }
    }

    fn output(&mut self, command: &mut Command) -> Result<Output<ExitStatus>, ErrorKind> {
        let launch = command.output();
        let wait = self.launch(launch).output()?;
        self.collect(wait)
    }

    fn read(&mut self, id: u32) -> Vec<u8> {
        self.run(id);
        self.procs[id as usize].stdout.clone()
    }

    fn dispose(&mut self, disposal: Option<Disposal<Sim>>) {
        match disposal {
            None | Some(Disposal::Leave(_)) => {}
            Some(Disposal::Kill(ref guard)) => {
                self.procs[guard.process as usize].status =
                    Some(ExitStatus { code: None, signal: Some(9) });
                let next = disposal.unwrap().killed(Ok(()));
                self.dispose(Some(next));
            }
            Some(Disposal::Reap(process)) => {
                let answer = self.try_wait(process);
                if self.reaper.push_zombie(&mut self.zombies, process, answer).is_ok() {
                    self.threads += 1;
                }
            }
        }
    }
}

fn run_output(world: &mut World, mut cmd: Command) -> String {
    let p = world.child(cmd.spawn());
    assert!(p.is_ok());
    let mut p = p.unwrap();
    assert!(p.stdout.is_some());
    let ret = world.read(p.stdout.as_ref().unwrap().0);
    assert!(world.status(&mut p).unwrap().success());
    String::from_utf8(ret).unwrap()
}

#[test]
fn smoke() {
    let mut world = World::new();
    let p = world.child(Command::new(b"true").spawn());
    assert!(p.is_ok());
    let mut p = p.unwrap();
    assert!(world.status(&mut p).unwrap().success());
}

#[test]
fn smoke_failure() {
    let mut world = World::new();
    match world.child(Command::new(b"if-this-is-a-binary-then-the-world-has-ended").spawn()) {
        Ok(..) => panic!(),
        Err(..) => {}
    }
}

#[test]
fn exit_reported_right() {
    let mut world = World::new();
    let p = world.child(Command::new(b"false").spawn());
    assert!(p.is_ok());
    let mut p = p.unwrap();
    assert!(world.status(&mut p).unwrap().code() == Some(1));
    assert!(world.status(&mut p).is_ok());
}

#[test]
fn signal_reported_right() {
    let mut world = World::new();
    let launch =
        Command::new(b"/bin/sh").arg(b"-c").arg(b"read a").stdin(Stdio::piped()).spawn();
    let mut p = world.child(launch).unwrap();
    world.kill(p.kill()).unwrap();
    match world.status(&mut p).unwrap().signal() {
        Some(9) => {}
        result => panic!("not terminated by signal 9 (instead, {:?})", result),
    }
}

#[test]
fn stdout_works() {
    let mut world = World::new();
    let mut cmd = Command::new(b"echo");
    cmd.arg(b"foobar").stdout(Stdio::piped());
    assert_eq!(run_output(&mut world, cmd), "foobar\n");
}

#[test]
fn set_current_dir_works() {
    let mut world = World::new();
    let mut cmd = Command::new(b"/bin/sh");
    cmd.arg(b"-c").arg(b"pwd").current_dir(b"/").stdout(Stdio::piped());
    assert_eq!(run_output(&mut world, cmd), "/\n");
}

#[test]
fn stdin_works() {
    let mut world = World::new();
    let launch = Command::new(b"/bin/sh")
        .arg(b"-c")
        .arg(b"read line; echo $line")
        .stdin(Stdio::piped())
        .stdout(Stdio::piped())
        .spawn();
    let mut p = world.child(launch).unwrap();
    let stdin = p.stdin.take().unwrap();
    world.procs[stdin as usize].input = "foobar".as_bytes().to_vec();
    world.close_stdin(stdin);
    let out = world.read(p.stdout.as_ref().unwrap().0);
    assert!(world.status(&mut p).unwrap().success());
    assert_eq!(out, b"foobar\n");
}

#[test]
fn test_process_status() {
    let mut world = World::new();
    let (_child, wait) = world.launch(Command::new(b"false").status()).status().unwrap();
    let mut status = world.wait(wait).unwrap();
    assert!(status.code() == Some(1));

    let (_child, wait) = world.launch(Command::new(b"true").status()).status().unwrap();
    status = world.wait(wait).unwrap();
    assert!(status.success());
}

#[test]
fn test_process_output_fail_to_start() {
    let mut world = World::new();
    match world.output(&mut Command::new(b"/no-binary-by-this-name-should-exist")) {
        Err(e) => assert_eq!(e, ErrorKind::NotFound),
        Ok(..) => panic!(),
    }
}

#[test]
fn test_process_output_output() {
    let mut world = World::new();
    let Output { status, stdout, stderr } =
        world.output(Command::new(b"echo").arg(b"hello")).unwrap();
    let output_str = std::str::from_utf8(&stdout).unwrap();

    assert!(status.success());
    assert_eq!(output_str.trim().to_string(), "hello");
    assert_eq!(stderr, Vec::new());
}

#[test]
fn test_process_output_error() {
    let mut world = World::new();
    let Output { status, stdout, stderr } =
        world.output(Command::new(b"mkdir").arg(b"./")).unwrap();

    assert!(status.code() == Some(1));
    assert_eq!(stdout, Vec::new());
    assert!(!stderr.is_empty());
}

#[test]
fn test_finish_once() {
    let mut world = World::new();
    let mut prog = world.child(Command::new(b"false").spawn()).unwrap();
    assert!(world.status(&mut prog).unwrap().code() == Some(1));
}

#[test]
fn test_finish_twice() {
    let mut world = World::new();
    let mut prog = world.child(Command::new(b"false").spawn()).unwrap();
    assert!(world.status(&mut prog).unwrap().code() == Some(1));
    assert!(world.status(&mut prog).unwrap().code() == Some(1));
}

#[test]
fn test_wait_with_output_once() {
    let mut world = World::new();
    let launch = Command::new(b"echo").arg(b"hello").stdout(Stdio::piped()).spawn();
    let prog = world.child(launch).unwrap();

    let Output { status, stdout, stderr } = world.collect(prog.output()).unwrap();
    let output_str = std::str::from_utf8(&stdout).unwrap();

    assert!(status.success());
    assert_eq!(output_str.trim().to_string(), "hello");
    assert_eq!(stderr, Vec::new());
}

fn env_cmd() -> Command {
    Command::new(b"env")
}

#[test]
fn test_override_env() {
    let mut world = World::new();
    world.environment.insert(b"PATH".to_vec(), b"/bin".to_vec());
    world.environment.insert(b"HOME".to_vec(), b"/root".to_vec());
    let mut cmd = env_cmd();
    cmd.env_clear().env(b"RUN_TEST_NEW_ENV", b"123");
    cmd.env(b"PATH", b"/bin");
    let result = world.output(&mut cmd).unwrap();
    let output = String::from_utf8_lossy(&result.stdout).to_string();

    assert!(
        output.contains("RUN_TEST_NEW_ENV=123"),
        "didn't find RUN_TEST_NEW_ENV inside of:\n\n{}",
        output
    );
    assert_eq!(output, "PATH=/bin\nRUN_TEST_NEW_ENV=123\n");
}

#[test]
fn test_add_to_env() {
    let mut world = World::new();
    world.environment.insert(b"HOME".to_vec(), b"/root".to_vec());
    let result = world.output(env_cmd().env(b"RUN_TEST_NEW_ENV", b"123")).unwrap();
    let output = String::from_utf8_lossy(&result.stdout).to_string();

    assert!(
        output.contains("RUN_TEST_NEW_ENV=123"),
        "didn't find RUN_TEST_NEW_ENV inside of:\n\n{}",
        output
    );
    assert!(output.contains("HOME=/root"));
}

#[test]
fn test_capture_env_at_spawn() {
    let mut world = World::new();
    let mut cmd = env_cmd();
    cmd.env(b"RUN_TEST_NEW_ENV1", b"123");

    // This variable will not be present if the environment has already
    // been captured above.
    world.environment.insert(b"RUN_TEST_NEW_ENV2".to_vec(), b"456".to_vec());
    let result = world.output(&mut cmd).unwrap();
    world.environment.remove(b"RUN_TEST_NEW_ENV2".as_slice());

    let output = String::from_utf8_lossy(&result.stdout).to_string();

    assert!(
        output.contains("RUN_TEST_NEW_ENV1=123"),
        "didn't find RUN_TEST_NEW_ENV1 inside of:\n\n{}",
        output
    );
    assert!(
        output.contains("RUN_TEST_NEW_ENV2=456"),
        "didn't find RUN_TEST_NEW_ENV2 inside of:\n\n{}",
        output
    );
}

#[test]
fn test_into_inner() {
    let mut world = World::new();
    let launch = Command::new(b"cat").arg(b"Cargo.toml").stdout(Stdio::piped()).spawn();
    let mut ls_child = world.child(launch).unwrap();

    let mut conversion: IntoStdio<u32, u32, ErrorKind> =
        ls_child.stdout.take().unwrap().into_stdio();
    let stdio = loop {
        conversion = match conversion {
            IntoStdio::Unwrap(pipe) => IntoStdio::unwrapped(Ok(pipe), Platform::Linux),
            IntoStdio::Unblock(_) => conversion.unblocked(Ok(())),
            IntoStdio::Done(result) => {
                world.handles.push(result.unwrap());
                break Stdio::Handle(world.handles.len() - 1);
            }
        }
    };

    let launch = Command::new(b"grep")
        .arg(b"async")
        .stdin(stdio)
        .stdout(Stdio::piped())
        .spawn();
    let mut echo_child = world.child(launch).unwrap();

    let stdout = echo_child.stdout.take().unwrap();
    let buf = world.read(stdout.0);
    assert_eq!(std::str::from_utf8(&buf).unwrap_or(""), "name = \"async-process\"\n");
}

#[test]
fn dropping_the_last_handle_hands_a_running_child_to_the_reaper() {
    let mut world = World::new();
    let mut child = world.child(Command::new(b"true").spawn()).unwrap();
    let wait = child.status();

    // The wait still holds the process.
    assert!(child.release().is_err());
    let disposal = wait.release().ok();
    assert!(matches!(disposal, Some(Disposal::Reap(0))));

    world.dispose(disposal);
    assert_eq!(world.waits, 1);
    assert!(world.procs[0].status.is_none());

    // Found running once more, then found exited, then no longer on the list.
    world.signal();
    assert_eq!(world.waits, 2);
    world.signal();
    assert_eq!(world.waits, 3);
    assert!(world.procs[0].status.is_some());
    world.signal();
    assert_eq!(world.waits, 3);
}

#[test]
fn kill_on_drop_kills_before_reaping() {
    let mut world = World::new();
    let launch = Command::new(b"/bin/sh")
        .arg(b"-c")
        .arg(b"read a")
        .stdin(Stdio::piped())
        .kill_on_drop(true)
        .spawn();
    let child = world.child(launch).unwrap();
    let disposal = child.release().ok();
    assert!(matches!(disposal, Some(Disposal::Kill(_))));
    world.dispose(disposal);
    assert_eq!(world.procs[0].status.unwrap().signal(), Some(9));
}

#[test]
fn without_reap_on_drop_the_process_is_left_alone() {
    let mut world = World::new();
    let launch = Command::new(b"true").reap_on_drop(false).spawn();
    let child = world.child(launch).unwrap();
    assert!(matches!(child.release(), Ok(Disposal::Leave(0))));
}

#[test]
fn try_status_leaves_stdin_open() {
    let mut world = World::new();
    let launch = Command::new(b"true").stdin(Stdio::piped()).spawn();
    let mut child = world.child(launch).unwrap();
    assert_eq!(world.try_wait(*child.try_status().process), Ok(None));
    assert!(child.stdin.is_some());
}

#[test]
fn exec_gives_the_command_as_it_stands() {
    let mut cmd = Command::new(b"ls");
    cmd.uid(7).gid(8).arg0(b"dir").stderr(Stdio::null());
    let invocation = cmd.exec();
    assert_eq!(invocation.program, b"ls");
    assert_eq!(invocation.arg0, Some(b"dir".to_vec()));
    assert_eq!((invocation.uid, invocation.gid), (Some(7), Some(8)));
    assert_eq!(invocation.stdin, None);
    assert_eq!(invocation.stderr, Some(Stdio::Null));
}

#[test]
fn killing_an_exited_child_is_invalid_input() {
    let mut world = World::new();
    let mut child = world.child(Command::new(b"true").spawn()).unwrap();
    assert!(world.status(&mut child).unwrap().success());
    assert!(matches!(world.kill(child.kill()), Err(KillError::InvalidInput)));
    // Its status stays what it was.
    assert!(world.status(&mut child).unwrap().success());
}

#[test]
fn exec_inherits_what_an_earlier_launch_connected() {
    let mut world = World::new();
    let mut cmd = Command::new(b"echo");
    cmd.stderr(Stdio::null());
    world.output(&mut cmd).unwrap();
    let invocation = cmd.exec();
    assert_eq!(invocation.stdin, None);
    assert_eq!(invocation.stdout, None);
    assert_eq!(invocation.stderr, Some(Stdio::Null));
}

#[test]
fn output_within_a_cleanup_routine_starts_no_thread() {
    let mut world = World::new();
    let cleanup = cleanup_zombies::<u32>(world.reaper);
    let mut reap = match cleanup.state {
        CleanupState::Reap(reap) => reap,
        CleanupState::Lock(_) => panic!(),
    };

    let launch = Command::new(b"echo").args(&[b"hello", b"world"]).output();
    let mut wait = world.launch(launch).output().unwrap();
    let out = loop {
        match wait.step() {
            OutputStep::Read => {
                let (stdout, _) = wait.streams();
                let stdout = world.read(stdout.unwrap().0);
                world.procs[0].status = None;
                wait.collected(Ok((stdout, Vec::new())));
            }
            OutputStep::Status(StatusStep::Sleep) => {
                let listener = wait.status().sleep().into_inner();
                reap.signalled();
                reap.notify(world.reaper);
                reap.take(&mut world.zombies);
                assert!(listener.wait_timeout(Duration::from_secs(5)));
            }
            OutputStep::Status(_) => world.advance(wait.status()),
            OutputStep::Reading => unreachable!(),
            OutputStep::Finish => {
                let (result, disposal) = wait.finish();
                world.dispose(disposal.ok());
                break result.unwrap();
            }
        }
    };
    assert_eq!(out.stdout, b"hello world\n");
    assert_eq!(world.threads, 0);
}

#[test]
fn a_pending_wait_outlives_the_cleanup_routine() {
    let mut world = World::new();
    let cleanup = cleanup_zombies::<u32>(world.reaper);
    let mut child = world.child(Command::new(b"false").spawn()).unwrap();
    let mut wait = child.status();
    while wait.step() != StatusStep::Sleep {
        world.advance(&mut wait);
    }
    assert_eq!(world.threads, 0);
    let listener = wait.sleep().into_inner();

    // The only poller goes. It wakes the wait, which has the reaper driven again.
    let ending = cleanup.end(&mut world.zombies).leave(world.reaper).wake(world.reaper);
    assert!(matches!(ending.drive(world.reaper, &world.zombies), Ending::Done(None)));
    assert!(listener.wait_timeout(Duration::from_secs(5)));
    world.procs[0].lasts = 2;
    while wait.step() != StatusStep::Sleep {
        world.advance(&mut wait);
    }
    assert_eq!(world.threads, 1);
    assert_eq!(world.wait(wait).unwrap().code(), Some(1));
}
