use async_process::{
    blocking_fd, BlockingFd, ChildStderr, ChildStdin, ChildStdout, IntoStdio, Platform,
};

type Conversion = IntoStdio<&'static str, u32, &'static str>;

const NONBLOCK: u32 = 0o4000;

#[test]
fn a_conversion_begins_with_the_handle() {
    let conversion: Conversion = ChildStdin("in").into_stdio();
    assert!(matches!(conversion, IntoStdio::Unwrap("in")));
    let conversion: Conversion = ChildStdout("out").into_stdio();
    assert!(matches!(conversion, IntoStdio::Unwrap("out")));
    let conversion: Conversion = ChildStderr("err").into_stdio();
    assert!(matches!(conversion, IntoStdio::Unwrap("err")));
}

#[test]
fn unix_handles_are_moved_out_of_non_blocking_mode() {
    for platform in [Platform::Linux, Platform::OtherUnix] {
        let conversion: Conversion = IntoStdio::unwrapped(Ok(5), platform);
        assert!(matches!(conversion, IntoStdio::Unblock(5)));
        assert!(matches!(conversion.unblocked(Ok(())), IntoStdio::Done(Ok(5))));

        let conversion: Conversion = IntoStdio::unwrapped(Ok(5), platform);
        assert!(matches!(conversion.unblocked(Err("ioctl")), IntoStdio::Done(Err("ioctl"))));

        let conversion: Conversion = IntoStdio::unwrapped(Err("unwrap"), platform);
        assert!(matches!(conversion, IntoStdio::Done(Err("unwrap"))));
    }
}

#[test]
fn windows_handles_are_ready_at_once() {
    let conversion: Conversion = IntoStdio::unwrapped(Ok(5), Platform::Windows);
    assert!(matches!(conversion, IntoStdio::Done(Ok(5))));
    let conversion: Conversion = IntoStdio::unwrapped(Err("unwrap"), Platform::Windows);
    assert!(matches!(conversion, IntoStdio::Done(Err("unwrap"))));
}

#[test]
fn linux_switches_in_one_call() {
    let next: BlockingFd<&str> = blocking_fd(Platform::Linux);
    assert!(matches!(next, BlockingFd::Switch));
    assert!(matches!(next.switched(Ok(())), BlockingFd::Done(Ok(()))));
    let next: BlockingFd<&str> = blocking_fd(Platform::Linux);
    assert!(matches!(next.switched(Err("ioctl")), BlockingFd::Done(Err("ioctl"))));
}

#[test]
fn other_platforms_write_the_flags_back() {
    let begin = || blocking_fd::<&str>(Platform::OtherUnix);
    assert!(matches!(begin(), BlockingFd::GetFlags));
    assert!(matches!(begin().flags_read(Err("getfl"), NONBLOCK), BlockingFd::Done(Err("getfl"))));

    let next = begin().flags_read(Ok(NONBLOCK | 2), NONBLOCK);
    assert!(matches!(next, BlockingFd::SetFlags(2)));
    assert!(matches!(next.switched(Ok(())), BlockingFd::Done(Ok(()))));
    let next = begin().flags_read(Ok(NONBLOCK), NONBLOCK);
    assert!(matches!(next, BlockingFd::SetFlags(0)));
    assert!(matches!(next.switched(Err("setfl")), BlockingFd::Done(Err("setfl"))));
}

#[test]
fn flags_without_the_mode_are_left_alone() {
    let next = blocking_fd::<&str>(Platform::OtherUnix).flags_read(Ok(2), NONBLOCK);
    assert!(matches!(next, BlockingFd::Done(Ok(()))));
}
