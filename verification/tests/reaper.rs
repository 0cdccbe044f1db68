use async_process::zombies::BATCH;
use async_process::{
    cleanup_zombies, Cleanup, CleanupState, Ending, Pass, PassStep, Reap, ReapStep, Reaper, Zombies,
};
use std::time::Duration;

type Answer = Result<Option<i32>, ()>;

const RUNNING: Answer = Ok(None);

fn zombies(processes: std::ops::Range<u32>) -> Zombies<u32> {
    let mut zombies = Zombies::new();
    for process in processes {
        zombies.push_zombie(process, RUNNING);
    }
    zombies
}

/// The processes on a list, in their order.
fn listed(zombies: &mut Zombies<u32>) -> Vec<u32> {
    let mut order = Vec::new();
    if let Some(mut pass) = zombies.take() {
        loop {
            match pass.step() {
                PassStep::Poll => {
                    order.push(*pass.zombie());
                    pass.polled(RUNNING);
                }
                PassStep::Yield => pass.yielded(),
                PassStep::Finished => break,
            }
        }
        zombies.put_back(pass);
    }
    order
}

/// Walks over the list; returns what was asked and after how many questions each yield came.
fn walk(pass: &mut Pass<u32>, answer: impl Fn(u32) -> Answer) -> (Vec<u32>, Vec<usize>) {
    let mut asked = Vec::new();
    let mut yields = Vec::new();
    loop {
        match pass.step() {
            PassStep::Poll => {
                let process = *pass.zombie();
                asked.push(process);
                pass.polled(answer(process));
            }
            PassStep::Yield => {
                yields.push(asked.len());
                pass.yielded();
            }
            PassStep::Finished => return (asked, yields),
        }
    }
}

#[test]
fn an_exited_process_is_not_pushed() {
    let mut zombies: Zombies<u32> = Zombies::new();
    zombies.push_zombie(1, RUNNING);
    zombies.push_zombie(2, Ok::<Option<i32>, ()>(Some(0)));
    zombies.push_zombie(3, Err::<Option<i32>, ()>(()));
    zombies.push_zombie(4, RUNNING);
    assert_eq!(listed(&mut zombies), [1, 4]);
}

#[test]
fn an_empty_list_gives_no_pass() {
    let mut zombies: Zombies<u32> = Zombies::new();
    assert!(zombies.take().is_none());
}

#[test]
fn a_pass_asks_everyone_once_and_reaps_the_exited() {
    let mut list = zombies(0..6);
    let mut pass = list.take().unwrap();
    let (mut asked, yields) = walk(&mut pass, |p| if p % 2 == 0 { Ok(Some(0)) } else { RUNNING });
    // The place of one that has exited goes to the last on the list.
    assert_eq!(asked, [0, 5, 1, 2, 4, 3]);
    asked.sort();
    assert_eq!(asked, [0, 1, 2, 3, 4, 5]);
    assert!(yields.is_empty());
    list.put_back(pass);
    assert_eq!(listed(&mut list), [5, 1, 3]);
}

#[test]
fn an_error_counts_as_an_exit() {
    let mut list = zombies(0..3);
    let mut pass = list.take().unwrap();
    walk(&mut pass, |p| if p == 1 { Err(()) } else { RUNNING });
    list.put_back(pass);
    assert_eq!(listed(&mut list), [0, 2]);
}

#[test]
fn newcomers_go_behind_those_that_still_run() {
    let mut list = zombies(0..3);
    let mut pass = list.take().unwrap();
    list.push_zombie(10, RUNNING);
    list.push_zombie(11, RUNNING);
    walk(&mut pass, |p| if p == 0 { Ok(Some(0)) } else { RUNNING });
    list.put_back(pass);
    assert_eq!(listed(&mut list), [2, 1, 10, 11]);
}

#[test]
fn a_pass_yields_after_each_batch() {
    assert_eq!(BATCH, 100);
    let yields = |n: u32, answer: fn(u32) -> Answer| {
        let mut pass = zombies(0..n).take().unwrap();
        let (asked, yields) = walk(&mut pass, answer);
        assert_eq!(asked.len(), n as usize);
        yields
    };
    assert_eq!(yields(99, |_| RUNNING), []);
    // A full batch ends with a yield even when nobody is left to ask.
    assert_eq!(yields(100, |_| RUNNING), [100]);
    assert_eq!(yields(101, |_| RUNNING), [100]);
    assert_eq!(yields(250, |_| RUNNING), [100, 200]);
    assert_eq!(yields(200, |_| Ok(Some(0))), [100, 200]);
}

#[test]
fn a_round_of_the_polling_loop() {
    let reaper = Reaper::new();
    let mut list = zombies(0..2);
    let mut reap: Reap<'_, u32> = reaper.driven().ok().unwrap();

    assert_eq!(reap.step(), ReapStep::Wait);
    reap.signalled();
    assert_eq!(reap.step(), ReapStep::Notify);
    reap.notify(&reaper);
    assert_eq!(reap.step(), ReapStep::Take);
    reap.take(&mut list);
    list.push_zombie(7, RUNNING);
    assert_eq!(reap.step(), ReapStep::Poll);
    assert_eq!(*reap.zombie(), 0);
    reap.polled(Ok::<Option<i32>, ()>(Some(1)));
    assert_eq!(*reap.zombie(), 1);
    reap.polled(RUNNING);
    assert_eq!(reap.step(), ReapStep::PutBack);
    reap.put_back(&mut list);
    assert_eq!(reap.step(), ReapStep::Wait);
    assert_eq!(listed(&mut list), [1, 7]);
}

#[test]
fn an_empty_list_sends_the_loop_back_to_waiting() {
    let reaper = Reaper::new();
    let mut list: Zombies<u32> = Zombies::new();
    let mut reap: Reap<'_, u32> = reaper.driven().ok().unwrap();
    reap.signalled();
    reap.notify(&reaper);
    reap.take(&mut list);
    assert_eq!(reap.step(), ReapStep::Wait);
}

#[test]
fn the_loop_yields_in_the_middle_of_a_pass() {
    let reaper = Reaper::new();
    let mut list = zombies(0..101);
    let mut reap: Reap<'_, u32> = reaper.driven().ok().unwrap();
    reap.signalled();
    reap.notify(&reaper);
    reap.take(&mut list);
    for _ in 0..100 {
        assert_eq!(reap.step(), ReapStep::Poll);
        reap.polled(RUNNING);
    }
    assert_eq!(reap.step(), ReapStep::Yield);
    reap.yielded();
    assert_eq!(reap.step(), ReapStep::Poll);
    assert_eq!(*reap.zombie(), 100);
    reap.polled(RUNNING);
    reap.put_back(&mut list);
    assert_eq!(listed(&mut list).len(), 101);
}

#[test]
fn a_signal_wakes_everybody_who_listens() {
    let reaper = Reaper::new();
    let first = reaper.listen().into_inner();
    let second = reaper.listen().into_inner();
    let mut reap: Reap<'_, u32> = reaper.driven().ok().unwrap();
    reap.signalled();
    reap.notify(&reaper);
    // Whoever comes after the signal waits for the next one.
    let late = reaper.listen().into_inner();
    assert!(first.wait_timeout(Duration::from_secs(5)));
    assert!(second.wait_timeout(Duration::from_secs(5)));
    assert!(!late.wait_timeout(Duration::from_millis(20)));
}

#[test]
fn nobody_is_woken_without_a_signal() {
    let reaper = Reaper::new();
    let listener = reaper.listen().into_inner();
    assert!(!listener.wait_timeout(Duration::from_millis(20)));
}

#[test]
fn one_poller_at_a_time() {
    let reaper = Reaper::new();
    let backup = reaper.driven::<u32>();
    assert!(backup.is_ok());
    assert_eq!(backup.as_ref().ok().unwrap().step(), ReapStep::Wait);
    assert!(reaper.driven::<u32>().is_err());
    drop(backup);
    assert!(reaper.driven::<u32>().is_ok());
}

/// Carries the end of a routine through.
fn end<'r>(
    reaper: &'r Reaper,
    cleanup: Cleanup<'r, u32>,
    zombies: &mut Zombies<u32>,
) -> Ending<'r, u32> {
    let mut ending = cleanup.end(zombies);
    loop {
        ending = match ending {
            Ending::Leave(_) => ending.leave(reaper),
            Ending::Wake(_) => ending.wake(reaper),
            Ending::Drive(_) => ending.drive(reaper, zombies),
            Ending::Others(_) | Ending::Done(_) => return ending,
        }
    }
}

#[test]
fn a_cleanup_routine_keeps_the_backup_thread_away() {
    let reaper = Reaper::new();
    let mut list: Zombies<u32> = Zombies::new();
    let cleanup: Cleanup<'_, u32> = cleanup_zombies(&reaper);
    match &cleanup.state {
        CleanupState::Reap(reap) => assert_eq!(reap.step(), ReapStep::Wait),
        CleanupState::Lock(_) => panic!(),
    }
    assert!(reaper.driven::<u32>().is_err());

    // The lock is free again once the routine has ended, and with no zombies nobody takes over.
    assert!(matches!(end(&reaper, cleanup, &mut list), Ending::Done(None)));
    assert!(reaper.driven::<u32>().is_ok());
}

#[test]
fn a_routine_that_finds_the_lock_taken_waits_for_it() {
    let reaper = Reaper::new();
    let backup = reaper.driven::<u32>().ok().unwrap();
    let cleanup: Cleanup<'_, u32> = cleanup_zombies(&reaper);
    assert!(matches!(cleanup.state, CleanupState::Lock(_)));
    drop(backup);
    let guard = reaper.hold(reaper.polling_guard().try_lock().unwrap()).ok().unwrap();
    let cleanup = cleanup.locked(&reaper, guard);
    assert!(matches!(cleanup.state, CleanupState::Reap(_)));
    assert!(reaper.driven::<u32>().is_err());
}

#[test]
fn a_routine_that_ends_in_the_middle_of_a_pass_leaks_no_child() {
    let reaper = Reaper::new();
    let mut list = zombies(0..150);
    let mut cleanup: Cleanup<'_, u32> = cleanup_zombies(&reaper);
    match &mut cleanup.state {
        CleanupState::Reap(reap) => {
            reap.signalled();
            reap.notify(&reaper);
            reap.take(&mut list);
            for _ in 0..100 {
                reap.polled(RUNNING);
            }
            assert_eq!(reap.step(), ReapStep::Yield);
        }
        CleanupState::Lock(_) => panic!(),
    }
    assert!(list.is_empty());
    list.push_zombie(150, RUNNING);

    // There are zombies left, so somebody else is to poll.
    match end(&reaper, cleanup, &mut list) {
        Ending::Done(Some(Ok(reap))) => assert_eq!(reap.step(), ReapStep::Wait),
        _ => panic!(),
    }
    assert_eq!(listed(&mut list), (0..151).collect::<Vec<u32>>());
}

#[test]
fn another_routine_takes_over() {
    let reaper = Reaper::new();
    let mut list = zombies(0..3);
    let listener = reaper.listen().into_inner();
    let first: Cleanup<'_, u32> = cleanup_zombies(&reaper);
    let second: Cleanup<'_, u32> = cleanup_zombies(&reaper);
    assert!(matches!(first.state, CleanupState::Reap(_)));
    assert!(matches!(second.state, CleanupState::Lock(_)));

    // Nobody is woken and no thread is started for that: the second one waits for the lock.
    assert!(matches!(end(&reaper, first, &mut list), Ending::Others(_)));
    assert!(!listener.wait_timeout(Duration::from_millis(20)));

    // But when it ends without having got it, it hands over.
    let listener = reaper.listen().into_inner();
    assert!(matches!(end(&reaper, second, &mut list), Ending::Done(Some(Ok(_)))));
    assert!(listener.wait_timeout(Duration::from_secs(5)));
}

#[test]
fn a_loop_that_is_released_gives_everything_back() {
    let reaper = Reaper::new();
    let mut list = zombies(0..3);
    let mut reap: Reap<'_, u32> = reaper.driven().ok().unwrap();
    reap.signalled();
    reap.notify(&reaper);
    reap.take(&mut list);
    reap.polled(Ok::<Option<i32>, ()>(Some(0)));
    let guard = reap.release(&mut list);
    assert_eq!(listed(&mut list), [2, 1]);
    assert!(reaper.driven::<u32>().is_err());
    drop(guard);
    assert!(reaper.driven::<u32>().is_ok());
}

#[test]
fn pushing_a_zombie_has_the_reaper_driven() {
    let reaper = Reaper::new();
    let mut list: Zombies<u32> = Zombies::new();
    let backup = reaper.push_zombie(&mut list, 1, RUNNING);
    assert!(backup.is_ok());
    assert!(reaper.push_zombie(&mut list, 2, Ok::<Option<i32>, ()>(Some(0))).is_err());
    assert!(reaper.push_zombie(&mut list, 3, RUNNING).is_err());
    assert_eq!(listed(&mut list), [1, 3]);
}

#[test]
fn a_guard_of_another_lock_is_handed_back() {
    let (reaper, other) = (Reaper::new(), Reaper::new());
    let foreign = reaper.hold(other.polling_guard().try_lock().unwrap()).err().unwrap();
    assert!(!foreign.comparison.is_same());
    assert!(reaper.driven::<u32>().is_ok());
    assert!(other.driven::<u32>().is_err());
    drop(foreign);
    assert!(other.driven::<u32>().is_ok());
}

#[test]
fn a_backup_is_needed_when_the_lock_was_free() {
    let reaper = Reaper::new();
    let guard = reaper.hold(reaper.polling_guard().try_lock().unwrap()).ok().unwrap();
    let busy = reaper.driven::<u32>().err().unwrap();
    assert!(reaper.backup::<u32>(Err(busy)).is_err());
    let reap = reaper.backup::<u32>(Ok(guard)).ok().unwrap();
    assert_eq!(reap.step(), ReapStep::Wait);
}
