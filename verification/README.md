# async-process

The decisions behind asynchronous processes, verified with [Verus].

* `src/` is the library. It decides what comes next when processes are launched, waited for, read
  from, killed and reaped, and makes no call to the operating system. Every function has a contract,
  and the modules whose names end in `laws` prove what holds across calls: that no process is lost
  or reaped twice even when a poller is stopped in the middle of its work, that no wait and no
  zombie is abandoned when a poller goes, that there is one poller at a time, and more.
* `app/` is the async interface for users. It makes the calls, awaits them, and reports back.
* `tests/` drives the library against a pretend system.

What is believed without proof is in `src/event.rs`, `src/atomic.rs` and `src/shared.rs`: the calls
into `event-listener` and `async-lock`, and those on shared counters and shared ownership. Each
states what was asked of the call; what other threads do meanwhile is left open. The laws take it
that a notification reaches every listener registered by then, that a lock has one holder, and that
an attempt to take a lock at once fails only while somebody holds it or waits for it.

[Verus]: https://github.com/verus-lang/verus
