//! Idle times, wait intervals and the handle of one countdown.

use vstd::prelude::*;

verus! {

/// Milliseconds in one minute of idle time.
pub const MILLIS_PER_MINUTE: u64 = 60_000;

/// Longest pause, in milliseconds, between two polls of a running countdown.
pub const POLL_INTERVAL_MILLIS: u64 = 1_000;

/// Largest idle time, in minutes, that the front end offers. The timer
/// itself accepts every idle time.
pub const MAX_OFFERED_MINUTES: u32 = 60;

/// The wait interval, in milliseconds, of an idle time given in minutes.
pub open spec fn wait_of(minutes: nat) -> nat {
    minutes * 60_000
}

/// Converts an idle time in minutes to the wait interval in milliseconds.
pub fn wait_millis(minutes: u32) -> (millis: u64)
    ensures
        millis == wait_of(minutes as nat),
{
    let wide: u64 = minutes as u64;
    wide * MILLIS_PER_MINUTE
}

/// What a handle stands for: the identity of one countdown, the instant it
/// was started at and how long it waits, both in milliseconds.
pub struct HandleView {
    pub id: nat,
    pub started_at: nat,
    pub wait: nat,
}

impl HandleView {
    /// Time gone by since the start. A clock reading that lies before the
    /// start counts as no time at all.
    pub open spec fn elapsed(self, now: nat) -> nat {
        if now >= self.started_at {
            (now - self.started_at) as nat
        } else {
            0
        }
    }

    /// The wait is over at `now`.
    pub open spec fn expired(self, now: nat) -> bool {
        self.elapsed(now) >= self.wait
    }
}

/// One countdown in flight. Only a timer controller makes handles, one for
/// each arming.
#[derive(Clone, Copy, Debug, PartialEq, Eq, Structural)]
pub struct TimerHandle {
    id: u64,
    started_at: u64,
    wait: u64,
}

impl View for TimerHandle {
    type V = HandleView;

    closed spec fn view(&self) -> HandleView {
        HandleView {
            id: self.id as nat,
            started_at: self.started_at as nat,
            wait: self.wait as nat,
        }
    }
}

impl TimerHandle {
    pub(crate) fn new(id: u64, started_at: u64, wait: u64) -> (handle: TimerHandle)
        ensures
            handle@ == (HandleView {
                id: id as nat,
                started_at: started_at as nat,
                wait: wait as nat,
            }),
    {
        TimerHandle { id, started_at, wait }
    }

    /// Whether the wait of this handle is over at the clock reading `now`.
    pub fn expired_at(&self, now: u64) -> (over: bool)
        ensures
            over == self@.expired(now as nat),
    {
        let elapsed: u64 = if now >= self.started_at {
            now - self.started_at
        } else {
            0
        };
        elapsed >= self.wait
    }

    /// The identity of the countdown. A controller gives the handle of an
    /// arming another identity than that of the arming before.
    pub fn id(&self) -> (id: u64)
        ensures
            id == self@.id,
    {
        self.id
    }

    /// The clock reading, in milliseconds, at which the countdown started.
    pub fn started_at(&self) -> (millis: u64)
        ensures
            millis == self@.started_at,
    {
        self.started_at
    }

    /// The wait interval in milliseconds.
    pub fn wait(&self) -> (millis: u64)
        ensures
            millis == self@.wait,
    {
        self.wait
    }
}

} // verus!
