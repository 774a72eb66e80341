//! The countdown of one handle: what to do at each poll.
//!
//! A countdown is polled by whoever runs it: once when it starts and then
//! after every pause. Each poll brings two observations, whether the
//! cancellation signal has arrived and what the clock reads, and is answered
//! with what to do next.

use vstd::prelude::*;
use crate::handle::{HandleView, TimerHandle};

verus! {

/// Where a countdown stands.
#[derive(Clone, Copy, Debug, PartialEq, Eq, Structural)]
pub enum CountdownState {
    /// Still waiting.
    Running,
    /// The cancellation signal was seen before the wait was over.
    Cancelled,
    /// The wait was seen to be over and the countdown asked for the action.
    Fired,
}

/// What the runner of a countdown does after a poll.
#[derive(Clone, Copy, Debug, PartialEq, Eq, Structural)]
pub enum CountdownAction {
    /// Pause for one poll interval, then poll again.
    Sleep,
    /// End the countdown without the action.
    Stop,
    /// End the countdown and report the expiry to the controller; the
    /// action runs if the controller grants the expiry.
    Fire,
}

/// The model of a countdown.
pub struct CountdownView {
    pub handle: HandleView,
    pub state: CountdownState,
}

impl CountdownView {
    /// The countdown of `handle` before its first poll.
    pub open spec fn start(handle: HandleView) -> CountdownView {
        CountdownView { handle, state: CountdownState::Running }
    }

    /// One poll. A finished countdown stays as it is. A running one looks at
    /// the signal first and at the clock second.
    pub open spec fn poll(self, signalled: bool, now: nat) -> (CountdownView, CountdownAction) {
        if self.state != CountdownState::Running {
            (self, CountdownAction::Stop)
        } else if signalled {
            (
                CountdownView { handle: self.handle, state: CountdownState::Cancelled },
                CountdownAction::Stop,
            )
        } else if self.handle.expired(now) {
            (
                CountdownView { handle: self.handle, state: CountdownState::Fired },
                CountdownAction::Fire,
            )
        } else {
            (self, CountdownAction::Sleep)
        }
    }
}

/// What one poll observes: whether the cancellation signal has arrived, and
/// the clock reading in milliseconds.
pub struct Observation {
    pub signalled: bool,
    pub now: nat,
}

impl Observation {
    /// The observation ends a running countdown of `handle`, one way or the
    /// other.
    pub open spec fn decides(self, handle: HandleView) -> bool {
        self.signalled || handle.expired(self.now)
    }
}

impl CountdownView {
    /// The countdown after the first `n` of `polls`.
    pub open spec fn after(self, polls: Seq<Observation>, n: nat) -> CountdownView
        decreases n,
    {
        if n == 0 {
            self
        } else {
            let last = polls[n - 1];
            self.after(polls, (n - 1) as nat).poll(last.signalled, last.now).0
        }
    }

    /// The answer to poll number `i`, counted from 0.
    pub open spec fn answer(self, polls: Seq<Observation>, i: nat) -> CountdownAction {
        self.after(polls, i).poll(polls[i as int].signalled, polls[i as int].now).1
    }

    /// How many of the first `n` of `polls` are answered with `Fire`.
    pub open spec fn fires(self, polls: Seq<Observation>, n: nat) -> nat
        decreases n,
    {
        if n == 0 {
            0
        } else {
            let earlier = self.fires(polls, (n - 1) as nat);
            if self.answer(polls, (n - 1) as nat) == CountdownAction::Fire {
                earlier + 1
            } else {
                earlier
            }
        }
    }
}

/// A countdown that has ended stays ended: whatever is observed later, it
/// does not change, every answer is `Stop`, and nothing fires.
pub proof fn lemma_ended_countdown_is_inert(c: CountdownView, polls: Seq<Observation>, n: nat)
    requires
        c.state != CountdownState::Running,
        n <= polls.len(),
    ensures
        c.after(polls, n) == c,
        c.fires(polls, n) == 0,
        forall|i: nat| i < n ==> #[trigger] c.answer(polls, i) == CountdownAction::Stop,
    decreases n,
{
    if n > 0 {
        lemma_ended_countdown_is_inert(c, polls, (n - 1) as nat);
    }
}

/// A countdown whose next poll observes the signal does not fire, then or
/// later, whatever state it is in and whatever the clock reads.
pub proof fn lemma_signalled_countdown_never_fires(
    c: CountdownView,
    polls: Seq<Observation>,
    n: nat,
)
    requires
        n <= polls.len(),
        polls.len() > 0 ==> polls[0].signalled,
    ensures
        c.fires(polls, n) == 0,
        n > 0 ==> c.after(polls, n).state != CountdownState::Running,
    decreases n,
{
    if n > 0 {
        lemma_signalled_countdown_never_fires(c, polls, (n - 1) as nat);
    }
}

/// A countdown fires at most once, whatever is observed and in whatever
/// order: the number of `Fire` answers is 0 or 1, and for a countdown that
/// starts out running it is 1 exactly if the countdown ends up fired.
pub proof fn lemma_fires_at_most_once(c: CountdownView, polls: Seq<Observation>, n: nat)
    requires
        n <= polls.len(),
    ensures
        c.fires(polls, n) <= 1,
        c.state == CountdownState::Running ==> (c.fires(polls, n) == 1 <==> c.after(polls, n).state
            == CountdownState::Fired),
        c.after(polls, n).handle == c.handle,
    decreases n,
{
    if n > 0 {
        lemma_fires_at_most_once(c, polls, (n - 1) as nat);
        if c.state != CountdownState::Running {
            lemma_ended_countdown_is_inert(c, polls, n);
            lemma_ended_countdown_is_inert(c, polls, (n - 1) as nat);
        }
    }
}

/// While nothing decides, a running countdown keeps running: every answer is
/// `Sleep` and nothing fires.
pub proof fn lemma_undecided_countdown_sleeps(
    handle: HandleView,
    polls: Seq<Observation>,
    n: nat,
)
    requires
        n <= polls.len(),
        forall|i: int| 0 <= i < n ==> !(#[trigger] polls[i]).decides(handle),
    ensures
        CountdownView::start(handle).after(polls, n) == CountdownView::start(handle),
        CountdownView::start(handle).fires(polls, n) == 0,
        forall|i: nat|
            i < n ==> #[trigger] CountdownView::start(handle).answer(polls, i)
                == CountdownAction::Sleep,
    decreases n,
{
    if n > 0 {
        lemma_undecided_countdown_sleeps(handle, polls, (n - 1) as nat);
    }
}

/// The first observation that decides settles the countdown. Before it every
/// answer is `Sleep`. At it the answer is `Stop` if the signal has arrived,
/// whatever the clock reads, and `Fire` otherwise. After it every answer is
/// `Stop`. So the countdown fires once if the first deciding observation
/// comes without the signal, and never if it comes with it.
pub proof fn lemma_first_deciding_observation_settles(
    handle: HandleView,
    polls: Seq<Observation>,
    k: nat,
    n: nat,
)
    requires
        k < n <= polls.len(),
        polls[k as int].decides(handle),
        forall|i: int| 0 <= i < k ==> !(#[trigger] polls[i]).decides(handle),
    ensures
        forall|i: nat|
            i < k ==> #[trigger] CountdownView::start(handle).answer(polls, i)
                == CountdownAction::Sleep,
        CountdownView::start(handle).answer(polls, k) == if polls[k as int].signalled {
            CountdownAction::Stop
        } else {
            CountdownAction::Fire
        },
        forall|i: nat|
            k < i < n ==> #[trigger] CountdownView::start(handle).answer(polls, i)
                == CountdownAction::Stop,
        CountdownView::start(handle).fires(polls, n) == if polls[k as int].signalled {
            0nat
        } else {
            1nat
        },
        CountdownView::start(handle).after(polls, n).state == if polls[k as int].signalled {
            CountdownState::Cancelled
        } else {
            CountdownState::Fired
        },
    decreases n,
{
    lemma_undecided_countdown_sleeps(handle, polls, k);
    if n > k + 1 {
        lemma_first_deciding_observation_settles(handle, polls, k, (n - 1) as nat);
    }
}

/// The countdown of one handle.
#[derive(Debug)]
pub struct Countdown {
    handle: TimerHandle,
    state: CountdownState,
}

impl View for Countdown {
    type V = CountdownView;

    closed spec fn view(&self) -> CountdownView {
        CountdownView { handle: self.handle@, state: self.state }
    }
}

impl Countdown {
    /// The countdown of `handle`, not yet polled.
    pub fn new(handle: TimerHandle) -> (countdown: Countdown)
        ensures
            countdown@ == CountdownView::start(handle@),
    {
        Countdown { handle, state: CountdownState::Running }
    }

    /// Where the countdown stands.
    pub fn state(&self) -> (state: CountdownState)
        ensures
            state == self@.state,
    {
        self.state
    }

    /// The handle that the countdown belongs to.
    pub fn handle(&self) -> (handle: TimerHandle)
        ensures
            handle@ == self@.handle,
    {
        self.handle
    }

    /// One poll: `signalled` says whether the cancellation signal has
    /// arrived, `now` is the clock reading in milliseconds.
    pub fn poll(&mut self, signalled: bool, now: u64) -> (action: CountdownAction)
        ensures
            (final(self)@, action) == old(self)@.poll(signalled, now as nat),
    {
        match self.state {
            CountdownState::Running => {
                if signalled {
                    self.state = CountdownState::Cancelled;
                    CountdownAction::Stop
                } else if self.handle.expired_at(now) {
                    self.state = CountdownState::Fired;
                    CountdownAction::Fire
                } else {
                    CountdownAction::Sleep
                }
            },
            _ => CountdownAction::Stop,
        }
    }
}

} // verus!
