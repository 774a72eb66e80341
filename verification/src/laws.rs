//! What the timer guarantees as a whole, stated over the models of the
//! controller and of the countdown.
//!
//! The runner of a countdown polls it with what it observes. When a poll is
//! answered with `Fire`, the runner reports the expiry to the controller and
//! runs the action if the controller grants it. When the controller hands
//! out a handle as cancelled or replaced, the caller signals that handle's
//! countdown, and the next poll of it observes the signal.

use vstd::prelude::*;
use crate::controller::{ControllerView, TimerState, ToggleView};
use crate::countdown::{
    lemma_fires_at_most_once, lemma_first_deciding_observation_settles,
    lemma_signalled_countdown_never_fires, lemma_undecided_countdown_sleeps, CountdownAction,
    CountdownView, Observation,
};
use crate::handle::{wait_of, HandleView};

verus! {

/// Some observation among the first `n` of `polls` shows the wait of
/// `handle` to be over.
pub open spec fn expiry_seen(handle: HandleView, polls: Seq<Observation>, n: nat) -> bool {
    exists|i: int| 0 <= i < n && handle.expired((#[trigger] polls[i]).now)
}

/// The least index among the first `n` of `polls` whose observation decides.
proof fn lemma_least_deciding(handle: HandleView, polls: Seq<Observation>, n: nat) -> (k: nat)
    requires
        n <= polls.len(),
        exists|i: int| 0 <= i < n && (#[trigger] polls[i]).decides(handle),
    ensures
        k < n,
        polls[k as int].decides(handle),
        forall|i: int| 0 <= i < k ==> !(#[trigger] polls[i]).decides(handle),
    decreases n,
{
    if exists|i: int| 0 <= i < n - 1 && (#[trigger] polls[i]).decides(handle) {
        lemma_least_deciding(handle, polls, (n - 1) as nat)
    } else {
        (n - 1) as nat
    }
}

/// A timer that is armed and never cancelled fires exactly once, at the
/// first poll that finds the wait over, and not before.
///
/// For every number of polls: the countdown has fired once if one of them
/// found the wait over, and not at all otherwise. A poll that is answered
/// with `Fire` reads a clock on which at least the wait has gone by since the
/// arming. The controller, which still holds the handle, grants the expiry
/// and is idle afterwards.
pub proof fn lemma_uncancelled_timer_fires_exactly_once(
    c: ControllerView,
    minutes: nat,
    now: nat,
    polls: Seq<Observation>,
)
    requires
        forall|i: int| 0 <= i < polls.len() ==> !(#[trigger] polls[i]).signalled,
    ensures
        ({
            let (armed_controller, armed) = c.arm(minutes, now);
            let countdown = CountdownView::start(armed.handle);
            &&& forall|n: nat|
                n <= polls.len() ==> #[trigger] countdown.fires(polls, n) == if expiry_seen(
                    armed.handle,
                    polls,
                    n,
                ) {
                    1nat
                } else {
                    0nat
                }
            &&& forall|i: nat|
                i < polls.len() && #[trigger] countdown.answer(polls, i) == CountdownAction::Fire
                    ==> armed.handle.elapsed(polls[i as int].now) >= wait_of(minutes)
            &&& armed_controller.expire(armed.handle.id) == (
                ControllerView { slot: None, next_id: armed_controller.next_id },
                true,
            )
        }),
{
    let (armed_controller, armed) = c.arm(minutes, now);
    let handle = armed.handle;
    let countdown = CountdownView::start(handle);
    assert forall|n: nat| n <= polls.len() implies #[trigger] countdown.fires(polls, n)
        == if expiry_seen(handle, polls, n) {
        1nat
    } else {
        0nat
    } by {
        if expiry_seen(handle, polls, n) {
            let k = lemma_least_deciding(handle, polls, n);
            lemma_first_deciding_observation_settles(handle, polls, k, n);
        } else {
            lemma_undecided_countdown_sleeps(handle, polls, n);
        }
    }
    assert forall|i: nat|
        i < polls.len() && #[trigger] countdown.answer(polls, i)
            == CountdownAction::Fire implies handle.elapsed(polls[i as int].now) >= wait_of(
        minutes,
    ) by {
        lemma_fires_at_most_once(countdown, polls, i);
    }
}

/// A timer that is armed and then cancelled before the wait is over never
/// fires.
///
/// Poll number `j` is the first to observe the signal, and no poll before it
/// found the wait over. Then the countdown has not fired after any number of
/// polls. On the controller's side the cancellation finds the handle in the
/// slot, so it returns `true`, and a report of expiry that comes later is
/// refused.
pub proof fn lemma_cancelled_timer_never_fires(
    c: ControllerView,
    minutes: nat,
    now: nat,
    polls: Seq<Observation>,
    j: nat,
)
    requires
        j < polls.len(),
        polls[j as int].signalled,
        forall|i: int|
            0 <= i < j ==> !c.arm(minutes, now).1.handle.expired((#[trigger] polls[i]).now),
    ensures
        ({
            let (armed_controller, armed) = c.arm(minutes, now);
            let countdown = CountdownView::start(armed.handle);
            let (cancelled_controller, cancelled) = armed_controller.cancel();
            &&& forall|n: nat| n <= polls.len() ==> #[trigger] countdown.fires(polls, n) == 0
            &&& cancelled
            &&& cancelled_controller.state() == TimerState::Idle
            &&& cancelled_controller.expire(armed.handle.id) == (cancelled_controller, false)
        }),
{
    let handle = c.arm(minutes, now).1.handle;
    let countdown = CountdownView::start(handle);
    assert forall|n: nat| n <= polls.len() implies #[trigger] countdown.fires(polls, n) == 0 by {
        if exists|i: int| 0 <= i < n && (#[trigger] polls[i]).decides(handle) {
            let k = lemma_least_deciding(handle, polls, n);
            lemma_first_deciding_observation_settles(handle, polls, k, n);
        } else {
            lemma_undecided_countdown_sleeps(handle, polls, n);
        }
    }
}

/// Arming a timer that is armed replaces the countdown in flight.
///
/// The handle that was in the slot is handed out as replaced, for its
/// countdown to be signalled. That countdown, in whatever state the
/// re-arming finds it, does not fire once its next poll observes the signal,
/// and a late report of its expiry is refused by the controller and changes
/// nothing. The new handle has another identity, starts at the instant of
/// the re-arming and waits for the new idle time: an unsignalled poll of its
/// countdown is answered with `Fire` exactly if the clock shows that the new
/// wait has gone by since the re-arming, and with `Sleep` otherwise.
pub proof fn lemma_rearming_replaces_the_countdown(
    c: ControllerView,
    minutes: nat,
    now: nat,
    prior_countdown: CountdownView,
    later_polls: Seq<Observation>,
)
    requires
        c.wf(),
        c.slot == Some(prior_countdown.handle),
        later_polls.len() > 0 ==> later_polls[0].signalled,
    ensures
        ({
            let prior = prior_countdown.handle;
            let (rearmed, armed) = c.arm(minutes, now);
            let countdown = CountdownView::start(armed.handle);
            &&& armed.replaced == Some(prior)
            &&& forall|n: nat|
                n <= later_polls.len() ==> #[trigger] prior_countdown.fires(later_polls, n) == 0
            &&& rearmed.expire(prior.id) == (rearmed, false)
            &&& rearmed.slot == Some(armed.handle)
            &&& rearmed.wf()
            &&& armed.handle.id != prior.id
            &&& armed.handle.started_at == now
            &&& armed.handle.wait == wait_of(minutes)
            &&& forall|t: nat|
                t >= now ==> (#[trigger] countdown.poll(false, t)).1 == if t - now >= wait_of(
                    minutes,
                ) {
                    CountdownAction::Fire
                } else {
                    CountdownAction::Sleep
                }
        }),
{
    assert forall|n: nat| n <= later_polls.len() implies #[trigger] prior_countdown.fires(
        later_polls,
        n,
    ) == 0 by {
        lemma_signalled_countdown_never_fires(prior_countdown, later_polls, n);
    }
}

/// The controller after `n` cancellations in a row.
pub open spec fn cancelled_times(c: ControllerView, n: nat) -> ControllerView
    decreases n,
{
    if n == 0 {
        c
    } else {
        cancelled_times(c, (n - 1) as nat).cancel().0
    }
}

/// Cancelling an idle timer does nothing and returns `false`, however often
/// it is done.
pub proof fn lemma_cancelling_when_idle_does_nothing(c: ControllerView, n: nat)
    requires
        c.state() == TimerState::Idle,
    ensures
        cancelled_times(c, n) == c,
        !cancelled_times(c, n).cancel().1,
    decreases n,
{
    if n > 0 {
        lemma_cancelling_when_idle_does_nothing(c, (n - 1) as nat);
    }
}

/// Cancelling twice is as good as cancelling once: the timer is idle after
/// the first cancellation, and the second returns `false` and changes
/// nothing.
pub proof fn lemma_second_cancellation_does_nothing(c: ControllerView)
    ensures
        c.cancel().0.state() == TimerState::Idle,
        c.cancel().0.cancel() == (c.cancel().0, false),
{
}

/// Of a cancellation and the expiry of the countdown in flight, whichever
/// reaches the controller first wins, and the other finds nothing left to
/// do: after the cancellation the expiry is refused, so the action does not
/// run, and after the granted expiry the cancellation returns `false`. An
/// expiry that is reported a second time is refused as well. Either way the
/// timer ends up idle and the action runs at most once.
pub proof fn lemma_cancellation_and_expiry_exclude_each_other(c: ControllerView)
    requires
        c.slot is Some,
    ensures
        ({
            let id = c.slot->Some_0.id;
            let (after_cancel, cancelled) = c.cancel();
            let (after_expiry, granted) = c.expire(id);
            &&& cancelled
            &&& after_cancel.expire(id) == (after_cancel, false)
            &&& granted
            &&& after_expiry.cancel() == (after_expiry, false)
            &&& after_expiry.expire(id) == (after_expiry, false)
            &&& after_cancel == after_expiry
            &&& after_cancel.state() == TimerState::Idle
        }),
{
}

/// A handle never leaves the slot silently. Whatever is done to an armed
/// timer, its handle either stays in the slot or is handed out: a
/// cancellation returns `true`, an arming hands the handle out as replaced,
/// the toggle hands it out as cancelled, and a report of expiry is granted
/// exactly if it bears the handle's identity and changes nothing otherwise.
pub proof fn lemma_handle_never_leaves_silently(
    c: ControllerView,
    minutes: nat,
    now: nat,
    id: nat,
)
    requires
        c.slot is Some,
    ensures
        ({
            let held = c.slot->Some_0;
            &&& c.cancel().1
            &&& c.arm(minutes, now).1.replaced == Some(held)
            &&& c.toggle(minutes, now).1 == ToggleView::Cancelled(held)
            &&& c.expire(id).1 == (id == held.id)
            &&& id != held.id ==> c.expire(id).0 == c
        }),
{
}

/// An idle controller is well-formed, and every operation leaves a
/// well-formed controller well-formed.
pub proof fn lemma_operations_keep_the_controller_well_formed(
    c: ControllerView,
    minutes: nat,
    now: nat,
    id: nat,
)
    requires
        c.wf(),
    ensures
        ControllerView::idle().wf(),
        c.arm(minutes, now).0.wf(),
        c.cancel().0.wf(),
        c.expire(id).0.wf(),
        c.toggle(minutes, now).0.wf(),
{
}

/// The clock never runs backwards from one poll to the next, and no two
/// polls in a row are more than `gap` milliseconds apart.
pub open spec fn paced(polls: Seq<Observation>, gap: nat) -> bool {
    forall|i: int|
        0 <= i < polls.len() - 1 ==> (#[trigger] polls[i]).now <= polls[i + 1].now
            <= polls[i].now + gap
}

/// On paced polls a later poll reads no earlier clock.
proof fn lemma_paced_clock_is_monotonic(polls: Seq<Observation>, gap: nat, i: int, j: int)
    requires
        paced(polls, gap),
        0 <= i <= j < polls.len(),
    ensures
        polls[i].now <= polls[j].now,
    decreases j - i,
{
    if i < j {
        lemma_paced_clock_is_monotonic(polls, gap, i, j - 1);
    }
}

/// A countdown that is polled at a steady pace fires no later than one pause
/// after its wait is over.
///
/// The polls come at most `gap` milliseconds apart, start no earlier than
/// the countdown and no later than its deadline, and never observe the
/// signal. If one of the first `n` polls finds the wait over, then one of
/// them is answered with `Fire`, and it reads a clock that is at the
/// deadline or at most `gap` past it.
pub proof fn lemma_paced_countdown_fires_within_one_pause(
    handle: HandleView,
    polls: Seq<Observation>,
    gap: nat,
    n: nat,
)
    requires
        n <= polls.len(),
        paced(polls, gap),
        forall|i: int| 0 <= i < polls.len() ==> !(#[trigger] polls[i]).signalled,
        polls.len() > 0 ==> handle.started_at <= polls[0].now <= handle.started_at + handle.wait,
        expiry_seen(handle, polls, n),
    ensures
        exists|k: nat|
            k < n && #[trigger] CountdownView::start(handle).answer(polls, k)
                == CountdownAction::Fire && handle.started_at + handle.wait <= polls[k as int].now
                <= handle.started_at + handle.wait + gap,
{
    let k = lemma_least_deciding(handle, polls, n);
    lemma_first_deciding_observation_settles(handle, polls, k, n);
    lemma_paced_clock_is_monotonic(polls, gap, 0, k as int);
    if k > 0 {
        lemma_paced_clock_is_monotonic(polls, gap, 0, k - 1);
    }
}

} // verus!
