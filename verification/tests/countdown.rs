use hibernate_task::controller::TimerController;
use hibernate_task::countdown::{Countdown, CountdownAction, CountdownState};
use hibernate_task::handle::TimerHandle;

fn armed_at(minutes: u32, now: u64) -> TimerHandle {
    TimerController::new().arm(minutes, now).handle
}

fn count_fires(answers: &[CountdownAction]) -> usize {
    answers.iter().filter(|answer| **answer == CountdownAction::Fire).count()
}

#[test]
fn a_new_countdown_is_running() {
    let handle = armed_at(1, 0);
    let countdown = Countdown::new(handle);
    assert_eq!(countdown.state(), CountdownState::Running);
    assert_eq!(countdown.handle(), handle);
}

#[test]
fn a_poll_before_the_deadline_is_answered_with_sleep() {
    let mut countdown = Countdown::new(armed_at(1, 0));
    assert_eq!(countdown.poll(false, 0), CountdownAction::Sleep);
    assert_eq!(countdown.poll(false, 59_999), CountdownAction::Sleep);
    assert_eq!(countdown.state(), CountdownState::Running);
}

#[test]
fn the_poll_at_the_deadline_is_answered_with_fire() {
    let mut countdown = Countdown::new(armed_at(1, 0));
    assert_eq!(countdown.poll(false, 60_000), CountdownAction::Fire);
    assert_eq!(countdown.state(), CountdownState::Fired);
}

#[test]
fn an_uncancelled_countdown_fires_exactly_once() {
    let mut countdown = Countdown::new(armed_at(1, 250));
    let mut answers: Vec<CountdownAction> = Vec::new();
    let mut now: u64 = 250;
    while now <= 70_250 {
        answers.push(countdown.poll(false, now));
        now += 1_000;
    }
    assert_eq!(count_fires(&answers), 1);
    let fired_at = answers.iter().position(|answer| *answer == CountdownAction::Fire);
    assert_eq!(fired_at, Some(60));
    assert!(answers[..60].iter().all(|answer| *answer == CountdownAction::Sleep));
    assert!(answers[61..].iter().all(|answer| *answer == CountdownAction::Stop));
    assert_eq!(countdown.state(), CountdownState::Fired);
}

#[test]
fn a_countdown_cancelled_before_its_deadline_never_fires() {
    let mut countdown = Countdown::new(armed_at(1, 0));
    let mut answers: Vec<CountdownAction> = Vec::new();
    answers.push(countdown.poll(false, 0));
    answers.push(countdown.poll(false, 1_000));
    answers.push(countdown.poll(true, 2_000));
    let mut now: u64 = 3_000;
    while now <= 120_000 {
        answers.push(countdown.poll(false, now));
        now += 1_000;
    }
    assert_eq!(count_fires(&answers), 0);
    assert_eq!(answers[0], CountdownAction::Sleep);
    assert_eq!(answers[1], CountdownAction::Sleep);
    assert!(answers[2..].iter().all(|answer| *answer == CountdownAction::Stop));
    assert_eq!(countdown.state(), CountdownState::Cancelled);
}

#[test]
fn the_signal_wins_over_the_clock_in_one_poll() {
    let mut countdown = Countdown::new(armed_at(1, 0));
    assert_eq!(countdown.poll(false, 59_000), CountdownAction::Sleep);
    assert_eq!(countdown.poll(true, 60_000), CountdownAction::Stop);
    assert_eq!(countdown.state(), CountdownState::Cancelled);
    assert_eq!(countdown.poll(false, 61_000), CountdownAction::Stop);
}

#[test]
fn a_signal_after_the_firing_changes_nothing() {
    let mut countdown = Countdown::new(armed_at(0, 0));
    assert_eq!(countdown.poll(false, 0), CountdownAction::Fire);
    assert_eq!(countdown.poll(true, 0), CountdownAction::Stop);
    assert_eq!(countdown.poll(false, 5), CountdownAction::Stop);
    assert_eq!(countdown.state(), CountdownState::Fired);
}

#[test]
fn a_countdown_without_wait_fires_at_its_first_poll() {
    let mut countdown = Countdown::new(armed_at(0, 4_000));
    assert_eq!(countdown.poll(false, 4_000), CountdownAction::Fire);
}

#[test]
fn a_countdown_without_wait_that_is_signalled_at_once_does_not_fire() {
    let mut countdown = Countdown::new(armed_at(0, 4_000));
    assert_eq!(countdown.poll(true, 4_000), CountdownAction::Stop);
    assert_eq!(countdown.poll(false, 5_000), CountdownAction::Stop);
    assert_eq!(countdown.state(), CountdownState::Cancelled);
}

#[test]
fn a_clock_that_runs_backwards_does_not_fire_a_waiting_countdown() {
    let mut countdown = Countdown::new(armed_at(1, 10_000));
    assert_eq!(countdown.poll(false, 0), CountdownAction::Sleep);
    assert_eq!(countdown.poll(false, 69_999), CountdownAction::Sleep);
    assert_eq!(countdown.poll(false, 70_000), CountdownAction::Fire);
}

#[test]
fn a_steadily_polled_countdown_fires_within_one_pause_of_its_deadline() {
    let mut countdown = Countdown::new(armed_at(1, 0));
    let pause: u64 = 999;
    let mut now: u64 = 0;
    let mut fired_at: Option<u64> = None;
    while now <= 70_000 {
        if countdown.poll(false, now) == CountdownAction::Fire {
            assert_eq!(fired_at, None);
            fired_at = Some(now);
        }
        now += pause;
    }
    assert_eq!(fired_at, Some(60_939));
    assert!(60_000 <= 60_939 && 60_939 <= 60_000 + pause);
}

#[test]
fn two_countdowns_of_one_handle_run_the_action_once() {
    let mut controller = TimerController::new();
    let handle = controller.arm(0, 0).handle;
    let mut first = Countdown::new(handle);
    let mut second = Countdown::new(handle);
    assert_eq!(first.poll(false, 0), CountdownAction::Fire);
    assert_eq!(second.poll(false, 0), CountdownAction::Fire);
    assert!(controller.expire(first.handle().id()));
    assert!(!controller.expire(second.handle().id()));
}
