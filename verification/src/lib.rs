//! A cancellable idle timer that puts the machine into hibernation.
//!
//! The crate holds the decisions of the timer and of the hibernation action
//! as state machines over plain values. Clocks, threads, signals and the
//! operating-system commands belong to the caller, which performs what the
//! state machines ask for and reports back what it observed.
//!
//! - [`handle`]: idle times, wait intervals and the handle of one countdown.
//! - [`controller`]: the timer controller with its single slot.
//! - [`countdown`]: the countdown of one handle, poll by poll.
//! - [`action`]: the two steps of the hibernation action.
//! - [`laws`]: what the controller and the countdown guarantee together.

pub mod action;
pub mod controller;
pub mod countdown;
pub mod handle;
pub mod laws;
