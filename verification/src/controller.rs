//! The timer controller: one slot for at most one countdown.

use vstd::prelude::*;
use crate::handle::{wait_millis, wait_of, HandleView, TimerHandle};

verus! {

/// Whether a countdown is in flight.
#[derive(Clone, Copy, Debug, PartialEq, Eq, Structural)]
pub enum TimerState {
    /// No handle exists.
    Idle,
    /// A handle exists and its countdown is running.
    Armed,
}

/// What arming brought about, as the model sees it.
pub struct ArmView {
    pub handle: HandleView,
    pub replaced: Option<HandleView>,
}

/// What a press of the toggle brought about, as the model sees it.
pub enum ToggleView {
    Armed(HandleView),
    Cancelled(HandleView),
}

/// The identity that follows `id`. Identities are 64-bit numbers and start
/// over after the largest.
pub open spec fn next_identity(id: nat) -> nat {
    if id >= u64::MAX {
        0
    } else {
        id + 1
    }
}

/// The model of a controller: the slot, and the identity that the next
/// handle will get.
pub struct ControllerView {
    pub slot: Option<HandleView>,
    pub next_id: nat,
}

impl ControllerView {
    /// A controller that has never been armed.
    pub open spec fn idle() -> ControllerView {
        ControllerView { slot: None, next_id: 0 }
    }

    /// What holds of every controller: the handle in the slot does not carry
    /// the identity that is given out next.
    pub open spec fn wf(self) -> bool {
        &&& self.next_id <= u64::MAX
        &&& self.slot matches Some(h) ==> h.id != self.next_id
    }

    /// Armed exactly if the slot holds a handle.
    pub open spec fn state(self) -> TimerState {
        if self.slot is Some {
            TimerState::Armed
        } else {
            TimerState::Idle
        }
    }

    /// Arming puts a fresh handle into the slot, started at `now`, and hands
    /// out the handle that was there before.
    pub open spec fn arm(self, minutes: nat, now: nat) -> (ControllerView, ArmView) {
        let handle = HandleView { id: self.next_id, started_at: now, wait: wait_of(minutes) };
        (
            ControllerView { slot: Some(handle), next_id: next_identity(self.next_id) },
            ArmView { handle, replaced: self.slot },
        )
    }

    /// Cancelling empties the slot and says whether it held a handle.
    pub open spec fn cancel(self) -> (ControllerView, bool) {
        (ControllerView { slot: None, next_id: self.next_id }, self.slot is Some)
    }

    /// The countdown with identity `id` reports that its wait is over. The
    /// report is granted, and the slot emptied, only if the slot holds that
    /// very countdown.
    pub open spec fn expire(self, id: nat) -> (ControllerView, bool) {
        if self.slot matches Some(h) && h.id == id {
            (ControllerView { slot: None, next_id: self.next_id }, true)
        } else {
            (self, false)
        }
    }

    /// The toggle cancels when armed and arms when idle.
    pub open spec fn toggle(self, minutes: nat, now: nat) -> (ControllerView, ToggleView) {
        match self.slot {
            Some(h) => (self.cancel().0, ToggleView::Cancelled(h)),
            None => {
                let (next, armed) = self.arm(minutes, now);
                (next, ToggleView::Armed(armed.handle))
            },
        }
    }
}

/// The model of an optional handle.
pub open spec fn handle_view(slot: Option<TimerHandle>) -> Option<HandleView> {
    match slot {
        Some(h) => Some(h@),
        None => None,
    }
}

/// What arming brought about.
#[derive(Clone, Copy, Debug, PartialEq, Eq)]
pub struct ArmOutcome {
    /// The handle of the countdown to start now.
    pub handle: TimerHandle,
    /// The handle that was in flight before; its countdown is to be
    /// signalled to stop.
    pub replaced: Option<TimerHandle>,
}

impl View for ArmOutcome {
    type V = ArmView;

    open spec fn view(&self) -> ArmView {
        ArmView { handle: self.handle@, replaced: handle_view(self.replaced) }
    }
}

/// What a press of the toggle brought about.
#[derive(Clone, Copy, Debug, PartialEq, Eq)]
pub enum ToggleOutcome {
    /// The timer was idle; the countdown of this handle is to be started.
    Armed(TimerHandle),
    /// The timer was armed; the countdown of this handle is to be signalled
    /// to stop.
    Cancelled(TimerHandle),
}

impl View for ToggleOutcome {
    type V = ToggleView;

    open spec fn view(&self) -> ToggleView {
        match *self {
            ToggleOutcome::Armed(h) => ToggleView::Armed(h@),
            ToggleOutcome::Cancelled(h) => ToggleView::Cancelled(h@),
        }
    }
}

/// Owns the lifecycle of at most one countdown.
#[derive(Debug)]
pub struct TimerController {
    slot: Option<TimerHandle>,
    next_id: u64,
}

impl View for TimerController {
    type V = ControllerView;

    closed spec fn view(&self) -> ControllerView {
        ControllerView { slot: handle_view(self.slot), next_id: self.next_id as nat }
    }
}

impl TimerController {
    #[verifier::type_invariant]
    spec fn inv(self) -> bool {
        self@.wf()
    }

    /// An idle controller.
    pub fn new() -> (controller: TimerController)
        ensures
            controller@ == ControllerView::idle(),
    {
        TimerController { slot: None, next_id: 0 }
    }

    /// Starts a new countdown of `minutes` minutes at the clock reading
    /// `now`. A countdown that was in flight is cancelled first and handed
    /// out as `replaced`.
    pub fn arm(&mut self, minutes: u32, now: u64) -> (outcome: ArmOutcome)
        ensures
            (final(self)@, outcome@) == old(self)@.arm(minutes as nat, now as nat),
            final(self)@.wf(),
    {
        proof {
            use_type_invariant(&*self);
        }
        let replaced = self.slot;
        let id: u64 = self.next_id;
        let following: u64 = if id == u64::MAX {
            0
        } else {
            id + 1
        };
        let handle = TimerHandle::new(id, now, wait_millis(minutes));
        *self = TimerController { slot: Some(handle), next_id: following };
        ArmOutcome { handle, replaced }
    }

    /// Cancels the countdown in flight, if there is one, and says whether
    /// there was.
    pub fn cancel(&mut self) -> (cancelled: bool)
        ensures
            (final(self)@, cancelled) == old(self)@.cancel(),
            final(self)@.wf(),
    {
        proof {
            use_type_invariant(&*self);
        }
        let cancelled = self.slot.is_some();
        *self = TimerController { slot: None, next_id: self.next_id };
        cancelled
    }

    /// Takes the report of the countdown with identity `id` that its wait is
    /// over, and says whether the action is to run: it is, exactly if the
    /// slot still held that countdown. The slot is then empty.
    pub fn expire(&mut self, id: u64) -> (granted: bool)
        ensures
            (final(self)@, granted) == old(self)@.expire(id as nat),
            final(self)@.wf(),
    {
        proof {
            use_type_invariant(&*self);
        }
        match self.slot {
            Some(h) => {
                if h.id() == id {
                    *self = TimerController { slot: None, next_id: self.next_id };
                    true
                } else {
                    false
                }
            },
            None => false,
        }
    }

    /// Whether a countdown is in flight.
    pub fn state(&self) -> (state: TimerState)
        ensures
            state == self@.state(),
            self@.wf(),
    {
        proof {
            use_type_invariant(self);
        }
        match self.slot {
            Some(_) => TimerState::Armed,
            None => TimerState::Idle,
        }
    }

    /// Whether a countdown is in flight.
    pub fn is_armed(&self) -> (armed: bool)
        ensures
            armed == (self@.state() == TimerState::Armed),
            self@.wf(),
    {
        proof {
            use_type_invariant(self);
        }
        self.slot.is_some()
    }

    /// The handle of the countdown in flight.
    pub fn handle(&self) -> (handle: Option<TimerHandle>)
        ensures
            handle_view(handle) == self@.slot,
            self@.wf(),
    {
        proof {
            use_type_invariant(self);
        }
        self.slot
    }

    /// One press of the toggle: cancels when armed, arms when idle.
    pub fn toggle(&mut self, minutes: u32, now: u64) -> (outcome: ToggleOutcome)
        ensures
            (final(self)@, outcome@) == old(self)@.toggle(minutes as nat, now as nat),
            final(self)@.wf(),
    {
        match self.slot {
            Some(h) => {
                self.cancel();
                ToggleOutcome::Cancelled(h)
            },
            None => {
                let armed = self.arm(minutes, now);
                ToggleOutcome::Armed(armed.handle)
            },
        }
    }
}

impl Default for TimerController {
    /// An idle controller.
    fn default() -> (controller: TimerController)
        ensures
            controller@ == ControllerView::idle(),
    {
        TimerController::new()
    }
}

} // verus!
