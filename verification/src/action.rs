//! The hibernation action: enable the capability, then hibernate.
//!
//! One invocation is a state machine. The caller runs the operating-system
//! command of the step that the machine asks for and records whether it
//! succeeded. The second step is asked for whatever the first one gave.

use vstd::prelude::*;

verus! {

/// The two steps of the action, in the order in which they are attempted.
#[derive(Clone, Copy, Debug, PartialEq, Eq, Structural)]
pub enum ActionStep {
    /// Enable the hibernation capability.
    Enable,
    /// Hibernate now.
    Hibernate,
}

/// A step of the action failed.
#[derive(Clone, Copy, Debug, PartialEq, Eq, Structural)]
pub struct ActionStepFailed {
    pub step: ActionStep,
}

impl ActionStepFailed {
    /// The line that reports the failure.
    pub fn message(&self) -> (line: &'static str)
        ensures
            line@ == (StepReport { step: self.step, succeeded: false }).spec_message(),
    {
        let report = StepReport { step: self.step, succeeded: false };
        report.message()
    }
}

/// The outcome of one attempted step.
#[derive(Clone, Copy, Debug, PartialEq, Eq, Structural)]
pub struct StepReport {
    pub step: ActionStep,
    pub succeeded: bool,
}

impl StepReport {
    /// The line that reports this outcome.
    pub open spec fn spec_message(self) -> Seq<char> {
        match (self.step, self.succeeded) {
            (ActionStep::Enable, true) => "Hibernation enabled successfully."@,
            (ActionStep::Enable, false) => "Failed to enable hibernation."@,
            (ActionStep::Hibernate, true) => "System hibernating..."@,
            (ActionStep::Hibernate, false) => "Failed to hibernate system."@,
        }
    }

    /// The outcome as a result: the failed step is the error.
    pub open spec fn spec_result(self) -> Result<(), ActionStepFailed> {
        if self.succeeded {
            Ok(())
        } else {
            Err(ActionStepFailed { step: self.step })
        }
    }

    /// The line that reports this outcome. A failure is reported as an
    /// error, a success as plain output.
    pub fn message(&self) -> (line: &'static str)
        ensures
            line@ == self.spec_message(),
    {
        match self.step {
            ActionStep::Enable => {
                if self.succeeded {
                    "Hibernation enabled successfully."
                } else {
                    "Failed to enable hibernation."
                }
            },
            ActionStep::Hibernate => {
                if self.succeeded {
                    "System hibernating..."
                } else {
                    "Failed to hibernate system."
                }
            },
        }
    }

    /// The outcome as a result: the failed step is the error.
    pub fn result(&self) -> (result: Result<(), ActionStepFailed>)
        ensures
            result == self.spec_result(),
    {
        if self.succeeded {
            Ok(())
        } else {
            Err(ActionStepFailed { step: self.step })
        }
    }
}

/// One invocation of the action, by the state it is in. From hibernation
/// being requested on, the state carries what enabling gave.
#[derive(Clone, Copy, Debug, PartialEq, Eq, Structural)]
pub enum HibernateAction {
    /// Enabling is to be attempted.
    EnableRequested,
    /// Enabling succeeded.
    Enabled,
    /// Enabling failed.
    EnableFailed,
    /// Hibernation is to be attempted.
    HibernateRequested { enabled: bool },
    /// The hibernation request succeeded.
    Hibernating { enabled: bool },
    /// The hibernation request failed.
    HibernateFailed { enabled: bool },
}

impl HibernateAction {
    /// Asking for the next step moves an invocation that has an outcome of
    /// enabling on to the hibernation request, whatever that outcome is.
    pub open spec fn spec_next_step(self) -> (HibernateAction, Option<ActionStep>) {
        match self {
            HibernateAction::EnableRequested => (self, Some(ActionStep::Enable)),
            HibernateAction::Enabled => (
                HibernateAction::HibernateRequested { enabled: true },
                Some(ActionStep::Hibernate),
            ),
            HibernateAction::EnableFailed => (
                HibernateAction::HibernateRequested { enabled: false },
                Some(ActionStep::Hibernate),
            ),
            HibernateAction::HibernateRequested { .. } => (self, Some(ActionStep::Hibernate)),
            HibernateAction::Hibernating { .. } => (self, None),
            HibernateAction::HibernateFailed { .. } => (self, None),
        }
    }

    /// Recording an outcome ends the step that is requested. Where no step
    /// is requested, nothing is recorded.
    pub open spec fn spec_record(self, succeeded: bool) -> (HibernateAction, Option<StepReport>) {
        match self {
            HibernateAction::EnableRequested => (
                if succeeded {
                    HibernateAction::Enabled
                } else {
                    HibernateAction::EnableFailed
                },
                Some(StepReport { step: ActionStep::Enable, succeeded }),
            ),
            HibernateAction::HibernateRequested { enabled } => (
                if succeeded {
                    HibernateAction::Hibernating { enabled }
                } else {
                    HibernateAction::HibernateFailed { enabled }
                },
                Some(StepReport { step: ActionStep::Hibernate, succeeded }),
            ),
            _ => (self, None),
        }
    }

    /// What enabling gave, once it has been attempted.
    pub open spec fn spec_enable_report(self) -> Option<StepReport> {
        match self {
            HibernateAction::EnableRequested => None,
            HibernateAction::Enabled => Some(
                StepReport { step: ActionStep::Enable, succeeded: true },
            ),
            HibernateAction::EnableFailed => Some(
                StepReport { step: ActionStep::Enable, succeeded: false },
            ),
            HibernateAction::HibernateRequested { enabled } => Some(
                StepReport { step: ActionStep::Enable, succeeded: enabled },
            ),
            HibernateAction::Hibernating { enabled } => Some(
                StepReport { step: ActionStep::Enable, succeeded: enabled },
            ),
            HibernateAction::HibernateFailed { enabled } => Some(
                StepReport { step: ActionStep::Enable, succeeded: enabled },
            ),
        }
    }

    /// What the hibernation request gave, once it has been attempted.
    pub open spec fn spec_hibernate_report(self) -> Option<StepReport> {
        match self {
            HibernateAction::Hibernating { .. } => Some(
                StepReport { step: ActionStep::Hibernate, succeeded: true },
            ),
            HibernateAction::HibernateFailed { .. } => Some(
                StepReport { step: ActionStep::Hibernate, succeeded: false },
            ),
            _ => None,
        }
    }

    /// Both steps have been attempted.
    pub open spec fn spec_is_finished(self) -> bool {
        self is Hibernating || self is HibernateFailed
    }

    /// A fresh invocation: nothing has been attempted.
    pub fn new() -> (action: HibernateAction)
        ensures
            action == HibernateAction::EnableRequested,
    {
        HibernateAction::EnableRequested
    }

    /// The step to attempt now, or `None` when both have been attempted.
    pub fn next_step(&mut self) -> (step: Option<ActionStep>)
        ensures
            (*final(self), step) == old(self).spec_next_step(),
    {
        match *self {
            HibernateAction::EnableRequested => Some(ActionStep::Enable),
            HibernateAction::Enabled => {
                *self = HibernateAction::HibernateRequested { enabled: true };
                Some(ActionStep::Hibernate)
            },
            HibernateAction::EnableFailed => {
                *self = HibernateAction::HibernateRequested { enabled: false };
                Some(ActionStep::Hibernate)
            },
            HibernateAction::HibernateRequested { .. } => Some(ActionStep::Hibernate),
            HibernateAction::Hibernating { .. } => None,
            HibernateAction::HibernateFailed { .. } => None,
        }
    }

    /// Records whether the requested step succeeded and hands out its
    /// report. Where no step is requested, nothing changes and there is no
    /// report.
    pub fn record(&mut self, succeeded: bool) -> (report: Option<StepReport>)
        ensures
            (*final(self), report) == old(self).spec_record(succeeded),
    {
        match *self {
            HibernateAction::EnableRequested => {
                if succeeded {
                    *self = HibernateAction::Enabled;
                } else {
                    *self = HibernateAction::EnableFailed;
                }
                Some(StepReport { step: ActionStep::Enable, succeeded })
            },
            HibernateAction::HibernateRequested { enabled } => {
                if succeeded {
                    *self = HibernateAction::Hibernating { enabled };
                } else {
                    *self = HibernateAction::HibernateFailed { enabled };
                }
                Some(StepReport { step: ActionStep::Hibernate, succeeded })
            },
            _ => None,
        }
    }
}

impl HibernateAction {
    /// What enabling gave, once it has been attempted.
    pub fn enable_report(&self) -> (report: Option<StepReport>)
        ensures
            report == self.spec_enable_report(),
    {
        match *self {
            HibernateAction::EnableRequested => None,
            HibernateAction::Enabled => Some(
                StepReport { step: ActionStep::Enable, succeeded: true },
            ),
            HibernateAction::EnableFailed => Some(
                StepReport { step: ActionStep::Enable, succeeded: false },
            ),
            HibernateAction::HibernateRequested { enabled } => Some(
                StepReport { step: ActionStep::Enable, succeeded: enabled },
            ),
            HibernateAction::Hibernating { enabled } => Some(
                StepReport { step: ActionStep::Enable, succeeded: enabled },
            ),
            HibernateAction::HibernateFailed { enabled } => Some(
                StepReport { step: ActionStep::Enable, succeeded: enabled },
            ),
        }
    }

    /// What the hibernation request gave, once it has been attempted.
    pub fn hibernate_report(&self) -> (report: Option<StepReport>)
        ensures
            report == self.spec_hibernate_report(),
    {
        match *self {
            HibernateAction::Hibernating { .. } => Some(
                StepReport { step: ActionStep::Hibernate, succeeded: true },
            ),
            HibernateAction::HibernateFailed { .. } => Some(
                StepReport { step: ActionStep::Hibernate, succeeded: false },
            ),
            _ => None,
        }
    }

    /// Whether both steps have been attempted.
    pub fn is_finished(&self) -> (finished: bool)
        ensures
            finished == self.spec_is_finished(),
    {
        match *self {
            HibernateAction::Hibernating { .. } => true,
            HibernateAction::HibernateFailed { .. } => true,
            _ => false,
        }
    }
}

/// The second step is attempted whatever the first one gave, and both
/// outcomes can be read off afterwards.
///
/// A fresh invocation asks for enabling. Once the outcome of enabling is
/// recorded, be it success or failure, the invocation asks for hibernation.
/// Once that outcome is recorded too, the invocation is finished, asks for
/// nothing more, and holds the report of each step with the outcome that was
/// recorded for it.
pub proof fn lemma_both_steps_are_attempted(enable_succeeded: bool, hibernate_succeeded: bool)
    ensures
        ({
            let (asked, first) = HibernateAction::EnableRequested.spec_next_step();
            let (enabled, enable_report) = asked.spec_record(enable_succeeded);
            let (asked_again, second) = enabled.spec_next_step();
            let (done, hibernate_report) = asked_again.spec_record(hibernate_succeeded);
            &&& first == Some(ActionStep::Enable)
            &&& enable_report == Some(
                StepReport { step: ActionStep::Enable, succeeded: enable_succeeded },
            )
            &&& enabled == if enable_succeeded {
                HibernateAction::Enabled
            } else {
                HibernateAction::EnableFailed
            }
            &&& second == Some(ActionStep::Hibernate)
            &&& asked_again == (HibernateAction::HibernateRequested { enabled: enable_succeeded })
            &&& hibernate_report == Some(
                StepReport { step: ActionStep::Hibernate, succeeded: hibernate_succeeded },
            )
            &&& done.spec_is_finished()
            &&& done.spec_next_step() == (done, None::<ActionStep>)
            &&& done.spec_record(true) == (done, None::<StepReport>)
            &&& done.spec_record(false) == (done, None::<StepReport>)
            &&& done.spec_enable_report() == enable_report
            &&& done.spec_hibernate_report() == hibernate_report
        }),
{
}

} // verus!
