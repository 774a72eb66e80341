use hibernate_task::action::{ActionStep, ActionStepFailed, HibernateAction, StepReport};

fn attempt(enable_succeeds: bool, hibernate_succeeds: bool) -> (HibernateAction, Vec<StepReport>) {
    let mut action = HibernateAction::new();
    let mut reports: Vec<StepReport> = Vec::new();
    while let Some(step) = action.next_step() {
        let succeeded = match step {
            ActionStep::Enable => enable_succeeds,
            ActionStep::Hibernate => hibernate_succeeds,
        };
        match action.record(succeeded) {
            Some(report) => reports.push(report),
            None => panic!("a requested step was not recorded"),
        }
    }
    (action, reports)
}

#[test]
fn a_fresh_invocation_asks_for_enabling() {
    let mut action = HibernateAction::new();
    assert_eq!(action, HibernateAction::EnableRequested);
    assert_eq!(action.next_step(), Some(ActionStep::Enable));
    assert_eq!(action, HibernateAction::EnableRequested);
    assert_eq!(action.enable_report(), None);
    assert_eq!(action.hibernate_report(), None);
    assert!(!action.is_finished());
}

#[test]
fn both_steps_succeed() {
    let (action, reports) = attempt(true, true);
    assert_eq!(action, HibernateAction::Hibernating { enabled: true });
    assert_eq!(
        reports,
        vec![
            StepReport { step: ActionStep::Enable, succeeded: true },
            StepReport { step: ActionStep::Hibernate, succeeded: true },
        ]
    );
    assert!(action.is_finished());
}

#[test]
fn hibernation_is_attempted_after_enabling_failed() {
    let mut action = HibernateAction::new();
    assert_eq!(action.next_step(), Some(ActionStep::Enable));
    assert_eq!(
        action.record(false),
        Some(StepReport { step: ActionStep::Enable, succeeded: false })
    );
    assert_eq!(action, HibernateAction::EnableFailed);
    assert_eq!(action.next_step(), Some(ActionStep::Hibernate));
    assert_eq!(action, HibernateAction::HibernateRequested { enabled: false });
    assert_eq!(
        action.record(true),
        Some(StepReport { step: ActionStep::Hibernate, succeeded: true })
    );
    assert_eq!(action, HibernateAction::Hibernating { enabled: false });
    assert_eq!(
        action.enable_report(),
        Some(StepReport { step: ActionStep::Enable, succeeded: false })
    );
    assert_eq!(
        action.hibernate_report(),
        Some(StepReport { step: ActionStep::Hibernate, succeeded: true })
    );
}

#[test]
fn hibernation_failing_after_enabling_succeeded() {
    let (action, reports) = attempt(true, false);
    assert_eq!(action, HibernateAction::HibernateFailed { enabled: true });
    assert_eq!(reports.len(), 2);
    assert_eq!(reports[0].result(), Ok(()));
    assert_eq!(reports[1].result(), Err(ActionStepFailed { step: ActionStep::Hibernate }));
}

#[test]
fn both_steps_failing_are_both_reported() {
    let (action, reports) = attempt(false, false);
    assert_eq!(action, HibernateAction::HibernateFailed { enabled: false });
    assert_eq!(
        reports,
        vec![
            StepReport { step: ActionStep::Enable, succeeded: false },
            StepReport { step: ActionStep::Hibernate, succeeded: false },
        ]
    );
    assert_eq!(reports[0].result(), Err(ActionStepFailed { step: ActionStep::Enable }));
    assert_eq!(reports[1].result(), Err(ActionStepFailed { step: ActionStep::Hibernate }));
    assert_eq!(action.enable_report(), Some(reports[0]));
    assert_eq!(action.hibernate_report(), Some(reports[1]));
}

#[test]
fn every_pair_of_outcomes_attempts_both_steps() {
    for enable_succeeds in [false, true] {
        for hibernate_succeeds in [false, true] {
            let (action, reports) = attempt(enable_succeeds, hibernate_succeeds);
            assert_eq!(reports.len(), 2);
            assert_eq!(reports[0].step, ActionStep::Enable);
            assert_eq!(reports[0].succeeded, enable_succeeds);
            assert_eq!(reports[1].step, ActionStep::Hibernate);
            assert_eq!(reports[1].succeeded, hibernate_succeeds);
            assert!(action.is_finished());
        }
    }
}

#[test]
fn a_finished_invocation_asks_for_nothing_and_records_nothing() {
    let (mut action, _) = attempt(true, true);
    let before = action;
    assert_eq!(action.next_step(), None);
    assert_eq!(action.record(false), None);
    assert_eq!(action.record(true), None);
    assert_eq!(action, before);
}

#[test]
fn an_outcome_is_recorded_only_for_a_requested_step() {
    let mut action = HibernateAction::Enabled;
    assert_eq!(action.record(false), None);
    assert_eq!(action, HibernateAction::Enabled);
    let mut failed = HibernateAction::EnableFailed;
    assert_eq!(failed.record(true), None);
    assert_eq!(failed, HibernateAction::EnableFailed);
}

#[test]
fn asking_twice_for_the_step_asks_for_the_same_step() {
    let mut action = HibernateAction::Enabled;
    assert_eq!(action.next_step(), Some(ActionStep::Hibernate));
    assert_eq!(action.next_step(), Some(ActionStep::Hibernate));
    assert_eq!(action, HibernateAction::HibernateRequested { enabled: true });
}

#[test]
fn two_invocations_do_not_share_their_outcomes() {
    let (first, _) = attempt(false, false);
    let (second, reports) = attempt(true, true);
    assert_eq!(first, HibernateAction::HibernateFailed { enabled: false });
    assert_eq!(second, HibernateAction::Hibernating { enabled: true });
    assert_eq!(reports.len(), 2);
}

#[test]
fn the_report_lines() {
    assert_eq!(
        StepReport { step: ActionStep::Enable, succeeded: true }.message(),
        "Hibernation enabled successfully."
    );
    assert_eq!(
        StepReport { step: ActionStep::Enable, succeeded: false }.message(),
        "Failed to enable hibernation."
    );
    assert_eq!(
        StepReport { step: ActionStep::Hibernate, succeeded: true }.message(),
        "System hibernating..."
    );
    assert_eq!(
        StepReport { step: ActionStep::Hibernate, succeeded: false }.message(),
        "Failed to hibernate system."
    );
}

#[test]
fn the_error_of_each_step_has_its_line() {
    assert_eq!(
        ActionStepFailed { step: ActionStep::Enable }.message(),
        "Failed to enable hibernation."
    );
    assert_eq!(
        ActionStepFailed { step: ActionStep::Hibernate }.message(),
        "Failed to hibernate system."
    );
}

#[test]
fn a_successful_report_is_no_error() {
    assert_eq!(StepReport { step: ActionStep::Enable, succeeded: true }.result(), Ok(()));
    assert_eq!(StepReport { step: ActionStep::Hibernate, succeeded: true }.result(), Ok(()));
}
