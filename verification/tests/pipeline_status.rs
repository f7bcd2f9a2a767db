use daedalusd::pipeline::status::TaskStatus;


#[test]
fn as_str_all_nine() {
    let all = [
        (TaskStatus::Created, "created"),
        (TaskStatus::Dispatched, "dispatched"),
        (TaskStatus::Running, "running"),
        (
            TaskStatus::WaitingForVerification,
            "waiting_for_verification",
        ),
        (TaskStatus::Completed, "completed"),
        (TaskStatus::NeedsHumanReview, "needs_human_review"),
        (TaskStatus::Failed, "failed"),
        (TaskStatus::Blocked, "blocked"),
        (TaskStatus::Discarded, "discarded"),
    ];
    for (v, s) in &all {
        assert_eq!(v.as_str(), *s);
    }
}

#[test]
fn parse_status_all_nine() {
    for s in &[
        "created",
        "dispatched",
        "running",
        "waiting_for_verification",
        "completed",
        "needs_human_review",
        "failed",
        "blocked",
        "discarded",
    ] {
        let v = TaskStatus::parse_status(s).expect(s);
        assert_eq!(v.as_str(), *s);
    }
}

#[test]
fn parse_invalid_returns_none() {
    assert!(TaskStatus::parse_status("bogus").is_none());
}

#[test]
fn transition_created_to_dispatched() {
    assert!(TaskStatus::transition(&TaskStatus::Created, &TaskStatus::Dispatched).is_ok());
}

#[test]
fn transition_running_to_waiting() {
    assert!(
        TaskStatus::transition(&TaskStatus::Running, &TaskStatus::WaitingForVerification)
            .is_ok()
    );
}

#[test]
fn transition_terminal_rejected() {
    assert!(TaskStatus::transition(&TaskStatus::Completed, &TaskStatus::Running).is_err());
}

#[test]
fn transition_created_to_running_rejected() {
    assert!(TaskStatus::transition(&TaskStatus::Created, &TaskStatus::Running).is_err());
}

#[test]
fn transition_dispatched_to_running() {
    assert!(TaskStatus::transition(&TaskStatus::Dispatched, &TaskStatus::Running).is_ok());
}

#[test]
fn transition_waiting_to_completed() {
    assert!(TaskStatus::transition(
        &TaskStatus::WaitingForVerification,
        &TaskStatus::Completed
    )
    .is_ok());
}

#[test]
fn transition_running_to_failed() {
    assert!(TaskStatus::transition(&TaskStatus::Running, &TaskStatus::Failed).is_ok());
}

