use xray_control::applier::{apply_step, ApplyAction, ApplyEvent, ApplyPhase};
use xray_control::errors::ApiError;

fn system_message(action: &ApplyAction) -> String {
    match action {
        ApplyAction::Reject(ApiError::SystemError(message)) => message.clone(),
        other => panic!("expected a system error, got {:?}", other),
    }
}

#[test]
fn an_apply_that_goes_well() {
    let (phase, action) =
        apply_step(ApplyPhase::Rendered, ApplyEvent::Begin { directory_exists: false });
    assert_eq!(phase, ApplyPhase::CreatingDirectory);
    assert!(matches!(action, ApplyAction::CreateDirectory));
    let (phase, action) = apply_step(phase, ApplyEvent::DirectoryCreated { failure: None });
    assert_eq!(phase, ApplyPhase::Writing);
    assert!(matches!(action, ApplyAction::WriteFile));
    let (phase, action) = apply_step(phase, ApplyEvent::FileWritten { failure: None });
    assert_eq!(phase, ApplyPhase::Accepted);
    assert!(matches!(action, ApplyAction::AcceptAndRestart));
    let (phase, action) = apply_step(phase, ApplyEvent::RestartReturned { failure: None });
    assert_eq!(phase, ApplyPhase::Settled);
    assert!(matches!(action, ApplyAction::LogRestart { failure: None }));
}

#[test]
fn an_existing_directory_is_not_created() {
    let (phase, action) =
        apply_step(ApplyPhase::Rendered, ApplyEvent::Begin { directory_exists: true });
    assert_eq!(phase, ApplyPhase::Writing);
    assert!(matches!(action, ApplyAction::WriteFile));
}

#[test]
fn a_directory_that_cannot_be_created_fails_the_apply() {
    let (phase, action) = apply_step(
        ApplyPhase::CreatingDirectory,
        ApplyEvent::DirectoryCreated { failure: Some("denied".to_string()) },
    );
    assert_eq!(phase, ApplyPhase::Rejected);
    assert_eq!(system_message(&action), "Failed to create config directory: denied");
}

#[test]
fn a_file_that_cannot_be_written_fails_the_apply() {
    let (phase, action) = apply_step(
        ApplyPhase::Writing,
        ApplyEvent::FileWritten { failure: Some("disk full".to_string()) },
    );
    assert_eq!(phase, ApplyPhase::Rejected);
    assert_eq!(system_message(&action), "Failed to write config file: disk full");
}

#[test]
fn a_failed_restart_is_logged_and_not_returned() {
    let (phase, action) = apply_step(
        ApplyPhase::Accepted,
        ApplyEvent::RestartReturned { failure: Some("no binary".to_string()) },
    );
    assert_eq!(phase, ApplyPhase::Settled);
    match action {
        ApplyAction::LogRestart { failure } => assert_eq!(failure.as_deref(), Some("no binary")),
        other => panic!("unexpected: {:?}", other),
    }
}

#[test]
fn events_out_of_turn_are_ignored() {
    let phases = [
        ApplyPhase::Rendered,
        ApplyPhase::CreatingDirectory,
        ApplyPhase::Writing,
        ApplyPhase::Accepted,
        ApplyPhase::Rejected,
        ApplyPhase::Settled,
    ];
    for phase in phases {
        if phase != ApplyPhase::Accepted {
            let (next, action) = apply_step(
                phase,
                ApplyEvent::RestartReturned { failure: Some("x".to_string()) },
            );
            assert_eq!(next, phase);
            assert!(matches!(action, ApplyAction::Ignore));
        }
        if phase != ApplyPhase::Writing {
            let (next, action) = apply_step(phase, ApplyEvent::FileWritten { failure: None });
            assert_eq!(next, phase);
            assert!(matches!(action, ApplyAction::Ignore));
        }
        if phase != ApplyPhase::Rendered {
            let (next, action) =
                apply_step(phase, ApplyEvent::Begin { directory_exists: true });
            assert_eq!(next, phase);
            assert!(matches!(action, ApplyAction::Ignore));
        }
        if phase != ApplyPhase::CreatingDirectory {
            let (next, action) =
                apply_step(phase, ApplyEvent::DirectoryCreated { failure: None });
            assert_eq!(next, phase);
            assert!(matches!(action, ApplyAction::Ignore));
        }
    }
}
