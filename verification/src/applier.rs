//! The order of an apply and what its caller is told.
//!
//! An apply writes the rendered document and then has the engine restarted.
//! The caller hears of the file only: a directory or a file that cannot be
//! written fails the apply, while the restart is started without waiting and
//! its outcome is logged, never returned. The steps themselves are carried
//! out by the caller of [`apply_step`], which hands back what happened.

use crate::errors::{ApiError, ApiErrorView};
use crate::text::opt_text;
use vstd::prelude::*;

verus! {

/// How far an apply has come.
#[derive(Debug, Clone, Copy, PartialEq, Eq, Structural)]
pub enum ApplyPhase {
    /// The document is rendered; nothing is written yet.
    Rendered,
    /// The directory of the configuration file is being created.
    CreatingDirectory,
    /// The configuration file is being written.
    Writing,
    /// The file is written and the caller has been told so; the restart is
    /// under way.
    Accepted,
    /// The caller has been told that the apply failed.
    Rejected,
    /// The restart has returned and its outcome is logged.
    Settled,
}

/// What happened since the last step.
#[derive(Debug, Clone)]
pub enum ApplyEvent {
    /// The apply starts; `directory_exists` says whether the directory of the
    /// configuration file is there.
    Begin { directory_exists: bool },
    /// Creating the directory returned, with the reason if it failed.
    DirectoryCreated { failure: Option<String> },
    /// Writing the file returned, with the reason if it failed.
    FileWritten { failure: Option<String> },
    /// The restart returned, with the reason if it failed.
    RestartReturned { failure: Option<String> },
}

/// What to do next.
#[derive(Debug, Clone)]
pub enum ApplyAction {
    /// Create the directory of the configuration file.
    CreateDirectory,
    /// Write the configuration file.
    WriteFile,
    /// Tell the caller that the apply is accepted and start the restart
    /// without waiting for it.
    AcceptAndRestart,
    /// Tell the caller that the apply failed.
    Reject(ApiError),
    /// Log how the restart ended; the caller is not told.
    LogRestart { failure: Option<String> },
    /// The event does not belong to the phase: do nothing.
    Ignore,
}

/// An event with its reasons as characters.
pub enum ApplyEventView {
    Begin { directory_exists: bool },
    DirectoryCreated { failure: Option<Seq<char>> },
    FileWritten { failure: Option<Seq<char>> },
    RestartReturned { failure: Option<Seq<char>> },
}

/// An action with its messages as characters.
pub enum ApplyActionView {
    CreateDirectory,
    WriteFile,
    AcceptAndRestart,
    Reject(ApiErrorView),
    LogRestart { failure: Option<Seq<char>> },
    Ignore,
}

impl View for ApplyEvent {
    type V = ApplyEventView;

    open spec fn view(&self) -> ApplyEventView {
        match self {
            ApplyEvent::Begin { directory_exists } => ApplyEventView::Begin {
                directory_exists: *directory_exists,
            },
            ApplyEvent::DirectoryCreated { failure } => ApplyEventView::DirectoryCreated {
                failure: opt_text(*failure),
            },
            ApplyEvent::FileWritten { failure } => ApplyEventView::FileWritten {
                failure: opt_text(*failure),
            },
            ApplyEvent::RestartReturned { failure } => ApplyEventView::RestartReturned {
                failure: opt_text(*failure),
            },
        }
    }
}

impl View for ApplyAction {
    type V = ApplyActionView;

    open spec fn view(&self) -> ApplyActionView {
        match self {
            ApplyAction::CreateDirectory => ApplyActionView::CreateDirectory,
            ApplyAction::WriteFile => ApplyActionView::WriteFile,
            ApplyAction::AcceptAndRestart => ApplyActionView::AcceptAndRestart,
            ApplyAction::Reject(e) => ApplyActionView::Reject(e@),
            ApplyAction::LogRestart { failure } => ApplyActionView::LogRestart {
                failure: opt_text(*failure),
            },
            ApplyAction::Ignore => ApplyActionView::Ignore,
        }
    }
}

/// The phase and the action that follow `event` in `phase`.
pub open spec fn apply_transition(phase: ApplyPhase, event: ApplyEventView) -> (
    ApplyPhase,
    ApplyActionView,
) {
    match (phase, event) {
        (ApplyPhase::Rendered, ApplyEventView::Begin { directory_exists }) => if directory_exists {
            (ApplyPhase::Writing, ApplyActionView::WriteFile)
        } else {
            (ApplyPhase::CreatingDirectory, ApplyActionView::CreateDirectory)
        },
        (ApplyPhase::CreatingDirectory, ApplyEventView::DirectoryCreated { failure }) => {
            match failure {
                None => (ApplyPhase::Writing, ApplyActionView::WriteFile),
                Some(why) => (
                    ApplyPhase::Rejected,
                    ApplyActionView::Reject(
                        ApiErrorView::SystemError("Failed to create config directory: "@ + why),
                    ),
                ),
            }
        },
        (ApplyPhase::Writing, ApplyEventView::FileWritten { failure }) => match failure {
            None => (ApplyPhase::Accepted, ApplyActionView::AcceptAndRestart),
            Some(why) => (
                ApplyPhase::Rejected,
                ApplyActionView::Reject(
                    ApiErrorView::SystemError("Failed to write config file: "@ + why),
                ),
            ),
        },
        (ApplyPhase::Accepted, ApplyEventView::RestartReturned { failure }) => (
            ApplyPhase::Settled,
            ApplyActionView::LogRestart { failure },
        ),
        _ => (phase, ApplyActionView::Ignore),
    }
}

/// What an action tells the caller of the apply, if anything.
pub open spec fn told_to_caller(action: ApplyActionView) -> Option<Result<(), ApiErrorView>> {
    match action {
        ApplyActionView::AcceptAndRestart => Some(Ok(())),
        ApplyActionView::Reject(e) => Some(Err(e)),
        _ => None,
    }
}

/// Takes one step of an apply: the phase and the action that follow `event`.
pub fn apply_step(phase: ApplyPhase, event: ApplyEvent) -> (next: (ApplyPhase, ApplyAction))
    ensures
        (next.0, next.1@) == apply_transition(phase, event@),
{
    match event {
        ApplyEvent::Begin { directory_exists } => match phase {
            ApplyPhase::Rendered => if directory_exists {
                (ApplyPhase::Writing, ApplyAction::WriteFile)
            } else {
                (ApplyPhase::CreatingDirectory, ApplyAction::CreateDirectory)
            },
            _ => (phase, ApplyAction::Ignore),
        },
        ApplyEvent::DirectoryCreated { failure } => match phase {
            ApplyPhase::CreatingDirectory => match failure {
                None => (ApplyPhase::Writing, ApplyAction::WriteFile),
                Some(why) => (
                    ApplyPhase::Rejected,
                    ApplyAction::Reject(
                        ApiError::system("Failed to create config directory: ", why.as_str()),
                    ),
                ),
            },
            _ => (phase, ApplyAction::Ignore),
        },
        ApplyEvent::FileWritten { failure } => match phase {
            ApplyPhase::Writing => match failure {
                None => (ApplyPhase::Accepted, ApplyAction::AcceptAndRestart),
                Some(why) => (
                    ApplyPhase::Rejected,
                    ApplyAction::Reject(
                        ApiError::system("Failed to write config file: ", why.as_str()),
                    ),
                ),
            },
            _ => (phase, ApplyAction::Ignore),
        },
        ApplyEvent::RestartReturned { failure } => match phase {
            ApplyPhase::Accepted => (ApplyPhase::Settled, ApplyAction::LogRestart { failure }),
            _ => (phase, ApplyAction::Ignore),
        },
    }
}

/// The outcome of the restart never reaches the caller: whatever the phase
/// and however the restart ended, the step tells the caller nothing, and an
/// apply that was accepted is not rejected afterwards.
pub proof fn lemma_restart_is_not_reported(phase: ApplyPhase, failure: Option<Seq<char>>)
    ensures
        told_to_caller(
            apply_transition(phase, ApplyEventView::RestartReturned { failure }).1,
        ) is None,
        apply_transition(phase, ApplyEventView::RestartReturned { failure }).0
            != ApplyPhase::Rejected || phase == ApplyPhase::Rejected,
{
}

/// The caller is told of success exactly when the file has been written,
/// and of failure exactly when the directory or the file could not be.
pub proof fn lemma_caller_hears_of_the_file_only(phase: ApplyPhase, event: ApplyEventView)
    ensures
        told_to_caller(apply_transition(phase, event).1) == Some(Ok::<(), ApiErrorView>(())) <==> (
        phase == ApplyPhase::Writing && event == (ApplyEventView::FileWritten { failure: None })),
        told_to_caller(apply_transition(phase, event).1) matches Some(Err(_)) <==> ({
            ||| phase == ApplyPhase::CreatingDirectory && (event matches ApplyEventView::DirectoryCreated {
                failure: Some(_),
            })
            ||| phase == ApplyPhase::Writing && (event matches ApplyEventView::FileWritten {
                failure: Some(_),
            })
        }),
{
}

} // verus!
