//! The default-no confirmation that guards every money or relationship
//! write: `--yes` authorizes outright; otherwise the user must be asked on a
//! terminal and must answer yes.
use vstd::prelude::*;

use crate::shared::PromptFailure;

verus! {

#[derive(Clone, Copy, Debug, PartialEq, Eq, Structural)]
pub enum DefaultNoConfirmationError {
    /// No terminal to ask on, and `--yes` was not given.
    Required,
    /// The user answered no (the default).
    Declined,
    /// Asking failed.
    Prompt(PromptFailure),
}

/// What the caller has just learned.
#[derive(Clone, Copy, Debug, PartialEq, Eq, Structural)]
pub enum ConfirmationEvent {
    /// The confirmation starts; `assume_yes` is whether `--yes` was given.
    Start { assume_yes: bool },
    /// Whether a terminal is available to ask on.
    Availability { can_prompt: bool },
    /// The user's answer.
    Answered { yes: bool },
    /// Asking failed.
    PromptFailed { failure: PromptFailure },
}

/// What the caller does next.
#[derive(Clone, Copy, Debug, PartialEq, Eq, Structural)]
pub enum ConfirmationAction {
    /// The write is authorized.
    Authorized,
    /// Find out whether a terminal is available.
    CheckAvailability,
    /// Ask the question, defaulting to no.
    Ask,
    /// The write is refused.
    Refused(DefaultNoConfirmationError),
}

pub open spec fn spec_confirmation_step(event: ConfirmationEvent) -> ConfirmationAction {
    match event {
        ConfirmationEvent::Start { assume_yes } => if assume_yes {
            ConfirmationAction::Authorized
        } else {
            ConfirmationAction::CheckAvailability
        },
        ConfirmationEvent::Availability { can_prompt } => if can_prompt {
            ConfirmationAction::Ask
        } else {
            ConfirmationAction::Refused(DefaultNoConfirmationError::Required)
        },
        ConfirmationEvent::Answered { yes } => if yes {
            ConfirmationAction::Authorized
        } else {
            ConfirmationAction::Refused(DefaultNoConfirmationError::Declined)
        },
        ConfirmationEvent::PromptFailed { failure } => ConfirmationAction::Refused(
            DefaultNoConfirmationError::Prompt(failure),
        ),
    }
}

/// The next step of a default-no confirmation. Only an explicit `--yes` or
/// an explicit yes answer authorizes.
pub fn confirmation_step(event: ConfirmationEvent) -> (r: ConfirmationAction)
    ensures
        r == spec_confirmation_step(event),
        r == ConfirmationAction::Authorized ==> (event == ConfirmationEvent::Start {
            assume_yes: true,
        } || event == ConfirmationEvent::Answered { yes: true }),
{
    match event {
        ConfirmationEvent::Start { assume_yes } => {
            if assume_yes {
                ConfirmationAction::Authorized
            } else {
                ConfirmationAction::CheckAvailability
            }
        },
        ConfirmationEvent::Availability { can_prompt } => {
            if can_prompt {
                ConfirmationAction::Ask
            } else {
                ConfirmationAction::Refused(DefaultNoConfirmationError::Required)
            }
        },
        ConfirmationEvent::Answered { yes } => {
            if yes {
                ConfirmationAction::Authorized
            } else {
                ConfirmationAction::Refused(DefaultNoConfirmationError::Declined)
            }
        },
        ConfirmationEvent::PromptFailed { failure } => ConfirmationAction::Refused(
            DefaultNoConfirmationError::Prompt(failure),
        ),
    }
}

} // verus!
