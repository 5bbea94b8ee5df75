//! Declining an incoming request without sending money.
use vstd::prelude::*;

use crate::confirmation::DefaultNoConfirmationError;
use crate::requests::plans::{DeclineRequestPlan, DeclinedRequest};
use crate::requests::preflight::RequestMutationPreflightError;
use crate::shared::{ApiOperationFailure, ApplicationFailureKind, CredentialEnvelope, PromptFailure};

verus! {

pub const DECLINE_QUESTION: &'static str = "Decline this request without sending money?";

/// A checked decline plan together with the session that will carry it out.
pub struct PreparedDecline {
    credential: CredentialEnvelope,
    plan: DeclineRequestPlan,
}

impl PreparedDecline {
    pub closed spec fn spec_credential(&self) -> CredentialEnvelope {
        self.credential
    }

    pub fn credential(&self) -> (r: &CredentialEnvelope)
        ensures
            *r == self.spec_credential(),
    {
        &self.credential
    }

    pub closed spec fn spec_plan(&self) -> &DeclineRequestPlan {
        &self.plan
    }

    pub fn new(credential: CredentialEnvelope, plan: DeclineRequestPlan) -> (r: Self)
        ensures
            r.spec_credential() == credential,
            *r.spec_plan() == plan,
    {
        PreparedDecline { credential, plan }
    }

    pub fn plan(&self) -> (r: &DeclineRequestPlan)
        ensures
            r == self.spec_plan(),
    {
        &self.plan
    }

    pub fn into_parts(self) -> (r: (CredentialEnvelope, DeclineRequestPlan))
        ensures
            r.0 == self.spec_credential(),
            r.1 == *self.spec_plan(),
    {
        (self.credential, self.plan)
    }
}

#[derive(PartialEq, Eq)]
pub struct DeclineResult {
    plan: DeclineRequestPlan,
    declined: DeclinedRequest,
}

impl DeclineResult {
    pub closed spec fn spec_plan(&self) -> &DeclineRequestPlan {
        &self.plan
    }

    pub closed spec fn spec_declined(&self) -> &DeclinedRequest {
        &self.declined
    }

    pub fn new(plan: DeclineRequestPlan, declined: DeclinedRequest) -> (r: Self)
        ensures
            *r.spec_plan() == plan,
            *r.spec_declined() == declined,
    {
        DeclineResult { plan, declined }
    }

    pub fn plan(&self) -> (r: &DeclineRequestPlan)
        ensures
            r == self.spec_plan(),
    {
        &self.plan
    }

    pub fn declined(&self) -> (r: &DeclinedRequest)
        ensures
            r == self.spec_declined(),
    {
        &self.declined
    }
}

#[derive(Clone, Debug, PartialEq, Eq)]
pub enum DeclineError {
    Preflight(RequestMutationPreflightError),
    ConfirmationRequired,
    ConfirmationDeclined,
    Confirmation { source: PromptFailure },
    Decline { source: ApiOperationFailure },
}

impl DeclineError {
    pub open spec fn spec_failure_kind(&self) -> ApplicationFailureKind {
        match self {
            DeclineError::Preflight(source) => source.spec_failure_kind(),
            DeclineError::ConfirmationRequired => ApplicationFailureKind::Usage,
            DeclineError::ConfirmationDeclined => ApplicationFailureKind::Cancelled,
            DeclineError::Confirmation { source } => source.kind,
            DeclineError::Decline { source } => ApplicationFailureKind::Api(source.kind),
        }
    }

    #[verifier::when_used_as_spec(spec_failure_kind)]
    pub fn failure_kind(&self) -> (r: ApplicationFailureKind)
        ensures
            r == self.spec_failure_kind(),
    {
        match self {
            DeclineError::Preflight(source) => source.failure_kind(),
            DeclineError::ConfirmationRequired => ApplicationFailureKind::Usage,
            DeclineError::ConfirmationDeclined => ApplicationFailureKind::Cancelled,
            DeclineError::Confirmation { source } => source.kind,
            DeclineError::Decline { source } => ApplicationFailureKind::Api(source.kind()),
        }
    }

    /// The decline failure that a refused confirmation amounts to.
    pub fn from_confirmation(error: DefaultNoConfirmationError) -> (r: DeclineError)
        ensures
            r == match error {
                DefaultNoConfirmationError::Required => DeclineError::ConfirmationRequired,
                DefaultNoConfirmationError::Declined => DeclineError::ConfirmationDeclined,
                DefaultNoConfirmationError::Prompt(source) => DeclineError::Confirmation { source },
            },
    {
        match error {
            DefaultNoConfirmationError::Required => DeclineError::ConfirmationRequired,
            DefaultNoConfirmationError::Declined => DeclineError::ConfirmationDeclined,
            DefaultNoConfirmationError::Prompt(source) => DeclineError::Confirmation { source },
        }
    }
}

} // verus!
