//! Cancelling an outgoing request that is still open.
use vstd::prelude::*;

use crate::confirmation::DefaultNoConfirmationError;
use crate::requests::plans::{CancelRequestPlan, CancelledRequest};
use crate::requests::preflight::RequestMutationPreflightError;
use crate::shared::{ApiOperationFailure, ApplicationFailureKind, CredentialEnvelope, PromptFailure};

verus! {

pub const CANCEL_QUESTION: &'static str = "Cancel this outgoing request?";

/// A checked cancellation plan together with the session that will carry it out.
pub struct PreparedCancel {
    credential: CredentialEnvelope,
    plan: CancelRequestPlan,
}

impl PreparedCancel {
    pub closed spec fn spec_credential(&self) -> CredentialEnvelope {
        self.credential
    }

    pub fn credential(&self) -> (r: &CredentialEnvelope)
        ensures
            *r == self.spec_credential(),
    {
        &self.credential
    }

    pub closed spec fn spec_plan(&self) -> &CancelRequestPlan {
        &self.plan
    }

    pub fn new(credential: CredentialEnvelope, plan: CancelRequestPlan) -> (r: Self)
        ensures
            r.spec_credential() == credential,
            *r.spec_plan() == plan,
    {
        PreparedCancel { credential, plan }
    }

    pub fn plan(&self) -> (r: &CancelRequestPlan)
        ensures
            r == self.spec_plan(),
    {
        &self.plan
    }

    pub fn into_parts(self) -> (r: (CredentialEnvelope, CancelRequestPlan))
        ensures
            r.0 == self.spec_credential(),
            r.1 == *self.spec_plan(),
    {
        (self.credential, self.plan)
    }
}

#[derive(PartialEq, Eq)]
pub struct CancelResult {
    plan: CancelRequestPlan,
    cancelled: CancelledRequest,
}

impl CancelResult {
    pub closed spec fn spec_plan(&self) -> &CancelRequestPlan {
        &self.plan
    }

    pub closed spec fn spec_cancelled(&self) -> &CancelledRequest {
        &self.cancelled
    }

    pub fn new(plan: CancelRequestPlan, cancelled: CancelledRequest) -> (r: Self)
        ensures
            *r.spec_plan() == plan,
            *r.spec_cancelled() == cancelled,
    {
        CancelResult { plan, cancelled }
    }

    pub fn plan(&self) -> (r: &CancelRequestPlan)
        ensures
            r == self.spec_plan(),
    {
        &self.plan
    }

    pub fn cancelled(&self) -> (r: &CancelledRequest)
        ensures
            r == self.spec_cancelled(),
    {
        &self.cancelled
    }
}

#[derive(Clone, Debug, PartialEq, Eq)]
pub enum CancelError {
    Preflight(RequestMutationPreflightError),
    ConfirmationRequired,
    ConfirmationDeclined,
    Confirmation { source: PromptFailure },
    Cancel { source: ApiOperationFailure },
}

impl CancelError {
    pub open spec fn spec_failure_kind(&self) -> ApplicationFailureKind {
        match self {
            CancelError::Preflight(source) => source.spec_failure_kind(),
            CancelError::ConfirmationRequired => ApplicationFailureKind::Usage,
            CancelError::ConfirmationDeclined => ApplicationFailureKind::Cancelled,
            CancelError::Confirmation { source } => source.kind,
            CancelError::Cancel { source } => ApplicationFailureKind::Api(source.kind),
        }
    }

    #[verifier::when_used_as_spec(spec_failure_kind)]
    pub fn failure_kind(&self) -> (r: ApplicationFailureKind)
        ensures
            r == self.spec_failure_kind(),
    {
        match self {
            CancelError::Preflight(source) => source.failure_kind(),
            CancelError::ConfirmationRequired => ApplicationFailureKind::Usage,
            CancelError::ConfirmationDeclined => ApplicationFailureKind::Cancelled,
            CancelError::Confirmation { source } => source.kind,
            CancelError::Cancel { source } => ApplicationFailureKind::Api(source.kind()),
        }
    }

    /// The cancellation failure that a refused confirmation amounts to.
    pub fn from_confirmation(error: DefaultNoConfirmationError) -> (r: CancelError)
        ensures
            r == match error {
                DefaultNoConfirmationError::Required => CancelError::ConfirmationRequired,
                DefaultNoConfirmationError::Declined => CancelError::ConfirmationDeclined,
                DefaultNoConfirmationError::Prompt(source) => CancelError::Confirmation { source },
            },
    {
        match error {
            DefaultNoConfirmationError::Required => CancelError::ConfirmationRequired,
            DefaultNoConfirmationError::Declined => CancelError::ConfirmationDeclined,
            DefaultNoConfirmationError::Prompt(source) => CancelError::Confirmation { source },
        }
    }
}

} // verus!
