//! Creating a payment request addressed to a resolved recipient.
use vstd::prelude::*;

use crate::confirmation::DefaultNoConfirmationError;
use crate::payments::{validate_account, validate_recipient, FinancialValidationError};
use crate::people::lookup::UserLookupError;
use crate::people::user::{User, UserProfileKind};
use crate::requests::model::CreatedRequest;
use crate::requests::plans::CreateRequestPlan;
use crate::shared::{
    Account, ApiOperationFailure, ApplicationFailureKind, ClientRequestId, CredentialAccessError,
    CredentialEnvelope, Money, Note, PromptFailure, Visibility,
};

verus! {

pub const CREATE_QUESTION: &'static str = "Create this payment request?";

/// What stops a peer payment or request before anything is written.
#[derive(Clone, Debug, PartialEq, Eq)]
pub enum PeerPreflightError {
    Credential(CredentialAccessError),
    CurrentAccount { source: ApiOperationFailure },
    Validation(FinancialValidationError),
    Recipient(UserLookupError),
}

impl PeerPreflightError {
    pub open spec fn spec_failure_kind(&self) -> ApplicationFailureKind {
        match self {
            PeerPreflightError::Credential(_) => ApplicationFailureKind::Credential,
            PeerPreflightError::CurrentAccount { source } => ApplicationFailureKind::Api(source.kind),
            PeerPreflightError::Validation(source) => source.spec_failure_kind(),
            PeerPreflightError::Recipient(source) => source.spec_application_failure_kind(),
        }
    }

    #[verifier::when_used_as_spec(spec_failure_kind)]
    pub fn failure_kind(&self) -> (r: ApplicationFailureKind)
        ensures
            r == self.spec_failure_kind(),
    {
        match self {
            PeerPreflightError::Credential(_) => ApplicationFailureKind::Credential,
            PeerPreflightError::CurrentAccount { source } => ApplicationFailureKind::Api(
                source.kind(),
            ),
            PeerPreflightError::Validation(source) => source.failure_kind(),
            PeerPreflightError::Recipient(source) => source.application_failure_kind(),
        }
    }
}

/// The session's account must be the credential's, and the resolved
/// recipient must be a personal profile.
pub fn check_peer_parties(credential: &CredentialEnvelope, account: &Account, recipient: &User) -> (r:
    Result<(), PeerPreflightError>)
    ensures
        account.user_id@ != credential.user_id@ ==> r == Err::<(), PeerPreflightError>(
            PeerPreflightError::Validation(FinancialValidationError::AccountMismatch),
        ),
        account.user_id@ == credential.user_id@ && recipient@.profile_kind is None ==> r == Err::<
            (),
            PeerPreflightError,
        >(PeerPreflightError::Validation(FinancialValidationError::MissingProfileType)),
        recipient@.profile_kind matches Some(k) && account.user_id@ == credential.user_id@ && k
            != UserProfileKind::Personal ==> r == Err::<(), PeerPreflightError>(
            PeerPreflightError::Validation(FinancialValidationError::UnsupportedProfileType),
        ),
        r is Ok <==> (account.user_id@ == credential.user_id@ && recipient@.profile_kind == Some(
            UserProfileKind::Personal,
        )),
{
    if let Err(e) = validate_account(credential, account) {
        return Err(PeerPreflightError::Validation(e));
    }
    if let Err(e) = validate_recipient(recipient) {
        return Err(PeerPreflightError::Validation(e));
    }
    Ok(())
}

/// A checked request plan together with the session that will carry it out.
pub struct PreparedRequest {
    credential: CredentialEnvelope,
    plan: CreateRequestPlan,
}

impl PreparedRequest {
    pub closed spec fn spec_credential(&self) -> CredentialEnvelope {
        self.credential
    }

    pub fn credential(&self) -> (r: &CredentialEnvelope)
        ensures
            *r == self.spec_credential(),
    {
        &self.credential
    }

    pub closed spec fn spec_plan(&self) -> &CreateRequestPlan {
        &self.plan
    }

    pub fn new(credential: CredentialEnvelope, plan: CreateRequestPlan) -> (r: Self)
        ensures
            r.spec_credential() == credential,
            *r.spec_plan() == plan,
    {
        PreparedRequest { credential, plan }
    }

    pub fn plan(&self) -> (r: &CreateRequestPlan)
        ensures
            r == self.spec_plan(),
    {
        &self.plan
    }

    pub fn into_parts(self) -> (r: (CredentialEnvelope, CreateRequestPlan))
        ensures
            r.0 == self.spec_credential(),
            r.1 == *self.spec_plan(),
    {
        (self.credential, self.plan)
    }
}

/// Builds the plan of a new request from the checked parties and the
/// request's terms.
pub fn prepare_request(
    credential: CredentialEnvelope,
    account: Account,
    recipient: User,
    request_id: ClientRequestId,
    amount: Money,
    note: Note,
    visibility: Visibility,
) -> (r: PreparedRequest)
    ensures
        r.spec_credential() == credential,
        r.spec_plan().spec_request_id() == request_id,
        r.spec_plan().spec_account() == account,
        r.spec_plan().spec_recipient() == recipient@,
        r.spec_plan().spec_amount() == amount,
        r.spec_plan().spec_note() == note@,
        r.spec_plan().spec_visibility() == visibility,
{
    let plan = CreateRequestPlan::new(request_id, account, recipient, amount, note, visibility);
    PreparedRequest::new(credential, plan)
}

#[derive(PartialEq, Eq)]
pub struct RequestCreateResult {
    plan: CreateRequestPlan,
    created: CreatedRequest,
}

impl RequestCreateResult {
    pub closed spec fn spec_plan(&self) -> &CreateRequestPlan {
        &self.plan
    }

    pub closed spec fn spec_created(&self) -> &CreatedRequest {
        &self.created
    }

    pub fn new(plan: CreateRequestPlan, created: CreatedRequest) -> (r: Self)
        ensures
            *r.spec_plan() == plan,
            *r.spec_created() == created,
    {
        RequestCreateResult { plan, created }
    }

    pub fn plan(&self) -> (r: &CreateRequestPlan)
        ensures
            r == self.spec_plan(),
    {
        &self.plan
    }

    pub fn created(&self) -> (r: &CreatedRequest)
        ensures
            r == self.spec_created(),
    {
        &self.created
    }
}

#[derive(Clone, Debug, PartialEq, Eq)]
pub enum RequestCreateError {
    Preflight(PeerPreflightError),
    ConfirmationRequired,
    ConfirmationDeclined,
    Confirmation { source: PromptFailure },
    Create { source: ApiOperationFailure },
}

impl RequestCreateError {
    pub open spec fn spec_failure_kind(&self) -> ApplicationFailureKind {
        match self {
            RequestCreateError::Preflight(source) => source.spec_failure_kind(),
            RequestCreateError::ConfirmationRequired => ApplicationFailureKind::Usage,
            RequestCreateError::ConfirmationDeclined => ApplicationFailureKind::Cancelled,
            RequestCreateError::Confirmation { source } => source.kind,
            RequestCreateError::Create { source } => ApplicationFailureKind::Api(source.kind),
        }
    }

    #[verifier::when_used_as_spec(spec_failure_kind)]
    pub fn failure_kind(&self) -> (r: ApplicationFailureKind)
        ensures
            r == self.spec_failure_kind(),
    {
        match self {
            RequestCreateError::Preflight(source) => source.failure_kind(),
            RequestCreateError::ConfirmationRequired => ApplicationFailureKind::Usage,
            RequestCreateError::ConfirmationDeclined => ApplicationFailureKind::Cancelled,
            RequestCreateError::Confirmation { source } => source.kind,
            RequestCreateError::Create { source } => ApplicationFailureKind::Api(source.kind()),
        }
    }

    /// The creation failure that a refused confirmation amounts to.
    pub fn from_confirmation(error: DefaultNoConfirmationError) -> (r: RequestCreateError)
        ensures
            r == match error {
                DefaultNoConfirmationError::Required => RequestCreateError::ConfirmationRequired,
                DefaultNoConfirmationError::Declined => RequestCreateError::ConfirmationDeclined,
                DefaultNoConfirmationError::Prompt(source) => RequestCreateError::Confirmation {
                    source,
                },
            },
    {
        match error {
            DefaultNoConfirmationError::Required => RequestCreateError::ConfirmationRequired,
            DefaultNoConfirmationError::Declined => RequestCreateError::ConfirmationDeclined,
            DefaultNoConfirmationError::Prompt(source) => RequestCreateError::Confirmation {
                source,
            },
        }
    }
}

} // verus!
