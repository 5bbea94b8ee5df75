//! The checks shared by every write on an existing request: the session's
//! account, then the authoritative record.
use vstd::prelude::*;

use crate::payments::{validate_account, FinancialValidationError};
use crate::requests::model::{RequestRecord, RequestRecordView};
use crate::requests::validation::{
    as_result, completeness_problem, incoming_pending_problem, outgoing_open_problem,
    validate_complete_request, validate_incoming_pending, validate_outgoing_open,
    validate_request_id, RequestMutationValidationError,
};
use crate::shared::{
    Account, ApiOperationFailure, ApplicationFailureKind, CredentialAccessError, CredentialEnvelope,
    RequestId,
};

verus! {

#[derive(Clone, Debug, PartialEq, Eq)]
pub enum RequestMutationPreflightError {
    Credential(CredentialAccessError),
    CurrentAccount { source: ApiOperationFailure },
    Account(FinancialValidationError),
    RequestLookup { source: ApiOperationFailure },
    RequestValidation(RequestMutationValidationError),
}

impl RequestMutationPreflightError {
    pub open spec fn spec_failure_kind(&self) -> ApplicationFailureKind {
        match self {
            RequestMutationPreflightError::Credential(_) => ApplicationFailureKind::Credential,
            RequestMutationPreflightError::CurrentAccount { source } => ApplicationFailureKind::Api(
                source.kind,
            ),
            RequestMutationPreflightError::RequestLookup { source } => ApplicationFailureKind::Api(
                source.kind,
            ),
            RequestMutationPreflightError::Account(source) => source.spec_failure_kind(),
            RequestMutationPreflightError::RequestValidation(source) => source.spec_failure_kind(),
        }
    }

    #[verifier::when_used_as_spec(spec_failure_kind)]
    pub fn failure_kind(&self) -> (r: ApplicationFailureKind)
        ensures
            r == self.spec_failure_kind(),
    {
        match self {
            RequestMutationPreflightError::Credential(_) => ApplicationFailureKind::Credential,
            RequestMutationPreflightError::CurrentAccount { source } => ApplicationFailureKind::Api(
                source.kind(),
            ),
            RequestMutationPreflightError::RequestLookup { source } => ApplicationFailureKind::Api(
                source.kind(),
            ),
            RequestMutationPreflightError::Account(source) => source.failure_kind(),
            RequestMutationPreflightError::RequestValidation(source) => source.failure_kind(),
        }
    }
}

/// The checked session, account and authoritative request.
pub struct RequestMutationPreflight {
    credential: CredentialEnvelope,
    account: Account,
    request: RequestRecord,
}

impl RequestMutationPreflight {
    pub closed spec fn spec_credential(&self) -> CredentialEnvelope {
        self.credential
    }

    pub closed spec fn spec_account(&self) -> Account {
        self.account
    }

    pub closed spec fn spec_request(&self) -> RequestRecordView {
        self.request@
    }

    pub fn into_parts(self) -> (r: (CredentialEnvelope, Account, RequestRecord))
        ensures
            r.0 == self.spec_credential(),
            r.1 == self.spec_account(),
            r.2@ == self.spec_request(),
    {
        (self.credential, self.account, self.request)
    }
}

/// The account that the service reports must be the credential's.
pub fn check_account(credential: &CredentialEnvelope, account: &Account) -> (r: Result<
    (),
    RequestMutationPreflightError,
>)
    ensures
        r is Ok <==> account.user_id@ == credential.user_id@,
        r is Err ==> r == Err::<(), RequestMutationPreflightError>(
            RequestMutationPreflightError::Account(FinancialValidationError::AccountMismatch),
        ),
{
    match validate_account(credential, account) {
        Ok(()) => Ok(()),
        Err(e) => Err(RequestMutationPreflightError::Account(e)),
    }
}

/// The first problem of an incoming request record: it must be the one
/// asked for, incoming and pending, and complete.
pub open spec fn incoming_problem(r: RequestRecordView, id: Seq<char>) -> Option<RequestMutationValidationError> {
    if r.id != id {
        Some(RequestMutationValidationError::MismatchedId)
    } else if incoming_pending_problem(r) is Some {
        incoming_pending_problem(r)
    } else {
        completeness_problem(r)
    }
}

/// The first problem of an outgoing request record: it must be the one
/// asked for, outgoing and open, and complete.
pub open spec fn outgoing_problem(r: RequestRecordView, id: Seq<char>) -> Option<RequestMutationValidationError> {
    if r.id != id {
        Some(RequestMutationValidationError::MismatchedId)
    } else if outgoing_open_problem(r) is Some {
        outgoing_open_problem(r)
    } else {
        completeness_problem(r)
    }
}

/// Checks the authoritative record of an incoming request and keeps it
/// with the session and account.
pub fn finish_incoming(
    credential: CredentialEnvelope,
    account: Account,
    request: RequestRecord,
    request_id: &RequestId,
) -> (r: Result<RequestMutationPreflight, RequestMutationPreflightError>)
    ensures
        match incoming_problem(request@, request_id@) {
            Some(e) => r == Err::<RequestMutationPreflight, RequestMutationPreflightError>(
                RequestMutationPreflightError::RequestValidation(e),
            ),
            None => r is Ok && r->Ok_0.spec_credential() == credential && r->Ok_0.spec_account()
                == account && r->Ok_0.spec_request() == request@,
        },
{
    if let Err(e) = validate_request_id(&request, request_id) {
        return Err(RequestMutationPreflightError::RequestValidation(e));
    }
    if let Err(e) = validate_incoming_pending(&request) {
        return Err(RequestMutationPreflightError::RequestValidation(e));
    }
    if let Err(e) = validate_complete_request(&request) {
        return Err(RequestMutationPreflightError::RequestValidation(e));
    }
    Ok(RequestMutationPreflight { credential, account, request })
}

/// Checks the authoritative record of an outgoing request and keeps it
/// with the session and account.
pub fn finish_outgoing(
    credential: CredentialEnvelope,
    account: Account,
    request: RequestRecord,
    request_id: &RequestId,
) -> (r: Result<RequestMutationPreflight, RequestMutationPreflightError>)
    ensures
        match outgoing_problem(request@, request_id@) {
            Some(e) => r == Err::<RequestMutationPreflight, RequestMutationPreflightError>(
                RequestMutationPreflightError::RequestValidation(e),
            ),
            None => r is Ok && r->Ok_0.spec_credential() == credential && r->Ok_0.spec_account()
                == account && r->Ok_0.spec_request() == request@,
        },
{
    if let Err(e) = validate_request_id(&request, request_id) {
        return Err(RequestMutationPreflightError::RequestValidation(e));
    }
    if let Err(e) = validate_outgoing_open(&request) {
        return Err(RequestMutationPreflightError::RequestValidation(e));
    }
    if let Err(e) = validate_complete_request(&request) {
        return Err(RequestMutationPreflightError::RequestValidation(e));
    }
    Ok(RequestMutationPreflight { credential, account, request })
}

} // verus!
