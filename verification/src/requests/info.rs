//! Reading one open request by ID.
use vstd::prelude::*;

use crate::requests::model::{spec_is_pending_or_held, RequestAction, RequestRecord, RequestRecordView};
use crate::shared::{ApiOperationFailure, ApplicationFailureKind, CredentialAccessError, RequestId};

verus! {

pub const DIFFERENT_REQUEST_ID: &'static str = "the API returned a different request ID";

#[derive(PartialEq, Eq)]
pub struct RequestInfoResult {
    request: RequestRecord,
}

impl RequestInfoResult {
    pub closed spec fn spec_request(&self) -> RequestRecordView {
        self.request@
    }

    pub fn new(request: RequestRecord) -> (r: RequestInfoResult)
        ensures
            r.spec_request() == request@,
    {
        RequestInfoResult { request }
    }

    pub fn request(&self) -> (r: &RequestRecord)
        ensures
            r@ == self.spec_request(),
    {
        &self.request
    }
}

#[derive(Clone, Debug, PartialEq, Eq)]
pub enum RequestInfoError {
    Credential(CredentialAccessError),
    Api { source: ApiOperationFailure },
    ResponseContract { problem: &'static str },
    NotRequest,
    NotOpen,
}

impl RequestInfoError {
    pub open spec fn spec_failure_kind(&self) -> ApplicationFailureKind {
        match self {
            RequestInfoError::Credential(_) => ApplicationFailureKind::Credential,
            RequestInfoError::Api { source } => ApplicationFailureKind::Api(source.kind),
            RequestInfoError::ResponseContract { .. } => ApplicationFailureKind::ApiContract,
            RequestInfoError::NotRequest => ApplicationFailureKind::Usage,
            RequestInfoError::NotOpen => ApplicationFailureKind::Usage,
        }
    }

    #[verifier::when_used_as_spec(spec_failure_kind)]
    pub fn failure_kind(&self) -> (r: ApplicationFailureKind)
        ensures
            r == self.spec_failure_kind(),
    {
        match self {
            RequestInfoError::Credential(_) => ApplicationFailureKind::Credential,
            RequestInfoError::Api { source } => ApplicationFailureKind::Api(source.kind()),
            RequestInfoError::ResponseContract { .. } => ApplicationFailureKind::ApiContract,
            RequestInfoError::NotRequest => ApplicationFailureKind::Usage,
            RequestInfoError::NotOpen => ApplicationFailureKind::Usage,
        }
    }
}

/// Checks the record that the lookup returned: it must be the requested one,
/// a charge request, and still pending or held.
pub fn check_request_info(request: RequestRecord, request_id: &RequestId) -> (r: Result<
    RequestInfoResult,
    RequestInfoError,
>)
    ensures
        request@.id != request_id@ ==> r == Err::<RequestInfoResult, RequestInfoError>(
            RequestInfoError::ResponseContract { problem: DIFFERENT_REQUEST_ID },
        ),
        request@.id == request_id@ && request@.action != RequestAction::Charge ==> r == Err::<
            RequestInfoResult,
            RequestInfoError,
        >(RequestInfoError::NotRequest),
        request@.id == request_id@ && request@.action == RequestAction::Charge
            && !spec_is_pending_or_held(request@.status) ==> r == Err::<
            RequestInfoResult,
            RequestInfoError,
        >(RequestInfoError::NotOpen),
        request@.id == request_id@ && request@.action == RequestAction::Charge
            && spec_is_pending_or_held(request@.status) ==> r is Ok && r->Ok_0.spec_request()
            == request@,
{
    if !request.id().same_as(request_id) {
        return Err(RequestInfoError::ResponseContract { problem: DIFFERENT_REQUEST_ID });
    }
    if request.action() != RequestAction::Charge {
        return Err(RequestInfoError::NotRequest);
    }
    if !request.status().is_pending_or_held() {
        return Err(RequestInfoError::NotOpen);
    }
    Ok(RequestInfoResult::new(request))
}

} // verus!
