//! The checks that an authoritative request record must pass before the
//! account may act on it.
use vstd::prelude::*;

use crate::requests::model::{
    spec_is_pending_or_held, RequestAction, RequestDirection, RequestRecord, RequestRecordView,
};
use crate::shared::{
    spec_parse_visibility, ApplicationFailureKind, Note, RequestId, Visibility,
};
use crate::text::is_blank;

verus! {

#[derive(Clone, Copy, Debug, PartialEq, Eq, Structural)]
pub enum RequestMutationValidationError {
    NotIncoming,
    NotOutgoing,
    NotPending,
    NotOpen,
    UnverifiedAudience,
    InvalidNote,
    UnsupportedAudience,
    IncompleteRequester,
    MissingCreationTime,
    NotChargeRequest,
    MismatchedId,
}

impl RequestMutationValidationError {
    pub open spec fn spec_failure_kind(self) -> ApplicationFailureKind {
        match self {
            RequestMutationValidationError::NotIncoming => ApplicationFailureKind::Usage,
            RequestMutationValidationError::NotOutgoing => ApplicationFailureKind::Usage,
            RequestMutationValidationError::NotPending => ApplicationFailureKind::Usage,
            RequestMutationValidationError::NotOpen => ApplicationFailureKind::Usage,
            RequestMutationValidationError::UnverifiedAudience => ApplicationFailureKind::Usage,
            RequestMutationValidationError::NotChargeRequest => ApplicationFailureKind::Usage,
            _ => ApplicationFailureKind::ApiContract,
        }
    }

    #[verifier::when_used_as_spec(spec_failure_kind)]
    pub fn failure_kind(self) -> (r: ApplicationFailureKind)
        ensures
            r == self.spec_failure_kind(),
    {
        match self {
            RequestMutationValidationError::NotIncoming => ApplicationFailureKind::Usage,
            RequestMutationValidationError::NotOutgoing => ApplicationFailureKind::Usage,
            RequestMutationValidationError::NotPending => ApplicationFailureKind::Usage,
            RequestMutationValidationError::NotOpen => ApplicationFailureKind::Usage,
            RequestMutationValidationError::UnverifiedAudience => ApplicationFailureKind::Usage,
            RequestMutationValidationError::NotChargeRequest => ApplicationFailureKind::Usage,
            _ => ApplicationFailureKind::ApiContract,
        }
    }
}

/// The first completeness problem of a request record, if any: it must be
/// a charge with a valid note, a supported audience, a counterparty
/// username and a creation time.
pub open spec fn completeness_problem(r: RequestRecordView) -> Option<RequestMutationValidationError> {
    if r.action != RequestAction::Charge {
        Some(RequestMutationValidationError::NotChargeRequest)
    } else if !(r.note matches Some(n) && !is_blank(n)) {
        Some(RequestMutationValidationError::InvalidNote)
    } else if !(r.audience matches Some(a) && spec_parse_visibility(a) is Some) {
        Some(RequestMutationValidationError::UnsupportedAudience)
    } else if r.counterparty.username is None {
        Some(RequestMutationValidationError::IncompleteRequester)
    } else if r.created_at is None {
        Some(RequestMutationValidationError::MissingCreationTime)
    } else {
        None
    }
}

pub open spec fn as_result(p: Option<RequestMutationValidationError>) -> Result<(), RequestMutationValidationError> {
    match p {
        Some(e) => Err(e),
        None => Ok(()),
    }
}

pub fn validate_complete_request(request: &RequestRecord) -> (r: Result<
    (),
    RequestMutationValidationError,
>)
    ensures
        r == as_result(completeness_problem(request@)),
{
    if request.action() != RequestAction::Charge {
        return Err(RequestMutationValidationError::NotChargeRequest);
    }
    let note_ok = match request.note() {
        Some(note) => Note::parse(note).is_ok(),
        None => false,
    };
    if !note_ok {
        return Err(RequestMutationValidationError::InvalidNote);
    }
    let audience_ok = match request.audience() {
        Some(audience) => Visibility::parse(audience).is_ok(),
        None => false,
    };
    if !audience_ok {
        return Err(RequestMutationValidationError::UnsupportedAudience);
    }
    if request.counterparty().username().is_none() {
        return Err(RequestMutationValidationError::IncompleteRequester);
    }
    if request.created_at().is_none() {
        return Err(RequestMutationValidationError::MissingCreationTime);
    }
    Ok(())
}

pub fn validate_request_id(request: &RequestRecord, expected: &RequestId) -> (r: Result<
    (),
    RequestMutationValidationError,
>)
    ensures
        r is Ok <==> request@.id == expected@,
        r is Err ==> r == Err::<(), RequestMutationValidationError>(
            RequestMutationValidationError::MismatchedId,
        ),
{
    if !request.id().same_as(expected) {
        return Err(RequestMutationValidationError::MismatchedId);
    }
    Ok(())
}

/// The record must be incoming and exactly `pending`.
pub open spec fn incoming_pending_problem(r: RequestRecordView) -> Option<RequestMutationValidationError> {
    if r.direction != RequestDirection::Incoming {
        Some(RequestMutationValidationError::NotIncoming)
    } else if r.status != "pending"@ {
        Some(RequestMutationValidationError::NotPending)
    } else {
        None
    }
}

pub fn validate_incoming_pending(request: &RequestRecord) -> (r: Result<
    (),
    RequestMutationValidationError,
>)
    ensures
        r == as_result(incoming_pending_problem(request@)),
{
    if request.direction() != RequestDirection::Incoming {
        return Err(RequestMutationValidationError::NotIncoming);
    }
    if !request.status().is_pending() {
        return Err(RequestMutationValidationError::NotPending);
    }
    Ok(())
}

/// The record must be outgoing and `pending` or `held`.
pub open spec fn outgoing_open_problem(r: RequestRecordView) -> Option<RequestMutationValidationError> {
    if r.direction != RequestDirection::Outgoing {
        Some(RequestMutationValidationError::NotOutgoing)
    } else if !spec_is_pending_or_held(r.status) {
        Some(RequestMutationValidationError::NotOpen)
    } else {
        None
    }
}

pub fn validate_outgoing_open(request: &RequestRecord) -> (r: Result<
    (),
    RequestMutationValidationError,
>)
    ensures
        r == as_result(outgoing_open_problem(request@)),
{
    if request.direction() != RequestDirection::Outgoing {
        return Err(RequestMutationValidationError::NotOutgoing);
    }
    if !request.status().is_pending_or_held() {
        return Err(RequestMutationValidationError::NotOpen);
    }
    Ok(())
}

pub fn validate_private_audience(request: &RequestRecord) -> (r: Result<
    (),
    RequestMutationValidationError,
>)
    ensures
        r is Ok <==> request@.audience == Some("private"@),
        r is Err ==> r == Err::<(), RequestMutationValidationError>(
            RequestMutationValidationError::UnverifiedAudience,
        ),
{
    let private = match request.audience() {
        Some(audience) => audience.to_owned() == "private".to_owned(),
        None => false,
    };
    if !private {
        return Err(RequestMutationValidationError::UnverifiedAudience);
    }
    Ok(())
}

} // verus!
