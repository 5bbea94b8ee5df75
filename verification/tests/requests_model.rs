use std::str::FromStr;

use venmo_core::people::user::User;
use venmo_core::requests::model::{
    CreatedRequest, RequestAction, RequestDirection, RequestRecord, RequestStatus,
    RequestStatusParseError, MAX_REQUEST_STATUS_BYTES,
};
use venmo_core::requests::validation::{
    validate_complete_request, validate_incoming_pending, validate_outgoing_open,
    validate_private_audience, validate_request_id, RequestMutationValidationError,
};
use venmo_core::shared::{Money, RequestId, Timestamp, UserId, Username};

fn epoch() -> Timestamp {
    Timestamp::from_unix_nanos(0)
}

#[test]
fn request_status_has_exact_byte_unicode_control_and_state_boundaries() {
    let max = MAX_REQUEST_STATUS_BYTES as usize;
    for value in ["x".repeat(max), "é".repeat(max / 2)] {
        assert_eq!(value.len(), max);
        assert_eq!(RequestStatus::from_str(&value).unwrap().as_str(), value);
    }
    for value in ["x".repeat(max + 1), format!("{}a", "é".repeat(max / 2))] {
        assert_eq!(
            RequestStatus::from_str(&value),
            Err(RequestStatusParseError::TooLong {
                maximum_bytes: MAX_REQUEST_STATUS_BYTES
            })
        );
    }
    assert_eq!(
        RequestStatus::from_str(""),
        Err(RequestStatusParseError::Empty)
    );
    for value in ["line\nbreak", "zero\u{0}byte"] {
        assert_eq!(
            RequestStatus::from_str(value),
            Err(RequestStatusParseError::ControlCharacter)
        );
    }
    assert!(RequestStatus::from_str("pending").unwrap().is_pending_or_held());
    assert!(RequestStatus::from_str("held").unwrap().is_pending_or_held());
    assert!(!RequestStatus::from_str("Pending").unwrap().is_pending_or_held());
    assert!(!RequestStatus::from_str("settled").unwrap().is_pending_or_held());
}

#[test]
fn request_record_constructor_preserves_action_direction_identity_and_optional_fields() {
    let counterparty = User::new(
        UserId::from_str("456").unwrap(),
        Some(Username::from_bare("requester").unwrap()),
        Some("Requester".to_owned()),
    );
    let record = RequestRecord::new(
        RequestId::from_str("request-1").unwrap(),
        RequestAction::Charge,
        RequestDirection::Incoming,
        counterparty.clone(),
        Money::from_cents(1).unwrap(),
        Some("private note".to_owned()),
        Some(epoch()),
        RequestStatus::from_str("pending").unwrap(),
    )
    .with_audience(Some("private".to_owned()));
    assert_eq!(record.id().as_str(), "request-1");
    assert_eq!(record.action(), RequestAction::Charge);
    assert_eq!(record.direction(), RequestDirection::Incoming);
    assert!(record.counterparty() == &counterparty);
    assert_eq!(record.amount().cents(), 1);
    assert_eq!(record.note(), Some("private note"));
    assert_eq!(record.audience(), Some("private"));
    assert_eq!(record.created_at(), Some(epoch()));
    assert_eq!(record.status().as_str(), "pending");
    let rendered = record.redacted_debug();
    assert!(!rendered.contains("request-1"));
    assert!(!rendered.contains("private note"));

    let minimal = RequestRecord::new(
        RequestId::from_str("request-2").unwrap(),
        RequestAction::Pay,
        RequestDirection::Outgoing,
        counterparty,
        Money::from_cents(2).unwrap(),
        None,
        None,
        RequestStatus::from_str("settled").unwrap(),
    );
    assert_eq!(minimal.action(), RequestAction::Pay);
    assert_eq!(minimal.direction(), RequestDirection::Outgoing);
    assert!(minimal.note().is_none());
    assert!(minimal.audience().is_none());
    assert!(minimal.created_at().is_none());
}

#[test]
fn created_request_is_a_request_owned_whole_value() {
    let created = CreatedRequest::new(
        RequestId::from_str("request-123").unwrap(),
        RequestStatus::from_str("pending").unwrap(),
    );

    assert_eq!(created.id().as_str(), "request-123");
    assert_eq!(created.status().as_str(), "pending");
    assert_eq!(
        created.redacted_debug(),
        "CreatedRequest { id: \"[REDACTED]\", status: RequestStatus(\"pending\") }"
    );
}

fn user(username: Option<&str>) -> User {
    User::new(
        UserId::from_str("456").unwrap(),
        username.map(|name| Username::from_bare(name).unwrap()),
        Some("Synthetic requester".to_owned()),
    )
}

fn complete_request(
    id: &str,
    direction: RequestDirection,
    status: &str,
    audience: &str,
) -> RequestRecord {
    RequestRecord::new(
        RequestId::from_str(id).unwrap(),
        RequestAction::Charge,
        direction,
        user(Some("requester")),
        Money::from_cents(1).unwrap(),
        Some("note".to_owned()),
        Some(epoch()),
        RequestStatus::from_str(status).unwrap(),
    )
    .with_audience(Some(audience.to_owned()))
}

fn request(
    id: &str,
    action: RequestAction,
    note: Option<&str>,
    audience: Option<&str>,
    username: Option<&str>,
    created_at: Option<Timestamp>,
) -> RequestRecord {
    RequestRecord::new(
        RequestId::from_str(id).unwrap(),
        action,
        RequestDirection::Incoming,
        user(username),
        Money::from_cents(1).unwrap(),
        note.map(str::to_owned),
        created_at,
        RequestStatus::from_str("pending").unwrap(),
    )
    .with_audience(audience.map(str::to_owned))
}

#[test]
fn complete_request_validation_table_covers_every_contract_variant() {
    let cases = [
        (
            request(
                "request-1",
                RequestAction::Charge,
                Some("note"),
                Some("private"),
                Some("requester"),
                Some(epoch()),
            ),
            Ok(()),
        ),
        (
            request(
                "request-1",
                RequestAction::Pay,
                Some("note"),
                Some("private"),
                Some("requester"),
                Some(epoch()),
            ),
            Err(RequestMutationValidationError::NotChargeRequest),
        ),
        (
            request(
                "request-1",
                RequestAction::Charge,
                None,
                Some("private"),
                Some("requester"),
                Some(epoch()),
            ),
            Err(RequestMutationValidationError::InvalidNote),
        ),
        (
            request(
                "request-1",
                RequestAction::Charge,
                Some(" \t "),
                Some("private"),
                Some("requester"),
                Some(epoch()),
            ),
            Err(RequestMutationValidationError::InvalidNote),
        ),
        (
            request(
                "request-1",
                RequestAction::Charge,
                Some("note"),
                None,
                Some("requester"),
                Some(epoch()),
            ),
            Err(RequestMutationValidationError::UnsupportedAudience),
        ),
        (
            request(
                "request-1",
                RequestAction::Charge,
                Some("note"),
                Some("unsupported"),
                Some("requester"),
                Some(epoch()),
            ),
            Err(RequestMutationValidationError::UnsupportedAudience),
        ),
        (
            request(
                "request-1",
                RequestAction::Charge,
                Some("note"),
                Some("private"),
                None,
                Some(epoch()),
            ),
            Err(RequestMutationValidationError::IncompleteRequester),
        ),
        (
            request(
                "request-1",
                RequestAction::Charge,
                Some("note"),
                Some("private"),
                Some("requester"),
                None,
            ),
            Err(RequestMutationValidationError::MissingCreationTime),
        ),
    ];

    for (request, expected) in cases {
        let observed = validate_complete_request(&request);
        assert_eq!(observed, expected);
    }
}

#[test]
fn id_direction_state_and_private_audience_tables_compare_whole_results() {
    let expected_id = RequestId::from_str("request-1").unwrap();
    for (record_id, expected) in [
        ("request-1", Ok(())),
        (
            "different",
            Err(RequestMutationValidationError::MismatchedId),
        ),
    ] {
        let record = complete_request(record_id, RequestDirection::Incoming, "pending", "private");
        assert_eq!(validate_request_id(&record, &expected_id), expected);
    }

    for (direction, status, expected) in [
        (RequestDirection::Incoming, "pending", Ok(())),
        (
            RequestDirection::Outgoing,
            "pending",
            Err(RequestMutationValidationError::NotIncoming),
        ),
        (
            RequestDirection::Incoming,
            "held",
            Err(RequestMutationValidationError::NotPending),
        ),
        (
            RequestDirection::Incoming,
            "cancelled",
            Err(RequestMutationValidationError::NotPending),
        ),
        (
            RequestDirection::Incoming,
            "Pending",
            Err(RequestMutationValidationError::NotPending),
        ),
    ] {
        let record = complete_request("request-1", direction, status, "private");
        assert_eq!(validate_incoming_pending(&record), expected);
    }

    for (direction, status, expected) in [
        (RequestDirection::Outgoing, "pending", Ok(())),
        (RequestDirection::Outgoing, "held", Ok(())),
        (
            RequestDirection::Incoming,
            "pending",
            Err(RequestMutationValidationError::NotOutgoing),
        ),
        (
            RequestDirection::Outgoing,
            "cancelled",
            Err(RequestMutationValidationError::NotOpen),
        ),
        (
            RequestDirection::Outgoing,
            "settled",
            Err(RequestMutationValidationError::NotOpen),
        ),
    ] {
        let record = complete_request("request-1", direction, status, "private");
        assert_eq!(validate_outgoing_open(&record), expected);
    }

    for (audience, expected) in [
        ("private", Ok(())),
        (
            "friends",
            Err(RequestMutationValidationError::UnverifiedAudience),
        ),
        (
            "public",
            Err(RequestMutationValidationError::UnverifiedAudience),
        ),
    ] {
        let record = complete_request("request-1", RequestDirection::Incoming, "pending", audience);
        assert_eq!(validate_private_audience(&record), expected);
    }
    let missing_audience = request(
        "request-1",
        RequestAction::Charge,
        Some("note"),
        None,
        Some("requester"),
        Some(epoch()),
    );
    assert_eq!(
        validate_private_audience(&missing_audience),
        Err(RequestMutationValidationError::UnverifiedAudience)
    );
}
