use std::str::FromStr;

use venmo_core::payments::{
    EligibilityToken, FinancialStatus, FinancialValidationError, PeerFundingSource,
    PeerFundingSourceSelection,
};
use venmo_core::people::user::{User, UserProfileKind};
use venmo_core::requests::accept::{
    accept_next_step, after_first_attempt, after_verified_attempt, check_requester,
    eligibility_note, protection_fees, AcceptError, AcceptPreparationStep,
    AcceptanceNext, RequestAcceptanceOutcome, StepUpFailure,
};
use venmo_core::requests::create::{check_peer_parties, PeerPreflightError};
use venmo_core::requests::info::{check_request_info, RequestInfoError, DIFFERENT_REQUEST_ID};
use venmo_core::requests::list::{
    finish_requests_page, RequestsError, CONFLICTING_REQUEST_RECORDS,
    MORE_REQUESTS_THAN_REQUESTED, NON_PROGRESSING_BEFORE,
};
use venmo_core::requests::model::{
    RequestAction, RequestDirection, RequestDirectionFilter, RequestRecord, RequestStatus,
};
use venmo_core::requests::plans::{
    AcceptRequestPlan, AcceptedRequest, CancelledRequest, DeclinedRequest, RequestApprovalFee,
    RequestApprovalFees,
};
use venmo_core::wallet::model::{Balance, PaymentMethod, SignedUsdAmount};
use venmo_core::requests::ports::PendingRequestsPage;
use venmo_core::requests::preflight::{
    check_account, finish_incoming, finish_outgoing, RequestMutationPreflightError,
};
use venmo_core::requests::validation::RequestMutationValidationError;
use venmo_core::shared::{
    Account, CredentialEnvelope, Limit, Money, PaymentId, PaymentMethodId, RequestId,
    RequestNotificationId, RequestsBefore, Timestamp, UserId, Username,
};

fn requester() -> User {
    User::new(
        UserId::from_str("456").unwrap(),
        Some(Username::from_bare("requester").unwrap()),
        Some("Requester".to_owned()),
    )
}

fn record(id: &str, action: RequestAction, direction: RequestDirection, status: &str) -> RequestRecord {
    RequestRecord::new(
        RequestId::from_str(id).unwrap(),
        action,
        direction,
        requester(),
        Money::from_cents(1500).unwrap(),
        Some("dinner".to_owned()),
        Some(Timestamp::from_unix_nanos(0)),
        RequestStatus::from_str(status).unwrap(),
    )
    .with_audience(Some("private".to_owned()))
}

fn credential(user_id: &str) -> CredentialEnvelope {
    CredentialEnvelope {
        access_token: "token".to_owned(),
        device_id: "device".to_owned(),
        user_id: UserId::from_str(user_id).unwrap(),
        username: Username::from_bare("owner").unwrap(),
        display_name: None,
    }
}

fn account(user_id: &str) -> Account {
    Account::new(
        UserId::from_str(user_id).unwrap(),
        Username::from_bare("owner").unwrap(),
        None,
    )
}

fn ids(result: &[RequestRecord]) -> Vec<String> {
    result.iter().map(|r| r.id().as_str().to_owned()).collect()
}

#[test]
fn listing_keeps_every_direction_or_exactly_the_requested_one() {
    let page = || {
        PendingRequestsPage::new(
            vec![
                record("in-1", RequestAction::Charge, RequestDirection::Incoming, "pending"),
                record("out-1", RequestAction::Charge, RequestDirection::Outgoing, "pending"),
                record("in-2", RequestAction::Charge, RequestDirection::Incoming, "held"),
                record("in-1", RequestAction::Charge, RequestDirection::Incoming, "pending"),
            ],
            Some(RequestsBefore::from_str("cursor-2").unwrap()),
        )
    };
    let limit = Limit::new(4).unwrap();
    let all = finish_requests_page(limit, None, RequestDirectionFilter::All, page()).unwrap();
    assert_eq!(ids(all.requests()), vec!["in-1", "out-1", "in-2"]);
    assert_eq!(all.next_before().map(|b| b.as_str()), Some("cursor-2"));
    let incoming =
        finish_requests_page(limit, None, RequestDirectionFilter::Incoming, page()).unwrap();
    assert_eq!(ids(incoming.requests()), vec!["in-1", "in-2"]);
    assert_eq!(incoming.direction(), RequestDirectionFilter::Incoming);
    let outgoing =
        finish_requests_page(limit, None, RequestDirectionFilter::Outgoing, page()).unwrap();
    assert_eq!(ids(outgoing.requests()), vec!["out-1"]);
    assert_eq!(outgoing.next_before().map(|b| b.as_str()), Some("cursor-2"));
}

#[test]
fn listing_rejects_every_page_contract_violation() {
    let one = || vec![record("a", RequestAction::Charge, RequestDirection::Incoming, "pending")];
    let too_many = PendingRequestsPage::new(
        vec![
            record("a", RequestAction::Charge, RequestDirection::Incoming, "pending"),
            record("b", RequestAction::Charge, RequestDirection::Incoming, "pending"),
        ],
        None,
    );
    assert_eq!(
        finish_requests_page(Limit::new(1).unwrap(), None, RequestDirectionFilter::All, too_many)
            .err(),
        Some(RequestsError::ResponseContract { problem: MORE_REQUESTS_THAN_REQUESTED })
    );
    let cursor = RequestsBefore::from_str("same").unwrap();
    let repeated = PendingRequestsPage::new(one(), Some(RequestsBefore::from_str("same").unwrap()));
    assert_eq!(
        finish_requests_page(
            Limit::new(5).unwrap(),
            Some(&cursor),
            RequestDirectionFilter::All,
            repeated
        )
        .err(),
        Some(RequestsError::ResponseContract { problem: NON_PROGRESSING_BEFORE })
    );
    let conflicting = PendingRequestsPage::new(
        vec![
            record("a", RequestAction::Charge, RequestDirection::Incoming, "pending"),
            record("a", RequestAction::Charge, RequestDirection::Incoming, "held"),
        ],
        None,
    );
    assert_eq!(
        finish_requests_page(Limit::new(5).unwrap(), None, RequestDirectionFilter::All, conflicting)
            .err(),
        Some(RequestsError::ResponseContract { problem: CONFLICTING_REQUEST_RECORDS })
    );
}

#[test]
fn request_info_accepts_only_open_charges_with_the_requested_id() {
    let id = RequestId::from_str("r-1").unwrap();
    for status in ["pending", "held"] {
        for direction in [RequestDirection::Incoming, RequestDirection::Outgoing] {
            let found = check_request_info(record("r-1", RequestAction::Charge, direction, status), &id)
                .ok()
                .unwrap();
            assert_eq!(found.request().status().as_str(), status);
        }
    }
    assert_eq!(
        check_request_info(
            record("r-2", RequestAction::Charge, RequestDirection::Incoming, "pending"),
            &id
        )
        .err(),
        Some(RequestInfoError::ResponseContract { problem: DIFFERENT_REQUEST_ID })
    );
    assert_eq!(
        check_request_info(
            record("r-1", RequestAction::Pay, RequestDirection::Incoming, "pending"),
            &id
        )
        .err(),
        Some(RequestInfoError::NotRequest)
    );
    for status in ["settled", "cancelled", "Pending"] {
        assert_eq!(
            check_request_info(
                record("r-1", RequestAction::Charge, RequestDirection::Incoming, status),
                &id
            )
            .err(),
            Some(RequestInfoError::NotOpen)
        );
    }
}

#[test]
fn mutation_preflight_checks_account_id_direction_state_and_completeness() {
    assert_eq!(check_account(&credential("1"), &account("1")), Ok(()));
    assert_eq!(
        check_account(&credential("1"), &account("2")),
        Err(RequestMutationPreflightError::Account(FinancialValidationError::AccountMismatch))
    );
    let id = RequestId::from_str("r-1").unwrap();
    let incoming = record("r-1", RequestAction::Charge, RequestDirection::Incoming, "pending");
    let prepared = finish_incoming(credential("1"), account("1"), incoming, &id).ok().unwrap();
    let (_, _, request) = prepared.into_parts();
    assert_eq!(request.id().as_str(), "r-1");
    for (record, expected) in [
        (
            record("r-9", RequestAction::Charge, RequestDirection::Incoming, "pending"),
            RequestMutationValidationError::MismatchedId,
        ),
        (
            record("r-1", RequestAction::Charge, RequestDirection::Outgoing, "pending"),
            RequestMutationValidationError::NotIncoming,
        ),
        (
            record("r-1", RequestAction::Charge, RequestDirection::Incoming, "held"),
            RequestMutationValidationError::NotPending,
        ),
        (
            record("r-1", RequestAction::Pay, RequestDirection::Incoming, "pending"),
            RequestMutationValidationError::NotChargeRequest,
        ),
    ] {
        assert_eq!(
            finish_incoming(credential("1"), account("1"), record, &id).err(),
            Some(RequestMutationPreflightError::RequestValidation(expected))
        );
    }
    let held = record("r-1", RequestAction::Charge, RequestDirection::Outgoing, "held");
    assert!(finish_outgoing(credential("1"), account("1"), held, &id).is_ok());
    assert_eq!(
        finish_outgoing(
            credential("1"),
            account("1"),
            record("r-1", RequestAction::Charge, RequestDirection::Outgoing, "settled"),
            &id
        )
        .err(),
        Some(RequestMutationPreflightError::RequestValidation(
            RequestMutationValidationError::NotOpen
        ))
    );
}

#[test]
fn new_requests_need_the_signed_in_account_and_a_personal_recipient() {
    let personal = requester().with_financial_attributes(UserProfileKind::Personal, true);
    assert_eq!(check_peer_parties(&credential("1"), &account("1"), &personal), Ok(()));
    assert_eq!(
        check_peer_parties(&credential("1"), &account("2"), &personal),
        Err(PeerPreflightError::Validation(FinancialValidationError::AccountMismatch))
    );
    assert_eq!(
        check_peer_parties(&credential("1"), &account("1"), &requester()),
        Err(PeerPreflightError::Validation(FinancialValidationError::MissingProfileType))
    );
    assert_eq!(
        check_peer_parties(
            &credential("1"),
            &account("1"),
            &requester().with_financial_attributes(UserProfileKind::Charity, true)
        ),
        Err(PeerPreflightError::Validation(FinancialValidationError::UnsupportedProfileType))
    );
}

#[test]
fn the_requester_must_be_the_authoritative_personal_counterparty() {
    let request = || record("r-1", RequestAction::Charge, RequestDirection::Incoming, "pending");
    let personal = requester().with_financial_attributes(UserProfileKind::Personal, true);
    let checked = check_requester(request(), personal).ok().unwrap();
    assert_eq!(
        checked.counterparty().profile_kind(),
        Some(UserProfileKind::Personal)
    );
    let stranger = User::new(
        UserId::from_str("999").unwrap(),
        Some(Username::from_bare("requester").unwrap()),
        None,
    )
    .with_financial_attributes(UserProfileKind::Personal, true);
    assert_eq!(
        check_requester(request(), stranger).err(),
        Some(AcceptError::RequesterIdentityMismatch)
    );
    assert_eq!(
        check_requester(request(), requester()).err(),
        Some(AcceptError::AccountOrRequester(FinancialValidationError::MissingProfileType))
    );
    assert_eq!(
        check_requester(
            request(),
            requester().with_financial_attributes(UserProfileKind::Business, true)
        )
        .err(),
        Some(AcceptError::AccountOrRequester(FinancialValidationError::UnsupportedProfileType))
    );
}

fn fee(cents: u64) -> RequestApprovalFee {
    RequestApprovalFee::new(
        "venmo:product/protection".to_owned(),
        "recipient".to_owned(),
        "fee-token".to_owned(),
        None,
        Some("2.9".to_owned()),
        cents,
    )
}

#[test]
fn protection_fees_apply_only_when_asked_and_never_exceed_the_amount() {
    let fees = || RequestApprovalFees::present(vec![fee(45)], 45);
    assert!(matches!(
        protection_fees(fees(), 1500, false),
        Ok(RequestApprovalFees::Omitted)
    ));
    assert!(matches!(
        protection_fees(fees(), 1500, true),
        Ok(RequestApprovalFees::Present { total_cents: 45, .. })
    ));
    assert!(matches!(
        protection_fees(fees(), 45, true),
        Ok(RequestApprovalFees::Present { total_cents: 45, .. })
    ));
    assert_eq!(
        protection_fees(fees(), 44, true).err(),
        Some(AcceptError::ProtectionFeeExceedsAmount)
    );
    let entry = fee(45);
    assert_eq!(entry.product_uri(), "venmo:product/protection");
    assert_eq!(entry.fee_percentage(), Some("2.9"));
    assert_eq!(entry.calculated_fee_amount_in_cents(), 45);
}

#[test]
fn acceptance_steps_up_once_and_fails_closed_if_still_required() {
    let accepted = || AcceptedRequest::new(PaymentId::from_str("p-1").unwrap(), FinancialStatus::Settled);
    assert!(matches!(
        after_first_attempt(RequestAcceptanceOutcome::Accepted(accepted())),
        AcceptanceNext::Done(_)
    ));
    match after_first_attempt(RequestAcceptanceOutcome::OtpStepUpRequired("session-1".to_owned())) {
        AcceptanceNext::StepUp(session) => assert_eq!(session, "session-1"),
        AcceptanceNext::Done(_) => panic!("a step-up must be performed first"),
    }
    let verified = after_verified_attempt(RequestAcceptanceOutcome::Accepted(accepted())).ok().unwrap();
    assert_eq!(verified.payment_id().map(|p| p.as_str()), Some("p-1"));
    assert_eq!(verified.status(), Some(FinancialStatus::Settled));
    assert_eq!(
        after_verified_attempt(RequestAcceptanceOutcome::OtpStepUpRequired("again".to_owned()))
            .err(),
        Some(AcceptError::StepUp(StepUpFailure::StillRequired))
    );
}

fn accept_plan(protect: bool, fee_cents: u64) -> AcceptRequestPlan {
    let request = record("r-1", RequestAction::Charge, RequestDirection::Incoming, "pending");
    let plan = AcceptRequestPlan::new(
        account("1"),
        request,
        Balance::new(SignedUsdAmount::from_cents(0), SignedUsdAmount::from_cents(0)),
    );
    let method = PaymentMethod::new(
        PaymentMethodId::from_str("bank-1").unwrap(),
        Some("Checking".to_owned()),
        Some("bank".to_owned()),
        Some("1234".to_owned()),
        true,
    );
    let fees = protection_fees(RequestApprovalFees::present(vec![fee(fee_cents)], fee_cents), 1500, protect)
        .unwrap();
    plan.with_funding(
        RequestNotificationId::from_str("n-1").unwrap(),
        PeerFundingSource::external(method),
        PeerFundingSourceSelection::Automatic,
        EligibilityToken::parse_owned("token-1".to_owned()).unwrap(),
        fees,
        protect,
    )
}

#[test]
fn a_protected_acceptance_pays_the_requester_the_amount_less_the_fee() {
    let protected = accept_plan(true, 45);
    assert!(protected.is_purchase_protected());
    assert_eq!(protected.approval_fee_cents(), Some(45));
    assert_eq!(protected.recipient_proceeds_cents(), Some(1455));
    let exact = accept_plan(true, 1500);
    assert_eq!(exact.recipient_proceeds_cents(), Some(0));
    let unprotected = accept_plan(false, 45);
    assert!(!unprotected.is_purchase_protected());
    assert_eq!(unprotected.approval_fee_cents(), None);
    assert_eq!(unprotected.recipient_proceeds_cents(), None);
    assert_eq!(
        unprotected.funding_source().map(|s| s.is_external()),
        Some(true)
    );
}

#[test]
fn a_funded_plan_keeps_the_fee_entries_and_the_whole_source() {
    let protected = accept_plan(true, 45);
    let fees = protected.approval_fees().unwrap();
    let entries = fees.entries().unwrap();
    assert_eq!(entries.len(), 1);
    assert_eq!(entries[0].product_uri(), "venmo:product/protection");
    assert_eq!(entries[0].applied_to(), "recipient");
    assert_eq!(entries[0].fee_token(), "fee-token");
    assert_eq!(entries[0].base_fee_amount(), None);
    assert_eq!(entries[0].fee_percentage(), Some("2.9"));
    assert_eq!(entries[0].calculated_fee_amount_in_cents(), 45);
    assert_eq!(fees.total_cents(), 45);
    let source = protected.funding_source().unwrap();
    assert!(source.is_external());
    let method = source.payment_method();
    assert_eq!(method.id().as_str(), "bank-1");
    assert_eq!(method.name(), Some("Checking"));
    assert_eq!(method.last_four(), Some("1234"));
    let unprotected = accept_plan(false, 45);
    assert!(unprotected.approval_fees().unwrap().entries().is_none());
}

#[test]
fn write_outcomes_render_without_their_identifiers() {
    let accepted =
        AcceptedRequest::new(PaymentId::from_str("secret-payment").unwrap(), FinancialStatus::Held);
    assert_eq!(
        accepted.redacted_debug(),
        "AcceptedRequest { payment_id: \"[REDACTED]\", status: Some(Held) }"
    );
    assert_eq!(
        AcceptedRequest::source_funded().redacted_debug(),
        "AcceptedRequest { payment_id: \"[REDACTED]\", status: None }"
    );
    let declined = DeclinedRequest::new(
        RequestId::from_str("secret-request").unwrap(),
        RequestStatus::from_str("cancelled").unwrap(),
    );
    assert_eq!(
        declined.redacted_debug(),
        "DeclinedRequest { request_id: \"[REDACTED]\", status: RequestStatus(\"cancelled\") }"
    );
    let cancelled = CancelledRequest::new(
        RequestId::from_str("secret-request").unwrap(),
        RequestStatus::from_str("cancelled").unwrap(),
    );
    assert!(!cancelled.redacted_debug().contains("secret"));
    assert_eq!(accept_plan(true, 45).redacted_debug(), "AcceptRequestPlan([REDACTED])");
}

#[test]
fn acceptance_resolves_funding_only_when_needed() {
    let covered = Balance::new(SignedUsdAmount::from_cents(1500), SignedUsdAmount::from_cents(0));
    let short = Balance::new(SignedUsdAmount::from_cents(1499), SignedUsdAmount::from_cents(0));
    let negative = Balance::new(SignedUsdAmount::from_cents(-1), SignedUsdAmount::from_cents(0));
    let amount = Money::from_cents(1500).unwrap();
    let bank = PaymentMethodId::from_str("bank-1").unwrap();
    assert_eq!(
        accept_next_step(&covered, amount, None, false),
        AcceptPreparationStep::FromBalance
    );
    for (balance, source, protect) in [
        (&short, None, false),
        (&negative, None, false),
        (&covered, Some(&bank), false),
        (&covered, None, true),
    ] {
        assert_eq!(
            accept_next_step(balance, amount, source, protect),
            AcceptPreparationStep::ResolveFunding
        );
    }
    assert_eq!(eligibility_note(&accept_plan(false, 45)), Ok("dinner"));
}
