use std::str::FromStr;

use venmo_core::shared::{
    Account, ApplicationFailureKind, CredentialEnvelope, Money, TransferInstrumentId, UserId,
    Username,
};
use venmo_core::transfers::in_transfer::{
    check_add_funds_limits, check_amount_range, prepare_transfer_in, TransferInError,
    MAX_ADD_FUNDS_CENTS,
};
use venmo_core::transfers::model::{
    TransferFeeMetadata, TransferInstrument, TransferInstrumentSuffix, TransferModeOptions,
    TransferOptions, TransferSpeed,
};
use venmo_core::transfers::out::{
    check_balance, check_speed, prepare_transfer_out, TransferOutError,
};
use venmo_core::transfers::selection::{select_standard_in, select_standard_out};
use venmo_core::wallet::model::{Balance, SignedUsdAmount};

fn instrument(id: &str, is_default: bool) -> TransferInstrument {
    TransferInstrument::new(
        TransferInstrumentId::from_str(id).unwrap(),
        "Bank".to_owned(),
        "Checking".to_owned(),
        "bank".to_owned(),
        TransferInstrumentSuffix::from_str("1234").unwrap(),
        is_default,
        "Soon".to_owned(),
    )
}

fn mode(sources: Vec<TransferInstrument>, destinations: Vec<TransferInstrument>) -> TransferModeOptions {
    TransferModeOptions::new(sources, destinations, TransferFeeMetadata::default(), "Soon".to_owned())
}

fn options(sources: Vec<TransferInstrument>, destinations: Vec<TransferInstrument>) -> TransferOptions {
    TransferOptions::new(None, None, mode(sources, destinations), mode(Vec::new(), Vec::new()))
}

fn credential() -> CredentialEnvelope {
    CredentialEnvelope {
        access_token: "token".to_owned(),
        device_id: "device".to_owned(),
        user_id: UserId::from_str("1").unwrap(),
        username: Username::from_bare("owner").unwrap(),
        display_name: None,
    }
}

fn account() -> Account {
    Account::new(UserId::from_str("1").unwrap(), Username::from_bare("owner").unwrap(), None)
}

fn balance(available: i64) -> Balance {
    Balance::new(SignedUsdAmount::from_cents(available), SignedUsdAmount::from_cents(0))
}

fn money(cents: u64) -> Money {
    Money::from_cents(cents).unwrap()
}

#[test]
fn selection_outcome_does_not_depend_on_listing_order() {
    let orders = [
        vec![instrument("a", false), instrument("b", true), instrument("c", false)],
        vec![instrument("c", false), instrument("a", false), instrument("b", true)],
        vec![instrument("b", true), instrument("c", false), instrument("a", false)],
    ];
    for listed in orders {
        let destinations: Vec<TransferInstrument> = listed.iter().map(Clone::clone).collect();
        let out = select_standard_out(&options(Vec::new(), destinations));
        assert_eq!(out.ok().unwrap().id().as_str(), "b");
        let chosen = select_standard_in(&options(listed, Vec::new()), None);
        assert_eq!(chosen.ok().unwrap().id().as_str(), "b");
    }
    for listed in [
        vec![instrument("a", false), instrument("b", false)],
        vec![instrument("b", false), instrument("a", false)],
    ] {
        assert!(select_standard_out(&options(Vec::new(), listed)).is_err());
    }
}

#[test]
fn transfers_out_need_the_standard_speed_and_enough_balance() {
    assert_eq!(check_speed(TransferSpeed::Standard), Ok(()));
    assert_eq!(
        check_speed(TransferSpeed::Instant),
        Err(TransferOutError::UnsupportedSpeed)
    );
    assert_eq!(check_balance(&balance(500), money(500)), Ok(()));
    assert_eq!(
        check_balance(&balance(499), money(500)),
        Err(TransferOutError::InsufficientBalance)
    );
    assert_eq!(
        check_balance(&balance(-20), money(1)),
        Err(TransferOutError::InsufficientBalance)
    );
    assert_eq!(
        TransferOutError::InsufficientBalance.failure_kind(),
        ApplicationFailureKind::Usage
    );

    let prepared = prepare_transfer_out(
        credential(),
        account(),
        balance(500),
        money(250),
        TransferSpeed::Standard,
        instrument("dest", true),
    );
    let plan = prepared.plan();
    assert_eq!(plan.amount().cents(), 250);
    assert_eq!(plan.speed(), TransferSpeed::Standard);
    assert_eq!(plan.destination().id().as_str(), "dest");
    assert_eq!(plan.balance().available().cents(), 500);
    assert_eq!(prepared.credential().user_id.as_str(), "1");
}

#[test]
fn transfers_in_respect_the_amount_range_and_the_add_funds_limits() {
    assert_eq!(check_amount_range(money(MAX_ADD_FUNDS_CENTS)), Ok(()));
    assert_eq!(
        check_amount_range(money(MAX_ADD_FUNDS_CENTS + 1)),
        Err(TransferInError::AmountTooLarge)
    );

    let unlimited = options(Vec::new(), Vec::new());
    assert_eq!(
        check_add_funds_limits(&unlimited, money(100)),
        Err(TransferInError::MissingAmountLimit)
    );
    let limited = || options(Vec::new(), Vec::new()).with_add_funds_limits(Some(100), Some(5000));
    assert_eq!(check_add_funds_limits(&limited(), money(100)), Ok(()));
    assert_eq!(check_add_funds_limits(&limited(), money(5000)), Ok(()));
    assert_eq!(
        check_add_funds_limits(&limited(), money(99)),
        Err(TransferInError::AmountBelowMinimum { minimum_cents: 100 })
    );
    assert_eq!(
        check_add_funds_limits(&limited(), money(5001)),
        Err(TransferInError::AmountAboveMaximum { maximum_cents: 5000 })
    );
    let minimum_only = options(Vec::new(), Vec::new()).with_add_funds_limits(Some(1), None);
    assert_eq!(check_add_funds_limits(&minimum_only, money(1_000_000)), Ok(()));
    assert_eq!(minimum_only.add_funds_minimum_cents(), Some(1));
    assert_eq!(minimum_only.add_funds_maximum_cents(), None);

    let prepared = prepare_transfer_in(credential(), account(), money(700), instrument("src", true));
    assert_eq!(prepared.plan().amount().cents(), 700);
    assert_eq!(prepared.plan().source().id().as_str(), "src");
    assert_eq!(
        TransferInError::MissingAmountLimit.failure_kind(),
        ApplicationFailureKind::ApiContract
    );
}
