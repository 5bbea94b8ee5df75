use std::str::FromStr;

use venmo_core::shared::{
    Account, ApplicationFailureKind, Money, Timestamp, TransferId, TransferInstrumentId, UserId, Username,
};
use venmo_core::transfers::model::{
    CreatedTransfer, TransferFeeMetadata, TransferInstrument, TransferInstrumentSuffix,
    TransferInstrumentSuffixParseError, TransferModeOptions, TransferOptions, TransferOutPlan,
    TransferSpeed,
};
use venmo_core::transfers::selection::{
    select_standard_in, select_standard_out, TransferInSelectionError, TransferSelectionError,
};
use venmo_core::wallet::model::{Balance, SignedUsdAmount};

#[test]
fn transfer_instrument_suffix_is_exactly_four_visible_characters_and_redacted() {
    for valid in ["1234", "ABCD", "••••", "🂡🂢🂣🂤"] {
        let parsed = TransferInstrumentSuffix::from_str(valid);
        assert!(parsed.as_ref().is_ok_and(|suffix| suffix.as_str() == valid));
        assert!(!parsed.unwrap().redacted_debug().contains(valid));
    }
    for invalid in [
        "",
        "123",
        "12345",
        "1234567890123456",
        "12 4",
        "12\n4",
        "12\u{200b}4",
        "12\u{202e}4",
    ] {
        assert!(TransferInstrumentSuffix::from_str(invalid) == Err(TransferInstrumentSuffixParseError));
    }
}

#[test]
fn transfer_models_redact_instrument_plan_and_created_record_details() {
    let instrument = TransferInstrument::new(
        TransferInstrumentId::from_str("sensitive-bank-id").unwrap(),
        "Sensitive bank name".to_owned(),
        "Sensitive asset".to_owned(),
        "bank".to_owned(),
        TransferInstrumentSuffix::from_str("1234").unwrap(),
        true,
        "Sensitive estimate".to_owned(),
    );
    let account = Account::new(
        UserId::from_str("123").unwrap(),
        Username::from_bare("alice").unwrap(),
        Some("Alice".to_owned()),
    );
    let plan = TransferOutPlan::new(
        account,
        Balance::new(SignedUsdAmount::from_cents(500), SignedUsdAmount::from_cents(0)),
        Money::from_cents(100).unwrap(),
        TransferSpeed::Standard,
        instrument.clone(),
    );
    let created = CreatedTransfer::new(
        TransferId::from_str("sensitive-transfer-id").unwrap(),
        "issued".to_owned(),
        Timestamp::from_unix_nanos(0),
        Money::from_cents(100).unwrap(),
        0,
    );

    let rendered = format!(
        "{} {} {}",
        instrument.redacted_debug(),
        plan.redacted_debug(),
        created.redacted_debug()
    );
    for secret in [
        "sensitive-bank-id",
        "Sensitive bank name",
        "Sensitive asset",
        "1234",
        "Sensitive estimate",
        "sensitive-transfer-id",
    ] {
        assert!(!rendered.contains(secret));
    }
    assert!(rendered.contains("bank"));
    assert!(rendered.contains("issued"));

    let options = TransferOptions::new(
        None,
        Some(TransferSpeed::Standard),
        TransferModeOptions::new(
            Vec::new(),
            vec![instrument],
            TransferFeeMetadata::new(Some("sensitive-fee".to_owned()), None, None, false),
            "sensitive-mode-estimate".to_owned(),
        ),
        TransferModeOptions::new(
            Vec::new(),
            Vec::new(),
            TransferFeeMetadata::default(),
            "sensitive-instant-estimate".to_owned(),
        ),
    );
    let options_debug = options.redacted_debug();
    for secret in [
        "sensitive-fee",
        "sensitive-mode-estimate",
        "sensitive-instant-estimate",
    ] {
        assert!(!options_debug.contains(secret));
    }
}

#[test]
fn transfer_debug_renderings_are_exact() {
    let created = CreatedTransfer::new(
        TransferId::from_str("sensitive-transfer-id").unwrap(),
        "issued".to_owned(),
        Timestamp::from_unix_nanos(0),
        Money::from_cents(1250).unwrap(),
        75,
    );
    assert_eq!(
        created.redacted_debug(),
        "CreatedTransfer { id: \"[REDACTED]\", status: \"issued\", requested_at: \"[REDACTED]\", net_amount: Money { cents: 1250 }, fee_cents: 75 }"
    );
    let fee = TransferFeeMetadata::new(Some("1".to_owned()), None, Some("2".to_owned()), false);
    assert_eq!(
        fee.redacted_debug(),
        "TransferFeeMetadata { minimum_amount: true, maximum_amount: false, variable_percentage: true, has_additional_non_null_fields: false }"
    );
    let mode = TransferModeOptions::new(
        Vec::new(),
        vec![
            instrument("one", false, "bank"),
            instrument("two", true, "bank"),
        ],
        TransferFeeMetadata::default(),
        "Soon".to_owned(),
    );
    assert_eq!(
        mode.redacted_debug(),
        "TransferModeOptions { eligible_source_count: 0, eligible_destination_count: 2, fee: TransferFeeMetadata { minimum_amount: false, maximum_amount: false, variable_percentage: false, has_additional_non_null_fields: false }, transfer_to_estimate: \"[REDACTED]\" }"
    );
    assert_eq!(
        instrument("one", true, "bank").redacted_debug(),
        "TransferInstrument { id: \"[REDACTED]\", name: \"[REDACTED]\", asset_name: \"[REDACTED]\", instrument_type: \"bank\", last_four: \"[REDACTED]\", is_default: true, transfer_to_estimate: \"[REDACTED]\" }"
    );
}

fn instrument(id: &str, is_default: bool, kind: &str) -> TransferInstrument {
    TransferInstrument::new(
        TransferInstrumentId::from_str(id).unwrap(),
        "Bank".to_owned(),
        "Checking".to_owned(),
        kind.to_owned(),
        TransferInstrumentSuffix::from_str("1234").unwrap(),
        is_default,
        "Soon".to_owned(),
    )
}

fn options(destinations: Vec<TransferInstrument>, fee: TransferFeeMetadata) -> TransferOptions {
    let standard = TransferModeOptions::new(Vec::new(), destinations, fee, "Soon".to_owned());
    let instant = TransferModeOptions::new(
        Vec::new(),
        Vec::new(),
        TransferFeeMetadata::default(),
        "Soon".to_owned(),
    );
    TransferOptions::new(None, Some(TransferSpeed::Standard), standard, instant)
}

fn inbound_options(sources: Vec<TransferInstrument>, fee: TransferFeeMetadata) -> TransferOptions {
    let standard = TransferModeOptions::new(sources, Vec::new(), fee, "Soon".to_owned());
    let instant = TransferModeOptions::new(
        Vec::new(),
        Vec::new(),
        TransferFeeMetadata::default(),
        "Soon".to_owned(),
    );
    TransferOptions::new(None, Some(TransferSpeed::Standard), standard, instant)
}

#[test]
fn selection_chooses_unique_default_or_sole_candidate_without_using_order() {
    for (destinations, expected_id) in [
        (
            vec![
                instrument("backup", false, "bank"),
                instrument("default", true, "bank"),
            ],
            "default",
        ),
        (vec![instrument("sole", false, "bank")], "sole"),
    ] {
        let options = options(destinations, TransferFeeMetadata::default());
        assert_eq!(
            select_standard_out(&options).ok().unwrap().id().as_str(),
            expected_id
        );
    }
}

#[test]
fn selection_fails_closed_for_every_unsupported_or_ambiguous_branch() {
    let cases = [
        (
            options(Vec::new(), TransferFeeMetadata::default()),
            TransferSelectionError::NoEligibleDestinations,
        ),
        (
            options(
                vec![instrument("card", true, "card")],
                TransferFeeMetadata::default(),
            ),
            TransferSelectionError::UnsupportedInstrumentType,
        ),
        (
            options(
                vec![instrument("bank", true, "bank")],
                TransferFeeMetadata::new(Some("25".to_owned()), None, None, false),
            ),
            TransferSelectionError::UnsupportedFeeMetadata,
        ),
        (
            options(
                vec![
                    instrument("same", false, "bank"),
                    instrument("same", true, "bank"),
                ],
                TransferFeeMetadata::default(),
            ),
            TransferSelectionError::DuplicateDestinationIds,
        ),
        (
            options(
                vec![
                    instrument("one", true, "bank"),
                    instrument("two", true, "bank"),
                ],
                TransferFeeMetadata::default(),
            ),
            TransferSelectionError::MultipleDefaults,
        ),
        (
            options(
                vec![
                    instrument("one", false, "bank"),
                    instrument("two", false, "bank"),
                ],
                TransferFeeMetadata::default(),
            ),
            TransferSelectionError::AmbiguousAutomaticSelection,
        ),
    ];

    for (options, expected) in cases {
        assert!(select_standard_out(&options) == Err(expected));
    }
}

#[test]
fn inbound_selection_uses_explicit_id_or_exactly_one_marked_default() {
    let sources = vec![
        instrument("backup", false, "bank"),
        instrument("default", true, "bank"),
    ];
    let options = inbound_options(sources, TransferFeeMetadata::default());

    assert_eq!(
        select_standard_in(&options, None).ok().unwrap().id().as_str(),
        "default"
    );
    let requested = TransferInstrumentId::from_str("backup").unwrap();
    assert_eq!(
        select_standard_in(&options, Some(&requested))
            .ok()
            .unwrap()
            .id()
            .as_str(),
        "backup"
    );
}

#[test]
fn inbound_selection_fails_closed_for_unavailable_unsupported_and_ambiguous_sources() {
    let missing = TransferInstrumentId::from_str("missing").unwrap();
    let cases = [
        (
            inbound_options(Vec::new(), TransferFeeMetadata::default()),
            None,
            TransferInSelectionError::NoEligibleSources,
        ),
        (
            inbound_options(
                vec![instrument("card", true, "card")],
                TransferFeeMetadata::default(),
            ),
            None,
            TransferInSelectionError::UnsupportedInstrumentType,
        ),
        (
            inbound_options(
                vec![instrument("bank", true, "bank")],
                TransferFeeMetadata::new(Some("25".to_owned()), None, None, false),
            ),
            None,
            TransferInSelectionError::UnsupportedFeeMetadata,
        ),
        (
            inbound_options(
                vec![
                    instrument("same", false, "bank"),
                    instrument("same", true, "bank"),
                ],
                TransferFeeMetadata::default(),
            ),
            None,
            TransferInSelectionError::DuplicateSourceIds,
        ),
        (
            inbound_options(
                vec![
                    instrument("one", true, "bank"),
                    instrument("two", true, "bank"),
                ],
                TransferFeeMetadata::default(),
            ),
            None,
            TransferInSelectionError::MultipleDefaults,
        ),
        (
            inbound_options(
                vec![instrument("sole", false, "bank")],
                TransferFeeMetadata::default(),
            ),
            None,
            TransferInSelectionError::NoDefaultSource,
        ),
        (
            inbound_options(
                vec![instrument("default", true, "bank")],
                TransferFeeMetadata::default(),
            ),
            Some(&missing),
            TransferInSelectionError::SourceNotEligible,
        ),
    ];

    for (options, requested, expected) in cases {
        assert!(select_standard_in(&options, requested) == Err(expected));
    }
}

#[test]
fn selection_failure_kinds_split_usage_and_contract() {
    assert_eq!(
        TransferSelectionError::DuplicateDestinationIds.failure_kind(),
        ApplicationFailureKind::ApiContract
    );
    assert_eq!(
        TransferSelectionError::AmbiguousAutomaticSelection.failure_kind(),
        ApplicationFailureKind::Usage
    );
    assert_eq!(
        TransferInSelectionError::MultipleDefaults.failure_kind(),
        ApplicationFailureKind::ApiContract
    );
    assert_eq!(
        TransferInSelectionError::NoDefaultSource.failure_kind(),
        ApplicationFailureKind::Usage
    );
}
