use std::str::FromStr;

use venmo_core::confirmation::{
    confirmation_step, ConfirmationAction, ConfirmationEvent, DefaultNoConfirmationError,
};
use venmo_core::shared::{
    ApplicationFailureKind, Limit, Money, MoneyError, Note, NoteParseError, Offset,
    OpaqueIdParseError, PromptFailure, RequestId, UserId, Username, UsernameParseError,
    Visibility, VisibilityParseError, MAX_USERNAME_BYTES,
};
use venmo_core::text::decimal_string;

#[test]
fn amounts_are_positive_cents() {
    assert_eq!(Money::from_cents(0), Err(MoneyError::Zero));
    assert_eq!(Money::from_cents(1).map(Money::cents), Ok(1));
    assert_eq!(Money::from_cents(u64::MAX).map(Money::cents), Ok(u64::MAX));
}

#[test]
fn limits_are_positive_and_offsets_start_at_zero() {
    assert!(Limit::new(0).is_none());
    assert_eq!(Limit::new(25).map(Limit::get), Some(25));
    assert_eq!(Offset::default().get(), 0);
    assert_eq!(Offset::new(40).get(), 40);
}

#[test]
fn notes_need_visible_text_and_visibility_has_three_values() {
    assert_eq!(Note::parse(" \t\n").err(), Some(NoteParseError::Empty));
    assert_eq!(Note::parse("").err(), Some(NoteParseError::Empty));
    assert_eq!(Note::parse(" lunch ").unwrap().as_str(), " lunch ");
    assert_eq!(Visibility::parse("private"), Ok(Visibility::Private));
    assert_eq!(Visibility::parse("friends"), Ok(Visibility::Friends));
    assert_eq!(Visibility::parse("public"), Ok(Visibility::Public));
    assert_eq!(
        Visibility::parse("Public"),
        Err(VisibilityParseError::Unsupported)
    );
}

#[test]
fn opaque_ids_reject_empty_whitespace_and_controls() {
    assert_eq!(UserId::from_str("").err(), Some(OpaqueIdParseError::Empty));
    assert_eq!(
        UserId::from_str("a b").err(),
        Some(OpaqueIdParseError::InvalidCharacter)
    );
    assert_eq!(
        RequestId::from_str("a\u{7}b").err(),
        Some(OpaqueIdParseError::InvalidCharacter)
    );
    let id = RequestId::from_str("request-42").unwrap();
    assert_eq!(id.as_str(), "request-42");
    assert!(id.same_as(&RequestId::from_str("request-42").unwrap()));
    assert!(!id.same_as(&RequestId::from_str("request-43").unwrap()));
}

#[test]
fn usernames_follow_the_byte_whitespace_and_control_rules() {
    let max = MAX_USERNAME_BYTES as usize;
    assert_eq!(Username::from_bare("").err(), Some(UsernameParseError::Empty));
    assert_eq!(
        Username::from_bare(&"a".repeat(max + 1)).err(),
        Some(UsernameParseError::TooLong { maximum_bytes: MAX_USERNAME_BYTES })
    );
    assert_eq!(
        Username::from_bare("a\u{0}b").err(),
        Some(UsernameParseError::ControlCharacter)
    );
    assert_eq!(
        Username::from_bare("a\u{3000}b").err(),
        Some(UsernameParseError::Whitespace)
    );
    assert_eq!(Username::from_optional_prefix("@").err(), Some(UsernameParseError::Empty));
    let name = Username::from_bare("alice").unwrap();
    assert_eq!(name.display_string(), "@alice");
    let read_back = Username::from_optional_prefix(&name.display_string()).unwrap();
    assert!(read_back.same_as(&name));
    assert_eq!(
        Username::from_optional_prefix("@@alice").unwrap().as_str(),
        "@alice"
    );
}

#[test]
fn decimal_rendering_is_exact() {
    assert_eq!(decimal_string(0), "0");
    assert_eq!(decimal_string(7), "7");
    assert_eq!(decimal_string(10), "10");
    assert_eq!(decimal_string(1_234_567), "1234567");
    assert_eq!(decimal_string(u64::MAX), u64::MAX.to_string());
}

#[test]
fn a_failed_prompt_refuses_with_its_failure() {
    let failure = PromptFailure { kind: ApplicationFailureKind::Internal };
    assert_eq!(
        confirmation_step(ConfirmationEvent::PromptFailed { failure }),
        ConfirmationAction::Refused(DefaultNoConfirmationError::Prompt(failure))
    );
    assert_eq!(
        confirmation_step(ConfirmationEvent::Start { assume_yes: false }),
        ConfirmationAction::CheckAvailability
    );
    assert_eq!(
        confirmation_step(ConfirmationEvent::Availability { can_prompt: true }),
        ConfirmationAction::Ask
    );
}
