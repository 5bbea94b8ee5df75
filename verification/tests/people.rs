use std::str::FromStr;

use venmo_core::confirmation::{
    confirmation_step, ConfirmationAction, ConfirmationEvent, DefaultNoConfirmationError,
};
use venmo_core::people::friendship::{
    plan_for_target, select_action, FriendshipAction, FriendshipIntent, FriendshipMutationError,
};
use venmo_core::people::recipient::{RecipientInput, RecipientParseError, ResolvedRecipient};
use venmo_core::people::user::{
    FriendshipStatus, User, UserProfileKind, UserSearchQuery, UserSearchQueryParseError,
    MAX_QUERY_BYTES,
};
use venmo_core::shared::{Account, UserId, Username};

fn account() -> Account {
    Account::new(
        UserId::from_str("100").unwrap(),
        Username::from_bare("owner").unwrap(),
        Some("Owner".to_owned()),
    )
}

#[test]
fn native_state_matrix_is_closed_and_action_specific() {
    assert_eq!(
        select_action(FriendshipIntent::Add, FriendshipStatus::NotFriend),
        Ok(FriendshipAction::SendRequest)
    );
    assert_eq!(
        select_action(FriendshipIntent::Add, FriendshipStatus::RequestReceived),
        Ok(FriendshipAction::AcceptRequest)
    );
    assert!(matches!(
        select_action(FriendshipIntent::Add, FriendshipStatus::Friend),
        Err(FriendshipMutationError::AlreadyFriend)
    ));
    assert!(matches!(
        select_action(FriendshipIntent::Add, FriendshipStatus::RequestSent),
        Err(FriendshipMutationError::RequestAlreadySent)
    ));
    assert_eq!(
        select_action(FriendshipIntent::Remove, FriendshipStatus::Friend),
        Ok(FriendshipAction::Unfriend)
    );
    assert_eq!(
        select_action(FriendshipIntent::Remove, FriendshipStatus::RequestSent),
        Ok(FriendshipAction::CancelRequest)
    );
    assert!(matches!(
        select_action(FriendshipIntent::Remove, FriendshipStatus::NotFriend),
        Err(FriendshipMutationError::NothingToRemove)
    ));
    assert!(matches!(
        select_action(FriendshipIntent::Remove, FriendshipStatus::RequestReceived),
        Err(FriendshipMutationError::IncomingRequestRequiresSeparateAction)
    ));
}

#[test]
fn target_validation_fails_closed_before_action_selection() {
    let self_target = User::new(
        UserId::from_str("100").unwrap(),
        Some(Username::from_bare("owner").unwrap()),
        None,
    )
    .with_financial_attributes(UserProfileKind::Personal, true)
    .with_friendship_status(FriendshipStatus::NotFriend);
    assert!(matches!(
        plan_for_target(account(), self_target, FriendshipIntent::Add),
        Err(FriendshipMutationError::SelfTarget)
    ));

    let missing_profile = User::new(
        UserId::from_str("200").unwrap(),
        Some(Username::from_bare("alice").unwrap()),
        None,
    )
    .with_friendship_status(FriendshipStatus::NotFriend);
    assert!(matches!(
        plan_for_target(account(), missing_profile, FriendshipIntent::Add),
        Err(FriendshipMutationError::MissingProfileType)
    ));

    for kind in [
        UserProfileKind::Business,
        UserProfileKind::Charity,
        UserProfileKind::Unknown,
    ] {
        let unsupported = User::new(
            UserId::from_str("200").unwrap(),
            Some(Username::from_bare("alice").unwrap()),
            None,
        )
        .with_financial_attributes(kind, true)
        .with_friendship_status(FriendshipStatus::NotFriend);
        assert!(matches!(
            plan_for_target(account(), unsupported, FriendshipIntent::Add),
            Err(FriendshipMutationError::UnsupportedProfileType)
        ));
    }

    let missing_status = User::new(
        UserId::from_str("200").unwrap(),
        Some(Username::from_bare("alice").unwrap()),
        None,
    )
    .with_financial_attributes(UserProfileKind::Personal, true);
    assert!(matches!(
        plan_for_target(account(), missing_status, FriendshipIntent::Add),
        Err(FriendshipMutationError::MissingFriendshipStatus)
    ));
}

/// Runs the confirmation protocol against a scripted terminal and returns
/// the outcome with the questions that were asked, in order.
fn run_confirmation(
    question: &str,
    assume_yes: bool,
    interactive: bool,
    answer: bool,
) -> (Result<(), DefaultNoConfirmationError>, Vec<String>) {
    let mut calls = Vec::new();
    let mut action = confirmation_step(ConfirmationEvent::Start { assume_yes });
    loop {
        match action {
            ConfirmationAction::Authorized => return (Ok(()), calls),
            ConfirmationAction::Refused(error) => return (Err(error), calls),
            ConfirmationAction::CheckAvailability => {
                calls.push("availability".to_owned());
                action = confirmation_step(ConfirmationEvent::Availability {
                    can_prompt: interactive,
                });
            }
            ConfirmationAction::Ask => {
                calls.push(question.to_owned());
                action = confirmation_step(ConfirmationEvent::Answered { yes: answer });
            }
        }
    }
}

#[test]
fn authorization_is_default_no_action_specific_and_yes_skips_prompt() {
    for (action, question) in [
        (FriendshipAction::SendRequest, "Send this friend request?"),
        (
            FriendshipAction::AcceptRequest,
            "Accept this incoming friend request?",
        ),
        (FriendshipAction::Unfriend, "Remove this established friend?"),
        (
            FriendshipAction::CancelRequest,
            "Cancel this outgoing friend request?",
        ),
    ] {
        assert_eq!(action.confirmation(), question);
        let (skipped, skipped_calls) = run_confirmation(action.confirmation(), true, false, false);
        assert!(skipped.is_ok());
        assert!(skipped_calls.is_empty());

        let (confirmed, confirmed_calls) =
            run_confirmation(action.confirmation(), false, true, true);
        assert!(confirmed.is_ok());
        assert_eq!(
            confirmed_calls,
            vec!["availability".to_owned(), question.to_owned()]
        );
    }

    let (unavailable, unavailable_calls) = run_confirmation(
        FriendshipAction::SendRequest.confirmation(),
        false,
        false,
        true,
    );
    assert_eq!(
        unavailable.map_err(FriendshipMutationError::from_confirmation),
        Err(FriendshipMutationError::ConfirmationRequired)
    );
    assert_eq!(unavailable_calls, vec!["availability".to_owned()]);

    let (declined, declined_calls) = run_confirmation(
        FriendshipAction::Unfriend.confirmation(),
        false,
        true,
        false,
    );
    assert_eq!(
        declined.map_err(FriendshipMutationError::from_confirmation),
        Err(FriendshipMutationError::ConfirmationDeclined)
    );
    assert_eq!(declined_calls.len(), 2);
}

#[test]
fn recipient_parser_normalizes_optional_at_and_rejects_invalid_usernames() {
    let bare = RecipientInput::from_str("alice").unwrap();
    let prefixed = RecipientInput::from_str("@alice").unwrap();
    assert_eq!(bare, prefixed);
    assert_eq!(bare.username().as_str(), "alice");
    assert_eq!(bare.display_string(), "@alice");

    let exact_ascii = "a".repeat(1023);
    let exact_unicode = format!("{}a", "é".repeat(511));
    for value in [exact_ascii.as_str(), exact_unicode.as_str(), "élise"] {
        assert!(RecipientInput::from_str(value).is_ok());
    }
    for value in [
        "a".repeat(1024),
        "é".repeat(512),
        "white space".to_owned(),
        "line\nbreak".to_owned(),
    ] {
        assert!(matches!(
            RecipientInput::from_str(&value),
            Err(RecipientParseError::Username(_))
        ));
    }
}

#[test]
fn resolved_recipient_constructor_preserves_the_authoritative_whole_user() {
    let user = User::new(
        UserId::from_str("123").unwrap(),
        Some(Username::from_bare("alice").unwrap()),
        Some("Alice".to_owned()),
    )
    .with_financial_attributes(UserProfileKind::Personal, true);
    let expected = user.clone();
    let resolved = ResolvedRecipient::new(user);
    assert!(resolved.clone().into_user() == expected);
    assert!(!resolved.redacted_debug().contains("Alice"));
}

#[test]
fn user_constructor_preserves_optional_identity_and_financial_evidence() {
    let minimal = User::new(UserId::from_str("123").unwrap(), None, None);
    assert_eq!(minimal.user_id().as_str(), "123");
    assert!(minimal.username().is_none());
    assert!(minimal.display_name().is_none());
    assert_eq!(minimal.profile_kind(), None);
    assert_eq!(minimal.is_payable(), None);
    assert_eq!(minimal.friendship_status(), None);

    let complete = User::new(
        UserId::from_str("456").unwrap(),
        Some(Username::from_bare("élise").unwrap()),
        Some("Élise Example".to_owned()),
    )
    .with_financial_attributes(UserProfileKind::Personal, true);
    assert_eq!(complete.username().map(Username::as_str), Some("élise"));
    assert_eq!(complete.display_name(), Some("Élise Example"));
    assert_eq!(complete.profile_kind(), Some(UserProfileKind::Personal));
    assert_eq!(complete.is_payable(), Some(true));
    let complete = complete.with_friendship_status(FriendshipStatus::Friend);
    assert_eq!(complete.friendship_status(), Some(FriendshipStatus::Friend));
    let rendered = complete.redacted_debug();
    assert!(!rendered.contains("456"));
    assert!(!rendered.contains("élise"));
    assert!(!rendered.contains("Élise Example"));
}

#[test]
fn user_search_query_limit_counts_bytes_and_handles_unicode_and_controls() {
    let max = MAX_QUERY_BYTES as usize;
    for value in [
        format!("{} y", "x".repeat(max - 2)),
        format!("{} y", "é".repeat((max - 2) / 2)),
    ] {
        assert_eq!(value.len(), max);
        assert_eq!(UserSearchQuery::from_str(&value).unwrap().as_str(), value);
    }
    for value in ["x".repeat(max + 1), "é".repeat(max / 2 + 1)] {
        assert!(
            UserSearchQuery::from_str(&value)
                == Err(UserSearchQueryParseError::TooLong {
                    maximum_bytes: MAX_QUERY_BYTES
                })
        );
    }

    assert!(UserSearchQuery::from_str(" \t ") == Err(UserSearchQueryParseError::Empty));
    assert!(UserSearchQuery::from_str("@") == Err(UserSearchQueryParseError::EmptyUsername));
    for value in ["line\nbreak", "zero\u{0}byte", "tab\tquery"] {
        assert!(
            UserSearchQuery::from_str(value) == Err(UserSearchQueryParseError::ControlCharacter)
        );
    }
    assert_eq!(
        UserSearchQuery::from_str("Élise Smith").unwrap().as_str(),
        "Élise Smith"
    );
    let bare = UserSearchQuery::from_str("élise").unwrap();
    let prefixed = UserSearchQuery::from_str("@élise").unwrap();
    assert!(bare == prefixed);
    assert_eq!(bare.as_str(), "élise");
    assert_eq!(bare.username_query(), Some("élise"));
    assert_eq!(
        UserSearchQuery::from_str("@élise").unwrap().username_query(),
        Some("élise")
    );
}
