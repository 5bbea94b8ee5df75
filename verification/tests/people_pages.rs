use std::str::FromStr;

use venmo_core::people::friends::{
    finish_friends_page, is_own_subject, subject_from_user, FriendsError,
    CONFLICTING_USER_RECORDS as FRIEND_CONFLICT, EMPTY_PAGE_WITH_CONTINUATION as FRIEND_EMPTY,
    MORE_FRIENDS_THAN_REQUESTED, NON_PROGRESSING_OFFSET as FRIEND_NON_PROGRESSING,
    SUBJECT_WITHOUT_USERNAME,
};
use venmo_core::people::friendship::{select_action, FriendshipIntent};
use venmo_core::people::lookup::{
    exact_search_query, select_lowercase_match, select_search_match, username_matches, verify_user_detail,
    UserLookupError, UserLookupFailureKind, DIFFERENT_DETAIL_USERNAME, DIFFERENT_DETAIL_USER_ID,
};
use venmo_core::people::ports::{FriendsPage, UserSearchPage};
use venmo_core::people::user::{FriendshipStatus, User, UserProfileKind};
use venmo_core::people::users::{
    buffer_public_page, finish_public_page, ExhaustiveProgress, ExhaustiveUserSearch,
    UserSearchError, UserSearchFailureKind, CONFLICTING_USER_RECORDS,
    CONTINUATION_WITHOUT_NEW_USERS, EMPTY_PAGE_WITH_CONTINUATION, MORE_USERS_THAN_REQUESTED,
    NON_PROGRESSING_OFFSET,
};
use venmo_core::shared::{
    ApiFailureKind, ApiOperationFailure, ApplicationFailureKind, CredentialEnvelope, Limit,
    Offset, UserId, Username,
};

fn user(id: &str, name: &str) -> User {
    User::new(
        UserId::from_str(id).unwrap(),
        Some(Username::from_bare(name).unwrap()),
        Some(format!("Display {name}")),
    )
}

fn limit(value: u32) -> Limit {
    Limit::new(value).unwrap()
}

fn ids(users: &[User]) -> Vec<String> {
    users.iter().map(|u| u.user_id().as_str().to_owned()).collect()
}

#[test]
fn public_page_keeps_first_seen_records_and_rejects_contract_violations() {
    let page = UserSearchPage::new(
        vec![user("1", "a"), user("2", "b"), user("1", "a")],
        Some(Offset::new(3)),
    );
    let result = finish_public_page(limit(3), Offset::new(0), page).unwrap();
    assert_eq!(ids(result.users()), vec!["1", "2"]);
    assert_eq!(result.next_offset(), Some(Offset::new(3)));

    let too_many = UserSearchPage::new(vec![user("1", "a"), user("2", "b")], None);
    assert_eq!(
        finish_public_page(limit(1), Offset::new(0), too_many).err(),
        Some(UserSearchError::ResponseContract { problem: MORE_USERS_THAN_REQUESTED })
    );
    let repeated = UserSearchPage::new(vec![user("1", "a")], Some(Offset::new(5)));
    assert_eq!(
        finish_public_page(limit(5), Offset::new(5), repeated).err(),
        Some(UserSearchError::ResponseContract { problem: NON_PROGRESSING_OFFSET })
    );
    let empty = UserSearchPage::new(Vec::new(), Some(Offset::new(5)));
    assert_eq!(
        finish_public_page(limit(5), Offset::new(0), empty).err(),
        Some(UserSearchError::ResponseContract { problem: EMPTY_PAGE_WITH_CONTINUATION })
    );
    let conflicting = UserSearchPage::new(vec![user("1", "a"), user("1", "other")], None);
    assert_eq!(
        finish_public_page(limit(5), Offset::new(0), conflicting).err(),
        Some(UserSearchError::ResponseContract { problem: CONFLICTING_USER_RECORDS })
    );
    assert_eq!(
        buffer_public_page(vec![user("7", "x"), user("7", "x")])
            .map(|users| ids(&users)),
        Ok(vec!["7".to_owned()])
    );
}

fn numbered_users(start: u32, count: u32) -> Vec<User> {
    (start..start + count)
        .map(|n| user(&n.to_string(), &format!("user{n}")))
        .collect()
}

#[test]
fn exhaustive_search_stops_after_two_hundred_users() {
    let (mut search, mut request) = ExhaustiveUserSearch::start();
    let mut collected = 0_u32;
    loop {
        assert_eq!(request.offset().get(), u64::from(collected));
        let size = request.page_size().get();
        assert_eq!(size, 50);
        let page = UserSearchPage::new(
            numbered_users(collected, size),
            Some(Offset::new(u64::from(collected + size))),
        );
        collected += size;
        match search.receive(page).unwrap() {
            ExhaustiveProgress::Continue(next, next_request) => {
                search = next;
                request = next_request;
            }
            ExhaustiveProgress::Finished(result) => {
                assert_eq!(result.users().len(), 200);
                assert_eq!(collected, 200);
                break;
            }
        }
    }
}

#[test]
fn exhaustive_search_requests_at_most_four_pages() {
    let (mut search, _) = ExhaustiveUserSearch::start();
    let mut pages = 0_u32;
    let finished = loop {
        pages += 1;
        let page = UserSearchPage::new(
            numbered_users(pages * 10, 10),
            Some(Offset::new(u64::from(pages * 10))),
        );
        match search.receive(page).unwrap() {
            ExhaustiveProgress::Continue(next, _) => search = next,
            ExhaustiveProgress::Finished(result) => break result,
        }
    };
    assert_eq!(pages, 4);
    assert_eq!(finished.users().len(), 40);
}

#[test]
fn exhaustive_search_rejects_a_continuation_without_new_users() {
    let (search, _) = ExhaustiveUserSearch::start();
    let first = UserSearchPage::new(vec![user("1", "a")], Some(Offset::new(1)));
    let search = match search.receive(first).unwrap() {
        ExhaustiveProgress::Continue(next, request) => {
            assert_eq!(request.offset().get(), 1);
            assert_eq!(request.page_size().get(), 50);
            next
        }
        ExhaustiveProgress::Finished(_) => panic!("the search ended early"),
    };
    let repeat = UserSearchPage::new(vec![user("1", "a")], Some(Offset::new(2)));
    assert!(matches!(
        search.receive(repeat),
        Err(UserSearchError::ResponseContract { problem: CONTINUATION_WITHOUT_NEW_USERS })
    ));
}

#[test]
fn exhaustive_search_finishes_on_an_empty_last_page() {
    let (search, _) = ExhaustiveUserSearch::start();
    match search.receive(UserSearchPage::new(Vec::new(), None)).unwrap() {
        ExhaustiveProgress::Finished(result) => assert!(result.users().is_empty()),
        ExhaustiveProgress::Continue(..) => panic!("an empty last page must finish"),
    }
}

#[test]
fn username_matching_folds_unicode_case() {
    let upper = Username::from_bare("ÉLISE").unwrap();
    let lower = Username::from_bare("élise").unwrap();
    assert!(username_matches(&upper, &lower));
    assert!(username_matches(
        &Username::from_bare("Alice").unwrap(),
        &Username::from_bare("alice").unwrap()
    ));
    assert!(!username_matches(
        &Username::from_bare("alice").unwrap(),
        &Username::from_bare("alicia").unwrap()
    ));
}

#[test]
fn search_match_distinguishes_missing_single_and_ambiguous() {
    let wanted = Username::from_bare("Alice").unwrap();
    assert_eq!(
        exact_search_query(&wanted).unwrap().username_query(),
        Some("Alice")
    );
    let users = vec![user("1", "bob"), user("2", "alice")];
    assert_eq!(
        select_search_match(&users, &wanted).map(|id| id.as_str().to_owned()),
        Ok("2".to_owned())
    );
    assert_eq!(
        select_search_match(&[user("1", "bob")], &wanted).err(),
        Some(UserLookupError::UsernameNotFound)
    );
    assert_eq!(
        select_search_match(&[user("1", "alice"), user("2", "ALICE")], &wanted).err(),
        Some(UserLookupError::AmbiguousUsername)
    );
}

#[test]
fn lowercase_match_picks_the_single_equal_name() {
    let names = |list: &[Option<&str>]| -> Vec<Option<String>> {
        list.iter().map(|n| n.map(|s| s.to_owned())).collect()
    };
    let wanted = "élise".to_owned();
    assert_eq!(
        select_lowercase_match(&names(&[Some("bob"), None, Some("élise")]), &wanted),
        Ok(2)
    );
    assert_eq!(
        select_lowercase_match(&names(&[Some("Élise"), None]), &wanted),
        Err(UserLookupError::UsernameNotFound)
    );
    assert_eq!(
        select_lowercase_match(&names(&[]), &wanted),
        Err(UserLookupError::UsernameNotFound)
    );
    assert_eq!(
        select_lowercase_match(&names(&[Some("élise"), Some("bob"), Some("élise")]), &wanted),
        Err(UserLookupError::AmbiguousUsername)
    );
}

#[test]
fn user_detail_must_match_the_search_result() {
    let wanted = Username::from_bare("alice").unwrap();
    let expected = UserId::from_str("2").unwrap();
    assert!(verify_user_detail(user("2", "Alice"), &expected, &wanted).is_ok());
    assert_eq!(
        verify_user_detail(user("3", "alice"), &expected, &wanted).err(),
        Some(UserLookupError::LookupContract { problem: DIFFERENT_DETAIL_USER_ID })
    );
    assert_eq!(
        verify_user_detail(user("2", "bob"), &expected, &wanted).err(),
        Some(UserLookupError::LookupContract { problem: DIFFERENT_DETAIL_USERNAME })
    );
}

#[test]
fn lookup_failure_kinds_follow_the_search_failure() {
    let api = UserLookupError::Api { source: ApiOperationFailure::new(ApiFailureKind::Timeout) };
    assert_eq!(api.failure_kind(), UserLookupFailureKind::Api(ApiFailureKind::Timeout));
    assert_eq!(
        api.application_failure_kind(),
        ApplicationFailureKind::Api(ApiFailureKind::Timeout)
    );
    assert_eq!(
        UserLookupError::UsernameNotFound.application_failure_kind(),
        ApplicationFailureKind::Usage
    );
    let search = UserLookupError::from_search_error(UserSearchError::ResponseContract {
        problem: MORE_USERS_THAN_REQUESTED,
    });
    assert_eq!(search.failure_kind(), UserLookupFailureKind::ApiContract);
    assert_eq!(
        UserSearchError::Internal { problem: "x" }.failure_kind(),
        UserSearchFailureKind::Internal
    );
}

#[test]
fn friend_pages_follow_the_page_contract() {
    let page = FriendsPage::new(vec![user("1", "a"), user("1", "a")], None);
    let result = finish_friends_page(limit(2), Offset::new(0), None, page).unwrap();
    assert_eq!(ids(result.users()), vec!["1"]);
    assert!(result.subject().is_none());

    let cases = [
        (
            FriendsPage::new(vec![user("1", "a"), user("2", "b")], None),
            1,
            0,
            MORE_FRIENDS_THAN_REQUESTED,
        ),
        (
            FriendsPage::new(vec![user("1", "a")], Some(Offset::new(3))),
            5,
            3,
            FRIEND_NON_PROGRESSING,
        ),
        (
            FriendsPage::new(Vec::new(), Some(Offset::new(3))),
            5,
            0,
            FRIEND_EMPTY,
        ),
        (
            FriendsPage::new(vec![user("1", "a"), user("1", "b")], None),
            5,
            0,
            FRIEND_CONFLICT,
        ),
    ];
    for (page, size, offset, problem) in cases {
        assert_eq!(
            finish_friends_page(limit(size), Offset::new(offset), None, page).err(),
            Some(FriendsError::ResponseContract { problem })
        );
    }
}

#[test]
fn friend_list_subjects_must_be_complete_personal_profiles() {
    let personal = user("9", "carol").with_financial_attributes(UserProfileKind::Personal, true);
    let subject = subject_from_user(&personal).unwrap();
    assert_eq!(subject.user_id().as_str(), "9");
    assert_eq!(subject.username().as_str(), "carol");
    assert_eq!(
        subject_from_user(&user("9", "carol")).err(),
        Some(FriendsError::MissingProfileType)
    );
    assert_eq!(
        subject_from_user(
            &user("9", "carol").with_financial_attributes(UserProfileKind::Business, true)
        )
        .err(),
        Some(FriendsError::UnsupportedProfileType)
    );
    let nameless = User::new(UserId::from_str("9").unwrap(), None, None)
        .with_financial_attributes(UserProfileKind::Personal, true);
    assert_eq!(
        subject_from_user(&nameless).err(),
        Some(FriendsError::ResponseContract { problem: SUBJECT_WITHOUT_USERNAME })
    );

    let credential = CredentialEnvelope {
        access_token: "token".to_owned(),
        device_id: "device".to_owned(),
        user_id: UserId::from_str("1").unwrap(),
        username: Username::from_bare("Owner").unwrap(),
        display_name: None,
    };
    assert!(is_own_subject(&credential, &Username::from_bare("owner").unwrap()));
    assert!(!is_own_subject(&credential, &Username::from_bare("other").unwrap()));
}

#[test]
fn every_selected_friendship_action_changes_the_relationship() {
    for intent in [FriendshipIntent::Add, FriendshipIntent::Remove] {
        for status in [
            FriendshipStatus::Friend,
            FriendshipStatus::NotFriend,
            FriendshipStatus::RequestReceived,
            FriendshipStatus::RequestSent,
        ] {
            if let Ok(action) = select_action(intent, status) {
                assert_ne!(action.expected_status(), status);
            }
        }
    }
}
