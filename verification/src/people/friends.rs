//! Friend lists: the signed-in account's, or another personal profile's.
use vstd::prelude::*;

use crate::first_seen::{merge, merge_first_seen, views};
use crate::people::lookup::UserLookupError;
use crate::people::ports::FriendsPage;
use crate::people::user::{User, UserProfileKind, UserView};
use crate::people::users::offset_regresses;
use crate::shared::{
    ApiOperationFailure, ApplicationFailureKind, CredentialAccessError, CredentialEnvelope, Limit,
    Offset, UserId, Username,
};
use crate::text::{
    ascii_lower, eq_ignore_ascii_case, lemma_ascii_fold_identifies_case_only, same_up_to_ascii_case,
};

verus! {

pub const MORE_FRIENDS_THAN_REQUESTED: &'static str = "the API returned more friends than requested";

pub const NON_PROGRESSING_OFFSET: &'static str =
    "the API returned a repeated or non-progressing continuation offset";

pub const EMPTY_PAGE_WITH_CONTINUATION: &'static str =
    "the API returned an empty page with a continuation offset";

pub const CONFLICTING_USER_RECORDS: &'static str = "the API returned conflicting records for one user ID";

pub const SUBJECT_WITHOUT_USERNAME: &'static str =
    "the authoritative friend-list subject omitted its username";

/// The user whose friend list is shown, when it is not the signed-in account.
#[derive(Debug, PartialEq, Eq)]
pub struct FriendsSubject {
    user_id: UserId,
    username: Username,
}

impl FriendsSubject {
    pub closed spec fn spec_user_id(&self) -> Seq<char> {
        self.user_id@
    }

    pub closed spec fn spec_username(&self) -> Seq<char> {
        self.username@
    }

    pub fn new(user_id: UserId, username: Username) -> (r: FriendsSubject)
        ensures
            r.spec_user_id() == user_id@,
            r.spec_username() == username@,
    {
        FriendsSubject { user_id, username }
    }

    pub fn user_id(&self) -> (r: &UserId)
        ensures
            r@ == self.spec_user_id(),
    {
        &self.user_id
    }

    pub fn username(&self) -> (r: &Username)
        ensures
            r@ == self.spec_username(),
    {
        &self.username
    }
}

impl Clone for FriendsSubject {
    fn clone(&self) -> (r: Self)
        ensures
            r.spec_user_id() == self.spec_user_id(),
            r.spec_username() == self.spec_username(),
    {
        FriendsSubject { user_id: self.user_id.clone(), username: self.username.clone() }
    }
}

/// One page of a friend list.
#[derive(PartialEq, Eq)]
pub struct FriendsResult {
    subject: Option<FriendsSubject>,
    users: Vec<User>,
    next_offset: Option<Offset>,
}

impl FriendsResult {
    pub closed spec fn spec_subject(&self) -> Option<(Seq<char>, Seq<char>)> {
        match self.subject {
            Some(s) => Some((s.spec_user_id(), s.spec_username())),
            None => None,
        }
    }

    pub closed spec fn spec_users(&self) -> Seq<UserView> {
        views(self.users@)
    }

    pub closed spec fn spec_next_offset(&self) -> Option<Offset> {
        self.next_offset
    }

    /// A page of the signed-in account's own friend list.
    pub fn new(users: Vec<User>, next_offset: Option<Offset>) -> (r: FriendsResult)
        ensures
            r.spec_subject() is None,
            r.spec_users() == views(users@),
            r.spec_next_offset() == next_offset,
    {
        FriendsResult { subject: None, users, next_offset }
    }

    /// A page of another user's friend list.
    pub fn for_subject(subject: FriendsSubject, users: Vec<User>, next_offset: Option<Offset>) -> (r:
        FriendsResult)
        ensures
            r.spec_subject() == Some((subject.spec_user_id(), subject.spec_username())),
            r.spec_users() == views(users@),
            r.spec_next_offset() == next_offset,
    {
        FriendsResult { subject: Some(subject), users, next_offset }
    }

    pub fn subject(&self) -> (r: Option<&FriendsSubject>)
        ensures
            match r {
                Some(s) => self.spec_subject() == Some((s.spec_user_id(), s.spec_username())),
                None => self.spec_subject() is None,
            },
    {
        match &self.subject {
            Some(s) => Some(s),
            None => None,
        }
    }

    pub fn users(&self) -> (r: &[User])
        ensures
            views(r@) == self.spec_users(),
    {
        self.users.as_slice()
    }

    pub fn next_offset(&self) -> (r: Option<Offset>)
        ensures
            r == self.spec_next_offset(),
    {
        self.next_offset
    }
}

#[derive(Clone, Debug, PartialEq, Eq)]
pub enum FriendsError {
    Credential(CredentialAccessError),
    UserLookup { source: UserLookupError },
    MissingProfileType,
    UnsupportedProfileType,
    Api { source: ApiOperationFailure },
    ResponseContract { problem: &'static str },
}

impl FriendsError {
    pub open spec fn spec_failure_kind(&self) -> ApplicationFailureKind {
        match self {
            FriendsError::Credential(_) => ApplicationFailureKind::Credential,
            FriendsError::UserLookup { source } => source.spec_application_failure_kind(),
            FriendsError::MissingProfileType => ApplicationFailureKind::Usage,
            FriendsError::UnsupportedProfileType => ApplicationFailureKind::Usage,
            FriendsError::Api { source } => ApplicationFailureKind::Api(source.kind),
            FriendsError::ResponseContract { .. } => ApplicationFailureKind::ApiContract,
        }
    }

    #[verifier::when_used_as_spec(spec_failure_kind)]
    pub fn failure_kind(&self) -> (r: ApplicationFailureKind)
        ensures
            r == self.spec_failure_kind(),
    {
        match self {
            FriendsError::Credential(_) => ApplicationFailureKind::Credential,
            FriendsError::UserLookup { source } => source.application_failure_kind(),
            FriendsError::MissingProfileType => ApplicationFailureKind::Usage,
            FriendsError::UnsupportedProfileType => ApplicationFailureKind::Usage,
            FriendsError::Api { source } => ApplicationFailureKind::Api(source.kind()),
            FriendsError::ResponseContract { .. } => ApplicationFailureKind::ApiContract,
        }
    }
}

/// What one page of a friend list amounts to: the buffered users, or the
/// contract problem that rejects the page.
pub open spec fn friends_page_outcome(
    limit: Limit,
    offset: Offset,
    users: Seq<UserView>,
    next: Option<Offset>,
) -> Result<Seq<UserView>, &'static str> {
    if users.len() > limit.spec_get() {
        Err(MORE_FRIENDS_THAN_REQUESTED)
    } else if offset_regresses(offset, next) {
        Err(NON_PROGRESSING_OFFSET)
    } else if users.len() == 0 && next is Some {
        Err(EMPTY_PAGE_WITH_CONTINUATION)
    } else {
        match merge::<User>(Seq::empty(), users) {
            Some(u) => Ok(u),
            None => Err(CONFLICTING_USER_RECORDS),
        }
    }
}

pub fn validate_next_offset(current: Offset, next: Option<Offset>) -> (r: Result<(), FriendsError>)
    ensures
        r is Err <==> offset_regresses(current, next),
        r is Err ==> r == Err::<(), FriendsError>(
            FriendsError::ResponseContract { problem: NON_PROGRESSING_OFFSET },
        ),
{
    match next {
        Some(n) => {
            if n.get() <= current.get() {
                return Err(FriendsError::ResponseContract { problem: NON_PROGRESSING_OFFSET });
            }
        },
        None => {},
    }
    Ok(())
}

pub fn validate_page_len(actual: usize, requested: Limit) -> (r: Result<(), FriendsError>)
    ensures
        r is Err <==> actual > requested.spec_get(),
        r is Err ==> r == Err::<(), FriendsError>(
            FriendsError::ResponseContract { problem: MORE_FRIENDS_THAN_REQUESTED },
        ),
{
    if actual as u64 > requested.get() as u64 {
        return Err(FriendsError::ResponseContract { problem: MORE_FRIENDS_THAN_REQUESTED });
    }
    Ok(())
}

/// Buffers one page of friends under the first-seen rule.
pub fn buffer_users(page_users: Vec<User>) -> (r: Result<Vec<User>, FriendsError>)
    ensures
        match merge::<User>(Seq::empty(), views(page_users@)) {
            Some(u) => r is Ok && views(r->Ok_0@) == u,
            None => r == Err::<Vec<User>, FriendsError>(
                FriendsError::ResponseContract { problem: CONFLICTING_USER_RECORDS },
            ),
        },
{
    let mut users: Vec<User> = Vec::new();
    proof {
        assert(views(users@) =~= Seq::<UserView>::empty());
    }
    if merge_first_seen(&page_users, &mut users) {
        Ok(users)
    } else {
        Err(FriendsError::ResponseContract { problem: CONFLICTING_USER_RECORDS })
    }
}

/// Turns the page that the API returned for one friend-list request into the
/// friend-list result, or the contract problem that rejects it.
pub fn finish_friends_page(
    limit: Limit,
    offset: Offset,
    subject: Option<FriendsSubject>,
    page: FriendsPage,
) -> (r: Result<FriendsResult, FriendsError>)
    ensures
        match friends_page_outcome(limit, offset, page.spec_users(), page.spec_next_offset()) {
            Ok(u) => r is Ok && r->Ok_0.spec_users() == u && r->Ok_0.spec_next_offset()
                == page.spec_next_offset() && r->Ok_0.spec_subject() == match subject {
                Some(s) => Some((s.spec_user_id(), s.spec_username())),
                None => None,
            },
            Err(problem) => r == Err::<FriendsResult, FriendsError>(
                FriendsError::ResponseContract { problem },
            ),
        },
{
    let (page_users, next_token) = page.into_parts();
    validate_page_len(page_users.len(), limit)?;
    validate_next_offset(offset, next_token)?;
    if page_users.len() == 0 && next_token.is_some() {
        return Err(FriendsError::ResponseContract { problem: EMPTY_PAGE_WITH_CONTINUATION });
    }
    let users = buffer_users(page_users)?;
    Ok(
        match subject {
            Some(subject) => FriendsResult::for_subject(subject, users, next_token),
            None => FriendsResult::new(users, next_token),
        },
    )
}

/// The username names the signed-in account itself, ignoring ASCII case.
pub open spec fn is_own_username(credential_username: Seq<char>, username: Seq<char>) -> bool {
    username.len() == credential_username.len() && forall|i: int|
        0 <= i < username.len() ==> ascii_lower(#[trigger] username[i]) == ascii_lower(
            credential_username[i],
        )
}

/// A username names the signed-in account exactly when it has the same
/// characters up to the case of ASCII letters: any other difference, such as
/// another digit, makes it another user.
pub proof fn lemma_own_username_differs_only_in_ascii_case(
    credential_username: Seq<char>,
    username: Seq<char>,
)
    ensures
        is_own_username(credential_username, username) <==> (username.len()
            == credential_username.len() && forall|i: int|
            0 <= i < username.len() ==> same_up_to_ascii_case(
                #[trigger] username[i],
                credential_username[i],
            )),
{
    assert forall|i: int| 0 <= i < username.len() && i < credential_username.len() implies (ascii_lower(
        #[trigger] username[i],
    ) == ascii_lower(credential_username[i])) == same_up_to_ascii_case(
        username[i],
        credential_username[i],
    ) by {
        lemma_ascii_fold_identifies_case_only(username[i], credential_username[i]);
    }
}

/// Whether the friend list asked for is the signed-in account's own, so
/// that no lookup is needed.
pub fn is_own_subject(credential: &CredentialEnvelope, username: &Username) -> (r: bool)
    ensures
        r == is_own_username(credential.username@, username@),
{
    eq_ignore_ascii_case(username.as_str(), credential.username().as_str())
}

/// The friend-list subject for a resolved user: only personal profiles
/// qualify, and the authoritative record must carry its username.
pub fn subject_from_user(user: &User) -> (r: Result<FriendsSubject, FriendsError>)
    ensures
        user@.profile_kind is None ==> r == Err::<FriendsSubject, FriendsError>(
            FriendsError::MissingProfileType,
        ),
        user@.profile_kind matches Some(k) && k != UserProfileKind::Personal ==> r == Err::<
            FriendsSubject,
            FriendsError,
        >(FriendsError::UnsupportedProfileType),
        user@.profile_kind == Some(UserProfileKind::Personal) && user@.username is None ==> r
            == Err::<FriendsSubject, FriendsError>(
            FriendsError::ResponseContract { problem: SUBJECT_WITHOUT_USERNAME },
        ),
        user@.profile_kind == Some(UserProfileKind::Personal) && user@.username is Some ==> r is Ok
            && r->Ok_0.spec_user_id() == user@.user_id && Some(r->Ok_0.spec_username())
            == user@.username,
{
    match user.profile_kind() {
        Some(UserProfileKind::Personal) => {},
        Some(_) => {
            return Err(FriendsError::UnsupportedProfileType);
        },
        None => {
            return Err(FriendsError::MissingProfileType);
        },
    }
    match user.username() {
        Some(username) => Ok(FriendsSubject::new(user.user_id().clone(), username.clone())),
        None => Err(FriendsError::ResponseContract { problem: SUBJECT_WITHOUT_USERNAME }),
    }
}

/// The user whose friends are listed: the subject when there is one, the
/// signed-in account otherwise.
pub fn subject_user_id(credential: &CredentialEnvelope, subject: &Option<FriendsSubject>) -> (r:
    UserId)
    ensures
        match subject {
            Some(s) => r@ == s.spec_user_id(),
            None => r@ == credential.user_id@,
        },
{
    match subject {
        Some(s) => s.user_id().clone(),
        None => credential.user_id().clone(),
    }
}

} // verus!
