//! Resolution of an exact username to the authoritative user record.
use vstd::prelude::*;
use vstd::string::StringExecFns;

use crate::first_seen::views;
use crate::people::user::{spec_parse_query, string_view, User, UserSearchQuery, UserView};
use crate::people::users::{UserSearchError, UserSearchFailureKind};
use crate::shared::{
    spec_parse_bare_username, strip_at, valid_username, ApiFailureKind, ApiOperationFailure,
    ApplicationFailureKind, UserId, Username,
};
use crate::std_ext::{lowercase_of, to_lowercase};
use crate::text::{has_control, has_whitespace, is_blank, spec_is_whitespace, utf8_len, utf8_width};

verus! {

pub const DIFFERENT_DETAIL_USER_ID: &'static str =
    "the user detail response returned a different user ID";

pub const DIFFERENT_DETAIL_USERNAME: &'static str =
    "the user detail response returned a different username";

#[derive(Clone, Copy, Debug, PartialEq, Eq, Structural)]
pub enum UserLookupFailureKind {
    Credential,
    Api(ApiFailureKind),
    ApiContract,
    NotFound,
    Ambiguous,
    Internal,
}

#[derive(Clone, Debug, PartialEq, Eq)]
pub enum UserLookupError {
    Api { source: ApiOperationFailure },
    LookupContract { problem: &'static str },
    UsernameSearch { kind: UserLookupFailureKind, source: UserSearchError },
    UsernameNotFound,
    AmbiguousUsername,
    Internal { problem: &'static str },
}

pub open spec fn spec_map_search_failure(kind: UserSearchFailureKind) -> UserLookupFailureKind {
    match kind {
        UserSearchFailureKind::Credential => UserLookupFailureKind::Credential,
        UserSearchFailureKind::Api(k) => UserLookupFailureKind::Api(k),
        UserSearchFailureKind::ResponseContract => UserLookupFailureKind::ApiContract,
        UserSearchFailureKind::Internal => UserLookupFailureKind::Internal,
    }
}

#[verifier::when_used_as_spec(spec_map_search_failure)]
pub fn map_search_failure(kind: UserSearchFailureKind) -> (r: UserLookupFailureKind)
    ensures
        r == spec_map_search_failure(kind),
{
    match kind {
        UserSearchFailureKind::Credential => UserLookupFailureKind::Credential,
        UserSearchFailureKind::Api(k) => UserLookupFailureKind::Api(k),
        UserSearchFailureKind::ResponseContract => UserLookupFailureKind::ApiContract,
        UserSearchFailureKind::Internal => UserLookupFailureKind::Internal,
    }
}

pub open spec fn spec_lookup_application_kind(kind: UserLookupFailureKind) -> ApplicationFailureKind {
    match kind {
        UserLookupFailureKind::Credential => ApplicationFailureKind::Credential,
        UserLookupFailureKind::Api(k) => ApplicationFailureKind::Api(k),
        UserLookupFailureKind::ApiContract => ApplicationFailureKind::ApiContract,
        UserLookupFailureKind::NotFound => ApplicationFailureKind::Usage,
        UserLookupFailureKind::Ambiguous => ApplicationFailureKind::Usage,
        UserLookupFailureKind::Internal => ApplicationFailureKind::Internal,
    }
}

impl UserLookupError {
    pub open spec fn spec_failure_kind(&self) -> UserLookupFailureKind {
        match self {
            UserLookupError::Api { source } => UserLookupFailureKind::Api(source.kind),
            UserLookupError::LookupContract { .. } => UserLookupFailureKind::ApiContract,
            UserLookupError::UsernameSearch { kind, .. } => *kind,
            UserLookupError::UsernameNotFound => UserLookupFailureKind::NotFound,
            UserLookupError::AmbiguousUsername => UserLookupFailureKind::Ambiguous,
            UserLookupError::Internal { .. } => UserLookupFailureKind::Internal,
        }
    }

    #[verifier::when_used_as_spec(spec_failure_kind)]
    pub fn failure_kind(&self) -> (r: UserLookupFailureKind)
        ensures
            r == self.spec_failure_kind(),
    {
        match self {
            UserLookupError::Api { source } => UserLookupFailureKind::Api(source.kind()),
            UserLookupError::LookupContract { .. } => UserLookupFailureKind::ApiContract,
            UserLookupError::UsernameSearch { kind, .. } => *kind,
            UserLookupError::UsernameNotFound => UserLookupFailureKind::NotFound,
            UserLookupError::AmbiguousUsername => UserLookupFailureKind::Ambiguous,
            UserLookupError::Internal { .. } => UserLookupFailureKind::Internal,
        }
    }

    pub open spec fn spec_application_failure_kind(&self) -> ApplicationFailureKind {
        spec_lookup_application_kind(self.spec_failure_kind())
    }

    #[verifier::when_used_as_spec(spec_application_failure_kind)]
    pub fn application_failure_kind(&self) -> (r: ApplicationFailureKind)
        ensures
            r == self.spec_application_failure_kind(),
    {
        match self.failure_kind() {
            UserLookupFailureKind::Credential => ApplicationFailureKind::Credential,
            UserLookupFailureKind::Api(k) => ApplicationFailureKind::Api(k),
            UserLookupFailureKind::ApiContract => ApplicationFailureKind::ApiContract,
            UserLookupFailureKind::NotFound => ApplicationFailureKind::Usage,
            UserLookupFailureKind::Ambiguous => ApplicationFailureKind::Usage,
            UserLookupFailureKind::Internal => ApplicationFailureKind::Internal,
        }
    }

    /// The lookup failure that a failed exact-username search amounts to.
    pub fn from_search_error(source: UserSearchError) -> (r: UserLookupError)
        ensures
            r == (UserLookupError::UsernameSearch {
                kind: spec_map_search_failure(source.spec_failure_kind()),
                source,
            }),
    {
        let kind = map_search_failure(source.failure_kind());
        UserLookupError::UsernameSearch { kind, source }
    }
}

proof fn lemma_utf8_len_prepend(c: char, s: Seq<char>)
    ensures
        utf8_len(seq![c] + s) == utf8_width(c) + utf8_len(s),
    decreases s.len(),
{
    if s.len() == 0 {
        assert((seq![c] + s).drop_last() =~= Seq::<char>::empty());
        assert((seq![c] + s).last() == c);
        assert(utf8_len(Seq::<char>::empty()) == 0);
    } else {
        lemma_utf8_len_prepend(c, s.drop_last());
        assert((seq![c] + s).drop_last() =~= seq![c] + s.drop_last());
        assert((seq![c] + s).last() == s.last());
    }
}

/// The exact-search query for a username: the username with its `@`
/// prefix, parsed as a username search. A valid username always forms one.
pub fn exact_search_query(username: &Username) -> (r: Result<UserSearchQuery, UserLookupError>)
    ensures
        r is Ok,
        r matches Ok(q) ==> q@ == (username@, true),
{
    let text = username.display_string();
    proof {
        use_type_invariant(username);
        let s = seq!['@'] + username@;
        lemma_utf8_len_prepend('@', username@);
        assert(!is_blank(s)) by {
            assert(!spec_is_whitespace(s[0]));
        }
        assert(!has_control(s)) by {
            if has_control(s) {
                let i = choose|i: int| 0 <= i < s.len() && crate::text::spec_is_control(#[trigger] s[i]);
                assert(i > 0);
                assert(s[i] == username@[i - 1]);
            }
        }
        assert(strip_at(s) =~= username@);
    }
    match UserSearchQuery::parse(text.as_str()) {
        Ok(query) => Ok(query),
        Err(_) => Err(
            UserLookupError::Internal {
                problem: "a validated username could not form an exact-search query",
            },
        ),
    }
}

/// The two usernames are equal once both are mapped to lower case.
pub open spec fn spec_username_matches(candidate: Seq<char>, requested: Seq<char>) -> bool {
    lowercase_of(candidate) == lowercase_of(requested)
}

pub fn username_matches(candidate: &Username, requested: &Username) -> (r: bool)
    ensures
        r == spec_username_matches(candidate@, requested@),
{
    let a = to_lowercase(candidate.as_str());
    let b = to_lowercase(requested.as_str());
    a == b
}

/// The user record carries a username that matches `requested`.
pub open spec fn user_matches(v: UserView, requested: Seq<char>) -> bool {
    match v.username {
        Some(c) => spec_username_matches(c, requested),
        None => false,
    }
}

/// The records of `users` that match `requested`, in order.
pub open spec fn matches_of(users: Seq<UserView>, requested: Seq<char>) -> Seq<UserView>
    decreases users.len(),
{
    if users.len() == 0 {
        Seq::empty()
    } else if user_matches(users.last(), requested) {
        matches_of(users.drop_last(), requested).push(users.last())
    } else {
        matches_of(users.drop_last(), requested)
    }
}

/// The models of optional strings, one for one.
pub open spec fn optional_views(s: Seq<Option<String>>) -> Seq<Option<Seq<char>>> {
    s.map_values(|c: Option<String>| string_view(c))
}

/// The positions, in increasing order, at which `candidates` holds exactly
/// `requested`.
pub open spec fn equal_positions(candidates: Seq<Option<Seq<char>>>, requested: Seq<char>) -> Seq<int>
    decreases candidates.len(),
{
    if candidates.len() == 0 {
        Seq::empty()
    } else if candidates.last() == Some(requested) {
        equal_positions(candidates.drop_last(), requested).push(candidates.len() - 1)
    } else {
        equal_positions(candidates.drop_last(), requested)
    }
}

/// Picks the one candidate name equal to the requested one, both already in
/// lower case: its position, or `UsernameNotFound` when none is equal and
/// `AmbiguousUsername` when several are. A missing name equals nothing.
pub fn select_lowercase_match(candidates: &[Option<String>], requested: &String) -> (r: Result<
    usize,
    UserLookupError,
>)
    ensures
        equal_positions(optional_views(candidates@), requested@).len() == 0 ==> r == Err::<
            usize,
            UserLookupError,
        >(UserLookupError::UsernameNotFound),
        equal_positions(optional_views(candidates@), requested@).len() == 1 ==> r == Ok::<
            usize,
            UserLookupError,
        >(equal_positions(optional_views(candidates@), requested@)[0] as usize),
        equal_positions(optional_views(candidates@), requested@).len() > 1 ==> r == Err::<
            usize,
            UserLookupError,
        >(UserLookupError::AmbiguousUsername),
{
    let ghost names = optional_views(candidates@);
    let mut found: Option<usize> = None;
    let mut i: usize = 0;
    while i < candidates.len()
        invariant
            i <= candidates@.len(),
            names == optional_views(candidates@),
            found is None ==> equal_positions(names.take(i as int), requested@).len() == 0,
            found matches Some(f) ==> f < i && equal_positions(names.take(i as int), requested@)
                == seq![f as int],
        decreases candidates@.len() - i,
    {
        proof {
            assert(names.take(i + 1).drop_last() =~= names.take(i as int));
            assert(names.take(i + 1).last() == string_view(candidates@[i as int]));
        }
        let equal = match &candidates[i] {
            Some(name) => *name == *requested,
            None => false,
        };
        if equal {
            if found.is_some() {
                proof {
                    lemma_positions_prefix_grows(names, requested@, i as int + 1);
                }
                return Err(UserLookupError::AmbiguousUsername);
            }
            found = Some(i);
        }
        i = i + 1;
    }
    proof {
        assert(names.take(candidates@.len() as int) =~= names);
    }
    match found {
        Some(f) => Ok(f),
        None => Err(UserLookupError::UsernameNotFound),
    }
}

proof fn lemma_positions_prefix_grows(names: Seq<Option<Seq<char>>>, requested: Seq<char>, n: int)
    requires
        0 <= n <= names.len(),
    ensures
        equal_positions(names.take(n), requested).len() <= equal_positions(names, requested).len(),
    decreases names.len() - n,
{
    if n < names.len() {
        lemma_positions_prefix_grows(names, requested, n + 1);
        assert(names.take(n + 1).drop_last() =~= names.take(n));
    } else {
        assert(names.take(n) =~= names);
    }
}

/// The lower-case form of the username a user record carries, if any.
pub open spec fn lowered_username(v: UserView) -> Option<Seq<char>> {
    match v.username {
        Some(c) => Some(lowercase_of(c)),
        None => None,
    }
}

/// Matching usernames is comparing their lower-case forms: the records that
/// match are those at the positions where the lower-case names equal the
/// lower-case requested name.
proof fn lemma_matches_are_lowercase_positions(
    users: Seq<UserView>,
    lowered: Seq<Option<Seq<char>>>,
    requested: Seq<char>,
)
    requires
        lowered.len() == users.len(),
        forall|k: int| 0 <= k < users.len() ==> lowered[k] == lowered_username(#[trigger] users[k]),
    ensures
        forall|j: int|
            0 <= j < equal_positions(lowered, lowercase_of(requested)).len() ==> 0 <= #[trigger] equal_positions(
                lowered,
                lowercase_of(requested),
            )[j] < users.len(),
        matches_of(users, requested) == equal_positions(lowered, lowercase_of(requested)).map_values(
            |k: int| users[k],
        ),
    decreases users.len(),
{
    let lr = lowercase_of(requested);
    if users.len() > 0 {
        let us = users.drop_last();
        let ls = lowered.drop_last();
        lemma_matches_are_lowercase_positions(us, ls, requested);
        let prev = equal_positions(ls, lr);
        assert(prev.map_values(|k: int| us[k]) =~= prev.map_values(|k: int| users[k]));
        assert(lowered.last() == lowered_username(users.last()));
        if user_matches(users.last(), requested) {
            assert(prev.push(users.len() - 1).map_values(|k: int| users[k]) =~= prev.map_values(
                |k: int| users[k],
            ).push(users.last()));
        }
    }
}

/// Picks the one search result whose username matches: its ID, or
/// `UsernameNotFound` when none matches and `AmbiguousUsername` when
/// several do.
pub fn select_search_match(users: &[User], username: &Username) -> (r: Result<UserId, UserLookupError>)
    ensures
        matches_of(views(users@), username@).len() == 0 ==> r == Err::<UserId, UserLookupError>(
            UserLookupError::UsernameNotFound,
        ),
        matches_of(views(users@), username@).len() == 1 ==> r is Ok && r->Ok_0@ == matches_of(
            views(users@),
            username@,
        )[0].user_id,
        matches_of(views(users@), username@).len() > 1 ==> r == Err::<UserId, UserLookupError>(
            UserLookupError::AmbiguousUsername,
        ),
{
    let mut lowered: Vec<Option<String>> = Vec::new();
    let mut i: usize = 0;
    while i < users.len()
        invariant
            i <= users@.len(),
            lowered@.len() == i,
            forall|k: int|
                0 <= k < i ==> string_view(#[trigger] lowered@[k]) == lowered_username(users@[k]@),
        decreases users@.len() - i,
    {
        let name = match users[i].username() {
            Some(candidate) => Some(to_lowercase(candidate.as_str())),
            None => None,
        };
        lowered.push(name);
        i = i + 1;
    }
    let requested = to_lowercase(username.as_str());
    proof {
        let names = optional_views(lowered@);
        assert forall|k: int| 0 <= k < views(users@).len() implies names[k] == lowered_username(
            #[trigger] views(users@)[k],
        ) by {
            assert(string_view(lowered@[k]) == lowered_username(users@[k]@));
        }
        lemma_matches_are_lowercase_positions(views(users@), names, username@);
    }
    match select_lowercase_match(lowered.as_slice(), &requested) {
        Ok(index) => Ok(users[index].user_id().clone()),
        Err(e) => Err(e),
    }
}

/// Checks the authoritative detail record against the search match: same
/// ID, and a username that matches the requested one.
pub fn verify_user_detail(user: User, expected_user_id: &UserId, username: &Username) -> (r: Result<
    User,
    UserLookupError,
>)
    ensures
        user@.user_id != expected_user_id@ ==> r == Err::<User, UserLookupError>(
            UserLookupError::LookupContract { problem: DIFFERENT_DETAIL_USER_ID },
        ),
        user@.user_id == expected_user_id@ && !user_matches(user@, username@) ==> r == Err::<
            User,
            UserLookupError,
        >(UserLookupError::LookupContract { problem: DIFFERENT_DETAIL_USERNAME }),
        user@.user_id == expected_user_id@ && user_matches(user@, username@) ==> r is Ok
            && r->Ok_0@ == user@,
{
    if !user.user_id().same_as(expected_user_id) {
        return Err(UserLookupError::LookupContract { problem: DIFFERENT_DETAIL_USER_ID });
    }
    let matched = match user.username() {
        Some(candidate) => username_matches(candidate, username),
        None => false,
    };
    if !matched {
        return Err(UserLookupError::LookupContract { problem: DIFFERENT_DETAIL_USERNAME });
    }
    Ok(user)
}

} // verus!
