//! Venmo users and user-search queries.
use std::str::FromStr;
use vstd::prelude::*;
use vstd::string::StringExecFns;

use crate::first_seen::Keyed;
use crate::shared::{
    spec_parse_bare_username, strip_at, UserId, Username, UsernameParseError,
};
use crate::text::{
    blank, contains_control, contains_whitespace, has_control, has_whitespace, is_blank,
    spec_is_whitespace, utf8_len, utf8_len_at_most,
};

verus! {

/// The largest encoded size of a search query.
pub const MAX_QUERY_BYTES: u64 = 1024;

#[derive(Clone, Copy, Debug, PartialEq, Eq, Structural)]
pub enum UserProfileKind {
    Personal,
    Business,
    Charity,
    Unknown,
}

#[derive(Clone, Copy, Debug, PartialEq, Eq, Structural)]
pub enum FriendshipStatus {
    Friend,
    NotFriend,
    RequestReceived,
    RequestSent,
}

/// The mathematical model of a [`User`].
pub struct UserView {
    pub user_id: Seq<char>,
    pub username: Option<Seq<char>>,
    pub display_name: Option<Seq<char>>,
    pub profile_kind: Option<UserProfileKind>,
    pub is_payable: Option<bool>,
    pub friendship_status: Option<FriendshipStatus>,
}

pub open spec fn username_view(u: Option<Username>) -> Option<Seq<char>> {
    match u {
        Some(n) => Some(n@),
        None => None,
    }
}

pub open spec fn string_view(s: Option<String>) -> Option<Seq<char>> {
    match s {
        Some(t) => Some(t@),
        None => None,
    }
}

pub fn clone_optional_string(s: &Option<String>) -> (r: Option<String>)
    ensures
        string_view(r) == string_view(*s),
{
    match s {
        Some(t) => Some(t.clone()),
        None => None,
    }
}

pub fn optional_str(s: &Option<String>) -> (r: Option<&str>)
    ensures
        match (r, *s) {
            (Some(a), Some(b)) => a@ == b@,
            (None, None) => true,
            _ => false,
        },
{
    match s {
        Some(t) => Some(t.as_str()),
        None => None,
    }
}

pub fn same_optional_string(a: &Option<String>, b: &Option<String>) -> (r: bool)
    ensures
        r == (string_view(*a) == string_view(*b)),
{
    match (a, b) {
        (Some(x), Some(y)) => *x == *y,
        (None, None) => true,
        _ => false,
    }
}

fn same_optional_username(a: &Option<Username>, b: &Option<Username>) -> (r: bool)
    ensures
        r == (username_view(*a) == username_view(*b)),
{
    match (a, b) {
        (Some(x), Some(y)) => x.same_as(y),
        (None, None) => true,
        _ => false,
    }
}

/// A Venmo user as the service describes it. Only the identifier is always
/// present; every other attribute is optional evidence.
#[derive(PartialEq, Eq)]
pub struct User {
    user_id: UserId,
    username: Option<Username>,
    display_name: Option<String>,
    profile_kind: Option<UserProfileKind>,
    is_payable: Option<bool>,
    friendship_status: Option<FriendshipStatus>,
}

impl View for User {
    type V = UserView;

    closed spec fn view(&self) -> UserView {
        UserView {
            user_id: self.user_id@,
            username: username_view(self.username),
            display_name: string_view(self.display_name),
            profile_kind: self.profile_kind,
            is_payable: self.is_payable,
            friendship_status: self.friendship_status,
        }
    }
}

impl Clone for User {
    fn clone(&self) -> (r: Self)
        ensures
            r@ == self@,
    {
        let username = match &self.username {
            Some(n) => Some(n.clone()),
            None => None,
        };
        User {
            user_id: self.user_id.clone(),
            username,
            display_name: clone_optional_string(&self.display_name),
            profile_kind: self.profile_kind,
            is_payable: self.is_payable,
            friendship_status: self.friendship_status,
        }
    }
}

impl User {
    pub fn new(user_id: UserId, username: Option<Username>, display_name: Option<String>) -> (r:
        User)
        ensures
            r@ == (UserView {
                user_id: user_id@,
                username: username_view(username),
                display_name: string_view(display_name),
                profile_kind: None,
                is_payable: None,
                friendship_status: None,
            }),
    {
        User {
            user_id,
            username,
            display_name,
            profile_kind: None,
            is_payable: None,
            friendship_status: None,
        }
    }

    pub fn with_financial_attributes(self, profile_kind: UserProfileKind, is_payable: bool) -> (r:
        User)
        ensures
            r@ == (UserView {
                profile_kind: Some(profile_kind),
                is_payable: Some(is_payable),
                ..self@
            }),
    {
        User { profile_kind: Some(profile_kind), is_payable: Some(is_payable), ..self }
    }

    pub fn with_optional_financial_attributes(
        self,
        profile_kind: Option<UserProfileKind>,
        is_payable: Option<bool>,
    ) -> (r: User)
        ensures
            r@ == (UserView { profile_kind, is_payable, ..self@ }),
    {
        User { profile_kind, is_payable, ..self }
    }

    pub fn with_friendship_status(self, friendship_status: FriendshipStatus) -> (r: User)
        ensures
            r@ == (UserView { friendship_status: Some(friendship_status), ..self@ }),
    {
        User { friendship_status: Some(friendship_status), ..self }
    }

    pub fn with_optional_friendship_status(self, friendship_status: Option<FriendshipStatus>) -> (r:
        User)
        ensures
            r@ == (UserView { friendship_status, ..self@ }),
    {
        User { friendship_status, ..self }
    }

    pub fn user_id(&self) -> (r: &UserId)
        ensures
            r@ == self@.user_id,
    {
        &self.user_id
    }

    pub fn username(&self) -> (r: Option<&Username>)
        ensures
            match r {
                Some(n) => self@.username == Some(n@),
                None => self@.username is None,
            },
    {
        match &self.username {
            Some(n) => Some(n),
            None => None,
        }
    }

    pub fn display_name(&self) -> (r: Option<&str>)
        ensures
            match r {
                Some(n) => self@.display_name == Some(n@),
                None => self@.display_name is None,
            },
    {
        optional_str(&self.display_name)
    }

    pub fn profile_kind(&self) -> (r: Option<UserProfileKind>)
        ensures
            r == self@.profile_kind,
    {
        self.profile_kind
    }

    pub fn is_payable(&self) -> (r: Option<bool>)
        ensures
            r == self@.is_payable,
    {
        self.is_payable
    }

    pub fn friendship_status(&self) -> (r: Option<FriendshipStatus>)
        ensures
            r == self@.friendship_status,
    {
        self.friendship_status
    }

    /// Whether the two records describe the same user in every attribute.
    pub fn same_record(&self, other: &User) -> (r: bool)
        ensures
            r == (self@ == other@),
    {
        let same = self.user_id.same_as(&other.user_id) && same_optional_username(
            &self.username,
            &other.username,
        ) && same_optional_string(&self.display_name, &other.display_name)
            && self.profile_kind == other.profile_kind && self.is_payable == other.is_payable
            && self.friendship_status == other.friendship_status;
        same
    }

    /// The debugging rendering of the user, with its identity redacted.
    pub fn redacted_debug(&self) -> (r: String)
        ensures
            r@ == user_debug_prefix() + profile_kind_debug(self@.profile_kind) + ", is_payable: "@
                + bool_option_debug(self@.is_payable) + ", friendship_status: "@
                + friendship_debug(self@.friendship_status) + " }"@,
    {
        let mut s = "User { user_id: \"[REDACTED]\", username: \"[REDACTED]\", display_name: \"[REDACTED]\", profile_kind: ".to_owned();
        s.append(profile_kind_debug_str(self.profile_kind));
        s.append(", is_payable: ");
        s.append(bool_option_debug_str(self.is_payable));
        s.append(", friendship_status: ");
        s.append(friendship_debug_str(self.friendship_status));
        s.append(" }");
        s
    }
}

pub open spec fn user_debug_prefix() -> Seq<char> {
    "User { user_id: \"[REDACTED]\", username: \"[REDACTED]\", display_name: \"[REDACTED]\", profile_kind: "@
}

pub open spec fn profile_kind_debug(k: Option<UserProfileKind>) -> Seq<char> {
    match k {
        None => "None"@,
        Some(UserProfileKind::Personal) => "Some(Personal)"@,
        Some(UserProfileKind::Business) => "Some(Business)"@,
        Some(UserProfileKind::Charity) => "Some(Charity)"@,
        Some(UserProfileKind::Unknown) => "Some(Unknown)"@,
    }
}

pub open spec fn bool_option_debug(b: Option<bool>) -> Seq<char> {
    match b {
        None => "None"@,
        Some(true) => "Some(true)"@,
        Some(false) => "Some(false)"@,
    }
}

pub open spec fn friendship_debug(s: Option<FriendshipStatus>) -> Seq<char> {
    match s {
        None => "None"@,
        Some(FriendshipStatus::Friend) => "Some(Friend)"@,
        Some(FriendshipStatus::NotFriend) => "Some(NotFriend)"@,
        Some(FriendshipStatus::RequestReceived) => "Some(RequestReceived)"@,
        Some(FriendshipStatus::RequestSent) => "Some(RequestSent)"@,
    }
}

fn profile_kind_debug_str(k: Option<UserProfileKind>) -> (r: &'static str)
    ensures
        r@ == profile_kind_debug(k),
{
    match k {
        None => "None",
        Some(UserProfileKind::Personal) => "Some(Personal)",
        Some(UserProfileKind::Business) => "Some(Business)",
        Some(UserProfileKind::Charity) => "Some(Charity)",
        Some(UserProfileKind::Unknown) => "Some(Unknown)",
    }
}

fn bool_option_debug_str(b: Option<bool>) -> (r: &'static str)
    ensures
        r@ == bool_option_debug(b),
{
    match b {
        None => "None",
        Some(true) => "Some(true)",
        Some(false) => "Some(false)",
    }
}

fn friendship_debug_str(s: Option<FriendshipStatus>) -> (r: &'static str)
    ensures
        r@ == friendship_debug(s),
{
    match s {
        None => "None",
        Some(FriendshipStatus::Friend) => "Some(Friend)",
        Some(FriendshipStatus::NotFriend) => "Some(NotFriend)",
        Some(FriendshipStatus::RequestReceived) => "Some(RequestReceived)",
        Some(FriendshipStatus::RequestSent) => "Some(RequestSent)",
    }
}

impl Keyed for User {
    open spec fn key_of(v: UserView) -> Seq<char> {
        v.user_id
    }

    fn record_key_matches(&self, other: &User) -> (r: bool) {
        self.user_id.same_as(&other.user_id)
    }

    fn record_equals(&self, other: &User) -> (r: bool) {
        self.same_record(other)
    }

    fn record_clone(&self) -> (r: User) {
        self.clone()
    }
}

// ---------------------------------------------------------------------------
// Search queries
// ---------------------------------------------------------------------------

#[derive(Clone, Copy, Debug, PartialEq, Eq, Structural)]
pub enum UserSearchQueryParseError {
    Empty,
    TooLong { maximum_bytes: u64 },
    ControlCharacter,
    EmptyUsername,
    InvalidUsername { source: UsernameParseError },
}

/// A search is a username search when the query starts with `@` or has no
/// whitespace at all.
pub open spec fn is_username_search(s: Seq<char>) -> bool {
    (s.len() > 0 && s[0] == '@') || !has_whitespace(s)
}

/// The outcome of parsing a search query: the query text and whether it is
/// a username search.
pub open spec fn spec_parse_query(s: Seq<char>) -> Result<(Seq<char>, bool), UserSearchQueryParseError> {
    if is_blank(s) {
        Err(UserSearchQueryParseError::Empty)
    } else if utf8_len(s) > MAX_QUERY_BYTES {
        Err(UserSearchQueryParseError::TooLong { maximum_bytes: MAX_QUERY_BYTES })
    } else if has_control(s) {
        Err(UserSearchQueryParseError::ControlCharacter)
    } else if is_username_search(s) {
        match spec_parse_bare_username(strip_at(s)) {
            Ok(name) => Ok((name, true)),
            Err(UsernameParseError::Empty) => Err(UserSearchQueryParseError::EmptyUsername),
            Err(e) => Err(UserSearchQueryParseError::InvalidUsername { source: e }),
        }
    } else {
        Ok((s, false))
    }
}

/// A query is a username search exactly when it starts with `@` or holds no
/// whitespace at all, and searches the text without that `@`; any other
/// accepted query is a general search that keeps its text as given.
pub proof fn lemma_query_kind(s: Seq<char>)
    requires
        spec_parse_query(s) is Ok,
    ensures
        spec_parse_query(s)->Ok_0.1 <==> ((s.len() > 0 && s[0] == '@') || forall|i: int|
            0 <= i < s.len() ==> !spec_is_whitespace(#[trigger] s[i])),
        !spec_parse_query(s)->Ok_0.1 ==> spec_parse_query(s)->Ok_0.0 == s,
        spec_parse_query(s)->Ok_0.1 && s.len() > 0 && s[0] == '@' ==> spec_parse_query(s)->Ok_0.0
            == s.subrange(1, s.len() as int),
        spec_parse_query(s)->Ok_0.1 && !(s.len() > 0 && s[0] == '@') ==> spec_parse_query(s)->Ok_0.0
            == s,
{
}

/// A validated user-search query.
#[derive(PartialEq, Eq)]
pub struct UserSearchQuery {
    value: String,
    username_search: bool,
}

impl View for UserSearchQuery {
    type V = (Seq<char>, bool);

    closed spec fn view(&self) -> (Seq<char>, bool) {
        (self.value@, self.username_search)
    }
}

impl Clone for UserSearchQuery {
    fn clone(&self) -> (r: Self)
        ensures
            r@ == self@,
    {
        UserSearchQuery { value: self.value.clone(), username_search: self.username_search }
    }
}

impl UserSearchQuery {
    pub fn parse(value: &str) -> (r: Result<UserSearchQuery, UserSearchQueryParseError>)
        ensures
            match spec_parse_query(value@) {
                Ok(q) => r is Ok && r->Ok_0@ == q,
                Err(e) => r == Err::<UserSearchQuery, UserSearchQueryParseError>(e),
            },
    {
        if blank(value) {
            return Err(UserSearchQueryParseError::Empty);
        }
        if !utf8_len_at_most(value, MAX_QUERY_BYTES) {
            return Err(UserSearchQueryParseError::TooLong { maximum_bytes: MAX_QUERY_BYTES });
        }
        if contains_control(value) {
            return Err(UserSearchQueryParseError::ControlCharacter);
        }
        let chars = crate::text::chars_of(value);
        let starts_with_at = chars.len() > 0 && chars[0] == '@';
        if starts_with_at || !contains_whitespace(value) {
            return match Username::from_optional_prefix(value) {
                Ok(username) => Ok(
                    UserSearchQuery { value: username.as_str().to_owned(), username_search: true },
                ),
                Err(UsernameParseError::Empty) => Err(UserSearchQueryParseError::EmptyUsername),
                Err(source) => Err(UserSearchQueryParseError::InvalidUsername { source }),
            };
        }
        Ok(UserSearchQuery { value: value.to_owned(), username_search: false })
    }

    pub fn as_str(&self) -> (r: &str)
        ensures
            r@ == self@.0,
    {
        self.value.as_str()
    }

    /// The searched username, for a username search.
    pub fn username_query(&self) -> (r: Option<&str>)
        ensures
            match r {
                Some(q) => self@.1 && q@ == self@.0,
                None => !self@.1,
            },
    {
        if self.username_search {
            Some(self.value.as_str())
        } else {
            None
        }
    }

    pub fn same_as(&self, other: &UserSearchQuery) -> (r: bool)
        ensures
            r == (self@ == other@),
    {
        self.value == other.value && self.username_search == other.username_search
    }

    /// The debugging rendering, with the query redacted.
    pub fn redacted_debug(&self) -> (r: String)
        ensures
            r@ == "UserSearchQuery([REDACTED])"@,
    {
        "UserSearchQuery([REDACTED])".to_owned()
    }
}

impl FromStr for UserSearchQuery {
    type Err = UserSearchQueryParseError;

    fn from_str(value: &str) -> (r: Result<Self, Self::Err>)
        ensures
            match spec_parse_query(value@) {
                Ok(q) => r is Ok && r->Ok_0@ == q,
                Err(e) => r == Err::<UserSearchQuery, UserSearchQueryParseError>(e),
            },
    {
        UserSearchQuery::parse(value)
    }
}

} // verus!
