//! Payment recipients: the username a user typed, and the user it resolved to.
use std::str::FromStr;
use vstd::prelude::*;

use crate::people::user::{User, UserView};
use crate::shared::{spec_parse_bare_username, strip_at, Username, UsernameParseError};

verus! {

#[derive(Clone, Copy, Debug, PartialEq, Eq, Structural)]
pub enum RecipientParseError {
    Username(UsernameParseError),
}

/// A recipient given by username, with or without its `@` prefix.
#[derive(Debug, PartialEq, Eq)]
pub struct RecipientInput(Username);

impl RecipientInput {
    pub closed spec fn spec_username(&self) -> Seq<char> {
        self.0@
    }

    pub fn parse(value: &str) -> (r: Result<RecipientInput, RecipientParseError>)
        ensures
            match spec_parse_bare_username(strip_at(value@)) {
                Ok(v) => r is Ok && r->Ok_0.spec_username() == v,
                Err(e) => r == Err::<RecipientInput, RecipientParseError>(
                    RecipientParseError::Username(e),
                ),
            },
    {
        match Username::from_optional_prefix(value) {
            Ok(username) => Ok(RecipientInput(username)),
            Err(e) => Err(RecipientParseError::Username(e)),
        }
    }

    pub fn username(&self) -> (r: &Username)
        ensures
            r@ == self.spec_username(),
    {
        &self.0
    }

    /// The recipient as it is displayed: `@` and the username.
    pub fn display_string(&self) -> (r: String)
        ensures
            r@ == seq!['@'] + self.spec_username(),
    {
        self.0.display_string()
    }
}

impl Clone for RecipientInput {
    fn clone(&self) -> (r: Self)
        ensures
            r.spec_username() == self.spec_username(),
    {
        RecipientInput(self.0.clone())
    }
}

impl FromStr for RecipientInput {
    type Err = RecipientParseError;

    fn from_str(value: &str) -> (r: Result<Self, Self::Err>)
        ensures
            match spec_parse_bare_username(strip_at(value@)) {
                Ok(v) => r is Ok && r->Ok_0.spec_username() == v,
                Err(e) => r == Err::<RecipientInput, RecipientParseError>(
                    RecipientParseError::Username(e),
                ),
            },
    {
        RecipientInput::parse(value)
    }
}

/// The authoritative user that a recipient input resolved to.
#[derive(PartialEq, Eq)]
pub struct ResolvedRecipient {
    user: User,
}

impl ResolvedRecipient {
    pub closed spec fn spec_user(&self) -> UserView {
        self.user@
    }

    pub fn new(user: User) -> (r: ResolvedRecipient)
        ensures
            r.spec_user() == user@,
    {
        ResolvedRecipient { user }
    }

    pub fn into_user(self) -> (r: User)
        ensures
            r@ == self.spec_user(),
    {
        self.user
    }

    /// The debugging rendering, with the user redacted.
    pub fn redacted_debug(&self) -> (r: String)
        ensures
            r@ == "ResolvedRecipient { user: \"[REDACTED]\" }"@,
    {
        "ResolvedRecipient { user: \"[REDACTED]\" }".to_owned()
    }
}

impl Clone for ResolvedRecipient {
    fn clone(&self) -> (r: Self)
        ensures
            r.spec_user() == self.spec_user(),
    {
        ResolvedRecipient { user: self.user.clone() }
    }
}

} // verus!
