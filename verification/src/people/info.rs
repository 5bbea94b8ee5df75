//! Reading one user's information by exact username.
use vstd::prelude::*;

use crate::people::lookup::UserLookupError;
use crate::people::user::{User, UserView};
use crate::shared::{ApiOperationFailure, ApplicationFailureKind, CredentialAccessError};

verus! {

#[derive(PartialEq, Eq)]
pub struct UserInfoResult {
    user: User,
}

impl UserInfoResult {
    pub closed spec fn spec_user(&self) -> UserView {
        self.user@
    }

    pub fn new(user: User) -> (r: UserInfoResult)
        ensures
            r.spec_user() == user@,
    {
        UserInfoResult { user }
    }

    pub fn user(&self) -> (r: &User)
        ensures
            r@ == self.spec_user(),
    {
        &self.user
    }
}

#[derive(Clone, Debug, PartialEq, Eq)]
pub enum UserInfoError {
    Credential(CredentialAccessError),
    Api { source: ApiOperationFailure },
    ResponseContract { problem: &'static str },
    Lookup { source: UserLookupError },
}

impl UserInfoError {
    pub open spec fn spec_failure_kind(&self) -> ApplicationFailureKind {
        match self {
            UserInfoError::Credential(_) => ApplicationFailureKind::Credential,
            UserInfoError::Api { source } => ApplicationFailureKind::Api(source.kind),
            UserInfoError::ResponseContract { .. } => ApplicationFailureKind::ApiContract,
            UserInfoError::Lookup { source } => source.spec_application_failure_kind(),
        }
    }

    #[verifier::when_used_as_spec(spec_failure_kind)]
    pub fn failure_kind(&self) -> (r: ApplicationFailureKind)
        ensures
            r == self.spec_failure_kind(),
    {
        match self {
            UserInfoError::Credential(_) => ApplicationFailureKind::Credential,
            UserInfoError::Api { source } => ApplicationFailureKind::Api(source.kind()),
            UserInfoError::ResponseContract { .. } => ApplicationFailureKind::ApiContract,
            UserInfoError::Lookup { source } => source.application_failure_kind(),
        }
    }
}

/// Reports lookup failures of the detail call as the information command's
/// own API and contract failures; every other lookup failure is kept whole.
pub fn map_lookup_error(source: UserLookupError) -> (r: UserInfoError)
    ensures
        match source {
            UserLookupError::Api { source: s } => r == (UserInfoError::Api { source: s }),
            UserLookupError::LookupContract { problem } => r == (UserInfoError::ResponseContract {
                problem,
            }),
            _ => r == (UserInfoError::Lookup { source }),
        },
        r.spec_failure_kind() == source.spec_application_failure_kind(),
{
    match source {
        UserLookupError::Api { source } => UserInfoError::Api { source },
        UserLookupError::LookupContract { problem } => UserInfoError::ResponseContract { problem },
        source => UserInfoError::Lookup { source },
    }
}

} // verus!
