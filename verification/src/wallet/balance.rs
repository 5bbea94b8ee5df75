//! Reading the wallet balance.
use vstd::prelude::*;

use crate::shared::{ApiOperationFailure, CredentialAccessError, ReadFailureKind};
use crate::wallet::model::Balance;

verus! {

#[derive(Debug, PartialEq, Eq)]
pub struct BalanceResult {
    balance: Balance,
}

impl BalanceResult {
    pub closed spec fn spec_balance(&self) -> Balance {
        self.balance
    }

    pub fn new(balance: Balance) -> (r: Self)
        ensures
            r.spec_balance() == balance,
    {
        BalanceResult { balance }
    }

    pub fn balance(&self) -> (r: &Balance)
        ensures
            *r == self.spec_balance(),
    {
        &self.balance
    }
}

#[derive(Clone, Debug, PartialEq, Eq)]
pub enum BalanceError {
    Credential(CredentialAccessError),
    Api { source: ApiOperationFailure },
}

impl BalanceError {
    pub open spec fn spec_failure_kind(&self) -> ReadFailureKind {
        match self {
            BalanceError::Credential(_) => ReadFailureKind::Credential,
            BalanceError::Api { source } => ReadFailureKind::Api(source.kind),
        }
    }

    #[verifier::when_used_as_spec(spec_failure_kind)]
    pub fn failure_kind(&self) -> (r: ReadFailureKind)
        ensures
            r == self.spec_failure_kind(),
    {
        match self {
            BalanceError::Credential(_) => ReadFailureKind::Credential,
            BalanceError::Api { source } => ReadFailureKind::Api(source.kind()),
        }
    }
}

} // verus!
