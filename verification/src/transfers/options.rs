//! Reading the transfer options.
use vstd::prelude::*;

use crate::shared::{ApiOperationFailure, CredentialAccessError, ReadFailureKind};
use crate::transfers::model::TransferOptions;

verus! {

#[derive(PartialEq, Eq)]
pub struct TransferOptionsResult {
    options: TransferOptions,
}

impl TransferOptionsResult {
    pub closed spec fn spec_options(&self) -> &TransferOptions {
        &self.options
    }

    pub fn new(options: TransferOptions) -> (r: Self)
        ensures
            *r.spec_options() == options,
    {
        TransferOptionsResult { options }
    }

    pub fn options(&self) -> (r: &TransferOptions)
        ensures
            r == self.spec_options(),
    {
        &self.options
    }
}

#[derive(Clone, Debug, PartialEq, Eq)]
pub enum TransferOptionsError {
    Credential(CredentialAccessError),
    Api { source: ApiOperationFailure },
}

impl TransferOptionsError {
    pub open spec fn spec_failure_kind(&self) -> ReadFailureKind {
        match self {
            TransferOptionsError::Credential(_) => ReadFailureKind::Credential,
            TransferOptionsError::Api { source } => ReadFailureKind::Api(source.kind),
        }
    }

    #[verifier::when_used_as_spec(spec_failure_kind)]
    pub fn failure_kind(&self) -> (r: ReadFailureKind)
        ensures
            r == self.spec_failure_kind(),
    {
        match self {
            TransferOptionsError::Credential(_) => ReadFailureKind::Credential,
            TransferOptionsError::Api { source } => ReadFailureKind::Api(source.kind()),
        }
    }
}

} // verus!
