//! Listing the stored payment methods.
use vstd::prelude::*;

use crate::first_seen::views;
use crate::shared::{ApiOperationFailure, ApplicationFailureKind, CredentialAccessError};
use crate::wallet::model::{PaymentMethod, PaymentMethodView};

verus! {

#[derive(Debug, PartialEq, Eq)]
pub struct PaymentMethodsResult {
    methods: Vec<PaymentMethod>,
}

impl PaymentMethodsResult {
    pub closed spec fn spec_methods(&self) -> Seq<PaymentMethodView> {
        views(self.methods@)
    }

    pub fn from_methods(methods: Vec<PaymentMethod>) -> (r: Self)
        ensures
            r.spec_methods() == views(methods@),
    {
        PaymentMethodsResult { methods }
    }

    pub fn methods(&self) -> (r: &[PaymentMethod])
        ensures
            views(r@) == self.spec_methods(),
    {
        self.methods.as_slice()
    }
}

#[derive(Clone, Debug, PartialEq, Eq)]
pub enum PaymentMethodsError {
    Credential(CredentialAccessError),
    Api { source: ApiOperationFailure },
}

impl PaymentMethodsError {
    pub open spec fn spec_failure_kind(&self) -> ApplicationFailureKind {
        match self {
            PaymentMethodsError::Credential(_) => ApplicationFailureKind::Credential,
            PaymentMethodsError::Api { source } => ApplicationFailureKind::Api(source.kind),
        }
    }

    #[verifier::when_used_as_spec(spec_failure_kind)]
    pub fn failure_kind(&self) -> (r: ApplicationFailureKind)
        ensures
            r == self.spec_failure_kind(),
    {
        match self {
            PaymentMethodsError::Credential(_) => ApplicationFailureKind::Credential,
            PaymentMethodsError::Api { source } => ApplicationFailureKind::Api(source.kind()),
        }
    }
}

} // verus!
