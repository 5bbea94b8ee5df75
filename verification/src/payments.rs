//! Checks shared by the money-moving commands: the signed-in account must be
//! the stored one, and a counterparty must be a personal profile.
use vstd::prelude::*;

use crate::people::user::{User, UserProfileKind};
use crate::shared::{
    spec_parse_opaque_id, Account, ApplicationFailureKind, CredentialEnvelope, OpaqueIdParseError,
    PaymentMethodId,
};
use crate::text::{contains_control, contains_whitespace};
use crate::wallet::model::{PaymentMethod, PaymentMethodView};

verus! {

#[derive(Clone, Copy, Debug, PartialEq, Eq, Structural)]
pub enum FinancialValidationError {
    /// The service reports a different signed-in account than the stored credential.
    AccountMismatch,
    /// The counterparty record did not say what kind of profile it is.
    MissingProfileType,
    /// The counterparty is not a personal profile.
    UnsupportedProfileType,
}

impl FinancialValidationError {
    pub open spec fn spec_failure_kind(self) -> ApplicationFailureKind {
        match self {
            FinancialValidationError::AccountMismatch => ApplicationFailureKind::Credential,
            FinancialValidationError::MissingProfileType => ApplicationFailureKind::ApiContract,
            FinancialValidationError::UnsupportedProfileType => ApplicationFailureKind::Usage,
        }
    }

    #[verifier::when_used_as_spec(spec_failure_kind)]
    pub fn failure_kind(self) -> (r: ApplicationFailureKind)
        ensures
            r == self.spec_failure_kind(),
    {
        match self {
            FinancialValidationError::AccountMismatch => ApplicationFailureKind::Credential,
            FinancialValidationError::MissingProfileType => ApplicationFailureKind::ApiContract,
            FinancialValidationError::UnsupportedProfileType => ApplicationFailureKind::Usage,
        }
    }
}

/// The service's current account must be the account of the stored credential.
pub fn validate_account(credential: &CredentialEnvelope, account: &Account) -> (r: Result<
    (),
    FinancialValidationError,
>)
    ensures
        r is Ok <==> account.user_id@ == credential.user_id@,
        r is Err ==> r == Err::<(), FinancialValidationError>(
            FinancialValidationError::AccountMismatch,
        ),
{
    if account.user_id().same_as(credential.user_id()) {
        Ok(())
    } else {
        Err(FinancialValidationError::AccountMismatch)
    }
}

/// A counterparty must be a personal profile.
pub fn validate_recipient(recipient: &User) -> (r: Result<(), FinancialValidationError>)
    ensures
        recipient@.profile_kind == Some(UserProfileKind::Personal) <==> r is Ok,
        recipient@.profile_kind is None ==> r == Err::<(), FinancialValidationError>(
            FinancialValidationError::MissingProfileType,
        ),
        recipient@.profile_kind matches Some(k) && k != UserProfileKind::Personal ==> r == Err::<
            (),
            FinancialValidationError,
        >(FinancialValidationError::UnsupportedProfileType),
{
    match recipient.profile_kind() {
        Some(UserProfileKind::Personal) => Ok(()),
        Some(_) => Err(FinancialValidationError::UnsupportedProfileType),
        None => Err(FinancialValidationError::MissingProfileType),
    }
}

/// How a funding source was chosen.
#[derive(Clone, Copy, Debug, PartialEq, Eq, Structural)]
pub enum PeerFundingSourceSelection {
    /// Chosen by the library from the eligible methods.
    Automatic,
    /// Named by the user.
    Explicit,
}

/// The settlement state of a payment.
#[derive(Clone, Copy, Debug, PartialEq, Eq, Structural)]
pub enum FinancialStatus {
    Pending,
    Held,
    Settled,
    Failed,
    Cancelled,
}

/// The method that funds a peer payment, and whether it is external to the
/// Venmo balance.
#[derive(Debug, PartialEq, Eq)]
pub struct PeerFundingSource {
    method: PaymentMethod,
    external: bool,
}

impl PeerFundingSource {
    pub closed spec fn spec_method(&self) -> PaymentMethodView {
        self.method@
    }

    pub closed spec fn spec_is_external(&self) -> bool {
        self.external
    }

    /// A source funded from the Venmo balance.
    pub fn method(method: PaymentMethod) -> (r: PeerFundingSource)
        ensures
            r.spec_method() == method@,
            !r.spec_is_external(),
    {
        PeerFundingSource { method, external: false }
    }

    /// A source funded from an external bank or card.
    pub fn external(method: PaymentMethod) -> (r: PeerFundingSource)
        ensures
            r.spec_method() == method@,
            r.spec_is_external(),
    {
        PeerFundingSource { method, external: true }
    }

    pub fn payment_method(&self) -> (r: &PaymentMethod)
        ensures
            r@ == self.spec_method(),
    {
        &self.method
    }

    pub fn is_external(&self) -> (r: bool)
        ensures
            r == self.spec_is_external(),
    {
        self.external
    }

    pub fn id(&self) -> (r: &PaymentMethodId)
        ensures
            r@ == self.spec_method().id,
    {
        self.method.id()
    }
}

/// The token that proves a funding source was found eligible.
#[derive(Debug, PartialEq, Eq)]
pub struct EligibilityToken {
    value: String,
}

impl View for EligibilityToken {
    type V = Seq<char>;

    closed spec fn view(&self) -> Seq<char> {
        self.value@
    }
}

impl EligibilityToken {
    /// Accepts a token with the shape of a service identifier.
    pub fn parse_owned(value: String) -> (r: Result<EligibilityToken, OpaqueIdParseError>)
        ensures
            match spec_parse_opaque_id(value@) {
                Ok(v) => r is Ok && r->Ok_0@ == v,
                Err(e) => r == Err::<EligibilityToken, OpaqueIdParseError>(e),
            },
    {
        if value.as_str().is_empty() {
            return Err(OpaqueIdParseError::Empty);
        }
        if contains_control(value.as_str()) || contains_whitespace(value.as_str()) {
            return Err(OpaqueIdParseError::InvalidCharacter);
        }
        Ok(EligibilityToken { value })
    }

    pub fn as_str(&self) -> (r: &str)
        ensures
            r@ == self@,
    {
        self.value.as_str()
    }
}

} // verus!
