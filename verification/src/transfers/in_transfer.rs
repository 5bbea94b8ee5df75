//! Adding money to the balance from a standard bank source.
use vstd::prelude::*;

use crate::confirmation::DefaultNoConfirmationError;
use crate::payments::FinancialValidationError;
use crate::shared::{
    Account, ApiOperationFailure, ApplicationFailureKind, CredentialAccessError, CredentialEnvelope,
    Money, PromptFailure,
};
use crate::transfers::model::{CreatedTransferIn, TransferInPlan, TransferInstrument, TransferOptions};
use crate::transfers::selection::TransferInSelectionError;

verus! {

pub const TRANSFER_IN_QUESTION: &'static str =
    "Add this money to the Venmo balance from the selected bank?";

/// The largest amount, in cents, that the add-funds operation is known to accept.
pub const MAX_ADD_FUNDS_CENTS: u64 = 2147483647;

/// A checked add-funds plan together with the session that will carry it out.
pub struct PreparedTransferIn {
    credential: CredentialEnvelope,
    plan: TransferInPlan,
}

impl PreparedTransferIn {
    pub closed spec fn spec_credential(&self) -> CredentialEnvelope {
        self.credential
    }

    pub closed spec fn spec_plan(&self) -> &TransferInPlan {
        &self.plan
    }

    pub fn new(credential: CredentialEnvelope, plan: TransferInPlan) -> (r: Self)
        ensures
            r.spec_credential() == credential,
            *r.spec_plan() == plan,
    {
        PreparedTransferIn { credential, plan }
    }

    pub fn credential(&self) -> (r: &CredentialEnvelope)
        ensures
            *r == self.spec_credential(),
    {
        &self.credential
    }

    pub fn plan(&self) -> (r: &TransferInPlan)
        ensures
            r == self.spec_plan(),
    {
        &self.plan
    }

    pub fn into_parts(self) -> (r: (CredentialEnvelope, TransferInPlan))
        ensures
            r.0 == self.spec_credential(),
            r.1 == *self.spec_plan(),
    {
        (self.credential, self.plan)
    }
}

#[derive(PartialEq, Eq)]
pub struct TransferInResult {
    plan: TransferInPlan,
    created: CreatedTransferIn,
}

impl TransferInResult {
    pub closed spec fn spec_plan(&self) -> &TransferInPlan {
        &self.plan
    }

    pub closed spec fn spec_created(&self) -> &CreatedTransferIn {
        &self.created
    }

    pub fn new(plan: TransferInPlan, created: CreatedTransferIn) -> (r: Self)
        ensures
            *r.spec_plan() == plan,
            *r.spec_created() == created,
    {
        TransferInResult { plan, created }
    }

    pub fn plan(&self) -> (r: &TransferInPlan)
        ensures
            r == self.spec_plan(),
    {
        &self.plan
    }

    pub fn created(&self) -> (r: &CreatedTransferIn)
        ensures
            r == self.spec_created(),
    {
        &self.created
    }
}

#[derive(Clone, Debug, PartialEq, Eq)]
pub enum TransferInError {
    Credential(CredentialAccessError),
    CurrentAccount { source: ApiOperationFailure },
    Validation(FinancialValidationError),
    Options { source: ApiOperationFailure },
    Selection(TransferInSelectionError),
    AmountTooLarge,
    MissingAmountLimit,
    AmountBelowMinimum { minimum_cents: u64 },
    AmountAboveMaximum { maximum_cents: u64 },
    ConfirmationRequired,
    ConfirmationDeclined,
    Confirmation { source: PromptFailure },
    Create { source: ApiOperationFailure },
}

impl TransferInError {
    pub open spec fn spec_failure_kind(&self) -> ApplicationFailureKind {
        match self {
            TransferInError::Credential(_) => ApplicationFailureKind::Credential,
            TransferInError::CurrentAccount { source } => ApplicationFailureKind::Api(source.kind),
            TransferInError::Options { source } => ApplicationFailureKind::Api(source.kind),
            TransferInError::Create { source } => ApplicationFailureKind::Api(source.kind),
            TransferInError::Validation(source) => source.spec_failure_kind(),
            TransferInError::Selection(source) => source.spec_failure_kind(),
            TransferInError::MissingAmountLimit => ApplicationFailureKind::ApiContract,
            TransferInError::AmountTooLarge => ApplicationFailureKind::Usage,
            TransferInError::AmountBelowMinimum { .. } => ApplicationFailureKind::Usage,
            TransferInError::AmountAboveMaximum { .. } => ApplicationFailureKind::Usage,
            TransferInError::ConfirmationRequired => ApplicationFailureKind::Usage,
            TransferInError::ConfirmationDeclined => ApplicationFailureKind::Cancelled,
            TransferInError::Confirmation { source } => source.kind,
        }
    }

    #[verifier::when_used_as_spec(spec_failure_kind)]
    pub fn failure_kind(&self) -> (r: ApplicationFailureKind)
        ensures
            r == self.spec_failure_kind(),
    {
        match self {
            TransferInError::Credential(_) => ApplicationFailureKind::Credential,
            TransferInError::CurrentAccount { source } => ApplicationFailureKind::Api(
                source.kind(),
            ),
            TransferInError::Options { source } => ApplicationFailureKind::Api(source.kind()),
            TransferInError::Create { source } => ApplicationFailureKind::Api(source.kind()),
            TransferInError::Validation(source) => source.failure_kind(),
            TransferInError::Selection(source) => source.failure_kind(),
            TransferInError::MissingAmountLimit => ApplicationFailureKind::ApiContract,
            TransferInError::AmountTooLarge => ApplicationFailureKind::Usage,
            TransferInError::AmountBelowMinimum { .. } => ApplicationFailureKind::Usage,
            TransferInError::AmountAboveMaximum { .. } => ApplicationFailureKind::Usage,
            TransferInError::ConfirmationRequired => ApplicationFailureKind::Usage,
            TransferInError::ConfirmationDeclined => ApplicationFailureKind::Cancelled,
            TransferInError::Confirmation { source } => source.kind,
        }
    }

    /// The add-funds failure that a refused confirmation amounts to.
    pub fn from_confirmation(error: DefaultNoConfirmationError) -> (r: TransferInError)
        ensures
            r == match error {
                DefaultNoConfirmationError::Required => TransferInError::ConfirmationRequired,
                DefaultNoConfirmationError::Declined => TransferInError::ConfirmationDeclined,
                DefaultNoConfirmationError::Prompt(source) => TransferInError::Confirmation {
                    source,
                },
            },
    {
        match error {
            DefaultNoConfirmationError::Required => TransferInError::ConfirmationRequired,
            DefaultNoConfirmationError::Declined => TransferInError::ConfirmationDeclined,
            DefaultNoConfirmationError::Prompt(source) => TransferInError::Confirmation {
                source,
            },
        }
    }
}

/// The amount must fit the add-funds integer range; this is checked before
/// anything is read.
pub fn check_amount_range(amount: Money) -> (r: Result<(), TransferInError>)
    ensures
        r is Ok <==> amount.spec_cents() <= MAX_ADD_FUNDS_CENTS,
        r is Err ==> r == Err::<(), TransferInError>(TransferInError::AmountTooLarge),
{
    if amount.cents() > MAX_ADD_FUNDS_CENTS {
        return Err(TransferInError::AmountTooLarge);
    }
    Ok(())
}

/// The amount must lie within the current add-funds limits; the minimum
/// must be known, the maximum applies when it is.
pub fn check_add_funds_limits(options: &TransferOptions, amount: Money) -> (r: Result<
    (),
    TransferInError,
>)
    ensures
        options.spec_add_funds_minimum_cents() is None ==> r == Err::<(), TransferInError>(
            TransferInError::MissingAmountLimit,
        ),
        options.spec_add_funds_minimum_cents() is Some && amount.spec_cents()
            < options.spec_add_funds_minimum_cents()->Some_0 ==> r == Err::<(), TransferInError>(
            TransferInError::AmountBelowMinimum {
                minimum_cents: options.spec_add_funds_minimum_cents()->Some_0,
            },
        ),
        options.spec_add_funds_minimum_cents() is Some && amount.spec_cents()
            >= options.spec_add_funds_minimum_cents()->Some_0 ==> match options.spec_add_funds_maximum_cents() {
            Some(max) => if amount.spec_cents() > max {
                r == Err::<(), TransferInError>(
                    TransferInError::AmountAboveMaximum { maximum_cents: max },
                )
            } else {
                r is Ok
            },
            None => r is Ok,
        },
{
    let minimum = match options.add_funds_minimum_cents() {
        Some(m) => m,
        None => {
            return Err(TransferInError::MissingAmountLimit);
        },
    };
    if amount.cents() < minimum {
        return Err(TransferInError::AmountBelowMinimum { minimum_cents: minimum });
    }
    if let Some(maximum) = options.add_funds_maximum_cents() {
        if amount.cents() > maximum {
            return Err(TransferInError::AmountAboveMaximum { maximum_cents: maximum });
        }
    }
    Ok(())
}

/// Builds the plan once every check has passed.
pub fn prepare_transfer_in(
    credential: CredentialEnvelope,
    account: Account,
    amount: Money,
    source: TransferInstrument,
) -> (r: PreparedTransferIn)
    ensures
        r.spec_credential() == credential,
        r.spec_plan().spec_account() == account,
        r.spec_plan().spec_amount() == amount,
        r.spec_plan().spec_source() == source@,
{
    PreparedTransferIn::new(credential, TransferInPlan::new(account, amount, source))
}

} // verus!
