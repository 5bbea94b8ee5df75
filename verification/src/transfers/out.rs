//! Transferring balance out to the account's standard bank.
use vstd::prelude::*;

use crate::confirmation::DefaultNoConfirmationError;
use crate::payments::FinancialValidationError;
use crate::shared::{
    Account, ApiOperationFailure, ApplicationFailureKind, CredentialAccessError, CredentialEnvelope,
    Money, PromptFailure,
};
use crate::transfers::model::{CreatedTransfer, TransferInstrument, TransferOutPlan, TransferSpeed};
use crate::transfers::selection::TransferSelectionError;
use crate::wallet::model::Balance;

verus! {

pub const TRANSFER_OUT_QUESTION: &'static str = "Transfer this balance to the selected bank?";

/// A checked transfer plan together with the session that will carry it out.
pub struct PreparedTransferOut {
    credential: CredentialEnvelope,
    plan: TransferOutPlan,
}

impl PreparedTransferOut {
    pub closed spec fn spec_credential(&self) -> CredentialEnvelope {
        self.credential
    }

    pub closed spec fn spec_plan(&self) -> &TransferOutPlan {
        &self.plan
    }

    pub fn new(credential: CredentialEnvelope, plan: TransferOutPlan) -> (r: Self)
        ensures
            r.spec_credential() == credential,
            *r.spec_plan() == plan,
    {
        PreparedTransferOut { credential, plan }
    }

    pub fn credential(&self) -> (r: &CredentialEnvelope)
        ensures
            *r == self.spec_credential(),
    {
        &self.credential
    }

    pub fn plan(&self) -> (r: &TransferOutPlan)
        ensures
            r == self.spec_plan(),
    {
        &self.plan
    }

    pub fn into_parts(self) -> (r: (CredentialEnvelope, TransferOutPlan))
        ensures
            r.0 == self.spec_credential(),
            r.1 == *self.spec_plan(),
    {
        (self.credential, self.plan)
    }
}

#[derive(PartialEq, Eq)]
pub struct TransferOutResult {
    plan: TransferOutPlan,
    created: CreatedTransfer,
}

impl TransferOutResult {
    pub closed spec fn spec_plan(&self) -> &TransferOutPlan {
        &self.plan
    }

    pub closed spec fn spec_created(&self) -> &CreatedTransfer {
        &self.created
    }

    pub fn new(plan: TransferOutPlan, created: CreatedTransfer) -> (r: Self)
        ensures
            *r.spec_plan() == plan,
            *r.spec_created() == created,
    {
        TransferOutResult { plan, created }
    }

    pub fn plan(&self) -> (r: &TransferOutPlan)
        ensures
            r == self.spec_plan(),
    {
        &self.plan
    }

    pub fn created(&self) -> (r: &CreatedTransfer)
        ensures
            r == self.spec_created(),
    {
        &self.created
    }
}

#[derive(Clone, Debug, PartialEq, Eq)]
pub enum TransferOutError {
    Credential(CredentialAccessError),
    CurrentAccount { source: ApiOperationFailure },
    Validation(FinancialValidationError),
    Balance { source: ApiOperationFailure },
    Options { source: ApiOperationFailure },
    Selection(TransferSelectionError),
    InsufficientBalance,
    UnsupportedSpeed,
    ConfirmationRequired,
    ConfirmationDeclined,
    Confirmation { source: PromptFailure },
    Create { source: ApiOperationFailure },
}

impl TransferOutError {
    pub open spec fn spec_failure_kind(&self) -> ApplicationFailureKind {
        match self {
            TransferOutError::Credential(_) => ApplicationFailureKind::Credential,
            TransferOutError::CurrentAccount { source } => ApplicationFailureKind::Api(source.kind),
            TransferOutError::Balance { source } => ApplicationFailureKind::Api(source.kind),
            TransferOutError::Options { source } => ApplicationFailureKind::Api(source.kind),
            TransferOutError::Create { source } => ApplicationFailureKind::Api(source.kind),
            TransferOutError::Validation(source) => source.spec_failure_kind(),
            TransferOutError::Selection(source) => source.spec_failure_kind(),
            TransferOutError::InsufficientBalance => ApplicationFailureKind::Usage,
            TransferOutError::UnsupportedSpeed => ApplicationFailureKind::Usage,
            TransferOutError::ConfirmationRequired => ApplicationFailureKind::Usage,
            TransferOutError::ConfirmationDeclined => ApplicationFailureKind::Cancelled,
            TransferOutError::Confirmation { source } => source.kind,
        }
    }

    #[verifier::when_used_as_spec(spec_failure_kind)]
    pub fn failure_kind(&self) -> (r: ApplicationFailureKind)
        ensures
            r == self.spec_failure_kind(),
    {
        match self {
            TransferOutError::Credential(_) => ApplicationFailureKind::Credential,
            TransferOutError::CurrentAccount { source } => ApplicationFailureKind::Api(
                source.kind(),
            ),
            TransferOutError::Balance { source } => ApplicationFailureKind::Api(source.kind()),
            TransferOutError::Options { source } => ApplicationFailureKind::Api(source.kind()),
            TransferOutError::Create { source } => ApplicationFailureKind::Api(source.kind()),
            TransferOutError::Validation(source) => source.failure_kind(),
            TransferOutError::Selection(source) => source.failure_kind(),
            TransferOutError::InsufficientBalance => ApplicationFailureKind::Usage,
            TransferOutError::UnsupportedSpeed => ApplicationFailureKind::Usage,
            TransferOutError::ConfirmationRequired => ApplicationFailureKind::Usage,
            TransferOutError::ConfirmationDeclined => ApplicationFailureKind::Cancelled,
            TransferOutError::Confirmation { source } => source.kind,
        }
    }

    /// The transfer failure that a refused confirmation amounts to.
    pub fn from_confirmation(error: DefaultNoConfirmationError) -> (r: TransferOutError)
        ensures
            r == match error {
                DefaultNoConfirmationError::Required => TransferOutError::ConfirmationRequired,
                DefaultNoConfirmationError::Declined => TransferOutError::ConfirmationDeclined,
                DefaultNoConfirmationError::Prompt(source) => TransferOutError::Confirmation {
                    source,
                },
            },
    {
        match error {
            DefaultNoConfirmationError::Required => TransferOutError::ConfirmationRequired,
            DefaultNoConfirmationError::Declined => TransferOutError::ConfirmationDeclined,
            DefaultNoConfirmationError::Prompt(source) => TransferOutError::Confirmation {
                source,
            },
        }
    }
}

/// Only standard transfers out are supported; this is checked before
/// anything is read.
pub fn check_speed(speed: TransferSpeed) -> (r: Result<(), TransferOutError>)
    ensures
        r is Ok <==> speed == TransferSpeed::Standard,
        r is Err ==> r == Err::<(), TransferOutError>(TransferOutError::UnsupportedSpeed),
{
    if speed != TransferSpeed::Standard {
        return Err(TransferOutError::UnsupportedSpeed);
    }
    Ok(())
}

/// The amount must not exceed the available balance.
pub fn check_balance(balance: &Balance, amount: Money) -> (r: Result<(), TransferOutError>)
    ensures
        r is Ok <==> amount.spec_cents() <= balance.available.cents,
        r is Err ==> r == Err::<(), TransferOutError>(TransferOutError::InsufficientBalance),
{
    let amount_cents = amount.cents() as i128;
    if (balance.available().cents() as i128) < amount_cents {
        return Err(TransferOutError::InsufficientBalance);
    }
    Ok(())
}

/// Builds the plan once every check has passed.
pub fn prepare_transfer_out(
    credential: CredentialEnvelope,
    account: Account,
    balance: Balance,
    amount: Money,
    speed: TransferSpeed,
    destination: TransferInstrument,
) -> (r: PreparedTransferOut)
    ensures
        r.spec_credential() == credential,
        r.spec_plan().spec_account() == account,
        r.spec_plan().spec_balance() == balance,
        r.spec_plan().spec_amount() == amount,
        r.spec_plan().spec_speed() == speed,
        r.spec_plan().spec_destination() == destination@,
{
    PreparedTransferOut::new(
        credential,
        TransferOutPlan::new(account, balance, amount, speed, destination),
    )
}

} // verus!
