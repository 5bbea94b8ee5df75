//! Accepting an incoming request: paying its requester from a checked
//! funding source, optionally with purchase protection.
use vstd::prelude::*;

use crate::confirmation::DefaultNoConfirmationError;
use crate::payments::{validate_recipient, FinancialValidationError};
use crate::people::user::{User, UserProfileKind};
use crate::requests::model::{RequestRecord, RequestRecordView};
use crate::requests::plans::{AcceptRequestPlan, AcceptedRequest, RequestApprovalFees};
use crate::requests::preflight::RequestMutationPreflightError;
use crate::requests::validation::{
    as_result, completeness_problem, validate_complete_request, validate_private_audience,
    RequestMutationValidationError,
};
use crate::shared::{
    Account, ApiOperationFailure, ApplicationFailureKind, CredentialEnvelope, Money,
    PaymentMethodId, PromptFailure,
};
use crate::wallet::model::Balance;

verus! {

pub const ACCEPT_QUESTION: &'static str = "Accept this request and pay its requester?";

/// A checked acceptance plan together with the session that will carry it out.
pub struct PreparedAccept {
    credential: CredentialEnvelope,
    plan: AcceptRequestPlan,
}

impl PreparedAccept {
    pub closed spec fn spec_credential(&self) -> CredentialEnvelope {
        self.credential
    }

    pub closed spec fn spec_plan(&self) -> &AcceptRequestPlan {
        &self.plan
    }

    pub fn new(credential: CredentialEnvelope, plan: AcceptRequestPlan) -> (r: Self)
        ensures
            r.spec_credential() == credential,
            *r.spec_plan() == plan,
    {
        PreparedAccept { credential, plan }
    }

    pub fn credential(&self) -> (r: &CredentialEnvelope)
        ensures
            *r == self.spec_credential(),
    {
        &self.credential
    }

    pub fn plan(&self) -> (r: &AcceptRequestPlan)
        ensures
            r == self.spec_plan(),
    {
        &self.plan
    }

    pub fn into_parts(self) -> (r: (CredentialEnvelope, AcceptRequestPlan))
        ensures
            r.0 == self.spec_credential(),
            r.1 == *self.spec_plan(),
    {
        (self.credential, self.plan)
    }
}

#[derive(PartialEq, Eq)]
pub struct AcceptResult {
    plan: AcceptRequestPlan,
    accepted: AcceptedRequest,
}

impl AcceptResult {
    pub closed spec fn spec_plan(&self) -> &AcceptRequestPlan {
        &self.plan
    }

    pub closed spec fn spec_accepted(&self) -> &AcceptedRequest {
        &self.accepted
    }

    pub fn new(plan: AcceptRequestPlan, accepted: AcceptedRequest) -> (r: Self)
        ensures
            *r.spec_plan() == plan,
            *r.spec_accepted() == accepted,
    {
        AcceptResult { plan, accepted }
    }

    pub fn plan(&self) -> (r: &AcceptRequestPlan)
        ensures
            r == self.spec_plan(),
    {
        &self.plan
    }

    pub fn accepted(&self) -> (r: &AcceptedRequest)
        ensures
            r == self.spec_accepted(),
    {
        &self.accepted
    }
}

/// Why the additional one-time-passcode verification of a payment failed.
#[derive(Clone, Copy, Debug, PartialEq, Eq, Structural)]
pub enum StepUpFailure {
    /// The service still asked for verification after it was completed.
    StillRequired,
    /// The verification itself failed, in this category.
    Failed(ApplicationFailureKind),
}

impl StepUpFailure {
    pub open spec fn spec_failure_kind(self) -> ApplicationFailureKind {
        match self {
            StepUpFailure::StillRequired => ApplicationFailureKind::ApiContract,
            StepUpFailure::Failed(kind) => kind,
        }
    }

    #[verifier::when_used_as_spec(spec_failure_kind)]
    pub fn failure_kind(self) -> (r: ApplicationFailureKind)
        ensures
            r == self.spec_failure_kind(),
    {
        match self {
            StepUpFailure::StillRequired => ApplicationFailureKind::ApiContract,
            StepUpFailure::Failed(kind) => kind,
        }
    }
}

#[derive(Clone, Debug, PartialEq, Eq)]
pub enum AcceptError {
    Preflight(RequestMutationPreflightError),
    AccountOrRequester(FinancialValidationError),
    RequesterLookup { source: ApiOperationFailure },
    RequesterIdentityMismatch,
    RequestValidation(RequestMutationValidationError),
    Balance { source: ApiOperationFailure },
    NotificationLookup { source: ApiOperationFailure },
    FundingMethods { source: ApiOperationFailure },
    FundingSelection { kind: ApplicationFailureKind },
    Eligibility { source: ApiOperationFailure },
    ProtectionFeeExceedsAmount,
    ConfirmationRequired,
    ConfirmationDeclined,
    Confirmation { source: PromptFailure },
    Accept { source: ApiOperationFailure },
    StepUp(StepUpFailure),
}

impl AcceptError {
    pub open spec fn spec_failure_kind(&self) -> ApplicationFailureKind {
        match self {
            AcceptError::Preflight(source) => source.spec_failure_kind(),
            AcceptError::RequesterLookup { source } => ApplicationFailureKind::Api(source.kind),
            AcceptError::Balance { source } => ApplicationFailureKind::Api(source.kind),
            AcceptError::NotificationLookup { source } => ApplicationFailureKind::Api(source.kind),
            AcceptError::FundingMethods { source } => ApplicationFailureKind::Api(source.kind),
            AcceptError::Eligibility { source } => ApplicationFailureKind::Api(source.kind),
            AcceptError::Accept { source } => ApplicationFailureKind::Api(source.kind),
            AcceptError::AccountOrRequester(source) => source.spec_failure_kind(),
            AcceptError::FundingSelection { kind } => *kind,
            AcceptError::RequesterIdentityMismatch => ApplicationFailureKind::ApiContract,
            AcceptError::ProtectionFeeExceedsAmount => ApplicationFailureKind::ApiContract,
            AcceptError::RequestValidation(source) => source.spec_failure_kind(),
            AcceptError::ConfirmationRequired => ApplicationFailureKind::Usage,
            AcceptError::ConfirmationDeclined => ApplicationFailureKind::Cancelled,
            AcceptError::Confirmation { source } => source.kind,
            AcceptError::StepUp(source) => source.spec_failure_kind(),
        }
    }

    #[verifier::when_used_as_spec(spec_failure_kind)]
    pub fn failure_kind(&self) -> (r: ApplicationFailureKind)
        ensures
            r == self.spec_failure_kind(),
    {
        match self {
            AcceptError::Preflight(source) => source.failure_kind(),
            AcceptError::RequesterLookup { source } => ApplicationFailureKind::Api(source.kind()),
            AcceptError::Balance { source } => ApplicationFailureKind::Api(source.kind()),
            AcceptError::NotificationLookup { source } => ApplicationFailureKind::Api(
                source.kind(),
            ),
            AcceptError::FundingMethods { source } => ApplicationFailureKind::Api(source.kind()),
            AcceptError::Eligibility { source } => ApplicationFailureKind::Api(source.kind()),
            AcceptError::Accept { source } => ApplicationFailureKind::Api(source.kind()),
            AcceptError::AccountOrRequester(source) => source.failure_kind(),
            AcceptError::FundingSelection { kind } => *kind,
            AcceptError::RequesterIdentityMismatch => ApplicationFailureKind::ApiContract,
            AcceptError::ProtectionFeeExceedsAmount => ApplicationFailureKind::ApiContract,
            AcceptError::RequestValidation(source) => source.failure_kind(),
            AcceptError::ConfirmationRequired => ApplicationFailureKind::Usage,
            AcceptError::ConfirmationDeclined => ApplicationFailureKind::Cancelled,
            AcceptError::Confirmation { source } => source.kind,
            AcceptError::StepUp(source) => source.failure_kind(),
        }
    }

    /// The acceptance failure that a refused confirmation amounts to.
    pub fn from_confirmation(error: DefaultNoConfirmationError) -> (r: AcceptError)
        ensures
            r == match error {
                DefaultNoConfirmationError::Required => AcceptError::ConfirmationRequired,
                DefaultNoConfirmationError::Declined => AcceptError::ConfirmationDeclined,
                DefaultNoConfirmationError::Prompt(source) => AcceptError::Confirmation { source },
            },
    {
        match error {
            DefaultNoConfirmationError::Required => AcceptError::ConfirmationRequired,
            DefaultNoConfirmationError::Declined => AcceptError::ConfirmationDeclined,
            DefaultNoConfirmationError::Prompt(source) => AcceptError::Confirmation { source },
        }
    }
}

/// Only requests addressed to a verified private audience can be accepted.
pub fn check_private_audience(request: &RequestRecord) -> (r: Result<(), AcceptError>)
    ensures
        r is Ok <==> request@.audience == Some("private"@),
        r is Err ==> r == Err::<(), AcceptError>(
            AcceptError::RequestValidation(RequestMutationValidationError::UnverifiedAudience),
        ),
{
    match validate_private_audience(request) {
        Ok(()) => Ok(()),
        Err(e) => Err(AcceptError::RequestValidation(e)),
    }
}

/// Checks the authoritative requester record against the request and puts
/// it in the request: same ID, a personal profile, and a complete request
/// once the requester is in place.
pub fn check_requester(request: RequestRecord, requester: User) -> (r: Result<
    RequestRecord,
    AcceptError,
>)
    ensures
        requester@.user_id != request@.counterparty.user_id ==> r == Err::<
            RequestRecord,
            AcceptError,
        >(AcceptError::RequesterIdentityMismatch),
        requester@.user_id == request@.counterparty.user_id && requester@.profile_kind is None ==> r
            == Err::<RequestRecord, AcceptError>(
            AcceptError::AccountOrRequester(FinancialValidationError::MissingProfileType),
        ),
        requester@.profile_kind matches Some(k) && requester@.user_id
            == request@.counterparty.user_id && k != UserProfileKind::Personal ==> r == Err::<
            RequestRecord,
            AcceptError,
        >(AcceptError::AccountOrRequester(FinancialValidationError::UnsupportedProfileType)),
        requester@.user_id == request@.counterparty.user_id && requester@.profile_kind == Some(
            UserProfileKind::Personal,
        ) ==> match completeness_problem(
            RequestRecordView { counterparty: requester@, ..request@ },
        ) {
            Some(e) => r == Err::<RequestRecord, AcceptError>(AcceptError::RequestValidation(e)),
            None => r is Ok && r->Ok_0@ == (RequestRecordView {
                counterparty: requester@,
                ..request@
            }),
        },
{
    if !requester.user_id().same_as(request.counterparty().user_id()) {
        return Err(AcceptError::RequesterIdentityMismatch);
    }
    if let Err(e) = validate_recipient(&requester) {
        return Err(AcceptError::AccountOrRequester(e));
    }
    let request = request.with_counterparty(requester);
    if let Err(e) = validate_complete_request(&request) {
        return Err(AcceptError::RequestValidation(e));
    }
    Ok(request)
}

/// The fees that an acceptance carries: none without protection; with
/// protection, the eligible fees, which must not exceed the request amount.
pub fn protection_fees(fees: RequestApprovalFees, amount_cents: u64, protect: bool) -> (r: Result<
    RequestApprovalFees,
    AcceptError,
>)
    ensures
        !protect ==> (r matches Ok(f) && f is Omitted),
        protect && fees.spec_total_cents() > amount_cents ==> r == Err::<
            RequestApprovalFees,
            AcceptError,
        >(AcceptError::ProtectionFeeExceedsAmount),
        protect && fees.spec_total_cents() <= amount_cents ==> r == Ok::<
            RequestApprovalFees,
            AcceptError,
        >(fees),
{
    if protect {
        if fees.total_cents() > amount_cents {
            return Err(AcceptError::ProtectionFeeExceedsAmount);
        }
        Ok(fees)
    } else {
        Ok(RequestApprovalFees::omitted())
    }
}

/// A protected acceptance never charges more than the request: when the
/// fees come from `protection_fees` and go into the plan, the requester
/// receives the amount less the fee, and an unprotected plan carries no fee.
pub proof fn lemma_protected_proceeds(plan: AcceptRequestPlan, amount_cents: u64)
    requires
        plan.spec_funding() is Some,
        plan.spec_request().amount.spec_cents() == amount_cents,
        plan.spec_funding()->Some_0.protected ==> plan.spec_funding()->Some_0.fees.total_cents()
            <= amount_cents,
    ensures
        plan.spec_funding()->Some_0.protected ==> plan.spec_recipient_proceeds_cents() == Some(
            (amount_cents - plan.spec_funding()->Some_0.fees.total_cents()) as u64,
        ),
        !plan.spec_funding()->Some_0.protected ==> plan.spec_approval_fee_cents() is None
            && plan.spec_recipient_proceeds_cents() is None,
{
}

/// What the service answered to one acceptance attempt.
#[derive(PartialEq, Eq)]
pub enum RequestAcceptanceOutcome {
    Accepted(AcceptedRequest),
    /// The payment needs a one-time passcode for this verification session.
    OtpStepUpRequired(String),
}

/// What follows an acceptance attempt.
#[derive(PartialEq, Eq)]
pub enum AcceptanceNext {
    /// The request is accepted.
    Done(AcceptedRequest),
    /// Complete the passcode verification of this session, then retry once.
    StepUp(String),
}

/// The first attempt either accepts the request or asks for a verification,
/// after which exactly one more attempt is made.
pub fn after_first_attempt(outcome: RequestAcceptanceOutcome) -> (r: AcceptanceNext)
    ensures
        match outcome {
            RequestAcceptanceOutcome::Accepted(a) => r == AcceptanceNext::Done(a),
            RequestAcceptanceOutcome::OtpStepUpRequired(s) => r == AcceptanceNext::StepUp(s),
        },
{
    match outcome {
        RequestAcceptanceOutcome::Accepted(a) => AcceptanceNext::Done(a),
        RequestAcceptanceOutcome::OtpStepUpRequired(s) => AcceptanceNext::StepUp(s),
    }
}

/// The verified second attempt must accept the request; a second demand
/// for verification is a failure, never a third attempt.
pub fn after_verified_attempt(outcome: RequestAcceptanceOutcome) -> (r: Result<
    AcceptedRequest,
    AcceptError,
>)
    ensures
        match outcome {
            RequestAcceptanceOutcome::Accepted(a) => r == Ok::<AcceptedRequest, AcceptError>(a),
            RequestAcceptanceOutcome::OtpStepUpRequired(_) => r == Err::<
                AcceptedRequest,
                AcceptError,
            >(AcceptError::StepUp(StepUpFailure::StillRequired)),
        },
{
    match outcome {
        RequestAcceptanceOutcome::Accepted(a) => Ok(a),
        RequestAcceptanceOutcome::OtpStepUpRequired(_) => Err(
            AcceptError::StepUp(StepUpFailure::StillRequired),
        ),
    }
}


/// What the acceptance of a checked request needs once the balance is known.
#[derive(Clone, Copy, Debug, PartialEq, Eq, Structural)]
pub enum AcceptPreparationStep {
    /// The available balance covers the request, no source was named and no
    /// protection was asked for: the request is accepted from the balance,
    /// with no funding attached to the plan.
    FromBalance,
    /// The approval notification, the funding sources and the eligibility of
    /// the chosen source are looked up, and the funding goes into the plan.
    ResolveFunding,
}

pub open spec fn spec_accept_next_step(
    available_cents: i64,
    amount_cents: u64,
    source_requested: bool,
    protect: bool,
) -> AcceptPreparationStep {
    if source_requested || protect || available_cents < amount_cents {
        AcceptPreparationStep::ResolveFunding
    } else {
        AcceptPreparationStep::FromBalance
    }
}

/// Decides whether an acceptance needs funding: only when a source is named,
/// protection is asked for, or the available balance does not cover the
/// amount.
pub fn accept_next_step(
    balance: &Balance,
    amount: Money,
    requested_source: Option<&PaymentMethodId>,
    protect: bool,
) -> (r: AcceptPreparationStep)
    ensures
        r == spec_accept_next_step(
            balance.available.cents,
            amount.spec_cents(),
            requested_source is Some,
            protect,
        ),
{
    let available: i128 = balance.available().cents() as i128;
    let amount_cents: i128 = amount.cents() as i128;
    if requested_source.is_some() || protect || available < amount_cents {
        AcceptPreparationStep::ResolveFunding
    } else {
        AcceptPreparationStep::FromBalance
    }
}

/// The note sent with the eligibility check: the request's note, which a
/// checked request always has; a plan whose request has none is refused.
pub fn eligibility_note(plan: &AcceptRequestPlan) -> (r: Result<&str, AcceptError>)
    ensures
        match plan.spec_request().note {
            Some(n) => r is Ok && r->Ok_0@ == n,
            None => r == Err::<&str, AcceptError>(
                AcceptError::RequestValidation(RequestMutationValidationError::InvalidNote),
            ),
        },
{
    match plan.request().note() {
        Some(note) => Ok(note),
        None => Err(AcceptError::RequestValidation(RequestMutationValidationError::InvalidNote)),
    }
}

} // verus!
