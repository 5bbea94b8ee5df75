//! The checked plans of request writes, and what the service reports back.
use vstd::prelude::*;
use vstd::string::StringExecFns;

use crate::payments::{EligibilityToken, FinancialStatus, PeerFundingSource, PeerFundingSourceSelection};
use crate::people::user::{optional_str, string_view, User, UserView};
use crate::requests::model::{RequestRecord, RequestRecordView, RequestStatus};
use crate::shared::{
    Account, ClientRequestId, Money, Note, PaymentId, RequestId, RequestNotificationId, Visibility,
};
use crate::wallet::model::{Balance, PaymentMethodView};

verus! {

/// A request about to be created.
#[derive(PartialEq, Eq)]
pub struct CreateRequestPlan {
    request_id: ClientRequestId,
    account: Account,
    recipient: User,
    amount: Money,
    note: Note,
    visibility: Visibility,
}

impl CreateRequestPlan {
    pub closed spec fn spec_request_id(&self) -> ClientRequestId {
        self.request_id
    }

    pub closed spec fn spec_account(&self) -> Account {
        self.account
    }

    pub closed spec fn spec_recipient(&self) -> UserView {
        self.recipient@
    }

    pub closed spec fn spec_amount(&self) -> Money {
        self.amount
    }

    pub closed spec fn spec_note(&self) -> Seq<char> {
        self.note@
    }

    pub closed spec fn spec_visibility(&self) -> Visibility {
        self.visibility
    }

    pub fn new(
        request_id: ClientRequestId,
        account: Account,
        recipient: User,
        amount: Money,
        note: Note,
        visibility: Visibility,
    ) -> (r: CreateRequestPlan)
        ensures
            r.spec_request_id() == request_id,
            r.spec_account() == account,
            r.spec_recipient() == recipient@,
            r.spec_amount() == amount,
            r.spec_note() == note@,
            r.spec_visibility() == visibility,
    {
        CreateRequestPlan { request_id, account, recipient, amount, note, visibility }
    }

    pub fn request_id(&self) -> (r: ClientRequestId)
        ensures
            r == self.spec_request_id(),
    {
        self.request_id
    }

    pub fn account(&self) -> (r: &Account)
        ensures
            *r == self.spec_account(),
    {
        &self.account
    }

    pub fn recipient(&self) -> (r: &User)
        ensures
            r@ == self.spec_recipient(),
    {
        &self.recipient
    }

    pub fn amount(&self) -> (r: Money)
        ensures
            r == self.spec_amount(),
    {
        self.amount
    }

    pub fn note(&self) -> (r: &Note)
        ensures
            r@ == self.spec_note(),
    {
        &self.note
    }

    pub fn visibility(&self) -> (r: Visibility)
        ensures
            r == self.spec_visibility(),
    {
        self.visibility
    }
}

/// The model of one approval fee.
pub struct RequestApprovalFeeView {
    pub product_uri: Seq<char>,
    pub applied_to: Seq<char>,
    pub fee_token: Seq<char>,
    pub base_fee_amount: Option<u64>,
    pub fee_percentage: Option<Seq<char>>,
    pub calculated_fee_amount_in_cents: u64,
}

/// One fee that approving a request with purchase protection carries.
#[derive(PartialEq, Eq)]
pub struct RequestApprovalFee {
    product_uri: String,
    applied_to: String,
    fee_token: String,
    base_fee_amount: Option<u64>,
    fee_percentage: Option<String>,
    calculated_fee_amount_in_cents: u64,
}

impl View for RequestApprovalFee {
    type V = RequestApprovalFeeView;

    closed spec fn view(&self) -> RequestApprovalFeeView {
        RequestApprovalFeeView {
            product_uri: self.product_uri@,
            applied_to: self.applied_to@,
            fee_token: self.fee_token@,
            base_fee_amount: self.base_fee_amount,
            fee_percentage: string_view(self.fee_percentage),
            calculated_fee_amount_in_cents: self.calculated_fee_amount_in_cents,
        }
    }
}

impl RequestApprovalFee {
    pub fn new(
        product_uri: String,
        applied_to: String,
        fee_token: String,
        base_fee_amount: Option<u64>,
        fee_percentage: Option<String>,
        calculated_fee_amount_in_cents: u64,
    ) -> (r: RequestApprovalFee)
        ensures
            r@ == (RequestApprovalFeeView {
                product_uri: product_uri@,
                applied_to: applied_to@,
                fee_token: fee_token@,
                base_fee_amount,
                fee_percentage: string_view(fee_percentage),
                calculated_fee_amount_in_cents,
            }),
    {
        RequestApprovalFee {
            product_uri,
            applied_to,
            fee_token,
            base_fee_amount,
            fee_percentage,
            calculated_fee_amount_in_cents,
        }
    }

    pub fn product_uri(&self) -> (r: &str)
        ensures
            r@ == self@.product_uri,
    {
        self.product_uri.as_str()
    }

    pub fn applied_to(&self) -> (r: &str)
        ensures
            r@ == self@.applied_to,
    {
        self.applied_to.as_str()
    }

    pub fn fee_token(&self) -> (r: &str)
        ensures
            r@ == self@.fee_token,
    {
        self.fee_token.as_str()
    }

    pub fn base_fee_amount(&self) -> (r: Option<u64>)
        ensures
            r == self@.base_fee_amount,
    {
        self.base_fee_amount
    }

    pub fn fee_percentage(&self) -> (r: Option<&str>)
        ensures
            match r {
                Some(p) => self@.fee_percentage == Some(p@),
                None => self@.fee_percentage is None,
            },
    {
        optional_str(&self.fee_percentage)
    }

    pub fn calculated_fee_amount_in_cents(&self) -> (r: u64)
        ensures
            r == self@.calculated_fee_amount_in_cents,
    {
        self.calculated_fee_amount_in_cents
    }
}

/// The model of the fees of a request approval.
pub enum RequestApprovalFeesView {
    Omitted,
    Present { entries: Seq<RequestApprovalFeeView>, total_cents: u64 },
}

impl RequestApprovalFeesView {
    pub open spec fn total_cents(&self) -> u64 {
        match self {
            RequestApprovalFeesView::Omitted => 0,
            RequestApprovalFeesView::Present { total_cents, .. } => *total_cents,
        }
    }
}

/// The models of a list of fees, one for one.
pub open spec fn fee_views(entries: Seq<RequestApprovalFee>) -> Seq<RequestApprovalFeeView> {
    entries.map_values(|f: RequestApprovalFee| f@)
}

/// The fees of a request approval: omitted when no protection is bought.
#[derive(PartialEq, Eq)]
pub enum RequestApprovalFees {
    Omitted,
    Present { entries: Vec<RequestApprovalFee>, total_cents: u64 },
}

impl View for RequestApprovalFees {
    type V = RequestApprovalFeesView;

    open spec fn view(&self) -> RequestApprovalFeesView {
        match self {
            RequestApprovalFees::Omitted => RequestApprovalFeesView::Omitted,
            RequestApprovalFees::Present { entries, total_cents } => RequestApprovalFeesView::Present {
                entries: fee_views(entries@),
                total_cents: *total_cents,
            },
        }
    }
}

impl RequestApprovalFees {
    pub open spec fn spec_total_cents(&self) -> u64 {
        self@.total_cents()
    }

    pub fn omitted() -> (r: RequestApprovalFees)
        ensures
            r@ == RequestApprovalFeesView::Omitted,
    {
        RequestApprovalFees::Omitted
    }

    pub fn present(entries: Vec<RequestApprovalFee>, total_cents: u64) -> (r: RequestApprovalFees)
        ensures
            r@ == (RequestApprovalFeesView::Present { entries: fee_views(entries@), total_cents }),
    {
        RequestApprovalFees::Present { entries, total_cents }
    }

    pub fn entries(&self) -> (r: Option<&[RequestApprovalFee]>)
        ensures
            match r {
                Some(e) => self@ == (RequestApprovalFeesView::Present {
                    entries: fee_views(e@),
                    total_cents: self@.total_cents(),
                }),
                None => self@ is Omitted,
            },
    {
        match self {
            RequestApprovalFees::Omitted => None,
            RequestApprovalFees::Present { entries, .. } => Some(entries.as_slice()),
        }
    }

    #[verifier::when_used_as_spec(spec_total_cents)]
    pub fn total_cents(&self) -> (r: u64)
        ensures
            r == self.spec_total_cents(),
    {
        match self {
            RequestApprovalFees::Omitted => 0,
            RequestApprovalFees::Present { total_cents, .. } => *total_cents,
        }
    }
}

/// How an accepted request is funded.
#[derive(PartialEq, Eq)]
struct AcceptanceFunding {
    notification_id: RequestNotificationId,
    source: PeerFundingSource,
    source_selection: PeerFundingSourceSelection,
    eligibility_token: EligibilityToken,
    fees: RequestApprovalFees,
    protected: bool,
}

/// The model of the funding part of an acceptance plan.
pub struct AcceptanceFundingView {
    pub notification_id: Seq<char>,
    pub source_method: PaymentMethodView,
    pub source_is_external: bool,
    pub source_selection: PeerFundingSourceSelection,
    pub eligibility_token: Seq<char>,
    pub fees: RequestApprovalFeesView,
    pub protected: bool,
}

/// A request about to be accepted: the account, the authoritative request,
/// the balance, and how the payment is funded.
#[derive(PartialEq, Eq)]
pub struct AcceptRequestPlan {
    account: Account,
    request: RequestRecord,
    balance: Balance,
    funding: Option<AcceptanceFunding>,
}

impl AcceptRequestPlan {
    pub closed spec fn spec_account(&self) -> Account {
        self.account
    }

    pub closed spec fn spec_request(&self) -> RequestRecordView {
        self.request@
    }

    pub closed spec fn spec_balance(&self) -> Balance {
        self.balance
    }

    pub closed spec fn spec_funding(&self) -> Option<AcceptanceFundingView> {
        match self.funding {
            Some(f) => Some(
                AcceptanceFundingView {
                    notification_id: f.notification_id@,
                    source_method: f.source.spec_method(),
                    source_is_external: f.source.spec_is_external(),
                    source_selection: f.source_selection,
                    eligibility_token: f.eligibility_token@,
                    fees: f.fees@,
                    protected: f.protected,
                },
            ),
            None => None,
        }
    }

    /// The fee charged for purchase protection: the total of the approval
    /// fees when the acceptance is protected, and nothing otherwise.
    pub open spec fn spec_approval_fee_cents(&self) -> Option<u64> {
        match self.spec_funding() {
            Some(f) => if f.protected {
                Some(f.fees.total_cents())
            } else {
                None
            },
            None => None,
        }
    }

    /// What the requester receives once the protection fee is taken out;
    /// nothing when there is no fee or the fee exceeds the amount.
    pub open spec fn spec_recipient_proceeds_cents(&self) -> Option<u64> {
        match self.spec_approval_fee_cents() {
            Some(fee) => if fee <= self.spec_request().amount.spec_cents() {
                Some((self.spec_request().amount.spec_cents() - fee) as u64)
            } else {
                None
            },
            None => None,
        }
    }

    pub fn new(account: Account, request: RequestRecord, balance: Balance) -> (r: AcceptRequestPlan)
        ensures
            r.spec_account() == account,
            r.spec_request() == request@,
            r.spec_balance() == balance,
            r.spec_funding() is None,
    {
        AcceptRequestPlan { account, request, balance, funding: None }
    }

    pub fn with_funding(
        self,
        notification_id: RequestNotificationId,
        source: PeerFundingSource,
        source_selection: PeerFundingSourceSelection,
        eligibility_token: EligibilityToken,
        fees: RequestApprovalFees,
        protected: bool,
    ) -> (r: AcceptRequestPlan)
        ensures
            r.spec_account() == self.spec_account(),
            r.spec_request() == self.spec_request(),
            r.spec_balance() == self.spec_balance(),
            r.spec_funding() == Some(
                AcceptanceFundingView {
                    notification_id: notification_id@,
                    source_method: source.spec_method(),
                    source_is_external: source.spec_is_external(),
                    source_selection,
                    eligibility_token: eligibility_token@,
                    fees: fees@,
                    protected,
                },
            ),
    {
        AcceptRequestPlan {
            funding: Some(
                AcceptanceFunding {
                    notification_id,
                    source,
                    source_selection,
                    eligibility_token,
                    fees,
                    protected,
                },
            ),
            ..self
        }
    }

    pub fn account(&self) -> (r: &Account)
        ensures
            *r == self.spec_account(),
    {
        &self.account
    }

    pub fn request(&self) -> (r: &RequestRecord)
        ensures
            r@ == self.spec_request(),
    {
        &self.request
    }

    pub fn balance(&self) -> (r: &Balance)
        ensures
            *r == self.spec_balance(),
    {
        &self.balance
    }

    pub fn funding_source(&self) -> (r: Option<&PeerFundingSource>)
        ensures
            r is Some <==> self.spec_funding() is Some,
            r matches Some(s) ==> s.spec_method() == self.spec_funding()->Some_0.source_method
                && s.spec_is_external() == self.spec_funding()->Some_0.source_is_external,
    {
        match &self.funding {
            Some(funding) => Some(&funding.source),
            None => None,
        }
    }

    pub fn funding_source_selection(&self) -> (r: Option<PeerFundingSourceSelection>)
        ensures
            r is Some <==> self.spec_funding() is Some,
            r matches Some(s) ==> s == self.spec_funding()->Some_0.source_selection,
    {
        match &self.funding {
            Some(funding) => Some(funding.source_selection),
            None => None,
        }
    }

    pub fn approval_notification_id(&self) -> (r: Option<&RequestNotificationId>)
        ensures
            r is Some <==> self.spec_funding() is Some,
            r matches Some(n) ==> n@ == self.spec_funding()->Some_0.notification_id,
    {
        match &self.funding {
            Some(funding) => Some(&funding.notification_id),
            None => None,
        }
    }

    pub fn eligibility_token(&self) -> (r: Option<&EligibilityToken>)
        ensures
            r is Some <==> self.spec_funding() is Some,
            r matches Some(t) ==> t@ == self.spec_funding()->Some_0.eligibility_token,
    {
        match &self.funding {
            Some(funding) => Some(&funding.eligibility_token),
            None => None,
        }
    }

    pub fn approval_fees(&self) -> (r: Option<&RequestApprovalFees>)
        ensures
            r is Some <==> self.spec_funding() is Some,
            r matches Some(f) ==> f@ == self.spec_funding()->Some_0.fees,
    {
        match &self.funding {
            Some(funding) => Some(&funding.fees),
            None => None,
        }
    }

    #[verifier::when_used_as_spec(spec_approval_fee_cents)]
    pub fn approval_fee_cents(&self) -> (r: Option<u64>)
        ensures
            r == self.spec_approval_fee_cents(),
    {
        match &self.funding {
            Some(funding) => {
                if funding.protected {
                    Some(funding.fees.total_cents())
                } else {
                    None
                }
            },
            None => None,
        }
    }

    pub fn is_purchase_protected(&self) -> (r: bool)
        ensures
            r == (self.spec_funding() matches Some(f) && f.protected),
    {
        match &self.funding {
            Some(funding) => funding.protected,
            None => false,
        }
    }

    #[verifier::when_used_as_spec(spec_recipient_proceeds_cents)]
    pub fn recipient_proceeds_cents(&self) -> (r: Option<u64>)
        ensures
            r == self.spec_recipient_proceeds_cents(),
    {
        match self.approval_fee_cents() {
            Some(fee) => self.request.amount().cents().checked_sub(fee),
            None => None,
        }
    }
}

/// What the service reports for an accepted request: the payment and its
/// status, or nothing when the source itself funded the approval.
#[derive(PartialEq, Eq)]
pub struct AcceptedRequest {
    payment_id: Option<PaymentId>,
    status: Option<FinancialStatus>,
}

impl AcceptedRequest {
    pub closed spec fn spec_payment_id(&self) -> Option<Seq<char>> {
        match self.payment_id {
            Some(p) => Some(p@),
            None => None,
        }
    }

    pub closed spec fn spec_status(&self) -> Option<FinancialStatus> {
        self.status
    }

    pub fn new(payment_id: PaymentId, status: FinancialStatus) -> (r: AcceptedRequest)
        ensures
            r.spec_payment_id() == Some(payment_id@),
            r.spec_status() == Some(status),
    {
        AcceptedRequest { payment_id: Some(payment_id), status: Some(status) }
    }

    pub fn source_funded() -> (r: AcceptedRequest)
        ensures
            r.spec_payment_id() is None,
            r.spec_status() is None,
    {
        AcceptedRequest { payment_id: None, status: None }
    }

    pub fn payment_id(&self) -> (r: Option<&PaymentId>)
        ensures
            match r {
                Some(p) => self.spec_payment_id() == Some(p@),
                None => self.spec_payment_id() is None,
            },
    {
        match &self.payment_id {
            Some(p) => Some(p),
            None => None,
        }
    }

    pub fn status(&self) -> (r: Option<FinancialStatus>)
        ensures
            r == self.spec_status(),
    {
        self.status
    }
}

/// An incoming request about to be declined.
#[derive(PartialEq, Eq)]
pub struct DeclineRequestPlan {
    account: Account,
    request: RequestRecord,
}

impl DeclineRequestPlan {
    pub closed spec fn spec_account(&self) -> Account {
        self.account
    }

    pub closed spec fn spec_request(&self) -> RequestRecordView {
        self.request@
    }

    pub fn new(account: Account, request: RequestRecord) -> (r: DeclineRequestPlan)
        ensures
            r.spec_account() == account,
            r.spec_request() == request@,
    {
        DeclineRequestPlan { account, request }
    }

    pub fn account(&self) -> (r: &Account)
        ensures
            *r == self.spec_account(),
    {
        &self.account
    }

    pub fn request(&self) -> (r: &RequestRecord)
        ensures
            r@ == self.spec_request(),
    {
        &self.request
    }
}

/// What the service reports for a declined request.
#[derive(PartialEq, Eq)]
pub struct DeclinedRequest {
    request_id: RequestId,
    status: RequestStatus,
}

impl DeclinedRequest {
    pub closed spec fn spec_request_id(&self) -> Seq<char> {
        self.request_id@
    }

    pub closed spec fn spec_status(&self) -> Seq<char> {
        self.status@
    }

    pub fn new(request_id: RequestId, status: RequestStatus) -> (r: DeclinedRequest)
        ensures
            r.spec_request_id() == request_id@,
            r.spec_status() == status@,
    {
        DeclinedRequest { request_id, status }
    }

    pub fn request_id(&self) -> (r: &RequestId)
        ensures
            r@ == self.spec_request_id(),
    {
        &self.request_id
    }

    pub fn status(&self) -> (r: &RequestStatus)
        ensures
            r@ == self.spec_status(),
    {
        &self.status
    }
}

/// An outgoing request about to be cancelled.
#[derive(PartialEq, Eq)]
pub struct CancelRequestPlan {
    account: Account,
    request: RequestRecord,
}

impl CancelRequestPlan {
    pub closed spec fn spec_account(&self) -> Account {
        self.account
    }

    pub closed spec fn spec_request(&self) -> RequestRecordView {
        self.request@
    }

    pub fn new(account: Account, request: RequestRecord) -> (r: CancelRequestPlan)
        ensures
            r.spec_account() == account,
            r.spec_request() == request@,
    {
        CancelRequestPlan { account, request }
    }

    pub fn account(&self) -> (r: &Account)
        ensures
            *r == self.spec_account(),
    {
        &self.account
    }

    pub fn request(&self) -> (r: &RequestRecord)
        ensures
            r@ == self.spec_request(),
    {
        &self.request
    }
}

/// What the service reports for a cancelled request.
#[derive(PartialEq, Eq)]
pub struct CancelledRequest {
    request_id: RequestId,
    status: RequestStatus,
}

impl CancelledRequest {
    pub closed spec fn spec_request_id(&self) -> Seq<char> {
        self.request_id@
    }

    pub closed spec fn spec_status(&self) -> Seq<char> {
        self.status@
    }

    pub fn new(request_id: RequestId, status: RequestStatus) -> (r: CancelledRequest)
        ensures
            r.spec_request_id() == request_id@,
            r.spec_status() == status@,
    {
        CancelledRequest { request_id, status }
    }

    pub fn request_id(&self) -> (r: &RequestId)
        ensures
            r@ == self.spec_request_id(),
    {
        &self.request_id
    }

    pub fn status(&self) -> (r: &RequestStatus)
        ensures
            r@ == self.spec_status(),
    {
        &self.status
    }
}


/// An optional settlement state, as `Debug` renders it.
pub open spec fn status_option_debug(s: Option<FinancialStatus>) -> Seq<char> {
    match s {
        None => "None"@,
        Some(FinancialStatus::Pending) => "Some(Pending)"@,
        Some(FinancialStatus::Held) => "Some(Held)"@,
        Some(FinancialStatus::Settled) => "Some(Settled)"@,
        Some(FinancialStatus::Failed) => "Some(Failed)"@,
        Some(FinancialStatus::Cancelled) => "Some(Cancelled)"@,
    }
}

fn status_option_debug_str(s: Option<FinancialStatus>) -> (r: &'static str)
    ensures
        r@ == status_option_debug(s),
{
    match s {
        None => "None",
        Some(FinancialStatus::Pending) => "Some(Pending)",
        Some(FinancialStatus::Held) => "Some(Held)",
        Some(FinancialStatus::Settled) => "Some(Settled)",
        Some(FinancialStatus::Failed) => "Some(Failed)",
        Some(FinancialStatus::Cancelled) => "Some(Cancelled)",
    }
}

impl AcceptedRequest {
    /// The debugging rendering: the settlement state, with the payment redacted.
    pub fn redacted_debug(&self) -> (r: String)
        ensures
            r@ == "AcceptedRequest { payment_id: \"[REDACTED]\", status: "@ + status_option_debug(
                self.spec_status(),
            ) + " }"@,
    {
        let mut s = "AcceptedRequest { payment_id: \"[REDACTED]\", status: ".to_owned();
        s.append(status_option_debug_str(self.status));
        s.append(" }");
        s
    }
}

impl DeclinedRequest {
    /// The debugging rendering: the status, with the request redacted.
    pub fn redacted_debug(&self) -> (r: String)
        ensures
            r@ == "DeclinedRequest { request_id: \"[REDACTED]\", status: RequestStatus(\""@
                + self.spec_status() + "\") }"@,
    {
        let mut s = "DeclinedRequest { request_id: \"[REDACTED]\", status: RequestStatus(\"".to_owned();
        s.append(self.status.as_str());
        s.append("\") }");
        s
    }
}

impl CancelledRequest {
    /// The debugging rendering: the status, with the request redacted.
    pub fn redacted_debug(&self) -> (r: String)
        ensures
            r@ == "CancelledRequest { request_id: \"[REDACTED]\", status: RequestStatus(\""@
                + self.spec_status() + "\") }"@,
    {
        let mut s = "CancelledRequest { request_id: \"[REDACTED]\", status: RequestStatus(\"".to_owned();
        s.append(self.status.as_str());
        s.append("\") }");
        s
    }
}

impl CreateRequestPlan {
    /// The debugging rendering: everything redacted.
    pub fn redacted_debug(&self) -> (r: String)
        ensures
            r@ == "CreateRequestPlan([REDACTED])"@,
    {
        "CreateRequestPlan([REDACTED])".to_owned()
    }
}

impl AcceptRequestPlan {
    /// The debugging rendering: everything redacted.
    pub fn redacted_debug(&self) -> (r: String)
        ensures
            r@ == "AcceptRequestPlan([REDACTED])"@,
    {
        "AcceptRequestPlan([REDACTED])".to_owned()
    }
}

impl DeclineRequestPlan {
    /// The debugging rendering: everything redacted.
    pub fn redacted_debug(&self) -> (r: String)
        ensures
            r@ == "DeclineRequestPlan([REDACTED])"@,
    {
        "DeclineRequestPlan([REDACTED])".to_owned()
    }
}

impl CancelRequestPlan {
    /// The debugging rendering: everything redacted.
    pub fn redacted_debug(&self) -> (r: String)
        ensures
            r@ == "CancelRequestPlan([REDACTED])"@,
    {
        "CancelRequestPlan([REDACTED])".to_owned()
    }
}

impl RequestApprovalFee {
    /// The debugging rendering: everything redacted.
    pub fn redacted_debug(&self) -> (r: String)
        ensures
            r@ == "RequestApprovalFee([REDACTED])"@,
    {
        "RequestApprovalFee([REDACTED])".to_owned()
    }
}

impl RequestApprovalFees {
    /// The debugging rendering: everything redacted.
    pub fn redacted_debug(&self) -> (r: String)
        ensures
            r@ == "RequestApprovalFees([REDACTED])"@,
    {
        "RequestApprovalFees([REDACTED])".to_owned()
    }
}

} // verus!
