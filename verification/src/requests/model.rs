//! Payment requests as the service reports them.
use std::str::FromStr;
use vstd::prelude::*;
use vstd::string::StringExecFns;

use crate::first_seen::Keyed;
use crate::people::user::{
    clone_optional_string, optional_str, same_optional_string, string_view, User, UserView,
};
use crate::shared::{Money, RequestId, Timestamp};
use crate::text::{contains_control, has_control, utf8_len, utf8_len_at_most};

verus! {

/// The largest encoded size of a request status.
pub const MAX_REQUEST_STATUS_BYTES: u64 = 64;

#[derive(Clone, Copy, Debug, PartialEq, Eq, Structural)]
pub enum RequestDirection {
    Incoming,
    Outgoing,
}

impl RequestDirection {
    pub open spec fn spec_as_str(self) -> Seq<char> {
        match self {
            RequestDirection::Incoming => "incoming"@,
            RequestDirection::Outgoing => "outgoing"@,
        }
    }

    /// The direction as it is displayed.
    pub fn as_str(self) -> (r: &'static str)
        ensures
            r@ == self.spec_as_str(),
    {
        match self {
            RequestDirection::Incoming => "incoming",
            RequestDirection::Outgoing => "outgoing",
        }
    }
}

#[derive(Clone, Copy, Debug, PartialEq, Eq, Structural)]
pub enum RequestAction {
    Charge,
    Pay,
}

/// Which requests a listing keeps.
#[derive(Clone, Copy, Debug, PartialEq, Eq, Structural)]
pub enum RequestDirectionFilter {
    All,
    Incoming,
    Outgoing,
}

impl Default for RequestDirectionFilter {
    fn default() -> (r: RequestDirectionFilter)
        ensures
            r == RequestDirectionFilter::All,
    {
        RequestDirectionFilter::All
    }
}

impl RequestDirectionFilter {
    pub open spec fn spec_matches(self, direction: RequestDirection) -> bool {
        match self {
            RequestDirectionFilter::All => true,
            RequestDirectionFilter::Incoming => direction == RequestDirection::Incoming,
            RequestDirectionFilter::Outgoing => direction == RequestDirection::Outgoing,
        }
    }

    #[verifier::when_used_as_spec(spec_matches)]
    pub fn matches(self, direction: RequestDirection) -> (r: bool)
        ensures
            r == self.spec_matches(direction),
    {
        match self {
            RequestDirectionFilter::All => true,
            RequestDirectionFilter::Incoming => direction == RequestDirection::Incoming,
            RequestDirectionFilter::Outgoing => direction == RequestDirection::Outgoing,
        }
    }
}

#[derive(Clone, Copy, Debug, PartialEq, Eq, Structural)]
pub enum RequestStatusParseError {
    Empty,
    TooLong { maximum_bytes: u64 },
    ControlCharacter,
}

pub open spec fn spec_parse_request_status(s: Seq<char>) -> Result<Seq<char>, RequestStatusParseError> {
    if s.len() == 0 {
        Err(RequestStatusParseError::Empty)
    } else if utf8_len(s) > MAX_REQUEST_STATUS_BYTES {
        Err(RequestStatusParseError::TooLong { maximum_bytes: MAX_REQUEST_STATUS_BYTES })
    } else if has_control(s) {
        Err(RequestStatusParseError::ControlCharacter)
    } else {
        Ok(s)
    }
}

/// The state of a request, exactly as the service names it.
#[derive(Debug, PartialEq, Eq)]
pub struct RequestStatus(String);

impl View for RequestStatus {
    type V = Seq<char>;

    closed spec fn view(&self) -> Seq<char> {
        self.0@
    }
}

impl Clone for RequestStatus {
    fn clone(&self) -> (r: Self)
        ensures
            r@ == self@,
    {
        RequestStatus(self.0.clone())
    }
}

/// A request is open while it is exactly `pending` or `held`.
pub open spec fn spec_is_pending_or_held(s: Seq<char>) -> bool {
    s == "pending"@ || s == "held"@
}

/// Exactly two statuses are open, spelled out letter by letter: `pending`
/// and `held`. Any other status, such as `expired` or `settled`, is closed.
pub proof fn lemma_open_statuses_are_pending_and_held(s: Seq<char>)
    ensures
        spec_is_pending_or_held(s) <==> (s =~= seq!['p', 'e', 'n', 'd', 'i', 'n', 'g'] || s =~= seq![
            'h',
            'e',
            'l',
            'd',
        ]),
{
    reveal_strlit("pending");
    reveal_strlit("held");
    assert("pending"@ =~= seq!['p', 'e', 'n', 'd', 'i', 'n', 'g']);
    assert("held"@ =~= seq!['h', 'e', 'l', 'd']);
}

impl RequestStatus {
    pub fn parse(value: &str) -> (r: Result<RequestStatus, RequestStatusParseError>)
        ensures
            match spec_parse_request_status(value@) {
                Ok(v) => r is Ok && r->Ok_0@ == v,
                Err(e) => r == Err::<RequestStatus, RequestStatusParseError>(e),
            },
    {
        if value.is_empty() {
            return Err(RequestStatusParseError::Empty);
        }
        if !utf8_len_at_most(value, MAX_REQUEST_STATUS_BYTES) {
            return Err(
                RequestStatusParseError::TooLong { maximum_bytes: MAX_REQUEST_STATUS_BYTES },
            );
        }
        if contains_control(value) {
            return Err(RequestStatusParseError::ControlCharacter);
        }
        Ok(RequestStatus(value.to_owned()))
    }

    pub fn as_str(&self) -> (r: &str)
        ensures
            r@ == self@,
    {
        self.0.as_str()
    }

    pub fn is_pending_or_held(&self) -> (r: bool)
        ensures
            r == spec_is_pending_or_held(self@),
    {
        proof {
            reveal_strlit("pending");
            reveal_strlit("held");
        }
        self.0 == "pending".to_owned() || self.0 == "held".to_owned()
    }

    /// Whether the status is exactly `pending`.
    pub fn is_pending(&self) -> (r: bool)
        ensures
            r == (self@ == "pending"@),
    {
        self.0 == "pending".to_owned()
    }

    pub fn same_as(&self, other: &RequestStatus) -> (r: bool)
        ensures
            r == (self@ == other@),
    {
        self.0 == other.0
    }
}

impl FromStr for RequestStatus {
    type Err = RequestStatusParseError;

    fn from_str(value: &str) -> (r: Result<Self, Self::Err>)
        ensures
            match spec_parse_request_status(value@) {
                Ok(v) => r is Ok && r->Ok_0@ == v,
                Err(e) => r == Err::<RequestStatus, RequestStatusParseError>(e),
            },
    {
        RequestStatus::parse(value)
    }
}

pub struct RequestRecordView {
    pub id: Seq<char>,
    pub action: RequestAction,
    pub direction: RequestDirection,
    pub counterparty: UserView,
    pub amount: Money,
    pub note: Option<Seq<char>>,
    pub audience: Option<Seq<char>>,
    pub created_at: Option<Timestamp>,
    pub status: Seq<char>,
}

/// A payment request or payment between the account and a counterparty.
#[derive(PartialEq, Eq)]
pub struct RequestRecord {
    id: RequestId,
    action: RequestAction,
    direction: RequestDirection,
    counterparty: User,
    amount: Money,
    note: Option<String>,
    audience: Option<String>,
    created_at: Option<Timestamp>,
    status: RequestStatus,
}

impl View for RequestRecord {
    type V = RequestRecordView;

    closed spec fn view(&self) -> RequestRecordView {
        RequestRecordView {
            id: self.id@,
            action: self.action,
            direction: self.direction,
            counterparty: self.counterparty@,
            amount: self.amount,
            note: string_view(self.note),
            audience: string_view(self.audience),
            created_at: self.created_at,
            status: self.status@,
        }
    }
}

impl Clone for RequestRecord {
    fn clone(&self) -> (r: Self)
        ensures
            r@ == self@,
    {
        RequestRecord {
            id: self.id.clone(),
            action: self.action,
            direction: self.direction,
            counterparty: self.counterparty.clone(),
            amount: self.amount,
            note: clone_optional_string(&self.note),
            audience: clone_optional_string(&self.audience),
            created_at: self.created_at,
            status: self.status.clone(),
        }
    }
}

impl RequestRecord {
    /// A record without an audience.
    pub fn new(
        id: RequestId,
        action: RequestAction,
        direction: RequestDirection,
        counterparty: User,
        amount: Money,
        note: Option<String>,
        created_at: Option<Timestamp>,
        status: RequestStatus,
    ) -> (r: RequestRecord)
        ensures
            r@ == (RequestRecordView {
                id: id@,
                action,
                direction,
                counterparty: counterparty@,
                amount,
                note: string_view(note),
                audience: None,
                created_at,
                status: status@,
            }),
    {
        RequestRecord {
            id,
            action,
            direction,
            counterparty,
            amount,
            note,
            audience: None,
            created_at,
            status,
        }
    }

    pub fn id(&self) -> (r: &RequestId)
        ensures
            r@ == self@.id,
    {
        &self.id
    }

    pub fn action(&self) -> (r: RequestAction)
        ensures
            r == self@.action,
    {
        self.action
    }

    pub fn direction(&self) -> (r: RequestDirection)
        ensures
            r == self@.direction,
    {
        self.direction
    }

    pub fn counterparty(&self) -> (r: &User)
        ensures
            r@ == self@.counterparty,
    {
        &self.counterparty
    }

    /// The record with its counterparty replaced.
    pub fn with_counterparty(self, counterparty: User) -> (r: RequestRecord)
        ensures
            r@ == (RequestRecordView { counterparty: counterparty@, ..self@ }),
    {
        RequestRecord { counterparty, ..self }
    }

    pub fn amount(&self) -> (r: Money)
        ensures
            r == self@.amount,
    {
        self.amount
    }

    pub fn note(&self) -> (r: Option<&str>)
        ensures
            match r {
                Some(n) => self@.note == Some(n@),
                None => self@.note is None,
            },
    {
        optional_str(&self.note)
    }

    /// The record with its audience replaced.
    pub fn with_audience(self, audience: Option<String>) -> (r: RequestRecord)
        ensures
            r@ == (RequestRecordView { audience: string_view(audience), ..self@ }),
    {
        RequestRecord { audience, ..self }
    }

    pub fn audience(&self) -> (r: Option<&str>)
        ensures
            match r {
                Some(n) => self@.audience == Some(n@),
                None => self@.audience is None,
            },
    {
        optional_str(&self.audience)
    }

    pub fn created_at(&self) -> (r: Option<Timestamp>)
        ensures
            r == self@.created_at,
    {
        self.created_at
    }

    pub fn status(&self) -> (r: &RequestStatus)
        ensures
            r@ == self@.status,
    {
        &self.status
    }

    /// Whether the two records agree in every attribute.
    pub fn same_record(&self, other: &RequestRecord) -> (r: bool)
        ensures
            r == (self@ == other@),
    {
        self.id.same_as(&other.id) && self.action == other.action && self.direction
            == other.direction && self.counterparty.same_record(&other.counterparty) && self.amount
            == other.amount && same_optional_string(&self.note, &other.note)
            && same_optional_string(&self.audience, &other.audience) && self.created_at
            == other.created_at && self.status.same_as(&other.status)
    }

    /// The debugging rendering of the record, with everything but its kind,
    /// direction and status redacted.
    pub fn redacted_debug(&self) -> (r: String)
        ensures
            r@ == "RequestRecord { id: \"[REDACTED]\", action: "@ + action_debug(self@.action)
                + ", direction: "@ + direction_debug(self@.direction)
                + ", counterparty: \"[REDACTED]\", amount: \"[REDACTED]\", note: \"[REDACTED]\", audience: \"[REDACTED]\", created_at: \"[REDACTED]\", status: RequestStatus(\""@
                + self@.status + "\") }"@,
    {
        let mut s = "RequestRecord { id: \"[REDACTED]\", action: ".to_owned();
        s.append(action_debug_str(self.action));
        s.append(", direction: ");
        s.append(direction_debug_str(self.direction));
        s.append(
            ", counterparty: \"[REDACTED]\", amount: \"[REDACTED]\", note: \"[REDACTED]\", audience: \"[REDACTED]\", created_at: \"[REDACTED]\", status: RequestStatus(\"",
        );
        s.append(self.status.as_str());
        s.append("\") }");
        s
    }
}

pub open spec fn action_debug(a: RequestAction) -> Seq<char> {
    match a {
        RequestAction::Charge => "Charge"@,
        RequestAction::Pay => "Pay"@,
    }
}

pub open spec fn direction_debug(d: RequestDirection) -> Seq<char> {
    match d {
        RequestDirection::Incoming => "Incoming"@,
        RequestDirection::Outgoing => "Outgoing"@,
    }
}

fn action_debug_str(a: RequestAction) -> (r: &'static str)
    ensures
        r@ == action_debug(a),
{
    match a {
        RequestAction::Charge => "Charge",
        RequestAction::Pay => "Pay",
    }
}

fn direction_debug_str(d: RequestDirection) -> (r: &'static str)
    ensures
        r@ == direction_debug(d),
{
    match d {
        RequestDirection::Incoming => "Incoming",
        RequestDirection::Outgoing => "Outgoing",
    }
}

impl Keyed for RequestRecord {
    open spec fn key_of(v: RequestRecordView) -> Seq<char> {
        v.id
    }

    fn record_key_matches(&self, other: &RequestRecord) -> (r: bool) {
        self.id.same_as(&other.id)
    }

    fn record_equals(&self, other: &RequestRecord) -> (r: bool) {
        self.same_record(other)
    }

    fn record_clone(&self) -> (r: RequestRecord) {
        self.clone()
    }
}

/// The request that the service created.
#[derive(PartialEq, Eq)]
pub struct CreatedRequest {
    id: RequestId,
    status: RequestStatus,
}

impl CreatedRequest {
    pub closed spec fn spec_id(&self) -> Seq<char> {
        self.id@
    }

    pub closed spec fn spec_status(&self) -> Seq<char> {
        self.status@
    }

    pub fn new(id: RequestId, status: RequestStatus) -> (r: CreatedRequest)
        ensures
            r.spec_id() == id@,
            r.spec_status() == status@,
    {
        CreatedRequest { id, status }
    }

    pub fn id(&self) -> (r: &RequestId)
        ensures
            r@ == self.spec_id(),
    {
        &self.id
    }

    pub fn status(&self) -> (r: &RequestStatus)
        ensures
            r@ == self.spec_status(),
    {
        &self.status
    }

    /// The debugging rendering, with the identifier redacted.
    pub fn redacted_debug(&self) -> (r: String)
        ensures
            r@ == "CreatedRequest { id: \"[REDACTED]\", status: RequestStatus(\""@ + self.spec_status()
                + "\") }"@,
    {
        let mut s = "CreatedRequest { id: \"[REDACTED]\", status: RequestStatus(\"".to_owned();
        s.append(self.status.as_str());
        s.append("\") }");
        s
    }
}

impl Clone for CreatedRequest {
    fn clone(&self) -> (r: Self)
        ensures
            r.spec_id() == self.spec_id(),
            r.spec_status() == self.spec_status(),
    {
        CreatedRequest { id: self.id.clone(), status: self.status.clone() }
    }
}

} // verus!
