//! Values shared by every feature: identifiers, usernames, amounts, paging
//! cursors, the stored credential and the failure taxonomy.
use std::str::FromStr;
use vstd::prelude::*;
use vstd::string::StringExecFns;

use crate::text::{
    blank, contains_control, contains_whitespace, has_control, has_whitespace, is_blank,
    utf8_len, utf8_len_at_most,
};

verus! {

/// The categories an API adapter reports for a failed call.
#[derive(Clone, Copy, Debug, PartialEq, Eq, Structural)]
pub enum ApiFailureKind {
    Network,
    Timeout,
    Authentication,
    Rejected,
    Contract,
    AmbiguousWrite,
    Internal,
}

/// The categories a credential store reports for a failed read.
#[derive(Clone, Copy, Debug, PartialEq, Eq, Structural)]
pub enum CredentialFailureKind {
    Unavailable,
    Corrupt,
    Invalid,
    UnsupportedVersion,
    TooLarge,
    Ambiguous,
    Platform,
    Internal,
}

/// The failure categories of a command, as reported to the user.
#[derive(Clone, Copy, Debug, PartialEq, Eq, Structural)]
pub enum ApplicationFailureKind {
    Credential,
    Api(ApiFailureKind),
    ApiContract,
    Usage,
    Cancelled,
    Internal,
}

/// The failure categories of a read-only command.
#[derive(Clone, Copy, Debug, PartialEq, Eq, Structural)]
pub enum ReadFailureKind {
    Credential,
    Api(ApiFailureKind),
    ResponseContract,
}

/// A failed API call, carried by its category.
#[derive(Clone, Copy, Debug, PartialEq, Eq, Structural)]
pub struct ApiOperationFailure {
    pub kind: ApiFailureKind,
}

impl ApiOperationFailure {
    pub fn new(kind: ApiFailureKind) -> (r: Self)
        ensures
            r.kind == kind,
    {
        ApiOperationFailure { kind }
    }

    pub fn kind(&self) -> (r: ApiFailureKind)
        ensures
            r == self.kind,
    {
        self.kind
    }
}

/// Why no usable credential could be loaded.
#[derive(Clone, Copy, Debug, PartialEq, Eq, Structural)]
pub enum CredentialAccessError {
    Missing,
    Read { kind: CredentialFailureKind },
}

/// Why an interactive confirmation prompt failed, carried by its category.
#[derive(Clone, Copy, Debug, PartialEq, Eq, Structural)]
pub struct PromptFailure {
    pub kind: ApplicationFailureKind,
}

// ---------------------------------------------------------------------------
// Opaque identifiers
// ---------------------------------------------------------------------------

/// An identifier issued by the service: non-empty, with no whitespace and no
/// control characters.
pub open spec fn valid_opaque_id(s: Seq<char>) -> bool {
    s.len() > 0 && !has_control(s) && !has_whitespace(s)
}

#[derive(Clone, Copy, Debug, PartialEq, Eq, Structural)]
pub enum OpaqueIdParseError {
    Empty,
    InvalidCharacter,
}

pub open spec fn spec_parse_opaque_id(s: Seq<char>) -> Result<Seq<char>, OpaqueIdParseError> {
    if s.len() == 0 {
        Err(OpaqueIdParseError::Empty)
    } else if has_control(s) || has_whitespace(s) {
        Err(OpaqueIdParseError::InvalidCharacter)
    } else {
        Ok(s)
    }
}

fn check_opaque_id(value: &str) -> (r: Result<(), OpaqueIdParseError>)
    ensures
        match spec_parse_opaque_id(value@) {
            Ok(_) => r is Ok,
            Err(e) => r == Err::<(), OpaqueIdParseError>(e),
        },
{
    if value.is_empty() {
        return Err(OpaqueIdParseError::Empty);
    }
    if contains_control(value) || contains_whitespace(value) {
        return Err(OpaqueIdParseError::InvalidCharacter);
    }
    Ok(())
}

/// The identifier of a Venmo user.
#[derive(Debug, PartialEq, Eq)]
pub struct UserId {
    value: String,
}

impl View for UserId {
    type V = Seq<char>;

    closed spec fn view(&self) -> Seq<char> {
        self.value@
    }
}

impl Clone for UserId {
    fn clone(&self) -> (r: Self)
        ensures
            r@ == self@,
    {
        proof {
            use_type_invariant(self);
        }
        UserId { value: self.value.clone() }
    }
}

impl UserId {
    /// Every identifier satisfies the identifier rules.
    #[verifier::type_invariant]
    pub open spec fn wf(&self) -> bool {
        valid_opaque_id(self@)
    }

    pub fn parse(value: &str) -> (r: Result<UserId, OpaqueIdParseError>)
        ensures
            match spec_parse_opaque_id(value@) {
                Ok(v) => r is Ok && r->Ok_0@ == v,
                Err(e) => r == Err::<UserId, OpaqueIdParseError>(e),
            },
    {
        check_opaque_id(value)?;
        Ok(UserId { value: value.to_owned() })
    }

    pub fn as_str(&self) -> (r: &str)
        ensures
            r@ == self@,
    {
        self.value.as_str()
    }

    /// Whether the two identifiers are the same.
    pub fn same_as(&self, other: &UserId) -> (r: bool)
        ensures
            r == (self@ == other@),
    {
        self.value == other.value
    }
}

impl FromStr for UserId {
    type Err = OpaqueIdParseError;

    fn from_str(value: &str) -> (r: Result<Self, Self::Err>)
        ensures
            match spec_parse_opaque_id(value@) {
                Ok(v) => r is Ok && r->Ok_0@ == v,
                Err(e) => r == Err::<UserId, OpaqueIdParseError>(e),
            },
    {
        UserId::parse(value)
    }
}

/// The identifier of a payment request.
#[derive(Debug, PartialEq, Eq)]
pub struct RequestId {
    value: String,
}

impl View for RequestId {
    type V = Seq<char>;

    closed spec fn view(&self) -> Seq<char> {
        self.value@
    }
}

impl Clone for RequestId {
    fn clone(&self) -> (r: Self)
        ensures
            r@ == self@,
    {
        proof {
            use_type_invariant(self);
        }
        RequestId { value: self.value.clone() }
    }
}

impl RequestId {
    /// Every identifier satisfies the identifier rules.
    #[verifier::type_invariant]
    pub open spec fn wf(&self) -> bool {
        valid_opaque_id(self@)
    }

    pub fn parse(value: &str) -> (r: Result<RequestId, OpaqueIdParseError>)
        ensures
            match spec_parse_opaque_id(value@) {
                Ok(v) => r is Ok && r->Ok_0@ == v,
                Err(e) => r == Err::<RequestId, OpaqueIdParseError>(e),
            },
    {
        check_opaque_id(value)?;
        Ok(RequestId { value: value.to_owned() })
    }

    pub fn as_str(&self) -> (r: &str)
        ensures
            r@ == self@,
    {
        self.value.as_str()
    }

    /// Whether the two identifiers are the same.
    pub fn same_as(&self, other: &RequestId) -> (r: bool)
        ensures
            r == (self@ == other@),
    {
        self.value == other.value
    }
}

impl FromStr for RequestId {
    type Err = OpaqueIdParseError;

    fn from_str(value: &str) -> (r: Result<Self, Self::Err>)
        ensures
            match spec_parse_opaque_id(value@) {
                Ok(v) => r is Ok && r->Ok_0@ == v,
                Err(e) => r == Err::<RequestId, OpaqueIdParseError>(e),
            },
    {
        RequestId::parse(value)
    }
}

/// The identifier of a created balance transfer.
#[derive(Debug, PartialEq, Eq)]
pub struct TransferId {
    value: String,
}

impl View for TransferId {
    type V = Seq<char>;

    closed spec fn view(&self) -> Seq<char> {
        self.value@
    }
}

impl Clone for TransferId {
    fn clone(&self) -> (r: Self)
        ensures
            r@ == self@,
    {
        proof {
            use_type_invariant(self);
        }
        TransferId { value: self.value.clone() }
    }
}

impl TransferId {
    /// Every identifier satisfies the identifier rules.
    #[verifier::type_invariant]
    pub open spec fn wf(&self) -> bool {
        valid_opaque_id(self@)
    }

    pub fn parse(value: &str) -> (r: Result<TransferId, OpaqueIdParseError>)
        ensures
            match spec_parse_opaque_id(value@) {
                Ok(v) => r is Ok && r->Ok_0@ == v,
                Err(e) => r == Err::<TransferId, OpaqueIdParseError>(e),
            },
    {
        check_opaque_id(value)?;
        Ok(TransferId { value: value.to_owned() })
    }

    pub fn as_str(&self) -> (r: &str)
        ensures
            r@ == self@,
    {
        self.value.as_str()
    }

    /// Whether the two identifiers are the same.
    pub fn same_as(&self, other: &TransferId) -> (r: bool)
        ensures
            r == (self@ == other@),
    {
        self.value == other.value
    }
}

impl FromStr for TransferId {
    type Err = OpaqueIdParseError;

    fn from_str(value: &str) -> (r: Result<Self, Self::Err>)
        ensures
            match spec_parse_opaque_id(value@) {
                Ok(v) => r is Ok && r->Ok_0@ == v,
                Err(e) => r == Err::<TransferId, OpaqueIdParseError>(e),
            },
    {
        TransferId::parse(value)
    }
}

/// The identifier of a bank or card that a transfer can use.
#[derive(Debug, PartialEq, Eq)]
pub struct TransferInstrumentId {
    value: String,
}

impl View for TransferInstrumentId {
    type V = Seq<char>;

    closed spec fn view(&self) -> Seq<char> {
        self.value@
    }
}

impl Clone for TransferInstrumentId {
    fn clone(&self) -> (r: Self)
        ensures
            r@ == self@,
    {
        proof {
            use_type_invariant(self);
        }
        TransferInstrumentId { value: self.value.clone() }
    }
}

impl TransferInstrumentId {
    /// Every identifier satisfies the identifier rules.
    #[verifier::type_invariant]
    pub open spec fn wf(&self) -> bool {
        valid_opaque_id(self@)
    }

    pub fn parse(value: &str) -> (r: Result<TransferInstrumentId, OpaqueIdParseError>)
        ensures
            match spec_parse_opaque_id(value@) {
                Ok(v) => r is Ok && r->Ok_0@ == v,
                Err(e) => r == Err::<TransferInstrumentId, OpaqueIdParseError>(e),
            },
    {
        check_opaque_id(value)?;
        Ok(TransferInstrumentId { value: value.to_owned() })
    }

    pub fn as_str(&self) -> (r: &str)
        ensures
            r@ == self@,
    {
        self.value.as_str()
    }

    /// Whether the two identifiers are the same.
    pub fn same_as(&self, other: &TransferInstrumentId) -> (r: bool)
        ensures
            r == (self@ == other@),
    {
        self.value == other.value
    }
}

impl FromStr for TransferInstrumentId {
    type Err = OpaqueIdParseError;

    fn from_str(value: &str) -> (r: Result<Self, Self::Err>)
        ensures
            match spec_parse_opaque_id(value@) {
                Ok(v) => r is Ok && r->Ok_0@ == v,
                Err(e) => r == Err::<TransferInstrumentId, OpaqueIdParseError>(e),
            },
    {
        TransferInstrumentId::parse(value)
    }
}

/// The identifier of a stored payment method.
#[derive(Debug, PartialEq, Eq)]
pub struct PaymentMethodId {
    value: String,
}

impl View for PaymentMethodId {
    type V = Seq<char>;

    closed spec fn view(&self) -> Seq<char> {
        self.value@
    }
}

impl Clone for PaymentMethodId {
    fn clone(&self) -> (r: Self)
        ensures
            r@ == self@,
    {
        proof {
            use_type_invariant(self);
        }
        PaymentMethodId { value: self.value.clone() }
    }
}

impl PaymentMethodId {
    /// Every identifier satisfies the identifier rules.
    #[verifier::type_invariant]
    pub open spec fn wf(&self) -> bool {
        valid_opaque_id(self@)
    }

    pub fn parse(value: &str) -> (r: Result<PaymentMethodId, OpaqueIdParseError>)
        ensures
            match spec_parse_opaque_id(value@) {
                Ok(v) => r is Ok && r->Ok_0@ == v,
                Err(e) => r == Err::<PaymentMethodId, OpaqueIdParseError>(e),
            },
    {
        check_opaque_id(value)?;
        Ok(PaymentMethodId { value: value.to_owned() })
    }

    pub fn as_str(&self) -> (r: &str)
        ensures
            r@ == self@,
    {
        self.value.as_str()
    }

    /// Whether the two identifiers are the same.
    pub fn same_as(&self, other: &PaymentMethodId) -> (r: bool)
        ensures
            r == (self@ == other@),
    {
        self.value == other.value
    }
}

impl FromStr for PaymentMethodId {
    type Err = OpaqueIdParseError;

    fn from_str(value: &str) -> (r: Result<Self, Self::Err>)
        ensures
            match spec_parse_opaque_id(value@) {
                Ok(v) => r is Ok && r->Ok_0@ == v,
                Err(e) => r == Err::<PaymentMethodId, OpaqueIdParseError>(e),
            },
    {
        PaymentMethodId::parse(value)
    }
}

/// The continuation cursor of the pending-request listing.
#[derive(Debug, PartialEq, Eq)]
pub struct RequestsBefore {
    value: String,
}

impl View for RequestsBefore {
    type V = Seq<char>;

    closed spec fn view(&self) -> Seq<char> {
        self.value@
    }
}

impl Clone for RequestsBefore {
    fn clone(&self) -> (r: Self)
        ensures
            r@ == self@,
    {
        proof {
            use_type_invariant(self);
        }
        RequestsBefore { value: self.value.clone() }
    }
}

impl RequestsBefore {
    /// Every identifier satisfies the identifier rules.
    #[verifier::type_invariant]
    pub open spec fn wf(&self) -> bool {
        valid_opaque_id(self@)
    }

    pub fn parse(value: &str) -> (r: Result<RequestsBefore, OpaqueIdParseError>)
        ensures
            match spec_parse_opaque_id(value@) {
                Ok(v) => r is Ok && r->Ok_0@ == v,
                Err(e) => r == Err::<RequestsBefore, OpaqueIdParseError>(e),
            },
    {
        check_opaque_id(value)?;
        Ok(RequestsBefore { value: value.to_owned() })
    }

    pub fn as_str(&self) -> (r: &str)
        ensures
            r@ == self@,
    {
        self.value.as_str()
    }

    /// Whether the two identifiers are the same.
    pub fn same_as(&self, other: &RequestsBefore) -> (r: bool)
        ensures
            r == (self@ == other@),
    {
        self.value == other.value
    }
}

impl FromStr for RequestsBefore {
    type Err = OpaqueIdParseError;

    fn from_str(value: &str) -> (r: Result<Self, Self::Err>)
        ensures
            match spec_parse_opaque_id(value@) {
                Ok(v) => r is Ok && r->Ok_0@ == v,
                Err(e) => r == Err::<RequestsBefore, OpaqueIdParseError>(e),
            },
    {
        RequestsBefore::parse(value)
    }
}

/// The identifier of the notification that approves a request.
#[derive(Debug, PartialEq, Eq)]
pub struct RequestNotificationId {
    value: String,
}

impl View for RequestNotificationId {
    type V = Seq<char>;

    closed spec fn view(&self) -> Seq<char> {
        self.value@
    }
}

impl Clone for RequestNotificationId {
    fn clone(&self) -> (r: Self)
        ensures
            r@ == self@,
    {
        proof {
            use_type_invariant(self);
        }
        RequestNotificationId { value: self.value.clone() }
    }
}

impl RequestNotificationId {
    /// Every identifier satisfies the identifier rules.
    #[verifier::type_invariant]
    pub open spec fn wf(&self) -> bool {
        valid_opaque_id(self@)
    }

    pub fn parse(value: &str) -> (r: Result<RequestNotificationId, OpaqueIdParseError>)
        ensures
            match spec_parse_opaque_id(value@) {
                Ok(v) => r is Ok && r->Ok_0@ == v,
                Err(e) => r == Err::<RequestNotificationId, OpaqueIdParseError>(e),
            },
    {
        check_opaque_id(value)?;
        Ok(RequestNotificationId { value: value.to_owned() })
    }

    pub fn as_str(&self) -> (r: &str)
        ensures
            r@ == self@,
    {
        self.value.as_str()
    }

    /// Whether the two identifiers are the same.
    pub fn same_as(&self, other: &RequestNotificationId) -> (r: bool)
        ensures
            r == (self@ == other@),
    {
        self.value == other.value
    }
}

impl FromStr for RequestNotificationId {
    type Err = OpaqueIdParseError;

    fn from_str(value: &str) -> (r: Result<Self, Self::Err>)
        ensures
            match spec_parse_opaque_id(value@) {
                Ok(v) => r is Ok && r->Ok_0@ == v,
                Err(e) => r == Err::<RequestNotificationId, OpaqueIdParseError>(e),
            },
    {
        RequestNotificationId::parse(value)
    }
}

/// The identifier of a payment.
#[derive(Debug, PartialEq, Eq)]
pub struct PaymentId {
    value: String,
}

impl View for PaymentId {
    type V = Seq<char>;

    closed spec fn view(&self) -> Seq<char> {
        self.value@
    }
}

impl Clone for PaymentId {
    fn clone(&self) -> (r: Self)
        ensures
            r@ == self@,
    {
        proof {
            use_type_invariant(self);
        }
        PaymentId { value: self.value.clone() }
    }
}

impl PaymentId {
    /// Every identifier satisfies the identifier rules.
    #[verifier::type_invariant]
    pub open spec fn wf(&self) -> bool {
        valid_opaque_id(self@)
    }

    pub fn parse(value: &str) -> (r: Result<PaymentId, OpaqueIdParseError>)
        ensures
            match spec_parse_opaque_id(value@) {
                Ok(v) => r is Ok && r->Ok_0@ == v,
                Err(e) => r == Err::<PaymentId, OpaqueIdParseError>(e),
            },
    {
        check_opaque_id(value)?;
        Ok(PaymentId { value: value.to_owned() })
    }

    pub fn as_str(&self) -> (r: &str)
        ensures
            r@ == self@,
    {
        self.value.as_str()
    }

    /// Whether the two identifiers are the same.
    pub fn same_as(&self, other: &PaymentId) -> (r: bool)
        ensures
            r == (self@ == other@),
    {
        self.value == other.value
    }
}

impl FromStr for PaymentId {
    type Err = OpaqueIdParseError;

    fn from_str(value: &str) -> (r: Result<Self, Self::Err>)
        ensures
            match spec_parse_opaque_id(value@) {
                Ok(v) => r is Ok && r->Ok_0@ == v,
                Err(e) => r == Err::<PaymentId, OpaqueIdParseError>(e),
            },
    {
        PaymentId::parse(value)
    }
}

// ---------------------------------------------------------------------------
// Usernames
// ---------------------------------------------------------------------------

/// The largest encoded size of a bare username.
pub const MAX_USERNAME_BYTES: u64 = 1023;

#[derive(Clone, Copy, Debug, PartialEq, Eq, Structural)]
pub enum UsernameParseError {
    Empty,
    TooLong { maximum_bytes: u64 },
    ControlCharacter,
    Whitespace,
}

/// The outcome of parsing a bare username (one given without `@`).
pub open spec fn spec_parse_bare_username(s: Seq<char>) -> Result<Seq<char>, UsernameParseError> {
    if s.len() == 0 {
        Err(UsernameParseError::Empty)
    } else if utf8_len(s) > MAX_USERNAME_BYTES {
        Err(UsernameParseError::TooLong { maximum_bytes: MAX_USERNAME_BYTES })
    } else if has_control(s) {
        Err(UsernameParseError::ControlCharacter)
    } else if has_whitespace(s) {
        Err(UsernameParseError::Whitespace)
    } else {
        Ok(s)
    }
}

/// A username given with or without one leading `@`.
pub open spec fn strip_at(s: Seq<char>) -> Seq<char> {
    if s.len() > 0 && s[0] == '@' {
        s.drop_first()
    } else {
        s
    }
}

pub open spec fn valid_username(s: Seq<char>) -> bool {
    spec_parse_bare_username(s) is Ok
}

/// A username typed with or without its `@` is the same username (or the
/// same error), unless it already starts with `@`.
pub proof fn lemma_optional_at_is_normalized(name: Seq<char>)
    requires
        !(name.len() > 0 && name[0] == '@'),
    ensures
        spec_parse_bare_username(strip_at(seq!['@'] + name)) == spec_parse_bare_username(
            strip_at(name),
        ),
{
    assert((seq!['@'] + name).drop_first() =~= name);
}

/// A username shown as `@` and its name reads back as the same username.
pub proof fn lemma_displayed_username_reads_back(name: Seq<char>)
    requires
        valid_username(name),
    ensures
        spec_parse_bare_username(strip_at(seq!['@'] + name)) == Ok::<Seq<char>, UsernameParseError>(
            name,
        ),
{
    assert((seq!['@'] + name).drop_first() =~= name);
}

/// A Venmo username, held without its `@` prefix.
#[derive(Debug, PartialEq, Eq)]
pub struct Username {
    value: String,
}

impl View for Username {
    type V = Seq<char>;

    closed spec fn view(&self) -> Seq<char> {
        self.value@
    }
}

impl Clone for Username {
    fn clone(&self) -> (r: Self)
        ensures
            r@ == self@,
    {
        proof {
            use_type_invariant(self);
        }
        Username { value: self.value.clone() }
    }
}

impl Username {
    /// Every username satisfies the username rules.
    #[verifier::type_invariant]
    pub open spec fn wf(&self) -> bool {
        valid_username(self@)
    }

    /// Parses a username given without `@`.
    pub fn from_bare(value: &str) -> (r: Result<Username, UsernameParseError>)
        ensures
            match spec_parse_bare_username(value@) {
                Ok(v) => r is Ok && r->Ok_0@ == v,
                Err(e) => r == Err::<Username, UsernameParseError>(e),
            },
    {
        if value.is_empty() {
            return Err(UsernameParseError::Empty);
        }
        if !utf8_len_at_most(value, MAX_USERNAME_BYTES) {
            return Err(UsernameParseError::TooLong { maximum_bytes: MAX_USERNAME_BYTES });
        }
        if contains_control(value) {
            return Err(UsernameParseError::ControlCharacter);
        }
        if contains_whitespace(value) {
            return Err(UsernameParseError::Whitespace);
        }
        Ok(Username { value: value.to_owned() })
    }

    /// Parses a username given with or without one leading `@`.
    pub fn from_optional_prefix(value: &str) -> (r: Result<Username, UsernameParseError>)
        ensures
            match spec_parse_bare_username(strip_at(value@)) {
                Ok(v) => r is Ok && r->Ok_0@ == v,
                Err(e) => r == Err::<Username, UsernameParseError>(e),
            },
    {
        let chars = crate::text::chars_of(value);
        if chars.len() > 0 && chars[0] == '@' {
            let rest = crate::text::string_from_chars(&chars, 1);
            assert(chars@.skip(1) =~= value@.drop_first());
            Username::from_bare(rest.as_str())
        } else {
            Username::from_bare(value)
        }
    }

    pub fn as_str(&self) -> (r: &str)
        ensures
            r@ == self@,
    {
        self.value.as_str()
    }

    /// The username as it is displayed: with its `@` prefix.
    pub fn display_string(&self) -> (r: String)
        ensures
            r@ == seq!['@'] + self@,
    {
        let mut s = "@".to_owned();
        proof {
            reveal_strlit("@");
        }
        s.append(self.value.as_str());
        s
    }

    pub fn same_as(&self, other: &Username) -> (r: bool)
        ensures
            r == (self@ == other@),
    {
        self.value == other.value
    }
}

// ---------------------------------------------------------------------------
// Paging, amounts and free text
// ---------------------------------------------------------------------------

/// A page size: a positive count of records.
#[derive(Clone, Copy, Debug, PartialEq, Eq, Structural)]
pub struct Limit {
    value: u32,
}

impl Limit {
    pub closed spec fn spec_get(self) -> u32 {
        self.value
    }

    /// Every limit is positive.
    #[verifier::type_invariant]
    pub open spec fn wf(self) -> bool {
        self.spec_get() > 0
    }

    /// The limit of `value` records, or `None` for zero.
    pub fn new(value: u32) -> (r: Option<Limit>)
        ensures
            value == 0 <==> r is None,
            r matches Some(l) ==> l.spec_get() == value,
    {
        if value == 0 {
            None
        } else {
            Some(Limit { value })
        }
    }

    /// The limit of `value` records, for a positive `value`.
    pub fn from_positive(value: u32) -> (r: Limit)
        requires
            value > 0,
        ensures
            r.spec_get() == value,
    {
        Limit { value }
    }

    #[verifier::when_used_as_spec(spec_get)]
    pub fn get(self) -> (r: u32)
        ensures
            r == self.spec_get(),
            r > 0,
    {
        proof {
            use_type_invariant(self);
        }
        self.value
    }
}

/// A numeric paging offset.
#[derive(Clone, Copy, Debug, PartialEq, Eq, Structural)]
pub struct Offset {
    value: u64,
}

impl Offset {
    pub closed spec fn spec_get(self) -> u64 {
        self.value
    }

    /// The offset of the first record.
    pub closed spec fn spec_start() -> Offset {
        Offset { value: 0 }
    }

    /// The first record is record zero.
    pub proof fn lemma_start_is_zero()
        ensures
            Offset::spec_start().spec_get() == 0,
    {
    }

    pub fn new(value: u64) -> (r: Offset)
        ensures
            r.spec_get() == value,
    {
        Offset { value }
    }

    #[verifier::when_used_as_spec(spec_get)]
    pub fn get(self) -> (r: u64)
        ensures
            r == self.spec_get(),
    {
        self.value
    }
}

impl Default for Offset {
    fn default() -> (r: Offset)
        ensures
            r.spec_get() == 0,
            r == Offset::spec_start(),
    {
        Offset { value: 0 }
    }
}

#[derive(Clone, Copy, Debug, PartialEq, Eq, Structural)]
pub enum MoneyError {
    Zero,
}

/// A positive amount of US dollars, in cents.
#[derive(Clone, Copy, Debug, PartialEq, Eq, Structural)]
pub struct Money {
    cents: u64,
}

impl Money {
    pub closed spec fn spec_cents(self) -> u64 {
        self.cents
    }

    /// Every amount is positive.
    #[verifier::type_invariant]
    pub open spec fn wf(self) -> bool {
        self.spec_cents() > 0
    }

    pub fn from_cents(cents: u64) -> (r: Result<Money, MoneyError>)
        ensures
            cents == 0 <==> r is Err,
            r matches Ok(m) ==> m.spec_cents() == cents,
    {
        if cents == 0 {
            Err(MoneyError::Zero)
        } else {
            Ok(Money { cents })
        }
    }

    #[verifier::when_used_as_spec(spec_cents)]
    pub fn cents(self) -> (r: u64)
        ensures
            r == self.spec_cents(),
            r > 0,
    {
        proof {
            use_type_invariant(self);
        }
        self.cents
    }
}

#[derive(Clone, Copy, Debug, PartialEq, Eq, Structural)]
pub enum NoteParseError {
    Empty,
}

/// A payment note: text with at least one non-whitespace character.
#[derive(Debug, PartialEq, Eq)]
pub struct Note {
    value: String,
}

impl View for Note {
    type V = Seq<char>;

    closed spec fn view(&self) -> Seq<char> {
        self.value@
    }
}

impl Clone for Note {
    fn clone(&self) -> (r: Self)
        ensures
            r@ == self@,
    {
        proof {
            use_type_invariant(self);
        }
        Note { value: self.value.clone() }
    }
}

impl Note {
    #[verifier::type_invariant]
    pub open spec fn wf(&self) -> bool {
        !is_blank(self@)
    }

    pub fn parse(value: &str) -> (r: Result<Note, NoteParseError>)
        ensures
            is_blank(value@) ==> r == Err::<Note, NoteParseError>(NoteParseError::Empty),
            !is_blank(value@) ==> r is Ok && r->Ok_0@ == value@,
    {
        if blank(value) {
            Err(NoteParseError::Empty)
        } else {
            Ok(Note { value: value.to_owned() })
        }
    }

    pub fn as_str(&self) -> (r: &str)
        ensures
            r@ == self@,
    {
        self.value.as_str()
    }
}

impl FromStr for Note {
    type Err = NoteParseError;

    fn from_str(value: &str) -> (r: Result<Self, Self::Err>)
        ensures
            is_blank(value@) ==> r == Err::<Note, NoteParseError>(NoteParseError::Empty),
            !is_blank(value@) ==> r is Ok && r->Ok_0@ == value@,
    {
        Note::parse(value)
    }
}

/// Who can see a payment or request.
#[derive(Clone, Copy, Debug, PartialEq, Eq, Structural)]
pub enum Visibility {
    Private,
    Friends,
    Public,
}

#[derive(Clone, Copy, Debug, PartialEq, Eq, Structural)]
pub enum VisibilityParseError {
    Unsupported,
}

pub open spec fn spec_parse_visibility(s: Seq<char>) -> Option<Visibility> {
    if s == "private"@ {
        Some(Visibility::Private)
    } else if s == "friends"@ {
        Some(Visibility::Friends)
    } else if s == "public"@ {
        Some(Visibility::Public)
    } else {
        None
    }
}

impl Visibility {
    /// Parses one of `private`, `friends` or `public`.
    pub fn parse(value: &str) -> (r: Result<Visibility, VisibilityParseError>)
        ensures
            match spec_parse_visibility(value@) {
                Some(v) => r == Ok::<Visibility, VisibilityParseError>(v),
                None => r == Err::<Visibility, VisibilityParseError>(VisibilityParseError::Unsupported),
            },
    {
        let owned = value.to_owned();
        if owned == "private".to_owned() {
            proof {
                reveal_strlit("private");
            }
            Ok(Visibility::Private)
        } else if owned == "friends".to_owned() {
            proof {
                reveal_strlit("private");
                reveal_strlit("friends");
            }
            Ok(Visibility::Friends)
        } else if owned == "public".to_owned() {
            proof {
                reveal_strlit("private");
                reveal_strlit("friends");
                reveal_strlit("public");
            }
            Ok(Visibility::Public)
        } else {
            Err(VisibilityParseError::Unsupported)
        }
    }
}

impl FromStr for Visibility {
    type Err = VisibilityParseError;

    fn from_str(value: &str) -> (r: Result<Self, Self::Err>)
        ensures
            match spec_parse_visibility(value@) {
                Some(v) => r == Ok::<Visibility, VisibilityParseError>(v),
                None => r == Err::<Visibility, VisibilityParseError>(VisibilityParseError::Unsupported),
            },
    {
        Visibility::parse(value)
    }
}

// ---------------------------------------------------------------------------
// Accounts and the stored credential
// ---------------------------------------------------------------------------

/// The Venmo account that the service reports as signed in.
#[derive(Clone, Debug, PartialEq, Eq)]
pub struct Account {
    pub user_id: UserId,
    pub username: Username,
    pub display_name: Option<String>,
}

impl Account {
    pub fn new(user_id: UserId, username: Username, display_name: Option<String>) -> (r: Account)
        ensures
            r.user_id == user_id,
            r.username == username,
            r.display_name == display_name,
    {
        Account { user_id, username, display_name }
    }

    pub fn user_id(&self) -> (r: &UserId)
        ensures
            r == &self.user_id,
    {
        &self.user_id
    }

    pub fn username(&self) -> (r: &Username)
        ensures
            r == &self.username,
    {
        &self.username
    }
}

/// The stored session of the signed-in account.
#[derive(Clone, PartialEq, Eq)]
pub struct CredentialEnvelope {
    pub access_token: String,
    pub device_id: String,
    pub user_id: UserId,
    pub username: Username,
    pub display_name: Option<String>,
}

impl CredentialEnvelope {
    pub fn new(
        access_token: String,
        device_id: String,
        user_id: UserId,
        username: Username,
        display_name: Option<String>,
    ) -> (r: CredentialEnvelope)
        ensures
            r.access_token == access_token,
            r.device_id == device_id,
            r.user_id == user_id,
            r.username == username,
            r.display_name == display_name,
    {
        CredentialEnvelope { access_token, device_id, user_id, username, display_name }
    }

    pub fn user_id(&self) -> (r: &UserId)
        ensures
            r == &self.user_id,
    {
        &self.user_id
    }

    pub fn username(&self) -> (r: &Username)
        ensures
            r == &self.username,
    {
        &self.username
    }
}

// ---------------------------------------------------------------------------
// Time stamps and client request identifiers
// ---------------------------------------------------------------------------

/// An instant, as nanoseconds since the Unix epoch. Two times written with
/// different UTC offsets are the same instant exactly when they are equal here.
#[derive(Clone, Copy, Debug, PartialEq, Eq, Structural)]
pub struct Timestamp {
    pub unix_nanos: i128,
}

impl Timestamp {
    pub fn from_unix_nanos(unix_nanos: i128) -> (r: Timestamp)
        ensures
            r.unix_nanos == unix_nanos,
    {
        Timestamp { unix_nanos }
    }

    pub fn unix_nanos(self) -> (r: i128)
        ensures
            r == self.unix_nanos,
    {
        self.unix_nanos
    }
}

/// The idempotency key that the client attaches to a write.
#[derive(Clone, Copy, Debug, PartialEq, Eq, Structural)]
pub struct ClientRequestId {
    pub value: u128,
}

impl ClientRequestId {
    pub fn new(value: u128) -> (r: ClientRequestId)
        ensures
            r.value == value,
    {
        ClientRequestId { value }
    }

    pub fn value(self) -> (r: u128)
        ensures
            r == self.value,
    {
        self.value
    }
}

} // verus!
