//! Bank transfers between the Venmo balance and the account's banks.
use std::str::FromStr;
use vstd::prelude::*;

use crate::first_seen::views;
use crate::people::user::{optional_str, string_view};
use crate::shared::{Account, Money, Timestamp, TransferId, TransferInstrumentId};
use crate::text::{
    decimal, decimal_string, is_control, is_whitespace, spec_is_control, spec_is_whitespace,
};
use crate::wallet::model::Balance;

verus! {

/// An invisible formatting character that could disguise a suffix: the soft
/// hyphen, the Arabic letter mark, the Mongolian vowel separator, the
/// zero-width and directional marks, the invisible operators and the byte
/// order mark.
pub open spec fn spec_is_invisible_format_control(c: char) -> bool {
    let v = c as u32;
    ||| v == 0xAD
    ||| v == 0x61C
    ||| v == 0x180E
    ||| 0x200B <= v && v <= 0x200F
    ||| 0x202A <= v && v <= 0x202E
    ||| 0x2060 <= v && v <= 0x206F
    ||| v == 0xFEFF
}

pub fn is_invisible_format_control(c: char) -> (r: bool)
    ensures
        r == spec_is_invisible_format_control(c),
{
    let v = c as u32;
    v == 0xAD || v == 0x61C || v == 0x180E || (0x200B <= v && v <= 0x200F) || (0x202A <= v && v
        <= 0x202E) || (0x2060 <= v && v <= 0x206F) || v == 0xFEFF
}

/// A visible, non-whitespace character.
pub open spec fn is_visible_char(c: char) -> bool {
    !spec_is_whitespace(c) && !spec_is_control(c) && !spec_is_invisible_format_control(c)
}

/// A valid suffix is exactly four visible, non-whitespace characters.
pub open spec fn valid_suffix(s: Seq<char>) -> bool {
    s.len() == 4 && forall|i: int| 0 <= i < s.len() ==> is_visible_char(#[trigger] s[i])
}

#[derive(Clone, Copy, Debug, PartialEq, Eq, Structural)]
pub struct TransferInstrumentSuffixParseError;

/// The last four characters that identify a bank or card.
#[derive(PartialEq, Eq)]
pub struct TransferInstrumentSuffix(String);

impl View for TransferInstrumentSuffix {
    type V = Seq<char>;

    closed spec fn view(&self) -> Seq<char> {
        self.0@
    }
}

impl Clone for TransferInstrumentSuffix {
    fn clone(&self) -> (r: Self)
        ensures
            r@ == self@,
    {
        TransferInstrumentSuffix(self.0.clone())
    }
}

impl TransferInstrumentSuffix {
    pub fn parse(value: &str) -> (r: Result<TransferInstrumentSuffix, TransferInstrumentSuffixParseError>)
        ensures
            valid_suffix(value@) <==> r is Ok,
            r matches Ok(s) ==> s@ == value@,
    {
        let chars = crate::text::chars_of(value);
        if chars.len() != 4 {
            return Err(TransferInstrumentSuffixParseError);
        }
        let mut i: usize = 0;
        while i < chars.len()
            invariant
                chars@ == value@,
                i <= chars@.len(),
                forall|j: int| 0 <= j < i ==> is_visible_char(#[trigger] value@[j]),
            decreases chars@.len() - i,
        {
            let c = chars[i];
            if is_whitespace(c) || is_control(c) || is_invisible_format_control(c) {
                return Err(TransferInstrumentSuffixParseError);
            }
            i = i + 1;
        }
        Ok(TransferInstrumentSuffix(value.to_owned()))
    }

    pub fn as_str(&self) -> (r: &str)
        ensures
            r@ == self@,
    {
        self.0.as_str()
    }

    /// The debugging rendering, with the suffix redacted.
    pub fn redacted_debug(&self) -> (r: String)
        ensures
            r@ == "TransferInstrumentSuffix([REDACTED])"@,
    {
        "TransferInstrumentSuffix([REDACTED])".to_owned()
    }
}

impl FromStr for TransferInstrumentSuffix {
    type Err = TransferInstrumentSuffixParseError;

    fn from_str(value: &str) -> (r: Result<Self, Self::Err>)
        ensures
            valid_suffix(value@) <==> r is Ok,
            r matches Ok(s) ==> s@ == value@,
    {
        TransferInstrumentSuffix::parse(value)
    }
}

#[derive(Clone, Copy, Debug, PartialEq, Eq, Structural)]
pub enum TransferDirection {
    In,
    Out,
}

impl TransferDirection {
    pub open spec fn spec_as_str(self) -> Seq<char> {
        match self {
            TransferDirection::In => "in"@,
            TransferDirection::Out => "out"@,
        }
    }

    pub fn as_str(self) -> (r: &'static str)
        ensures
            r@ == self.spec_as_str(),
    {
        match self {
            TransferDirection::In => "in",
            TransferDirection::Out => "out",
        }
    }
}

#[derive(Clone, Copy, Debug, PartialEq, Eq, Structural)]
pub enum TransferSpeed {
    Standard,
    Instant,
}

impl TransferSpeed {
    pub open spec fn spec_as_str(self) -> Seq<char> {
        match self {
            TransferSpeed::Standard => "standard"@,
            TransferSpeed::Instant => "instant"@,
        }
    }

    pub fn as_str(self) -> (r: &'static str)
        ensures
            r@ == self.spec_as_str(),
    {
        match self {
            TransferSpeed::Standard => "standard",
            TransferSpeed::Instant => "instant",
        }
    }
}

pub struct TransferInstrumentView {
    pub id: Seq<char>,
    pub name: Seq<char>,
    pub asset_name: Seq<char>,
    pub instrument_type: Seq<char>,
    pub last_four: Seq<char>,
    pub is_default: bool,
    pub transfer_to_estimate: Seq<char>,
}

/// A bank or card that a transfer can use.
#[derive(PartialEq, Eq)]
pub struct TransferInstrument {
    id: TransferInstrumentId,
    name: String,
    asset_name: String,
    instrument_type: String,
    last_four: TransferInstrumentSuffix,
    is_default: bool,
    transfer_to_estimate: String,
}

impl View for TransferInstrument {
    type V = TransferInstrumentView;

    closed spec fn view(&self) -> TransferInstrumentView {
        TransferInstrumentView {
            id: self.id@,
            name: self.name@,
            asset_name: self.asset_name@,
            instrument_type: self.instrument_type@,
            last_four: self.last_four@,
            is_default: self.is_default,
            transfer_to_estimate: self.transfer_to_estimate@,
        }
    }
}

impl Clone for TransferInstrument {
    fn clone(&self) -> (r: Self)
        ensures
            r@ == self@,
    {
        TransferInstrument {
            id: self.id.clone(),
            name: self.name.clone(),
            asset_name: self.asset_name.clone(),
            instrument_type: self.instrument_type.clone(),
            last_four: self.last_four.clone(),
            is_default: self.is_default,
            transfer_to_estimate: self.transfer_to_estimate.clone(),
        }
    }
}

impl TransferInstrument {
    pub fn new(
        id: TransferInstrumentId,
        name: String,
        asset_name: String,
        instrument_type: String,
        last_four: TransferInstrumentSuffix,
        is_default: bool,
        transfer_to_estimate: String,
    ) -> (r: TransferInstrument)
        ensures
            r@ == (TransferInstrumentView {
                id: id@,
                name: name@,
                asset_name: asset_name@,
                instrument_type: instrument_type@,
                last_four: last_four@,
                is_default,
                transfer_to_estimate: transfer_to_estimate@,
            }),
    {
        TransferInstrument {
            id,
            name,
            asset_name,
            instrument_type,
            last_four,
            is_default,
            transfer_to_estimate,
        }
    }

    pub fn id(&self) -> (r: &TransferInstrumentId)
        ensures
            r@ == self@.id,
    {
        &self.id
    }

    pub fn name(&self) -> (r: &str)
        ensures
            r@ == self@.name,
    {
        self.name.as_str()
    }

    pub fn asset_name(&self) -> (r: &str)
        ensures
            r@ == self@.asset_name,
    {
        self.asset_name.as_str()
    }

    pub fn instrument_type(&self) -> (r: &str)
        ensures
            r@ == self@.instrument_type,
    {
        self.instrument_type.as_str()
    }

    pub fn last_four(&self) -> (r: &str)
        ensures
            r@ == self@.last_four,
    {
        self.last_four.as_str()
    }

    pub fn is_default(&self) -> (r: bool)
        ensures
            r == self@.is_default,
    {
        self.is_default
    }

    pub fn transfer_to_estimate(&self) -> (r: &str)
        ensures
            r@ == self@.transfer_to_estimate,
    {
        self.transfer_to_estimate.as_str()
    }

    /// Whether the instrument is a bank account.
    pub fn is_bank(&self) -> (r: bool)
        ensures
            r == (self@.instrument_type == "bank"@),
    {
        self.instrument_type == "bank".to_owned()
    }
}

/// Fee fields of a transfer mode, kept only to detect them.
#[derive(PartialEq, Eq)]
pub struct TransferFeeMetadata {
    minimum_amount: Option<String>,
    maximum_amount: Option<String>,
    variable_percentage: Option<String>,
    has_additional_non_null_fields: bool,
}

impl Default for TransferFeeMetadata {
    fn default() -> (r: TransferFeeMetadata)
        ensures
            r.spec_is_empty(),
    {
        TransferFeeMetadata {
            minimum_amount: None,
            maximum_amount: None,
            variable_percentage: None,
            has_additional_non_null_fields: false,
        }
    }
}

impl TransferFeeMetadata {
    /// No fee field is present.
    pub closed spec fn spec_is_empty(&self) -> bool {
        self.minimum_amount is None && self.maximum_amount is None
            && self.variable_percentage is None && !self.has_additional_non_null_fields
    }

    pub fn new(
        minimum_amount: Option<String>,
        maximum_amount: Option<String>,
        variable_percentage: Option<String>,
        has_additional_non_null_fields: bool,
    ) -> (r: TransferFeeMetadata)
        ensures
            r.spec_minimum_amount() == string_view(minimum_amount),
            r.spec_maximum_amount() == string_view(maximum_amount),
            r.spec_variable_percentage() == string_view(variable_percentage),
            r.spec_has_additional() == has_additional_non_null_fields,
            r.spec_is_empty() <==> (minimum_amount is None && maximum_amount is None
                && variable_percentage is None && !has_additional_non_null_fields),
    {
        TransferFeeMetadata {
            minimum_amount,
            maximum_amount,
            variable_percentage,
            has_additional_non_null_fields,
        }
    }

    pub closed spec fn spec_minimum_amount(&self) -> Option<Seq<char>> {
        string_view(self.minimum_amount)
    }

    pub closed spec fn spec_maximum_amount(&self) -> Option<Seq<char>> {
        string_view(self.maximum_amount)
    }

    pub closed spec fn spec_variable_percentage(&self) -> Option<Seq<char>> {
        string_view(self.variable_percentage)
    }

    pub fn minimum_amount(&self) -> (r: Option<&str>)
        ensures
            match r {
                Some(a) => self.spec_minimum_amount() == Some(a@),
                None => self.spec_minimum_amount() is None,
            },
    {
        optional_str(&self.minimum_amount)
    }

    pub fn maximum_amount(&self) -> (r: Option<&str>)
        ensures
            match r {
                Some(a) => self.spec_maximum_amount() == Some(a@),
                None => self.spec_maximum_amount() is None,
            },
    {
        optional_str(&self.maximum_amount)
    }

    pub fn variable_percentage(&self) -> (r: Option<&str>)
        ensures
            match r {
                Some(a) => self.spec_variable_percentage() == Some(a@),
                None => self.spec_variable_percentage() is None,
            },
    {
        optional_str(&self.variable_percentage)
    }

    pub fn has_additional_non_null_fields(&self) -> (r: bool)
        ensures
            r == self.spec_has_additional(),
    {
        self.has_additional_non_null_fields
    }

    #[verifier::when_used_as_spec(spec_is_empty)]
    pub fn is_empty(&self) -> (r: bool)
        ensures
            r == self.spec_is_empty(),
    {
        self.minimum_amount.is_none() && self.maximum_amount.is_none()
            && self.variable_percentage.is_none() && !self.has_additional_non_null_fields
    }
}

/// The eligible instruments and fees of one transfer speed.
#[derive(PartialEq, Eq)]
pub struct TransferModeOptions {
    eligible_sources: Vec<TransferInstrument>,
    eligible_destinations: Vec<TransferInstrument>,
    fee: TransferFeeMetadata,
    transfer_to_estimate: String,
}

impl TransferModeOptions {
    pub closed spec fn spec_sources(&self) -> Seq<TransferInstrumentView> {
        views(self.eligible_sources@)
    }

    pub closed spec fn spec_destinations(&self) -> Seq<TransferInstrumentView> {
        views(self.eligible_destinations@)
    }

    pub closed spec fn spec_fee(&self) -> &TransferFeeMetadata {
        &self.fee
    }

    pub fn new(
        eligible_sources: Vec<TransferInstrument>,
        eligible_destinations: Vec<TransferInstrument>,
        fee: TransferFeeMetadata,
        transfer_to_estimate: String,
    ) -> (r: TransferModeOptions)
        ensures
            r.spec_sources() == views(eligible_sources@),
            r.spec_destinations() == views(eligible_destinations@),
            *r.spec_fee() == fee,
            r.spec_transfer_to_estimate() == transfer_to_estimate@,
    {
        TransferModeOptions { eligible_sources, eligible_destinations, fee, transfer_to_estimate }
    }

    pub fn eligible_sources(&self) -> (r: &[TransferInstrument])
        ensures
            views(r@) == self.spec_sources(),
    {
        self.eligible_sources.as_slice()
    }

    pub fn eligible_destinations(&self) -> (r: &[TransferInstrument])
        ensures
            views(r@) == self.spec_destinations(),
    {
        self.eligible_destinations.as_slice()
    }

    pub fn fee(&self) -> (r: &TransferFeeMetadata)
        ensures
            r == self.spec_fee(),
    {
        &self.fee
    }

    pub closed spec fn spec_transfer_to_estimate(&self) -> Seq<char> {
        self.transfer_to_estimate@
    }

    pub fn transfer_to_estimate(&self) -> (r: &str)
        ensures
            r@ == self.spec_transfer_to_estimate(),
    {
        self.transfer_to_estimate.as_str()
    }
}

/// Everything the service offers for transfers: preferred speeds, the two
/// modes, and the current add-funds limits.
#[derive(PartialEq, Eq)]
pub struct TransferOptions {
    preferred_in: Option<TransferSpeed>,
    preferred_out: Option<TransferSpeed>,
    standard: TransferModeOptions,
    instant: TransferModeOptions,
    add_funds_minimum_cents: Option<u64>,
    add_funds_maximum_cents: Option<u64>,
}

impl TransferOptions {
    pub closed spec fn spec_standard(&self) -> &TransferModeOptions {
        &self.standard
    }

    pub closed spec fn spec_instant(&self) -> &TransferModeOptions {
        &self.instant
    }

    pub closed spec fn spec_add_funds_minimum_cents(&self) -> Option<u64> {
        self.add_funds_minimum_cents
    }

    pub closed spec fn spec_add_funds_maximum_cents(&self) -> Option<u64> {
        self.add_funds_maximum_cents
    }

    /// Options without add-funds limits.
    pub fn new(
        preferred_in: Option<TransferSpeed>,
        preferred_out: Option<TransferSpeed>,
        standard: TransferModeOptions,
        instant: TransferModeOptions,
    ) -> (r: TransferOptions)
        ensures
            r.spec_preferred_in() == preferred_in,
            r.spec_preferred_out() == preferred_out,
            *r.spec_standard() == standard,
            *r.spec_instant() == instant,
            r.spec_add_funds_minimum_cents() is None,
            r.spec_add_funds_maximum_cents() is None,
    {
        TransferOptions {
            preferred_in,
            preferred_out,
            standard,
            instant,
            add_funds_minimum_cents: None,
            add_funds_maximum_cents: None,
        }
    }

    /// The options with the current add-funds limits set.
    pub fn with_add_funds_limits(self, minimum_cents: Option<u64>, maximum_cents: Option<u64>) -> (r:
        TransferOptions)
        ensures
            r.spec_preferred_in() == self.spec_preferred_in(),
            r.spec_preferred_out() == self.spec_preferred_out(),
            *r.spec_standard() == *self.spec_standard(),
            *r.spec_instant() == *self.spec_instant(),
            r.spec_add_funds_minimum_cents() == minimum_cents,
            r.spec_add_funds_maximum_cents() == maximum_cents,
    {
        TransferOptions {
            add_funds_minimum_cents: minimum_cents,
            add_funds_maximum_cents: maximum_cents,
            ..self
        }
    }

    pub fn preferred_in(&self) -> (r: Option<TransferSpeed>)
        ensures
            r == self.spec_preferred_in(),
    {
        self.preferred_in
    }

    pub fn preferred_out(&self) -> (r: Option<TransferSpeed>)
        ensures
            r == self.spec_preferred_out(),
    {
        self.preferred_out
    }

    pub fn standard(&self) -> (r: &TransferModeOptions)
        ensures
            r == self.spec_standard(),
    {
        &self.standard
    }

    pub fn instant(&self) -> (r: &TransferModeOptions)
        ensures
            r == self.spec_instant(),
    {
        &self.instant
    }

    pub fn add_funds_minimum_cents(&self) -> (r: Option<u64>)
        ensures
            r == self.spec_add_funds_minimum_cents(),
    {
        self.add_funds_minimum_cents
    }

    pub fn add_funds_maximum_cents(&self) -> (r: Option<u64>)
        ensures
            r == self.spec_add_funds_maximum_cents(),
    {
        self.add_funds_maximum_cents
    }
}

/// A transfer out of the balance about to be made.
#[derive(PartialEq, Eq)]
pub struct TransferOutPlan {
    account: Account,
    balance: Balance,
    amount: Money,
    speed: TransferSpeed,
    destination: TransferInstrument,
}

impl TransferOutPlan {
    pub closed spec fn spec_account(&self) -> Account {
        self.account
    }

    pub closed spec fn spec_balance(&self) -> Balance {
        self.balance
    }

    pub closed spec fn spec_amount(&self) -> Money {
        self.amount
    }

    pub closed spec fn spec_speed(&self) -> TransferSpeed {
        self.speed
    }

    pub closed spec fn spec_destination(&self) -> TransferInstrumentView {
        self.destination@
    }

    pub fn new(
        account: Account,
        balance: Balance,
        amount: Money,
        speed: TransferSpeed,
        destination: TransferInstrument,
    ) -> (r: TransferOutPlan)
        ensures
            r.spec_account() == account,
            r.spec_balance() == balance,
            r.spec_amount() == amount,
            r.spec_speed() == speed,
            r.spec_destination() == destination@,
    {
        TransferOutPlan { account, balance, amount, speed, destination }
    }

    pub fn account(&self) -> (r: &Account)
        ensures
            *r == self.spec_account(),
    {
        &self.account
    }

    pub fn balance(&self) -> (r: &Balance)
        ensures
            *r == self.spec_balance(),
    {
        &self.balance
    }

    pub fn amount(&self) -> (r: Money)
        ensures
            r == self.spec_amount(),
    {
        self.amount
    }

    pub fn speed(&self) -> (r: TransferSpeed)
        ensures
            r == self.spec_speed(),
    {
        self.speed
    }

    pub fn destination(&self) -> (r: &TransferInstrument)
        ensures
            r@ == self.spec_destination(),
    {
        &self.destination
    }

    /// The debugging rendering: everything redacted.
    pub fn redacted_debug(&self) -> (r: String)
        ensures
            r@ == "TransferOutPlan([REDACTED])"@,
    {
        "TransferOutPlan([REDACTED])".to_owned()
    }
}

/// A transfer out of the balance, as the service created it.
#[derive(PartialEq, Eq)]
pub struct CreatedTransfer {
    id: TransferId,
    status: String,
    requested_at: Timestamp,
    net_amount: Money,
    fee_cents: u64,
}

impl CreatedTransfer {
    pub closed spec fn spec_id(&self) -> Seq<char> {
        self.id@
    }

    pub closed spec fn spec_status(&self) -> Seq<char> {
        self.status@
    }

    pub closed spec fn spec_requested_at(&self) -> Timestamp {
        self.requested_at
    }

    pub closed spec fn spec_net_amount(&self) -> Money {
        self.net_amount
    }

    pub closed spec fn spec_fee_cents(&self) -> u64 {
        self.fee_cents
    }

    pub fn new(
        id: TransferId,
        status: String,
        requested_at: Timestamp,
        net_amount: Money,
        fee_cents: u64,
    ) -> (r: CreatedTransfer)
        ensures
            r.spec_id() == id@,
            r.spec_status() == status@,
            r.spec_requested_at() == requested_at,
            r.spec_net_amount() == net_amount,
            r.spec_fee_cents() == fee_cents,
    {
        CreatedTransfer { id, status, requested_at, net_amount, fee_cents }
    }

    pub fn id(&self) -> (r: &TransferId)
        ensures
            r@ == self.spec_id(),
    {
        &self.id
    }

    pub fn status(&self) -> (r: &str)
        ensures
            r@ == self.spec_status(),
    {
        self.status.as_str()
    }

    pub fn requested_at(&self) -> (r: Timestamp)
        ensures
            r == self.spec_requested_at(),
    {
        self.requested_at
    }

    pub fn net_amount(&self) -> (r: Money)
        ensures
            r == self.spec_net_amount(),
    {
        self.net_amount
    }

    pub fn fee_cents(&self) -> (r: u64)
        ensures
            r == self.spec_fee_cents(),
    {
        self.fee_cents
    }
}

/// Money about to be added to the balance from a bank.
#[derive(PartialEq, Eq)]
pub struct TransferInPlan {
    account: Account,
    amount: Money,
    source: TransferInstrument,
}

impl TransferInPlan {
    pub closed spec fn spec_account(&self) -> Account {
        self.account
    }

    pub closed spec fn spec_amount(&self) -> Money {
        self.amount
    }

    pub closed spec fn spec_source(&self) -> TransferInstrumentView {
        self.source@
    }

    pub fn new(account: Account, amount: Money, source: TransferInstrument) -> (r: TransferInPlan)
        ensures
            r.spec_account() == account,
            r.spec_amount() == amount,
            r.spec_source() == source@,
    {
        TransferInPlan { account, amount, source }
    }

    pub fn account(&self) -> (r: &Account)
        ensures
            *r == self.spec_account(),
    {
        &self.account
    }

    pub fn amount(&self) -> (r: Money)
        ensures
            r == self.spec_amount(),
    {
        self.amount
    }

    pub fn source(&self) -> (r: &TransferInstrument)
        ensures
            r@ == self.spec_source(),
    {
        &self.source
    }
}

/// Added funds, as the service recorded them.
#[derive(Debug, PartialEq, Eq)]
pub struct CreatedTransferIn {
    id: TransferId,
    status: String,
}

impl CreatedTransferIn {
    pub closed spec fn spec_id(&self) -> Seq<char> {
        self.id@
    }

    pub closed spec fn spec_status(&self) -> Seq<char> {
        self.status@
    }

    pub fn new(id: TransferId, status: String) -> (r: CreatedTransferIn)
        ensures
            r.spec_id() == id@,
            r.spec_status() == status@,
    {
        CreatedTransferIn { id, status }
    }

    pub fn id(&self) -> (r: &TransferId)
        ensures
            r@ == self.spec_id(),
    {
        &self.id
    }

    pub fn status(&self) -> (r: &str)
        ensures
            r@ == self.spec_status(),
    {
        self.status.as_str()
    }
}


/// `true` or `false`, as `Debug` renders a `bool`.
pub open spec fn bool_debug(b: bool) -> Seq<char> {
    if b {
        "true"@
    } else {
        "false"@
    }
}

fn bool_debug_str(b: bool) -> (r: &'static str)
    ensures
        r@ == bool_debug(b),
{
    if b {
        "true"
    } else {
        "false"
    }
}

/// An optional speed, as `Debug` renders it.
pub open spec fn speed_option_debug(s: Option<TransferSpeed>) -> Seq<char> {
    match s {
        None => "None"@,
        Some(TransferSpeed::Standard) => "Some(Standard)"@,
        Some(TransferSpeed::Instant) => "Some(Instant)"@,
    }
}

fn speed_option_debug_str(s: Option<TransferSpeed>) -> (r: &'static str)
    ensures
        r@ == speed_option_debug(s),
{
    match s {
        None => "None",
        Some(TransferSpeed::Standard) => "Some(Standard)",
        Some(TransferSpeed::Instant) => "Some(Instant)",
    }
}

/// The debugging rendering of an instrument: only its type and whether it is
/// the default are shown.
pub open spec fn instrument_debug(i: TransferInstrumentView) -> Seq<char> {
    "TransferInstrument { id: \"[REDACTED]\", name: \"[REDACTED]\", asset_name: \"[REDACTED]\", instrument_type: \""@
        + i.instrument_type + "\", last_four: \"[REDACTED]\", is_default: "@ + bool_debug(i.is_default)
        + ", transfer_to_estimate: \"[REDACTED]\" }"@
}

impl TransferInstrument {
    /// The debugging rendering, with the identity, names, suffix and estimate redacted.
    pub fn redacted_debug(&self) -> (r: String)
        ensures
            r@ == instrument_debug(self@),
    {
        let mut s = "TransferInstrument { id: \"[REDACTED]\", name: \"[REDACTED]\", asset_name: \"[REDACTED]\", instrument_type: \"".to_owned();
        s.append(self.instrument_type.as_str());
        s.append("\", last_four: \"[REDACTED]\", is_default: ");
        s.append(bool_debug_str(self.is_default));
        s.append(", transfer_to_estimate: \"[REDACTED]\" }");
        s
    }
}

impl TransferFeeMetadata {
    pub closed spec fn spec_has_minimum(&self) -> bool {
        self.minimum_amount is Some
    }

    pub closed spec fn spec_has_maximum(&self) -> bool {
        self.maximum_amount is Some
    }

    pub closed spec fn spec_has_percentage(&self) -> bool {
        self.variable_percentage is Some
    }

    pub closed spec fn spec_has_additional(&self) -> bool {
        self.has_additional_non_null_fields
    }

    /// The debugging rendering: only which fee fields are present.
    pub open spec fn spec_debug(&self) -> Seq<char> {
        "TransferFeeMetadata { minimum_amount: "@ + bool_debug(self.spec_has_minimum())
            + ", maximum_amount: "@ + bool_debug(self.spec_has_maximum())
            + ", variable_percentage: "@ + bool_debug(self.spec_has_percentage())
            + ", has_additional_non_null_fields: "@ + bool_debug(self.spec_has_additional()) + " }"@
    }

    /// The debugging rendering, with the fee amounts redacted.
    pub fn redacted_debug(&self) -> (r: String)
        ensures
            r@ == self.spec_debug(),
    {
        let mut s = "TransferFeeMetadata { minimum_amount: ".to_owned();
        s.append(bool_debug_str(self.minimum_amount.is_some()));
        s.append(", maximum_amount: ");
        s.append(bool_debug_str(self.maximum_amount.is_some()));
        s.append(", variable_percentage: ");
        s.append(bool_debug_str(self.variable_percentage.is_some()));
        s.append(", has_additional_non_null_fields: ");
        s.append(bool_debug_str(self.has_additional_non_null_fields));
        s.append(" }");
        s
    }
}

impl TransferModeOptions {
    /// The debugging rendering: the instrument counts and the fee rendering.
    pub open spec fn spec_debug(&self) -> Seq<char> {
        "TransferModeOptions { eligible_source_count: "@ + decimal(self.spec_sources().len())
            + ", eligible_destination_count: "@ + decimal(self.spec_destinations().len())
            + ", fee: "@ + self.spec_fee().spec_debug() + ", transfer_to_estimate: \"[REDACTED]\" }"@
    }

    /// The debugging rendering, with the instruments and the estimate redacted.
    pub fn redacted_debug(&self) -> (r: String)
        ensures
            r@ == self.spec_debug(),
    {
        let mut s = "TransferModeOptions { eligible_source_count: ".to_owned();
        let sources = decimal_string(self.eligible_sources.len() as u64);
        s.append(sources.as_str());
        s.append(", eligible_destination_count: ");
        let destinations = decimal_string(self.eligible_destinations.len() as u64);
        s.append(destinations.as_str());
        s.append(", fee: ");
        let fee = self.fee.redacted_debug();
        s.append(fee.as_str());
        s.append(", transfer_to_estimate: \"[REDACTED]\" }");
        s
    }
}

impl TransferOptions {
    pub closed spec fn spec_preferred_in(&self) -> Option<TransferSpeed> {
        self.preferred_in
    }

    pub closed spec fn spec_preferred_out(&self) -> Option<TransferSpeed> {
        self.preferred_out
    }

    /// The debugging rendering: the preferred speeds and both mode renderings.
    pub open spec fn spec_debug(&self) -> Seq<char> {
        "TransferOptions { preferred_in: "@ + speed_option_debug(self.spec_preferred_in())
            + ", preferred_out: "@ + speed_option_debug(self.spec_preferred_out())
            + ", standard: "@ + self.spec_standard().spec_debug() + ", instant: "@
            + self.spec_instant().spec_debug() + " }"@
    }

    /// The debugging rendering, with every sensitive detail redacted.
    pub fn redacted_debug(&self) -> (r: String)
        ensures
            r@ == self.spec_debug(),
    {
        let mut s = "TransferOptions { preferred_in: ".to_owned();
        s.append(speed_option_debug_str(self.preferred_in));
        s.append(", preferred_out: ");
        s.append(speed_option_debug_str(self.preferred_out));
        s.append(", standard: ");
        let standard = self.standard.redacted_debug();
        s.append(standard.as_str());
        s.append(", instant: ");
        let instant = self.instant.redacted_debug();
        s.append(instant.as_str());
        s.append(" }");
        s
    }
}

impl CreatedTransfer {
    /// The debugging rendering: status, amount and fee; the identity and time redacted.
    pub open spec fn spec_debug(&self) -> Seq<char> {
        "CreatedTransfer { id: \"[REDACTED]\", status: \""@ + self.spec_status()
            + "\", requested_at: \"[REDACTED]\", net_amount: Money { cents: "@
            + decimal(self.spec_net_amount().spec_cents() as nat) + " }, fee_cents: "@
            + decimal(self.spec_fee_cents() as nat) + " }"@
    }

    /// The debugging rendering, with the identity and the time redacted.
    pub fn redacted_debug(&self) -> (r: String)
        ensures
            r@ == self.spec_debug(),
    {
        let mut s = "CreatedTransfer { id: \"[REDACTED]\", status: \"".to_owned();
        s.append(self.status.as_str());
        s.append("\", requested_at: \"[REDACTED]\", net_amount: Money { cents: ");
        let cents = decimal_string(self.net_amount.cents());
        s.append(cents.as_str());
        s.append(" }, fee_cents: ");
        let fee = decimal_string(self.fee_cents);
        s.append(fee.as_str());
        s.append(" }");
        s
    }
}

} // verus!
