//! The wallet balance and the stored payment methods.
use vstd::prelude::*;

use crate::people::user::{clone_optional_string, optional_str, string_view};
use crate::shared::PaymentMethodId;

verus! {

/// A signed amount of US dollars, in cents.
#[derive(Clone, Copy, Debug, PartialEq, Eq, Structural)]
pub struct SignedUsdAmount {
    pub cents: i64,
}

impl SignedUsdAmount {
    pub fn from_cents(cents: i64) -> (r: SignedUsdAmount)
        ensures
            r.cents == cents,
    {
        SignedUsdAmount { cents }
    }

    pub fn cents(self) -> (r: i64)
        ensures
            r == self.cents,
    {
        self.cents
    }
}

/// The wallet balance: what is available and what is on hold.
#[derive(Clone, Copy, Debug, PartialEq, Eq, Structural)]
pub struct Balance {
    pub available: SignedUsdAmount,
    pub on_hold: SignedUsdAmount,
}

impl Balance {
    pub fn new(available: SignedUsdAmount, on_hold: SignedUsdAmount) -> (r: Balance)
        ensures
            r.available == available,
            r.on_hold == on_hold,
    {
        Balance { available, on_hold }
    }

    pub fn available(&self) -> (r: SignedUsdAmount)
        ensures
            r == self.available,
    {
        self.available
    }

    pub fn on_hold(&self) -> (r: SignedUsdAmount)
        ensures
            r == self.on_hold,
    {
        self.on_hold
    }
}

pub struct PaymentMethodView {
    pub id: Seq<char>,
    pub name: Option<Seq<char>>,
    pub kind: Option<Seq<char>>,
    pub last_four: Option<Seq<char>>,
    pub is_default: bool,
}

/// A stored payment method.
#[derive(Debug, PartialEq, Eq)]
pub struct PaymentMethod {
    id: PaymentMethodId,
    name: Option<String>,
    kind: Option<String>,
    last_four: Option<String>,
    is_default: bool,
}

impl View for PaymentMethod {
    type V = PaymentMethodView;

    closed spec fn view(&self) -> PaymentMethodView {
        PaymentMethodView {
            id: self.id@,
            name: string_view(self.name),
            kind: string_view(self.kind),
            last_four: string_view(self.last_four),
            is_default: self.is_default,
        }
    }
}

impl Clone for PaymentMethod {
    fn clone(&self) -> (r: Self)
        ensures
            r@ == self@,
    {
        PaymentMethod {
            id: self.id.clone(),
            name: clone_optional_string(&self.name),
            kind: clone_optional_string(&self.kind),
            last_four: clone_optional_string(&self.last_four),
            is_default: self.is_default,
        }
    }
}

impl PaymentMethod {
    pub fn new(
        id: PaymentMethodId,
        name: Option<String>,
        kind: Option<String>,
        last_four: Option<String>,
        is_default: bool,
    ) -> (r: PaymentMethod)
        ensures
            r@ == (PaymentMethodView {
                id: id@,
                name: string_view(name),
                kind: string_view(kind),
                last_four: string_view(last_four),
                is_default,
            }),
    {
        PaymentMethod { id, name, kind, last_four, is_default }
    }

    pub fn id(&self) -> (r: &PaymentMethodId)
        ensures
            r@ == self@.id,
    {
        &self.id
    }

    pub fn name(&self) -> (r: Option<&str>)
        ensures
            match r {
                Some(n) => self@.name == Some(n@),
                None => self@.name is None,
            },
    {
        optional_str(&self.name)
    }

    pub fn kind(&self) -> (r: Option<&str>)
        ensures
            match r {
                Some(n) => self@.kind == Some(n@),
                None => self@.kind is None,
            },
    {
        optional_str(&self.kind)
    }

    pub fn last_four(&self) -> (r: Option<&str>)
        ensures
            match r {
                Some(n) => self@.last_four == Some(n@),
                None => self@.last_four is None,
            },
    {
        optional_str(&self.last_four)
    }

    pub fn is_default(&self) -> (r: bool)
        ensures
            r == self@.is_default,
    {
        self.is_default
    }
}

} // verus!
