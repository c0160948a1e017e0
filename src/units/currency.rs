//! National currencies, by their ISO 4217 codes.
use vstd::prelude::*;

use crate::text::str_eq;
use crate::units::UnitLike;

verus! {

/// A national currency. `NotACurrency` is the sentinel for a price that has
/// none; its code is `XXX`.
#[derive(Clone, Copy, Debug, PartialEq, Eq, Structural, Hash)]
pub enum Currency {
    EUR,
    USD,
    GBP,
    CHF,
    CAD,
    AUD,
    JPY,
    RUB,
    SAR,
    NotACurrency,
}

impl Currency {
    /// The code that stands for this currency in an encoding.
    pub open spec fn spec_code(self) -> Seq<char> {
        match self {
            Currency::EUR => "EUR"@,
            Currency::USD => "USD"@,
            Currency::GBP => "GBP"@,
            Currency::CHF => "CHF"@,
            Currency::CAD => "CAD"@,
            Currency::AUD => "AUD"@,
            Currency::JPY => "JPY"@,
            Currency::RUB => "RUB"@,
            Currency::SAR => "SAR"@,
            Currency::NotACurrency => "XXX"@,
        }
    }

    /// The name that this currency is displayed by: its code, or
    /// `NotACurrency` for the sentinel.
    pub open spec fn spec_name(self) -> Seq<char> {
        match self {
            Currency::NotACurrency => "NotACurrency"@,
            _ => self.spec_code(),
        }
    }

    /// The currency that a code stands for, if any.
    pub open spec fn spec_from_code(code: Seq<char>) -> Option<Currency> {
        if code == "EUR"@ {
            Some(Currency::EUR)
        } else if code == "USD"@ {
            Some(Currency::USD)
        } else if code == "GBP"@ {
            Some(Currency::GBP)
        } else if code == "CHF"@ {
            Some(Currency::CHF)
        } else if code == "CAD"@ {
            Some(Currency::CAD)
        } else if code == "AUD"@ {
            Some(Currency::AUD)
        } else if code == "JPY"@ {
            Some(Currency::JPY)
        } else if code == "RUB"@ {
            Some(Currency::RUB)
        } else if code == "SAR"@ {
            Some(Currency::SAR)
        } else if code == "XXX"@ {
            Some(Currency::NotACurrency)
        } else {
            None
        }
    }

    /// The code that stands for this currency in an encoding (`XXX` for the
    /// sentinel).
    pub fn code(&self) -> (r: &'static str)
        ensures
            r@ == self.spec_code(),
    {
        match self {
            Currency::EUR => "EUR",
            Currency::USD => "USD",
            Currency::GBP => "GBP",
            Currency::CHF => "CHF",
            Currency::CAD => "CAD",
            Currency::AUD => "AUD",
            Currency::JPY => "JPY",
            Currency::RUB => "RUB",
            Currency::SAR => "SAR",
            Currency::NotACurrency => "XXX",
        }
    }

    /// The name that this currency is displayed by: its code, or
    /// `NotACurrency` for the sentinel.
    pub fn name(&self) -> (r: &'static str)
        ensures
            r@ == self.spec_name(),
    {
        match self {
            Currency::NotACurrency => "NotACurrency",
            _ => self.code(),
        }
    }

    /// The currency that `code` stands for, if any.
    pub fn from_code(code: &str) -> (r: Option<Currency>)
        ensures
            r == Currency::spec_from_code(code@),
    {
        if str_eq(code, "EUR") {
            Some(Currency::EUR)
        } else if str_eq(code, "USD") {
            Some(Currency::USD)
        } else if str_eq(code, "GBP") {
            Some(Currency::GBP)
        } else if str_eq(code, "CHF") {
            Some(Currency::CHF)
        } else if str_eq(code, "CAD") {
            Some(Currency::CAD)
        } else if str_eq(code, "AUD") {
            Some(Currency::AUD)
        } else if str_eq(code, "JPY") {
            Some(Currency::JPY)
        } else if str_eq(code, "RUB") {
            Some(Currency::RUB)
        } else if str_eq(code, "SAR") {
            Some(Currency::SAR)
        } else if str_eq(code, "XXX") {
            Some(Currency::NotACurrency)
        } else {
            None
        }
    }

    /// Decoding the code of a currency gives that currency back.
    pub proof fn lemma_code_round_trip(self)
        ensures
            Currency::spec_from_code(self.spec_code()) == Some(self),
    {
        reveal_strlit("EUR");
        assert("EUR"@[0] == 'E' && "EUR"@[1] == 'U');
        reveal_strlit("USD");
        assert("USD"@[0] == 'U' && "USD"@[1] == 'S');
        reveal_strlit("GBP");
        assert("GBP"@[0] == 'G' && "GBP"@[1] == 'B');
        reveal_strlit("CHF");
        assert("CHF"@[0] == 'C' && "CHF"@[1] == 'H');
        reveal_strlit("CAD");
        assert("CAD"@[0] == 'C' && "CAD"@[1] == 'A');
        reveal_strlit("AUD");
        assert("AUD"@[0] == 'A' && "AUD"@[1] == 'U');
        reveal_strlit("JPY");
        assert("JPY"@[0] == 'J' && "JPY"@[1] == 'P');
        reveal_strlit("RUB");
        assert("RUB"@[0] == 'R' && "RUB"@[1] == 'U');
        reveal_strlit("SAR");
        assert("SAR"@[0] == 'S' && "SAR"@[1] == 'A');
        reveal_strlit("XXX");
        assert("XXX"@[0] == 'X' && "XXX"@[1] == 'X');
    }
}

impl Default for Currency {
    /// The sentinel `NotACurrency`.
    fn default() -> (r: Currency)
        ensures
            r == Currency::NotACurrency,
    {
        Currency::NotACurrency
    }
}

impl UnitLike for Currency {}

} // verus!
