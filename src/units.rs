//! Units that a price is given in: national currencies, crypto currencies and
//! precious metals, each with a sentinel for "none".
pub mod crypto_currency;
pub mod currency;
pub mod metal;

use vstd::prelude::*;

use crate::text::str_eq;
use crate::units::crypto_currency::CryptoCurrency;
use crate::units::currency::Currency;
use crate::units::metal::Metal;

verus! {

/// A unit tag that a value can carry: copyable, with a sentinel default.
pub trait UnitLike: Copy + Default {}

/// The absence of any unit. It is encoded as `XXX` and displayed as
/// `NotAUnit`.
#[derive(Clone, Copy, Debug, PartialEq, Eq, Structural, Hash)]
pub struct NotAUnit;

impl NotAUnit {
    /// The code `XXX`.
    pub fn code(&self) -> (r: &'static str)
        ensures
            r@ == "XXX"@,
    {
        "XXX"
    }

    /// The name `NotAUnit`.
    pub fn name(&self) -> (r: &'static str)
        ensures
            r@ == "NotAUnit"@,
    {
        "NotAUnit"
    }

    /// Reads the code `XXX`; any other code stands for no `NotAUnit`.
    pub fn from_code(code: &str) -> (r: Option<NotAUnit>)
        ensures
            r is Some <==> code@ == "XXX"@,
    {
        if str_eq(code, "XXX") {
            Some(NotAUnit)
        } else {
            None
        }
    }
}

impl Default for NotAUnit {
    fn default() -> (r: NotAUnit) {
        NotAUnit
    }
}

impl UnitLike for NotAUnit {}

/// Any unit: a national currency, a crypto currency, a precious metal, or none.
/// Encoded by the code of what it holds, with no tag.
#[derive(Clone, Copy, Debug, PartialEq, Eq, Structural, Hash)]
pub enum Unit {
    NotAUnit(NotAUnit),
    Currency(Currency),
    CryptoCurrency(CryptoCurrency),
    Metal(Metal),
}

impl Unit {
    /// The code of what this unit holds.
    pub open spec fn spec_code(self) -> Seq<char> {
        match self {
            Unit::NotAUnit(_) => "XXX"@,
            Unit::Currency(c) => c.spec_code(),
            Unit::CryptoCurrency(c) => c.spec_code(),
            Unit::Metal(m) => m.spec_code(),
        }
    }

    /// The name of what this unit holds.
    pub open spec fn spec_name(self) -> Seq<char> {
        match self {
            Unit::NotAUnit(_) => "NotAUnit"@,
            Unit::Currency(c) => c.spec_name(),
            Unit::CryptoCurrency(c) => c.spec_name(),
            Unit::Metal(m) => m.spec_name(),
        }
    }

    /// The unit that a code stands for: the kinds are tried in the order
    /// none (`XXX`), national currency, crypto currency, metal, and the first
    /// that reads the code wins.
    pub open spec fn spec_from_code(code: Seq<char>) -> Option<Unit> {
        if code == "XXX"@ {
            Some(Unit::NotAUnit(NotAUnit))
        } else if let Some(c) = Currency::spec_from_code(code) {
            Some(Unit::Currency(c))
        } else if let Some(c) = CryptoCurrency::spec_from_code(code) {
            Some(Unit::CryptoCurrency(c))
        } else if let Some(m) = Metal::spec_from_code(code) {
            Some(Unit::Metal(m))
        } else {
            None
        }
    }

    /// Whether this unit is one of the sentinels, all of which share the code
    /// `XXX`.
    pub open spec fn spec_is_sentinel(self) -> bool {
        match self {
            Unit::NotAUnit(_) => true,
            Unit::Currency(c) => c == Currency::NotACurrency,
            Unit::CryptoCurrency(c) => c == CryptoCurrency::NotACryptoCurrency,
            Unit::Metal(m) => m == Metal::NotAMetal,
        }
    }

    /// The code of what this unit holds.
    pub fn code(&self) -> (r: &'static str)
        ensures
            r@ == self.spec_code(),
    {
        match self {
            Unit::NotAUnit(n) => n.code(),
            Unit::Currency(c) => c.code(),
            Unit::CryptoCurrency(c) => c.code(),
            Unit::Metal(m) => m.code(),
        }
    }

    /// The name of what this unit holds.
    pub fn name(&self) -> (r: &'static str)
        ensures
            r@ == self.spec_name(),
    {
        match self {
            Unit::NotAUnit(n) => n.name(),
            Unit::Currency(c) => c.name(),
            Unit::CryptoCurrency(c) => c.name(),
            Unit::Metal(m) => m.name(),
        }
    }

    /// The unit that `code` stands for, if any (see `spec_from_code` for the
    /// order in which the kinds are tried).
    pub fn from_code(code: &str) -> (r: Option<Unit>)
        ensures
            r == Unit::spec_from_code(code@),
    {
        if let Some(n) = NotAUnit::from_code(code) {
            Some(Unit::NotAUnit(n))
        } else if let Some(c) = Currency::from_code(code) {
            Some(Unit::Currency(c))
        } else if let Some(c) = CryptoCurrency::from_code(code) {
            Some(Unit::CryptoCurrency(c))
        } else if let Some(m) = Metal::from_code(code) {
            Some(Unit::Metal(m))
        } else {
            None
        }
    }

    /// Decoding the code of a unit gives that unit back, except that every
    /// sentinel reads back as `NotAUnit`.
    pub proof fn lemma_code_round_trip(self)
        ensures
            !self.spec_is_sentinel() ==> Unit::spec_from_code(self.spec_code()) == Some(self),
            self.spec_is_sentinel() ==> Unit::spec_from_code(self.spec_code()) == Some(
                Unit::NotAUnit(NotAUnit),
            ),
    {
        lemma_unit_code_chars();
        match self {
            Unit::NotAUnit(_) => {},
            Unit::Currency(c) => {
                c.lemma_code_round_trip();
            },
            Unit::CryptoCurrency(c) => {
                c.lemma_code_round_trip();
                if c != CryptoCurrency::NotACryptoCurrency {
                    assert(Currency::spec_from_code(c.spec_code()) is None);
                }
            },
            Unit::Metal(m) => {
                m.lemma_code_round_trip();
                if m != Metal::NotAMetal {
                    assert(Currency::spec_from_code(m.spec_code()) is None);
                    assert(CryptoCurrency::spec_from_code(m.spec_code()) is None);
                }
            },
        }
    }
}

impl Default for Unit {
    /// The sentinel `NotAUnit`.
    fn default() -> (r: Unit)
        ensures
            r == Unit::NotAUnit(NotAUnit),
    {
        Unit::NotAUnit(NotAUnit)
    }
}

impl UnitLike for Unit {}

/// The leading characters of every unit code, which tell the codes apart.
proof fn lemma_unit_code_chars()
    ensures
        "EUR"@[0] == 'E' && "EUR"@[1] == 'U' && "EUR"@[2] == 'R',
        "USD"@[0] == 'U' && "USD"@[1] == 'S' && "USD"@[2] == 'D',
        "GBP"@[0] == 'G' && "GBP"@[1] == 'B' && "GBP"@[2] == 'P',
        "CHF"@[0] == 'C' && "CHF"@[1] == 'H' && "CHF"@[2] == 'F',
        "CAD"@[0] == 'C' && "CAD"@[1] == 'A' && "CAD"@[2] == 'D',
        "AUD"@[0] == 'A' && "AUD"@[1] == 'U' && "AUD"@[2] == 'D',
        "JPY"@[0] == 'J' && "JPY"@[1] == 'P' && "JPY"@[2] == 'Y',
        "RUB"@[0] == 'R' && "RUB"@[1] == 'U' && "RUB"@[2] == 'B',
        "SAR"@[0] == 'S' && "SAR"@[1] == 'A' && "SAR"@[2] == 'R',
        "XXX"@[0] == 'X' && "XXX"@[1] == 'X' && "XXX"@[2] == 'X',
        "BCH"@[0] == 'B' && "BCH"@[1] == 'C' && "BCH"@[2] == 'H',
        "BNB"@[0] == 'B' && "BNB"@[1] == 'N' && "BNB"@[2] == 'B',
        "BTC"@[0] == 'B' && "BTC"@[1] == 'T' && "BTC"@[2] == 'C',
        "XBT"@[0] == 'X' && "XBT"@[1] == 'B' && "XBT"@[2] == 'T',
        "DASH"@[0] == 'D' && "DASH"@[1] == 'A' && "DASH"@[2] == 'S',
        "EOS"@[0] == 'E' && "EOS"@[1] == 'O' && "EOS"@[2] == 'S',
        "ETH"@[0] == 'E' && "ETH"@[1] == 'T' && "ETH"@[2] == 'H',
        "LTC"@[0] == 'L' && "LTC"@[1] == 'T' && "LTC"@[2] == 'C',
        "VTC"@[0] == 'V' && "VTC"@[1] == 'T' && "VTC"@[2] == 'C',
        "XML"@[0] == 'X' && "XML"@[1] == 'M' && "XML"@[2] == 'L',
        "XMR"@[0] == 'X' && "XMR"@[1] == 'M' && "XMR"@[2] == 'R',
        "XPR"@[0] == 'X' && "XPR"@[1] == 'P' && "XPR"@[2] == 'R',
        "XAU"@[0] == 'X' && "XAU"@[1] == 'A' && "XAU"@[2] == 'U',
        "XAG"@[0] == 'X' && "XAG"@[1] == 'A' && "XAG"@[2] == 'G',
        "XPD"@[0] == 'X' && "XPD"@[1] == 'P' && "XPD"@[2] == 'D',
        "XPT"@[0] == 'X' && "XPT"@[1] == 'P' && "XPT"@[2] == 'T',
{
    reveal_strlit("EUR");
    reveal_strlit("USD");
    reveal_strlit("GBP");
    reveal_strlit("CHF");
    reveal_strlit("CAD");
    reveal_strlit("AUD");
    reveal_strlit("JPY");
    reveal_strlit("RUB");
    reveal_strlit("SAR");
    reveal_strlit("XXX");
    reveal_strlit("BCH");
    reveal_strlit("BNB");
    reveal_strlit("BTC");
    reveal_strlit("XBT");
    reveal_strlit("DASH");
    reveal_strlit("EOS");
    reveal_strlit("ETH");
    reveal_strlit("LTC");
    reveal_strlit("VTC");
    reveal_strlit("XML");
    reveal_strlit("XMR");
    reveal_strlit("XPR");
    reveal_strlit("XAU");
    reveal_strlit("XAG");
    reveal_strlit("XPD");
    reveal_strlit("XPT");
}

} // verus!
