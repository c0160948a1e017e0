//! Crypto currencies, by their usual codes.
use vstd::prelude::*;

use crate::text::str_eq;
use crate::units::UnitLike;

verus! {

/// A crypto currency. `NotACryptoCurrency` is the sentinel for none; its
/// code is `XXX`.
#[derive(Clone, Copy, Debug, PartialEq, Eq, Structural, Hash)]
pub enum CryptoCurrency {
    BCH,
    BNB,
    BTC,
    DASH,
    EOS,
    ETH,
    LTC,
    VTC,
    XML,
    XMR,
    XPR,
    NotACryptoCurrency,
}

impl CryptoCurrency {
    /// The code that stands for this unit in an encoding.
    pub open spec fn spec_code(self) -> Seq<char> {
        match self {
            CryptoCurrency::BCH => "BCH"@,
            CryptoCurrency::BNB => "BNB"@,
            CryptoCurrency::BTC => "BTC"@,
            CryptoCurrency::DASH => "DASH"@,
            CryptoCurrency::EOS => "EOS"@,
            CryptoCurrency::ETH => "ETH"@,
            CryptoCurrency::LTC => "LTC"@,
            CryptoCurrency::VTC => "VTC"@,
            CryptoCurrency::XML => "XML"@,
            CryptoCurrency::XMR => "XMR"@,
            CryptoCurrency::XPR => "XPR"@,
            CryptoCurrency::NotACryptoCurrency => "XXX"@,
        }
    }

    /// The name that this unit is displayed by.
    pub open spec fn spec_name(self) -> Seq<char> {
        match self {
            CryptoCurrency::BCH => "BCH"@,
            CryptoCurrency::BNB => "BNB"@,
            CryptoCurrency::BTC => "BTC"@,
            CryptoCurrency::DASH => "DASH"@,
            CryptoCurrency::EOS => "EOS"@,
            CryptoCurrency::ETH => "ETH"@,
            CryptoCurrency::LTC => "LTC"@,
            CryptoCurrency::VTC => "VTC"@,
            CryptoCurrency::XML => "XML"@,
            CryptoCurrency::XMR => "XMR"@,
            CryptoCurrency::XPR => "XPR"@,
            CryptoCurrency::NotACryptoCurrency => "NotACryptoCurrency"@,
        }
    }

    /// The unit that a code stands for, if any. `XBT` is read as `BTC` too.
    pub open spec fn spec_from_code(code: Seq<char>) -> Option<CryptoCurrency> {
        if code == "BCH"@ {
            Some(CryptoCurrency::BCH)
        } else if code == "BNB"@ {
            Some(CryptoCurrency::BNB)
        } else if code == "BTC"@ {
            Some(CryptoCurrency::BTC)
        } else if code == "XBT"@ {
            Some(CryptoCurrency::BTC)
        } else if code == "DASH"@ {
            Some(CryptoCurrency::DASH)
        } else if code == "EOS"@ {
            Some(CryptoCurrency::EOS)
        } else if code == "ETH"@ {
            Some(CryptoCurrency::ETH)
        } else if code == "LTC"@ {
            Some(CryptoCurrency::LTC)
        } else if code == "VTC"@ {
            Some(CryptoCurrency::VTC)
        } else if code == "XML"@ {
            Some(CryptoCurrency::XML)
        } else if code == "XMR"@ {
            Some(CryptoCurrency::XMR)
        } else if code == "XPR"@ {
            Some(CryptoCurrency::XPR)
        } else if code == "XXX"@ {
            Some(CryptoCurrency::NotACryptoCurrency)
        } else {
            None
        }
    }

    /// The code that stands for this unit in an encoding (`XXX` for the
    /// sentinel).
    pub fn code(&self) -> (r: &'static str)
        ensures
            r@ == self.spec_code(),
    {
        match self {
            CryptoCurrency::BCH => "BCH",
            CryptoCurrency::BNB => "BNB",
            CryptoCurrency::BTC => "BTC",
            CryptoCurrency::DASH => "DASH",
            CryptoCurrency::EOS => "EOS",
            CryptoCurrency::ETH => "ETH",
            CryptoCurrency::LTC => "LTC",
            CryptoCurrency::VTC => "VTC",
            CryptoCurrency::XML => "XML",
            CryptoCurrency::XMR => "XMR",
            CryptoCurrency::XPR => "XPR",
            CryptoCurrency::NotACryptoCurrency => "XXX",
        }
    }

    /// The name that this unit is displayed by.
    pub fn name(&self) -> (r: &'static str)
        ensures
            r@ == self.spec_name(),
    {
        match self {
            CryptoCurrency::BCH => "BCH",
            CryptoCurrency::BNB => "BNB",
            CryptoCurrency::BTC => "BTC",
            CryptoCurrency::DASH => "DASH",
            CryptoCurrency::EOS => "EOS",
            CryptoCurrency::ETH => "ETH",
            CryptoCurrency::LTC => "LTC",
            CryptoCurrency::VTC => "VTC",
            CryptoCurrency::XML => "XML",
            CryptoCurrency::XMR => "XMR",
            CryptoCurrency::XPR => "XPR",
            CryptoCurrency::NotACryptoCurrency => "NotACryptoCurrency",
        }
    }

    /// The unit that `code` stands for, if any. `XBT` is read as `BTC` too.
    pub fn from_code(code: &str) -> (r: Option<CryptoCurrency>)
        ensures
            r == CryptoCurrency::spec_from_code(code@),
    {
        if str_eq(code, "BCH") {
            Some(CryptoCurrency::BCH)
        } else if str_eq(code, "BNB") {
            Some(CryptoCurrency::BNB)
        } else if str_eq(code, "BTC") {
            Some(CryptoCurrency::BTC)
        } else if str_eq(code, "XBT") {
            Some(CryptoCurrency::BTC)
        } else if str_eq(code, "DASH") {
            Some(CryptoCurrency::DASH)
        } else if str_eq(code, "EOS") {
            Some(CryptoCurrency::EOS)
        } else if str_eq(code, "ETH") {
            Some(CryptoCurrency::ETH)
        } else if str_eq(code, "LTC") {
            Some(CryptoCurrency::LTC)
        } else if str_eq(code, "VTC") {
            Some(CryptoCurrency::VTC)
        } else if str_eq(code, "XML") {
            Some(CryptoCurrency::XML)
        } else if str_eq(code, "XMR") {
            Some(CryptoCurrency::XMR)
        } else if str_eq(code, "XPR") {
            Some(CryptoCurrency::XPR)
        } else if str_eq(code, "XXX") {
            Some(CryptoCurrency::NotACryptoCurrency)
        } else {
            None
        }
    }

    /// Decoding the code of a unit gives that unit back.
    pub proof fn lemma_code_round_trip(self)
        ensures
            CryptoCurrency::spec_from_code(self.spec_code()) == Some(self),
    {
        reveal_strlit("BCH");
        assert("BCH"@[0] == 'B' && "BCH"@[1] == 'C' && "BCH"@[2] == 'H');
        reveal_strlit("BNB");
        assert("BNB"@[0] == 'B' && "BNB"@[1] == 'N' && "BNB"@[2] == 'B');
        reveal_strlit("BTC");
        assert("BTC"@[0] == 'B' && "BTC"@[1] == 'T' && "BTC"@[2] == 'C');
        reveal_strlit("XBT");
        assert("XBT"@[0] == 'X' && "XBT"@[1] == 'B' && "XBT"@[2] == 'T');
        reveal_strlit("DASH");
        assert("DASH"@[0] == 'D' && "DASH"@[1] == 'A' && "DASH"@[2] == 'S');
        reveal_strlit("EOS");
        assert("EOS"@[0] == 'E' && "EOS"@[1] == 'O' && "EOS"@[2] == 'S');
        reveal_strlit("ETH");
        assert("ETH"@[0] == 'E' && "ETH"@[1] == 'T' && "ETH"@[2] == 'H');
        reveal_strlit("LTC");
        assert("LTC"@[0] == 'L' && "LTC"@[1] == 'T' && "LTC"@[2] == 'C');
        reveal_strlit("VTC");
        assert("VTC"@[0] == 'V' && "VTC"@[1] == 'T' && "VTC"@[2] == 'C');
        reveal_strlit("XML");
        assert("XML"@[0] == 'X' && "XML"@[1] == 'M' && "XML"@[2] == 'L');
        reveal_strlit("XMR");
        assert("XMR"@[0] == 'X' && "XMR"@[1] == 'M' && "XMR"@[2] == 'R');
        reveal_strlit("XPR");
        assert("XPR"@[0] == 'X' && "XPR"@[1] == 'P' && "XPR"@[2] == 'R');
        reveal_strlit("XXX");
        assert("XXX"@[0] == 'X' && "XXX"@[1] == 'X' && "XXX"@[2] == 'X');
    }
}

impl Default for CryptoCurrency {
    /// The sentinel `NotACryptoCurrency`.
    fn default() -> (r: CryptoCurrency)
        ensures
            r == CryptoCurrency::NotACryptoCurrency,
    {
        CryptoCurrency::NotACryptoCurrency
    }
}

impl UnitLike for CryptoCurrency {}

} // verus!
