//! Precious metals, by their ISO 4217 codes.
use vstd::prelude::*;

use crate::text::str_eq;
use crate::units::UnitLike;

verus! {

/// A precious metal. `NotAMetal` is the sentinel for none; its code is `XXX`.
#[derive(Clone, Copy, Debug, PartialEq, Eq, Structural, Hash)]
pub enum Metal {
    Gold,
    Silver,
    Palladium,
    Platinum,
    NotAMetal,
}

impl Metal {
    /// The code that stands for this unit in an encoding.
    pub open spec fn spec_code(self) -> Seq<char> {
        match self {
            Metal::Gold => "XAU"@,
            Metal::Silver => "XAG"@,
            Metal::Palladium => "XPD"@,
            Metal::Platinum => "XPT"@,
            Metal::NotAMetal => "XXX"@,
        }
    }

    /// The name that this unit is displayed by.
    pub open spec fn spec_name(self) -> Seq<char> {
        match self {
            Metal::Gold => "Gold"@,
            Metal::Silver => "Silver"@,
            Metal::Palladium => "Palladium"@,
            Metal::Platinum => "Platinum"@,
            Metal::NotAMetal => "NotAMetal"@,
        }
    }

    /// The unit that a code stands for, if any.
    pub open spec fn spec_from_code(code: Seq<char>) -> Option<Metal> {
        if code == "XAU"@ {
            Some(Metal::Gold)
        } else if code == "XAG"@ {
            Some(Metal::Silver)
        } else if code == "XPD"@ {
            Some(Metal::Palladium)
        } else if code == "XPT"@ {
            Some(Metal::Platinum)
        } else if code == "XXX"@ {
            Some(Metal::NotAMetal)
        } else {
            None
        }
    }

    /// The code that stands for this unit in an encoding (`XXX` for the
    /// sentinel).
    pub fn code(&self) -> (r: &'static str)
        ensures
            r@ == self.spec_code(),
    {
        match self {
            Metal::Gold => "XAU",
            Metal::Silver => "XAG",
            Metal::Palladium => "XPD",
            Metal::Platinum => "XPT",
            Metal::NotAMetal => "XXX",
        }
    }

    /// The name that this unit is displayed by.
    pub fn name(&self) -> (r: &'static str)
        ensures
            r@ == self.spec_name(),
    {
        match self {
            Metal::Gold => "Gold",
            Metal::Silver => "Silver",
            Metal::Palladium => "Palladium",
            Metal::Platinum => "Platinum",
            Metal::NotAMetal => "NotAMetal",
        }
    }

    /// The unit that `code` stands for, if any.
    pub fn from_code(code: &str) -> (r: Option<Metal>)
        ensures
            r == Metal::spec_from_code(code@),
    {
        if str_eq(code, "XAU") {
            Some(Metal::Gold)
        } else if str_eq(code, "XAG") {
            Some(Metal::Silver)
        } else if str_eq(code, "XPD") {
            Some(Metal::Palladium)
        } else if str_eq(code, "XPT") {
            Some(Metal::Platinum)
        } else if str_eq(code, "XXX") {
            Some(Metal::NotAMetal)
        } else {
            None
        }
    }

    /// Decoding the code of a unit gives that unit back.
    pub proof fn lemma_code_round_trip(self)
        ensures
            Metal::spec_from_code(self.spec_code()) == Some(self),
    {
        reveal_strlit("XAU");
        assert("XAU"@[0] == 'X' && "XAU"@[1] == 'A' && "XAU"@[2] == 'U');
        reveal_strlit("XAG");
        assert("XAG"@[0] == 'X' && "XAG"@[1] == 'A' && "XAG"@[2] == 'G');
        reveal_strlit("XPD");
        assert("XPD"@[0] == 'X' && "XPD"@[1] == 'P' && "XPD"@[2] == 'D');
        reveal_strlit("XPT");
        assert("XPT"@[0] == 'X' && "XPT"@[1] == 'P' && "XPT"@[2] == 'T');
        reveal_strlit("XXX");
        assert("XXX"@[0] == 'X' && "XXX"@[1] == 'X' && "XXX"@[2] == 'X');
    }
}

impl Default for Metal {
    /// The sentinel `NotAMetal`.
    fn default() -> (r: Metal)
        ensures
            r == Metal::NotAMetal,
    {
        Metal::NotAMetal
    }
}

impl UnitLike for Metal {}

} // verus!
