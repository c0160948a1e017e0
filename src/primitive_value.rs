//! Reading the plain forms that a value can be decoded from: a boolean, a
//! single decimal digit, or the eight bytes of a little-endian 64-bit number.
//! Each gives the integer or the bytes that the value's payload is then made
//! of.
use vstd::prelude::*;

verus! {

/// Why a plain form could not be read as a value.
#[derive(Clone, Copy, Debug, PartialEq, Eq, Structural, Hash)]
pub enum PrimitiveValueError {
    /// A character that is not a decimal digit.
    NotADigit(char),
    /// A byte buffer of this length, where eight bytes were expected.
    NotEightBytes(usize),
}

/// The decimal digit that `c` is, if it is one of `0` to `9`.
pub open spec fn spec_digit(c: char) -> Option<u32> {
    if '0' <= c && c <= '9' {
        Some((c as u32 - '0' as u32) as u32)
    } else {
        None
    }
}

/// Reads the plain forms of a value.
pub struct PrimitiveValueVisitor;

impl PrimitiveValueVisitor {
    /// A boolean stands for one (`true`) or zero (`false`).
    pub fn visit_bool(&self, v: bool) -> (r: u8)
        ensures
            r == (if v {
                1u8
            } else {
                0u8
            }),
    {
        if v {
            1
        } else {
            0
        }
    }

    /// A character stands for the decimal digit it is; any other character is
    /// refused.
    pub fn visit_char(&self, v: char) -> (r: Result<u32, PrimitiveValueError>)
        ensures
            spec_digit(v) matches Some(d) ==> r == Ok::<u32, PrimitiveValueError>(d),
            spec_digit(v) is None ==> r == Err::<u32, PrimitiveValueError>(
                PrimitiveValueError::NotADigit(v),
            ),
    {
        if '0' <= v && v <= '9' {
            Ok(v as u32 - '0' as u32)
        } else {
            Err(PrimitiveValueError::NotADigit(v))
        }
    }

    /// A byte buffer stands for a 64-bit number only when it holds exactly
    /// eight bytes, which are handed back in order (least significant first).
    pub fn visit_bytes(&self, v: &[u8]) -> (r: Result<[u8; 8], PrimitiveValueError>)
        ensures
            v@.len() == 8 ==> (r matches Ok(a) && a@ == v@),
            v@.len() != 8 ==> r == Err::<[u8; 8], PrimitiveValueError>(
                PrimitiveValueError::NotEightBytes(v@.len() as usize),
            ),
    {
        if v.len() != 8 {
            return Err(PrimitiveValueError::NotEightBytes(v.len()));
        }
        let arr: [u8; 8] = [v[0], v[1], v[2], v[3], v[4], v[5], v[6], v[7]];
        proof {
            assert(arr@ =~= v@);
        }
        Ok(arr)
    }
}

} // verus!
