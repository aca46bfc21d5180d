use crate::state::{ControlAndStatusRegister, FCSR};
use vstd::prelude::*;

verus! {

/// IEEE-754 rounding direction.
#[derive(Debug, Clone, Copy, PartialEq, Eq, Structural)]
pub enum RoundingMode {
    /// to nearest, ties to even
    TiesToEven,
    /// toward zero
    TowardZero,
    /// toward negative infinity
    TowardNegative,
    /// toward positive infinity
    TowardPositive,
    /// to nearest, ties away from zero
    TiesToAway,
}

/// The rounding mode a 3-bit rounding-mode code names; codes 5 to 7 (and
/// anything larger) name none.
pub open spec fn rm_of(code: int) -> Option<RoundingMode> {
    if code == 0 {
        Some(RoundingMode::TiesToEven)
    } else if code == 1 {
        Some(RoundingMode::TowardZero)
    } else if code == 2 {
        Some(RoundingMode::TowardNegative)
    } else if code == 3 {
        Some(RoundingMode::TowardPositive)
    } else if code == 4 {
        Some(RoundingMode::TiesToAway)
    } else {
        None
    }
}

/// The dynamic rounding mode field `frm`, bits 7..5 of `fcsr`.
pub open spec fn frm_field(fcsr: u32) -> int {
    ((fcsr >> 5) & 7) as int
}

/// The rounding mode an instruction's funct3 selects: 0 to 4 directly, 7 the
/// dynamic mode held in `fcsr`; any other value selects none.
pub open spec fn selected_rm(funct3: usize, csr: Seq<u32>) -> Option<RoundingMode> {
    if funct3 == 7 {
        rm_of(frm_field(csr[FCSR as int]))
    } else {
        rm_of(funct3 as int)
    }
}

pub fn decode_rm(rm: usize) -> (r: Option<RoundingMode>)
    ensures
        r == rm_of(rm as int),
{
    match rm {
        0 => Some(RoundingMode::TiesToEven),
        1 => Some(RoundingMode::TowardZero),
        2 => Some(RoundingMode::TowardNegative),
        3 => Some(RoundingMode::TowardPositive),
        4 => Some(RoundingMode::TiesToAway),
        _ => None,
    }
}

pub fn select_rm(rm: usize, csr: &ControlAndStatusRegister) -> (r: Option<RoundingMode>)
    requires
        csr.wf(),
    ensures
        r == selected_rm(rm, csr@),
{
    if rm == 7 {
        let frm = (csr.read(FCSR) >> 5) & 7;
        decode_rm(frm as usize)
    } else {
        decode_rm(rm)
    }
}

/// Sign bit of a single-precision encoding.
pub open spec fn sign_bit(w: u32) -> u32 {
    w >> 31
}

/// Biased exponent field of a single-precision encoding.
pub open spec fn exponent_field(w: u32) -> u32 {
    (w >> 23) & 0xff
}

/// Fraction field of a single-precision encoding.
pub open spec fn fraction_field(w: u32) -> u32 {
    w & 0x7f_ffff
}

pub open spec fn is_nan(w: u32) -> bool {
    exponent_field(w) == 0xff && fraction_field(w) != 0
}

/// Both encodings are zeros, of either sign.
pub open spec fn both_zero(a: u32, b: u32) -> bool {
    (a | b) & 0x7fff_ffff == 0
}

/// The canonical quiet NaN.
pub const CANONICAL_NAN: u32 = 0x7fc0_0000;

/// `w` with its sign bit replaced by the low bit of `s`.
pub open spec fn with_sign(w: u32, s: u32) -> u32 {
    (w & 0x7fff_ffff) | ((s & 1) << 31)
}

/// Bit index of the class of `w` in the `fclass` result: 0 negative
/// infinity, 1 negative normal, 2 negative subnormal, 3 negative zero,
/// 4 positive zero, 5 positive subnormal, 6 positive normal, 7 positive
/// infinity, 8 signaling NaN, 9 quiet NaN.
pub open spec fn class_index(w: u32) -> u32 {
    let neg = sign_bit(w) == 1;
    let e = exponent_field(w);
    let m = fraction_field(w);
    if e == 0xff {
        if m == 0 {
            if neg {
                0
            } else {
                7
            }
        } else if w & 0x40_0000 == 0 {
            8
        } else {
            9
        }
    } else if e == 0 {
        if m == 0 {
            if neg {
                3
            } else {
                4
            }
        } else if neg {
            2
        } else {
            5
        }
    } else if neg {
        1
    } else {
        6
    }
}

/// The one-hot class mask `fclass.s` writes.
pub open spec fn fclass(w: u32) -> u32 {
    1u32 << class_index(w)
}

pub fn float_is_nan(w: u32) -> (r: bool)
    ensures
        r == is_nan(w),
{
    (w >> 23) & 0xff == 0xff && w & 0x7f_ffff != 0
}

pub fn float_both_zero(a: u32, b: u32) -> (r: bool)
    ensures
        r == both_zero(a, b),
{
    (a | b) & 0x7fff_ffff == 0
}

pub fn float_with_sign(w: u32, s: u32) -> (r: u32)
    ensures
        r == with_sign(w, s),
{
    (w & 0x7fff_ffff) | ((s & 1) << 31)
}

pub fn float_class(w: u32) -> (r: u32)
    ensures
        r == fclass(w),
        class_index(w) < 10,
{
    let neg = w >> 31 == 1;
    let e = (w >> 23) & 0xff;
    let m = w & 0x7f_ffff;
    let idx: u32 = if e == 0xff {
        if m == 0 {
            if neg {
                0
            } else {
                7
            }
        } else if w & 0x40_0000 == 0 {
            8
        } else {
            9
        }
    } else if e == 0 {
        if m == 0 {
            if neg {
                3
            } else {
                4
            }
        } else if neg {
            2
        } else {
            5
        }
    } else if neg {
        1
    } else {
        6
    };
    1u32 << idx
}

/// A computation the single-precision soft-float kernel performs for an
/// instruction. Operands are raw encodings; integer operands are plain
/// integers.
#[derive(Debug, Clone, Copy, PartialEq, Eq, Structural)]
pub enum SoftFloatOp {
    /// `a + b`, encoding of the rounded sum.
    Add(u32, u32, RoundingMode),
    /// `a - b`.
    Sub(u32, u32, RoundingMode),
    /// `a * b`.
    Mul(u32, u32, RoundingMode),
    /// `a / b`.
    Div(u32, u32, RoundingMode),
    /// square root of `a`.
    Sqrt(u32, RoundingMode),
    /// `a * b + c` with a single rounding.
    MulAdd(u32, u32, u32, RoundingMode),
    /// quiet ordered equality; the answer is 1 or 0.
    Eq(u32, u32),
    /// quiet ordered `a < b`; the answer is 1 or 0.
    Lt(u32, u32),
    /// quiet ordered `a <= b`; the answer is 1 or 0.
    Le(u32, u32),
    /// conversion to a signed 32-bit integer; the answer is its bit pattern.
    ToI32(u32, RoundingMode),
    /// conversion to an unsigned 32-bit integer.
    ToU32(u32, RoundingMode),
    /// conversion of a signed integer; the answer is an encoding.
    FromI32(i32, RoundingMode),
    /// conversion of an unsigned integer; the answer is an encoding.
    FromU32(u32, RoundingMode),
}

/// The rounding mode a soft-float computation uses, if it rounds.
pub open spec fn rounding_of(op: SoftFloatOp) -> Option<RoundingMode> {
    match op {
        SoftFloatOp::Add(_, _, rm) | SoftFloatOp::Sub(_, _, rm) | SoftFloatOp::Mul(_, _, rm)
        | SoftFloatOp::Div(_, _, rm) => Some(rm),
        SoftFloatOp::Sqrt(_, rm) | SoftFloatOp::ToI32(_, rm) | SoftFloatOp::ToU32(_, rm) => Some(rm),
        SoftFloatOp::MulAdd(_, _, _, rm) => Some(rm),
        SoftFloatOp::FromI32(_, rm) | SoftFloatOp::FromU32(_, rm) => Some(rm),
        _ => None,
    }
}

} // verus!
