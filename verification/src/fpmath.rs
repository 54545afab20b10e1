//! IEEE-754 arithmetic on raw bit patterns.
//!
//! The scalar floating-point unit holds its registers as raw bits; every
//! arithmetic step is delegated to software floating-point crates that
//! compute directly on those bits. Each result that has no short integer
//! statement is given a name (`f32_add_of`, ...): the wrapper returns that
//! name's value, and the callers' contracts speak of it.

use vstd::prelude::*;
use rustc_apfloat::Float;
use rustc_apfloat::Round;
use rustc_apfloat::Status;
use rustc_apfloat::ieee::Double;
use rustc_apfloat::ieee::Single;

verus! {

pub uninterp spec fn f32_add_of(a: u32, b: u32) -> u32;

pub uninterp spec fn f32_sub_of(a: u32, b: u32) -> u32;

pub uninterp spec fn f32_mul_of(a: u32, b: u32) -> u32;

pub uninterp spec fn f32_div_of(a: u32, b: u32) -> u32;

pub uninterp spec fn f32_sqrt_of(a: u32) -> u32;

pub uninterp spec fn f64_add_of(a: u64, b: u64) -> u64;

pub uninterp spec fn f64_sub_of(a: u64, b: u64) -> u64;

pub uninterp spec fn f64_mul_of(a: u64, b: u64) -> u64;

pub uninterp spec fn f64_div_of(a: u64, b: u64) -> u64;

pub uninterp spec fn f64_sqrt_of(a: u64) -> u64;

/// The binary32 value of `a` rounded with `mode` (0 nearest-even, 1 toward
/// zero, 2 up, 3 down) and converted to a signed integer of 64 bits when
/// `wide`, else 32; `None` when the value is NaN or out of that integer's
/// range.
pub uninterp spec fn f32_to_int_of(a: u32, wide: bool, mode: u8) -> Option<i64>;

/// The binary64 counterpart of `f32_to_int_of`.
pub uninterp spec fn f64_to_int_of(a: u64, wide: bool, mode: u8) -> Option<i64>;

/// Relies on rustc_apfloat::ieee::Single::add_r: IEEE-754 binary32 addition
/// of two bit patterns, round-to-nearest-even.
#[verifier::external_body]
pub(crate) fn f32_add_bits(a: u32, b: u32) -> (r: u32)
    ensures
        r == f32_add_of(a, b),
{
    let x = Single::from_bits(a as u128);
    let y = Single::from_bits(b as u128);
    x.add_r(y, Round::NearestTiesToEven).value.to_bits() as u32
}

/// Relies on rustc_apfloat::ieee::Single::sub_r: IEEE-754 binary32
/// subtraction, round-to-nearest-even.
#[verifier::external_body]
pub(crate) fn f32_sub_bits(a: u32, b: u32) -> (r: u32)
    ensures
        r == f32_sub_of(a, b),
{
    let x = Single::from_bits(a as u128);
    let y = Single::from_bits(b as u128);
    x.sub_r(y, Round::NearestTiesToEven).value.to_bits() as u32
}

/// Relies on rustc_apfloat::ieee::Single::mul_r: IEEE-754 binary32
/// multiplication, round-to-nearest-even.
#[verifier::external_body]
pub(crate) fn f32_mul_bits(a: u32, b: u32) -> (r: u32)
    ensures
        r == f32_mul_of(a, b),
{
    let x = Single::from_bits(a as u128);
    let y = Single::from_bits(b as u128);
    x.mul_r(y, Round::NearestTiesToEven).value.to_bits() as u32
}

/// Relies on rustc_apfloat::ieee::Single::div_r: IEEE-754 binary32 division,
/// round-to-nearest-even.
#[verifier::external_body]
pub(crate) fn f32_div_bits(a: u32, b: u32) -> (r: u32)
    ensures
        r == f32_div_of(a, b),
{
    let x = Single::from_bits(a as u128);
    let y = Single::from_bits(b as u128);
    x.div_r(y, Round::NearestTiesToEven).value.to_bits() as u32
}

/// Relies on rustc_apfloat::ieee::Double::add_r: IEEE-754 binary64 addition,
/// round-to-nearest-even.
#[verifier::external_body]
pub(crate) fn f64_add_bits(a: u64, b: u64) -> (r: u64)
    ensures
        r == f64_add_of(a, b),
{
    let x = Double::from_bits(a as u128);
    let y = Double::from_bits(b as u128);
    x.add_r(y, Round::NearestTiesToEven).value.to_bits() as u64
}

/// Relies on rustc_apfloat::ieee::Double::sub_r: IEEE-754 binary64
/// subtraction, round-to-nearest-even.
#[verifier::external_body]
pub(crate) fn f64_sub_bits(a: u64, b: u64) -> (r: u64)
    ensures
        r == f64_sub_of(a, b),
{
    let x = Double::from_bits(a as u128);
    let y = Double::from_bits(b as u128);
    x.sub_r(y, Round::NearestTiesToEven).value.to_bits() as u64
}

/// Relies on rustc_apfloat::ieee::Double::mul_r: IEEE-754 binary64
/// multiplication, round-to-nearest-even.
#[verifier::external_body]
pub(crate) fn f64_mul_bits(a: u64, b: u64) -> (r: u64)
    ensures
        r == f64_mul_of(a, b),
{
    let x = Double::from_bits(a as u128);
    let y = Double::from_bits(b as u128);
    x.mul_r(y, Round::NearestTiesToEven).value.to_bits() as u64
}

/// Relies on rustc_apfloat::ieee::Double::div_r: IEEE-754 binary64 division,
/// round-to-nearest-even.
#[verifier::external_body]
pub(crate) fn f64_div_bits(a: u64, b: u64) -> (r: u64)
    ensures
        r == f64_div_of(a, b),
{
    let x = Double::from_bits(a as u128);
    let y = Double::from_bits(b as u128);
    x.div_r(y, Round::NearestTiesToEven).value.to_bits() as u64
}

/// Relies on rustc_apfloat::ieee::Single::to_i128_r: rounds the binary32
/// value with the given mode, then converts it to a signed integer of 64
/// (when `wide`) or 32 bits; INVALID_OP in the returned status reports a
/// NaN or a value out of that integer's range, and nothing else does.
#[verifier::external_body]
pub(crate) fn f32_to_int_bits(a: u32, wide: bool, mode: u8) -> (r: Option<i64>)
    requires
        mode < 4,
    ensures
        r == f32_to_int_of(a, wide, mode),
{
    let round = match mode {
        0 => Round::NearestTiesToEven,
        1 => Round::TowardZero,
        2 => Round::TowardPositive,
        _ => Round::TowardNegative,
    };
    let mut exact = false;
    let sa = Single::from_bits(a as u128).to_i128_r(if wide { 64 } else { 32 }, round, &mut exact);
    if sa.status.intersects(Status::INVALID_OP) {
        None
    } else {
        Some(sa.value as i64)
    }
}

/// Relies on rustc_apfloat::ieee::Double::to_i128_r, as `f32_to_int_bits`
/// does on the binary32 form.
#[verifier::external_body]
pub(crate) fn f64_to_int_bits(a: u64, wide: bool, mode: u8) -> (r: Option<i64>)
    requires
        mode < 4,
    ensures
        r == f64_to_int_of(a, wide, mode),
{
    let round = match mode {
        0 => Round::NearestTiesToEven,
        1 => Round::TowardZero,
        2 => Round::TowardPositive,
        _ => Round::TowardNegative,
    };
    let mut exact = false;
    let sa = Double::from_bits(a as u128).to_i128_r(if wide { 64 } else { 32 }, round, &mut exact);
    if sa.status.intersects(Status::INVALID_OP) {
        None
    } else {
        Some(sa.value as i64)
    }
}

#[verifier::external_type_specification]
#[verifier::external_body]
pub struct ExRoundingMode(softfp::RoundingMode);

#[verifier::external_type_specification]
#[verifier::external_body]
pub struct ExExceptionFlags(softfp::ExceptionFlags);

/// Relies on softfp::RoundingMode: the round-to-nearest, ties-to-even mode
/// handed to softfp as its rounding-mode callback.
#[verifier::external_body]
fn nearest_rounding() -> (r: softfp::RoundingMode) {
    softfp::RoundingMode::TiesToEven
}

/// The exception-flag sink handed to softfp: IEEE exception flags are not
/// modeled by this core.
#[verifier::external_body]
fn discard_flags(flags: softfp::ExceptionFlags) {
    let _ = flags;
}

/// Relies on softfp::F32::square_root: IEEE-754 binary32 square root of a
/// bit pattern, round-to-nearest-even.
#[verifier::external_body]
pub(crate) fn f32_sqrt_bits(a: u32) -> (r: u32)
    ensures
        r == f32_sqrt_of(a),
{
    softfp::register_get_rounding_mode(nearest_rounding);
    softfp::register_set_exception_flags(discard_flags);
    softfp::F32::new(a).square_root().0
}

/// Relies on softfp::F64::square_root: IEEE-754 binary64 square root of a
/// bit pattern, round-to-nearest-even.
#[verifier::external_body]
pub(crate) fn f64_sqrt_bits(a: u64) -> (r: u64)
    ensures
        r == f64_sqrt_of(a),
{
    softfp::register_get_rounding_mode(nearest_rounding);
    softfp::register_set_exception_flags(discard_flags);
    softfp::F64::new(a).square_root().0
}

} // verus!
