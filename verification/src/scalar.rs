use vstd::prelude::*;

verus! {

/// Bit pattern of the IEEE 754 binary64 sum of the two values whose bit
/// patterns are `a` and `b`, rounded to nearest, ties to even.
pub uninterp spec fn add_bits(a: u64, b: u64) -> u64;

/// Bit pattern of the IEEE 754 binary64 difference of the two values whose
/// bit patterns are `a` and `b`, rounded to nearest, ties to even.
pub uninterp spec fn sub_bits(a: u64, b: u64) -> u64;

/// Bit pattern of the IEEE 754 binary64 product of the two values whose bit
/// patterns are `a` and `b`, rounded to nearest, ties to even.
pub uninterp spec fn mul_bits(a: u64, b: u64) -> u64;

/// Relies on `Add` for `rustc_apfloat::ieee::Double`: IEEE 754 binary64
/// addition, round to nearest, ties to even, computed in software, so the
/// result's bits are a function of the operands' bits alone.
#[verifier::external_body]
pub(crate) fn add_f64_bits(a: u64, b: u64) -> (r: u64)
    ensures
        r == add_bits(a, b),
{
    let x = <rustc_apfloat::ieee::Double as rustc_apfloat::Float>::from_bits(a as u128);
    let y = <rustc_apfloat::ieee::Double as rustc_apfloat::Float>::from_bits(b as u128);
    rustc_apfloat::Float::to_bits((x + y).value) as u64
}

/// Relies on `Sub` for `rustc_apfloat::ieee::Double`: IEEE 754 binary64
/// subtraction, round to nearest, ties to even, computed in software, so the
/// result's bits are a function of the operands' bits alone.
#[verifier::external_body]
pub(crate) fn sub_f64_bits(a: u64, b: u64) -> (r: u64)
    ensures
        r == sub_bits(a, b),
{
    let x = <rustc_apfloat::ieee::Double as rustc_apfloat::Float>::from_bits(a as u128);
    let y = <rustc_apfloat::ieee::Double as rustc_apfloat::Float>::from_bits(b as u128);
    rustc_apfloat::Float::to_bits((x - y).value) as u64
}

/// Relies on `Mul` for `rustc_apfloat::ieee::Double`: IEEE 754 binary64
/// multiplication, round to nearest, ties to even, computed in software, so
/// the result's bits are a function of the operands' bits alone.
#[verifier::external_body]
pub(crate) fn mul_f64_bits(a: u64, b: u64) -> (r: u64)
    ensures
        r == mul_bits(a, b),
{
    let x = <rustc_apfloat::ieee::Double as rustc_apfloat::Float>::from_bits(a as u128);
    let y = <rustc_apfloat::ieee::Double as rustc_apfloat::Float>::from_bits(b as u128);
    rustc_apfloat::Float::to_bits((x * y).value) as u64
}

} // verus!
