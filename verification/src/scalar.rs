//! The numeric leaf type of the toolkit: a single IEEE-754 double,
//! held by its 64-bit pattern.
//!
//! Verified code never computes with doubles directly.  Every arithmetic
//! step, comparison and rendering goes through a small trusted wrapper
//! around an outside crate (`rustc_apfloat` for the rounded arithmetic and
//! the comparisons, `libm` for the transcendental functions), and each
//! wrapper's result is pinned to an uninterpreted name such as
//! [`float_add`].  Contracts elsewhere in the crate speak of those names.

use rustc_apfloat::Float;
use vstd::prelude::*;

verus! {

/// Bit pattern of the double `0.0`.
pub const ZERO_BITS: u64 = 0x0000_0000_0000_0000;

/// Bit pattern of the double `1.0`.
pub const ONE_BITS: u64 = 0x3FF0_0000_0000_0000;

/// Bit pattern of the double `-1.0`.
pub const NEG_ONE_BITS: u64 = 0xBFF0_0000_0000_0000;

/// Bit pattern of the double machine epsilon, `2^-52`.
pub const EPSILON_BITS: u64 = 0x3CB0_0000_0000_0000;

/// Bit pattern of the double nearest Euler's number `e`.
pub const EULER_BITS: u64 = 0x4005_BF0A_8B14_5769;

/// What IEEE-754 double addition returns, on bit patterns.
pub uninterp spec fn float_add(a: u64, b: u64) -> u64;

/// What IEEE-754 double subtraction returns, on bit patterns.
pub uninterp spec fn float_sub(a: u64, b: u64) -> u64;

/// What IEEE-754 double multiplication returns, on bit patterns.
pub uninterp spec fn float_mul(a: u64, b: u64) -> u64;

/// What IEEE-754 double division returns, on bit patterns.
pub uninterp spec fn float_div(a: u64, b: u64) -> u64;

/// What `libm`'s double exponentiation returns, on bit patterns.
pub uninterp spec fn float_pow(a: u64, b: u64) -> u64;

/// What `libm`'s double natural logarithm returns, on bit patterns.
pub uninterp spec fn float_ln(a: u64) -> u64;

/// What the double absolute value is, on bit patterns.
pub uninterp spec fn float_abs(a: u64) -> u64;

/// The IEEE-754 `less than or equal` predicate, on bit patterns.
/// False whenever an operand is NaN.
pub uninterp spec fn float_le(a: u64, b: u64) -> bool;

/// The IEEE-754 equality predicate, on bit patterns.  Unlike equality of
/// the patterns themselves, the two zeros are equal and NaN equals nothing.
pub uninterp spec fn float_eq(a: u64, b: u64) -> bool;

/// The decimal text a double is rendered as, on bit patterns.
pub uninterp spec fn float_text(a: u64) -> Seq<char>;

/// Relies on `rustc_apfloat`'s `+` on `ieee::Double`: IEEE-754 addition,
/// rounded to nearest, ties to even.
#[verifier::external_body]
pub(crate) fn add_bits(a: u64, b: u64) -> (r: u64)
    ensures
        r == float_add(a, b),
{
    let x = rustc_apfloat::ieee::Double::from_bits(a as u128);
    let y = rustc_apfloat::ieee::Double::from_bits(b as u128);
    (x + y).value.to_bits() as u64
}

/// Relies on `rustc_apfloat`'s `-` on `ieee::Double`: IEEE-754 subtraction,
/// rounded to nearest, ties to even.
#[verifier::external_body]
pub(crate) fn sub_bits(a: u64, b: u64) -> (r: u64)
    ensures
        r == float_sub(a, b),
{
    let x = rustc_apfloat::ieee::Double::from_bits(a as u128);
    let y = rustc_apfloat::ieee::Double::from_bits(b as u128);
    (x - y).value.to_bits() as u64
}

/// Relies on `rustc_apfloat`'s `*` on `ieee::Double`: IEEE-754
/// multiplication, rounded to nearest, ties to even.
#[verifier::external_body]
pub(crate) fn mul_bits(a: u64, b: u64) -> (r: u64)
    ensures
        r == float_mul(a, b),
{
    let x = rustc_apfloat::ieee::Double::from_bits(a as u128);
    let y = rustc_apfloat::ieee::Double::from_bits(b as u128);
    (x * y).value.to_bits() as u64
}

/// Relies on `rustc_apfloat`'s `/` on `ieee::Double`: IEEE-754 division,
/// rounded to nearest, ties to even.  Division by zero follows IEEE-754
/// (an infinity or NaN comes back; nothing panics).
#[verifier::external_body]
pub(crate) fn div_bits(a: u64, b: u64) -> (r: u64)
    ensures
        r == float_div(a, b),
{
    let x = rustc_apfloat::ieee::Double::from_bits(a as u128);
    let y = rustc_apfloat::ieee::Double::from_bits(b as u128);
    (x / y).value.to_bits() as u64
}

/// Relies on `libm::pow`, a pure software `x` to the power `y` on doubles;
/// the result is taken as a function of the two bit patterns alone.
/// `bytemuck::cast` moves the bits between integer and double unchanged.
#[verifier::external_body]
pub(crate) fn pow_bits(a: u64, b: u64) -> (r: u64)
    ensures
        r == float_pow(a, b),
{
    bytemuck::cast(libm::pow(bytemuck::cast(a), bytemuck::cast(b)))
}

/// Relies on `libm::log`, a pure software natural logarithm on doubles;
/// the result is taken as a function of the bit pattern alone.
/// `bytemuck::cast` moves the bits between integer and double unchanged.
#[verifier::external_body]
pub(crate) fn ln_bits(a: u64) -> (r: u64)
    ensures
        r == float_ln(a),
{
    bytemuck::cast(libm::log(bytemuck::cast(a)))
}

/// Relies on `libm::fabs`: the absolute value of a double.
/// `bytemuck::cast` moves the bits between integer and double unchanged.
#[verifier::external_body]
pub(crate) fn abs_bits(a: u64) -> (r: u64)
    ensures
        r == float_abs(a),
{
    bytemuck::cast(libm::fabs(bytemuck::cast(a)))
}

/// Relies on `rustc_apfloat`'s `PartialOrd` on `ieee::Double`, the IEEE-754
/// partial order: `<=` is false whenever an operand is NaN.
#[verifier::external_body]
pub(crate) fn le_bits(a: u64, b: u64) -> (r: bool)
    ensures
        r == float_le(a, b),
{
    let x = rustc_apfloat::ieee::Double::from_bits(a as u128);
    let y = rustc_apfloat::ieee::Double::from_bits(b as u128);
    x <= y
}

/// Relies on `rustc_apfloat`'s `PartialEq` on `ieee::Double`, IEEE-754
/// equality: the two zeros are equal, NaN equals nothing.
#[verifier::external_body]
pub(crate) fn eq_bits(a: u64, b: u64) -> (r: bool)
    ensures
        r == float_eq(a, b),
{
    let x = rustc_apfloat::ieee::Double::from_bits(a as u128);
    let y = rustc_apfloat::ieee::Double::from_bits(b as u128);
    x == y
}

/// Relies on `rustc_apfloat`'s `Display` on `ieee::Double`: a deterministic
/// decimal rendering of the double held by the bit pattern.
#[verifier::external_body]
pub(crate) fn text_bits(a: u64) -> (r: String)
    ensures
        r@ == float_text(a),
{
    format!("{}", rustc_apfloat::ieee::Double::from_bits(a as u128))
}

/// Whether the double is within machine epsilon of zero, as the rewrite
/// rules test it: `|a| <= epsilon`.
pub open spec fn spec_near_zero(a: u64) -> bool {
    float_le(float_abs(a), EPSILON_BITS)
}

/// Whether the double is within machine epsilon of one, as the rewrite
/// rules test it: `|1 - a| <= epsilon`.
pub open spec fn spec_near_one(a: u64) -> bool {
    float_le(float_abs(float_sub(ONE_BITS, a)), EPSILON_BITS)
}

/// Whether the double is within machine epsilon of minus one, as the
/// formatter tests it: `|a + 1| <= epsilon`.
pub open spec fn spec_near_neg_one(a: u64) -> bool {
    float_le(float_abs(float_add(a, ONE_BITS)), EPSILON_BITS)
}

/// Whether the double is within machine epsilon of Euler's number:
/// `|e - a| <= epsilon`.
pub open spec fn spec_near_euler(a: u64) -> bool {
    float_le(float_abs(float_sub(EULER_BITS, a)), EPSILON_BITS)
}

pub(crate) fn near_zero(a: u64) -> (r: bool)
    ensures
        r == spec_near_zero(a),
{
    le_bits(abs_bits(a), EPSILON_BITS)
}

pub(crate) fn near_one(a: u64) -> (r: bool)
    ensures
        r == spec_near_one(a),
{
    le_bits(abs_bits(sub_bits(ONE_BITS, a)), EPSILON_BITS)
}

pub(crate) fn near_neg_one(a: u64) -> (r: bool)
    ensures
        r == spec_near_neg_one(a),
{
    le_bits(abs_bits(add_bits(a, ONE_BITS)), EPSILON_BITS)
}

pub(crate) fn near_euler(a: u64) -> (r: bool)
    ensures
        r == spec_near_euler(a),
{
    le_bits(abs_bits(sub_bits(EULER_BITS, a)), EPSILON_BITS)
}

/// A single numeric value: one IEEE-754 double, held by its bit pattern.
///
/// Arithmetic follows IEEE-754 through the trusted wrappers of this
/// module; nothing here guards division by zero, which yields an infinity
/// or NaN as the format prescribes.  Equality is IEEE equality, not
/// equality of the patterns: `Scalar(ZERO_BITS)` equals the negative zero,
/// and a NaN equals nothing, itself included.
#[derive(Clone, Copy, Debug)]
pub struct Scalar(pub u64);

/// What adding two scalars yields.
pub open spec fn scalar_plus(a: Scalar, b: Scalar) -> Scalar {
    Scalar(float_add(a.0, b.0))
}

/// What subtracting one scalar from another yields.
pub open spec fn scalar_minus(a: Scalar, b: Scalar) -> Scalar {
    Scalar(float_sub(a.0, b.0))
}

/// What multiplying two scalars yields.
pub open spec fn scalar_times(a: Scalar, b: Scalar) -> Scalar {
    Scalar(float_mul(a.0, b.0))
}

/// What dividing one scalar by another yields.
pub open spec fn scalar_over(a: Scalar, b: Scalar) -> Scalar {
    Scalar(float_div(a.0, b.0))
}

impl std::ops::Add<Scalar> for Scalar {
    type Output = Scalar;

    fn add(self, rhs: Scalar) -> (r: Scalar)
        ensures
            r == scalar_plus(self, rhs),
    {
        Scalar(add_bits(self.0, rhs.0))
    }
}

impl vstd::std_specs::ops::AddSpecImpl<Scalar> for Scalar {
    open spec fn obeys_add_spec() -> bool {
        true
    }

    open spec fn add_req(self, rhs: Scalar) -> bool {
        true
    }

    open spec fn add_spec(self, rhs: Scalar) -> Scalar {
        scalar_plus(self, rhs)
    }
}

impl std::ops::Sub<Scalar> for Scalar {
    type Output = Scalar;

    fn sub(self, rhs: Scalar) -> (r: Scalar)
        ensures
            r == scalar_minus(self, rhs),
    {
        Scalar(sub_bits(self.0, rhs.0))
    }
}

impl vstd::std_specs::ops::SubSpecImpl<Scalar> for Scalar {
    open spec fn obeys_sub_spec() -> bool {
        true
    }

    open spec fn sub_req(self, rhs: Scalar) -> bool {
        true
    }

    open spec fn sub_spec(self, rhs: Scalar) -> Scalar {
        scalar_minus(self, rhs)
    }
}

impl std::ops::Mul<Scalar> for Scalar {
    type Output = Scalar;

    fn mul(self, rhs: Scalar) -> (r: Scalar)
        ensures
            r == scalar_times(self, rhs),
    {
        Scalar(mul_bits(self.0, rhs.0))
    }
}

impl vstd::std_specs::ops::MulSpecImpl<Scalar> for Scalar {
    open spec fn obeys_mul_spec() -> bool {
        true
    }

    open spec fn mul_req(self, rhs: Scalar) -> bool {
        true
    }

    open spec fn mul_spec(self, rhs: Scalar) -> Scalar {
        scalar_times(self, rhs)
    }
}

impl std::ops::Div<Scalar> for Scalar {
    type Output = Scalar;

    fn div(self, rhs: Scalar) -> (r: Scalar)
        ensures
            r == scalar_over(self, rhs),
    {
        Scalar(div_bits(self.0, rhs.0))
    }
}

impl vstd::std_specs::ops::DivSpecImpl<Scalar> for Scalar {
    open spec fn obeys_div_spec() -> bool {
        true
    }

    open spec fn div_req(self, rhs: Scalar) -> bool {
        true
    }

    open spec fn div_spec(self, rhs: Scalar) -> Scalar {
        scalar_over(self, rhs)
    }
}

impl PartialEq for Scalar {
    fn eq(&self, other: &Scalar) -> (r: bool) {
        eq_bits(self.0, other.0)
    }
}

impl vstd::std_specs::cmp::PartialEqSpecImpl for Scalar {
    open spec fn obeys_eq_spec() -> bool {
        true
    }

    open spec fn eq_spec(&self, other: &Scalar) -> bool {
        float_eq(self.0, other.0)
    }
}

} // verus!
