//! Signed fixed-point numbers with 80 integer and 48 fractional bits.
//!
//! A number is modelled by its raw value, an integer: the number it stands
//! for is the raw value divided by `2^48`. The arithmetic itself is done by
//! the `fixed` crate; this module states what each operation returns in
//! terms of raw values and maps an unrepresentable result to
//! [`MarginfiError::MathError`].

use crate::errors::{MarginfiError, MarginfiResult};
use vstd::prelude::*;

verus! {

/// The raw value of the number one: `2^48`.
pub const ONE_BITS: i128 = 0x1_0000_0000_0000;

/// A signed fixed-point number in its operable form.
#[derive(Clone, Copy, Debug, PartialEq, Eq, Structural, PartialOrd, Ord, Hash)]
pub struct I80F48 {
    pub bits: i128,
}

/// A fixed-point number in its persisted form: the raw 128-bit
/// two's-complement integer.
#[derive(Clone, Copy, Debug, PartialEq, Eq, Structural, Hash)]
pub struct WrappedI80F48 {
    pub value: i128,
}

impl View for I80F48 {
    type V = int;

    /// The raw value, as a mathematical integer.
    open spec fn view(&self) -> int {
        self.bits as int
    }
}

impl View for WrappedI80F48 {
    type V = int;

    open spec fn view(&self) -> int {
        self.value as int
    }
}

/// Whether `v` is the raw value of some number.
pub open spec fn representable(v: int) -> bool {
    i128::MIN <= v <= i128::MAX
}

/// The number with raw value `v`, or the overflow error where there is none.
pub open spec fn checked(v: int) -> MarginfiResult<I80F48> {
    if representable(v) {
        Ok(I80F48 { bits: v as i128 })
    } else {
        Err(MarginfiError::MathError)
    }
}

/// The quotient of `n` by `d` rounded towards zero, for `d != 0`.
pub open spec fn truncated_div(n: int, d: int) -> int {
    if n >= 0 && d > 0 {
        n / d
    } else if n >= 0 {
        -(n / (-d))
    } else if d > 0 {
        -((-n) / d)
    } else {
        (-n) / (-d)
    }
}

/// The raw value of a product: the exact product of the two numbers,
/// rounded down to a multiple of `2^-48`.
pub open spec fn product_bits(a: int, b: int) -> int {
    (a * b) / (ONE_BITS as int)
}

/// The raw value of a quotient: the exact quotient of the two numbers,
/// rounded towards zero to a multiple of `2^-48`.
pub open spec fn quotient_bits(a: int, b: int) -> int {
    truncated_div(a * (ONE_BITS as int), b)
}

/// `checked_add` of `fixed::types::I80F48`, on raw values: the sum of the
/// raw values where it fits in 128 signed bits, nothing otherwise.
#[verifier::external_body]
fn add_bits(a: i128, b: i128) -> (r: Option<i128>)
    ensures
        r is Some <==> representable(a + b),
        r is Some ==> r->0 == a + b,
{
    match fixed::types::I80F48::from_bits(a).checked_add(fixed::types::I80F48::from_bits(b)) {
        Some(v) => Some(v.to_bits()),
        None => None,
    }
}

/// `checked_sub` of `fixed::types::I80F48`, on raw values: the difference
/// of the raw values where it fits in 128 signed bits, nothing otherwise.
#[verifier::external_body]
fn sub_bits(a: i128, b: i128) -> (r: Option<i128>)
    ensures
        r is Some <==> representable(a - b),
        r is Some ==> r->0 == a - b,
{
    match fixed::types::I80F48::from_bits(a).checked_sub(fixed::types::I80F48::from_bits(b)) {
        Some(v) => Some(v.to_bits()),
        None => None,
    }
}

/// `checked_mul` of `fixed::types::I80F48`, on raw values: the crate forms
/// the exact 256-bit product of the raw values and shifts it right
/// arithmetically by 48 bits, which rounds down; it returns nothing where
/// the shifted product does not fit in 128 signed bits.
#[verifier::external_body]
fn mul_bits(a: i128, b: i128) -> (r: Option<i128>)
    ensures
        r is Some <==> representable(product_bits(a as int, b as int)),
        r is Some ==> r->0 == product_bits(a as int, b as int),
{
    match fixed::types::I80F48::from_bits(a).checked_mul(fixed::types::I80F48::from_bits(b)) {
        Some(v) => Some(v.to_bits()),
        None => None,
    }
}

/// `checked_div` of `fixed::types::I80F48`, on raw values: the crate
/// returns nothing for a zero divisor; otherwise it shifts the dividend's
/// raw value left by 48 bits into 256 bits, divides the magnitudes, gives
/// the quotient the sign of the exact result (so it rounds towards zero)
/// and returns nothing where that quotient does not fit in 128 signed bits.
#[verifier::external_body]
fn div_bits(a: i128, b: i128) -> (r: Option<i128>)
    ensures
        r is Some <==> (b != 0 && representable(quotient_bits(a as int, b as int))),
        r is Some ==> r->0 == quotient_bits(a as int, b as int),
{
    match fixed::types::I80F48::from_bits(a).checked_div(fixed::types::I80F48::from_bits(b)) {
        Some(v) => Some(v.to_bits()),
        None => None,
    }
}

/// `is_positive` of `fixed::types::I80F48`, on a raw value: whether the
/// number is greater than zero.
#[verifier::external_body]
fn is_positive_bits(a: i128) -> (r: bool)
    ensures
        r == (a > 0),
{
    fixed::types::I80F48::from_bits(a).is_positive()
}

/// `<` of `fixed::types::I80F48`, on raw values: two numbers of the same
/// fractional width are ordered as their raw values are.
#[verifier::external_body]
fn less_bits(a: i128, b: i128) -> (r: bool)
    ensures
        r == (a < b),
{
    fixed::types::I80F48::from_bits(a) < fixed::types::I80F48::from_bits(b)
}

/// `From<u64>` of `fixed::types::I80F48`, giving the raw value: the integer
/// shifted left by 48 bits, which always fits.
#[verifier::external_body]
fn u64_bits(v: u64) -> (r: i128)
    ensures
        r == v * ONE_BITS,
{
    fixed::types::I80F48::from(v).to_bits()
}

/// `from_num` of `fixed::types::I80F48` for a 32-bit integer, giving the raw
/// value: the integer shifted left by 48 bits, which always fits.
#[verifier::external_body]
fn i32_bits(v: i32) -> (r: i128)
    ensures
        r == v * ONE_BITS,
{
    fixed::types::I80F48::from_num(v).to_bits()
}

impl I80F48 {
    /// The number zero.
    pub fn zero() -> (r: I80F48)
        ensures
            r@ == 0,
    {
        I80F48 { bits: 0 }
    }

    /// The number one.
    pub fn one() -> (r: I80F48)
        ensures
            r@ == ONE_BITS,
    {
        I80F48 { bits: ONE_BITS }
    }

    /// The number with the given raw value.
    pub fn from_bits(bits: i128) -> (r: I80F48)
        ensures
            r.bits == bits,
    {
        I80F48 { bits }
    }

    /// The whole number `src`.
    pub fn from_num(src: i32) -> (r: I80F48)
        ensures
            r@ == src * ONE_BITS,
    {
        I80F48 { bits: i32_bits(src) }
    }

    /// The raw value of the number.
    pub fn to_bits(self) -> (r: i128)
        ensures
            r == self.bits,
    {
        self.bits
    }

    /// What [`I80F48::checked_add`] returns.
    pub open spec fn sum(self, rhs: I80F48) -> MarginfiResult<I80F48> {
        checked(self@ + rhs@)
    }

    /// What [`I80F48::checked_sub`] returns.
    pub open spec fn difference(self, rhs: I80F48) -> MarginfiResult<I80F48> {
        checked(self@ - rhs@)
    }

    /// What [`I80F48::checked_mul`] returns.
    pub open spec fn product(self, rhs: I80F48) -> MarginfiResult<I80F48> {
        checked(product_bits(self@, rhs@))
    }

    /// What [`I80F48::checked_div`] returns.
    pub open spec fn quotient(self, rhs: I80F48) -> MarginfiResult<I80F48> {
        if rhs@ == 0 {
            Err(MarginfiError::MathError)
        } else {
            checked(quotient_bits(self@, rhs@))
        }
    }

    /// The sum of two numbers, or the overflow error where it cannot be
    /// represented.
    pub fn checked_add(self, rhs: I80F48) -> (r: MarginfiResult<I80F48>)
        ensures
            r == self.sum(rhs),
    {
        match add_bits(self.bits, rhs.bits) {
            Some(bits) => Ok(I80F48 { bits }),
            None => Err(MarginfiError::MathError),
        }
    }

    /// The difference of two numbers, or the overflow error where it cannot
    /// be represented.
    pub fn checked_sub(self, rhs: I80F48) -> (r: MarginfiResult<I80F48>)
        ensures
            r == self.difference(rhs),
    {
        match sub_bits(self.bits, rhs.bits) {
            Some(bits) => Ok(I80F48 { bits }),
            None => Err(MarginfiError::MathError),
        }
    }

    /// The product of two numbers rounded down to the next representable
    /// number, or the overflow error where that is out of range.
    pub fn checked_mul(self, rhs: I80F48) -> (r: MarginfiResult<I80F48>)
        ensures
            r == self.product(rhs),
    {
        match mul_bits(self.bits, rhs.bits) {
            Some(bits) => Ok(I80F48 { bits }),
            None => Err(MarginfiError::MathError),
        }
    }

    /// The quotient of two numbers rounded towards zero to the next
    /// representable number, or the overflow error where the divisor is
    /// zero or the quotient is out of range.
    pub fn checked_div(self, rhs: I80F48) -> (r: MarginfiResult<I80F48>)
        ensures
            r == self.quotient(rhs),
    {
        match div_bits(self.bits, rhs.bits) {
            Some(bits) => Ok(I80F48 { bits }),
            None => Err(MarginfiError::MathError),
        }
    }

    /// Whether the number is greater than zero.
    pub fn is_positive(self) -> (r: bool)
        ensures
            r == (self@ > 0),
    {
        is_positive_bits(self.bits)
    }

    /// Whether the number is less than `rhs`.
    pub fn less_than(self, rhs: I80F48) -> (r: bool)
        ensures
            r == (self@ < rhs@),
    {
        less_bits(self.bits, rhs.bits)
    }
}

impl I80F48 {
    /// The persisted form of the number: its raw value, unchanged.
    pub open spec fn persisted(self) -> WrappedI80F48 {
        WrappedI80F48 { value: self.bits }
    }
}

impl WrappedI80F48 {
    /// The number that the persisted value stands for: the one with the
    /// same raw value.
    pub open spec fn number(self) -> I80F48 {
        I80F48 { bits: self.value }
    }
}

/// The persisted form loses nothing: a number that is stored and read back
/// is the same number, a stored value that is read and stored again is the
/// same value, and stored values are ordered as the numbers are.
pub proof fn lemma_persisted_form_is_exact(a: I80F48, b: I80F48, w: WrappedI80F48)
    ensures
        a.persisted().number() == a,
        w.number().persisted() == w,
        a@ < b@ <==> a.persisted()@ < b.persisted()@,
{
}

impl Default for I80F48 {
    /// The number zero.
    fn default() -> (r: I80F48)
        ensures
            r@ == 0,
    {
        I80F48 { bits: 0 }
    }
}

impl Default for WrappedI80F48 {
    /// The number zero.
    fn default() -> (r: WrappedI80F48)
        ensures
            r@ == 0,
    {
        WrappedI80F48 { value: 0 }
    }
}

impl From<u64> for I80F48 {
    /// The whole number `v`.
    fn from(v: u64) -> (r: I80F48)
    {
        I80F48 { bits: u64_bits(v) }
    }
}

impl vstd::std_specs::convert::FromSpecImpl<u64> for I80F48 {
    open spec fn obeys_from_spec() -> bool {
        true
    }

    open spec fn from_spec(v: u64) -> I80F48 {
        I80F48 { bits: (v * ONE_BITS) as i128 }
    }
}

impl From<I80F48> for WrappedI80F48 {
    /// The persisted form of a number: its raw value, unchanged.
    fn from(i: I80F48) -> (r: WrappedI80F48)
    {
        WrappedI80F48 { value: i.to_bits() }
    }
}

impl vstd::std_specs::convert::FromSpecImpl<I80F48> for WrappedI80F48 {
    open spec fn obeys_from_spec() -> bool {
        true
    }

    open spec fn from_spec(i: I80F48) -> WrappedI80F48 {
        i.persisted()
    }
}

impl From<WrappedI80F48> for I80F48 {
    /// The operable form of a persisted number: the same raw value.
    fn from(w: WrappedI80F48) -> (r: I80F48)
    {
        I80F48::from_bits(w.value)
    }
}

impl vstd::std_specs::convert::FromSpecImpl<WrappedI80F48> for I80F48 {
    open spec fn obeys_from_spec() -> bool {
        true
    }

    open spec fn from_spec(w: WrappedI80F48) -> I80F48 {
        w.number()
    }
}

} // verus!
