//! The integer types that a running total or a running product can hold.
//!
//! [`Numeric`] reads every primitive integer type as the mathematical integer
//! it holds, so that sums and products are stated over `int` and a bound on
//! the result says when the machine type can hold it.
use vstd::prelude::*;

verus! {

/// A primitive integer type, read as the integers it can hold.
pub trait Numeric: Sized + Copy {
    /// The integer that `self` holds.
    spec fn value(self) -> int;

    /// Whether the type can hold `v`.
    spec fn in_range(v: int) -> bool;

    /// The additive identity.
    fn zero() -> (z: Self)
        ensures
            z.value() == 0,
    ;

    /// The multiplicative identity.
    fn one() -> (o: Self)
        ensures
            o.value() == 1,
    ;

    /// Whether the type can hold the sum of two values.
    fn can_plus(self, rhs: Self) -> (ok: bool)
        ensures
            ok == Self::in_range(self.value() + rhs.value()),
    ;

    /// Whether the type can hold the product of two values.
    fn can_times(self, rhs: Self) -> (ok: bool)
        ensures
            ok == Self::in_range(self.value() * rhs.value()),
    ;

    /// The sum of two values, where the type can hold it.
    fn plus(self, rhs: Self) -> (sum: Self)
        requires
            Self::in_range(self.value() + rhs.value()),
        ensures
            sum.value() == self.value() + rhs.value(),
    ;

    /// The product of two values, where the type can hold it.
    fn times(self, rhs: Self) -> (product: Self)
        requires
            Self::in_range(self.value() * rhs.value()),
        ensures
            product.value() == self.value() * rhs.value(),
    ;

    /// What a value holds is in the type's range.
    proof fn lemma_value_in_range(self)
        ensures
            Self::in_range(self.value()),
    ;

    /// Two values that hold the same integer are the same value.
    proof fn lemma_value_determines(a: Self, b: Self)
        requires
            a.value() == b.value(),
        ensures
            a == b,
    ;
}

/// `num_traits::identities::One::one` for `u8`, which returns the
/// multiplicative identity of the type: 1.
#[verifier::external_body]
fn one_u8() -> (r: u8)
    ensures
        r == 1,
{
    num_traits::identities::One::one()
}

impl Numeric for u8 {
    open spec fn value(self) -> int {
        self as int
    }

    open spec fn in_range(v: int) -> bool {
        u8::MIN <= v <= u8::MAX
    }

    fn zero() -> (z: u8) {
        0
    }

    fn one() -> (o: u8) {
        one_u8()
    }

    fn can_plus(self, rhs: u8) -> (ok: bool) {
        self.checked_add(rhs).is_some()
    }

    fn can_times(self, rhs: u8) -> (ok: bool) {
        self.checked_mul(rhs).is_some()
    }

    fn plus(self, rhs: u8) -> (sum: u8) {
        self + rhs
    }

    fn times(self, rhs: u8) -> (product: u8) {
        self * rhs
    }

    proof fn lemma_value_in_range(self) {
    }

    proof fn lemma_value_determines(a: u8, b: u8) {
    }
}

/// `num_traits::identities::One::one` for `u16`, which returns the
/// multiplicative identity of the type: 1.
#[verifier::external_body]
fn one_u16() -> (r: u16)
    ensures
        r == 1,
{
    num_traits::identities::One::one()
}

impl Numeric for u16 {
    open spec fn value(self) -> int {
        self as int
    }

    open spec fn in_range(v: int) -> bool {
        u16::MIN <= v <= u16::MAX
    }

    fn zero() -> (z: u16) {
        0
    }

    fn one() -> (o: u16) {
        one_u16()
    }

    fn can_plus(self, rhs: u16) -> (ok: bool) {
        self.checked_add(rhs).is_some()
    }

    fn can_times(self, rhs: u16) -> (ok: bool) {
        self.checked_mul(rhs).is_some()
    }

    fn plus(self, rhs: u16) -> (sum: u16) {
        self + rhs
    }

    fn times(self, rhs: u16) -> (product: u16) {
        self * rhs
    }

    proof fn lemma_value_in_range(self) {
    }

    proof fn lemma_value_determines(a: u16, b: u16) {
    }
}

/// `num_traits::identities::One::one` for `u32`, which returns the
/// multiplicative identity of the type: 1.
#[verifier::external_body]
fn one_u32() -> (r: u32)
    ensures
        r == 1,
{
    num_traits::identities::One::one()
}

impl Numeric for u32 {
    open spec fn value(self) -> int {
        self as int
    }

    open spec fn in_range(v: int) -> bool {
        u32::MIN <= v <= u32::MAX
    }

    fn zero() -> (z: u32) {
        0
    }

    fn one() -> (o: u32) {
        one_u32()
    }

    fn can_plus(self, rhs: u32) -> (ok: bool) {
        self.checked_add(rhs).is_some()
    }

    fn can_times(self, rhs: u32) -> (ok: bool) {
        self.checked_mul(rhs).is_some()
    }

    fn plus(self, rhs: u32) -> (sum: u32) {
        self + rhs
    }

    fn times(self, rhs: u32) -> (product: u32) {
        self * rhs
    }

    proof fn lemma_value_in_range(self) {
    }

    proof fn lemma_value_determines(a: u32, b: u32) {
    }
}

/// `num_traits::identities::One::one` for `u64`, which returns the
/// multiplicative identity of the type: 1.
#[verifier::external_body]
fn one_u64() -> (r: u64)
    ensures
        r == 1,
{
    num_traits::identities::One::one()
}

impl Numeric for u64 {
    open spec fn value(self) -> int {
        self as int
    }

    open spec fn in_range(v: int) -> bool {
        u64::MIN <= v <= u64::MAX
    }

    fn zero() -> (z: u64) {
        0
    }

    fn one() -> (o: u64) {
        one_u64()
    }

    fn can_plus(self, rhs: u64) -> (ok: bool) {
        self.checked_add(rhs).is_some()
    }

    fn can_times(self, rhs: u64) -> (ok: bool) {
        self.checked_mul(rhs).is_some()
    }

    fn plus(self, rhs: u64) -> (sum: u64) {
        self + rhs
    }

    fn times(self, rhs: u64) -> (product: u64) {
        self * rhs
    }

    proof fn lemma_value_in_range(self) {
    }

    proof fn lemma_value_determines(a: u64, b: u64) {
    }
}

/// `num_traits::identities::One::one` for `u128`, which returns the
/// multiplicative identity of the type: 1.
#[verifier::external_body]
fn one_u128() -> (r: u128)
    ensures
        r == 1,
{
    num_traits::identities::One::one()
}

impl Numeric for u128 {
    open spec fn value(self) -> int {
        self as int
    }

    open spec fn in_range(v: int) -> bool {
        u128::MIN <= v <= u128::MAX
    }

    fn zero() -> (z: u128) {
        0
    }

    fn one() -> (o: u128) {
        one_u128()
    }

    fn can_plus(self, rhs: u128) -> (ok: bool) {
        self.checked_add(rhs).is_some()
    }

    fn can_times(self, rhs: u128) -> (ok: bool) {
        self.checked_mul(rhs).is_some()
    }

    fn plus(self, rhs: u128) -> (sum: u128) {
        self + rhs
    }

    fn times(self, rhs: u128) -> (product: u128) {
        self * rhs
    }

    proof fn lemma_value_in_range(self) {
    }

    proof fn lemma_value_determines(a: u128, b: u128) {
    }
}

/// `num_traits::identities::One::one` for `usize`, which returns the
/// multiplicative identity of the type: 1.
#[verifier::external_body]
fn one_usize() -> (r: usize)
    ensures
        r == 1,
{
    num_traits::identities::One::one()
}

impl Numeric for usize {
    open spec fn value(self) -> int {
        self as int
    }

    open spec fn in_range(v: int) -> bool {
        usize::MIN <= v <= usize::MAX
    }

    fn zero() -> (z: usize) {
        0
    }

    fn one() -> (o: usize) {
        one_usize()
    }

    fn can_plus(self, rhs: usize) -> (ok: bool) {
        self.checked_add(rhs).is_some()
    }

    fn can_times(self, rhs: usize) -> (ok: bool) {
        self.checked_mul(rhs).is_some()
    }

    fn plus(self, rhs: usize) -> (sum: usize) {
        self + rhs
    }

    fn times(self, rhs: usize) -> (product: usize) {
        self * rhs
    }

    proof fn lemma_value_in_range(self) {
    }

    proof fn lemma_value_determines(a: usize, b: usize) {
    }
}

/// `num_traits::identities::One::one` for `i8`, which returns the
/// multiplicative identity of the type: 1.
#[verifier::external_body]
fn one_i8() -> (r: i8)
    ensures
        r == 1,
{
    num_traits::identities::One::one()
}

impl Numeric for i8 {
    open spec fn value(self) -> int {
        self as int
    }

    open spec fn in_range(v: int) -> bool {
        i8::MIN <= v <= i8::MAX
    }

    fn zero() -> (z: i8) {
        0
    }

    fn one() -> (o: i8) {
        one_i8()
    }

    fn can_plus(self, rhs: i8) -> (ok: bool) {
        self.checked_add(rhs).is_some()
    }

    fn can_times(self, rhs: i8) -> (ok: bool) {
        self.checked_mul(rhs).is_some()
    }

    fn plus(self, rhs: i8) -> (sum: i8) {
        self + rhs
    }

    fn times(self, rhs: i8) -> (product: i8) {
        self * rhs
    }

    proof fn lemma_value_in_range(self) {
    }

    proof fn lemma_value_determines(a: i8, b: i8) {
    }
}

/// `num_traits::identities::One::one` for `i16`, which returns the
/// multiplicative identity of the type: 1.
#[verifier::external_body]
fn one_i16() -> (r: i16)
    ensures
        r == 1,
{
    num_traits::identities::One::one()
}

impl Numeric for i16 {
    open spec fn value(self) -> int {
        self as int
    }

    open spec fn in_range(v: int) -> bool {
        i16::MIN <= v <= i16::MAX
    }

    fn zero() -> (z: i16) {
        0
    }

    fn one() -> (o: i16) {
        one_i16()
    }

    fn can_plus(self, rhs: i16) -> (ok: bool) {
        self.checked_add(rhs).is_some()
    }

    fn can_times(self, rhs: i16) -> (ok: bool) {
        self.checked_mul(rhs).is_some()
    }

    fn plus(self, rhs: i16) -> (sum: i16) {
        self + rhs
    }

    fn times(self, rhs: i16) -> (product: i16) {
        self * rhs
    }

    proof fn lemma_value_in_range(self) {
    }

    proof fn lemma_value_determines(a: i16, b: i16) {
    }
}

/// `num_traits::identities::One::one` for `i32`, which returns the
/// multiplicative identity of the type: 1.
#[verifier::external_body]
fn one_i32() -> (r: i32)
    ensures
        r == 1,
{
    num_traits::identities::One::one()
}

impl Numeric for i32 {
    open spec fn value(self) -> int {
        self as int
    }

    open spec fn in_range(v: int) -> bool {
        i32::MIN <= v <= i32::MAX
    }

    fn zero() -> (z: i32) {
        0
    }

    fn one() -> (o: i32) {
        one_i32()
    }

    fn can_plus(self, rhs: i32) -> (ok: bool) {
        self.checked_add(rhs).is_some()
    }

    fn can_times(self, rhs: i32) -> (ok: bool) {
        self.checked_mul(rhs).is_some()
    }

    fn plus(self, rhs: i32) -> (sum: i32) {
        self + rhs
    }

    fn times(self, rhs: i32) -> (product: i32) {
        self * rhs
    }

    proof fn lemma_value_in_range(self) {
    }

    proof fn lemma_value_determines(a: i32, b: i32) {
    }
}

/// `num_traits::identities::One::one` for `i64`, which returns the
/// multiplicative identity of the type: 1.
#[verifier::external_body]
fn one_i64() -> (r: i64)
    ensures
        r == 1,
{
    num_traits::identities::One::one()
}

impl Numeric for i64 {
    open spec fn value(self) -> int {
        self as int
    }

    open spec fn in_range(v: int) -> bool {
        i64::MIN <= v <= i64::MAX
    }

    fn zero() -> (z: i64) {
        0
    }

    fn one() -> (o: i64) {
        one_i64()
    }

    fn can_plus(self, rhs: i64) -> (ok: bool) {
        self.checked_add(rhs).is_some()
    }

    fn can_times(self, rhs: i64) -> (ok: bool) {
        self.checked_mul(rhs).is_some()
    }

    fn plus(self, rhs: i64) -> (sum: i64) {
        self + rhs
    }

    fn times(self, rhs: i64) -> (product: i64) {
        self * rhs
    }

    proof fn lemma_value_in_range(self) {
    }

    proof fn lemma_value_determines(a: i64, b: i64) {
    }
}

/// `num_traits::identities::One::one` for `i128`, which returns the
/// multiplicative identity of the type: 1.
#[verifier::external_body]
fn one_i128() -> (r: i128)
    ensures
        r == 1,
{
    num_traits::identities::One::one()
}

impl Numeric for i128 {
    open spec fn value(self) -> int {
        self as int
    }

    open spec fn in_range(v: int) -> bool {
        i128::MIN <= v <= i128::MAX
    }

    fn zero() -> (z: i128) {
        0
    }

    fn one() -> (o: i128) {
        one_i128()
    }

    fn can_plus(self, rhs: i128) -> (ok: bool) {
        self.checked_add(rhs).is_some()
    }

    fn can_times(self, rhs: i128) -> (ok: bool) {
        self.checked_mul(rhs).is_some()
    }

    fn plus(self, rhs: i128) -> (sum: i128) {
        self + rhs
    }

    fn times(self, rhs: i128) -> (product: i128) {
        self * rhs
    }

    proof fn lemma_value_in_range(self) {
    }

    proof fn lemma_value_determines(a: i128, b: i128) {
    }
}

/// `num_traits::identities::One::one` for `isize`, which returns the
/// multiplicative identity of the type: 1.
#[verifier::external_body]
fn one_isize() -> (r: isize)
    ensures
        r == 1,
{
    num_traits::identities::One::one()
}

impl Numeric for isize {
    open spec fn value(self) -> int {
        self as int
    }

    open spec fn in_range(v: int) -> bool {
        isize::MIN <= v <= isize::MAX
    }

    fn zero() -> (z: isize) {
        0
    }

    fn one() -> (o: isize) {
        one_isize()
    }

    fn can_plus(self, rhs: isize) -> (ok: bool) {
        self.checked_add(rhs).is_some()
    }

    fn can_times(self, rhs: isize) -> (ok: bool) {
        self.checked_mul(rhs).is_some()
    }

    fn plus(self, rhs: isize) -> (sum: isize) {
        self + rhs
    }

    fn times(self, rhs: isize) -> (product: isize) {
        self * rhs
    }

    proof fn lemma_value_in_range(self) {
    }

    proof fn lemma_value_determines(a: isize, b: isize) {
    }
}

} // verus!
