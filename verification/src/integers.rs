//! The primitive integers as coefficients.
//!
//! Each integer stands for itself, and the type has room for the integers
//! from its `MIN` to its `MAX`. The identity elements are the ones that the
//! `num` crate gives the type.

use vstd::prelude::*;
use crate::coefficient::Coefficient;

verus! {

/// `num::traits::Zero::zero` of `u8`. Trusted: the result is the integer 0.
#[verifier::external_body]
fn zero_u8() -> (r: u8)
    ensures
        r == 0,
{
    <u8 as num::traits::Zero>::zero()
}

/// `num::traits::One::one` of `u8`. Trusted: the result is the integer 1.
#[verifier::external_body]
fn one_u8() -> (r: u8)
    ensures
        r == 1,
{
    <u8 as num::traits::One>::one()
}

impl Coefficient for u8 {
    open spec fn value(self) -> int {
        self as int
    }

    open spec fn fits(v: int) -> bool {
        u8::MIN <= v <= u8::MAX
    }

    proof fn value_fits(self) {
    }

    proof fn value_is_injective(a: Self, b: Self) {
    }

    proof fn units_fit() {
    }

    fn zero() -> (r: Self) {
        zero_u8()
    }

    fn one() -> (r: Self) {
        one_u8()
    }

    fn sum(self, rhs: Self) -> (r: Self) {
        self + rhs
    }

    fn product(self, rhs: Self) -> (r: Self) {
        self * rhs
    }
}

/// `num::traits::Zero::zero` of `u16`. Trusted: the result is the integer 0.
#[verifier::external_body]
fn zero_u16() -> (r: u16)
    ensures
        r == 0,
{
    <u16 as num::traits::Zero>::zero()
}

/// `num::traits::One::one` of `u16`. Trusted: the result is the integer 1.
#[verifier::external_body]
fn one_u16() -> (r: u16)
    ensures
        r == 1,
{
    <u16 as num::traits::One>::one()
}

impl Coefficient for u16 {
    open spec fn value(self) -> int {
        self as int
    }

    open spec fn fits(v: int) -> bool {
        u16::MIN <= v <= u16::MAX
    }

    proof fn value_fits(self) {
    }

    proof fn value_is_injective(a: Self, b: Self) {
    }

    proof fn units_fit() {
    }

    fn zero() -> (r: Self) {
        zero_u16()
    }

    fn one() -> (r: Self) {
        one_u16()
    }

    fn sum(self, rhs: Self) -> (r: Self) {
        self + rhs
    }

    fn product(self, rhs: Self) -> (r: Self) {
        self * rhs
    }
}

/// `num::traits::Zero::zero` of `u32`. Trusted: the result is the integer 0.
#[verifier::external_body]
fn zero_u32() -> (r: u32)
    ensures
        r == 0,
{
    <u32 as num::traits::Zero>::zero()
}

/// `num::traits::One::one` of `u32`. Trusted: the result is the integer 1.
#[verifier::external_body]
fn one_u32() -> (r: u32)
    ensures
        r == 1,
{
    <u32 as num::traits::One>::one()
}

impl Coefficient for u32 {
    open spec fn value(self) -> int {
        self as int
    }

    open spec fn fits(v: int) -> bool {
        u32::MIN <= v <= u32::MAX
    }

    proof fn value_fits(self) {
    }

    proof fn value_is_injective(a: Self, b: Self) {
    }

    proof fn units_fit() {
    }

    fn zero() -> (r: Self) {
        zero_u32()
    }

    fn one() -> (r: Self) {
        one_u32()
    }

    fn sum(self, rhs: Self) -> (r: Self) {
        self + rhs
    }

    fn product(self, rhs: Self) -> (r: Self) {
        self * rhs
    }
}

/// `num::traits::Zero::zero` of `u64`. Trusted: the result is the integer 0.
#[verifier::external_body]
fn zero_u64() -> (r: u64)
    ensures
        r == 0,
{
    <u64 as num::traits::Zero>::zero()
}

/// `num::traits::One::one` of `u64`. Trusted: the result is the integer 1.
#[verifier::external_body]
fn one_u64() -> (r: u64)
    ensures
        r == 1,
{
    <u64 as num::traits::One>::one()
}

impl Coefficient for u64 {
    open spec fn value(self) -> int {
        self as int
    }

    open spec fn fits(v: int) -> bool {
        u64::MIN <= v <= u64::MAX
    }

    proof fn value_fits(self) {
    }

    proof fn value_is_injective(a: Self, b: Self) {
    }

    proof fn units_fit() {
    }

    fn zero() -> (r: Self) {
        zero_u64()
    }

    fn one() -> (r: Self) {
        one_u64()
    }

    fn sum(self, rhs: Self) -> (r: Self) {
        self + rhs
    }

    fn product(self, rhs: Self) -> (r: Self) {
        self * rhs
    }
}

/// `num::traits::Zero::zero` of `u128`. Trusted: the result is the integer 0.
#[verifier::external_body]
fn zero_u128() -> (r: u128)
    ensures
        r == 0,
{
    <u128 as num::traits::Zero>::zero()
}

/// `num::traits::One::one` of `u128`. Trusted: the result is the integer 1.
#[verifier::external_body]
fn one_u128() -> (r: u128)
    ensures
        r == 1,
{
    <u128 as num::traits::One>::one()
}

impl Coefficient for u128 {
    open spec fn value(self) -> int {
        self as int
    }

    open spec fn fits(v: int) -> bool {
        u128::MIN <= v <= u128::MAX
    }

    proof fn value_fits(self) {
    }

    proof fn value_is_injective(a: Self, b: Self) {
    }

    proof fn units_fit() {
    }

    fn zero() -> (r: Self) {
        zero_u128()
    }

    fn one() -> (r: Self) {
        one_u128()
    }

    fn sum(self, rhs: Self) -> (r: Self) {
        self + rhs
    }

    fn product(self, rhs: Self) -> (r: Self) {
        self * rhs
    }
}

/// `num::traits::Zero::zero` of `usize`. Trusted: the result is the integer 0.
#[verifier::external_body]
fn zero_usize() -> (r: usize)
    ensures
        r == 0,
{
    <usize as num::traits::Zero>::zero()
}

/// `num::traits::One::one` of `usize`. Trusted: the result is the integer 1.
#[verifier::external_body]
fn one_usize() -> (r: usize)
    ensures
        r == 1,
{
    <usize as num::traits::One>::one()
}

impl Coefficient for usize {
    open spec fn value(self) -> int {
        self as int
    }

    open spec fn fits(v: int) -> bool {
        usize::MIN <= v <= usize::MAX
    }

    proof fn value_fits(self) {
    }

    proof fn value_is_injective(a: Self, b: Self) {
    }

    proof fn units_fit() {
    }

    fn zero() -> (r: Self) {
        zero_usize()
    }

    fn one() -> (r: Self) {
        one_usize()
    }

    fn sum(self, rhs: Self) -> (r: Self) {
        self + rhs
    }

    fn product(self, rhs: Self) -> (r: Self) {
        self * rhs
    }
}

/// `num::traits::Zero::zero` of `i8`. Trusted: the result is the integer 0.
#[verifier::external_body]
fn zero_i8() -> (r: i8)
    ensures
        r == 0,
{
    <i8 as num::traits::Zero>::zero()
}

/// `num::traits::One::one` of `i8`. Trusted: the result is the integer 1.
#[verifier::external_body]
fn one_i8() -> (r: i8)
    ensures
        r == 1,
{
    <i8 as num::traits::One>::one()
}

impl Coefficient for i8 {
    open spec fn value(self) -> int {
        self as int
    }

    open spec fn fits(v: int) -> bool {
        i8::MIN <= v <= i8::MAX
    }

    proof fn value_fits(self) {
    }

    proof fn value_is_injective(a: Self, b: Self) {
    }

    proof fn units_fit() {
    }

    fn zero() -> (r: Self) {
        zero_i8()
    }

    fn one() -> (r: Self) {
        one_i8()
    }

    fn sum(self, rhs: Self) -> (r: Self) {
        self + rhs
    }

    fn product(self, rhs: Self) -> (r: Self) {
        self * rhs
    }
}

/// `num::traits::Zero::zero` of `i16`. Trusted: the result is the integer 0.
#[verifier::external_body]
fn zero_i16() -> (r: i16)
    ensures
        r == 0,
{
    <i16 as num::traits::Zero>::zero()
}

/// `num::traits::One::one` of `i16`. Trusted: the result is the integer 1.
#[verifier::external_body]
fn one_i16() -> (r: i16)
    ensures
        r == 1,
{
    <i16 as num::traits::One>::one()
}

impl Coefficient for i16 {
    open spec fn value(self) -> int {
        self as int
    }

    open spec fn fits(v: int) -> bool {
        i16::MIN <= v <= i16::MAX
    }

    proof fn value_fits(self) {
    }

    proof fn value_is_injective(a: Self, b: Self) {
    }

    proof fn units_fit() {
    }

    fn zero() -> (r: Self) {
        zero_i16()
    }

    fn one() -> (r: Self) {
        one_i16()
    }

    fn sum(self, rhs: Self) -> (r: Self) {
        self + rhs
    }

    fn product(self, rhs: Self) -> (r: Self) {
        self * rhs
    }
}

/// `num::traits::Zero::zero` of `i32`. Trusted: the result is the integer 0.
#[verifier::external_body]
fn zero_i32() -> (r: i32)
    ensures
        r == 0,
{
    <i32 as num::traits::Zero>::zero()
}

/// `num::traits::One::one` of `i32`. Trusted: the result is the integer 1.
#[verifier::external_body]
fn one_i32() -> (r: i32)
    ensures
        r == 1,
{
    <i32 as num::traits::One>::one()
}

impl Coefficient for i32 {
    open spec fn value(self) -> int {
        self as int
    }

    open spec fn fits(v: int) -> bool {
        i32::MIN <= v <= i32::MAX
    }

    proof fn value_fits(self) {
    }

    proof fn value_is_injective(a: Self, b: Self) {
    }

    proof fn units_fit() {
    }

    fn zero() -> (r: Self) {
        zero_i32()
    }

    fn one() -> (r: Self) {
        one_i32()
    }

    fn sum(self, rhs: Self) -> (r: Self) {
        self + rhs
    }

    fn product(self, rhs: Self) -> (r: Self) {
        self * rhs
    }
}

/// `num::traits::Zero::zero` of `i64`. Trusted: the result is the integer 0.
#[verifier::external_body]
fn zero_i64() -> (r: i64)
    ensures
        r == 0,
{
    <i64 as num::traits::Zero>::zero()
}

/// `num::traits::One::one` of `i64`. Trusted: the result is the integer 1.
#[verifier::external_body]
fn one_i64() -> (r: i64)
    ensures
        r == 1,
{
    <i64 as num::traits::One>::one()
}

impl Coefficient for i64 {
    open spec fn value(self) -> int {
        self as int
    }

    open spec fn fits(v: int) -> bool {
        i64::MIN <= v <= i64::MAX
    }

    proof fn value_fits(self) {
    }

    proof fn value_is_injective(a: Self, b: Self) {
    }

    proof fn units_fit() {
    }

    fn zero() -> (r: Self) {
        zero_i64()
    }

    fn one() -> (r: Self) {
        one_i64()
    }

    fn sum(self, rhs: Self) -> (r: Self) {
        self + rhs
    }

    fn product(self, rhs: Self) -> (r: Self) {
        self * rhs
    }
}

/// `num::traits::Zero::zero` of `i128`. Trusted: the result is the integer 0.
#[verifier::external_body]
fn zero_i128() -> (r: i128)
    ensures
        r == 0,
{
    <i128 as num::traits::Zero>::zero()
}

/// `num::traits::One::one` of `i128`. Trusted: the result is the integer 1.
#[verifier::external_body]
fn one_i128() -> (r: i128)
    ensures
        r == 1,
{
    <i128 as num::traits::One>::one()
}

impl Coefficient for i128 {
    open spec fn value(self) -> int {
        self as int
    }

    open spec fn fits(v: int) -> bool {
        i128::MIN <= v <= i128::MAX
    }

    proof fn value_fits(self) {
    }

    proof fn value_is_injective(a: Self, b: Self) {
    }

    proof fn units_fit() {
    }

    fn zero() -> (r: Self) {
        zero_i128()
    }

    fn one() -> (r: Self) {
        one_i128()
    }

    fn sum(self, rhs: Self) -> (r: Self) {
        self + rhs
    }

    fn product(self, rhs: Self) -> (r: Self) {
        self * rhs
    }
}

/// `num::traits::Zero::zero` of `isize`. Trusted: the result is the integer 0.
#[verifier::external_body]
fn zero_isize() -> (r: isize)
    ensures
        r == 0,
{
    <isize as num::traits::Zero>::zero()
}

/// `num::traits::One::one` of `isize`. Trusted: the result is the integer 1.
#[verifier::external_body]
fn one_isize() -> (r: isize)
    ensures
        r == 1,
{
    <isize as num::traits::One>::one()
}

impl Coefficient for isize {
    open spec fn value(self) -> int {
        self as int
    }

    open spec fn fits(v: int) -> bool {
        isize::MIN <= v <= isize::MAX
    }

    proof fn value_fits(self) {
    }

    proof fn value_is_injective(a: Self, b: Self) {
    }

    proof fn units_fit() {
    }

    fn zero() -> (r: Self) {
        zero_isize()
    }

    fn one() -> (r: Self) {
        one_isize()
    }

    fn sum(self, rhs: Self) -> (r: Self) {
        self + rhs
    }

    fn product(self, rhs: Self) -> (r: Self) {
        self * rhs
    }
}

} // verus!
