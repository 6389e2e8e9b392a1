//! The integer types that a bit field can be read as or written from.

use vstd::prelude::*;
use vstd::arithmetic::power2::{pow2, lemma2_to64, lemma2_to64_rest, lemma_pow2_adds};

verus! {

/// 2^128, the modulus of a `u128`.
pub open spec fn two_pow_128() -> int {
    0x1_0000_0000_0000_0000_0000_0000_0000_0000int
}

/// The powers of two that bound the wide integer types.
pub proof fn lemma_wide_powers()
    ensures
        pow2(63) == 0x8000_0000_0000_0000,
        pow2(64) == 0x1_0000_0000_0000_0000,
        pow2(127) == 0x8000_0000_0000_0000_0000_0000_0000_0000,
        pow2(128) == two_pow_128(),
{
    lemma2_to64();
    lemma2_to64_rest();
    lemma_pow2_adds(63, 64);
    lemma_pow2_adds(64, 64);
}

/// An integer type that a bit field can hold: one of the fixed-width
/// integers from 8 to 128 bits or of pointer width, signed or unsigned.
pub trait FieldValue: Sized + Copy {
    /// The width of the type in bits.
    spec fn spec_bits() -> nat;

    /// Whether the type is a two's complement signed type.
    spec fn spec_signed() -> bool;

    /// The smallest value of the type.
    spec fn spec_min() -> int;

    /// The largest value of the type.
    spec fn spec_max() -> int;

    /// The mathematical value of `self`.
    spec fn int_value(self) -> int;

    /// The value of the type whose mathematical value is `v`, where `v` is in
    /// the type's range.
    spec fn from_int(v: int) -> Self;

    /// The range of the type in terms of its width.
    proof fn lemma_range()
        ensures
            Self::spec_bits() == 8 || Self::spec_bits() == 16 || Self::spec_bits() == 32
                || Self::spec_bits() == 64 || Self::spec_bits() == 128,
            Self::spec_signed() ==> Self::spec_min() == -(pow2((Self::spec_bits() - 1) as nat) as int)
                && Self::spec_max() == pow2((Self::spec_bits() - 1) as nat) - 1,
            !Self::spec_signed() ==> Self::spec_min() == 0 && Self::spec_max() == pow2(
                Self::spec_bits(),
            ) - 1,
    ;

    /// `from_int` is the inverse of `int_value` on the type's range.
    proof fn lemma_from_int(v: int)
        requires
            Self::spec_min() <= v <= Self::spec_max(),
        ensures
            Self::from_int(v).int_value() == v,
    ;

    /// Every value lies in the type's range and is given back by `from_int`.
    proof fn lemma_int_value(x: Self)
        ensures
            Self::spec_min() <= x.int_value() <= Self::spec_max(),
            Self::from_int(x.int_value()) == x,
    ;

    /// The width of the type in bits.
    fn bits() -> (r: u32)
        ensures
            r == Self::spec_bits(),
    ;

    /// Whether the type is signed.
    fn signed() -> (r: bool)
        ensures
            r == Self::spec_signed(),
    ;

    /// Narrows a zero-extended field value to the type.
    fn from_u128(raw: u128) -> (r: Self)
        requires
            raw <= Self::spec_max(),
        ensures
            r.int_value() == raw,
    ;

    /// Narrows a sign-extended field value to the type.
    fn from_i128(raw: i128) -> (r: Self)
        requires
            Self::spec_min() <= raw <= Self::spec_max(),
        ensures
            r.int_value() == raw,
    ;

    /// The two's complement bit pattern of `self`, widened to 128 bits.
    fn to_u128_bits(self) -> (r: u128)
        ensures
            r as int == self.int_value() % two_pow_128(),
    ;
}

impl FieldValue for u8 {
    open spec fn spec_bits() -> nat {
        8
    }

    open spec fn spec_signed() -> bool {
        false
    }

    open spec fn spec_min() -> int {
        0
    }

    open spec fn spec_max() -> int {
        0xff
    }

    open spec fn int_value(self) -> int {
        self as int
    }

    open spec fn from_int(v: int) -> Self {
        v as u8
    }

    proof fn lemma_range() {
        lemma2_to64();
        lemma_wide_powers();
    }

    proof fn lemma_from_int(v: int) {
    }

    proof fn lemma_int_value(x: Self) {
    }

    fn bits() -> (r: u32) {
        8
    }

    fn signed() -> (r: bool) {
        false
    }

    fn from_u128(raw: u128) -> (r: Self) {
        raw as u8
    }

    fn from_i128(raw: i128) -> (r: Self) {
        raw as u8
    }

    fn to_u128_bits(self) -> (r: u128) {
        self as u128
    }
}

impl FieldValue for u16 {
    open spec fn spec_bits() -> nat {
        16
    }

    open spec fn spec_signed() -> bool {
        false
    }

    open spec fn spec_min() -> int {
        0
    }

    open spec fn spec_max() -> int {
        0xffff
    }

    open spec fn int_value(self) -> int {
        self as int
    }

    open spec fn from_int(v: int) -> Self {
        v as u16
    }

    proof fn lemma_range() {
        lemma2_to64();
        lemma_wide_powers();
    }

    proof fn lemma_from_int(v: int) {
    }

    proof fn lemma_int_value(x: Self) {
    }

    fn bits() -> (r: u32) {
        16
    }

    fn signed() -> (r: bool) {
        false
    }

    fn from_u128(raw: u128) -> (r: Self) {
        raw as u16
    }

    fn from_i128(raw: i128) -> (r: Self) {
        raw as u16
    }

    fn to_u128_bits(self) -> (r: u128) {
        self as u128
    }
}

impl FieldValue for u32 {
    open spec fn spec_bits() -> nat {
        32
    }

    open spec fn spec_signed() -> bool {
        false
    }

    open spec fn spec_min() -> int {
        0
    }

    open spec fn spec_max() -> int {
        0xffffffff
    }

    open spec fn int_value(self) -> int {
        self as int
    }

    open spec fn from_int(v: int) -> Self {
        v as u32
    }

    proof fn lemma_range() {
        lemma2_to64();
        lemma_wide_powers();
    }

    proof fn lemma_from_int(v: int) {
    }

    proof fn lemma_int_value(x: Self) {
    }

    fn bits() -> (r: u32) {
        32
    }

    fn signed() -> (r: bool) {
        false
    }

    fn from_u128(raw: u128) -> (r: Self) {
        raw as u32
    }

    fn from_i128(raw: i128) -> (r: Self) {
        raw as u32
    }

    fn to_u128_bits(self) -> (r: u128) {
        self as u128
    }
}

impl FieldValue for u64 {
    open spec fn spec_bits() -> nat {
        64
    }

    open spec fn spec_signed() -> bool {
        false
    }

    open spec fn spec_min() -> int {
        0
    }

    open spec fn spec_max() -> int {
        0xffffffffffffffff
    }

    open spec fn int_value(self) -> int {
        self as int
    }

    open spec fn from_int(v: int) -> Self {
        v as u64
    }

    proof fn lemma_range() {
        lemma2_to64();
        lemma_wide_powers();
    }

    proof fn lemma_from_int(v: int) {
    }

    proof fn lemma_int_value(x: Self) {
    }

    fn bits() -> (r: u32) {
        64
    }

    fn signed() -> (r: bool) {
        false
    }

    fn from_u128(raw: u128) -> (r: Self) {
        raw as u64
    }

    fn from_i128(raw: i128) -> (r: Self) {
        raw as u64
    }

    fn to_u128_bits(self) -> (r: u128) {
        self as u128
    }
}

impl FieldValue for u128 {
    open spec fn spec_bits() -> nat {
        128
    }

    open spec fn spec_signed() -> bool {
        false
    }

    open spec fn spec_min() -> int {
        0
    }

    open spec fn spec_max() -> int {
        0xffffffffffffffffffffffffffffffff
    }

    open spec fn int_value(self) -> int {
        self as int
    }

    open spec fn from_int(v: int) -> Self {
        v as u128
    }

    proof fn lemma_range() {
        lemma2_to64();
        lemma_wide_powers();
    }

    proof fn lemma_from_int(v: int) {
    }

    proof fn lemma_int_value(x: Self) {
    }

    fn bits() -> (r: u32) {
        128
    }

    fn signed() -> (r: bool) {
        false
    }

    fn from_u128(raw: u128) -> (r: Self) {
        raw as u128
    }

    fn from_i128(raw: i128) -> (r: Self) {
        raw as u128
    }

    fn to_u128_bits(self) -> (r: u128) {
        self as u128
    }
}

impl FieldValue for usize {
    open spec fn spec_bits() -> nat {
        usize::BITS as nat
    }

    open spec fn spec_signed() -> bool {
        false
    }

    open spec fn spec_min() -> int {
        0
    }

    open spec fn spec_max() -> int {
        usize::MAX as int
    }

    open spec fn int_value(self) -> int {
        self as int
    }

    open spec fn from_int(v: int) -> Self {
        v as usize
    }

    proof fn lemma_range() {
        lemma2_to64();
        lemma_wide_powers();
    }

    proof fn lemma_from_int(v: int) {
    }

    proof fn lemma_int_value(x: Self) {
    }

    fn bits() -> (r: u32) {
        usize::BITS
    }

    fn signed() -> (r: bool) {
        false
    }

    fn from_u128(raw: u128) -> (r: Self) {
        raw as usize
    }

    fn from_i128(raw: i128) -> (r: Self) {
        raw as usize
    }

    fn to_u128_bits(self) -> (r: u128) {
        self as u128
    }
}

impl FieldValue for i8 {
    open spec fn spec_bits() -> nat {
        8
    }

    open spec fn spec_signed() -> bool {
        true
    }

    open spec fn spec_min() -> int {
        -0x80
    }

    open spec fn spec_max() -> int {
        0x7f
    }

    open spec fn int_value(self) -> int {
        self as int
    }

    open spec fn from_int(v: int) -> Self {
        v as i8
    }

    proof fn lemma_range() {
        lemma2_to64();
        lemma_wide_powers();
    }

    proof fn lemma_from_int(v: int) {
    }

    proof fn lemma_int_value(x: Self) {
    }

    fn bits() -> (r: u32) {
        8
    }

    fn signed() -> (r: bool) {
        true
    }

    fn from_u128(raw: u128) -> (r: Self) {
        raw as i8
    }

    fn from_i128(raw: i128) -> (r: Self) {
        raw as i8
    }

    fn to_u128_bits(self) -> (r: u128) {
        if self >= 0 {
            self as u128
        } else {
            let magnitude_less_one: i8 = -(self + 1);
            u128::MAX - magnitude_less_one as u128
        }
    }
}

impl FieldValue for i16 {
    open spec fn spec_bits() -> nat {
        16
    }

    open spec fn spec_signed() -> bool {
        true
    }

    open spec fn spec_min() -> int {
        -0x8000
    }

    open spec fn spec_max() -> int {
        0x7fff
    }

    open spec fn int_value(self) -> int {
        self as int
    }

    open spec fn from_int(v: int) -> Self {
        v as i16
    }

    proof fn lemma_range() {
        lemma2_to64();
        lemma_wide_powers();
    }

    proof fn lemma_from_int(v: int) {
    }

    proof fn lemma_int_value(x: Self) {
    }

    fn bits() -> (r: u32) {
        16
    }

    fn signed() -> (r: bool) {
        true
    }

    fn from_u128(raw: u128) -> (r: Self) {
        raw as i16
    }

    fn from_i128(raw: i128) -> (r: Self) {
        raw as i16
    }

    fn to_u128_bits(self) -> (r: u128) {
        if self >= 0 {
            self as u128
        } else {
            let magnitude_less_one: i16 = -(self + 1);
            u128::MAX - magnitude_less_one as u128
        }
    }
}

impl FieldValue for i32 {
    open spec fn spec_bits() -> nat {
        32
    }

    open spec fn spec_signed() -> bool {
        true
    }

    open spec fn spec_min() -> int {
        -0x80000000
    }

    open spec fn spec_max() -> int {
        0x7fffffff
    }

    open spec fn int_value(self) -> int {
        self as int
    }

    open spec fn from_int(v: int) -> Self {
        v as i32
    }

    proof fn lemma_range() {
        lemma2_to64();
        lemma_wide_powers();
    }

    proof fn lemma_from_int(v: int) {
    }

    proof fn lemma_int_value(x: Self) {
    }

    fn bits() -> (r: u32) {
        32
    }

    fn signed() -> (r: bool) {
        true
    }

    fn from_u128(raw: u128) -> (r: Self) {
        raw as i32
    }

    fn from_i128(raw: i128) -> (r: Self) {
        raw as i32
    }

    fn to_u128_bits(self) -> (r: u128) {
        if self >= 0 {
            self as u128
        } else {
            let magnitude_less_one: i32 = -(self + 1);
            u128::MAX - magnitude_less_one as u128
        }
    }
}

impl FieldValue for i64 {
    open spec fn spec_bits() -> nat {
        64
    }

    open spec fn spec_signed() -> bool {
        true
    }

    open spec fn spec_min() -> int {
        -0x8000000000000000
    }

    open spec fn spec_max() -> int {
        0x7fffffffffffffff
    }

    open spec fn int_value(self) -> int {
        self as int
    }

    open spec fn from_int(v: int) -> Self {
        v as i64
    }

    proof fn lemma_range() {
        lemma2_to64();
        lemma_wide_powers();
    }

    proof fn lemma_from_int(v: int) {
    }

    proof fn lemma_int_value(x: Self) {
    }

    fn bits() -> (r: u32) {
        64
    }

    fn signed() -> (r: bool) {
        true
    }

    fn from_u128(raw: u128) -> (r: Self) {
        raw as i64
    }

    fn from_i128(raw: i128) -> (r: Self) {
        raw as i64
    }

    fn to_u128_bits(self) -> (r: u128) {
        if self >= 0 {
            self as u128
        } else {
            let magnitude_less_one: i64 = -(self + 1);
            u128::MAX - magnitude_less_one as u128
        }
    }
}

impl FieldValue for i128 {
    open spec fn spec_bits() -> nat {
        128
    }

    open spec fn spec_signed() -> bool {
        true
    }

    open spec fn spec_min() -> int {
        -0x80000000000000000000000000000000
    }

    open spec fn spec_max() -> int {
        0x7fffffffffffffffffffffffffffffff
    }

    open spec fn int_value(self) -> int {
        self as int
    }

    open spec fn from_int(v: int) -> Self {
        v as i128
    }

    proof fn lemma_range() {
        lemma2_to64();
        lemma_wide_powers();
    }

    proof fn lemma_from_int(v: int) {
    }

    proof fn lemma_int_value(x: Self) {
    }

    fn bits() -> (r: u32) {
        128
    }

    fn signed() -> (r: bool) {
        true
    }

    fn from_u128(raw: u128) -> (r: Self) {
        raw as i128
    }

    fn from_i128(raw: i128) -> (r: Self) {
        raw as i128
    }

    fn to_u128_bits(self) -> (r: u128) {
        if self >= 0 {
            self as u128
        } else {
            let magnitude_less_one: i128 = -(self + 1);
            u128::MAX - magnitude_less_one as u128
        }
    }
}

impl FieldValue for isize {
    open spec fn spec_bits() -> nat {
        usize::BITS as nat
    }

    open spec fn spec_signed() -> bool {
        true
    }

    open spec fn spec_min() -> int {
        isize::MIN as int
    }

    open spec fn spec_max() -> int {
        isize::MAX as int
    }

    open spec fn int_value(self) -> int {
        self as int
    }

    open spec fn from_int(v: int) -> Self {
        v as isize
    }

    proof fn lemma_range() {
        lemma2_to64();
        lemma_wide_powers();
    }

    proof fn lemma_from_int(v: int) {
    }

    proof fn lemma_int_value(x: Self) {
    }

    fn bits() -> (r: u32) {
        usize::BITS
    }

    fn signed() -> (r: bool) {
        true
    }

    fn from_u128(raw: u128) -> (r: Self) {
        raw as isize
    }

    fn from_i128(raw: i128) -> (r: Self) {
        raw as isize
    }

    fn to_u128_bits(self) -> (r: u128) {
        if self >= 0 {
            self as u128
        } else {
            let magnitude_less_one: isize = -(self + 1);
            u128::MAX - magnitude_less_one as u128
        }
    }
}

} // verus!
