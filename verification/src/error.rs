//! The error that a converting field read gives back, and its text.

use vstd::prelude::*;
use vstd::arithmetic::power2::{pow2, lemma2_to64, lemma2_to64_rest, lemma_pow2_adds, lemma_pow2_pos};
use vstd::arithmetic::div_mod::lemma_mod_mod;
use crate::value::{FieldValue, two_pow_128, lemma_wide_powers};

verus! {

/// A field held a raw value that the requested type does not accept.
pub struct ConversionError<T> {
    /// The raw value that was tried to have converted.
    pub raw: T,
}

/// The sixteen upper-case hexadecimal digits.
pub open spec fn hex_digits() -> Seq<char> {
    seq!['0', '1', '2', '3', '4', '5', '6', '7', '8', '9', 'A', 'B', 'C', 'D', 'E', 'F']
}

/// `n` in upper-case hexadecimal, without leading zeros ("0" for zero).
pub open spec fn hex_upper(n: nat) -> Seq<char>
    decreases n,
{
    if n < 16 {
        seq![hex_digits()[n as int]]
    } else {
        hex_upper(n / 16).push(hex_digits()[(n % 16) as int])
    }
}

/// The bit pattern of `x` in its own width: its value for an unsigned type,
/// its two's complement for a signed one.
pub open spec fn bit_pattern<T: FieldValue>(x: T) -> nat {
    (x.int_value() % (pow2(T::spec_bits()) as int)) as nat
}

/// The text the error shows: its raw value as `0x` and upper-case hex digits.
pub open spec fn debug_text_of<T: FieldValue>(e: ConversionError<T>) -> Seq<char> {
    "ConversionError { raw: "@ + seq!['0', 'x'] + hex_upper(bit_pattern(e.raw)) + " }"@
}

/// `String::push`: appends one character.
#[verifier::external_body]
fn push_char(s: &mut String, c: char)
    ensures
        final(s)@ == old(s)@.push(c),
{
    s.push(c)
}

/// The upper-case hexadecimal digit for `d`.
fn hex_digit(d: u8) -> (c: char)
    requires
        d < 16,
    ensures
        c == hex_digits()[d as int],
{
    match d {
        0 => '0',
        1 => '1',
        2 => '2',
        3 => '3',
        4 => '4',
        5 => '5',
        6 => '6',
        7 => '7',
        8 => '8',
        9 => '9',
        10 => 'A',
        11 => 'B',
        12 => 'C',
        13 => 'D',
        14 => 'E',
        _ => 'F',
    }
}

/// Appends `n` in upper-case hexadecimal to `s`.
fn push_hex(s: &mut String, n: u128)
    ensures
        final(s)@ == old(s)@ + hex_upper(n as nat),
    decreases n,
{
    if n >= 16 {
        push_hex(s, n / 16);
    }
    push_char(s, hex_digit((n % 16) as u8));
    proof {
        if n >= 16 {
            assert(hex_upper(n as nat) == hex_upper((n / 16) as nat).push(
                hex_digits()[(n % 16) as int],
            ));
        }
    }
}

/// The bit pattern of `x` in its own width.
fn pattern_of<T: FieldValue>(x: T) -> (r: u128)
    ensures
        r == bit_pattern(x),
{
    let b = x.to_u128_bits();
    let w = T::bits();
    proof {
        T::lemma_range();
        lemma2_to64();
        lemma2_to64_rest();
        let sw = T::spec_bits();
        lemma_pow2_pos(sw);
        lemma_wide_powers();
        lemma_pow2_pos((128 - sw) as nat);
        lemma_pow2_adds(sw, (128 - sw) as nat);
        lemma_mod_mod(x.int_value(), pow2(sw) as int, pow2((128 - sw) as nat) as int);
        assert(b as int == x.int_value() % two_pow_128());
    }
    if w == 128 {
        b
    } else if w == 64 {
        b % 0x1_0000_0000_0000_0000
    } else if w == 32 {
        b % 0x1_0000_0000
    } else if w == 16 {
        b % 0x1_0000
    } else {
        b % 0x100
    }
}

impl<T: FieldValue> ConversionError<T> {
    /// The raw value as `0x` followed by its upper-case hexadecimal digits;
    /// a signed value shows its two's complement in its own width.
    pub fn raw_hex(&self) -> (s: String)
        ensures
            s@ == seq!['0', 'x'] + hex_upper(bit_pattern(self.raw)),
    {
        let mut s = String::new();
        push_char(&mut s, '0');
        push_char(&mut s, 'x');
        push_hex(&mut s, pattern_of(self.raw));
        s
    }

    /// The error's text as debug output shows it:
    /// `ConversionError { raw: 0x.. }`.
    pub fn debug_text(&self) -> (s: String)
        ensures
            s@ == debug_text_of(*self),
    {
        let mut s = String::from_str("ConversionError { raw: ");
        let hex = self.raw_hex();
        s.append(hex.as_str());
        s.append(" }");
        s
    }
}

} // verus!
