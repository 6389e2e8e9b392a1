//! What holds across reads and writes of register fields.

use vstd::prelude::*;
use vstd::arithmetic::power2::{pow2, lemma_pow2_pos, lemma_pow2_unfold};
use vstd::arithmetic::div_mod::{lemma_small_mod, lemma_mod_add_multiples_vanish};
use crate::bitfield::{
    bit_at, lemma_field_local, lemma_field_zero, lemma_bit_of_zero_byte, lemma_field_inj,
    lemma_bytes_from_bits,
};
use crate::value::FieldValue;
use crate::register::{Field, narrowed, fits_width, lemma_read_in_range};
use crate::bitfield::sign_extend;
use crate::error::bit_pattern;

verus! {

/// Reading a field after a value was written into it gives that value cut
/// down to the field's width: zero-extended for an unsigned type,
/// sign-extended for a signed one.
pub proof fn lemma_read_after_write<T: FieldValue>(old: Seq<u8>, new: Seq<u8>, field: Field, v: T)
    requires
        field.written(old, new, v.int_value()),
    ensures
        field.int_in::<T>(new) == narrowed::<T>(v.int_value(), field.width()),
{
    lemma_pow2_pos(field.width());
}

/// Reading a field after writing a value that fits its width gives back
/// exactly that value.
pub proof fn lemma_read_after_write_fitting<T: FieldValue>(
    old: Seq<u8>,
    new: Seq<u8>,
    field: Field,
    v: T,
)
    requires
        field.written(old, new, v.int_value()),
        1 <= field.width(),
        fits_width::<T>(v.int_value(), field.width()),
    ensures
        field.int_in::<T>(new) == v.int_value(),
        field.value_in::<T>(new) == v,
{
    let w = field.width();
    let x = v.int_value();
    lemma_pow2_pos(w);
    lemma_pow2_unfold(w);
    lemma_read_after_write::<T>(old, new, field, v);
    if T::spec_signed() {
        if x >= 0 {
            lemma_small_mod(x as nat, pow2(w));
        } else {
            let m = pow2(w) as int;
            lemma_mod_add_multiples_vanish(x, m);
            lemma_small_mod((x + m) as nat, m as nat);
            assert(x % m == x + m);
        }
    } else {
        lemma_small_mod(x as nat, pow2(w));
    }
    T::lemma_int_value(v);
}

/// Writing a field leaves every field that shares no bit with it, in the
/// same bit order, holding what it held.
pub proof fn lemma_write_keeps_other_field(
    old: Seq<u8>,
    new: Seq<u8>,
    written: Field,
    other: Field,
    v: int,
)
    requires
        written.written(old, new, v),
        other.order == written.order,
        written.disjoint(other),
        other.in_bounds(old.len()),
    ensures
        other.raw_in(new) == other.raw_in(old),
        forall|t: int| #![trigger bit_at(new, other.order, t)]
            other.start <= t < other.end ==> bit_at(new, other.order, t) == bit_at(
                old,
                other.order,
                t,
            ),
{
    assert forall|t: int| other.start <= t < other.end implies bit_at(new, other.order, t)
        == bit_at(old, other.order, t) by {
        assert(0 <= t < old.len() * 8);
    }
    lemma_field_local(
        new,
        old,
        other.order,
        other.endian,
        other.start as int,
        other.end as int,
    );
}

/// Every field of an all-zero register holds 0.
pub proof fn lemma_zero_register_field(n: nat, field: Field)
    requires
        field.in_bounds(n),
    ensures
        field.raw_in(Seq::new(n, |i: int| 0u8)) == 0,
{
    let bytes = Seq::new(n, |i: int| 0u8);
    assert forall|t: int| field.start <= t < field.end implies bit_at(bytes, field.order, t) == 0 by {
        lemma_bit_of_zero_byte(bytes, field.order, t);
    }
    lemma_field_zero(bytes, field.order, field.endian, field.start as int, field.end as int);
}

/// Writing a value into a field has one outcome: two results of writing the
/// same value into the same field of the same bytes are equal.
pub proof fn lemma_write_deterministic(old: Seq<u8>, a: Seq<u8>, b: Seq<u8>, field: Field, v: int)
    requires
        field.written(old, a, v),
        field.written(old, b, v),
    ensures
        a == b,
{
    lemma_field_inj(a, b, field.order, field.endian, field.start as int, field.end as int);
    lemma_bytes_from_bits(a, b, field.order);
}

/// A second write into a field replaces the first: writing `v` and then `u`
/// gives what writing `u` alone gives.
pub proof fn lemma_write_overwrites(
    b0: Seq<u8>,
    b1: Seq<u8>,
    b2: Seq<u8>,
    field: Field,
    v: int,
    u: int,
)
    requires
        field.written(b0, b1, v),
        field.written(b1, b2, u),
    ensures
        field.written(b0, b2, u),
{
}

/// Writes into two fields that share no bit commute: either order of the
/// two writes gives the same bytes.
pub proof fn lemma_writes_commute(
    b0: Seq<u8>,
    b1: Seq<u8>,
    b2: Seq<u8>,
    c1: Seq<u8>,
    c2: Seq<u8>,
    f: Field,
    g: Field,
    v: int,
    u: int,
)
    requires
        f.order == g.order,
        f.disjoint(g),
        f.in_bounds(b0.len()),
        g.in_bounds(b0.len()),
        f.written(b0, b1, v),
        g.written(b1, b2, u),
        g.written(b0, c1, u),
        f.written(c1, c2, v),
    ensures
        b2 == c2,
{
    let order = f.order;
    lemma_write_keeps_other_field(b1, b2, g, f, u);
    lemma_write_keeps_other_field(c1, c2, f, g, v);
    lemma_field_inj(b2, c2, order, f.endian, f.start as int, f.end as int);
    lemma_field_inj(b2, c2, order, g.endian, g.start as int, g.end as int);
    assert forall|i: int| 0 <= i < b2.len() * 8 implies bit_at(b2, order, i) == bit_at(
        c2,
        order,
        i,
    ) by {
        if f.start <= i < f.end {
        } else if g.start <= i < g.end {
        } else {
            assert(bit_at(b2, order, i) == bit_at(b1, order, i));
            assert(bit_at(b1, order, i) == bit_at(b0, order, i));
            assert(bit_at(c2, order, i) == bit_at(c1, order, i));
            assert(bit_at(c1, order, i) == bit_at(b0, order, i));
        }
    }
    lemma_bytes_from_bits(b2, c2, order);
}

/// Reading a field as `u8` gives the machine integer that the field's bits
/// form.
pub proof fn lemma_read_u8(bytes: Seq<u8>, field: Field)
    requires
        field.start < field.end,
        field.width() <= 8,
    ensures
        field.value_in::<u8>(bytes) as int == field.raw_in(bytes),
{
    lemma_read_in_range::<u8>(field, bytes);
    <u8 as FieldValue>::lemma_from_int(field.int_in::<u8>(bytes));
}

/// Writing a `u8` into a field stores the machine value of the `u8`, cut
/// down to the field's width.
pub proof fn lemma_write_u8(old: Seq<u8>, new: Seq<u8>, field: Field, v: u8)
    requires
        field.written(old, new, v.int_value()),
    ensures
        field.written(old, new, v as int),
{
}

/// Reading a field as `u16` gives the machine integer that the field's bits
/// form.
pub proof fn lemma_read_u16(bytes: Seq<u8>, field: Field)
    requires
        field.start < field.end,
        field.width() <= 16,
    ensures
        field.value_in::<u16>(bytes) as int == field.raw_in(bytes),
{
    lemma_read_in_range::<u16>(field, bytes);
    <u16 as FieldValue>::lemma_from_int(field.int_in::<u16>(bytes));
}

/// Writing a `u16` into a field stores the machine value of the `u16`, cut
/// down to the field's width.
pub proof fn lemma_write_u16(old: Seq<u8>, new: Seq<u8>, field: Field, v: u16)
    requires
        field.written(old, new, v.int_value()),
    ensures
        field.written(old, new, v as int),
{
}

/// Reading a field as `u32` gives the machine integer that the field's bits
/// form.
pub proof fn lemma_read_u32(bytes: Seq<u8>, field: Field)
    requires
        field.start < field.end,
        field.width() <= 32,
    ensures
        field.value_in::<u32>(bytes) as int == field.raw_in(bytes),
{
    lemma_read_in_range::<u32>(field, bytes);
    <u32 as FieldValue>::lemma_from_int(field.int_in::<u32>(bytes));
}

/// Writing a `u32` into a field stores the machine value of the `u32`, cut
/// down to the field's width.
pub proof fn lemma_write_u32(old: Seq<u8>, new: Seq<u8>, field: Field, v: u32)
    requires
        field.written(old, new, v.int_value()),
    ensures
        field.written(old, new, v as int),
{
}

/// Reading a field as `u64` gives the machine integer that the field's bits
/// form.
pub proof fn lemma_read_u64(bytes: Seq<u8>, field: Field)
    requires
        field.start < field.end,
        field.width() <= 64,
    ensures
        field.value_in::<u64>(bytes) as int == field.raw_in(bytes),
{
    lemma_read_in_range::<u64>(field, bytes);
    <u64 as FieldValue>::lemma_from_int(field.int_in::<u64>(bytes));
}

/// Writing a `u64` into a field stores the machine value of the `u64`, cut
/// down to the field's width.
pub proof fn lemma_write_u64(old: Seq<u8>, new: Seq<u8>, field: Field, v: u64)
    requires
        field.written(old, new, v.int_value()),
    ensures
        field.written(old, new, v as int),
{
}

/// Reading a field as `u128` gives the machine integer that the field's bits
/// form.
pub proof fn lemma_read_u128(bytes: Seq<u8>, field: Field)
    requires
        field.start < field.end,
        field.width() <= 128,
    ensures
        field.value_in::<u128>(bytes) as int == field.raw_in(bytes),
{
    lemma_read_in_range::<u128>(field, bytes);
    <u128 as FieldValue>::lemma_from_int(field.int_in::<u128>(bytes));
}

/// Writing a `u128` into a field stores the machine value of the `u128`, cut
/// down to the field's width.
pub proof fn lemma_write_u128(old: Seq<u8>, new: Seq<u8>, field: Field, v: u128)
    requires
        field.written(old, new, v.int_value()),
    ensures
        field.written(old, new, v as int),
{
}

/// Reading a field as `usize` gives the machine integer that the field's bits
/// form.
pub proof fn lemma_read_usize(bytes: Seq<u8>, field: Field)
    requires
        field.start < field.end,
        field.width() <= usize::BITS,
    ensures
        field.value_in::<usize>(bytes) as int == field.raw_in(bytes),
{
    lemma_read_in_range::<usize>(field, bytes);
    <usize as FieldValue>::lemma_from_int(field.int_in::<usize>(bytes));
}

/// Writing a `usize` into a field stores the machine value of the `usize`, cut
/// down to the field's width.
pub proof fn lemma_write_usize(old: Seq<u8>, new: Seq<u8>, field: Field, v: usize)
    requires
        field.written(old, new, v.int_value()),
    ensures
        field.written(old, new, v as int),
{
}

/// Reading a field as `i8` gives the machine integer that the field's bits
/// form as a two's complement number of the field's width.
pub proof fn lemma_read_i8(bytes: Seq<u8>, field: Field)
    requires
        field.start < field.end,
        field.width() <= 8,
    ensures
        field.value_in::<i8>(bytes) as int == sign_extend(field.raw_in(bytes), field.width()),
{
    lemma_read_in_range::<i8>(field, bytes);
    <i8 as FieldValue>::lemma_from_int(field.int_in::<i8>(bytes));
}

/// Writing a `i8` into a field stores the machine value of the `i8`, cut
/// down to the field's width.
pub proof fn lemma_write_i8(old: Seq<u8>, new: Seq<u8>, field: Field, v: i8)
    requires
        field.written(old, new, v.int_value()),
    ensures
        field.written(old, new, v as int),
{
}

/// Reading a field as `i16` gives the machine integer that the field's bits
/// form as a two's complement number of the field's width.
pub proof fn lemma_read_i16(bytes: Seq<u8>, field: Field)
    requires
        field.start < field.end,
        field.width() <= 16,
    ensures
        field.value_in::<i16>(bytes) as int == sign_extend(field.raw_in(bytes), field.width()),
{
    lemma_read_in_range::<i16>(field, bytes);
    <i16 as FieldValue>::lemma_from_int(field.int_in::<i16>(bytes));
}

/// Writing a `i16` into a field stores the machine value of the `i16`, cut
/// down to the field's width.
pub proof fn lemma_write_i16(old: Seq<u8>, new: Seq<u8>, field: Field, v: i16)
    requires
        field.written(old, new, v.int_value()),
    ensures
        field.written(old, new, v as int),
{
}

/// Reading a field as `i32` gives the machine integer that the field's bits
/// form as a two's complement number of the field's width.
pub proof fn lemma_read_i32(bytes: Seq<u8>, field: Field)
    requires
        field.start < field.end,
        field.width() <= 32,
    ensures
        field.value_in::<i32>(bytes) as int == sign_extend(field.raw_in(bytes), field.width()),
{
    lemma_read_in_range::<i32>(field, bytes);
    <i32 as FieldValue>::lemma_from_int(field.int_in::<i32>(bytes));
}

/// Writing a `i32` into a field stores the machine value of the `i32`, cut
/// down to the field's width.
pub proof fn lemma_write_i32(old: Seq<u8>, new: Seq<u8>, field: Field, v: i32)
    requires
        field.written(old, new, v.int_value()),
    ensures
        field.written(old, new, v as int),
{
}

/// Reading a field as `i64` gives the machine integer that the field's bits
/// form as a two's complement number of the field's width.
pub proof fn lemma_read_i64(bytes: Seq<u8>, field: Field)
    requires
        field.start < field.end,
        field.width() <= 64,
    ensures
        field.value_in::<i64>(bytes) as int == sign_extend(field.raw_in(bytes), field.width()),
{
    lemma_read_in_range::<i64>(field, bytes);
    <i64 as FieldValue>::lemma_from_int(field.int_in::<i64>(bytes));
}

/// Writing a `i64` into a field stores the machine value of the `i64`, cut
/// down to the field's width.
pub proof fn lemma_write_i64(old: Seq<u8>, new: Seq<u8>, field: Field, v: i64)
    requires
        field.written(old, new, v.int_value()),
    ensures
        field.written(old, new, v as int),
{
}

/// Reading a field as `i128` gives the machine integer that the field's bits
/// form as a two's complement number of the field's width.
pub proof fn lemma_read_i128(bytes: Seq<u8>, field: Field)
    requires
        field.start < field.end,
        field.width() <= 128,
    ensures
        field.value_in::<i128>(bytes) as int == sign_extend(field.raw_in(bytes), field.width()),
{
    lemma_read_in_range::<i128>(field, bytes);
    <i128 as FieldValue>::lemma_from_int(field.int_in::<i128>(bytes));
}

/// Writing a `i128` into a field stores the machine value of the `i128`, cut
/// down to the field's width.
pub proof fn lemma_write_i128(old: Seq<u8>, new: Seq<u8>, field: Field, v: i128)
    requires
        field.written(old, new, v.int_value()),
    ensures
        field.written(old, new, v as int),
{
}

/// Reading a field as `isize` gives the machine integer that the field's bits
/// form as a two's complement number of the field's width.
pub proof fn lemma_read_isize(bytes: Seq<u8>, field: Field)
    requires
        field.start < field.end,
        field.width() <= usize::BITS,
    ensures
        field.value_in::<isize>(bytes) as int == sign_extend(field.raw_in(bytes), field.width()),
{
    lemma_read_in_range::<isize>(field, bytes);
    <isize as FieldValue>::lemma_from_int(field.int_in::<isize>(bytes));
}

/// Writing a `isize` into a field stores the machine value of the `isize`, cut
/// down to the field's width.
pub proof fn lemma_write_isize(old: Seq<u8>, new: Seq<u8>, field: Field, v: isize)
    requires
        field.written(old, new, v.int_value()),
    ensures
        field.written(old, new, v as int),
{
}

/// The raw value of a conversion error over `u8` is shown as the machine
/// value's bit pattern in the type's width.
pub proof fn lemma_bit_pattern_u8(x: u8)
    ensures
        bit_pattern(x) as int == (x as int) % (pow2(8 as nat) as int),
{
    lemma_pow2_pos(8 as nat);
}

/// The raw value of a conversion error over `u16` is shown as the machine
/// value's bit pattern in the type's width.
pub proof fn lemma_bit_pattern_u16(x: u16)
    ensures
        bit_pattern(x) as int == (x as int) % (pow2(16 as nat) as int),
{
    lemma_pow2_pos(16 as nat);
}

/// The raw value of a conversion error over `u32` is shown as the machine
/// value's bit pattern in the type's width.
pub proof fn lemma_bit_pattern_u32(x: u32)
    ensures
        bit_pattern(x) as int == (x as int) % (pow2(32 as nat) as int),
{
    lemma_pow2_pos(32 as nat);
}

/// The raw value of a conversion error over `u64` is shown as the machine
/// value's bit pattern in the type's width.
pub proof fn lemma_bit_pattern_u64(x: u64)
    ensures
        bit_pattern(x) as int == (x as int) % (pow2(64 as nat) as int),
{
    lemma_pow2_pos(64 as nat);
}

/// The raw value of a conversion error over `u128` is shown as the machine
/// value's bit pattern in the type's width.
pub proof fn lemma_bit_pattern_u128(x: u128)
    ensures
        bit_pattern(x) as int == (x as int) % (pow2(128 as nat) as int),
{
    lemma_pow2_pos(128 as nat);
}

/// The raw value of a conversion error over `usize` is shown as the machine
/// value's bit pattern in the type's width.
pub proof fn lemma_bit_pattern_usize(x: usize)
    ensures
        bit_pattern(x) as int == (x as int) % (pow2(usize::BITS as nat) as int),
{
    lemma_pow2_pos(usize::BITS as nat);
}

/// The raw value of a conversion error over `i8` is shown as the machine
/// value's bit pattern in the type's width.
pub proof fn lemma_bit_pattern_i8(x: i8)
    ensures
        bit_pattern(x) as int == (x as int) % (pow2(8 as nat) as int),
{
    lemma_pow2_pos(8 as nat);
}

/// The raw value of a conversion error over `i16` is shown as the machine
/// value's bit pattern in the type's width.
pub proof fn lemma_bit_pattern_i16(x: i16)
    ensures
        bit_pattern(x) as int == (x as int) % (pow2(16 as nat) as int),
{
    lemma_pow2_pos(16 as nat);
}

/// The raw value of a conversion error over `i32` is shown as the machine
/// value's bit pattern in the type's width.
pub proof fn lemma_bit_pattern_i32(x: i32)
    ensures
        bit_pattern(x) as int == (x as int) % (pow2(32 as nat) as int),
{
    lemma_pow2_pos(32 as nat);
}

/// The raw value of a conversion error over `i64` is shown as the machine
/// value's bit pattern in the type's width.
pub proof fn lemma_bit_pattern_i64(x: i64)
    ensures
        bit_pattern(x) as int == (x as int) % (pow2(64 as nat) as int),
{
    lemma_pow2_pos(64 as nat);
}

/// The raw value of a conversion error over `i128` is shown as the machine
/// value's bit pattern in the type's width.
pub proof fn lemma_bit_pattern_i128(x: i128)
    ensures
        bit_pattern(x) as int == (x as int) % (pow2(128 as nat) as int),
{
    lemma_pow2_pos(128 as nat);
}

/// The raw value of a conversion error over `isize` is shown as the machine
/// value's bit pattern in the type's width.
pub proof fn lemma_bit_pattern_isize(x: isize)
    ensures
        bit_pattern(x) as int == (x as int) % (pow2(usize::BITS as nat) as int),
{
    lemma_pow2_pos(usize::BITS as nat);
}

} // verus!
