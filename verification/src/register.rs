//! Register values and the bit fields inside them: `R` is what was read from
//! a register, `W` what will be written to one.

use vstd::prelude::*;
use vstd::arithmetic::power2::{pow2, lemma_pow2_adds, lemma_pow2_pos};
use vstd::arithmetic::div_mod::lemma_mod_mod;
use vstd::std_specs::convert::{TryFromSpec, IntoSpec};
use crate::bitfield::{
    BitOrder, Endianness, field_value, sign_extend, range_ok, stored, lemma_field_value_bound,
    load_signed, load_unsigned, store_bits,
};
use crate::value::{FieldValue, lemma_wide_powers};
use crate::error::ConversionError;

verus! {

/// Who may use a register or a field.
#[derive(Clone, Copy, Debug, PartialEq, Eq, Structural)]
pub enum Access {
    /// It can only be read.
    ReadOnly,
    /// It can only be written.
    WriteOnly,
    /// It can be read and written.
    ReadWrite,
}

impl Access {
    /// Whether reading is allowed.
    pub open spec fn spec_can_read(self) -> bool {
        !(self is WriteOnly)
    }

    /// Whether writing is allowed.
    pub open spec fn spec_can_write(self) -> bool {
        !(self is ReadOnly)
    }

    /// Whether reading is allowed.
    pub fn can_read(&self) -> (r: bool)
        ensures
            r == self.spec_can_read(),
    {
        match self {
            Access::WriteOnly => false,
            _ => true,
        }
    }

    /// Whether writing is allowed.
    pub fn can_write(&self) -> (r: bool)
        ensures
            r == self.spec_can_write(),
    {
        match self {
            Access::ReadOnly => false,
            _ => true,
        }
    }
}

/// A bit field of a register: the bit range `start .. end` under the
/// register's bit order, read and written with the given segment order.
#[derive(Clone, Copy, Debug, PartialEq, Eq, Structural)]
pub struct Field {
    /// The bit order of the register the field belongs to.
    pub order: BitOrder,
    /// How the bytes the field spans are combined.
    pub endian: Endianness,
    /// Whether the field may be read, written, or both.
    pub access: Access,
    /// The first bit index of the field.
    pub start: usize,
    /// The bit index just past the field.
    pub end: usize,
}

/// The value `v` cut down to `w` bits and read back as the type `T` reads a
/// field: zero-extended for an unsigned type, sign-extended for a signed one.
pub open spec fn narrowed<T: FieldValue>(v: int, w: nat) -> int {
    let low = (v % (pow2(w) as int)) as nat;
    if T::spec_signed() {
        sign_extend(low, w)
    } else {
        low as int
    }
}

/// `v` can be held by a field of `w` bits read as the type `T`.
pub open spec fn fits_width<T: FieldValue>(v: int, w: nat) -> bool {
    if T::spec_signed() {
        -(pow2((w - 1) as nat) as int) <= v < pow2((w - 1) as nat)
    } else {
        0 <= v < pow2(w)
    }
}

impl Field {
    /// A field with the given layout and access.
    pub fn new(
        order: BitOrder,
        endian: Endianness,
        access: Access,
        start: usize,
        end: usize,
    ) -> (f: Field)
        ensures
            f == (Field { order, endian, access, start, end }),
    {
        Field { order, endian, access, start, end }
    }

    /// A field with the default layout: bits numbered least significant
    /// first, bytes combined big-endian.
    pub fn with_default_layout(access: Access, start: usize, end: usize) -> (f: Field)
        ensures
            f == (Field { order: BitOrder::Lsb0, endian: Endianness::Big, access, start, end }),
    {
        Field { order: BitOrder::default(), endian: Endianness::default(), access, start, end }
    }

    /// A field given by its first and last bit index, both included.
    pub fn new_inclusive(
        order: BitOrder,
        endian: Endianness,
        access: Access,
        first: usize,
        last: usize,
    ) -> (f: Field)
        requires
            last < usize::MAX,
        ensures
            f == (Field { order, endian, access, start: first, end: (last + 1) as usize }),
    {
        Field { order, endian, access, start: first, end: last + 1 }
    }

    /// The number of bits in the field.
    pub open spec fn width(self) -> nat {
        (self.end - self.start) as nat
    }

    /// The field lies inside a register of `n` bytes and can be transferred.
    pub open spec fn in_bounds(self, n: nat) -> bool {
        range_ok(n, self.start as int, self.end as int)
    }

    /// The unsigned number the field holds in `bytes`.
    pub open spec fn raw_in(self, bytes: Seq<u8>) -> nat {
        field_value(bytes, self.order, self.endian, self.start as int, self.end as int)
    }

    /// The number the field holds in `bytes` when read as the type `T`.
    pub open spec fn int_in<T: FieldValue>(self, bytes: Seq<u8>) -> int {
        if T::spec_signed() {
            sign_extend(self.raw_in(bytes), self.width())
        } else {
            self.raw_in(bytes) as int
        }
    }

    /// The value of type `T` that reading the field from `bytes` gives.
    pub open spec fn value_in<T: FieldValue>(self, bytes: Seq<u8>) -> T {
        T::from_int(self.int_in::<T>(bytes))
    }

    /// `new` is `old` with the number `v` written into the field.
    pub open spec fn written(self, old: Seq<u8>, new: Seq<u8>, v: int) -> bool {
        stored(old, new, self.order, self.endian, self.start as int, self.end as int, v)
    }

    /// The two fields share no bit.
    pub open spec fn disjoint(self, other: Field) -> bool {
        self.end <= other.start || other.end <= self.start
    }
}

/// A sign-extended pattern of `w` bits lies in the signed range of `w` bits.
pub proof fn lemma_sign_extend_bound(u: nat, w: nat)
    requires
        1 <= w,
        u < pow2(w),
    ensures
        -(pow2((w - 1) as nat) as int) <= sign_extend(u, w) < pow2((w - 1) as nat),
{
    vstd::arithmetic::power2::lemma_pow2_unfold(w);
}

/// `2^a <= 2^b` when `a <= b`.
pub proof fn lemma_pow2_mono(a: nat, b: nat)
    requires
        a <= b,
    ensures
        pow2(a) <= pow2(b),
{
    if a < b {
        vstd::arithmetic::power2::lemma_pow2_strictly_increases(a, b);
    }
}

/// A value read from a field of `w` bits fits the type it is read as.
pub proof fn lemma_read_in_range<T: FieldValue>(field: Field, bytes: Seq<u8>)
    requires
        1 <= field.width() <= T::spec_bits(),
        field.start < field.end,
    ensures
        T::spec_min() <= field.int_in::<T>(bytes) <= T::spec_max(),
        !T::spec_signed() ==> field.raw_in(bytes) <= T::spec_max(),
{
    T::lemma_range();
    let w = field.width();
    lemma_field_value_bound(bytes, field.order, field.endian, field.start as int, field.end as int);
    lemma_pow2_mono(w, T::spec_bits());
    lemma_pow2_mono((w - 1) as nat, (T::spec_bits() - 1) as nat);
    if T::spec_signed() {
        lemma_sign_extend_bound(field.raw_in(bytes), w);
    }
}

/// The bytes of a register as read from the device.
#[derive(Clone, Copy)]
pub struct R<const N: usize>(pub [u8; N]);

impl<const N: usize> View for R<N> {
    type V = Seq<u8>;

    open spec fn view(&self) -> Seq<u8> {
        self.0@
    }
}

impl<const N: usize> R<N> {
    /// A reader whose bytes are all zero.
    pub fn zero() -> (r: Self)
        ensures
            r@ == Seq::new(N as nat, |i: int| 0u8),
    {
        R([0u8; N])
    }

    /// A reader holding the given bytes.
    pub fn from_raw(value: [u8; N]) -> (r: Self)
        ensures
            r@ == value@,
    {
        R(value)
    }

    /// The bytes of the reader.
    pub fn get_raw(&self) -> (r: [u8; N])
        ensures
            r@ == self@,
    {
        self.0
    }

    /// Reads a field as the integer type `T`: zero-extended for an unsigned
    /// type, sign-extended from the field's top bit for a signed one.
    pub fn read<T: FieldValue>(&self, field: Field) -> (r: T)
        requires
            field.access.spec_can_read(),
            field.in_bounds(N as nat),
            field.width() <= T::spec_bits(),
        ensures
            r.int_value() == field.int_in::<T>(self@),
            r == field.value_in::<T>(self@),
    {
        proof {
            lemma_read_in_range::<T>(field, self@);
        }
        if T::signed() {
            let raw = load_signed(&self.0, field.order, field.endian, field.start, field.end);
            let r = T::from_i128(raw);
            proof {
                T::lemma_int_value(r);
            }
            r
        } else {
            let raw = load_unsigned(&self.0, field.order, field.endian, field.start, field.end);
            let r = T::from_u128(raw);
            proof {
                T::lemma_int_value(r);
            }
            r
        }
    }

    /// Reads a field as `T` and converts it to `C`; a raw value that `C`
    /// refuses comes back inside the error.
    pub fn read_as<T: FieldValue, C: TryFrom<T>>(&self, field: Field) -> (r: Result<
        C,
        ConversionError<T>,
    >)
        requires
            field.access.spec_can_read(),
            field.in_bounds(N as nat),
            field.width() <= T::spec_bits(),
        ensures
            r matches Err(e) ==> e.raw == field.value_in::<T>(self@),
            <C as TryFromSpec<T>>::obeys_try_from_spec() ==> match r {
                Ok(c) => C::try_from_spec(field.value_in::<T>(self@)) == Ok::<
                    C,
                    <C as TryFrom<T>>::Error,
                >(c),
                Err(_) => C::try_from_spec(field.value_in::<T>(self@)) is Err,
            },
    {
        let raw: T = self.read(field);
        match C::try_from(raw) {
            Ok(c) => Ok(c),
            Err(_) => Err(ConversionError { raw }),
        }
    }
}

/// The bytes of a register that will be written to the device.
#[derive(Debug, Clone, Copy)]
pub struct W<const N: usize>([u8; N]);

impl<const N: usize> View for W<N> {
    type V = Seq<u8>;

    closed spec fn view(&self) -> Seq<u8> {
        self.0@
    }
}

impl<const N: usize> W<N> {
    /// A writer whose bytes are all zero.
    pub fn zero() -> (w: Self)
        ensures
            w@ == Seq::new(N as nat, |i: int| 0u8),
    {
        W([0u8; N])
    }

    /// A writer holding the given bytes.
    pub fn from_raw(value: [u8; N]) -> (w: Self)
        ensures
            w@ == value@,
    {
        W(value)
    }

    /// Replaces all bytes of the writer.
    pub fn set_raw(self, value: [u8; N]) -> (w: Self)
        ensures
            w@ == value@,
    {
        W(value)
    }

    /// A writer that starts from the bytes a reader holds.
    pub fn from_reader(r: &R<N>) -> (w: Self)
        ensures
            w@ == r@,
    {
        W(r.0)
    }

    /// The bytes of the writer.
    pub(crate) fn bytes(&self) -> (b: [u8; N])
        ensures
            b@ == self@,
    {
        self.0
    }

    /// Writes `value`, cut down to the field's width, into the field; every
    /// bit outside the field keeps its value.
    pub fn write<T: FieldValue>(&mut self, field: Field, value: T) -> (ret: &mut Self)
        requires
            field.access.spec_can_write(),
            field.in_bounds(N as nat),
            field.width() <= T::spec_bits(),
        ensures
            field.written(old(self)@, ret@, value.int_value()),
            final(self)@ == final(ret)@,
    {
        let bits = value.to_u128_bits();
        store_bits(&mut self.0, field.order, field.endian, field.start, field.end, bits);
        proof {
            let w = field.width();
            T::lemma_range();
            lemma_pow2_pos(w);
            lemma_pow2_pos((128 - w) as nat);
            lemma_pow2_adds(w, (128 - w) as nat);
            lemma_wide_powers();
            lemma_mod_mod(value.int_value(), pow2(w) as int, pow2((128 - w) as nat) as int);
        }
        self
    }

    /// Converts `value` into the field's type `T` and writes it into the
    /// field, as `write` does.
    pub fn write_from<T: FieldValue, C: Into<T>>(&mut self, field: Field, value: C) -> (ret:
        &mut Self)
        requires
            field.access.spec_can_write(),
            field.in_bounds(N as nat),
            field.width() <= T::spec_bits(),
        ensures
            <C as IntoSpec<T>>::obeys_into_spec() ==> field.written(
                old(self)@,
                ret@,
                C::into_spec(value).int_value(),
            ),
            exists|t: T| field.written(old(self)@, ret@, #[trigger] t.int_value()),
            final(self)@ == final(ret)@,
    {
        let raw: T = value.into();
        self.write(field, raw)
    }
}

} // verus!
