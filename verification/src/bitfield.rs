//! The bit-level model of a register: which bit of which byte a bit index
//! names, which integer a range of bits holds, and the bit-field transfers
//! that `bitvec` performs on byte buffers.

use vstd::prelude::*;
use vstd::arithmetic::power2::{pow2, lemma2_to64, lemma_pow2_unfold, lemma_pow2_adds, lemma_pow2_pos};
use vstd::endian::{Endian, endianness};
use bitvec::field::BitField;
use bitvec::view::BitView;

verus! {

/// The order in which the bits of one byte are numbered.
#[derive(Clone, Copy, Debug, PartialEq, Eq, Structural)]
pub enum BitOrder {
    /// Bit index 0 of a byte is its least significant bit.
    Lsb0,
    /// Bit index 0 of a byte is its most significant bit.
    Msb0,
}

/// The order in which the bytes a field spans gain numerical significance.
#[derive(Clone, Copy, Debug, PartialEq, Eq, Structural)]
pub enum Endianness {
    /// The segment in the lowest byte is the most significant one.
    Big,
    /// The segment in the lowest byte is the least significant one.
    Little,
    /// Whichever of the two the executing machine uses.
    Native,
}

impl Default for BitOrder {
    /// A register's bits are numbered least significant first unless it says
    /// otherwise.
    fn default() -> (r: Self)
        ensures
            r == BitOrder::Lsb0,
    {
        BitOrder::Lsb0
    }
}

impl Default for Endianness {
    /// A field that spans several bytes is big-endian unless it says
    /// otherwise.
    fn default() -> (r: Self)
        ensures
            r == Endianness::Big,
    {
        Endianness::Big
    }
}

/// The position, counted from the least significant end, that bit index `i`
/// takes inside its byte.
pub open spec fn bit_position(order: BitOrder, i: int) -> nat {
    match order {
        BitOrder::Lsb0 => (i % 8) as nat,
        BitOrder::Msb0 => (7 - i % 8) as nat,
    }
}

/// The value (0 or 1) of bit index `i` of `bytes`, under `order`.
pub open spec fn bit_at(bytes: Seq<u8>, order: BitOrder, i: int) -> nat {
    ((bytes[i / 8] as nat) / pow2(bit_position(order, i))) % 2
}

/// The bits at indices `s .. s + c` read as an integer whose least
/// significant bit is the one at `s`.
pub open spec fn bits_ascending(bytes: Seq<u8>, order: BitOrder, s: int, c: nat) -> nat
    decreases c,
{
    if c == 0 {
        0
    } else {
        bit_at(bytes, order, s) + 2 * bits_ascending(bytes, order, s + 1, (c - 1) as nat)
    }
}

/// The bits at indices `s .. s + c` read as an integer whose most
/// significant bit is the one at `s`.
pub open spec fn bits_descending(bytes: Seq<u8>, order: BitOrder, s: int, c: nat) -> nat
    decreases c,
{
    if c == 0 {
        0
    } else {
        bit_at(bytes, order, s) * pow2((c - 1) as nat) + bits_descending(
            bytes,
            order,
            s + 1,
            (c - 1) as nat,
        )
    }
}

/// The segment of `c` live bits starting at index `s`, all in one byte, as
/// the integer those bits form inside that byte.
pub open spec fn segment_value(bytes: Seq<u8>, order: BitOrder, s: int, c: nat) -> nat {
    match order {
        BitOrder::Lsb0 => bits_ascending(bytes, order, s, c),
        BitOrder::Msb0 => bits_descending(bytes, order, s, c),
    }
}

/// How many bits of the range `s .. e` lie in the byte that holds index `s`.
pub open spec fn segment_len(s: int, e: int) -> nat {
    let boundary = (s / 8 + 1) * 8;
    if e < boundary {
        (e - s) as nat
    } else {
        (boundary - s) as nat
    }
}

/// The range `s .. e` read with little-endian significance: the segment in
/// the lowest byte is the least significant one.
pub open spec fn field_le(bytes: Seq<u8>, order: BitOrder, s: int, e: int) -> nat
    decreases e - s,
{
    if s >= e {
        0
    } else {
        let c = segment_len(s, e);
        segment_value(bytes, order, s, c) + pow2(c) * field_le(bytes, order, s + c, e)
    }
}

/// The range `s .. e` read with big-endian significance: the segment in the
/// lowest byte is the most significant one.
pub open spec fn field_be(bytes: Seq<u8>, order: BitOrder, s: int, e: int) -> nat
    decreases e - s,
{
    if s >= e {
        0
    } else {
        let c = segment_len(s, e);
        segment_value(bytes, order, s, c) * pow2((e - s - c) as nat) + field_be(
            bytes,
            order,
            s + c,
            e,
        )
    }
}

/// The unsigned integer that the bit range `s .. e` of `bytes` holds.
pub open spec fn field_value(bytes: Seq<u8>, order: BitOrder, endian: Endianness, s: int, e: int) -> nat {
    match endian {
        Endianness::Little => field_le(bytes, order, s, e),
        Endianness::Big => field_be(bytes, order, s, e),
        Endianness::Native => match endianness() {
            Endian::Little => field_le(bytes, order, s, e),
            Endian::Big => field_be(bytes, order, s, e),
        },
    }
}

/// `u`, a pattern of `w` bits, read as a two's complement number.
pub open spec fn sign_extend(u: nat, w: nat) -> int {
    if w > 0 && u >= pow2((w - 1) as nat) {
        u - pow2(w)
    } else {
        u as int
    }
}

/// A range that a transfer can use: non-empty, inside `len` bytes, and at
/// most 128 bits wide, in a buffer short enough for `bitvec` to view as a
/// bit-slice (whose length in bits it keeps in the high bits of a `usize`).
pub open spec fn range_ok(len: nat, s: int, e: int) -> bool {
    &&& 0 <= s < e <= len * 8
    &&& e - s <= 128
    &&& len * 8 <= (usize::MAX as nat) / 8
}

/// `new` is `old` after the low `e - s` bits of `v` were stored into the
/// bit range `s .. e`: the range now holds `v` truncated to its width, and
/// every other bit is as it was.
pub open spec fn stored(
    old: Seq<u8>,
    new: Seq<u8>,
    order: BitOrder,
    endian: Endianness,
    s: int,
    e: int,
    v: int,
) -> bool {
    &&& new.len() == old.len()
    &&& field_value(new, order, endian, s, e) == v % (pow2((e - s) as nat) as int)
    &&& forall|i: int|
        0 <= i < old.len() * 8 && !(s <= i < e) ==> #[trigger] bit_at(new, order, i) == bit_at(
            old,
            order,
            i,
        )
}


/// A bit is 0 or 1.
pub proof fn lemma_bit_at_bound(bytes: Seq<u8>, order: BitOrder, i: int)
    ensures
        bit_at(bytes, order, i) <= 1,
{
}

/// `c` bits read least significant first form a number below `2^c`.
pub proof fn lemma_bits_ascending_bound(bytes: Seq<u8>, order: BitOrder, s: int, c: nat)
    ensures
        bits_ascending(bytes, order, s, c) < pow2(c),
    decreases c,
{
    if c == 0 {
        lemma2_to64();
    } else {
        lemma_bits_ascending_bound(bytes, order, s + 1, (c - 1) as nat);
        lemma_pow2_unfold(c);
    }
}

/// `c` bits read most significant first form a number below `2^c`.
pub proof fn lemma_bits_descending_bound(bytes: Seq<u8>, order: BitOrder, s: int, c: nat)
    ensures
        bits_descending(bytes, order, s, c) < pow2(c),
    decreases c,
{
    if c == 0 {
        lemma2_to64();
    } else {
        let b = bit_at(bytes, order, s);
        let p = pow2((c - 1) as nat);
        lemma_bits_descending_bound(bytes, order, s + 1, (c - 1) as nat);
        lemma_pow2_unfold(c);
        assert(b * p <= p) by (nonlinear_arith)
            requires
                b <= 1,
                p > 0,
        ;
    }
}

/// A segment of `c` bits holds a number below `2^c`.
pub proof fn lemma_segment_bound(bytes: Seq<u8>, order: BitOrder, s: int, c: nat)
    ensures
        segment_value(bytes, order, s, c) < pow2(c),
{
    lemma_bits_ascending_bound(bytes, order, s, c);
    lemma_bits_descending_bound(bytes, order, s, c);
}

/// The first segment of a non-empty range is non-empty and inside it.
pub proof fn lemma_segment_len(s: int, e: int)
    requires
        s < e,
    ensures
        1 <= segment_len(s, e) <= e - s,
{
}

/// A range of `w` bits read little-endian holds a number below `2^w`.
pub proof fn lemma_field_le_bound(bytes: Seq<u8>, order: BitOrder, s: int, e: int)
    requires
        s <= e,
    ensures
        field_le(bytes, order, s, e) < pow2((e - s) as nat),
    decreases e - s,
{
    if s == e {
        lemma2_to64();
    } else {
        let c = segment_len(s, e);
        lemma_segment_len(s, e);
        let w = (e - s) as nat;
        let rest = field_le(bytes, order, s + c, e);
        let seg = segment_value(bytes, order, s, c);
        lemma_field_le_bound(bytes, order, s + c, e);
        lemma_segment_bound(bytes, order, s, c);
        let pc = pow2(c);
        let pr = pow2((w - c) as nat);
        lemma_pow2_adds(c, (w - c) as nat);
        assert(seg + pc * rest < pc * pr) by (nonlinear_arith)
            requires
                seg < pc,
                rest < pr,
                0 <= rest,
                0 <= seg,
        ;
    }
}

/// A range of `w` bits read big-endian holds a number below `2^w`.
pub proof fn lemma_field_be_bound(bytes: Seq<u8>, order: BitOrder, s: int, e: int)
    requires
        s <= e,
    ensures
        field_be(bytes, order, s, e) < pow2((e - s) as nat),
    decreases e - s,
{
    if s == e {
        lemma2_to64();
    } else {
        let c = segment_len(s, e);
        lemma_segment_len(s, e);
        let w = (e - s) as nat;
        let rest = field_be(bytes, order, s + c, e);
        let seg = segment_value(bytes, order, s, c);
        lemma_field_be_bound(bytes, order, s + c, e);
        lemma_segment_bound(bytes, order, s, c);
        let pc = pow2(c);
        let pr = pow2((w - c) as nat);
        lemma_pow2_adds(c, (w - c) as nat);
        assert(seg * pr + rest < pc * pr) by (nonlinear_arith)
            requires
                seg < pc,
                rest < pr,
                0 <= rest,
                0 <= seg,
        ;
    }
}

/// A range of `w` bits holds a number below `2^w`, whatever the orders.
pub proof fn lemma_field_value_bound(
    bytes: Seq<u8>,
    order: BitOrder,
    endian: Endianness,
    s: int,
    e: int,
)
    requires
        s <= e,
    ensures
        field_value(bytes, order, endian, s, e) < pow2((e - s) as nat),
{
    lemma_field_le_bound(bytes, order, s, e);
    lemma_field_be_bound(bytes, order, s, e);
}


/// Bits read ascending depend only on the bits of their range.
pub proof fn lemma_bits_ascending_local(
    a: Seq<u8>,
    b: Seq<u8>,
    order: BitOrder,
    s: int,
    c: nat,
)
    requires
        forall|i: int| s <= i < s + c ==> bit_at(a, order, i) == bit_at(b, order, i),
    ensures
        bits_ascending(a, order, s, c) == bits_ascending(b, order, s, c),
    decreases c,
{
    if c > 0 {
        lemma_bits_ascending_local(a, b, order, s + 1, (c - 1) as nat);
    }
}

/// Bits read descending depend only on the bits of their range.
pub proof fn lemma_bits_descending_local(
    a: Seq<u8>,
    b: Seq<u8>,
    order: BitOrder,
    s: int,
    c: nat,
)
    requires
        forall|i: int| s <= i < s + c ==> bit_at(a, order, i) == bit_at(b, order, i),
    ensures
        bits_descending(a, order, s, c) == bits_descending(b, order, s, c),
    decreases c,
{
    if c > 0 {
        lemma_bits_descending_local(a, b, order, s + 1, (c - 1) as nat);
    }
}

/// The value of a range depends only on the bits inside it.
pub proof fn lemma_field_local(
    a: Seq<u8>,
    b: Seq<u8>,
    order: BitOrder,
    endian: Endianness,
    s: int,
    e: int,
)
    requires
        forall|i: int| s <= i < e ==> bit_at(a, order, i) == bit_at(b, order, i),
    ensures
        field_value(a, order, endian, s, e) == field_value(b, order, endian, s, e),
    decreases e - s,
{
    if s < e {
        let c = segment_len(s, e);
        lemma_segment_len(s, e);
        lemma_bits_ascending_local(a, b, order, s, c);
        lemma_bits_descending_local(a, b, order, s, c);
        lemma_field_local(a, b, order, Endianness::Little, s + c, e);
        lemma_field_local(a, b, order, Endianness::Big, s + c, e);
    }
}

/// A range whose bits are all 0 holds the value 0.
pub proof fn lemma_field_zero(bytes: Seq<u8>, order: BitOrder, endian: Endianness, s: int, e: int)
    requires
        forall|i: int| s <= i < e ==> bit_at(bytes, order, i) == 0,
    ensures
        field_value(bytes, order, endian, s, e) == 0,
    decreases e - s,
{
    if s < e {
        let c = segment_len(s, e);
        lemma_segment_len(s, e);
        lemma_bits_zero(bytes, order, s, c);
        lemma_field_zero(bytes, order, Endianness::Little, s + c, e);
        lemma_field_zero(bytes, order, Endianness::Big, s + c, e);
        assert(segment_value(bytes, order, s, c) == 0);
        assert(field_le(bytes, order, s + c, e) == 0);
        assert(pow2(c) * field_le(bytes, order, s + c, e) == 0);
        assert(field_le(bytes, order, s, e) == 0);
        assert(field_be(bytes, order, s, e) == 0);
    }
}

/// A run of 0 bits reads as 0 in either direction.
pub proof fn lemma_bits_zero(bytes: Seq<u8>, order: BitOrder, s: int, c: nat)
    requires
        forall|i: int| s <= i < s + c ==> bit_at(bytes, order, i) == 0,
    ensures
        bits_ascending(bytes, order, s, c) == 0,
        bits_descending(bytes, order, s, c) == 0,
    decreases c,
{
    if c > 0 {
        lemma_bits_zero(bytes, order, s + 1, (c - 1) as nat);
        assert(bit_at(bytes, order, s) == 0);
    }
}

/// Every bit of a zero byte is 0.
pub proof fn lemma_bit_of_zero_byte(bytes: Seq<u8>, order: BitOrder, i: int)
    requires
        bytes[i / 8] == 0,
    ensures
        bit_at(bytes, order, i) == 0,
{
    lemma_pow2_pos(bit_position(order, i));
}


/// Bits read ascending determine each bit of their run.
pub proof fn lemma_bits_ascending_inj(a: Seq<u8>, b: Seq<u8>, order: BitOrder, s: int, c: nat)
    requires
        bits_ascending(a, order, s, c) == bits_ascending(b, order, s, c),
    ensures
        forall|i: int| s <= i < s + c ==> bit_at(a, order, i) == bit_at(b, order, i),
    decreases c,
{
    if c > 0 {
        lemma_bit_at_bound(a, order, s);
        lemma_bit_at_bound(b, order, s);
        lemma_bits_ascending_inj(a, b, order, s + 1, (c - 1) as nat);
    }
}

/// Bits read descending determine each bit of their run.
pub proof fn lemma_bits_descending_inj(a: Seq<u8>, b: Seq<u8>, order: BitOrder, s: int, c: nat)
    requires
        bits_descending(a, order, s, c) == bits_descending(b, order, s, c),
    ensures
        forall|i: int| s <= i < s + c ==> bit_at(a, order, i) == bit_at(b, order, i),
    decreases c,
{
    if c > 0 {
        let c1 = (c - 1) as nat;
        lemma_bit_at_bound(a, order, s);
        lemma_bit_at_bound(b, order, s);
        lemma_bits_descending_bound(a, order, s + 1, c1);
        lemma_bits_descending_bound(b, order, s + 1, c1);
        let ba = bit_at(a, order, s);
        let bb = bit_at(b, order, s);
        let p = pow2(c1);
        assert(ba * p == bb * p) by (nonlinear_arith)
            requires
                ba * p + bits_descending(a, order, s + 1, c1) == bb * p + bits_descending(
                    b,
                    order,
                    s + 1,
                    c1,
                ),
                bits_descending(a, order, s + 1, c1) < p,
                bits_descending(b, order, s + 1, c1) < p,
                ba <= 1,
                bb <= 1,
        ;
        lemma_pow2_pos(c1);
        assert(ba == bb) by (nonlinear_arith)
            requires
                ba * p == bb * p,
                p > 0,
        ;
        lemma_bits_descending_inj(a, b, order, s + 1, c1);
    }
}

/// The value of a range determines each bit inside it.
pub proof fn lemma_field_inj(
    a: Seq<u8>,
    b: Seq<u8>,
    order: BitOrder,
    endian: Endianness,
    s: int,
    e: int,
)
    requires
        field_value(a, order, endian, s, e) == field_value(b, order, endian, s, e),
    ensures
        forall|i: int| s <= i < e ==> bit_at(a, order, i) == bit_at(b, order, i),
    decreases e - s,
{
    let little = match endian {
        Endianness::Little => true,
        Endianness::Big => false,
        Endianness::Native => endianness() is Little,
    };
    if s < e {
        let c = segment_len(s, e);
        lemma_segment_len(s, e);
        let sa = segment_value(a, order, s, c);
        let sb = segment_value(b, order, s, c);
        lemma_segment_bound(a, order, s, c);
        lemma_segment_bound(b, order, s, c);
        let pc = pow2(c);
        let pr = pow2((e - s - c) as nat);
        lemma_pow2_pos(c);
        if little {
            let ra = field_le(a, order, s + c, e);
            let rb = field_le(b, order, s + c, e);
            assert(field_le(a, order, s, e) == field_le(b, order, s, e));
            assert(sa == sb && ra == rb) by (nonlinear_arith)
                requires
                    sa + pc * ra == sb + pc * rb,
                    sa < pc,
                    sb < pc,
                    0 <= sa,
                    0 <= sb,
                    0 <= ra,
                    0 <= rb,
            ;
            lemma_field_inj(a, b, order, Endianness::Little, s + c, e);
        } else {
            let ra = field_be(a, order, s + c, e);
            let rb = field_be(b, order, s + c, e);
            lemma_field_be_bound(a, order, s + c, e);
            lemma_field_be_bound(b, order, s + c, e);
            assert(field_be(a, order, s, e) == field_be(b, order, s, e));
            assert(sa == sb && ra == rb) by (nonlinear_arith)
                requires
                    sa * pr + ra == sb * pr + rb,
                    ra < pr,
                    rb < pr,
                    0 <= sa,
                    0 <= sb,
                    0 <= ra,
                    0 <= rb,
            ;
            lemma_field_inj(a, b, order, Endianness::Big, s + c, e);
        }
        match order {
            BitOrder::Lsb0 => lemma_bits_ascending_inj(a, b, order, s, c),
            BitOrder::Msb0 => lemma_bits_descending_inj(a, b, order, s, c),
        }
    }
}

/// A byte is determined by its eight bits.
pub proof fn lemma_byte_from_bits(x: u8, y: u8)
    requires
        forall|p: nat| p < 8 ==> ((x as nat) / pow2(p)) % 2 == ((y as nat) / pow2(p)) % 2,
    ensures
        x == y,
{
    lemma2_to64();
    assert(((x as nat) / pow2(0)) % 2 == ((y as nat) / pow2(0)) % 2);
    assert(((x as nat) / pow2(1)) % 2 == ((y as nat) / pow2(1)) % 2);
    assert(((x as nat) / pow2(2)) % 2 == ((y as nat) / pow2(2)) % 2);
    assert(((x as nat) / pow2(3)) % 2 == ((y as nat) / pow2(3)) % 2);
    assert(((x as nat) / pow2(4)) % 2 == ((y as nat) / pow2(4)) % 2);
    assert(((x as nat) / pow2(5)) % 2 == ((y as nat) / pow2(5)) % 2);
    assert(((x as nat) / pow2(6)) % 2 == ((y as nat) / pow2(6)) % 2);
    assert(((x as nat) / pow2(7)) % 2 == ((y as nat) / pow2(7)) % 2);
    assert(x == y) by (bit_vector)
        requires
            (x / 1) % 2 == (y / 1) % 2,
            (x / 2) % 2 == (y / 2) % 2,
            (x / 4) % 2 == (y / 4) % 2,
            (x / 8) % 2 == (y / 8) % 2,
            (x / 16) % 2 == (y / 16) % 2,
            (x / 32) % 2 == (y / 32) % 2,
            (x / 64) % 2 == (y / 64) % 2,
            (x / 128) % 2 == (y / 128) % 2,
    ;
}

/// Two byte sequences of one length whose bits all agree are equal.
pub proof fn lemma_bytes_from_bits(a: Seq<u8>, b: Seq<u8>, order: BitOrder)
    requires
        a.len() == b.len(),
        forall|i: int| 0 <= i < a.len() * 8 ==> bit_at(a, order, i) == bit_at(b, order, i),
    ensures
        a == b,
{
    assert forall|k: int| 0 <= k < a.len() implies a[k] == b[k] by {
        assert forall|p: nat| p < 8 implies ((a[k] as nat) / pow2(p)) % 2 == ((b[k] as nat)
            / pow2(p)) % 2 by {
            let q: int = match order {
                BitOrder::Lsb0 => p as int,
                BitOrder::Msb0 => 7 - p,
            };
            let i = 8 * k + q;
            assert(i / 8 == k);
            assert(bit_position(order, i) == p);
            assert(bit_at(a, order, i) == bit_at(b, order, i));
        }
        lemma_byte_from_bits(a[k], b[k]);
    }
    assert(a =~= b);
}

// Transfers through `bitvec`. Each one views the byte buffer as a bit-slice
// with the given bit order, narrows it to `start .. end` and calls one method
// of `bitvec::field::BitField` on it. Their contracts claim what `bitvec`
// documents for `BitField` on `u8` storage: a load combines the segments that
// the range has in each byte, each segment read as the integer its live bits
// form inside that byte, with the lowest byte least significant (`_le`,
// `field_le`) or most significant (`_be`, `field_be`), zero-extended into an
// unsigned type and sign-extended from the range's top bit into a signed one;
// `load` and `store` without suffix take the order of the executing machine;
// a store writes the low bits of the value so that a load of the same range
// reads them back, and changes no bit outside the range. `BitField` panics on
// a range that is empty or wider than the integer type, slicing panics on a
// range outside the buffer, and viewing panics on a buffer too long for a
// bit-slice (about `usize::MAX / 64` bytes): `requires` leaves those out.

/// `<BitSlice<u8, Lsb0> as BitField>::load_le::<u128>`: the range with
/// little-endian segment order, zero-extended.
#[verifier::external_body]
fn lsb0_load_le_u128<const N: usize>(bytes: &[u8; N], start: usize, end: usize) -> (r: u128)
    requires
        range_ok(N as nat, start as int, end as int),
    ensures
        r == field_le(bytes@, BitOrder::Lsb0, start as int, end as int),
{
    bytes.view_bits::<bitvec::order::Lsb0>()[start..end].load_le::<u128>()
}

/// `<BitSlice<u8, Lsb0> as BitField>::load_be::<u128>`: the range with
/// big-endian segment order, zero-extended.
#[verifier::external_body]
fn lsb0_load_be_u128<const N: usize>(bytes: &[u8; N], start: usize, end: usize) -> (r: u128)
    requires
        range_ok(N as nat, start as int, end as int),
    ensures
        r == field_be(bytes@, BitOrder::Lsb0, start as int, end as int),
{
    bytes.view_bits::<bitvec::order::Lsb0>()[start..end].load_be::<u128>()
}

/// `<BitSlice<u8, Lsb0> as BitField>::load::<u128>`, which is `load_le` on a
/// little-endian machine and `load_be` on a big-endian one.
#[verifier::external_body]
fn lsb0_load_ne_u128<const N: usize>(bytes: &[u8; N], start: usize, end: usize) -> (r: u128)
    requires
        range_ok(N as nat, start as int, end as int),
    ensures
        r == field_value(bytes@, BitOrder::Lsb0, Endianness::Native, start as int, end as int),
{
    bytes.view_bits::<bitvec::order::Lsb0>()[start..end].load::<u128>()
}

/// `<BitSlice<u8, Msb0> as BitField>::load_le::<u128>`.
#[verifier::external_body]
fn msb0_load_le_u128<const N: usize>(bytes: &[u8; N], start: usize, end: usize) -> (r: u128)
    requires
        range_ok(N as nat, start as int, end as int),
    ensures
        r == field_le(bytes@, BitOrder::Msb0, start as int, end as int),
{
    bytes.view_bits::<bitvec::order::Msb0>()[start..end].load_le::<u128>()
}

/// `<BitSlice<u8, Msb0> as BitField>::load_be::<u128>`.
#[verifier::external_body]
fn msb0_load_be_u128<const N: usize>(bytes: &[u8; N], start: usize, end: usize) -> (r: u128)
    requires
        range_ok(N as nat, start as int, end as int),
    ensures
        r == field_be(bytes@, BitOrder::Msb0, start as int, end as int),
{
    bytes.view_bits::<bitvec::order::Msb0>()[start..end].load_be::<u128>()
}

/// `<BitSlice<u8, Msb0> as BitField>::load::<u128>`.
#[verifier::external_body]
fn msb0_load_ne_u128<const N: usize>(bytes: &[u8; N], start: usize, end: usize) -> (r: u128)
    requires
        range_ok(N as nat, start as int, end as int),
    ensures
        r == field_value(bytes@, BitOrder::Msb0, Endianness::Native, start as int, end as int),
{
    bytes.view_bits::<bitvec::order::Msb0>()[start..end].load::<u128>()
}

/// `<BitSlice<u8, Lsb0> as BitField>::load_le::<i128>`: as for `u128`, then
/// sign-extended from the range's most significant bit.
#[verifier::external_body]
fn lsb0_load_le_i128<const N: usize>(bytes: &[u8; N], start: usize, end: usize) -> (r: i128)
    requires
        range_ok(N as nat, start as int, end as int),
    ensures
        r == sign_extend(
            field_le(bytes@, BitOrder::Lsb0, start as int, end as int),
            (end - start) as nat,
        ),
{
    bytes.view_bits::<bitvec::order::Lsb0>()[start..end].load_le::<i128>()
}

/// `<BitSlice<u8, Lsb0> as BitField>::load_be::<i128>`.
#[verifier::external_body]
fn lsb0_load_be_i128<const N: usize>(bytes: &[u8; N], start: usize, end: usize) -> (r: i128)
    requires
        range_ok(N as nat, start as int, end as int),
    ensures
        r == sign_extend(
            field_be(bytes@, BitOrder::Lsb0, start as int, end as int),
            (end - start) as nat,
        ),
{
    bytes.view_bits::<bitvec::order::Lsb0>()[start..end].load_be::<i128>()
}

/// `<BitSlice<u8, Lsb0> as BitField>::load::<i128>`.
#[verifier::external_body]
fn lsb0_load_ne_i128<const N: usize>(bytes: &[u8; N], start: usize, end: usize) -> (r: i128)
    requires
        range_ok(N as nat, start as int, end as int),
    ensures
        r == sign_extend(
            field_value(bytes@, BitOrder::Lsb0, Endianness::Native, start as int, end as int),
            (end - start) as nat,
        ),
{
    bytes.view_bits::<bitvec::order::Lsb0>()[start..end].load::<i128>()
}

/// `<BitSlice<u8, Msb0> as BitField>::load_le::<i128>`.
#[verifier::external_body]
fn msb0_load_le_i128<const N: usize>(bytes: &[u8; N], start: usize, end: usize) -> (r: i128)
    requires
        range_ok(N as nat, start as int, end as int),
    ensures
        r == sign_extend(
            field_le(bytes@, BitOrder::Msb0, start as int, end as int),
            (end - start) as nat,
        ),
{
    bytes.view_bits::<bitvec::order::Msb0>()[start..end].load_le::<i128>()
}

/// `<BitSlice<u8, Msb0> as BitField>::load_be::<i128>`.
#[verifier::external_body]
fn msb0_load_be_i128<const N: usize>(bytes: &[u8; N], start: usize, end: usize) -> (r: i128)
    requires
        range_ok(N as nat, start as int, end as int),
    ensures
        r == sign_extend(
            field_be(bytes@, BitOrder::Msb0, start as int, end as int),
            (end - start) as nat,
        ),
{
    bytes.view_bits::<bitvec::order::Msb0>()[start..end].load_be::<i128>()
}

/// `<BitSlice<u8, Msb0> as BitField>::load::<i128>`.
#[verifier::external_body]
fn msb0_load_ne_i128<const N: usize>(bytes: &[u8; N], start: usize, end: usize) -> (r: i128)
    requires
        range_ok(N as nat, start as int, end as int),
    ensures
        r == sign_extend(
            field_value(bytes@, BitOrder::Msb0, Endianness::Native, start as int, end as int),
            (end - start) as nat,
        ),
{
    bytes.view_bits::<bitvec::order::Msb0>()[start..end].load::<i128>()
}

/// `<BitSlice<u8, Lsb0> as BitField>::store_le::<u128>`: writes the low bits
/// of `value` into the range with little-endian segment order; no bit outside
/// the range changes.
#[verifier::external_body]
fn lsb0_store_le_u128<const N: usize>(bytes: &mut [u8; N], start: usize, end: usize, value: u128)
    requires
        range_ok(N as nat, start as int, end as int),
    ensures
        stored(
            old(bytes)@,
            final(bytes)@,
            BitOrder::Lsb0,
            Endianness::Little,
            start as int,
            end as int,
            value as int,
        ),
{
    bytes.view_bits_mut::<bitvec::order::Lsb0>()[start..end].store_le::<u128>(value)
}

/// `<BitSlice<u8, Lsb0> as BitField>::store_be::<u128>`.
#[verifier::external_body]
fn lsb0_store_be_u128<const N: usize>(bytes: &mut [u8; N], start: usize, end: usize, value: u128)
    requires
        range_ok(N as nat, start as int, end as int),
    ensures
        stored(
            old(bytes)@,
            final(bytes)@,
            BitOrder::Lsb0,
            Endianness::Big,
            start as int,
            end as int,
            value as int,
        ),
{
    bytes.view_bits_mut::<bitvec::order::Lsb0>()[start..end].store_be::<u128>(value)
}

/// `<BitSlice<u8, Lsb0> as BitField>::store::<u128>`, which is `store_le` on
/// a little-endian machine and `store_be` on a big-endian one.
#[verifier::external_body]
fn lsb0_store_ne_u128<const N: usize>(bytes: &mut [u8; N], start: usize, end: usize, value: u128)
    requires
        range_ok(N as nat, start as int, end as int),
    ensures
        stored(
            old(bytes)@,
            final(bytes)@,
            BitOrder::Lsb0,
            Endianness::Native,
            start as int,
            end as int,
            value as int,
        ),
{
    bytes.view_bits_mut::<bitvec::order::Lsb0>()[start..end].store::<u128>(value)
}

/// `<BitSlice<u8, Msb0> as BitField>::store_le::<u128>`.
#[verifier::external_body]
fn msb0_store_le_u128<const N: usize>(bytes: &mut [u8; N], start: usize, end: usize, value: u128)
    requires
        range_ok(N as nat, start as int, end as int),
    ensures
        stored(
            old(bytes)@,
            final(bytes)@,
            BitOrder::Msb0,
            Endianness::Little,
            start as int,
            end as int,
            value as int,
        ),
{
    bytes.view_bits_mut::<bitvec::order::Msb0>()[start..end].store_le::<u128>(value)
}

/// `<BitSlice<u8, Msb0> as BitField>::store_be::<u128>`.
#[verifier::external_body]
fn msb0_store_be_u128<const N: usize>(bytes: &mut [u8; N], start: usize, end: usize, value: u128)
    requires
        range_ok(N as nat, start as int, end as int),
    ensures
        stored(
            old(bytes)@,
            final(bytes)@,
            BitOrder::Msb0,
            Endianness::Big,
            start as int,
            end as int,
            value as int,
        ),
{
    bytes.view_bits_mut::<bitvec::order::Msb0>()[start..end].store_be::<u128>(value)
}

/// `<BitSlice<u8, Msb0> as BitField>::store::<u128>`.
#[verifier::external_body]
fn msb0_store_ne_u128<const N: usize>(bytes: &mut [u8; N], start: usize, end: usize, value: u128)
    requires
        range_ok(N as nat, start as int, end as int),
    ensures
        stored(
            old(bytes)@,
            final(bytes)@,
            BitOrder::Msb0,
            Endianness::Native,
            start as int,
            end as int,
            value as int,
        ),
{
    bytes.view_bits_mut::<bitvec::order::Msb0>()[start..end].store::<u128>(value)
}

/// Reads the bit range `start .. end` of `bytes` as an unsigned integer,
/// with the given bit order and segment order.
pub fn load_unsigned<const N: usize>(
    bytes: &[u8; N],
    order: BitOrder,
    endian: Endianness,
    start: usize,
    end: usize,
) -> (r: u128)
    requires
        range_ok(N as nat, start as int, end as int),
    ensures
        r == field_value(bytes@, order, endian, start as int, end as int),
{
    match order {
        BitOrder::Lsb0 => match endian {
            Endianness::Little => lsb0_load_le_u128(bytes, start, end),
            Endianness::Big => lsb0_load_be_u128(bytes, start, end),
            Endianness::Native => lsb0_load_ne_u128(bytes, start, end),
        },
        BitOrder::Msb0 => match endian {
            Endianness::Little => msb0_load_le_u128(bytes, start, end),
            Endianness::Big => msb0_load_be_u128(bytes, start, end),
            Endianness::Native => msb0_load_ne_u128(bytes, start, end),
        },
    }
}

/// Reads the bit range `start .. end` of `bytes` as a two's complement
/// integer of that width, sign-extended.
pub fn load_signed<const N: usize>(
    bytes: &[u8; N],
    order: BitOrder,
    endian: Endianness,
    start: usize,
    end: usize,
) -> (r: i128)
    requires
        range_ok(N as nat, start as int, end as int),
    ensures
        r == sign_extend(
            field_value(bytes@, order, endian, start as int, end as int),
            (end - start) as nat,
        ),
{
    match order {
        BitOrder::Lsb0 => match endian {
            Endianness::Little => lsb0_load_le_i128(bytes, start, end),
            Endianness::Big => lsb0_load_be_i128(bytes, start, end),
            Endianness::Native => lsb0_load_ne_i128(bytes, start, end),
        },
        BitOrder::Msb0 => match endian {
            Endianness::Little => msb0_load_le_i128(bytes, start, end),
            Endianness::Big => msb0_load_be_i128(bytes, start, end),
            Endianness::Native => msb0_load_ne_i128(bytes, start, end),
        },
    }
}

/// Writes the low `end - start` bits of `value` into the bit range
/// `start .. end` of `bytes`, leaving every other bit as it was.
pub fn store_bits<const N: usize>(
    bytes: &mut [u8; N],
    order: BitOrder,
    endian: Endianness,
    start: usize,
    end: usize,
    value: u128,
)
    requires
        range_ok(N as nat, start as int, end as int),
    ensures
        stored(old(bytes)@, final(bytes)@, order, endian, start as int, end as int, value as int),
{
    match order {
        BitOrder::Lsb0 => match endian {
            Endianness::Little => lsb0_store_le_u128(bytes, start, end, value),
            Endianness::Big => lsb0_store_be_u128(bytes, start, end, value),
            Endianness::Native => lsb0_store_ne_u128(bytes, start, end, value),
        },
        BitOrder::Msb0 => match endian {
            Endianness::Little => msb0_store_le_u128(bytes, start, end, value),
            Endianness::Big => msb0_store_be_u128(bytes, start, end, value),
            Endianness::Native => msb0_store_ne_u128(bytes, start, end, value),
        },
    }
}

} // verus!
