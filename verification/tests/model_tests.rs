//! Compares the bit-field transfers against the bit-level description in
//! the library's contracts, computed here directly, over every range of a
//! few buffers.

use device_driver::bitfield::{load_signed, load_unsigned, store_bits, BitOrder, Endianness};

fn bit_at(bytes: &[u8], order: BitOrder, i: usize) -> u128 {
    let pos = match order {
        BitOrder::Lsb0 => i % 8,
        BitOrder::Msb0 => 7 - i % 8,
    };
    ((bytes[i / 8] >> pos) & 1) as u128
}

fn segment(bytes: &[u8], order: BitOrder, s: usize, c: usize) -> u128 {
    let mut v = 0u128;
    for k in 0..c {
        let b = bit_at(bytes, order, s + k);
        v += match order {
            BitOrder::Lsb0 => b << k,
            BitOrder::Msb0 => b << (c - 1 - k),
        };
    }
    v
}

fn segment_len(s: usize, e: usize) -> usize {
    let boundary = (s / 8 + 1) * 8;
    if e < boundary { e - s } else { boundary - s }
}

fn field_le(bytes: &[u8], order: BitOrder, s: usize, e: usize) -> u128 {
    if s >= e {
        return 0;
    }
    let c = segment_len(s, e);
    segment(bytes, order, s, c) + (field_le(bytes, order, s + c, e) << c)
}

fn field_be(bytes: &[u8], order: BitOrder, s: usize, e: usize) -> u128 {
    if s >= e {
        return 0;
    }
    let c = segment_len(s, e);
    (segment(bytes, order, s, c) << (e - s - c)) + field_be(bytes, order, s + c, e)
}

fn model(bytes: &[u8], order: BitOrder, endian: Endianness, s: usize, e: usize) -> u128 {
    let little = u16::from_ne_bytes([1, 0]) == 1;
    match endian {
        Endianness::Little => field_le(bytes, order, s, e),
        Endianness::Big => field_be(bytes, order, s, e),
        Endianness::Native => {
            if little { field_le(bytes, order, s, e) } else { field_be(bytes, order, s, e) }
        }
    }
}

fn sign_extend(u: u128, w: usize) -> i128 {
    if u >> (w - 1) & 1 == 0 {
        u as i128
    } else if w == 128 {
        u as i128
    } else {
        (u as i128) - (1i128 << (w - 1)) - (1i128 << (w - 1))
    }
}

const ORDERS: [BitOrder; 2] = [BitOrder::Lsb0, BitOrder::Msb0];
const ENDIANS: [Endianness; 3] = [Endianness::Little, Endianness::Big, Endianness::Native];

#[test]
fn loads_match_the_bit_level_description() {
    let buffers: [[u8; 18]; 3] = [
        [
            0x01, 0x23, 0x45, 0x67, 0x89, 0xab, 0xcd, 0xef, 0x5a, 0xff, 0x00, 0x80, 0x7f, 0x0f,
            0xf0, 0x3c, 0xc3, 0x99,
        ],
        [
            0xff, 0x00, 0x80, 0x7f, 0x0f, 0xf0, 0x3c, 0xc3, 0x99, 0x96, 0x69, 0xa5, 0x5a, 0x12,
            0x48, 0x24, 0x81, 0xe7,
        ],
        [
            0x96, 0x69, 0xa5, 0x5a, 0x12, 0x48, 0x24, 0x81, 0xe7, 0x01, 0x23, 0x45, 0x67, 0x89,
            0xab, 0xcd, 0xef, 0x5a,
        ],
    ];
    for bytes in buffers.iter() {
        for order in ORDERS {
            for endian in ENDIANS {
                for s in 0..144 {
                    for e in (s + 1)..=(s + 128).min(144) {
                        let expected = model(bytes, order, endian, s, e);
                        assert_eq!(load_unsigned(bytes, order, endian, s, e) as u128, expected);
                        assert_eq!(
                            load_signed(bytes, order, endian, s, e) as i128,
                            sign_extend(expected, e - s)
                        );
                    }
                }
            }
        }
    }
}

#[test]
fn stores_match_the_bit_level_description() {
    let start: [u8; 18] = [
        0x3c, 0xa5, 0x0f, 0xf0, 0x81, 0x7e, 0x11, 0xee, 0x5a, 0x00, 0xff, 0x42, 0x24, 0x99, 0x66,
        0xc3, 0x3c, 0x7f,
    ];
    let values = [
        0u128,
        1,
        0x5555_5555_5555_5555_5555_5555_5555_5555,
        0xdead_beef_cafe_f00d_0123_4567_89ab_cdef,
        u128::MAX,
    ];
    for order in ORDERS {
        for endian in ENDIANS {
            for s in (0..144).step_by(3) {
                for e in (s + 1)..=(s + 128).min(144) {
                    for v in values {
                        let mut bytes = start;
                        store_bits(&mut bytes, order, endian, s, e, v);
                        let w = e - s;
                        let mask = if w == 128 { u128::MAX } else { (1u128 << w) - 1 };
                        assert_eq!(model(&bytes, order, endian, s, e), v & mask);
                        for i in 0..144 {
                            if i < s || i >= e {
                                assert_eq!(bit_at(&bytes, order, i), bit_at(&start, order, i));
                            }
                        }
                    }
                }
            }
        }
    }
}
