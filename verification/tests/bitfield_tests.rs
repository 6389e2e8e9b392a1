use device_driver::bitfield::{load_signed, load_unsigned, store_bits, BitOrder, Endianness};

fn machine_is_little_endian() -> bool {
    u16::from_ne_bytes([1, 0]) == 1
}

#[test]
fn lsb0_single_byte_field() {
    let bytes = [0b1010_0101u8];
    // bits 0..4 under Lsb0 are the low nibble
    assert_eq!(load_unsigned(&bytes, BitOrder::Lsb0, Endianness::Little, 0, 4), 0b0101);
    assert_eq!(load_unsigned(&bytes, BitOrder::Lsb0, Endianness::Big, 0, 4), 0b0101);
    assert_eq!(load_unsigned(&bytes, BitOrder::Lsb0, Endianness::Little, 4, 8), 0b1010);
}

#[test]
fn msb0_single_byte_field() {
    let bytes = [0b1010_0101u8];
    // bits 0..4 under Msb0 are the high nibble
    assert_eq!(load_unsigned(&bytes, BitOrder::Msb0, Endianness::Little, 0, 4), 0b1010);
    assert_eq!(load_unsigned(&bytes, BitOrder::Msb0, Endianness::Big, 4, 8), 0b0101);
    assert_eq!(load_unsigned(&bytes, BitOrder::Msb0, Endianness::Big, 1, 3), 0b01);
}

#[test]
fn lsb0_field_across_bytes() {
    // the two 16-bit words 0x4003 and 0x100e laid out in little-endian bytes
    let bytes = [0x03u8, 0x40, 0x0e, 0x10];
    assert_eq!(load_unsigned(&bytes, BitOrder::Lsb0, Endianness::Little, 14, 20), 0b00_1110_01);
    assert_eq!(load_unsigned(&bytes, BitOrder::Lsb0, Endianness::Big, 14, 20), 0b01_1110);
}

#[test]
fn msb0_field_across_bytes() {
    let bytes = [0x0cu8, 0x63, 0x49, 0xb0];
    assert_eq!(load_unsigned(&bytes, BitOrder::Msb0, Endianness::Little, 4, 28), 0x00b4_963c);
    assert_eq!(load_signed(&bytes, BitOrder::Msb0, Endianness::Little, 4, 28), 0xffb4_963cu32 as i32 as i128);
    assert_eq!(load_unsigned(&bytes, BitOrder::Msb0, Endianness::Big, 4, 28), 0x00c6_349b);
}

#[test]
fn store_le_msb0_layout() {
    let mut bytes = [0u8; 4];
    store_bits(&mut bytes, BitOrder::Msb0, Endianness::Little, 4, 28, 0x00b4_963c);
    assert_eq!(bytes, [0b0000_1100, 0b0110_0011, 0b0100_1001, 0b1011_0000]);
}

#[test]
fn store_keeps_other_bits() {
    let mut bytes = [0xffu8, 0xff];
    store_bits(&mut bytes, BitOrder::Lsb0, Endianness::Big, 4, 12, 0);
    assert_eq!(bytes, [0x0f, 0xf0]);
    let mut bytes = [0xffu8, 0xff];
    store_bits(&mut bytes, BitOrder::Msb0, Endianness::Big, 4, 12, 0);
    assert_eq!(bytes, [0xf0, 0x0f]);
}

#[test]
fn store_truncates_to_width() {
    let mut bytes = [0u8; 2];
    store_bits(&mut bytes, BitOrder::Lsb0, Endianness::Little, 0, 4, 0x1234);
    assert_eq!(bytes, [0x04, 0x00]);
}

#[test]
fn signed_load_sign_extends() {
    let bytes = [0b0000_1110u8];
    assert_eq!(load_signed(&bytes, BitOrder::Lsb0, Endianness::Little, 0, 4), -2);
    assert_eq!(load_signed(&bytes, BitOrder::Lsb0, Endianness::Little, 0, 3), -2);
    assert_eq!(load_signed(&bytes, BitOrder::Lsb0, Endianness::Little, 1, 4), -1);
    assert_eq!(load_signed(&bytes, BitOrder::Lsb0, Endianness::Little, 0, 2), -2);
    assert_eq!(load_signed(&bytes, BitOrder::Lsb0, Endianness::Little, 4, 8), 0);
    assert_eq!(load_unsigned(&bytes, BitOrder::Lsb0, Endianness::Little, 0, 4), 14);
}

#[test]
fn store_then_load_every_order() {
    let orders = [BitOrder::Lsb0, BitOrder::Msb0];
    let endians = [Endianness::Little, Endianness::Big, Endianness::Native];
    for order in orders {
        for endian in endians {
            let mut bytes = [0x5au8; 5];
            store_bits(&mut bytes, order, endian, 3, 37, 0x2_f00d_cafe);
            assert_eq!(load_unsigned(&bytes, order, endian, 3, 37), 0x2_f00d_cafe);
            assert_eq!(load_signed(&bytes, order, endian, 3, 37), 0x2_f00d_cafe - (1i128 << 34));
            assert_eq!(load_unsigned(&bytes, order, endian, 0, 3), 0b010);
            assert_eq!(load_unsigned(&bytes, order, endian, 37, 40), 0b010);
        }
    }
}

#[test]
fn native_matches_machine_order() {
    let bytes = [0x12u8, 0x34, 0x56];
    let expected = if machine_is_little_endian() {
        load_unsigned(&bytes, BitOrder::Lsb0, Endianness::Little, 4, 20)
    } else {
        load_unsigned(&bytes, BitOrder::Lsb0, Endianness::Big, 4, 20)
    };
    assert_eq!(load_unsigned(&bytes, BitOrder::Lsb0, Endianness::Native, 4, 20), expected);
    let expected = if machine_is_little_endian() {
        load_signed(&bytes, BitOrder::Msb0, Endianness::Little, 4, 20)
    } else {
        load_signed(&bytes, BitOrder::Msb0, Endianness::Big, 4, 20)
    };
    assert_eq!(load_signed(&bytes, BitOrder::Msb0, Endianness::Native, 4, 20), expected);
}

#[test]
fn full_64_bit_field() {
    let bytes = [0x01u8, 0x23, 0x45, 0x67, 0x89, 0xab, 0xcd, 0xef];
    assert_eq!(load_unsigned(&bytes, BitOrder::Lsb0, Endianness::Little, 0, 64), 0xefcd_ab89_6745_2301);
    assert_eq!(load_unsigned(&bytes, BitOrder::Lsb0, Endianness::Big, 0, 64), 0x0123_4567_89ab_cdef);
    assert_eq!(load_signed(&bytes, BitOrder::Msb0, Endianness::Little, 0, 64), 0xefcd_ab89_6745_2301u64 as i64 as i128);
}

#[test]
fn full_128_bit_field() {
    let bytes: [u8; 16] = [
        0x00, 0x11, 0x22, 0x33, 0x44, 0x55, 0x66, 0x77, 0x88, 0x99, 0xaa, 0xbb, 0xcc, 0xdd, 0xee, 0xff,
    ];
    assert_eq!(
        load_unsigned(&bytes, BitOrder::Lsb0, Endianness::Big, 0, 128),
        0x0011_2233_4455_6677_8899_aabb_ccdd_eeff
    );
    assert_eq!(
        load_signed(&bytes, BitOrder::Lsb0, Endianness::Little, 0, 128),
        0xffee_ddcc_bbaa_9988_7766_5544_3322_1100u128 as i128
    );
    let mut out = [0u8; 16];
    store_bits(&mut out, BitOrder::Msb0, Endianness::Big, 0, 128, 0x0011_2233_4455_6677_8899_aabb_ccdd_eeff);
    assert_eq!(out, bytes);
}
