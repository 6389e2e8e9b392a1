use device_driver::bitfield::{BitOrder, Endianness};
use device_driver::register::{Access, Field, R, W};
use device_driver::transaction::{Register, Request, Transaction};

fn field(order: BitOrder, endian: Endianness, start: usize, end: usize) -> Field {
    Field::new(order, endian, Access::ReadWrite, start, end)
}

fn bytes_of<const N: usize>(w: &W<N>) -> [u8; N] {
    let register = Register::single(Access::WriteOnly, 0u8);
    match Transaction::<u8, N>::write(&register, 0, w).1 {
        Request::Write { bytes, .. } => bytes,
        Request::Read { .. } => panic!("a write starts with a write request"),
    }
}

#[test]
fn read_after_write_gives_value_cut_to_width() {
    let f = field(BitOrder::Msb0, Endianness::Big, 3, 13);
    let mut w = W::<2>::zero();
    w.write(f, 0x7ffu16);
    let r = R::from_raw(bytes_of(&w));
    assert_eq!(r.read::<u16>(f), 0x3ff);
    assert_eq!(r.read::<i16>(f), -1);
    w.write(f, 0x155u16);
    let r = R::from_raw(bytes_of(&w));
    assert_eq!(r.read::<u16>(f), 0x155);
}

#[test]
fn write_keeps_disjoint_field() {
    let f = field(BitOrder::Lsb0, Endianness::Little, 2, 10);
    let g = field(BitOrder::Lsb0, Endianness::Big, 10, 20);
    let mut w = W::from_raw([0x3cu8, 0xa5, 0x0f]);
    let before = R::from_raw(bytes_of(&w)).read::<u16>(g);
    w.write(f, 0x99u8);
    let after = R::from_raw(bytes_of(&w));
    assert_eq!(after.read::<u16>(g), before);
    assert_eq!(after.read::<u8>(f), 0x99);
}

#[test]
fn disjoint_writes_commute() {
    let f = field(BitOrder::Msb0, Endianness::Little, 0, 7);
    let g = field(BitOrder::Msb0, Endianness::Big, 7, 21);
    let mut a = W::from_raw([0x81u8, 0x42, 0x24]);
    let mut b = W::from_raw([0x81u8, 0x42, 0x24]);
    a.write(f, 0x2au8).write(g, -3i16);
    b.write(g, -3i16).write(f, 0x2au8);
    assert_eq!(bytes_of(&a), bytes_of(&b));
}

#[test]
fn second_write_replaces_first() {
    let f = field(BitOrder::Lsb0, Endianness::Native, 4, 28);
    let mut a = W::from_raw([0x11u8, 0x22, 0x33, 0x44]);
    let mut b = W::from_raw([0x11u8, 0x22, 0x33, 0x44]);
    a.write(f, 0xabcdefu32).write(f, 0x123456u32);
    b.write(f, 0x123456u32);
    assert_eq!(bytes_of(&a), bytes_of(&b));
}

#[test]
fn same_write_same_bytes() {
    let f = field(BitOrder::Msb0, Endianness::Little, 5, 19);
    let mut a = W::from_raw([0x0fu8, 0xf0, 0x5a]);
    let mut b = W::from_raw([0x0fu8, 0xf0, 0x5a]);
    a.write(f, 0x1234u16);
    b.write(f, 0x1234u16);
    assert_eq!(bytes_of(&a), bytes_of(&b));
}

#[test]
fn zero_register_fields_are_zero() {
    let r = R::<4>::zero();
    for start in 0..31 {
        for end in (start + 1)..=32 {
            assert_eq!(r.read::<u32>(field(BitOrder::Lsb0, Endianness::Big, start, end)), 0);
            assert_eq!(r.read::<i32>(field(BitOrder::Msb0, Endianness::Little, start, end)), 0);
        }
    }
}
