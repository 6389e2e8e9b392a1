use device_driver::bitfield::{BitOrder, Endianness};
use device_driver::error::ConversionError;
use device_driver::register::{Access, Field, R, W};
use device_driver::transaction::{Phase, Purpose, ReadOutcome, Register, Request, Transaction};

#[derive(Debug, PartialEq, Clone, Copy)]
enum Mode {
    Off,
    On,
    Auto,
}

impl TryFrom<u8> for Mode {
    type Error = ();
    fn try_from(v: u8) -> Result<Self, ()> {
        match v {
            0 => Ok(Mode::Off),
            1 => Ok(Mode::On),
            2 => Ok(Mode::Auto),
            _ => Err(()),
        }
    }
}

impl From<Mode> for u8 {
    fn from(m: Mode) -> u8 {
        match m {
            Mode::Off => 0,
            Mode::On => 1,
            Mode::Auto => 2,
        }
    }
}

fn lsb(start: usize, end: usize) -> Field {
    Field::new(BitOrder::Lsb0, Endianness::Big, Access::ReadWrite, start, end)
}

fn bytes_of<const N: usize>(w: &W<N>) -> [u8; N] {
    let register = Register::single(Access::ReadWrite, 0x10u8);
    match Transaction::<u8, N>::write(&register, 0, w).1 {
        Request::Write { bytes, .. } => bytes,
        Request::Read { .. } => panic!("a write starts with a write request"),
    }
}

#[test]
fn zero_reader_reads_zero() {
    let r = R::<3>::zero();
    assert_eq!(r.get_raw(), [0, 0, 0]);
    assert_eq!(r.read::<u16>(lsb(3, 17)), 0);
    assert_eq!(r.read::<i8>(lsb(0, 8)), 0);
}

#[test]
fn raw_round_trip() {
    let r = R::from_raw([1u8, 2, 3]);
    assert_eq!(r.get_raw(), [1, 2, 3]);
    let w = W::from_raw([9u8, 8]).set_raw([4, 5]);
    assert_eq!(bytes_of(&w), [4, 5]);
    assert_eq!(bytes_of(&W::<2>::zero()), [0, 0]);
}

#[test]
fn reader_fields_of_each_type() {
    let r = R::from_raw([0xf0u8, 0x0f, 0x80, 0x01]);
    assert_eq!(r.read::<u8>(lsb(4, 8)), 0xf);
    assert_eq!(r.read::<i8>(lsb(4, 8)), -1);
    assert_eq!(r.read::<u16>(Field::new(BitOrder::Lsb0, Endianness::Little, Access::ReadOnly, 0, 16)), 0x0ff0);
    assert_eq!(r.read::<i16>(Field::new(BitOrder::Lsb0, Endianness::Little, Access::ReadOnly, 16, 32)), 0x0180);
    assert_eq!(r.read::<u32>(Field::new(BitOrder::Lsb0, Endianness::Big, Access::ReadOnly, 0, 32)), 0xf00f_8001);
    assert_eq!(r.read::<i32>(Field::new(BitOrder::Lsb0, Endianness::Big, Access::ReadOnly, 0, 32)), 0xf00f_8001u32 as i32);
    assert_eq!(r.read::<u64>(Field::new(BitOrder::Msb0, Endianness::Big, Access::ReadOnly, 0, 32)), 0xf00f_8001);
    assert_eq!(r.read::<i64>(Field::new(BitOrder::Msb0, Endianness::Big, Access::ReadOnly, 0, 4)), -1);
    assert_eq!(r.read::<u8>(Field::new_inclusive(BitOrder::Lsb0, Endianness::Big, Access::ReadOnly, 8, 11)), 0xf);
}

#[test]
fn converting_read() {
    let r = R::from_raw([0b0000_0110u8]);
    let ok: Result<Mode, ConversionError<u8>> = r.read_as::<u8, Mode>(lsb(0, 2));
    assert_eq!(ok.ok(), Some(Mode::Auto));
    match r.read_as::<u8, Mode>(lsb(1, 3)) {
        Ok(_) => panic!("3 is no mode"),
        Err(e) => {
            assert_eq!(e.raw, 3);
            assert_eq!(e.raw_hex(), "0x3");
            assert_eq!(e.debug_text(), "ConversionError { raw: 0x3 }");
        }
    }
}

#[test]
fn conversion_error_text() {
    assert_eq!(ConversionError { raw: 0xabu8 }.debug_text(), "ConversionError { raw: 0xAB }");
    assert_eq!(ConversionError { raw: 0u16 }.raw_hex(), "0x0");
    assert_eq!(ConversionError { raw: -1i8 }.raw_hex(), "0xFF");
    assert_eq!(ConversionError { raw: -2i16 }.raw_hex(), "0xFFFE");
    assert_eq!(ConversionError { raw: 0x1234_5678u32 }.raw_hex(), "0x12345678");
    assert_eq!(ConversionError { raw: i64::MIN }.raw_hex(), "0x8000000000000000");
    assert_eq!(ConversionError { raw: u64::MAX }.raw_hex(), "0xFFFFFFFFFFFFFFFF");
    assert_eq!(ConversionError { raw: 16i32 }.raw_hex(), "0x10");
}

#[test]
fn writer_fields_chain() {
    let mut w = W::<2>::zero();
    w.write(lsb(0, 4), 0x5u8).write(lsb(12, 16), 0xau8).write_from::<u8, Mode>(lsb(6, 8), Mode::Auto);
    assert_eq!(bytes_of(&w), [0x85, 0xa0]);
}

#[test]
fn writer_signed_field() {
    let mut w = W::<1>::zero();
    w.write(Field::new(BitOrder::Msb0, Endianness::Little, Access::WriteOnly, 0, 3), -1i8);
    assert_eq!(bytes_of(&w), [0b1110_0000]);
    w.write(Field::new(BitOrder::Msb0, Endianness::Little, Access::WriteOnly, 0, 3), 0x7fi8);
    assert_eq!(bytes_of(&w), [0b1110_0000]);
    w.write(Field::new(BitOrder::Msb0, Endianness::Little, Access::WriteOnly, 0, 3), 2i8);
    assert_eq!(bytes_of(&w), [0b0100_0000]);
}

#[test]
fn write_then_read_back() {
    let mut w = W::<4>::from_raw([0xff; 4]);
    let f = Field::new(BitOrder::Lsb0, Endianness::Little, Access::ReadWrite, 5, 27);
    w.write(f, -12345i32);
    let r = R::from_raw(bytes_of(&w));
    assert_eq!(r.read::<i32>(f), -12345);
    assert_eq!(r.read::<u32>(f), (-12345i32 as u32) & 0x3f_ffff);
    assert_eq!(r.read::<u8>(lsb(0, 5)), 0x1f);
    assert_eq!(r.read::<u8>(lsb(27, 32)), 0x1f);
}

#[test]
fn writer_from_reader_keeps_bytes() {
    let r = R::from_raw([0x12u8, 0x34]);
    let mut w = W::from_reader(&r);
    assert_eq!(bytes_of(&w), [0x12, 0x34]);
    w.write(lsb(8, 12), 0u8);
    assert_eq!(bytes_of(&w), [0x12, 0x30]);
}

#[test]
fn access_rights() {
    assert!(Access::ReadOnly.can_read());
    assert!(!Access::ReadOnly.can_write());
    assert!(!Access::WriteOnly.can_read());
    assert!(Access::WriteOnly.can_write());
    assert!(Access::ReadWrite.can_read());
    assert!(Access::ReadWrite.can_write());
}

#[test]
fn read_transaction() {
    let register = Register::array(Access::ReadOnly, vec![0x20u16, 0x21, 0x22]);
    assert_eq!(register.address(2), 0x22);
    let (mut tx, req) = Transaction::<u16, 2>::read(&register, 1);
    assert!(matches!(req, Request::Read { address: 0x21 }));
    match tx.read_done::<&str>(Ok([7, 8])) {
        ReadOutcome::Value(r) => assert_eq!(r.get_raw(), [7, 8]),
        _ => panic!("a read ends with its value"),
    }
}

#[test]
fn failed_read_transaction() {
    let register = Register::single(Access::ReadWrite, 3u8);
    let (mut tx, _) = Transaction::<u8, 1>::modify(&register, 0);
    match tx.read_done::<&str>(Err("bus error")) {
        ReadOutcome::Failed(e) => assert_eq!(e, "bus error"),
        _ => panic!("a failed read ends the transaction"),
    }
}

#[test]
fn modify_transaction() {
    let register = Register::single(Access::ReadWrite, 0x40u8);
    let (mut tx, req) = Transaction::<u8, 2>::modify(&register, 0);
    assert!(matches!(req, Request::Read { address: 0x40 }));
    let mut w = match tx.read_done::<()>(Ok([0xaa, 0x55])) {
        ReadOutcome::Edit(r, w) => {
            assert_eq!(r.get_raw(), [0xaa, 0x55]);
            w
        }
        _ => panic!("a modify hands out the value to edit"),
    };
    w.write(lsb(0, 4), 0u8);
    match tx.edited(&w) {
        Request::Write { address, bytes } => {
            assert_eq!(address, 0x40);
            assert_eq!(bytes, [0xa0, 0x55]);
        }
        Request::Read { .. } => panic!("an edit is written back"),
    }
    assert_eq!(tx.write_done::<()>(Ok(())), Ok(()));
}

#[test]
fn write_transaction_reports_failure() {
    let register = Register::single(Access::WriteOnly, 1u32);
    let w = W::from_raw([1u8]);
    let (mut tx, req) = Transaction::<u32, 1>::write(&register, 0, &w);
    assert!(matches!(req, Request::Write { address: 1, bytes: [1] }));
    assert_eq!(tx.write_done::<u8>(Err(7)), Err(7));
}

#[allow(dead_code)]
fn phases_are_public(p: Phase, q: Purpose) -> bool {
    p == Phase::Finished && q == Purpose::Read
}

#[test]
fn wide_and_pointer_sized_fields() {
    let mut w = W::<16>::zero();
    let whole = Field::new(BitOrder::Lsb0, Endianness::Little, Access::ReadWrite, 0, 128);
    w.write(whole, -2i128);
    let r = R::from_raw(bytes_of(&w));
    assert_eq!(r.read::<i128>(whole), -2);
    assert_eq!(r.read::<u128>(whole), u128::MAX - 1);
    let low = Field::new(BitOrder::Lsb0, Endianness::Little, Access::ReadWrite, 0, 16);
    assert_eq!(r.read::<usize>(low), 0xfffe);
    assert_eq!(r.read::<isize>(low), -2);
    assert_eq!(ConversionError { raw: -2i128 }.raw_hex(), "0xFFFFFFFFFFFFFFFFFFFFFFFFFFFFFFFE");
    assert_eq!(ConversionError { raw: 0x1fusize }.raw_hex(), "0x1F");
}

#[test]
fn default_layout() {
    assert_eq!(BitOrder::default(), BitOrder::Lsb0);
    assert_eq!(Endianness::default(), Endianness::Big);
    let f = Field::with_default_layout(Access::ReadOnly, 4, 12);
    assert_eq!(f, Field::new(BitOrder::Lsb0, Endianness::Big, Access::ReadOnly, 4, 12));
    let r = R::from_raw([0x21u8, 0x43]);
    assert_eq!(r.read::<u8>(f), 0x23);
}
