use dmd_core::device::{AccessCode, Device};
use dmd_core::err::BusError;
use dmd_core::mem::Mem;

#[test]
fn cannot_write_to_read_only_memory() {
    let mut mem = Mem::new(0, 0x1000, true);
    assert!(mem.write_byte(0, 0x1f, AccessCode::Write).is_err());
    assert!(mem.write_half(0, 0x1f1f, AccessCode::Write).is_err());
    assert!(mem.write_word(0, 0x1f1f_1f1f, AccessCode::Write).is_err());
}

#[test]
fn loads_program_if_it_fits() {
    let mut mem = Mem::new(0, 3, false);
    let program: [u8; 3] = [0x0a, 0x30, 0x1f];
    let result = mem.load(0, &program);
    assert!(result.is_ok());

    // Did it actually load?
    assert_eq!(mem.get(0).unwrap(), 0x0a);
    assert_eq!(mem.get(1).unwrap(), 0x30);
    assert_eq!(mem.get(2).unwrap(), 0x1f);
}

#[test]
fn fails_to_load_program_if_it_doesnt_fit() {
    let mut mem = Mem::new(0, 3, false);
    let program: [u8; 4] = [0x0a, 0x30, 0x1f, 0x1b];
    let result = mem.load(0, &program);
    assert!(result.is_err());

    // Did it actually fail to load?
    assert_eq!(mem.get(0).unwrap(), 0);
    assert_eq!(mem.get(1).unwrap(), 0);
    assert_eq!(mem.get(2).unwrap(), 0);
}

#[test]
fn can_write_and_read_memory() {
    let mut mem = Mem::new(0, 2, false);

    let mut read_result = mem.read_byte(0, AccessCode::AddressFetch);
    assert!(read_result.is_ok());
    assert_eq!(0, read_result.unwrap());

    let mut write_result = mem.write_byte(0, 0x01, AccessCode::Write);
    assert!(write_result.is_ok());

    read_result = mem.read_byte(0, AccessCode::AddressFetch);
    assert!(read_result.is_ok());
    assert_eq!(1, read_result.unwrap());

    write_result = mem.write_byte(1, 0x02, AccessCode::Write);
    assert!(write_result.is_ok());

    read_result = mem.read_byte(1, AccessCode::AddressFetch);
    assert!(read_result.is_ok());
    assert_eq!(2, read_result.unwrap());
}

#[test]
fn fails_to_read_or_write_memory_when_out_of_bounds() {
    let mut mem = Mem::new(0, 2, false);

    let write_result = mem.write_byte(2, 0x03, AccessCode::Write);
    assert!(write_result.is_err());

    let read_result = mem.read_byte(2, AccessCode::AddressFetch);
    assert!(read_result.is_err());
}

#[test]
fn memory_access_uses_absolute_addresses() {
    let mut mem = Mem::new(0x300, 2, false);

    let write_result = mem.write_byte(0x300, 0xfe, AccessCode::Write);
    assert!(write_result.is_ok());

    let read_result = mem.read_byte(0x300, AccessCode::AddressFetch);
    assert!(read_result.is_ok());
    assert_eq!(0xfe, read_result.unwrap());
}

#[test]
fn memory_is_big_endian() {
    let mut mem = Mem::new(0x100, 8, false);
    mem.write_word(0x100, 0x1234_5678, AccessCode::Write).unwrap();
    assert_eq!(Ok(0x12), mem.read_byte(0x100, AccessCode::AddressFetch));
    assert_eq!(Ok(0x34), mem.read_byte(0x101, AccessCode::AddressFetch));
    assert_eq!(Ok(0x56), mem.read_byte(0x102, AccessCode::AddressFetch));
    assert_eq!(Ok(0x78), mem.read_byte(0x103, AccessCode::AddressFetch));
    assert_eq!(Ok(0x1234), mem.read_half(0x100, AccessCode::AddressFetch));
    assert_eq!(Ok(0x5678), mem.read_half(0x102, AccessCode::AddressFetch));
    assert_eq!(Ok(0x1234_5678), mem.read_word(0x100, AccessCode::AddressFetch));
    mem.write_half(0x104, 0xabcd, AccessCode::Write).unwrap();
    assert_eq!(Ok(0xab), mem.read_byte(0x104, AccessCode::AddressFetch));
    assert_eq!(Ok(0xcd), mem.read_byte(0x105, AccessCode::AddressFetch));
}

#[test]
fn memory_reports_each_fault() {
    let mut rom = Mem::new(0x100, 4, true);
    assert_eq!(Err(BusError::Permission), rom.write_byte(0x100, 1, AccessCode::Write));
    assert_eq!(Err(BusError::Permission), rom.write_half(0x100, 1, AccessCode::Write));
    assert_eq!(Err(BusError::Permission), rom.write_word(0x100, 1, AccessCode::Write));
    assert_eq!(Ok(0), rom.read_word(0x100, AccessCode::AddressFetch));

    let mut ram = Mem::new(0x100, 4, false);
    assert_eq!(Err(BusError::Range), ram.read_byte(0xff, AccessCode::AddressFetch));
    assert_eq!(Err(BusError::Range), ram.read_byte(0x104, AccessCode::AddressFetch));
    assert_eq!(Err(BusError::Range), ram.read_half(0x103, AccessCode::AddressFetch));
    assert_eq!(Err(BusError::Range), ram.read_word(0x101, AccessCode::AddressFetch));
    assert_eq!(Err(BusError::Range), ram.write_half(0x103, 1, AccessCode::Write));
    assert_eq!(Err(BusError::Range), ram.write_word(0x102, 1, AccessCode::Write));
    assert_eq!(Err(BusError::Range), ram.load(0x102, &[1, 2, 3]));
    assert_eq!(Ok(0), ram.read_word(0x100, AccessCode::AddressFetch));
}

#[test]
fn load_writes_read_only_memory() {
    let mut rom = Mem::new(0, 4, true);
    assert_eq!(Ok(()), rom.load(1, &[7, 8]));
    assert_eq!(Ok(0x0007_0800), rom.read_word(0, AccessCode::AddressFetch));
    assert!(rom.is_read_only());
    assert_eq!("ROM", rom.name());
    assert_eq!(0..4, rom.address_range());
}

#[test]
fn slices_of_memory() {
    let mut ram = Mem::new(0x10, 4, false);
    ram.load(0x10, &[1, 2, 3, 4]).unwrap();
    assert_eq!(Ok(&[2u8, 3][..]), ram.as_slice(1..3));
    assert_eq!(Err(BusError::Range), ram.as_slice(1..5));
    assert_eq!(&[1u8, 2, 3, 4][..], ram.bytes());
    assert_eq!(None, ram.get(4));
    assert!(ram.set(3, 9));
    assert!(!ram.set(4, 9));
    assert_eq!(Some(9), ram.get(3));
    assert_eq!("RAM", ram.name());
}
