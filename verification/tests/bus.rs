use dmd_core::bus::{decode, Bus};
use dmd_core::bus_model::DeviceId;
use dmd_core::device::AccessCode;
use dmd_core::err::BusError;

#[test]
fn should_fail_on_alignment_errors() {
    let mut bus: Bus = Bus::new(0x10000);

    assert!(bus.write_byte(0x700000, 0x1f).is_ok());
    assert!(bus.write_half(0x700000, 0x1f1f).is_ok());
    assert!(bus.write_word(0x700000, 0x1f1f1f1f).is_ok());
    assert!(bus.write_half(0x700001, 0x1f1f).is_err());
    assert!(bus.write_half(0x700002, 0x1f1f).is_ok());
    assert!(bus.write_word(0x700001, 0x1f1f1f1f).is_err());
    assert!(bus.write_word(0x700002, 0x1f1f1f1f).is_err());
    assert!(bus.write_word(0x700003, 0x1f1f1f1f).is_err());
    assert!(bus.write_word(0x700004, 0x1f1f1f1f).is_ok());
}

#[test]
fn alignment_faults_name_the_address() {
    let mut bus: Bus = Bus::new(0x10000);
    assert_eq!(Err(BusError::Alignment(0x700001)), bus.read_half(0x700001, AccessCode::AddressFetch));
    assert_eq!(Err(BusError::Alignment(0x700002)), bus.read_word(0x700002, AccessCode::AddressFetch));
    assert_eq!(Err(BusError::Alignment(0x700003)), bus.write_half(0x700003, 1));
    assert_eq!(Err(BusError::Alignment(0x700001)), bus.write_word(0x700001, 1));
    assert_eq!(Ok(0), bus.read_half(0x700002, AccessCode::AddressFetch));
    assert_eq!(Ok(0), bus.read_word(0x700004, AccessCode::AddressFetch));
}

#[test]
fn data_path_is_big_endian_and_operand_fetch_little_endian() {
    let mut bus: Bus = Bus::new(0x10000);
    bus.load(0x700100, &[0x12, 0x34, 0x56, 0x78]).unwrap();
    assert_eq!(Ok(0x12345678), bus.read_word(0x700100, AccessCode::AddressFetch));
    assert_eq!(Ok(0x78563412), bus.read_op_word(0x700100));
    assert_eq!(Ok(0x1234), bus.read_half(0x700100, AccessCode::AddressFetch));
    assert_eq!(Ok(0x3412), bus.read_op_half(0x700100));
    // Operand fetches ask for no alignment.
    assert_eq!(Ok(0x5634), bus.read_op_half(0x700101));
    bus.load(0x700201, &[0xaa, 0xbb, 0xcc, 0xdd]).unwrap();
    assert_eq!(Ok(0xddccbbaa), bus.read_op_word(0x700201));
}

#[test]
fn writes_to_rom_are_refused_and_change_nothing() {
    let mut bus: Bus = Bus::new(0x10000);
    bus.load(0x100, &[1, 2, 3, 4]).unwrap();
    assert_eq!(Err(BusError::Permission), bus.write_byte(0x100, 0xff));
    assert_eq!(Err(BusError::Permission), bus.write_half(0x100, 0xffff));
    assert_eq!(Err(BusError::Permission), bus.write_word(0x100, 0xffff_ffff));
    assert_eq!(Ok(0x01020304), bus.read_word(0x100, AccessCode::AddressFetch));
    assert!(!bus.video_ram_dirty());
}

#[test]
fn unmapped_addresses_have_no_device() {
    let mut bus: Bus = Bus::new(0x10000);
    assert_eq!(Err(BusError::NoDevice(0x20000)), bus.read_byte(0x20000, AccessCode::AddressFetch));
    assert_eq!(Err(BusError::NoDevice(0x300000)), bus.read_word(0x300000, AccessCode::AddressFetch));
    assert_eq!(Err(BusError::NoDevice(0x800000)), bus.write_byte(0x800000, 1));
    assert_eq!(Err(BusError::NoDevice(0x900000)), bus.load(0x900000, &[1]));
    assert_eq!(Err(BusError::NoDevice(0x800000)), bus.read_op_half(0x800000));
    assert_eq!(Err(BusError::NoDevice(0x800000)), bus.read_op_word(0x800000));
    // RAM ends where it was made to end.
    assert_eq!(Err(BusError::Range), bus.read_byte(0x710000, AccessCode::AddressFetch));
    assert_eq!(Ok(0), bus.read_byte(0x70ffff, AccessCode::AddressFetch));
}

#[test]
fn address_decoding() {
    assert_eq!(Some(DeviceId::Rom), decode(0));
    assert_eq!(Some(DeviceId::Rom), decode(0x1ffff));
    assert_eq!(None, decode(0x20000));
    assert_eq!(Some(DeviceId::Duart), decode(0x200000));
    assert_eq!(Some(DeviceId::Duart), decode(0x20003f));
    assert_eq!(None, decode(0x200040));
    assert_eq!(Some(DeviceId::Mouse), decode(0x400003));
    assert_eq!(None, decode(0x400004));
    assert_eq!(Some(DeviceId::Vid), decode(0x500001));
    assert_eq!(None, decode(0x500002));
    assert_eq!(Some(DeviceId::Bbram), decode(0x601fff));
    assert_eq!(None, decode(0x602000));
    assert_eq!(Some(DeviceId::Ram), decode(0x700000));
    assert_eq!(Some(DeviceId::Ram), decode(0x7fffff));
    assert_eq!(None, decode(0x800000));
}

#[test]
fn writes_into_the_frame_buffer_set_the_dirty_flag() {
    let mut bus: Bus = Bus::new(0x100000);
    assert!(!bus.video_ram_dirty());
    // The video start register holds 0x10: the frame buffer starts at
    // offset 0x40 of RAM.
    bus.write_half(0x500000, 0x0010).unwrap();
    assert!(!bus.video_ram_dirty());
    bus.write_byte(0x70003f, 1).unwrap();
    assert!(!bus.video_ram_dirty());
    bus.write_byte(0x700000 + 0x40 + 0x19000, 1).unwrap();
    assert!(!bus.video_ram_dirty());
    bus.write_byte(0x700040, 0xaa).unwrap();
    assert!(bus.video_ram_dirty());
    {
        let video = bus.video_ram().unwrap();
        assert_eq!(0x19000, video.len());
        assert_eq!(0xaa, video[0]);
    }
    assert!(!bus.video_ram_dirty());
    bus.write_word(0x700040 + 0x18ffc, 0x01020304).unwrap();
    assert!(bus.video_ram_dirty());
    let video = bus.video_ram().unwrap();
    assert_eq!(4, video[0x18fff]);
}

#[test]
fn frame_buffer_outside_ram_is_a_range_fault() {
    let mut bus: Bus = Bus::new(0x10000);
    bus.write_byte(0x700000, 1).unwrap();
    assert!(bus.video_ram_dirty());
    assert_eq!(Err(BusError::Range), bus.video_ram().map(|v| v.len()));
    assert!(!bus.video_ram_dirty());
}

#[test]
fn mouse_latch_reads_as_half_words() {
    let mut bus: Bus = Bus::new(0x10000);
    bus.mouse_move(0x123, 0x456);
    assert_eq!(Ok(0x456), bus.read_half(0x400000, AccessCode::AddressFetch));
    assert_eq!(Ok(0x123), bus.read_half(0x400002, AccessCode::AddressFetch));
    assert_eq!(Err(BusError::NoDevice(0x400000)), bus.read_byte(0x400000, AccessCode::AddressFetch));
    assert_eq!(Err(BusError::NoDevice(0x400000)), bus.read_word(0x400000, AccessCode::AddressFetch));
    assert_eq!(Err(BusError::NoDevice(0x400000)), bus.write_half(0x400000, 1));
}

#[test]
fn nvram_is_replaced_by_the_host() {
    let mut bus: Bus = Bus::new(0x10000);
    assert_eq!(8192, bus.get_nvram().len());
    bus.set_nvram(&[1, 2, 3]);
    assert_eq!(&[1u8, 2, 3, 0][..], &bus.get_nvram()[0..4]);
    assert_eq!(Ok(0x01020300), bus.read_word(0x600000, AccessCode::AddressFetch));
    // What does not fit is left out.
    let long = vec![7u8; 9000];
    bus.set_nvram(&long);
    assert_eq!(8192, bus.get_nvram().len());
    assert_eq!(7, bus.get_nvram()[8191]);
}
