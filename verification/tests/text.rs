use dmd_core::bus::Bus;
use dmd_core::cpu::Cpu;
use dmd_core::cpu_model::R_PC;
use dmd_core::err::{BusError, CpuError, CpuException};
use dmd_core::history::{History, HistoryEntry};
use dmd_core::instr::{AddrMode, Data, Operand};
use dmd_core::text::{
    count_hex_digits, digit_str, push_decimal, push_hex, push_hex_padded, push_signed16,
    push_signed32, push_signed8, push_spaces,
};

const SAMPLES: [u32; 14] = [
    0, 1, 9, 10, 15, 16, 0x7f, 0x80, 0xff, 0x100, 0x7fff, 0x8000, 0x7fff_ffff, 0xffff_ffff,
];

#[test]
fn numbers_read_as_the_standard_library_writes_them() {
    for x in SAMPLES.iter().copied().chain([0x8000_0000, 0x1234_5678, 0xffff_ff85, 99, 100]) {
        let mut s = String::new();
        push_hex(&mut s, x as u64);
        assert_eq!(format!("{:x}", x), s);
        let mut s = String::new();
        push_decimal(&mut s, x as u64);
        assert_eq!(format!("{}", x), s);
        let mut s = String::new();
        push_hex_padded(&mut s, x as u64, 8);
        assert_eq!(format!("{:08x}", x), s);
        let mut s = String::new();
        push_hex_padded(&mut s, (x % 0x100) as u64, 2);
        assert_eq!(format!("{:02x}", x as u8), s);
        let mut s = String::new();
        push_hex_padded(&mut s, (x % 0x10000) as u64, 4);
        assert_eq!(format!("{:04x}", x as u16), s);
        let mut s = String::new();
        push_signed8(&mut s, x);
        assert_eq!(format!("{}", x as i8), s);
        let mut s = String::new();
        push_signed16(&mut s, x);
        assert_eq!(format!("{}", x as i16), s);
        let mut s = String::new();
        push_signed32(&mut s, x);
        assert_eq!(format!("{}", x as i32), s);
    }
    let mut s = String::from("x");
    push_hex(&mut s, u64::MAX);
    assert_eq!("xffffffffffffffff", s);
    assert_eq!(16, count_hex_digits(u64::MAX));
    assert_eq!(1, count_hex_digits(0));
    assert_eq!(3, count_hex_digits(0x100));
    let mut s = String::from("ab");
    push_spaces(&mut s, 3);
    assert_eq!("ab   ", s);
    assert_eq!("a", digit_str(10));
    assert_eq!("7", digit_str(7));
}

#[test]
fn errors_in_words() {
    assert_eq!("Illegal Opcode", CpuException::IllegalOpcode.message());
    assert_eq!("Invalid Descriptor", CpuException::InvalidDescriptor.message());
    assert_eq!("Privileged Opcode", CpuException::PrivilegedOpcode.message());
    assert_eq!("Integer Zero Divide", CpuException::IntegerZeroDivide.message());
    assert_eq!("Could not initialize bus", BusError::Init.message());
    assert_eq!("Could not read from bus at address 7001ab", BusError::Read(0x7001ab).message());
    assert_eq!("Could not write to bus at address 0", BusError::Write(0).message());
    assert_eq!("No device at address 900000", BusError::NoDevice(0x900000).message());
    assert_eq!("Address out of range", BusError::Range.message());
    assert_eq!("Invalid permission", BusError::Permission.message());
    assert_eq!("Memory Alignment at address 00700001", BusError::Alignment(0x700001).message());
    assert_eq!(
        "Privileged Opcode",
        CpuError::from_exception(CpuException::PrivilegedOpcode).message()
    );
    assert_eq!("Invalid permission", CpuError::from_bus(BusError::Permission).message());
    assert!(BusError::NoDevice(1).memory_fault());
    assert!(BusError::Read(1).memory_fault());
    assert!(BusError::Write(1).memory_fault());
    assert!(!BusError::Alignment(1).memory_fault());
    assert!(!BusError::Permission.memory_fault());
    assert!(!BusError::Range.memory_fault());
    assert!(!BusError::Init.memory_fault());
}

fn operand(mode: AddrMode, register: Option<usize>, embedded: u32) -> Operand {
    Operand::new(1, mode, Data::Word, None, register, embedded)
}

#[test]
fn operands_in_the_history() {
    let text = |mode, register, embedded| HistoryEntry::decode_operand(&operand(mode, register, embedded));
    assert_eq!("&0x700100", text(AddrMode::Absolute, None, 0x700100));
    assert_eq!("*&0x700100", text(AddrMode::AbsoluteDeferred, None, 0x700100));
    assert_eq!("4(%ap)", text(AddrMode::ApShortOffset, Some(10), 4));
    assert_eq!("12(%fp)", text(AddrMode::FpShortOffset, Some(9), 12));
    assert_eq!("-2(%r1)", text(AddrMode::ByteDisplacement, Some(1), 0xfe));
    assert_eq!("6(%fp)", text(AddrMode::ByteDisplacement, Some(9), 6));
    assert_eq!("*48(%ap)", text(AddrMode::ByteDisplacementDeferred, Some(10), 0x30));
    assert_eq!("???", text(AddrMode::ByteDisplacement, None, 6));
    assert_eq!("4660(%psw)", text(AddrMode::HalfwordDisplacement, Some(11), 0x1234));
    assert_eq!("*-32768(%sp)", text(AddrMode::HalfwordDisplacementDeferred, Some(12), 0x8000));
    assert_eq!("-1(%pcbp)", text(AddrMode::WordDisplacement, Some(13), 0xffff_ffff));
    assert_eq!("*305419896(%isp)", text(AddrMode::WordDisplacementDeferred, Some(14), 0x12345678));
    assert_eq!("0(%pc)", text(AddrMode::WordDisplacement, Some(15), 0));
    assert_eq!("%r0", text(AddrMode::Register, Some(0), 0));
    assert_eq!("%r8", text(AddrMode::Register, Some(8), 0));
    assert_eq!("%fp", text(AddrMode::Register, Some(9), 0));
    assert_eq!("%pc", text(AddrMode::Register, Some(15), 0));
    assert_eq!("???", text(AddrMode::Register, None, 0));
    assert_eq!("0x28", text(AddrMode::ByteImmediate, None, 40));
    assert_eq!("0x4", text(AddrMode::PositiveLiteral, None, 4));
    assert_eq!("0x0", text(AddrMode::NoMode, None, 0));
}

#[test]
fn instructions_in_the_history() {
    let mut cpu = Cpu::new();
    let mut bus = Bus::new(0x10000);
    // MOVB {sbyte}%r0,{uhalf}4(%r1) ; NOP ; INSFW &3,&8,%r2,%r3
    bus.load(
        0x700000,
        &[0x87, 0xe7, 0x40, 0xe2, 0xc1, 0x04, 0x70, 0xc8, 0x03, 0x08, 0x42, 0x43],
    )
    .unwrap();
    cpu.r[R_PC] = 0x700000;
    cpu.decode_instruction(&mut bus).unwrap();
    let entry = HistoryEntry::new(&cpu.ir, 0x700000);
    assert_eq!(0x700000, entry.pc);
    assert_eq!("00700000:\t\tMOVB\t%r0,4(%r1)", entry.text);
    cpu.r[R_PC] = 0x700006;
    cpu.decode_instruction(&mut bus).unwrap();
    assert_eq!("00700006:\t\tNOP", HistoryEntry::decode_instruction(&cpu.ir, 0x700006));
    cpu.r[R_PC] = 0x700007;
    cpu.decode_instruction(&mut bus).unwrap();
    assert_eq!(
        "00700007:\t\tINSFW\t0x3,0x8,%r2,%r3",
        HistoryEntry::decode_instruction(&cpu.ir, 0x700007)
    );
    let mut history = History::new(2);
    history.push(HistoryEntry::new(&cpu.ir, 0x700007));
    assert_eq!(1, history.len());
}

#[test]
fn operands_and_instructions_as_text() {
    let mut op = Operand::new(1, AddrMode::Register, Data::Byte, None, Some(1), 0);
    op.data = 0x1234_56ab;
    assert_eq!("0xab", op.to_text());
    op.data_type = Data::Half;
    assert_eq!("0x56ab", op.to_text());
    op.data_type = Data::UWord;
    assert_eq!("0x123456ab", op.to_text());
    op.data = 5;
    assert_eq!("0x00000005", op.to_text());
    op.data_type = Data::NoData;
    assert_eq!("", op.to_text());

    let mut cpu = Cpu::new();
    let mut bus = Bus::new(0x10000);
    assert_eq!("???   ", cpu.ir.to_text());
    // MOVW &0x12345678,%r3
    bus.load(0x700000, &[0x84, 0x4f, 0x78, 0x56, 0x34, 0x12, 0x43, 0x30, 0x0d]).unwrap();
    cpu.r[R_PC] = 0x700000;
    cpu.step_at(&mut bus, 0);
    assert_eq!("MOVW  0x000000000x12345678", cpu.ir.to_text());
    // ENBVJMP: a mnemonic longer than the column
    cpu.r[0] = 0x700000;
    cpu.step_at(&mut bus, 0);
    assert_eq!("ENBVJMP 0x000000000x12345678", cpu.ir.to_text());
}
