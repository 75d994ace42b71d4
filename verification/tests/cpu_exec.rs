use dmd_core::bus::Bus;
use dmd_core::cpu::Cpu;
use dmd_core::cpu_model::{
    F_C, F_N, F_V, F_Z, R_AP, R_FP, R_ISP, R_PC, R_PCBP, R_PSW, R_SP,
};
use dmd_core::device::AccessCode;
use dmd_core::err::{BusError, CpuError, CpuException};
use dmd_core::exec::{divide, remain, rotate, shift_count, shift_right};
use dmd_core::instr::{CpuLevel, Data};

const RAM: usize = 0x700000;

fn machine(program: &[u8]) -> (Cpu, Bus) {
    let mut cpu: Cpu = Cpu::new();
    let mut bus: Bus = Bus::new(0x10000);
    bus.load(RAM, program).unwrap();
    cpu.r[R_PC] = RAM as u32;
    (cpu, bus)
}

fn flags(cpu: &Cpu) -> (bool, bool, bool, bool) {
    (cpu.n_flag(), cpu.z_flag(), cpu.c_flag(), cpu.v_flag())
}

#[test]
fn movw_word_immediate_to_register() {
    // MOVW &0x12345678,%r3
    let (mut cpu, mut bus) = machine(&[0x84, 0x4f, 0x78, 0x56, 0x34, 0x12, 0x43]);
    cpu.step_at(&mut bus, 0);
    assert_eq!(0x12345678, cpu.r[3]);
    assert_eq!(RAM as u32 + 7, cpu.get_pc());
    assert_eq!(1, cpu.get_steps());
}

#[test]
fn movw_sign_extends_immediates() {
    // MOVW &0x8000,%r2
    let (mut cpu, mut bus) = machine(&[0x84, 0x5f, 0x00, 0x80, 0x42]);
    cpu.step_at(&mut bus, 0);
    assert_eq!(0xffff8000, cpu.r[2]);
    // MOVW &-1,%r2
    let (mut cpu, mut bus) = machine(&[0x84, 0x6f, 0xff, 0x42]);
    cpu.step_at(&mut bus, 0);
    assert_eq!(0xffffffff, cpu.r[2]);
    assert_eq!((true, false, false, false), flags(&cpu));
}

#[test]
fn addb2_carries_out_of_a_byte() {
    // ADDB2 &0xff,%r3
    let (mut cpu, mut bus) = machine(&[0x9f, 0x6f, 0xff, 0x43]);
    cpu.r[3] = 1;
    cpu.step_at(&mut bus, 0);
    assert_eq!(0, cpu.r[3]);
    assert!(cpu.c_flag());
    assert!(cpu.z_flag());
}

#[test]
fn addw2_sets_overflow_on_signed_overflow() {
    // ADDW2 %r0,%r1
    let (mut cpu, mut bus) = machine(&[0x9c, 0x40, 0x41]);
    cpu.r[0] = 0x7fffffff;
    cpu.r[1] = 1;
    cpu.step_at(&mut bus, 0);
    assert_eq!(0x80000000, cpu.r[1]);
    assert_eq!((true, false, false, true), flags(&cpu));
}

#[test]
fn subw2_subtracts_the_first_operand_from_the_second() {
    // SUBW2 %r0,%r1
    let (mut cpu, mut bus) = machine(&[0xbc, 0x40, 0x41, 0xbc, 0x40, 0x41]);
    cpu.r[0] = 3;
    cpu.r[1] = 5;
    cpu.step_at(&mut bus, 0);
    assert_eq!(2, cpu.r[1]);
    assert!(!cpu.c_flag());
    assert!(!cpu.z_flag());
    cpu.step_at(&mut bus, 0);
    assert_eq!(0xffffffff, cpu.r[1]);
    assert!(cpu.c_flag());
    assert!(cpu.n_flag());
}

#[test]
fn incw_and_decw() {
    // INCW %r0 ; DECW %r0 ; DECW %r0
    let (mut cpu, mut bus) = machine(&[0x90, 0x40, 0x94, 0x40, 0x94, 0x40]);
    cpu.step_at(&mut bus, 0);
    assert_eq!(1, cpu.r[0]);
    cpu.step_at(&mut bus, 0);
    assert_eq!(0, cpu.r[0]);
    assert!(cpu.z_flag());
    cpu.step_at(&mut bus, 0);
    assert_eq!(0xffffffff, cpu.r[0]);
    assert!(cpu.n_flag());
}

#[test]
fn alsw3_shifts_the_first_operand_by_the_second() {
    // ALSW3 &1,&1,%r0 : the value 1 shifted left by 1
    let (mut cpu, mut bus) = machine(&[0xc0, 0x01, 0x01, 0x40]);
    cpu.r[0] = 1;
    for _ in 0..17 {
        cpu.set_pc(RAM as u32);
        cpu.step_at(&mut bus, 0);
        assert_eq!(2, cpu.r[0]);
    }
    // ALSW3 &0x80000000,&1,%r0 : the top bit is shifted out
    bus.load(RAM, &[0xc0, 0x4f, 0x00, 0x00, 0x00, 0x80, 0x01, 0x40]).unwrap();
    cpu.set_pc(RAM as u32);
    cpu.step_at(&mut bus, 0);
    assert_eq!(0, cpu.r[0]);
    assert!(cpu.z_flag());
    // ALSW3 &3,&0x24,%r0 : the count is cut to its low five bits
    let (mut cpu, mut bus) = machine(&[0xc0, 0x03, 0x24, 0x40]);
    cpu.step_at(&mut bus, 0);
    assert_eq!(3 << 4, cpu.r[0]);
}

#[test]
fn beb_branches_on_zero() {
    // BEB &-1 at address 5
    let mut cpu: Cpu = Cpu::new();
    let mut bus: Bus = Bus::new(0x10000);
    bus.load(5, &[0x6f, 0xff]).unwrap();
    cpu.set_pc(5);
    cpu.set_z_flag(true);
    cpu.step_at(&mut bus, 0);
    assert_eq!(4, cpu.get_pc());

    cpu.set_pc(5);
    cpu.set_z_flag(false);
    cpu.step_at(&mut bus, 0);
    assert_eq!(7, cpu.get_pc());
}

#[test]
fn branches_follow_their_conditions() {
    // BNEH &0x100 ; at RAM
    let (mut cpu, mut bus) = machine(&[0x66, 0x00, 0x01]);
    cpu.set_z_flag(false);
    cpu.step_at(&mut bus, 0);
    assert_eq!(RAM as u32 + 0x100, cpu.get_pc());
    // BLUB &4 with C set
    let (mut cpu, mut bus) = machine(&[0x5b, 0x04]);
    cpu.set_c_flag(true);
    cpu.step_at(&mut bus, 0);
    assert_eq!(RAM as u32 + 4, cpu.get_pc());
    // BGB &4 with N set: not taken
    let (mut cpu, mut bus) = machine(&[0x47, 0x04]);
    cpu.set_n_flag(true);
    cpu.step_at(&mut bus, 0);
    assert_eq!(RAM as u32 + 2, cpu.get_pc());
    // BVSB &4 with V set
    let (mut cpu, mut bus) = machine(&[0x6b, 0x04]);
    cpu.set_v_flag(true);
    cpu.step_at(&mut bus, 0);
    assert_eq!(RAM as u32 + 4, cpu.get_pc());
    // BRB &-2
    let (mut cpu, mut bus) = machine(&[0x7b, 0xfe]);
    cpu.step_at(&mut bus, 0);
    assert_eq!(RAM as u32 - 2, cpu.get_pc());
}

#[test]
fn nops_have_their_own_lengths() {
    let (mut cpu, mut bus) = machine(&[0x70, 0x73, 0x00, 0x72, 0x00, 0x00, 0x70]);
    cpu.step_at(&mut bus, 0);
    assert_eq!(RAM as u32 + 1, cpu.get_pc());
    cpu.step_at(&mut bus, 0);
    assert_eq!(RAM as u32 + 3, cpu.get_pc());
    cpu.step_at(&mut bus, 0);
    assert_eq!(RAM as u32 + 6, cpu.get_pc());
}

#[test]
fn logic_instructions() {
    // ANDW3 %r0,%r1,%r2 ; ORW3 ; XORW3 ; MCOMW %r0,%r3 ; MNEGW %r0,%r4
    let (mut cpu, mut bus) = machine(&[
        0xf8, 0x40, 0x41, 0x42, 0xf0, 0x40, 0x41, 0x42, 0xf4, 0x40, 0x41, 0x42, 0x88, 0x40, 0x43,
        0x8c, 0x40, 0x44,
    ]);
    cpu.r[0] = 0x0ff0;
    cpu.r[1] = 0x00ff;
    cpu.set_c_flag(true);
    cpu.step_at(&mut bus, 0);
    assert_eq!(0x00f0, cpu.r[2]);
    assert!(!cpu.c_flag());
    cpu.step_at(&mut bus, 0);
    assert_eq!(0x0fff, cpu.r[2]);
    cpu.step_at(&mut bus, 0);
    assert_eq!(0x0f0f, cpu.r[2]);
    cpu.step_at(&mut bus, 0);
    assert_eq!(0xfffff00f, cpu.r[3]);
    cpu.step_at(&mut bus, 0);
    assert_eq!(0xfffff010, cpu.r[4]);
}

#[test]
fn bit_test_changes_no_operand() {
    // BITW %r0,%r1
    let (mut cpu, mut bus) = machine(&[0x38, 0x40, 0x41]);
    cpu.r[0] = 0xf0;
    cpu.r[1] = 0x0f;
    cpu.step_at(&mut bus, 0);
    assert_eq!(0xf0, cpu.r[0]);
    assert_eq!(0x0f, cpu.r[1]);
    assert_eq!((false, true, false, false), flags(&cpu));
}

#[test]
fn compare_and_test() {
    // CMPW %r0,%r1 : flags of r1 - r0
    let (mut cpu, mut bus) = machine(&[0x3c, 0x40, 0x41, 0x3c, 0x40, 0x41, 0x28, 0x42, 0x2b, 0x43]);
    cpu.r[0] = 5;
    cpu.r[1] = 5;
    cpu.step_at(&mut bus, 0);
    assert_eq!((false, true, false, false), flags(&cpu));
    cpu.r[1] = 0xffffffff;
    cpu.step_at(&mut bus, 0);
    // -1 < 5 signed, but not unsigned
    assert_eq!((true, false, false, false), flags(&cpu));
    // TSTW %r2
    cpu.r[2] = 0x80000000;
    cpu.step_at(&mut bus, 0);
    assert_eq!((true, false, false, false), flags(&cpu));
    // TSTB %r3
    cpu.r[3] = 0;
    cpu.step_at(&mut bus, 0);
    assert_eq!((false, true, false, false), flags(&cpu));
}

#[test]
fn clr_sets_zero() {
    // CLRW %r5
    let (mut cpu, mut bus) = machine(&[0x80, 0x45]);
    cpu.r[5] = 77;
    cpu.set_n_flag(true);
    cpu.set_c_flag(true);
    cpu.step_at(&mut bus, 0);
    assert_eq!(0, cpu.r[5]);
    assert_eq!((false, true, false, false), flags(&cpu));
}

#[test]
fn multiply_divide_and_modulo() {
    // MULW3 %r0,%r1,%r2 ; DIVW3 %r0,%r1,%r2 ; MODW3 %r0,%r1,%r2
    let (mut cpu, mut bus) =
        machine(&[0xe8, 0x40, 0x41, 0x42, 0xec, 0x40, 0x41, 0x42, 0xe4, 0x40, 0x41, 0x42]);
    cpu.r[0] = 7;
    cpu.r[1] = 45;
    cpu.step_at(&mut bus, 0);
    assert_eq!(315, cpu.r[2]);
    cpu.step_at(&mut bus, 0);
    assert_eq!(6, cpu.r[2]);
    cpu.step_at(&mut bus, 0);
    assert_eq!(3, cpu.r[2]);
}

#[test]
fn division_by_zero_is_an_exception() {
    // DIVW2 %r0,%r1
    let (mut cpu, mut bus) = machine(&[0xac, 0x40, 0x41]);
    cpu.r[0] = 0;
    cpu.r[1] = 45;
    assert_eq!(
        Err(CpuError::Exception(CpuException::IntegerZeroDivide)),
        cpu.step_with_error_at(&mut bus, 0)
    );
    assert_eq!(45, cpu.r[1]);
    assert_eq!(RAM as u32, cpu.get_pc());
    // MODW2 %r0,%r1
    let (mut cpu, mut bus) = machine(&[0xa4, 0x40, 0x41]);
    assert_eq!(
        Err(CpuError::Exception(CpuException::IntegerZeroDivide)),
        cpu.step_with_error_at(&mut bus, 0)
    );
    // A plain step drops the exception.
    let (mut cpu, mut bus) = machine(&[0xac, 0x40, 0x41]);
    cpu.step_at(&mut bus, 0);
    assert_eq!(RAM as u32, cpu.get_pc());
}

#[test]
fn dividing_the_most_negative_number_by_minus_one_sets_overflow() {
    // DIVW2 %r0,%r1
    let (mut cpu, mut bus) = machine(&[0xac, 0x40, 0x41]);
    cpu.r[0] = 0xffffffff;
    cpu.r[1] = 0x80000000;
    cpu.step_at(&mut bus, 0);
    assert!(cpu.v_flag());
    assert_eq!(0x80000000, cpu.r[1]);
}

#[test]
fn division_in_each_type() {
    assert_eq!(Some(6), divide(Data::Word, 45, 7));
    assert_eq!(Some(0xfffffffa), divide(Data::Word, (-45i32) as u32, 7));
    assert_eq!(Some(0xfffffffa), divide(Data::Word, 45, (-7i32) as u32));
    assert_eq!(Some(6), divide(Data::Word, (-45i32) as u32, (-7i32) as u32));
    assert_eq!(Some(0x80000000), divide(Data::Word, 0x80000000, 0xffffffff));
    assert_eq!(None, divide(Data::Word, 1, 0));
    assert_eq!(Some(0x24924924), divide(Data::UWord, 0xffffffff, 7));
    // Half-words: only the low 16 bits count, and the result is
    // extended by its sign.
    assert_eq!(Some(0xfffffffa), divide(Data::Half, 0xffd3, 7));
    assert_eq!(Some(0xffff8000), divide(Data::Half, 0x8000, 0xffff));
    assert_eq!(None, divide(Data::Half, 5, 0x10000));
    assert_eq!(Some(0x2492), divide(Data::UHalf, 0x1ffff, 7));
    assert_eq!(None, divide(Data::UHalf, 5, 0x10000));
    assert_eq!(Some(0xfffffffa), divide(Data::SByte, 0xd3, 7));
    assert_eq!(Some(36), divide(Data::Byte, 0x1ff, 7));
    assert_eq!(None, divide(Data::Byte, 5, 0x100));
    assert_eq!(Some(3), divide(Data::NoData, 10, 3));

    assert_eq!(Some(3), remain(Data::Word, 45, 7));
    assert_eq!(Some(0xfffffffd), remain(Data::Word, (-45i32) as u32, 7));
    assert_eq!(Some(3), remain(Data::Word, 45, (-7i32) as u32));
    assert_eq!(Some(0), remain(Data::Word, 0x80000000, 0xffffffff));
    assert_eq!(None, remain(Data::Word, 1, 0));
    assert_eq!(Some(0xfffffffd), remain(Data::Half, 0xffd3, 7));
    assert_eq!(Some(3), remain(Data::Byte, 0x1ff, 7));
    assert_eq!(Some(1), remain(Data::UHalf, 0x10008, 7));
    assert_eq!(None, remain(Data::SByte, 1, 0x100));
}

#[test]
fn shifts_and_rotations_in_each_type() {
    assert_eq!(0, shift_count(0x80000000));
    assert_eq!(31, shift_count(0xffffffff));
    assert_eq!(0xc0000000, shift_right(Data::Word, 0x80000000, 1));
    assert_eq!(0xffffffff, shift_right(Data::Word, 0x80000000, 31));
    assert_eq!(0x40000000, shift_right(Data::UWord, 0x80000000, 1));
    assert_eq!(0xffffc000, shift_right(Data::Half, 0x8000, 1));
    assert_eq!(0xffffffff, shift_right(Data::Half, 0x8000, 20));
    assert_eq!(0x4000, shift_right(Data::UHalf, 0x18000, 1));
    assert_eq!(0x40, shift_right(Data::Byte, 0x180, 1));
    assert_eq!(0xffffffc0, shift_right(Data::SByte, 0x80, 1));
    assert_eq!(0, shift_right(Data::NoData, 0x80, 1));
    assert_eq!(0x12345678, rotate(0x12345678, 0));
    assert_eq!(0x81234567, rotate(0x12345678, 4));
    assert_eq!(0x2468acf0, rotate(0x12345678, 31));
}

#[test]
fn shift_instructions() {
    // LLSW3 &4,%r1,%r2 ; LRSW3 &4,%r1,%r2 ; ARSW3 &4,%r1,%r2 ; ROTW &4,%r1,%r2
    let (mut cpu, mut bus) = machine(&[
        0xd0, 0x04, 0x41, 0x42, 0xd4, 0x04, 0x41, 0x42, 0xc4, 0x04, 0x41, 0x42, 0xd8, 0x04, 0x41,
        0x42,
    ]);
    cpu.r[1] = 0x80000018;
    cpu.step_at(&mut bus, 0);
    assert_eq!(0x00000180, cpu.r[2]);
    cpu.step_at(&mut bus, 0);
    assert_eq!(0x08000001, cpu.r[2]);
    cpu.step_at(&mut bus, 0);
    assert_eq!(0xf8000001, cpu.r[2]);
    cpu.step_at(&mut bus, 0);
    assert_eq!(0x88000001, cpu.r[2]);
}

#[test]
fn bit_fields() {
    // EXTFW &3,&4,%r0,%r1 : four bits from bit 4 on
    let (mut cpu, mut bus) = machine(&[0xcc, 0x03, 0x04, 0x40, 0x41, 0xc8, 0x03, 0x08, 0x42, 0x43]);
    cpu.r[0] = 0x00000ab0;
    cpu.step_at(&mut bus, 0);
    assert_eq!(0xb, cpu.r[1]);
    // INSFW &3,&8,%r2,%r3 : four bits into bit 8 on
    cpu.r[2] = 0xffffff5;
    cpu.r[3] = 0x12345678;
    cpu.step_at(&mut bus, 0);
    assert_eq!(0x12345578, cpu.r[3]);
}

#[test]
fn swap_with_register_zero() {
    // SWAPWI %r3
    let (mut cpu, mut bus) = machine(&[0x1c, 0x43]);
    cpu.r[0] = 11;
    cpu.r[3] = 22;
    cpu.step_at(&mut bus, 0);
    assert_eq!(22, cpu.r[0]);
    assert_eq!(11, cpu.r[3]);
}

#[test]
fn moves_to_and_from_memory() {
    // MOVW %r0,$0x700100 ; MOVH $0x700100,%r1 ; MOVB $0x700103,%r2 ; MOVAW $0x700100,%r3
    let (mut cpu, mut bus) = machine(&[
        0x84, 0x40, 0x7f, 0x00, 0x01, 0x70, 0x00, 0x86, 0x7f, 0x00, 0x01, 0x70, 0x00, 0x41, 0x87,
        0x7f, 0x03, 0x01, 0x70, 0x00, 0x42, 0x04, 0x7f, 0x00, 0x01, 0x70, 0x00, 0x43,
    ]);
    cpu.r[0] = 0x8234_56f8;
    cpu.step_at(&mut bus, 0);
    assert_eq!(Ok(0x8234_56f8), bus.read_word(0x700100, AccessCode::AddressFetch));
    cpu.step_at(&mut bus, 0);
    // The half-word is read with its sign and written cut to its width.
    assert_eq!(0x8234, cpu.r[1]);
    assert!(cpu.n_flag());
    cpu.step_at(&mut bus, 0);
    assert_eq!(0xf8, cpu.r[2]);
    cpu.step_at(&mut bus, 0);
    assert_eq!(0x700100, cpu.r[3]);
}

#[test]
fn register_writes_are_cut_to_the_width() {
    // MOVB &-1,%r0 ; MOVH &0x8000,%r1 ; MOVW &-1,%r2
    let (mut cpu, mut bus) =
        machine(&[0x87, 0x6f, 0xff, 0x40, 0x86, 0x5f, 0x00, 0x80, 0x41, 0x84, 0x6f, 0xff, 0x42]);
    cpu.r[0] = 0x1234_5678;
    cpu.step_at(&mut bus, 0);
    assert_eq!(0xff, cpu.r[0]);
    assert!(cpu.n_flag());
    cpu.step_at(&mut bus, 0);
    assert_eq!(0x8000, cpu.r[1]);
    cpu.step_at(&mut bus, 0);
    assert_eq!(0xffff_ffff, cpu.r[2]);
}

#[test]
fn move_of_an_address_sets_the_flags() {
    // MOVAW $0x80700100,%r3
    let (mut cpu, mut bus) = machine(&[0x04, 0x7f, 0x00, 0x01, 0x70, 0x80, 0x43]);
    cpu.set_c_flag(true);
    cpu.step_at(&mut bus, 0);
    assert_eq!(0x8070_0100, cpu.r[3]);
    assert_eq!((true, false, false, false), flags(&cpu));
}

#[test]
fn writing_to_a_literal_is_illegal() {
    // MOVW %r0,&1
    let (mut cpu, mut bus) = machine(&[0x84, 0x40, 0x01]);
    assert_eq!(
        Err(CpuError::Exception(CpuException::IllegalOpcode)),
        cpu.step_with_error_at(&mut bus, 0)
    );
}

#[test]
fn unknown_and_unimplemented_opcodes_are_illegal() {
    for program in [[0x01u8, 0, 0], [0x30, 0x00, 0], [0x2f, 0, 0], [0x2e, 0, 0], [0x00, 0, 0]] {
        let (mut cpu, mut bus) = machine(&program);
        assert_eq!(
            Err(CpuError::Exception(CpuException::IllegalOpcode)),
            cpu.step_with_error_at(&mut bus, 0)
        );
        assert_eq!(RAM as u32, cpu.get_pc());
    }
    // A descriptor that names the status word as a base register.
    let (mut cpu, mut bus) = machine(&[0x84, 0x5b, 0x40]);
    assert_eq!(
        Err(CpuError::Exception(CpuException::IllegalOpcode)),
        cpu.step_with_error_at(&mut bus, 0)
    );
    // An expanded-type prefix behind an expanded-type prefix.
    let (mut cpu, mut bus) = machine(&[0x84, 0xe0, 0xe0, 0x40, 0x41]);
    assert_eq!(
        Err(CpuError::Exception(CpuException::IllegalOpcode)),
        cpu.step_with_error_at(&mut bus, 0)
    );
}

#[test]
fn stack_instructions() {
    // PUSHW %r0 ; POPW %r1 ; PUSHAW $0x700200
    let (mut cpu, mut bus) =
        machine(&[0xa0, 0x40, 0x20, 0x41, 0xe0, 0x7f, 0x00, 0x02, 0x70, 0x00]);
    cpu.r[R_SP] = 0x700400;
    cpu.r[0] = 0xcafe;
    cpu.step_at(&mut bus, 0);
    assert_eq!(0x700404, cpu.r[R_SP]);
    assert_eq!(Ok(0xcafe), bus.read_word(0x700400, AccessCode::AddressFetch));
    cpu.step_at(&mut bus, 0);
    assert_eq!(0x700400, cpu.r[R_SP]);
    assert_eq!(0xcafe, cpu.r[1]);
    cpu.step_at(&mut bus, 0);
    assert_eq!(Ok(0x700200), bus.read_word(0x700400, AccessCode::AddressFetch));
    assert_eq!(Ok(()), cpu.stack_push(&mut bus, 5));
    assert_eq!(Ok(5), cpu.stack_pop(&mut bus));
    cpu.r[R_ISP] = 0x700500;
    assert_eq!(Ok(()), cpu.irq_push(&mut bus, 6));
    assert_eq!(0x700504, cpu.r[R_ISP]);
    assert_eq!(Ok(6), cpu.irq_pop(&mut bus));
    assert_eq!(0x700500, cpu.r[R_ISP]);
}

#[test]
fn subroutine_jump_and_return() {
    // JSB $0x700100 ... at 0x700100: RSB
    let (mut cpu, mut bus) = machine(&[0x34, 0x7f, 0x00, 0x01, 0x70, 0x00]);
    bus.load(0x700100, &[0x78]).unwrap();
    cpu.r[R_SP] = 0x700400;
    cpu.step_at(&mut bus, 0);
    assert_eq!(0x700100, cpu.get_pc());
    assert_eq!(0x700404, cpu.r[R_SP]);
    cpu.step_at(&mut bus, 0);
    assert_eq!(RAM as u32 + 6, cpu.get_pc());
    assert_eq!(0x700400, cpu.r[R_SP]);
    // BSBB &0x10
    let (mut cpu, mut bus) = machine(&[0x37, 0x10]);
    cpu.r[R_SP] = 0x700400;
    cpu.step_at(&mut bus, 0);
    assert_eq!(RAM as u32 + 0x10, cpu.get_pc());
    assert_eq!(Ok(RAM as u32 + 2), bus.read_word(0x700400, AccessCode::AddressFetch));
    // JMP $0x700200
    let (mut cpu, mut bus) = machine(&[0x24, 0x7f, 0x00, 0x02, 0x70, 0x00]);
    cpu.step_at(&mut bus, 0);
    assert_eq!(0x700200, cpu.get_pc());
}

#[test]
fn conditional_return_not_taken_moves_on() {
    // REQL with Z clear
    let (mut cpu, mut bus) = machine(&[0x7c]);
    cpu.r[R_SP] = 0x700400;
    cpu.step_at(&mut bus, 0);
    assert_eq!(RAM as u32 + 1, cpu.get_pc());
    assert_eq!(0x700400, cpu.r[R_SP]);
}

#[test]
fn procedure_call_and_return() {
    // CALL -8(%sp),$0x700100 ; at 0x700100: RET
    let (mut cpu, mut bus) = machine(&[0x2c, 0xcc, 0xf8, 0x7f, 0x00, 0x01, 0x70, 0x00]);
    bus.load(0x700100, &[0x08]).unwrap();
    cpu.r[R_SP] = 0x700400;
    cpu.r[R_AP] = 0x700300;
    cpu.step_at(&mut bus, 0);
    assert_eq!(0x700100, cpu.get_pc());
    assert_eq!(0x7003f8, cpu.get_ap());
    assert_eq!(0x700408, cpu.r[R_SP]);
    assert_eq!(Ok(RAM as u32 + 8), bus.read_word(0x700400, AccessCode::AddressFetch));
    assert_eq!(Ok(0x700300), bus.read_word(0x700404, AccessCode::AddressFetch));
    cpu.step_at(&mut bus, 0);
    assert_eq!(RAM as u32 + 8, cpu.get_pc());
    assert_eq!(0x700300, cpu.get_ap());
    assert_eq!(0x7003f8, cpu.r[R_SP]);
}

#[test]
fn save_and_restore_a_frame() {
    // SAVE %r3 ; RESTORE %r3
    let (mut cpu, mut bus) = machine(&[0x10, 0x43, 0x18, 0x43]);
    cpu.r[R_SP] = 0x700400;
    cpu.r[R_FP] = 0x700380;
    for i in 3..9 {
        cpu.r[i] = 0x1000 + i as u32;
    }
    cpu.step_at(&mut bus, 0);
    assert_eq!(0x70041c, cpu.r[R_SP]);
    assert_eq!(0x70041c, cpu.r[R_FP]);
    assert_eq!(Ok(0x700380), bus.read_word(0x700400, AccessCode::AddressFetch));
    assert_eq!(Ok(0x1003), bus.read_word(0x700404, AccessCode::AddressFetch));
    assert_eq!(Ok(0x1008), bus.read_word(0x700418, AccessCode::AddressFetch));
    for i in 3..9 {
        cpu.r[i] = 0;
    }
    cpu.step_at(&mut bus, 0);
    assert_eq!(0x700400, cpu.r[R_SP]);
    assert_eq!(0x700380, cpu.r[R_FP]);
    for i in 3..9 {
        assert_eq!(0x1000 + i as u32, cpu.r[i]);
    }
}

#[test]
fn block_move_and_string_end() {
    // MOVBLW
    let (mut cpu, mut bus) = machine(&[0x30, 0x19, 0x30, 0x1f]);
    bus.load(0x700100, &[1, 2, 3, 4, 5, 6, 7, 8, b'h', b'i', 0]).unwrap();
    cpu.r[0] = 0x700100;
    cpu.r[1] = 0x700200;
    cpu.r[2] = 2;
    cpu.step_at(&mut bus, 0);
    assert_eq!(0, cpu.r[2]);
    assert_eq!(0x700108, cpu.r[0]);
    assert_eq!(0x700208, cpu.r[1]);
    assert_eq!(Ok(0x01020304), bus.read_word(0x700200, AccessCode::AddressFetch));
    assert_eq!(Ok(0x05060708), bus.read_word(0x700204, AccessCode::AddressFetch));
    // STREND
    cpu.step_at(&mut bus, 0);
    assert_eq!(0x70010a, cpu.r[0]);
    assert_eq!(RAM as u32 + 4, cpu.get_pc());
}

#[test]
fn version_number() {
    // MVERNO
    let (mut cpu, mut bus) = machine(&[0x30, 0x09]);
    cpu.step_at(&mut bus, 0);
    assert_eq!(0x1a, cpu.r[0]);
    assert_eq!(RAM as u32 + 2, cpu.get_pc());
}

#[test]
fn privileged_instructions_ask_for_kernel_level() {
    for program in [[0x30u8, 0x0d], [0x30, 0x13], [0x30, 0xac], [0x30, 0xc8]] {
        let (mut cpu, mut bus) = machine(&program);
        cpu.set_priv_level(CpuLevel::User);
        assert_eq!(
            Err(CpuError::Exception(CpuException::PrivilegedOpcode)),
            cpu.step_with_error_at(&mut bus, 0)
        );
    }
    // ENBVJMP at kernel level jumps to where register 0 points.
    let (mut cpu, mut bus) = machine(&[0x30, 0x0d]);
    cpu.r[0] = 0x700200;
    cpu.step_at(&mut bus, 0);
    assert_eq!(0x700200, cpu.get_pc());
}

#[test]
fn privilege_levels() {
    let mut cpu = Cpu::new();
    assert_eq!(CpuLevel::Kernel, cpu.priv_level());
    cpu.set_priv_level(CpuLevel::User);
    assert_eq!(CpuLevel::User, cpu.priv_level());
    assert_eq!(3 << 11, cpu.get_psw());
    cpu.set_priv_level(CpuLevel::Executive);
    assert_eq!(CpuLevel::Executive, cpu.priv_level());
    // The previous level is noted.
    assert_eq!((1 << 11) | (3 << 9), cpu.get_psw());
    cpu.set_priv_level(CpuLevel::Supervisor);
    assert_eq!(CpuLevel::Supervisor, cpu.priv_level());
}

#[test]
fn flags_round_trip() {
    for start in [0u32, 0xffff_ffff, 0x0012_3456] {
        let mut cpu = Cpu::new();
        cpu.r[R_PSW] = start;
        cpu.set_c_flag(true);
        assert!(cpu.c_flag());
        assert_eq!(start | F_C, cpu.get_psw());
        cpu.set_c_flag(false);
        assert!(!cpu.c_flag());
        assert_eq!(start & !F_C, cpu.get_psw());
        cpu.set_v_flag(true);
        assert!(cpu.v_flag());
        cpu.set_v_flag(false);
        assert_eq!(start & !(F_C | F_V), cpu.get_psw());
        cpu.set_z_flag(true);
        assert!(cpu.z_flag());
        cpu.set_z_flag(false);
        cpu.set_n_flag(true);
        assert!(cpu.n_flag());
        cpu.set_n_flag(false);
        assert_eq!(start & !(F_C | F_V | F_Z | F_N), cpu.get_psw());
    }
}

#[test]
fn reset_loads_the_first_process() {
    let mut cpu = Cpu::new();
    let mut bus = Bus::new(0x10000);
    // The word at 0x80 points at a control block at 0x100 with the
    // initial-context bit set.
    bus.load(0x80, &[0x00, 0x00, 0x01, 0x00]).unwrap();
    bus.load(
        0x100,
        &[0x00, 0x00, 0x00, 0x80, 0x00, 0x70, 0x00, 0x10, 0x00, 0x70, 0x04, 0x00],
    )
    .unwrap();
    cpu.r[3] = 99;
    assert_eq!(Ok(()), cpu.reset(&mut bus));
    assert_eq!(0, cpu.r[3]);
    assert_eq!(0x700010, cpu.get_pc());
    assert_eq!(0x700400, cpu.r[R_SP]);
    assert_eq!(0x10c, cpu.r[R_PCBP]);
    // The initial-context bit is cleared and the state code is 3.
    assert_eq!(3 << 3, cpu.get_psw());
}

#[test]
fn reset_reports_a_bus_fault() {
    let mut cpu = Cpu::new();
    let mut bus = Bus::new(0x10000);
    bus.load(0x80, &[0x00, 0x90, 0x00, 0x00]).unwrap();
    assert_eq!(Err(BusError::NoDevice(0x900000)), cpu.reset(&mut bus));
}

#[test]
fn unmapped_read_takes_the_exception_gate() {
    // MOVW $0x900000,%r0 : a read where no device answers
    let (mut cpu, mut bus) = machine(&[0x84, 0x7f, 0x00, 0x00, 0x90, 0x00, 0x40]);
    // The vector table: the word at 0 points at a second table at 0x200,
    // whose entry at offset 40 holds the new status word and program
    // counter.
    bus.load(0, &[0x00, 0x00, 0x02, 0x00]).unwrap();
    bus.load(0x200 + 40, &[0x00, 0x00, 0x00, 0x00, 0x00, 0x70, 0x08, 0x00]).unwrap();
    cpu.r[R_ISP] = 0x700600;
    cpu.r[R_PSW] = 0x0000_2800;
    assert_eq!(
        Err(CpuError::Bus(BusError::NoDevice(0x900000))),
        {
            let (mut probe, mut probe_bus) = machine(&[0x84, 0x7f, 0x00, 0x00, 0x90, 0x00, 0x40]);
            probe.step_with_error_at(&mut probe_bus, 0)
        }
    );
    cpu.step_at(&mut bus, 0);
    assert_eq!(0x700608, cpu.r[R_ISP]);
    assert_eq!(0x700800, cpu.get_pc());
    // The program counter and the status word, with exception type 3
    // and state code 5, are on the interrupt stack.
    assert_eq!(Ok(RAM as u32), bus.read_word(0x700600, AccessCode::AddressFetch));
    assert_eq!(Ok(0x0000_2800 | 3 | (5 << 3)), bus.read_word(0x700604, AccessCode::AddressFetch));
    // The new status word: state code 7, trace mask, exception type 3,
    // the previous mode taken from the old current mode, the interrupt
    // level kept.
    assert_eq!((7 << 3) | (1 << 2) | 3 | (1 << 9) | 0x2000, cpu.get_psw());
}

#[test]
fn alignment_and_permission_faults_end_the_step_quietly() {
    // MOVW $0x700101,%r0
    let (mut cpu, mut bus) = machine(&[0x84, 0x7f, 0x01, 0x01, 0x70, 0x00, 0x40]);
    cpu.r[R_ISP] = 0x700600;
    cpu.step_at(&mut bus, 0);
    assert_eq!(RAM as u32, cpu.get_pc());
    assert_eq!(0x700600, cpu.r[R_ISP]);
    // MOVW %r0,$0x100 : a write into ROM
    let (mut cpu, mut bus) = machine(&[0x84, 0x40, 0x7f, 0x00, 0x01, 0x00, 0x00]);
    assert_eq!(
        Err(CpuError::Bus(BusError::Permission)),
        cpu.step_with_error_at(&mut bus, 0)
    );
}

#[test]
fn process_call_and_return_restore_the_registers() {
    // CALLPS at RAM ; RETPS at the new process's program counter
    let (mut cpu, mut bus) = machine(&[0x30, 0xac]);
    let old_pcb: u32 = 0x700200;
    let new_pcb: u32 = 0x700300;
    // The new control block: status word with the register-save bit,
    // program counter, stack pointer; no block moves follow.
    bus.write_word(new_pcb as usize, 0x0000_0100).unwrap();
    bus.write_word(new_pcb as usize + 4, 0x700500).unwrap();
    bus.write_word(new_pcb as usize + 8, 0x700580).unwrap();
    bus.load(0x700500, &[0x30, 0xc8]).unwrap();
    cpu.r[R_PCBP] = old_pcb;
    cpu.r[R_ISP] = 0x700600;
    cpu.r[R_SP] = 0x700480;
    cpu.r[R_FP] = 0x700470;
    cpu.r[R_AP] = 0x700460;
    for i in 1..9 {
        cpu.r[i] = 0x2000 + i as u32;
    }
    cpu.r[0] = new_pcb;
    let saved: Vec<u32> = cpu.r.to_vec();

    assert_eq!(Ok(()), cpu.step_with_error_at(&mut bus, 0));
    assert_eq!(new_pcb, cpu.r[R_PCBP]);
    assert_eq!(0x700500, cpu.get_pc());
    assert_eq!(0x700580, cpu.r[R_SP]);
    assert_eq!(0x700604, cpu.r[R_ISP]);
    assert_eq!(Ok(old_pcb), bus.read_word(0x700600, AccessCode::AddressFetch));
    // The old process is saved in its control block.
    assert_eq!(Ok(RAM as u32 + 2), bus.read_word(old_pcb as usize + 4, AccessCode::AddressFetch));
    assert_eq!(Ok(0x700480), bus.read_word(old_pcb as usize + 8, AccessCode::AddressFetch));
    assert_eq!(Ok(0x700470), bus.read_word(old_pcb as usize + 24, AccessCode::AddressFetch));
    assert_eq!(Ok(new_pcb), bus.read_word(old_pcb as usize + 28, AccessCode::AddressFetch));
    assert_eq!(Ok(0x2008), bus.read_word(old_pcb as usize + 60, AccessCode::AddressFetch));
    assert_eq!(Ok(0x700460), bus.read_word(old_pcb as usize + 20, AccessCode::AddressFetch));

    assert_eq!(Ok(()), cpu.step_with_error_at(&mut bus, 0));
    assert_eq!(old_pcb, cpu.r[R_PCBP]);
    assert_eq!(RAM as u32 + 2, cpu.get_pc());
    assert_eq!(0x700600, cpu.r[R_ISP]);
    for i in 0..11 {
        assert_eq!(saved[i], cpu.r[i]);
    }
    assert_eq!(saved[R_SP], cpu.r[R_SP]);
}

#[test]
fn process_switch_carries_out_block_moves() {
    // CALLPS to a process whose control block lists one block move.
    let (mut cpu, mut bus) = machine(&[0x30, 0xac]);
    let new_pcb: usize = 0x700300;
    bus.write_word(new_pcb, 0x0000_0100).unwrap();
    bus.write_word(new_pcb + 4, 0x700500).unwrap();
    bus.write_word(new_pcb + 8, 0x700580).unwrap();
    // count 2, destination 0x700700, two words, then a count of zero
    bus.write_word(new_pcb + 64, 2).unwrap();
    bus.write_word(new_pcb + 68, 0x700700).unwrap();
    bus.write_word(new_pcb + 72, 0xaaaa_0001).unwrap();
    bus.write_word(new_pcb + 76, 0xbbbb_0002).unwrap();
    bus.write_word(new_pcb + 80, 0).unwrap();
    cpu.r[R_PCBP] = 0x700200;
    cpu.r[R_ISP] = 0x700600;
    cpu.r[0] = new_pcb as u32;
    assert_eq!(Ok(()), cpu.step_with_error_at(&mut bus, 0));
    assert_eq!(Ok(0xaaaa_0001), bus.read_word(0x700700, AccessCode::AddressFetch));
    assert_eq!(Ok(0xbbbb_0002), bus.read_word(0x700704, AccessCode::AddressFetch));
    assert_eq!(0, cpu.r[2]);
    assert_eq!(new_pcb as u32 + 88, cpu.r[0]);
}

#[test]
fn return_from_gate() {
    // RETG
    let (mut cpu, mut bus) = machine(&[0x30, 0x45]);
    cpu.r[R_SP] = 0x700408;
    cpu.r[R_PSW] = 0x0000_4100;
    bus.write_word(0x700400, 0x700900).unwrap();
    bus.write_word(0x700404, 0x003c_0000).unwrap();
    cpu.step_at(&mut bus, 0);
    assert_eq!(0x700900, cpu.get_pc());
    assert_eq!(0x700400, cpu.r[R_SP]);
    assert_eq!(0x003c_0000 | 0x4100 | (7 << 3) | 3, cpu.get_psw());
}

#[test]
fn pending_interrupt_switches_the_process() {
    // A NOP at the handler's program counter.
    let (mut cpu, mut bus) = machine(&[0x70]);
    bus.load(0x700500, &[0x70]).unwrap();
    // A mouse button raises the vector 0x02; the handler's control
    // block pointer is read at 0x8c + 4 * (!0x02 & 0x3f).
    bus.mouse_down(0);
    let slot: usize = 0x8c + 4 * 0x3d;
    bus.load(slot, &[0x00, 0x70, 0x03, 0x00]).unwrap();
    bus.write_word(0x700300, 0).unwrap();
    bus.write_word(0x700304, 0x700500).unwrap();
    bus.write_word(0x700308, 0x700580).unwrap();
    cpu.r[R_PCBP] = 0x700200;
    cpu.r[R_ISP] = 0x700600;
    cpu.r[R_SP] = 0x700480;
    assert_eq!(Ok(()), cpu.step_with_error_at(&mut bus, 0));
    assert_eq!(0x700300, cpu.r[R_PCBP]);
    assert_eq!(0x700501, cpu.get_pc());
    assert_eq!(0x700604, cpu.r[R_ISP]);
    assert_eq!(Ok(0x700200), bus.read_word(0x700600, AccessCode::AddressFetch));
    assert_eq!(Ok(RAM as u32), bus.read_word(0x700204, AccessCode::AddressFetch));
    assert_eq!((7 << 3) | 3, cpu.get_psw());
}

#[test]
fn interrupts_below_the_processor_level_wait() {
    let (mut cpu, mut bus) = machine(&[0x70]);
    bus.mouse_down(0);
    cpu.r[R_PCBP] = 0x700200;
    cpu.r[R_PSW] = 15 << 13;
    assert_eq!(Ok(()), cpu.step_with_error_at(&mut bus, 0));
    assert_eq!(0x700200, cpu.r[R_PCBP]);
    assert_eq!(RAM as u32 + 1, cpu.get_pc());
}

#[test]
fn stepping_by_the_clock_counts_steps() {
    let (mut cpu, mut bus) = machine(&[0x70, 0x70, 0x70]);
    cpu.step(&mut bus);
    assert_eq!(Ok(()), cpu.step_with_error(&mut bus));
    assert_eq!(2, cpu.get_steps());
    assert_eq!(RAM as u32 + 2, cpu.get_pc());
}
