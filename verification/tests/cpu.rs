use dmd_core::bus::Bus;
use dmd_core::cpu::{sign_extend_byte, sign_extend_halfword, Cpu};
use dmd_core::cpu_model::{F_C, F_N, F_V, F_Z, R_AP, R_FP, R_PC, R_PSW};
use dmd_core::instr::{byte_mnemonic, AddrMode, Data, Operand};

const BASE: usize = 0x700000;

/// Helper function to set up and prepare a cpu and bus
/// with a supplied program.
fn do_with_program<F>(program: &[u8], test: F)
where
    F: Fn(&mut Cpu, &mut Bus),
{
    let mut cpu: Cpu = Cpu::new();
    let mut bus: Bus = Bus::new(0x10000);

    bus.load(BASE, &program).unwrap();
    cpu.r[R_PC] = BASE as u32;

    test(&mut cpu, &mut bus);
}

#[test]
fn sign_extension() {
    assert_eq!(0xffff8000, sign_extend_halfword(0x8000));
    assert_eq!(0xffffff80, sign_extend_byte(0x80));
}

#[test]
fn can_set_and_clear_nzvc_flags() {
    let mut cpu = Cpu::new();
    cpu.set_c_flag(true);
    assert_eq!(cpu.r[R_PSW], F_C);
    cpu.set_v_flag(true);
    assert_eq!(cpu.r[R_PSW], F_C | F_V);
    cpu.set_z_flag(true);
    assert_eq!(cpu.r[R_PSW], F_C | F_V | F_Z);
    cpu.set_n_flag(true);
    assert_eq!(cpu.r[R_PSW], F_C | F_V | F_Z | F_N);
    cpu.set_c_flag(false);
    assert_eq!(cpu.r[R_PSW], F_V | F_Z | F_N);
    cpu.set_v_flag(false);
    assert_eq!(cpu.r[R_PSW], F_Z | F_N);
    cpu.set_z_flag(false);
    assert_eq!(cpu.r[R_PSW], F_N);
    cpu.set_n_flag(false);
    assert_eq!(cpu.r[R_PSW], 0);
}

#[test]
fn can_set_isc_flag() {
    let mut cpu = Cpu::new();

    for i in 0..15 {
        cpu.set_isc(i);
        assert_eq!(i << 3, cpu.r[R_PSW]);
    }

    cpu.set_isc(16); // Out of range, should fail
    assert_eq!(0, cpu.r[R_PSW]);
}

#[test]
fn decodes_byte_literal_operand() {
    let program: [u8; 2] = [0x4f, 0x06]; // BLEB 0x6

    do_with_program(&program, |cpu, mut bus| {
        cpu.decode_literal_operand(
            &mut bus,
            0,
            &byte_mnemonic(0x4F).unwrap(),
            BASE + 1,
        )
        .unwrap();
        assert_eq!(
            cpu.ir.operands[0],
            Operand::new(1, AddrMode::NoMode, Data::Byte, None, None, 6)
        );
    })
}

#[test]
fn decodes_halfword_literal_operand() {
    let program: [u8; 3] = [0x4e, 0xff, 0x0f]; // BLEH 0xfff

    do_with_program(&program, |cpu, mut bus| {
        cpu.decode_literal_operand(
            &mut bus,
            0,
            &byte_mnemonic(0x4e).unwrap(),
            BASE + 1,
        )
        .unwrap();
        assert_eq!(
            cpu.ir.operands[0],
            Operand::new(2, AddrMode::NoMode, Data::Half, None, None, 0xfff)
        );
    })
}

#[test]
fn decodes_word_literal_operand() {
    let program: [u8; 5] = [0x32, 0xff, 0x4f, 0x00, 0x00]; // SPOP 0x4fff

    do_with_program(&program, |cpu, mut bus| {
        cpu.decode_literal_operand(
            &mut bus,
            0,
            &byte_mnemonic(0x32).unwrap(),
            BASE + 1,
        )
        .unwrap();
        assert_eq!(
            cpu.ir.operands[0],
            Operand::new(4, AddrMode::NoMode, Data::Word, None, None, 0x4fff)
        );
    });
}

#[test]
fn decodes_positive_literal_operand() {
    let program: [u8; 3] = [0x87, 0x04, 0x44]; // MOVB &4,%r4

    do_with_program(&program, |cpu, mut bus| {
        cpu.decode_descriptor_operand(&mut bus, 0, Data::Byte, None, BASE + 1, false).unwrap();
        assert_eq!(
            cpu.ir.operands[0],
            Operand::new(1, AddrMode::PositiveLiteral, Data::Byte, None, None, 0x04)
        );
    });
}

#[test]
fn decodes_word_immediate_operand() {
    let program = [0x84, 0x4f, 0x78, 0x56, 0x34, 0x12, 0x43]; // MOVW &0x12345678,%r3

    do_with_program(&program, |cpu, mut bus| {
        cpu.decode_descriptor_operand(&mut bus, 0, Data::Word, None, BASE + 1, false).unwrap();
        assert_eq!(
            cpu.ir.operands[0],
            Operand::new(5, AddrMode::WordImmediate, Data::Word, None, None, 0x12345678)
        );
    });
}

#[test]
fn decodes_register_operand() {
    let program: [u8; 3] = [0x87, 0x04, 0x44]; // MOVB &4,%r4

    do_with_program(&program, |cpu, mut bus| {
        cpu.decode_descriptor_operand(&mut bus, 0, Data::Byte, None, BASE + 2, false).unwrap();
        assert_eq!(
            cpu.ir.operands[0],
            Operand::new(1, AddrMode::Register, Data::Byte, None, Some(4), 0)
        );
    });
}

#[test]
fn decodes_halfword_immediate_operand() {
    let program = [0x84, 0x5f, 0x34, 0x12, 0x42]; // MOVW &0x1234,%r2

    do_with_program(&program, |cpu, mut bus| {
        cpu.decode_descriptor_operand(&mut bus, 0, Data::Word, None, BASE + 1, false).unwrap();
        assert_eq!(
            cpu.ir.operands[0],
            Operand::new(3, AddrMode::HalfwordImmediate, Data::Word, None, None, 0x1234,)
        );
    });
}

#[test]
fn decodes_register_deferred_operand() {
    let program: [u8; 3] = [0x86, 0x52, 0x41]; // MOVH (%r2),%r1

    do_with_program(&program, |cpu, mut bus| {
        cpu.decode_descriptor_operand(&mut bus, 0, Data::Half, None, BASE + 1, false).unwrap();
        assert_eq!(
            cpu.ir.operands[0],
            Operand::new(1, AddrMode::RegisterDeferred, Data::Half, None, Some(2), 0)
        );
    });
}

#[test]
fn decodes_byte_immediate_operand() {
    let program: [u8; 4] = [0x84, 0x6f, 0x28, 0x46]; // MOVW &40,%r6

    do_with_program(&program, |cpu, mut bus| {
        cpu.decode_descriptor_operand(&mut bus, 0, Data::Word, None, BASE + 1, false).unwrap();
        assert_eq!(
            cpu.ir.operands[0],
            Operand::new(2, AddrMode::ByteImmediate, Data::Word, None, None, 40)
        );
    });
}

#[test]
fn decodes_fp_short_offset_operand() {
    let program: [u8; 3] = [0x84, 0x6C, 0x40]; // MOVW 12(%fp),%r0

    do_with_program(&program, |cpu, mut bus| {
        cpu.decode_descriptor_operand(&mut bus, 0, Data::Word, None, BASE + 1, false).unwrap();
        assert_eq!(
            cpu.ir.operands[0],
            Operand::new(1, AddrMode::FpShortOffset, Data::Word, None, Some(R_FP), 12)
        );
    });
}

#[test]
fn decodes_absolute_operand() {
    let program: [u8; 7] = [0x87, 0x7f, 0x00, 0x01, 0x00, 0x00, 0x40]; // MOVB $0x100, %r0

    do_with_program(&program, |cpu, mut bus| {
        cpu.decode_descriptor_operand(&mut bus, 0, Data::Byte, None, BASE + 1, false).unwrap();
        assert_eq!(
            cpu.ir.operands[0],
            Operand::new(5, AddrMode::Absolute, Data::Byte, None, None, 0x00000100)
        );
    });
}

#[test]
fn decodes_absolute_deferred_operand() {
    let program = [0x87, 0xef, 0x00, 0x01, 0x00, 0x00, 0x40]; // MOVB *$0x100,%r0

    do_with_program(&program, |cpu, mut bus| {
        cpu.decode_descriptor_operand(&mut bus, 0, Data::Byte, None, BASE + 1, false).unwrap();
        assert_eq!(
            cpu.ir.operands[0],
            Operand::new(5, AddrMode::AbsoluteDeferred, Data::Byte, None, None, 0x00000100)
        );
    });
}

#[test]
fn decodes_ap_short_offset_operand() {
    let program: [u8; 3] = [0x84, 0x74, 0x43]; // MOVW 4(%ap),%r3

    do_with_program(&program, |cpu, mut bus| {
        cpu.decode_descriptor_operand(&mut bus, 0, Data::Word, None, BASE + 1, false).unwrap();
        assert_eq!(
            cpu.ir.operands[0],
            Operand::new(1, AddrMode::ApShortOffset, Data::Word, None, Some(R_AP), 4)
        );
    });
}

#[test]
fn decodes_word_displacement_operand() {
    let program: [u8; 7] = [0x87, 0x82, 0x34, 0x12, 0x00, 0x00, 0x44]; // MOVB 0x1234(%r2),%r4

    do_with_program(&program, |cpu, mut bus| {
        cpu.decode_descriptor_operand(&mut bus, 0, Data::Byte, None, BASE + 1, false).unwrap();
        assert_eq!(
            cpu.ir.operands[0],
            Operand::new(5, AddrMode::WordDisplacement, Data::Byte, None, Some(2), 0x1234,)
        );
    });
}

#[test]
fn decodes_word_displacement_deferred_operand() {
    let program: [u8; 7] = [0x87, 0x92, 0x50, 0x40, 0x00, 0x00, 0x40]; // MOVB *0x4050(%r2),%r0

    do_with_program(&program, |cpu, mut bus| {
        cpu.decode_descriptor_operand(&mut bus, 0, Data::Byte, None, BASE + 1, false).unwrap();
        assert_eq!(
            cpu.ir.operands[0],
            Operand::new(
                5,
                AddrMode::WordDisplacementDeferred,
                Data::Byte,
                None,
                Some(2),
                0x4050,
            )
        );
    });
}

#[test]
fn decodes_halfword_displacement_operand() {
    let program: [u8; 5] = [0x87, 0xa2, 0x34, 0x12, 0x44]; // MOVB 0x1234(%r2),%r4

    do_with_program(&program, |cpu, mut bus| {
        cpu.decode_descriptor_operand(&mut bus, 0, Data::Byte, None, BASE + 1, false).unwrap();
        assert_eq!(
            cpu.ir.operands[0],
            Operand::new(3, AddrMode::HalfwordDisplacement, Data::Byte, None, Some(2), 0x1234,)
        );
    });
}

#[test]
fn decodes_halfword_displacement_deferred_operand() {
    let program: [u8; 5] = [0x87, 0xb2, 0x50, 0x40, 0x40]; // MOVB *0x4050(%r2),%r0

    do_with_program(&program, |cpu, mut bus| {
        cpu.decode_descriptor_operand(&mut bus, 0, Data::Byte, None, BASE + 1, false).unwrap();
        assert_eq!(
            cpu.ir.operands[0],
            Operand::new(
                3,
                AddrMode::HalfwordDisplacementDeferred,
                Data::Byte,
                None,
                Some(2),
                0x4050,
            )
        );
    });
}

#[test]
fn decodes_byte_displacement_operand() {
    let program: [u8; 4] = [0x87, 0xc1, 0x06, 0x40]; // MOVB 6(%r1),%r0

    do_with_program(&program, |cpu, mut bus| {
        cpu.decode_descriptor_operand(&mut bus, 0, Data::Byte, None, BASE + 1, false).unwrap();
        assert_eq!(
            cpu.ir.operands[0],
            Operand::new(2, AddrMode::ByteDisplacement, Data::Byte, None, Some(1), 6)
        );
    });
}

#[test]
fn decodes_byte_displacement_deferred_operand() {
    let program: [u8; 4] = [0x87, 0xd2, 0x30, 0x43]; // MOVB *0x30(%r2),%r3

    do_with_program(&program, |cpu, mut bus| {
        cpu.decode_descriptor_operand(&mut bus, 0, Data::Byte, None, BASE + 1, false).unwrap();
        assert_eq!(
            cpu.ir.operands[0],
            Operand::new(
                2,
                AddrMode::ByteDisplacementDeferred,
                Data::Byte,
                None,
                Some(2),
                0x30
            )
        );
    });
}

#[test]
fn decodes_expanded_type_operand() {
    let program: [u8; 6] = [0x87, 0xe7, 0x40, 0xe2, 0xc1, 0x04]; // MOVB {sbyte}%r0,{uhalf}4(%r1)

    do_with_program(&program, |cpu, mut bus| {
        cpu.decode_descriptor_operand(&mut bus, 0, Data::Byte, None, BASE + 1, false).unwrap();
        cpu.decode_descriptor_operand(&mut bus, 1, Data::Byte, None, BASE + 3, false).unwrap();

        assert_eq!(
            cpu.ir.operands[0],
            Operand::new(2, AddrMode::Register, Data::Byte, Some(Data::SByte), Some(0), 0,)
        );
        assert_eq!(
            cpu.ir.operands[1],
            Operand::new(
                3,
                AddrMode::ByteDisplacement,
                Data::Byte,
                Some(Data::UHalf),
                Some(1),
                4,
            )
        );
    });
}

#[test]
fn decodes_negative_literal_operand() {
    let program: [u8; 3] = [0x87, 0xff, 0x40]; // MOVB &-1,%r0

    do_with_program(&program, |cpu, mut bus| {
        cpu.decode_descriptor_operand(&mut bus, 0, Data::Byte, None, BASE + 1, false).unwrap();
        assert_eq!(
            cpu.ir.operands[0],
            Operand::new(1, AddrMode::NegativeLiteral, Data::Byte, None, None, 0xff)
        );
    });
}

fn assert_instruction(cpu: &Cpu, opcode: u16, size: u8, name: &'static str, data_type: Data) {
    assert_eq!(cpu.ir.opcode, opcode);
    assert_eq!(cpu.ir.bytes, size);
    assert_eq!(cpu.ir.name, name);
    assert_eq!(cpu.ir.data_type, data_type);
}

#[test]
fn decodes_halfword_instructions() {
    let program = [0x30, 0x0d]; // ENBVJMP
    do_with_program(&program, |cpu, bus| {
        cpu.decode_instruction(bus).unwrap();
        assert_instruction(cpu, 0x300d, 2, "ENBVJMP", Data::NoData);
    })
}

#[test]
fn decodes_instructions() {
    let program: [u8; 10] = [
        0x87, 0xe7, 0x40, 0xe2, 0xc1, 0x04, // MOVB {sbyte}%r0,{uhalf}4(%r1)
        0x87, 0xd2, 0x30, 0x43, // MOVB *0x30(%r2),%r3
    ];

    do_with_program(&program, |cpu, bus| {
        {
            cpu.set_pc(BASE as u32);
            cpu.decode_instruction(bus).unwrap();
            let expected_operands = vec![
                Operand::new(2, AddrMode::Register, Data::Byte, Some(Data::SByte), Some(0), 0),
                Operand::new(
                    3,
                    AddrMode::ByteDisplacement,
                    Data::Byte,
                    Some(Data::UHalf),
                    Some(1),
                    4,
                ),
            ];
            assert_instruction(cpu, 0x87, 6, "MOVB", Data::Byte);
            assert_eq!(cpu.ir.operands[0], expected_operands[0]);
            assert_eq!(cpu.ir.operands[1], expected_operands[1]);
        }
        {
            cpu.set_pc((BASE + 6) as u32);
            cpu.decode_instruction(bus).unwrap();
            let expected_operands = vec![
                Operand::new(
                    2,
                    AddrMode::ByteDisplacementDeferred,
                    Data::Byte,
                    None,
                    Some(2),
                    0x30,
                ),
                Operand::new(1, AddrMode::Register, Data::Byte, None, Some(3), 0),
            ];
            assert_instruction(cpu, 0x87, 4, "MOVB", Data::Byte);
            assert_eq!(cpu.ir.operands[0], expected_operands[0]);
            assert_eq!(cpu.ir.operands[1], expected_operands[1]);
        }
    })
}

#[test]
fn reads_register_operand_data() {
    {
        let program = [0x87, 0xe7, 0x40, 0xe2, 0x41]; // MOVB {sbyte}%r0,{uhalf}%r1
        do_with_program(&program, |cpu, mut bus| {
            cpu.r[0] = 0xff;
            cpu.decode_descriptor_operand(&mut bus, 0, Data::Byte, None, BASE + 1, false)
                .unwrap();
            assert_eq!(0xffffffff, cpu.read_op(bus, 0).unwrap());
        });
    }

    {
        let program = [0x87, 0x40, 0x41]; // MOVB %r0,%r1
        do_with_program(&program, |cpu, mut bus| {
            cpu.r[0] = 0xff;
            cpu.decode_descriptor_operand(&mut bus, 0, Data::Byte, None, BASE + 1, false)
                .unwrap();
            assert_eq!(0xff, cpu.read_op(bus, 0).unwrap());
        });
    }
}

#[test]
fn reads_positive_literal_operand_data() {
    let program = [0x87, 0x04, 0x44];
    do_with_program(&program, |cpu, mut bus| {
        cpu.decode_descriptor_operand(&mut bus, 0, Data::Byte, None, BASE + 1, false).unwrap();
        assert_eq!(4, cpu.read_op(bus, 0).unwrap() as i8);
    });
}

#[test]
fn reads_negative_literal_operand_data() {
    let program = [0x87, 0xff, 0x44];
    do_with_program(&program, |cpu, mut bus| {
        cpu.decode_descriptor_operand(&mut bus, 0, Data::Byte, None, BASE + 1, false).unwrap();
        assert_eq!(-1, cpu.read_op(bus, 0).unwrap() as i8);
    });
}

#[test]
fn reads_word_immediate_operand_data() {
    let program = [0x84, 0x4f, 0x78, 0x56, 0x34, 0x12, 0x43]; // MOVW &0x12345678,%r3
    do_with_program(&program, |cpu, mut bus| {
        cpu.decode_descriptor_operand(&mut bus, 0, Data::Word, None, BASE + 1, false).unwrap();
        assert_eq!(0x12345678, cpu.read_op(bus, 0).unwrap())
    });
}

#[test]
fn reads_halfword_immediate_operand_data() {
    let program = [0x84, 0x5f, 0x34, 0x12, 0x42]; // MOVW &0x1234,%r2
    do_with_program(&program, |cpu, mut bus| {
        cpu.decode_descriptor_operand(&mut bus, 0, Data::Word, None, BASE + 1, false).unwrap();
        assert_eq!(0x1234, cpu.read_op(bus, 0).unwrap())
    });
}

#[test]
fn reads_negative_halfword_immediate_operand_data() {
    let program = [0x84, 0x5f, 0x00, 0x80, 0x42]; // MOVW &0x8000,%r2
    do_with_program(&program, |cpu, mut bus| {
        cpu.decode_descriptor_operand(&mut bus, 0, Data::Word, None, BASE + 1, false).unwrap();
        assert_eq!(0xffff8000, cpu.read_op(bus, 0).unwrap())
    });
}

#[test]
fn reads_byte_immediate_operand_data() {
    let program = [0x84, 0x6f, 0x28, 0x42]; // MOVW &40,%r2
    do_with_program(&program, |cpu, mut bus| {
        cpu.decode_descriptor_operand(&mut bus, 0, Data::Word, None, BASE + 1, false).unwrap();
        assert_eq!(40, cpu.read_op(bus, 0).unwrap())
    });
}

#[test]
fn reads_negative_byte_immediate_operand_data() {
    let program = [0x84, 0x6f, 0xff, 0x42]; // MOVW &-1,%r2
    do_with_program(&program, |cpu, mut bus| {
        cpu.decode_descriptor_operand(&mut bus, 0, Data::Word, None, BASE + 1, false).unwrap();
        assert_eq!(-1, cpu.read_op(bus, 0).unwrap() as i32)
    });
}

#[test]
fn reads_absolute_operand_data() {
    let program = [0x87, 0x7f, 0x00, 0x02, 0x70, 0x00, 0x04]; // MOVB $0x700200,%r0
    do_with_program(&program, |cpu, mut bus| {
        bus.write_byte(0x700200, 0x5a).unwrap();
        cpu.decode_descriptor_operand(&mut bus, 0, Data::Byte, None, BASE + 1, false).unwrap();
        assert_eq!(0x5a, cpu.read_op(bus, 0).unwrap());
    });
}

#[test]
fn reads_absolute_deferred_operand_data() {
    let program = [0x87, 0xef, 0x00, 0x01, 0x70, 0x00, 0x41]; // MOVB *$0x700100,%r0
    do_with_program(&program, |cpu, mut bus| {
        bus.write_word(0x700100, 0x700300).unwrap();
        bus.write_byte(0x700300, 0x1f).unwrap();
        cpu.decode_descriptor_operand(&mut bus, 0, Data::Byte, None, BASE + 1, false).unwrap();
        assert_eq!(0x1f, cpu.read_op(bus, 0).unwrap());
    });
}

#[test]
fn reads_byte_displacement_operand_data() {
    let program = [
        0x87, 0xc1, 0x06, 0x40, // MOVB 6(%r1),%r0
        0x87, 0xc1, 0xfe, 0x40, // MOVB -2(%r1),%r0
    ];
    do_with_program(&program, |cpu, mut bus| {
        cpu.r[1] = 0x700200;
        bus.write_byte(0x700206, 0x1f).unwrap();
        bus.write_byte(0x7001fe, 0xc5).unwrap();
        cpu.decode_descriptor_operand(&mut bus, 0, Data::Byte, None, BASE + 1, false).unwrap();
        assert_eq!(0x1f, cpu.read_op(bus, 0).unwrap());
        cpu.decode_descriptor_operand(&mut bus, 0, Data::Byte, None, BASE + 5, false).unwrap();
        assert_eq!(0xc5, cpu.read_op(bus, 0).unwrap());
    });
}

#[test]
fn reads_byte_displacement_deferred_operand_data() {
    let program = [0x87, 0xd2, 0x30, 0x43]; // MOVB *0x30(%r2),%r3
    do_with_program(&program, |cpu, mut bus| {
        cpu.r[2] = 0x700200;
        bus.write_word(0x700230, 0x700300).unwrap();
        bus.write_byte(0x700300, 0x5a).unwrap();
        cpu.decode_descriptor_operand(&mut bus, 0, Data::Byte, None, BASE + 1, false).unwrap();
        assert_eq!(0x5a, cpu.read_op(bus, 0).unwrap());
    })
}

#[test]
fn reads_halword_displacement_operand_data() {
    let program = [0x87, 0xa2, 0x01, 0x11, 0x48]; // MOVB 0x1101(%r2),%r8
    do_with_program(&program, |cpu, mut bus| {
        cpu.r[2] = 0x700000;
        bus.write_byte(0x701101, 0x1f).unwrap();
        cpu.decode_descriptor_operand(&mut bus, 0, Data::Byte, None, BASE + 1, false).unwrap();
        assert_eq!(0x1f, cpu.read_op(bus, 0).unwrap());
    });
}

#[test]
fn reads_halfword_displacement_deferred_operand_data() {
    let program = [0x87, 0xb2, 0x00, 0x02, 0x46]; // MOVB *0x200(%r2),%r6
    do_with_program(&program, |cpu, mut bus| {
        cpu.r[2] = 0x700000;
        bus.write_word(0x700200, 0x700500).unwrap();
        bus.write_byte(0x700500, 0x5a).unwrap();
        cpu.decode_descriptor_operand(&mut bus, 0, Data::Byte, None, BASE + 1, false).unwrap();
        assert_eq!(0x5a, cpu.read_op(bus, 0).unwrap());
    })
}

#[test]
fn reads_word_displacement_operand_data() {
    let program = [0x87, 0x82, 0x01, 0x11, 0x00, 0x00, 0x48]; // MOVB 0x1101(%r2),%r8
    do_with_program(&program, |cpu, mut bus| {
        cpu.r[2] = 0x700000;
        bus.write_byte(0x701101, 0x1f).unwrap();
        cpu.decode_descriptor_operand(&mut bus, 0, Data::Byte, None, BASE + 1, false).unwrap();
        assert_eq!(0x1f, cpu.read_op(bus, 0).unwrap());
    });
}

#[test]
fn reads_word_displacement_deferred_operand_data() {
    let program = [0x87, 0x92, 0x00, 0x02, 0x00, 0x00, 0x46]; // MOVB *0x200(%r2),%r6
    do_with_program(&program, |cpu, mut bus| {
        cpu.r[2] = 0x700000;
        bus.write_word(0x700200, 0x700500).unwrap();
        bus.write_byte(0x700500, 0x5a).unwrap();
        cpu.decode_descriptor_operand(&mut bus, 0, Data::Byte, None, BASE + 1, false).unwrap();
        assert_eq!(0x5a, cpu.read_op(bus, 0).unwrap());
    })
}

#[test]
fn reads_ap_short_offset_operand_data() {
    let program = [0x84, 0x74, 0x43]; // MOVW 4(%ap),%r3
    do_with_program(&program, |cpu, mut bus| {
        cpu.r[R_AP] = 0x700500;
        bus.write_word(0x700504, 0x12345678).unwrap();
        cpu.decode_descriptor_operand(&mut bus, 0, Data::Word, None, BASE + 1, false).unwrap();
        assert_eq!(0x12345678, cpu.read_op(bus, 0).unwrap());
    });
}

#[test]
fn reads_fp_short_offset_operand_data() {
    let program = [0x84, 0x6c, 0x40]; // MOVW 12(%fp),%r0
    do_with_program(&program, |cpu, mut bus| {
        cpu.r[R_FP] = 0x700200;
        bus.write_word(0x70020c, 0x12345678).unwrap();
        cpu.decode_descriptor_operand(&mut bus, 0, Data::Word, None, BASE + 1, false).unwrap();
        assert_eq!(0x12345678, cpu.read_op(bus, 0).unwrap());
    });
}

#[test]
fn writes_register_operand_data() {
    let program = [0x40];
    do_with_program(&program, |cpu, mut bus| {
        cpu.r[0] = 0;
        cpu.decode_descriptor_operand(&mut bus, 0, Data::Byte, None, BASE, false).unwrap();
        cpu.write_op(bus, 0, 0x5a).unwrap();
        assert_eq!(0x5a, cpu.r[0]);
    });
}
