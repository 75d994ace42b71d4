//! The mathematical model of the instruction decoder: the opcode, one
//! byte or two, and up to four operands, each a literal behind the
//! opcode or a descriptor byte with the bytes that its mode asks for.

use crate::cpu_model::{CpuState, InstrState, Run, R_AP, R_FP, R_PC};
use crate::instr::{byte_entry, halfword_entry, AddrMode, Data, Mnemonic, OpType};
use vstd::prelude::*;

verus! {

/// The bytes that follow a descriptor byte.
#[derive(Eq, PartialEq, Debug, Copy, Clone)]
pub enum Extra {
    Zero,
    Byte,
    Half,
    Word,
}

/// What a descriptor byte says of its operand.
#[derive(Eq, PartialEq, Debug, Copy, Clone)]
pub struct Shape {
    pub mode: AddrMode,
    pub register: Option<usize>,
    /// The bytes that follow and hold the embedded value.
    pub extra: Extra,
    /// The embedded value where no bytes follow.
    pub embedded: u32,
}

/// The three kinds of descriptor byte.
#[derive(Eq, PartialEq, Debug, Copy, Clone)]
pub enum Descriptor {
    /// The descriptor of an operand.
    Operand(Shape),
    /// An expanded-type prefix: the descriptor proper follows, and the
    /// operand takes this data type in place of the instruction's.
    Expand(Data),
    Illegal,
}

/// The shape with the given fields.
pub open spec fn shape(mode: AddrMode, register: Option<usize>, extra: Extra, embedded: u32) -> Descriptor {
    Descriptor::Operand(Shape { mode, register, extra, embedded })
}

/// The meaning of a descriptor byte: its high nibble `m` picks the
/// mode, its low nibble `r` a register or, with 15, an immediate or
/// absolute form. Register 11, the status word, is refused by the
/// deferred and displacement modes.
pub open spec fn descriptor_of(d: u8) -> Descriptor {
    let m = (d & 0xf0) >> 4;
    let r = d & 0xf;
    if m <= 3 {
        shape(AddrMode::PositiveLiteral, None, Extra::Zero, d as u32)
    } else if m == 4 {
        if r == 15 {
            shape(AddrMode::WordImmediate, None, Extra::Word, 0)
        } else {
            shape(AddrMode::Register, Some(r as usize), Extra::Zero, 0)
        }
    } else if m == 5 {
        if r == 15 {
            shape(AddrMode::HalfwordImmediate, None, Extra::Half, 0)
        } else if r == 11 {
            Descriptor::Illegal
        } else {
            shape(AddrMode::RegisterDeferred, Some(r as usize), Extra::Zero, 0)
        }
    } else if m == 6 {
        if r == 15 {
            shape(AddrMode::ByteImmediate, None, Extra::Byte, 0)
        } else {
            shape(AddrMode::FpShortOffset, Some(R_FP), Extra::Zero, r as u32)
        }
    } else if m == 7 {
        if r == 15 {
            shape(AddrMode::Absolute, None, Extra::Word, 0)
        } else {
            shape(AddrMode::ApShortOffset, Some(R_AP), Extra::Zero, r as u32)
        }
    } else if m == 14 {
        if r == 0 {
            Descriptor::Expand(Data::UWord)
        } else if r == 2 {
            Descriptor::Expand(Data::UHalf)
        } else if r == 3 {
            Descriptor::Expand(Data::Byte)
        } else if r == 4 {
            Descriptor::Expand(Data::Word)
        } else if r == 6 {
            Descriptor::Expand(Data::Half)
        } else if r == 7 {
            Descriptor::Expand(Data::SByte)
        } else if r == 15 {
            shape(AddrMode::AbsoluteDeferred, None, Extra::Word, 0)
        } else {
            Descriptor::Illegal
        }
    } else if m == 15 {
        shape(AddrMode::NegativeLiteral, None, Extra::Zero, d as u32)
    } else if r == 11 {
        Descriptor::Illegal
    } else if m == 8 {
        shape(AddrMode::WordDisplacement, Some(r as usize), Extra::Word, 0)
    } else if m == 9 {
        shape(AddrMode::WordDisplacementDeferred, Some(r as usize), Extra::Word, 0)
    } else if m == 10 {
        shape(AddrMode::HalfwordDisplacement, Some(r as usize), Extra::Half, 0)
    } else if m == 11 {
        shape(AddrMode::HalfwordDisplacementDeferred, Some(r as usize), Extra::Half, 0)
    } else if m == 12 {
        shape(AddrMode::ByteDisplacement, Some(r as usize), Extra::Byte, 0)
    } else {
        shape(AddrMode::ByteDisplacementDeferred, Some(r as usize), Extra::Byte, 0)
    }
}

/// The number of bytes that follow a descriptor byte.
pub open spec fn extra_len(extra: Extra) -> u8 {
    match extra {
        Extra::Zero => 0,
        Extra::Byte => 1,
        Extra::Half => 2,
        Extra::Word => 4,
    }
}

/// The size noted for an operand: the descriptor, one byte or two with
/// an expanded-type prefix, and the bytes that follow it. A negative
/// literal always notes one.
pub open spec fn operand_size(sh: Shape, recur: bool) -> u8 {
    if sh.mode == AddrMode::NegativeLiteral {
        1
    } else {
        (extra_len(sh.extra) + if recur {
            2u8
        } else {
            1u8
        }) as u8
    }
}

impl Run {
    /// A byte of the instruction stream.
    pub open spec fn fetch_byte(self, address: usize) -> (Run, u8) {
        self.on_bus(self.bus.read_byte(address), 0u8)
    }

    /// A little-endian half-word of the instruction stream.
    pub open spec fn fetch_op_half(self, address: usize) -> (Run, u16) {
        self.on_bus(self.bus.read_op_half(address), 0u16)
    }

    /// A little-endian word of the instruction stream.
    pub open spec fn fetch_op_word(self, address: usize) -> (Run, u32) {
        self.on_bus(self.bus.read_op_word(address), 0u32)
    }

    /// The embedded value of an operand: the bytes at `address`, as
    /// many as the descriptor asks for, or the value that the descriptor
    /// itself gives.
    pub open spec fn fetch_embedded(self, sh: Shape, address: usize) -> (Run, u32) {
        match sh.extra {
            Extra::Zero => (self, sh.embedded),
            Extra::Byte => (self.fetch_byte(address).0, self.fetch_byte(address).1 as u32),
            Extra::Half => (self.fetch_op_half(address).0, self.fetch_op_half(address).1 as u32),
            Extra::Word => self.fetch_op_word(address),
        }
    }

    /// The decoding of a literal operand: an immediate value at
    /// `address`, as wide as the instruction's data type.
    pub open spec fn decode_literal_operand(self, index: int, dtype: Data, address: usize) -> Run {
        match dtype {
            Data::Byte => {
                let (s, b) = self.fetch_byte(address);
                s.with_cpu(
                    s.cpu.set_operand(index, 1, AddrMode::NoMode, Data::Byte, None, None, b as u32),
                )
            },
            Data::Half => {
                let (s, h) = self.fetch_op_half(address);
                s.with_cpu(
                    s.cpu.set_operand(index, 2, AddrMode::NoMode, Data::Half, None, None, h as u32),
                )
            },
            Data::Word => {
                let (s, w) = self.fetch_op_word(address);
                s.with_cpu(s.cpu.set_operand(index, 4, AddrMode::NoMode, Data::Word, None, None, w))
            },
            _ => self.illegal(),
        }
    }

    /// The decoding of a descriptor operand at `address`. `recur` says
    /// that an expanded-type prefix has been read already; a second one
    /// is illegal.
    pub open spec fn decode_descriptor_operand(
        self,
        index: int,
        dtype: Data,
        etype: Option<Data>,
        address: usize,
        recur: bool,
    ) -> Run
        decreases
                (if recur {
                    0nat
                } else {
                    1nat
                }),
    {
        let (s, d) = self.fetch_byte(address);
        if s.fault is Some {
            s
        } else {
            match descriptor_of(d) {
                Descriptor::Illegal => s.illegal(),
                Descriptor::Expand(t) => if recur {
                    s.illegal()
                } else {
                    s.decode_descriptor_operand(index, dtype, Some(t), (address + 1) as usize, true)
                },
                Descriptor::Operand(sh) => {
                    let (s2, v) = s.fetch_embedded(sh, (address + 1) as usize);
                    s2.with_cpu(
                        s2.cpu.set_operand(
                            index,
                            operand_size(sh, recur),
                            sh.mode,
                            dtype,
                            etype,
                            sh.register,
                            v,
                        ),
                    )
                },
            }
        }
    }

    /// The decoding of one operand of an instruction of data type
    /// `dtype`, by its kind.
    pub open spec fn decode_operand(
        self,
        index: int,
        dtype: Data,
        ot: OpType,
        etype: Option<Data>,
        address: usize,
    ) -> Run {
        match ot {
            OpType::Lit => self.decode_literal_operand(index, dtype, address),
            OpType::Src | OpType::Dest => self.decode_descriptor_operand(
                index,
                dtype,
                etype,
                address,
                false,
            ),
            OpType::NoOp => self,
        }
    }

    /// The decoding of the operands from slot `index` on, up to the
    /// first slot that the instruction leaves empty. The instruction
    /// begins at `base` and is `length` bytes long so far; the result is
    /// its length with the operands. An expanded type carries over to
    /// the operands behind it.
    pub open spec fn decode_operands(
        self,
        m: Mnemonic,
        index: int,
        etype: Option<Data>,
        base: usize,
        length: u8,
    ) -> (Run, u8)
        decreases 4 - index,
    {
        if self.fault is Some || index < 0 || index >= 4 || m.ops[index] == OpType::NoOp {
            (self, length)
        } else {
            let s = self.decode_operand(index, m.dtype, m.ops[index], etype, (base + length) as usize);
            if s.fault is Some {
                (s, length)
            } else {
                s.decode_operands(
                    m,
                    index + 1,
                    s.cpu.ir.operands[index].expanded_type,
                    base,
                    length.wrapping_add(s.cpu.ir.operands[index].size),
                )
            }
        }
    }

    /// The processor with a decoded instruction noted.
    pub open spec fn note_instruction(self, m: Mnemonic, bytes: u8) -> Run {
        self.with_cpu(
            CpuState {
                ir: InstrState {
                    opcode: m.opcode,
                    name: m.name@,
                    data_type: m.dtype,
                    bytes,
                    ..self.cpu.ir
                },
                ..self.cpu
            },
        )
    }

    /// The decoding of the instruction at the program counter. The
    /// byte 0x30 opens a two-byte opcode. An opcode that the table does
    /// not hold is illegal.
    #[verifier::opaque]
    pub open spec fn decode_instruction(self) -> Run {
        let pc = self.reg(R_PC) as usize;
        let (s1, b1) = self.fetch_byte(pc);
        if s1.fault is Some {
            s1
        } else if b1 == 0x30 {
            let (s2, b2) = s1.fetch_byte((pc + 1) as usize);
            if s2.fault is Some {
                s2
            } else {
                match halfword_entry((b1 as u16) << 8 | (b2 as u16)) {
                    None => s2.illegal(),
                    Some(m) => s2.decode_operands(m, 0, None, pc, 2).0.note_instruction(
                        m,
                        s2.decode_operands(m, 0, None, pc, 2).1,
                    ),
                }
            }
        } else {
            match byte_entry(b1) {
                None => s1.illegal(),
                Some(m) => s1.decode_operands(m, 0, None, pc, 1).0.note_instruction(
                    m,
                    s1.decode_operands(m, 0, None, pc, 1).1,
                ),
            }
        }
    }
}

} // verus!
