//! The instruction decoder, verified against the model of
//! [`crate::decode_model`].

use crate::bus::Bus;
use crate::bus_model::BusState;
use crate::cpu::{illegal_opcode, Cpu};
use crate::cpu_model::{lifted, Run, R_AP, R_FP, R_PC};
use crate::decode_model::{descriptor_of, operand_size, Descriptor, Extra, Shape};
use crate::device::AccessCode;
use crate::err::CpuError;
use crate::instr::{byte_mnemonic, halfword_mnemonic, AddrMode, Data, Mnemonic, OpType};
use vstd::prelude::*;

verus! {

/// Reads a descriptor byte.
pub fn classify(d: u8) -> (r: Descriptor)
    ensures
        r == descriptor_of(d),
{
    let m: u8 = (d & 0xf0) >> 4;
    let r: u8 = d & 0xf;
    if m <= 3 {
        operand(AddrMode::PositiveLiteral, None, Extra::Zero, d as u32)
    } else if m == 4 {
        if r == 15 {
            operand(AddrMode::WordImmediate, None, Extra::Word, 0)
        } else {
            operand(AddrMode::Register, Some(r as usize), Extra::Zero, 0)
        }
    } else if m == 5 {
        if r == 15 {
            operand(AddrMode::HalfwordImmediate, None, Extra::Half, 0)
        } else if r == 11 {
            Descriptor::Illegal
        } else {
            operand(AddrMode::RegisterDeferred, Some(r as usize), Extra::Zero, 0)
        }
    } else if m == 6 {
        if r == 15 {
            operand(AddrMode::ByteImmediate, None, Extra::Byte, 0)
        } else {
            operand(AddrMode::FpShortOffset, Some(R_FP), Extra::Zero, r as u32)
        }
    } else if m == 7 {
        if r == 15 {
            operand(AddrMode::Absolute, None, Extra::Word, 0)
        } else {
            operand(AddrMode::ApShortOffset, Some(R_AP), Extra::Zero, r as u32)
        }
    } else if m == 14 {
        if r == 0 {
            Descriptor::Expand(Data::UWord)
        } else if r == 2 {
            Descriptor::Expand(Data::UHalf)
        } else if r == 3 {
            Descriptor::Expand(Data::Byte)
        } else if r == 4 {
            Descriptor::Expand(Data::Word)
        } else if r == 6 {
            Descriptor::Expand(Data::Half)
        } else if r == 7 {
            Descriptor::Expand(Data::SByte)
        } else if r == 15 {
            operand(AddrMode::AbsoluteDeferred, None, Extra::Word, 0)
        } else {
            Descriptor::Illegal
        }
    } else if m == 15 {
        operand(AddrMode::NegativeLiteral, None, Extra::Zero, d as u32)
    } else if r == 11 {
        Descriptor::Illegal
    } else if m == 8 {
        operand(AddrMode::WordDisplacement, Some(r as usize), Extra::Word, 0)
    } else if m == 9 {
        operand(AddrMode::WordDisplacementDeferred, Some(r as usize), Extra::Word, 0)
    } else if m == 10 {
        operand(AddrMode::HalfwordDisplacement, Some(r as usize), Extra::Half, 0)
    } else if m == 11 {
        operand(AddrMode::HalfwordDisplacementDeferred, Some(r as usize), Extra::Half, 0)
    } else if m == 12 {
        operand(AddrMode::ByteDisplacement, Some(r as usize), Extra::Byte, 0)
    } else {
        operand(AddrMode::ByteDisplacementDeferred, Some(r as usize), Extra::Byte, 0)
    }
}

fn operand(mode: AddrMode, register: Option<usize>, extra: Extra, embedded: u32) -> (r: Descriptor)
    ensures
        r == crate::decode_model::shape(mode, register, extra, embedded),
{
    Descriptor::Operand(Shape { mode, register, extra, embedded })
}

fn size_of_operand(sh: &Shape, recur: bool) -> (r: u8)
    ensures
        r == operand_size(*sh, recur),
{
    let dsize: u8 = if recur {
        2
    } else {
        1
    };
    match sh.mode {
        AddrMode::NegativeLiteral => 1,
        _ => match sh.extra {
            Extra::Zero => dsize,
            Extra::Byte => dsize + 1,
            Extra::Half => dsize + 2,
            Extra::Word => dsize + 4,
        },
    }
}

fn op_byte(bus: &mut Bus, address: usize, access: AccessCode) -> (r: Result<u8, CpuError>)
    requires
        old(bus).wf(),
    ensures
        final(bus).wf(),
        (final(bus)@, r) == lifted(old(bus)@.read_byte(address)),
        r is Ok ==> address < 0x800000,
{
    reveal(BusState::read_byte);
    match bus.read_byte(address, access) {
        Ok(v) => Ok(v),
        Err(e) => Err(CpuError::Bus(e)),
    }
}

fn op_half(bus: &mut Bus, address: usize) -> (r: Result<u16, CpuError>)
    requires
        old(bus).wf(),
    ensures
        final(bus).wf(),
        (final(bus)@, r) == lifted(old(bus)@.read_op_half(address)),
{
    match bus.read_op_half(address) {
        Ok(v) => Ok(v),
        Err(e) => Err(CpuError::Bus(e)),
    }
}

fn op_word(bus: &mut Bus, address: usize) -> (r: Result<u32, CpuError>)
    requires
        old(bus).wf(),
    ensures
        final(bus).wf(),
        (final(bus)@, r) == lifted(old(bus)@.read_op_word(address)),
{
    match bus.read_op_word(address) {
        Ok(v) => Ok(v),
        Err(e) => Err(CpuError::Bus(e)),
    }
}

impl Cpu {
    fn fetch_embedded(&mut self, bus: &mut Bus, sh: &Shape, address: usize) -> (r: Result<
        u32,
        CpuError,
    >)
        requires
            old(bus).wf(),
        ensures
            final(bus).wf(),
            final(self)@ == old(self)@,
            Run::start(old(self)@, old(bus)@).fetch_embedded(*sh, address).0.bus == final(bus)@,
            match r {
                Ok(v) => Run::start(old(self)@, old(bus)@).fetch_embedded(*sh, address).0.fault
                    is None && Run::start(old(self)@, old(bus)@).fetch_embedded(*sh, address).1
                    == v,
                Err(e) => Run::start(old(self)@, old(bus)@).fetch_embedded(*sh, address).0.fault
                    == Some(e),
            },
    {
        match sh.extra {
            Extra::Zero => Ok(sh.embedded),
            Extra::Byte => {
                let b: u8 = op_byte(bus, address, AccessCode::OperandFetch)?;
                Ok(b as u32)
            },
            Extra::Half => {
                let h: u16 = op_half(bus, address)?;
                Ok(h as u32)
            },
            Extra::Word => op_word(bus, address),
        }
    }

    /// Decodes a literal operand: an immediate value that follows the
    /// opcode without a descriptor byte.
    pub fn decode_literal_operand(
        &mut self,
        bus: &mut Bus,
        index: usize,
        mn: &Mnemonic,
        addr: usize,
    ) -> (r: Result<(), CpuError>)
        requires
            index < 4,
            old(bus).wf(),
        ensures
            final(bus).wf(),
            Run::start(old(self)@, old(bus)@).decode_literal_operand(
                index as int,
                mn.dtype,
                addr,
            ).done(final(self)@, final(bus)@, r),
    {
        match mn.dtype {
            Data::Byte => {
                let b: u8 = op_byte(bus, addr, AccessCode::OperandFetch)?;
                self.set_operand(index, 1, AddrMode::NoMode, Data::Byte, None, None, b as u32);
            },
            Data::Half => {
                let h: u16 = op_half(bus, addr)?;
                self.set_operand(index, 2, AddrMode::NoMode, Data::Half, None, None, h as u32);
            },
            Data::Word => {
                let w: u32 = op_word(bus, addr)?;
                self.set_operand(index, 4, AddrMode::NoMode, Data::Word, None, None, w);
            },
            _ => return Err(illegal_opcode()),
        }
        Ok(())
    }

    /// Decodes a descriptor operand.
    pub fn decode_descriptor_operand(
        &mut self,
        bus: &mut Bus,
        index: usize,
        dtype: Data,
        etype: Option<Data>,
        addr: usize,
        recur: bool,
    ) -> (r: Result<(), CpuError>)
        requires
            index < 4,
            old(bus).wf(),
        ensures
            final(bus).wf(),
            Run::start(old(self)@, old(bus)@).decode_descriptor_operand(
                index as int,
                dtype,
                etype,
                addr,
                recur,
            ).done(final(self)@, final(bus)@, r),
        decreases
                (if recur {
                    0nat
                } else {
                    1nat
                }),
    {
        let descriptor_byte: u8 = op_byte(bus, addr, AccessCode::OperandFetch)?;
        match classify(descriptor_byte) {
            Descriptor::Illegal => Err(illegal_opcode()),
            Descriptor::Expand(t) => {
                if recur {
                    Err(illegal_opcode())
                } else {
                    self.decode_descriptor_operand(bus, index, dtype, Some(t), addr + 1, true)
                }
            },
            Descriptor::Operand(sh) => {
                let v: u32 = self.fetch_embedded(bus, &sh, addr + 1)?;
                self.set_operand(
                    index,
                    size_of_operand(&sh, recur),
                    sh.mode,
                    dtype,
                    etype,
                    sh.register,
                    v,
                );
                Ok(())
            },
        }
    }

    /// Decodes one operand of an instruction, by its kind.
    pub fn decode_operand(
        &mut self,
        bus: &mut Bus,
        index: usize,
        mn: &Mnemonic,
        ot: OpType,
        etype: Option<Data>,
        addr: usize,
    ) -> (r: Result<(), CpuError>)
        requires
            index < 4,
            old(bus).wf(),
        ensures
            final(bus).wf(),
            Run::start(old(self)@, old(bus)@).decode_operand(
                index as int,
                mn.dtype,
                ot,
                etype,
                addr,
            ).done(final(self)@, final(bus)@, r),
    {
        match ot {
            OpType::Lit => self.decode_literal_operand(bus, index, mn, addr),
            OpType::Src | OpType::Dest => self.decode_descriptor_operand(
                bus,
                index,
                mn.dtype,
                etype,
                addr,
                false,
            ),
            OpType::NoOp => Ok(()),
        }
    }

    /// Decodes the operands of an instruction that begins at `base` and
    /// is `length` bytes long so far, and returns its whole length.
    fn decode_operands(&mut self, bus: &mut Bus, mn: &Mnemonic, base: usize, length: u8) -> (r:
        Result<u8, CpuError>)
        requires
            base < 0x800000,
            old(bus).wf(),
        ensures
            final(bus).wf(),
            Run::ends(
                Run::start(old(self)@, old(bus)@).decode_operands(*mn, 0, None, base, length),
                final(self)@,
                final(bus)@,
                r,
            ),
    {
        let ghost goal = Run::start(old(self)@, old(bus)@).decode_operands(
            *mn,
            0,
            None,
            base,
            length,
        );
        let mut index: usize = 0;
        let mut etype: Option<Data> = None;
        let mut total: u8 = length;
        let mut more: bool = true;
        while more && index < 4
            invariant
                bus.wf(),
                base < 0x800000,
                index <= 4,
                goal == Run::start(old(self)@, old(bus)@).decode_operands(
                    *mn,
                    0,
                    None,
                    base,
                    length,
                ),
                more ==> Run::start(self@, bus@).decode_operands(
                    *mn,
                    index as int,
                    etype,
                    base,
                    total,
                ) == goal,
                !more ==> goal == (Run::start(self@, bus@), total),
            decreases 4 - index + if more { 1nat } else { 0nat },
        {
            let ot: OpType = mn.ops[index];
            match ot {
                OpType::NoOp => {
                    more = false;
                },
                _ => {
                    self.decode_operand(bus, index, mn, ot, etype, base + total as usize)?;
                    etype = self.ir.operands[index].expanded_type;
                    total = total.wrapping_add(self.ir.operands[index].size);
                    index += 1;
                },
            }
        }
        Ok(total)
    }

    /// Decodes the instruction that the program counter points at.
    pub fn decode_instruction(&mut self, bus: &mut Bus) -> (r: Result<(), CpuError>)
        requires
            old(bus).wf(),
        ensures
            final(bus).wf(),
            Run::start(old(self)@, old(bus)@).decode_instruction().done(
                final(self)@,
                final(bus)@,
                r,
            ),
    {
        reveal(Run::decode_instruction);
        let addr: usize = self.r[R_PC] as usize;
        let b1: u8 = op_byte(bus, addr, AccessCode::InstrFetch)?;
        let (mn, length): (Option<Mnemonic>, u8) = if b1 == 0x30 {
            let b2: u8 = op_byte(bus, addr + 1, AccessCode::InstrFetch)?;
            (halfword_mnemonic((b1 as u16) << 8 | (b2 as u16)), 2)
        } else {
            (byte_mnemonic(b1), 1)
        };
        match mn {
            Some(mn) => {
                let total: u8 = self.decode_operands(bus, &mn, addr, length)?;
                self.ir.opcode = mn.opcode;
                self.ir.name = mn.name;
                self.ir.data_type = mn.dtype;
                self.ir.bytes = total;
                Ok(())
            },
            None => Err(illegal_opcode()),
        }
    }
}

} // verus!
