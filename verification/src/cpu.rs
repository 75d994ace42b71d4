//! The WE32100 processor: registers, flags, and the reading and writing
//! of operands, verified against the model of [`crate::cpu_model`].

use crate::bus::Bus;

use crate::cpu_model::{
    is_deferred, is_immediate, lifted, offset_by, register_of, sext16, sext8, truncated, typed,
    CpuState, InstrState, Run, F_C, F_CM, F_ISC, F_N, F_PM, F_V, F_Z, R_AP, R_FP, R_ISP, R_PC,
    R_PSW, R_SP,
};
use crate::device::AccessCode;
use crate::err::{CpuError, CpuException};
use crate::instr::{AddrMode, CpuLevel, Data, ErrorContext, Instruction, Operand};
use vstd::prelude::*;

verus! {

impl View for Instruction {
    type V = InstrState;

    open spec fn view(&self) -> InstrState {
        InstrState {
            opcode: self.opcode,
            name: self.name@,
            data_type: self.data_type,
            bytes: self.bytes,
            operands: self.operands@,
        }
    }
}

/// The processor.
pub struct Cpu {
    /// The sixteen registers.
    pub r: [u32; 16],
    pub error_context: ErrorContext,
    pub steps: u64,
    /// The instruction decoded last.
    pub ir: Instruction,
}

impl View for Cpu {
    type V = CpuState;

    open spec fn view(&self) -> CpuState {
        CpuState {
            r: self.r@,
            error_context: self.error_context,
            steps: self.steps,
            ir: self.ir@,
        }
    }
}

/// Continues a half-word's sign through the upper half of a word.
pub fn sign_extend_halfword(data: u16) -> (r: u32)
    ensures
        r == sext16(data),
{
    (data as i16) as i32 as u32
}

/// Continues a byte's sign through the upper three bytes of a word.
pub fn sign_extend_byte(data: u8) -> (r: u32)
    ensures
        r == sext8(data),
{
    (data as i8) as i32 as u32
}

/// Adds a signed offset to a value, modulo 2^32.
pub fn add_offset(val: u32, offset: u32) -> (r: u32)
    ensures
        r == offset_by(val, offset),
{
    val.wrapping_add(offset)
}

/// The value of type `t` that raw bits stand for.
pub fn extend(t: Data, raw: u32) -> (r: Option<u32>)
    ensures
        r == typed(t, raw),
{
    match t {
        Data::Word => Some(raw),
        Data::UWord => Some(raw),
        Data::Half => Some(sign_extend_halfword(raw as u16)),
        Data::UHalf => Some((raw as u16) as u32),
        Data::Byte => Some((raw as u8) as u32),
        Data::SByte => Some(sign_extend_byte(raw as u8)),
        Data::NoData => None,
    }
}

/// Cuts a value to the width of a data type.
pub fn truncate(t: Data, val: u32) -> (r: u32)
    ensures
        r == truncated(t, val),
{
    match t {
        Data::Half | Data::UHalf => val & 0xffff,
        Data::Byte | Data::SByte => val & 0xff,
        _ => val,
    }
}

fn deferred(mode: AddrMode) -> (r: bool)
    ensures
        r == is_deferred(mode),
{
    match mode {
        AddrMode::AbsoluteDeferred => true,
        AddrMode::WordDisplacementDeferred => true,
        AddrMode::HalfwordDisplacementDeferred => true,
        AddrMode::ByteDisplacementDeferred => true,
        _ => false,
    }
}

fn immediate(mode: AddrMode) -> (r: bool)
    ensures
        r == is_immediate(mode),
{
    match mode {
        AddrMode::PositiveLiteral => true,
        AddrMode::NegativeLiteral => true,
        AddrMode::WordImmediate => true,
        AddrMode::HalfwordImmediate => true,
        AddrMode::ByteImmediate => true,
        _ => false,
    }
}

fn register_index(op: &Operand) -> (r: Option<usize>)
    ensures
        r == register_of(*op),
{
    match op.register {
        Some(r) => if r < 16 {
            Some(r)
        } else {
            None
        },
        None => None,
    }
}

/// The error that an illegal opcode raises.
pub fn illegal_opcode() -> (e: CpuError)
    ensures
        e == CpuError::Exception(CpuException::IllegalOpcode),
{
    CpuError::Exception(CpuException::IllegalOpcode)
}

/// Reads a byte on the data path, with a fault of the bus turned into
/// a processor error.
pub fn fetch_byte(bus: &mut Bus, address: u32, access: AccessCode) -> (r: Result<u8, CpuError>)
    requires
        old(bus).wf(),
    ensures
        final(bus).wf(),
        (final(bus)@, r) == lifted(old(bus)@.read_byte(address as usize)),
{
    match bus.read_byte(address as usize, access) {
        Ok(v) => Ok(v),
        Err(e) => Err(CpuError::Bus(e)),
    }
}

/// Reads a half-word on the data path.
pub fn fetch_half(bus: &mut Bus, address: u32, access: AccessCode) -> (r: Result<u16, CpuError>)
    requires
        old(bus).wf(),
    ensures
        final(bus).wf(),
        (final(bus)@, r) == lifted(old(bus)@.read_half(address as usize)),
{
    match bus.read_half(address as usize, access) {
        Ok(v) => Ok(v),
        Err(e) => Err(CpuError::Bus(e)),
    }
}

/// Reads a word on the data path.
pub fn fetch_word(bus: &mut Bus, address: u32, access: AccessCode) -> (r: Result<u32, CpuError>)
    requires
        old(bus).wf(),
    ensures
        final(bus).wf(),
        (final(bus)@, r) == lifted(old(bus)@.read_word(address as usize)),
{
    match bus.read_word(address as usize, access) {
        Ok(v) => Ok(v),
        Err(e) => Err(CpuError::Bus(e)),
    }
}

/// Writes a byte on the data path.
pub fn store_byte(bus: &mut Bus, address: u32, val: u8) -> (r: Result<(), CpuError>)
    requires
        old(bus).wf(),
    ensures
        final(bus).wf(),
        (final(bus)@, r) == lifted(old(bus)@.write_byte(address as usize, val)),
{
    match bus.write_byte(address as usize, val) {
        Ok(v) => Ok(v),
        Err(e) => Err(CpuError::Bus(e)),
    }
}

/// Writes a half-word on the data path.
pub fn store_half(bus: &mut Bus, address: u32, val: u16) -> (r: Result<(), CpuError>)
    requires
        old(bus).wf(),
    ensures
        final(bus).wf(),
        (final(bus)@, r) == lifted(old(bus)@.write_half(address as usize, val)),
{
    match bus.write_half(address as usize, val) {
        Ok(v) => Ok(v),
        Err(e) => Err(CpuError::Bus(e)),
    }
}

/// Writes a word on the data path.
pub fn store_word(bus: &mut Bus, address: u32, val: u32) -> (r: Result<(), CpuError>)
    requires
        old(bus).wf(),
    ensures
        final(bus).wf(),
        (final(bus)@, r) == lifted(old(bus)@.write_word(address as usize, val)),
{
    match bus.write_word(address as usize, val) {
        Ok(v) => Ok(v),
        Err(e) => Err(CpuError::Bus(e)),
    }
}

impl Cpu {
    /// A processor after power-up.
    pub fn new() -> (cpu: Cpu)
        ensures
            cpu@ == CpuState::initial(),
    {
        let cpu = Cpu {
            r: [0; 16],
            error_context: ErrorContext::NoContext,
            steps: 0,
            ir: Instruction {
                opcode: 0,
                name: "???",
                data_type: Data::NoData,
                bytes: 0,
                operands: [
                    Operand::new(0, AddrMode::NoMode, Data::NoData, None, None, 0),
                    Operand::new(0, AddrMode::NoMode, Data::NoData, None, None, 0),
                    Operand::new(0, AddrMode::NoMode, Data::NoData, None, None, 0),
                    Operand::new(0, AddrMode::NoMode, Data::NoData, None, None, 0),
                ],
            },
        };
        assert(cpu@.r =~= CpuState::initial().r);
        assert(cpu@.ir.operands =~= CpuState::initial().ir.operands);
        cpu
    }

    /// Sets the program counter.
    pub fn set_pc(&mut self, val: u32)
        ensures
            final(self)@ == old(self)@.with_reg(R_PC, val),
    {
        self.r[R_PC] = val;
    }

    /// Fills an operand slot. The slot's data stays.
    pub fn set_operand(
        &mut self,
        index: usize,
        size: u8,
        mode: AddrMode,
        data_type: Data,
        expanded_type: Option<Data>,
        register: Option<usize>,
        embedded: u32,
    )
        requires
            index < 4,
        ensures
            final(self)@ == old(self)@.set_operand(
                index as int,
                size,
                mode,
                data_type,
                expanded_type,
                register,
                embedded,
            ),
    {
        self.ir.operands[index].size = size;
        self.ir.operands[index].mode = mode;
        self.ir.operands[index].data_type = data_type;
        self.ir.operands[index].expanded_type = expanded_type;
        self.ir.operands[index].register = register;
        self.ir.operands[index].embedded = embedded;
        assert(final(self)@.ir.operands =~= old(self)@.set_operand(
            index as int,
            size,
            mode,
            data_type,
            expanded_type,
            register,
            embedded,
        ).ir.operands);
    }

    fn set_data(&mut self, index: usize, data: u32)
        requires
            index < 4,
        ensures
            final(self)@ == old(self)@.with_data(index as int, data),
    {
        self.ir.operands[index].data = data;
        assert(final(self)@.ir.operands =~= old(self)@.with_data(index as int, data).ir.operands);
    }

    fn set_flag(&mut self, flag: u32, set: bool)
        ensures
            final(self)@ == old(self)@.with_flag(flag, set),
    {
        if set {
            self.r[R_PSW] |= flag;
        } else {
            self.r[R_PSW] &= !flag;
        }
    }

    /// Sets V as a result sets it at the width of an operand's declared
    /// type.
    pub fn set_v_flag_op(&mut self, val: u32, index: usize)
        requires
            index < 4,
        ensures
            final(self)@ == old(self)@.set_v_flag_op(val, index as int),
    {
        match self.ir.operands[index].data_type {
            Data::Word | Data::UWord => self.set_v_flag(false),
            Data::Half | Data::UHalf => self.set_v_flag(val > 0xffff),
            Data::Byte | Data::SByte => self.set_v_flag(val > 0xff),
            Data::NoData => {},
        }
    }

    /// Sets N and Z as a result sets them at the width of an operand's
    /// declared type.
    pub fn set_nz_flags(&mut self, val: u32, index: usize)
        requires
            index < 4,
        ensures
            final(self)@ == old(self)@.set_nz_flags(val, index as int),
    {
        match self.ir.operands[index].data_type {
            Data::Word | Data::UWord => {
                self.set_n_flag((val & 0x80000000) != 0);
                self.set_z_flag(val == 0);
            },
            Data::Half | Data::UHalf => {
                self.set_n_flag((val & 0x8000) != 0);
                self.set_z_flag((val & 0xffff) == 0);
            },
            Data::Byte | Data::SByte => {
                self.set_n_flag((val & 0x80) != 0);
                self.set_z_flag((val & 0xff) == 0);
            },
            Data::NoData => {},
        }
    }

    /// Sets or clears the carry flag.
    pub fn set_c_flag(&mut self, set: bool)
        ensures
            final(self)@ == old(self)@.with_flag(F_C, set),
    {
        self.set_flag(F_C, set);
    }

    /// The carry flag.
    pub fn c_flag(&self) -> (r: bool)
        ensures
            r == self@.c_flag(),
    {
        ((self.r[R_PSW] & F_C) >> 18) == 1
    }

    /// Sets or clears the overflow flag.
    pub fn set_v_flag(&mut self, set: bool)
        ensures
            final(self)@ == old(self)@.with_flag(F_V, set),
    {
        self.set_flag(F_V, set);
    }

    /// The overflow flag.
    pub fn v_flag(&self) -> (r: bool)
        ensures
            r == self@.v_flag(),
    {
        ((self.r[R_PSW] & F_V) >> 19) == 1
    }

    /// Sets or clears the zero flag.
    pub fn set_z_flag(&mut self, set: bool)
        ensures
            final(self)@ == old(self)@.with_flag(F_Z, set),
    {
        self.set_flag(F_Z, set);
    }

    /// The zero flag.
    pub fn z_flag(&self) -> (r: bool)
        ensures
            r == self@.z_flag(),
    {
        ((self.r[R_PSW] & F_Z) >> 20) == 1
    }

    /// Sets or clears the negative flag.
    pub fn set_n_flag(&mut self, set: bool)
        ensures
            final(self)@ == old(self)@.with_flag(F_N, set),
    {
        self.set_flag(F_N, set);
    }

    /// The negative flag.
    pub fn n_flag(&self) -> (r: bool)
        ensures
            r == self@.n_flag(),
    {
        ((self.r[R_PSW] & F_N) >> 21) == 1
    }

    /// Sets N, Z and V from a result and clears C.
    pub fn set_result_flags(&mut self, val: u32, index: usize)
        requires
            index < 4,
        ensures
            final(self)@ == old(self)@.set_result_flags(val, index as int),
    {
        self.set_nz_flags(val, index);
        self.set_c_flag(false);
        self.set_v_flag_op(val, index);
    }

    /// Sets N and Z from a result and clears C and V.
    pub fn set_plain_flags(&mut self, val: u32, index: usize)
        requires
            index < 4,
        ensures
            final(self)@ == old(self)@.set_plain_flags(val, index as int),
    {
        self.set_nz_flags(val, index);
        self.set_c_flag(false);
        self.set_v_flag(false);
    }

    /// Sets all four flags.
    pub fn set_nzcv(&mut self, n: bool, z: bool, c: bool, v: bool)
        ensures
            final(self)@ == old(self)@.set_nzcv(n, z, c, v),
    {
        self.set_n_flag(n);
        self.set_z_flag(z);
        self.set_c_flag(c);
        self.set_v_flag(v);
    }

    /// Sets the internal state code to the low four bits of `val`.
    pub fn set_isc(&mut self, val: u32)
        ensures
            final(self)@ == old(self)@.set_isc(val),
    {
        self.r[R_PSW] = (self.r[R_PSW] & !F_ISC) | ((val & 0xf) << 3);
    }

    /// Changes the privilege level.
    pub fn set_priv_level(&mut self, level: CpuLevel)
        ensures
            final(self)@ == old(self)@.set_priv_level(level),
    {
        let val: u32 = match level {
            CpuLevel::Kernel => 0,
            CpuLevel::Executive => 1,
            CpuLevel::Supervisor => 2,
            CpuLevel::User => 3,
        };
        let old_level: u32 = (self.r[R_PSW] & F_CM) >> 11;
        self.r[R_PSW] = (((self.r[R_PSW] & !F_PM) | ((old_level & 3) << 9)) & !F_CM) | ((val & 3)
            << 11);
    }

    /// The current privilege level.
    pub fn priv_level(&self) -> (level: CpuLevel)
        ensures
            level == self@.priv_level(),
    {
        let cm: u32 = ((self.r[R_PSW] & F_CM) >> 11) & 3;
        if cm == 0 {
            CpuLevel::Kernel
        } else if cm == 1 {
            CpuLevel::Executive
        } else if cm == 2 {
            CpuLevel::Supervisor
        } else {
            CpuLevel::User
        }
    }

    /// The program counter.
    pub fn get_pc(&self) -> (r: u32)
        ensures
            r == self@.r[R_PC as int],
    {
        self.r[R_PC]
    }

    /// The argument pointer.
    pub fn get_ap(&self) -> (r: u32)
        ensures
            r == self@.r[R_AP as int],
    {
        self.r[R_AP]
    }

    /// The processor status word.
    pub fn get_psw(&self) -> (r: u32)
        ensures
            r == self@.psw(),
    {
        self.r[R_PSW]
    }

    /// The number of instructions begun.
    pub fn get_steps(&self) -> (r: u64)
        ensures
            r == self@.steps,
    {
        self.steps
    }

    fn base_address(&self, index: usize) -> (r: Option<u32>)
        requires
            index < 4,
        ensures
            r == self@.base_address(index as int),
    {
        let embedded: u32 = self.ir.operands[index].embedded;
        match self.ir.operands[index].mode {
            AddrMode::Absolute | AddrMode::AbsoluteDeferred => Some(embedded),
            AddrMode::FpShortOffset => Some(
                add_offset(self.r[R_FP], sign_extend_byte(embedded as u8)),
            ),
            AddrMode::ApShortOffset => Some(
                add_offset(self.r[R_AP], sign_extend_byte(embedded as u8)),
            ),
            AddrMode::RegisterDeferred => match register_index(&self.ir.operands[index]) {
                Some(r) => Some(self.r[r]),
                None => None,
            },
            AddrMode::WordDisplacement | AddrMode::WordDisplacementDeferred => match register_index(
                &self.ir.operands[index],
            ) {
                Some(r) => Some(add_offset(self.r[r], embedded)),
                None => None,
            },
            AddrMode::HalfwordDisplacement
            | AddrMode::HalfwordDisplacementDeferred => match register_index(
                &self.ir.operands[index],
            ) {
                Some(r) => Some(add_offset(self.r[r], sign_extend_halfword(embedded as u16))),
                None => None,
            },
            AddrMode::ByteDisplacement | AddrMode::ByteDisplacementDeferred => match register_index(
                &self.ir.operands[index],
            ) {
                Some(r) => Some(add_offset(self.r[r], sign_extend_byte(embedded as u8))),
                None => None,
            },
            _ => None,
        }
    }

    /// Computes the effective address of an operand.
    pub fn effective_address(&mut self, bus: &mut Bus, index: usize) -> (r: Result<u32, CpuError>)
        requires
            index < 4,
            old(bus).wf(),
        ensures
            final(bus).wf(),
            Run::ends(
                Run::start(old(self)@, old(bus)@).effective_address(index as int),
                final(self)@,
                final(bus)@,
                r,
            ),
    {
        let base: u32 = match self.base_address(index) {
            Some(b) => b,
            None => return Err(illegal_opcode()),
        };
        let addr: u32 = if deferred(self.ir.operands[index].mode) {
            fetch_word(bus, base, AccessCode::AddressFetch)?
        } else {
            base
        };
        self.set_data(index, addr);
        Ok(addr)
    }

    /// Loads the value of type `t` stored at `address`.
    fn load(&mut self, bus: &mut Bus, t: Data, address: u32) -> (r: Result<u32, CpuError>)
        requires
            old(bus).wf(),
        ensures
            final(bus).wf(),
            final(self)@ == old(self)@,
            Run::start(old(self)@, old(bus)@).load(t, address).0.cpu == final(self)@,
            Run::start(old(self)@, old(bus)@).load(t, address).0.bus == final(bus)@,
            match r {
                Ok(v) => Run::start(old(self)@, old(bus)@).load(t, address).0.fault is None
                    && Run::start(old(self)@, old(bus)@).load(t, address).1 == v,
                Err(e) => Run::start(old(self)@, old(bus)@).load(t, address).0.fault == Some(e),
            },
    {
        match t {
            Data::Word | Data::UWord => fetch_word(bus, address, AccessCode::InstrFetch),
            Data::Half => {
                let h: u16 = fetch_half(bus, address, AccessCode::InstrFetch)?;
                Ok(sign_extend_halfword(h))
            },
            Data::UHalf => {
                let h: u16 = fetch_half(bus, address, AccessCode::InstrFetch)?;
                Ok(h as u32)
            },
            Data::Byte => {
                let b: u8 = fetch_byte(bus, address, AccessCode::InstrFetch)?;
                Ok(b as u32)
            },
            Data::SByte => {
                let b: u8 = fetch_byte(bus, address, AccessCode::InstrFetch)?;
                Ok(sign_extend_byte(b))
            },
            Data::NoData => Err(illegal_opcode()),
        }
    }

    /// Stores `val` at `address` in the width of type `t`.
    fn store(&mut self, bus: &mut Bus, t: Data, address: u32, val: u32) -> (r: Result<
        (),
        CpuError,
    >)
        requires
            old(bus).wf(),
        ensures
            final(bus).wf(),
            Run::start(old(self)@, old(bus)@).store(t, address, val).done(
                final(self)@,
                final(bus)@,
                r,
            ),
    {
        match t {
            Data::Word | Data::UWord => store_word(bus, address, val),
            Data::Half | Data::UHalf => store_half(bus, address, val as u16),
            Data::Byte | Data::SByte => store_byte(bus, address, val as u8),
            Data::NoData => Err(illegal_opcode()),
        }
    }

    /// Reads the value of an operand.
    pub fn read_op(&mut self, bus: &mut Bus, index: usize) -> (r: Result<u32, CpuError>)
        requires
            index < 4,
            old(bus).wf(),
        ensures
            final(bus).wf(),
            Run::ends(
                Run::start(old(self)@, old(bus)@).read_op(index as int),
                final(self)@,
                final(bus)@,
                r,
            ),
    {
        let op: Operand = self.ir.operands[index];
        match op.mode {
            AddrMode::Register => {
                let r: usize = match register_index(&op) {
                    Some(v) => v,
                    None => return Err(illegal_opcode()),
                };
                match extend(op.data_type(), self.r[r]) {
                    Some(v) => Ok(v),
                    None => Err(illegal_opcode()),
                }
            },
            AddrMode::PositiveLiteral | AddrMode::NegativeLiteral => Ok(
                sign_extend_byte(op.embedded as u8),
            ),
            AddrMode::WordImmediate => Ok(op.embedded),
            AddrMode::HalfwordImmediate => Ok(sign_extend_halfword(op.embedded as u16)),
            AddrMode::ByteImmediate => Ok(sign_extend_byte(op.embedded as u8)),
            _ => {
                let eff: u32 = self.effective_address(bus, index)?;
                self.load(bus, op.data_type(), eff)
            },
        }
    }

    /// Writes a value to an operand.
    pub fn write_op(&mut self, bus: &mut Bus, index: usize, val: u32) -> (r: Result<(), CpuError>)
        requires
            index < 4,
            old(bus).wf(),
        ensures
            final(bus).wf(),
            Run::start(old(self)@, old(bus)@).write_op(index as int, val).done(
                final(self)@,
                final(bus)@,
                r,
            ),
    {
        let op: Operand = self.ir.operands[index];
        match op.mode {
            AddrMode::Register => match register_index(&op) {
                Some(r) => {
                    self.r[r] = truncate(op.data_type(), val);
                },
                None => return Err(illegal_opcode()),
            },
            _ => {
                if immediate(op.mode) {
                    return Err(illegal_opcode());
                }
                let eff: u32 = self.effective_address(bus, index)?;
                self.store(bus, op.data_type(), eff, val)?;
            },
        }
        self.set_data(index, val);
        Ok(())
    }

    fn push(&mut self, bus: &mut Bus, pointer: usize, val: u32) -> (r: Result<(), CpuError>)
        requires
            pointer < 16,
            old(bus).wf(),
        ensures
            final(bus).wf(),
            Run::start(old(self)@, old(bus)@).push(pointer, val).done(final(self)@, final(bus)@, r),
    {
        store_word(bus, self.r[pointer], val)?;
        self.r[pointer] = self.r[pointer].wrapping_add(4);
        Ok(())
    }

    fn pop(&mut self, bus: &mut Bus, pointer: usize) -> (r: Result<u32, CpuError>)
        requires
            pointer < 16,
            old(bus).wf(),
        ensures
            final(bus).wf(),
            Run::ends(
                Run::start(old(self)@, old(bus)@).pop(pointer),
                final(self)@,
                final(bus)@,
                r,
            ),
    {
        let result: u32 = fetch_word(
            bus,
            self.r[pointer].wrapping_sub(4),
            AccessCode::AddressFetch,
        )?;
        self.r[pointer] = self.r[pointer].wrapping_sub(4);
        Ok(result)
    }

    /// Pushes a word onto the stack.
    pub fn stack_push(&mut self, bus: &mut Bus, val: u32) -> (r: Result<(), CpuError>)
        requires
            old(bus).wf(),
        ensures
            final(bus).wf(),
            Run::start(old(self)@, old(bus)@).push(R_SP, val).done(final(self)@, final(bus)@, r),
    {
        self.push(bus, R_SP, val)
    }

    /// Pops a word from the stack.
    pub fn stack_pop(&mut self, bus: &mut Bus) -> (r: Result<u32, CpuError>)
        requires
            old(bus).wf(),
        ensures
            final(bus).wf(),
            Run::ends(Run::start(old(self)@, old(bus)@).pop(R_SP), final(self)@, final(bus)@, r),
    {
        self.pop(bus, R_SP)
    }

    /// Pushes a word onto the interrupt stack.
    pub fn irq_push(&mut self, bus: &mut Bus, val: u32) -> (r: Result<(), CpuError>)
        requires
            old(bus).wf(),
        ensures
            final(bus).wf(),
            Run::start(old(self)@, old(bus)@).push(R_ISP, val).done(final(self)@, final(bus)@, r),
    {
        self.push(bus, R_ISP, val)
    }

    /// Pops a word from the interrupt stack.
    pub fn irq_pop(&mut self, bus: &mut Bus) -> (r: Result<u32, CpuError>)
        requires
            old(bus).wf(),
        ensures
            final(bus).wf(),
            Run::ends(Run::start(old(self)@, old(bus)@).irq_pop(), final(self)@, final(bus)@, r),
    {
        self.r[R_ISP] = self.r[R_ISP].wrapping_sub(4);
        fetch_word(bus, self.r[R_ISP], AccessCode::AddressFetch)
    }
}

impl Default for Cpu {
    fn default() -> (cpu: Cpu)
        ensures
            cpu@ == CpuState::initial(),
    {
        Cpu::new()
    }
}

} // verus!
