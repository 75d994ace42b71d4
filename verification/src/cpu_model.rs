//! The mathematical model of the WE32100 processor: its registers and
//! status word, and how operands are addressed, read and written.
//!
//! An instruction works on the processor and the bus together and may
//! stop half-way on a fault. The model therefore threads a [`Run`]
//! through every step: the two states and the fault, if one has come
//! up. A step applied to a run that has already faulted changes nothing.

use crate::bus_model::BusState;
use crate::err::{BusError, CpuError, CpuException};
use crate::instr::{AddrMode, CpuLevel, Data, ErrorContext, Operand};
use vstd::prelude::*;

verus! {

// Fields of the processor status word.
pub const F_ET: u32 = 0x00000003;

pub const F_TM: u32 = 0x00000004;

pub const F_ISC: u32 = 0x00000078;

pub const F_I: u32 = 0x00000080;

pub const F_R: u32 = 0x00000100;

pub const F_PM: u32 = 0x00000600;

pub const F_CM: u32 = 0x00001800;

pub const F_IPL: u32 = 0x0001e000;

pub const F_C: u32 = 0x00040000;

pub const F_V: u32 = 0x00080000;

pub const F_Z: u32 = 0x00100000;

pub const F_N: u32 = 0x00200000;

pub const F_CD: u32 = 0x00800000;

pub const F_QIE: u32 = 0x01000000;

pub const F_CFD: u32 = 0x02000000;

pub const O_ET: u32 = 0;

pub const O_TM: u32 = 2;

pub const O_ISC: u32 = 3;

// The registers with a fixed use.
pub const R_FP: usize = 9;

pub const R_AP: usize = 10;

pub const R_PSW: usize = 11;

pub const R_SP: usize = 12;

pub const R_PCBP: usize = 13;

pub const R_ISP: usize = 14;

pub const R_PC: usize = 15;

/// The version that the processor reports of itself.
pub const WE32100_VERSION: u32 = 0x1a;

/// The word that continues a half-word's sign through the upper half.
pub open spec fn sext16(data: u16) -> u32 {
    (data as i16) as i32 as u32
}

/// The word that continues a byte's sign through the upper three bytes.
pub open spec fn sext8(data: u8) -> u32 {
    (data as i8) as i32 as u32
}

/// `val` plus the signed `offset`, modulo 2^32.
pub open spec fn offset_by(val: u32, offset: u32) -> u32 {
    val.wrapping_add(offset)
}

/// The decoded instruction that the processor holds.
pub struct InstrState {
    pub opcode: u16,
    pub name: Seq<char>,
    pub data_type: Data,
    /// The length of the instruction in bytes.
    pub bytes: u8,
    /// The four operand slots.
    pub operands: Seq<Operand>,
}

/// The processor.
pub struct CpuState {
    /// The sixteen registers.
    pub r: Seq<u32>,
    pub error_context: ErrorContext,
    /// The number of instructions begun.
    pub steps: u64,
    pub ir: InstrState,
}

/// The register that an operand names, if it names one of the sixteen.
pub open spec fn register_of(op: Operand) -> Option<usize> {
    match op.register {
        Some(r) => if r < 16 {
            Some(r)
        } else {
            None
        },
        None => None,
    }
}

/// The value of effective type `t` that the raw bits `raw` stand for:
/// words as they are, half-words and bytes extended to a word by their
/// sign or by zeros. Nothing where the type is none.
pub open spec fn typed(t: Data, raw: u32) -> Option<u32> {
    match t {
        Data::Word => Some(raw),
        Data::UWord => Some(raw),
        Data::Half => Some(sext16(raw as u16)),
        Data::UHalf => Some((raw as u16) as u32),
        Data::Byte => Some((raw as u8) as u32),
        Data::SByte => Some(sext8(raw as u8)),
        Data::NoData => None,
    }
}

/// A value cut to the width of a data type. Where there is no type
/// there is nothing to cut to.
pub open spec fn truncated(t: Data, val: u32) -> u32 {
    match t {
        Data::Half | Data::UHalf => val & 0xffff,
        Data::Byte | Data::SByte => val & 0xff,
        _ => val,
    }
}

/// Whether an addressing mode reads the operand's address from memory.
pub open spec fn is_deferred(mode: AddrMode) -> bool {
    mode == AddrMode::AbsoluteDeferred || mode == AddrMode::WordDisplacementDeferred || mode
        == AddrMode::HalfwordDisplacementDeferred || mode == AddrMode::ByteDisplacementDeferred
}

/// Whether an operand carries its value in the instruction itself.
pub open spec fn is_immediate(mode: AddrMode) -> bool {
    mode == AddrMode::PositiveLiteral || mode == AddrMode::NegativeLiteral || mode
        == AddrMode::WordImmediate || mode == AddrMode::HalfwordImmediate || mode
        == AddrMode::ByteImmediate
}

impl CpuState {
    /// Sixteen registers and four operand slots.
    pub open spec fn wf(self) -> bool {
        self.r.len() == 16 && self.ir.operands.len() == 4
    }

    /// The processor after power-up: every register zero, no instruction
    /// decoded.
    pub open spec fn initial() -> CpuState {
        CpuState {
            r: Seq::new(16, |i: int| 0u32),
            error_context: ErrorContext::NoContext,
            steps: 0,
            ir: InstrState {
                opcode: 0,
                name: "???"@,
                data_type: Data::NoData,
                bytes: 0,
                operands: Seq::new(
                    4,
                    |i: int| Operand::spec_new(0, AddrMode::NoMode, Data::NoData, None, None, 0),
                ),
            },
        }
    }

    /// The processor with one register replaced.
    pub open spec fn with_reg(self, index: usize, val: u32) -> CpuState {
        CpuState { r: self.r.update(index as int, val), ..self }
    }

    /// The processor status word.
    pub open spec fn psw(self) -> u32 {
        self.r[R_PSW as int]
    }

    /// The processor with the status word replaced.
    pub open spec fn with_psw(self, val: u32) -> CpuState {
        self.with_reg(R_PSW, val)
    }

    /// The processor with a flag of the status word set or cleared.
    pub open spec fn with_flag(self, flag: u32, set: bool) -> CpuState {
        if set {
            self.with_psw(self.psw() | flag)
        } else {
            self.with_psw(self.psw() & !flag)
        }
    }

    /// The carry flag: bit 18 of the status word.
    pub open spec fn c_flag(self) -> bool {
        ((self.psw() & F_C) >> 18) == 1
    }

    /// The overflow flag: bit 19 of the status word.
    pub open spec fn v_flag(self) -> bool {
        ((self.psw() & F_V) >> 19) == 1
    }

    /// The zero flag: bit 20 of the status word.
    pub open spec fn z_flag(self) -> bool {
        ((self.psw() & F_Z) >> 20) == 1
    }

    /// The negative flag: bit 21 of the status word.
    pub open spec fn n_flag(self) -> bool {
        ((self.psw() & F_N) >> 21) == 1
    }

    /// The declared data type of an operand slot.
    pub open spec fn declared_type(self, index: int) -> Data {
        self.ir.operands[index].data_type
    }

    /// N and Z as a result `val` sets them at the width of an operand's
    /// declared type: N is the sign bit of that width, Z says that the
    /// bits of that width are all zero. No type, no change.
    pub open spec fn set_nz_flags(self, val: u32, index: int) -> CpuState {
        match self.declared_type(index) {
            Data::Word | Data::UWord => self.with_flag(F_N, (val & 0x80000000) != 0).with_flag(
                F_Z,
                val == 0,
            ),
            Data::Half | Data::UHalf => self.with_flag(F_N, (val & 0x8000) != 0).with_flag(
                F_Z,
                (val & 0xffff) == 0,
            ),
            Data::Byte | Data::SByte => self.with_flag(F_N, (val & 0x80) != 0).with_flag(
                F_Z,
                (val & 0xff) == 0,
            ),
            Data::NoData => self,
        }
    }

    /// V as a result `val` sets it at the width of an operand's declared
    /// type: the result does not fit the width. No type, no change.
    pub open spec fn set_v_flag_op(self, val: u32, index: int) -> CpuState {
        match self.declared_type(index) {
            Data::Word | Data::UWord => self.with_flag(F_V, false),
            Data::Half | Data::UHalf => self.with_flag(F_V, val > 0xffff),
            Data::Byte | Data::SByte => self.with_flag(F_V, val > 0xff),
            Data::NoData => self,
        }
    }

    /// The flags after a move or a logical result: N and Z from the
    /// result, C clear, V from the width.
    pub open spec fn set_result_flags(self, val: u32, index: int) -> CpuState {
        self.set_nz_flags(val, index).with_flag(F_C, false).set_v_flag_op(val, index)
    }

    /// The flags after a result that cannot overflow: N and Z from the
    /// result, C and V clear.
    pub open spec fn set_plain_flags(self, val: u32, index: int) -> CpuState {
        self.set_nz_flags(val, index).with_flag(F_C, false).with_flag(F_V, false)
    }

    /// All four flags at once.
    pub open spec fn set_nzcv(self, n: bool, z: bool, c: bool, v: bool) -> CpuState {
        self.with_flag(F_N, n).with_flag(F_Z, z).with_flag(F_C, c).with_flag(F_V, v)
    }

    /// The status word with the internal state code replaced by the low
    /// four bits of `val`.
    pub open spec fn set_isc(self, val: u32) -> CpuState {
        self.with_psw((self.psw() & !F_ISC) | ((val & 0xf) << 3))
    }

    /// The number that stands for a privilege level in the status word.
    pub open spec fn level_code(level: CpuLevel) -> u32 {
        match level {
            CpuLevel::Kernel => 0,
            CpuLevel::Executive => 1,
            CpuLevel::Supervisor => 2,
            CpuLevel::User => 3,
        }
    }

    /// A change of privilege level: the current level becomes the
    /// previous one, and `level` the current one.
    pub open spec fn set_priv_level(self, level: CpuLevel) -> CpuState {
        let old_level = (self.psw() & F_CM) >> 11;
        self.with_psw(
            (((self.psw() & !F_PM) | ((old_level & 3) << 9)) & !F_CM) | ((Self::level_code(level)
                & 3) << 11),
        )
    }

    /// The current privilege level: bits 12:11 of the status word.
    pub open spec fn priv_level(self) -> CpuLevel {
        let cm = ((self.psw() & F_CM) >> 11) & 3;
        if cm == 0 {
            CpuLevel::Kernel
        } else if cm == 1 {
            CpuLevel::Executive
        } else if cm == 2 {
            CpuLevel::Supervisor
        } else {
            CpuLevel::User
        }
    }

    /// The processor with one operand slot replaced.
    pub open spec fn with_operand(self, index: int, op: Operand) -> CpuState {
        CpuState { ir: InstrState { operands: self.ir.operands.update(index, op), ..self.ir }, ..self }
    }

    /// An operand slot filled by the decoder. The slot's data stays.
    pub open spec fn set_operand(
        self,
        index: int,
        size: u8,
        mode: AddrMode,
        data_type: Data,
        expanded_type: Option<Data>,
        register: Option<usize>,
        embedded: u32,
    ) -> CpuState {
        self.with_operand(
            index,
            Operand {
                size,
                mode,
                data_type,
                expanded_type,
                register,
                embedded,
                data: self.ir.operands[index].data,
            },
        )
    }

    /// An operand slot with the value last moved to or from it.
    pub open spec fn with_data(self, index: int, data: u32) -> CpuState {
        self.with_operand(index, Operand { data, ..self.ir.operands[index] })
    }

    /// The address that an operand names before any indirection, or
    /// nothing where its mode names none. Displacements are signed and
    /// added modulo 2^32.
    pub open spec fn base_address(self, index: int) -> Option<u32> {
        let op = self.ir.operands[index];
        match op.mode {
            AddrMode::Absolute | AddrMode::AbsoluteDeferred => Some(op.embedded),
            AddrMode::FpShortOffset => Some(
                offset_by(self.r[R_FP as int], sext8(op.embedded as u8)),
            ),
            AddrMode::ApShortOffset => Some(
                offset_by(self.r[R_AP as int], sext8(op.embedded as u8)),
            ),
            AddrMode::RegisterDeferred => match register_of(op) {
                Some(r) => Some(self.r[r as int]),
                None => None,
            },
            AddrMode::WordDisplacement | AddrMode::WordDisplacementDeferred => match register_of(
                op,
            ) {
                Some(r) => Some(offset_by(self.r[r as int], op.embedded)),
                None => None,
            },
            AddrMode::HalfwordDisplacement
            | AddrMode::HalfwordDisplacementDeferred => match register_of(op) {
                Some(r) => Some(offset_by(self.r[r as int], sext16(op.embedded as u16))),
                None => None,
            },
            AddrMode::ByteDisplacement | AddrMode::ByteDisplacementDeferred => match register_of(
                op,
            ) {
                Some(r) => Some(offset_by(self.r[r as int], sext8(op.embedded as u8))),
                None => None,
            },
            _ => None,
        }
    }
}

/// A bus result with its fault, if any, turned into a processor error.
pub open spec fn lifted<T>(res: (BusState, Result<T, BusError>)) -> (BusState, Result<T, CpuError>) {
    (
        res.0,
        match res.1 {
            Ok(v) => Ok(v),
            Err(e) => Err(CpuError::Bus(e)),
        },
    )
}

/// The processor and the bus in the middle of an instruction.
pub struct Run {
    pub cpu: CpuState,
    pub bus: BusState,
    /// The fault that has stopped the instruction, if any.
    pub fault: Option<CpuError>,
}

impl Run {
    /// The beginning of a run.
    pub open spec fn start(cpu: CpuState, bus: BusState) -> Run {
        Run { cpu, bus, fault: None }
    }

    /// Whether a run that returns a value has ended in the given states
    /// with the given result.
    pub open spec fn ends<T>(res: (Run, T), cpu: CpuState, bus: BusState, r: Result<T, CpuError>) -> bool {
        &&& res.0.cpu == cpu
        &&& res.0.bus == bus
        &&& match r {
            Ok(v) => res.0.fault is None && res.1 == v,
            Err(e) => res.0.fault == Some(e),
        }
    }

    /// Whether a run has ended in the given states with the given result.
    pub open spec fn done(self, cpu: CpuState, bus: BusState, r: Result<(), CpuError>) -> bool {
        &&& self.cpu == cpu
        &&& self.bus == bus
        &&& match r {
            Ok(v) => self.fault is None,
            Err(e) => self.fault == Some(e),
        }
    }

    /// The run stopped by a fault, unless one has stopped it already.
    pub open spec fn fail(self, e: CpuError) -> Run {
        if self.fault is Some {
            self
        } else {
            Run { fault: Some(e), ..self }
        }
    }

    /// The run stopped by an illegal opcode.
    pub open spec fn illegal(self) -> Run {
        self.fail(CpuError::Exception(CpuException::IllegalOpcode))
    }

    /// A step that changes the processor alone.
    pub open spec fn with_cpu(self, cpu: CpuState) -> Run {
        if self.fault is Some {
            self
        } else {
            Run { cpu, ..self }
        }
    }

    /// A register of the run's processor.
    pub open spec fn reg(self, index: usize) -> u32 {
        self.cpu.r[index as int]
    }

    /// A step that replaces one register.
    pub open spec fn put(self, index: usize, val: u32) -> Run {
        self.with_cpu(self.cpu.with_reg(index, val))
    }

    /// A step on the bus that returns a value.
    pub open spec fn on_bus<T>(self, res: (BusState, Result<T, BusError>), default: T) -> (Run, T) {
        if self.fault is Some {
            (self, default)
        } else {
            match res.1 {
                Ok(v) => (Run { bus: res.0, ..self }, v),
                Err(e) => (Run { bus: res.0, fault: Some(CpuError::Bus(e)), ..self }, default),
            }
        }
    }

    /// A byte read on the data path.
    pub open spec fn read_byte(self, address: u32) -> (Run, u8) {
        self.on_bus(self.bus.read_byte(address as usize), 0u8)
    }

    /// A half-word read on the data path.
    pub open spec fn read_half(self, address: u32) -> (Run, u16) {
        self.on_bus(self.bus.read_half(address as usize), 0u16)
    }

    /// A word read on the data path.
    pub open spec fn read_word(self, address: u32) -> (Run, u32) {
        self.on_bus(self.bus.read_word(address as usize), 0u32)
    }

    /// A byte write on the data path.
    pub open spec fn write_byte(self, address: u32, val: u8) -> Run {
        self.on_bus(self.bus.write_byte(address as usize, val), ()).0
    }

    /// A half-word write on the data path.
    pub open spec fn write_half(self, address: u32, val: u16) -> Run {
        self.on_bus(self.bus.write_half(address as usize, val), ()).0
    }

    /// A word write on the data path.
    pub open spec fn write_word(self, address: u32, val: u32) -> Run {
        self.on_bus(self.bus.write_word(address as usize, val), ()).0
    }

    /// The effective address of an operand: its base address, or the
    /// word stored there where the mode is deferred. The address is
    /// noted in the operand's data. An operand without an address is
    /// an illegal opcode.
    pub open spec fn effective_address(self, index: int) -> (Run, u32) {
        if self.fault is Some {
            (self, 0)
        } else {
            match self.cpu.base_address(index) {
                None => (self.illegal(), 0),
                Some(base) => {
                    let (s, addr) = if is_deferred(self.cpu.ir.operands[index].mode) {
                        self.read_word(base)
                    } else {
                        (self, base)
                    };
                    (s.with_cpu(s.cpu.with_data(index, addr)), if s.fault is Some {
                        0
                    } else {
                        addr
                    })
                },
            }
        }
    }

    /// The value of effective type `t` stored at `address`.
    pub open spec fn load(self, t: Data, address: u32) -> (Run, u32) {
        match t {
            Data::Word | Data::UWord => self.read_word(address),
            Data::Half => (self.read_half(address).0, sext16(self.read_half(address).1)),
            Data::UHalf => (self.read_half(address).0, self.read_half(address).1 as u32),
            Data::Byte => (self.read_byte(address).0, self.read_byte(address).1 as u32),
            Data::SByte => (self.read_byte(address).0, sext8(self.read_byte(address).1)),
            Data::NoData => (self.illegal(), 0),
        }
    }

    /// The store of `val` at `address` in the width of type `t`.
    pub open spec fn store(self, t: Data, address: u32, val: u32) -> Run {
        match t {
            Data::Word | Data::UWord => self.write_word(address, val),
            Data::Half | Data::UHalf => self.write_half(address, val as u16),
            Data::Byte | Data::SByte => self.write_byte(address, val as u8),
            Data::NoData => self.illegal(),
        }
    }

    /// The value of an operand as a word. A register is cut to the
    /// operand's effective type and extended; literals and immediates
    /// are extended by their sign; anything else is loaded from the
    /// effective address.
    pub open spec fn read_op(self, index: int) -> (Run, u32) {
        if self.fault is Some {
            (self, 0)
        } else {
            let op = self.cpu.ir.operands[index];
            match op.mode {
                AddrMode::Register => match register_of(op) {
                    Some(r) => match typed(op.effective_type(), self.cpu.r[r as int]) {
                        Some(v) => (self, v),
                        None => (self.illegal(), 0),
                    },
                    None => (self.illegal(), 0),
                },
                AddrMode::PositiveLiteral | AddrMode::NegativeLiteral => (
                    self,
                    sext8(op.embedded as u8),
                ),
                AddrMode::WordImmediate => (self, op.embedded),
                AddrMode::HalfwordImmediate => (self, sext16(op.embedded as u16)),
                AddrMode::ByteImmediate => (self, sext8(op.embedded as u8)),
                _ => {
                    let (s, eff) = self.effective_address(index);
                    if s.fault is Some {
                        (s, 0)
                    } else {
                        let (s2, v) = s.load(op.effective_type(), eff);
                        (s2, if s2.fault is Some {
                            0
                        } else {
                            v
                        })
                    }
                },
            }
        }
    }

    /// The write of `val` to an operand: into a register, cut to the
    /// width of the effective type, or into memory at the effective
    /// address in that width. A literal or an immediate cannot be
    /// written. The value is noted in the operand's data.
    pub open spec fn write_op(self, index: int, val: u32) -> Run {
        if self.fault is Some {
            self
        } else {
            let op = self.cpu.ir.operands[index];
            let s = if op.mode == AddrMode::Register {
                match register_of(op) {
                    Some(r) => self.put(r, truncated(op.effective_type(), val)),
                    None => self.illegal(),
                }
            } else if is_immediate(op.mode) {
                self.illegal()
            } else {
                let (s1, eff) = self.effective_address(index);
                if s1.fault is Some {
                    s1
                } else {
                    s1.store(op.effective_type(), eff, val)
                }
            };
            s.with_cpu(s.cpu.with_data(index, val))
        }
    }

    /// A word pushed onto the stack: stored where `pointer` points,
    /// which then moves up by four.
    pub open spec fn push(self, pointer: usize, val: u32) -> Run {
        let s = self.write_word(self.reg(pointer), val);
        s.put(pointer, s.reg(pointer).wrapping_add(4))
    }

    /// A word popped from the stack: read from four below where
    /// `pointer` points, which then moves down by four.
    pub open spec fn pop(self, pointer: usize) -> (Run, u32) {
        let (s, v) = self.read_word(self.reg(pointer).wrapping_sub(4));
        (s.put(pointer, s.reg(pointer).wrapping_sub(4)), v)
    }

    /// A word popped from the interrupt stack: the pointer moves down by
    /// four first, and stays there if the read fails.
    pub open spec fn irq_pop(self) -> (Run, u32) {
        let s = self.put(R_ISP, self.reg(R_ISP).wrapping_sub(4));
        s.read_word(s.reg(R_ISP))
    }
}

/// The four condition flags.
pub open spec fn is_condition_flag(flag: u32) -> bool {
    flag == F_C || flag == F_V || flag == F_Z || flag == F_N
}

/// Whether a flag of the status word is set.
pub open spec fn flag_set(cpu: CpuState, flag: u32) -> bool {
    if flag == F_C {
        cpu.c_flag()
    } else if flag == F_V {
        cpu.v_flag()
    } else if flag == F_Z {
        cpu.z_flag()
    } else {
        cpu.n_flag()
    }
}

/// Flag round trip. Setting a condition flag makes it read as set and
/// clearing it makes it read as clear; neither touches another bit of
/// the status word or another register; and a flag that is set and then
/// cleared leaves the status word as it was with that flag clear.
pub proof fn lemma_flag_round_trip(cpu: CpuState, flag: u32, other: u32)
    requires
        cpu.wf(),
        is_condition_flag(flag),
    ensures
        flag_set(cpu.with_flag(flag, true), flag),
        !flag_set(cpu.with_flag(flag, false), flag),
        cpu.with_flag(flag, true).psw() & !flag == cpu.psw() & !flag,
        cpu.with_flag(flag, false).psw() & !flag == cpu.psw() & !flag,
        is_condition_flag(other) && other != flag ==> flag_set(cpu.with_flag(flag, true), other)
            == flag_set(cpu, other) && flag_set(cpu.with_flag(flag, false), other) == flag_set(
            cpu,
            other,
        ),
        cpu.with_flag(flag, true).with_flag(flag, false).psw() == cpu.psw() & !flag,
        cpu.with_flag(flag, false).with_flag(flag, true).psw() == cpu.psw() | flag,
        forall|i: int|
            0 <= i < 16 && i != R_PSW ==> cpu.with_flag(flag, true).r[i] == cpu.r[i]
                && cpu.with_flag(flag, false).r[i] == cpu.r[i],
{
    let p = cpu.psw();
    assert(((p | 0x40000u32) & 0x40000u32) >> 18 == 1) by (bit_vector);
    assert(((p | 0x80000u32) & 0x80000u32) >> 19 == 1) by (bit_vector);
    assert(((p | 0x100000u32) & 0x100000u32) >> 20 == 1) by (bit_vector);
    assert(((p | 0x200000u32) & 0x200000u32) >> 21 == 1) by (bit_vector);
    assert(((p & !0x40000u32) & 0x40000u32) >> 18 == 0) by (bit_vector);
    assert(((p & !0x80000u32) & 0x80000u32) >> 19 == 0) by (bit_vector);
    assert(((p & !0x100000u32) & 0x100000u32) >> 20 == 0) by (bit_vector);
    assert(((p & !0x200000u32) & 0x200000u32) >> 21 == 0) by (bit_vector);
    assert(forall|f: u32| (p | f) & !f == p & !f) by (bit_vector);
    assert(forall|f: u32| (p & !f) & !f == p & !f) by (bit_vector);
    assert(forall|f: u32| (p & !f) | f == p | f) by (bit_vector);
    assert(forall|f: u32, g: u32|
        f & g == 0 ==> (p | f) & g == p & g && (p & !f) & g == p & g) by (bit_vector);
    assert(0x40000u32 & 0x80000u32 == 0 && 0x40000u32 & 0x100000u32 == 0 && 0x40000u32
        & 0x200000u32 == 0 && 0x80000u32 & 0x100000u32 == 0 && 0x80000u32 & 0x200000u32 == 0
        && 0x100000u32 & 0x200000u32 == 0) by (bit_vector);
    assert(forall|f: u32, g: u32| f & g == g & f) by (bit_vector);
}

} // verus!
