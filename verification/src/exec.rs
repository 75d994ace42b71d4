//! The executor: the arithmetic of the instructions and the instructions
//! themselves, verified against the model of [`crate::exec_model`].

use crate::bus::Bus;
use crate::bus_model::BusState;
use crate::cpu::{
    fetch_byte, fetch_word, illegal_opcode, sign_extend_byte, sign_extend_halfword, store_word,
    Cpu,
};
use crate::cpu_model::{
    Run, F_CD, F_CFD, F_CM, F_ET, F_I, F_IPL, F_ISC, F_PM, F_QIE, F_R, F_TM, R_AP, R_FP, R_ISP,
    R_PC, R_PCBP, R_PSW, R_SP,
};
use crate::device::AccessCode;
use crate::err::{CpuError, CpuException};
use crate::exec_model::{
    advanced, cond_holds, displacement_of, field_mask, low5, low_mask, magnitude, negated,
    quotient, remainder, rotated, sar, shifted_right, signed_quotient, signed_remainder, type_max,
    type_sign, Logic, Width, TOP,
};
use crate::instr::{Cond, CpuLevel, Data, ErrorContext, ExceptionType};
use vstd::prelude::*;

verus! {

fn raise<T>(e: CpuException) -> (r: Result<T, CpuError>)
    ensures
        r == Err::<T, CpuError>(CpuError::Exception(e)),
{
    Err(CpuError::Exception(e))
}

fn max_of(t: Data) -> (r: Option<u64>)
    ensures
        r == type_max(t),
{
    match t {
        Data::Word | Data::UWord => Some(0xffffffff),
        Data::Half | Data::UHalf => Some(0xffff),
        Data::Byte | Data::SByte => Some(0xff),
        Data::NoData => None,
    }
}

fn sign_of(t: Data) -> (r: u32)
    ensures
        r == type_sign(t),
{
    match t {
        Data::Word | Data::UWord => 0x80000000,
        Data::Half | Data::UHalf => 0x8000,
        _ => 0x80,
    }
}

/// The low five bits of a shift count.
pub fn shift_count(count: u32) -> (r: u32)
    ensures
        r == low5(count),
        r < 32,
{
    let r: u32 = count & 0x1f;
    assert(count & 0x1f < 32) by (bit_vector);
    r
}

fn negate(x: u32) -> (r: u32)
    ensures
        r == negated(x),
{
    (!x).wrapping_add(1)
}

fn magnitude_of(x: u32) -> (r: u32)
    ensures
        r == magnitude(x),
{
    if x & 0x80000000 != 0 {
        negate(x)
    } else {
        x
    }
}

fn signed_div(b: u32, a: u32) -> (r: u32)
    requires
        magnitude(a) != 0,
    ensures
        r == signed_quotient(b, a),
{
    let q: u32 = magnitude_of(b) / magnitude_of(a);
    if (b & 0x80000000 != 0) != (a & 0x80000000 != 0) {
        negate(q)
    } else {
        q
    }
}

fn signed_rem(b: u32, a: u32) -> (r: u32)
    requires
        magnitude(a) != 0,
    ensures
        r == signed_remainder(b, a),
{
    let m: u32 = magnitude_of(b) % magnitude_of(a);
    if b & 0x80000000 != 0 {
        negate(m)
    } else {
        m
    }
}

/// Divides `b` by `a` in a data type.
pub fn divide(t: Data, b: u32, a: u32) -> (r: Option<u32>)
    ensures
        r == quotient(t, b, a),
{
    match t {
        Data::Word => {
            if magnitude_of(a) == 0 {
                None
            } else {
                Some(signed_div(b, a))
            }
        },
        Data::Half => {
            let x: u32 = sign_extend_halfword(a as u16);
            if magnitude_of(x) == 0 {
                None
            } else {
                Some(sign_extend_halfword(signed_div(sign_extend_halfword(b as u16), x) as u16))
            }
        },
        Data::SByte => {
            let x: u32 = sign_extend_byte(a as u8);
            if magnitude_of(x) == 0 {
                None
            } else {
                Some(sign_extend_byte(signed_div(sign_extend_byte(b as u8), x) as u8))
            }
        },
        Data::UHalf => {
            if a as u16 == 0 {
                None
            } else {
                Some(((b as u16) / (a as u16)) as u32)
            }
        },
        Data::Byte => {
            if a as u8 == 0 {
                None
            } else {
                Some(((b as u8) / (a as u8)) as u32)
            }
        },
        _ => {
            if a == 0 {
                None
            } else {
                Some(b / a)
            }
        },
    }
}

/// The remainder of `b` divided by `a` in a data type.
pub fn remain(t: Data, b: u32, a: u32) -> (r: Option<u32>)
    ensures
        r == remainder(t, b, a),
{
    match t {
        Data::Word => {
            if magnitude_of(a) == 0 {
                None
            } else {
                Some(signed_rem(b, a))
            }
        },
        Data::Half => {
            let x: u32 = sign_extend_halfword(a as u16);
            if magnitude_of(x) == 0 {
                None
            } else {
                Some(sign_extend_halfword(signed_rem(sign_extend_halfword(b as u16), x) as u16))
            }
        },
        Data::SByte => {
            let x: u32 = sign_extend_byte(a as u8);
            if magnitude_of(x) == 0 {
                None
            } else {
                Some(sign_extend_byte(signed_rem(sign_extend_byte(b as u8), x) as u8))
            }
        },
        Data::UHalf => {
            if a as u16 == 0 {
                None
            } else {
                Some(((b as u16) % (a as u16)) as u32)
            }
        },
        Data::Byte => {
            if a as u8 == 0 {
                None
            } else {
                Some(((b as u8) % (a as u8)) as u32)
            }
        },
        _ => {
            if a == 0 {
                None
            } else {
                Some(b % a)
            }
        },
    }
}

fn shift_right_signed(a: u32, count: u32) -> (r: u32)
    requires
        count < 32,
    ensures
        r == sar(a, count),
{
    if a & 0x80000000 != 0 {
        !((!a) >> count)
    } else {
        a >> count
    }
}

/// Shifts `a` right arithmetically in a data type.
pub fn shift_right(t: Data, a: u32, count: u32) -> (r: u32)
    requires
        count < 32,
    ensures
        r == shifted_right(t, a, count),
{
    match t {
        Data::Word => shift_right_signed(a, count),
        Data::UWord => a >> count,
        Data::Half => shift_right_signed(sign_extend_halfword(a as u16), count),
        Data::UHalf => ((a as u16) as u32) >> count,
        Data::Byte => ((a as u8) as u32) >> count,
        Data::SByte => shift_right_signed(sign_extend_byte(a as u8), count),
        Data::NoData => 0,
    }
}

/// Rotates a word to the right.
pub fn rotate(b: u32, count: u32) -> (r: u32)
    requires
        count < 32,
    ensures
        r == rotated(b, count),
{
    if count == 0 {
        b
    } else {
        (b >> count) | (b << (32 - count))
    }
}

fn mask_of(width: u32) -> (r: u32)
    ensures
        r == low_mask(width),
{
    if width >= 32 {
        0xffffffff
    } else {
        (1u32 << width).wrapping_sub(1)
    }
}

fn mask_of_field(width: u32, offset: u32) -> (r: u32)
    requires
        1 <= width <= 32,
        offset < 32,
    ensures
        r == field_mask(width, offset),
{
    if width + offset > 32 {
        (mask_of(width) << offset) | (1u32 << (width + offset - 32)).wrapping_sub(1)
    } else {
        mask_of(width) << offset
    }
}

fn advance(pc: u32, increment: i32) -> (r: u32)
    ensures
        r == advanced(pc, increment),
{
    (pc as i32).wrapping_add(increment) as u32
}

impl Cpu {
    /// Whether a condition holds of the flags.
    pub fn holds(&self, cond: Cond) -> (r: bool)
        ensures
            r == cond_holds(self@, cond),
    {
        match cond {
            Cond::Always => true,
            Cond::Equal => self.z_flag(),
            Cond::NotEqual => !self.z_flag(),
            Cond::Greater => !(self.n_flag() || self.z_flag()),
            Cond::GreaterEqual => !self.n_flag() || self.z_flag(),
            Cond::Less => self.n_flag() && !self.z_flag(),
            Cond::LessEqual => self.n_flag() || self.z_flag(),
            Cond::GreaterU => !(self.c_flag() || self.z_flag()),
            Cond::GreaterEqualU => !self.c_flag(),
            Cond::LessU => self.c_flag(),
            Cond::LessEqualU => self.c_flag() || self.z_flag(),
            Cond::OverflowClear => !self.v_flag(),
            Cond::OverflowSet => self.v_flag(),
            Cond::ReturnLess => self.n_flag() || !self.z_flag(),
        }
    }

    fn displacement(&self, wide: bool) -> (r: i32)
        ensures
            r == displacement_of(self@, wide),
    {
        if wide {
            sign_extend_halfword(self.ir.operands[0].embedded as u16) as i32
        } else {
            sign_extend_byte(self.ir.operands[0].embedded as u8) as i32
        }
    }

    fn length(&self) -> (r: i32)
        ensures
            r == self@.ir.bytes as i32,
    {
        self.ir.bytes as i32
    }

    /// Divides in the declared type of an operand.
    pub fn div(&mut self, a: u32, b: u32, _src: usize, dst: usize) -> (r: Option<u32>)
        requires
            dst < 4,
        ensures
            final(self)@ == old(self)@,
            r == quotient(old(self)@.declared_type(dst as int), b, a),
    {
        divide(self.ir.operands[dst].data_type, b, a)
    }

    /// The remainder in the declared type of an operand.
    pub fn modulo(&mut self, a: u32, b: u32, _src: usize, dst: usize) -> (r: Option<u32>)
        requires
            dst < 4,
        ensures
            final(self)@ == old(self)@,
            r == remainder(old(self)@.declared_type(dst as int), b, a),
    {
        remain(self.ir.operands[dst].data_type, b, a)
    }

    fn finish_sum(&mut self, bus: &mut Bus, a: u32, b: u32, result: u64, dst: usize) -> (r: Result<
        (),
        CpuError,
    >)
        requires
            dst < 4,
            old(bus).wf(),
        ensures
            final(bus).wf(),
            Run::start(old(self)@, old(bus)@).finish_sum(a, b, result, dst as int).done(
                final(self)@,
                final(bus)@,
                r,
            ),
    {
        self.write_op(bus, dst, result as u32)?;
        self.set_nz_flags(result as u32, dst);
        let data_type: Data = self.ir.operands[dst].data_type();
        match max_of(data_type) {
            Some(max) => {
                self.set_c_flag(result > max);
                self.set_v_flag((((a ^ !b) & (a ^ (result as u32))) & sign_of(data_type)) != 0);
                Ok(())
            },
            None => Err(illegal_opcode()),
        }
    }

    /// Adds, writes the sum to a destination and sets the flags.
    pub fn add(&mut self, bus: &mut Bus, a: u32, b: u32, dst: usize) -> (r: Result<(), CpuError>)
        requires
            dst < 4,
            old(bus).wf(),
        ensures
            final(bus).wf(),
            Run::start(old(self)@, old(bus)@).add(a, b, dst as int).done(
                final(self)@,
                final(bus)@,
                r,
            ),
    {
        self.finish_sum(bus, a, b, (a as u64).wrapping_add(b as u64), dst)
    }

    /// Subtracts, writes the difference to a destination and sets the
    /// flags.
    pub fn sub(&mut self, bus: &mut Bus, a: u32, b: u32, dst: usize) -> (r: Result<(), CpuError>)
        requires
            dst < 4,
            old(bus).wf(),
        ensures
            final(bus).wf(),
            Run::start(old(self)@, old(bus)@).sub(a, b, dst as int).done(
                final(self)@,
                final(bus)@,
                r,
            ),
    {
        self.finish_sum(bus, a, b, (a as u64).wrapping_sub(b as u64), dst)
    }

    fn finish_result(&mut self, bus: &mut Bus, result: u32, dst: usize) -> (r: Result<
        (),
        CpuError,
    >)
        requires
            dst < 4,
            old(bus).wf(),
        ensures
            final(bus).wf(),
            Run::start(old(self)@, old(bus)@).finish_result(result, dst as int).done(
                final(self)@,
                final(bus)@,
                r,
            ),
    {
        self.write_op(bus, dst, result)?;
        self.set_result_flags(result, dst);
        Ok(())
    }

    fn finish_plain(&mut self, bus: &mut Bus, result: u32, dst: usize) -> (r: Result<(), CpuError>)
        requires
            dst < 4,
            old(bus).wf(),
        ensures
            final(bus).wf(),
            Run::start(old(self)@, old(bus)@).finish_plain(result, dst as int).done(
                final(self)@,
                final(bus)@,
                r,
            ),
    {
        self.write_op(bus, dst, result)?;
        self.set_plain_flags(result, dst);
        Ok(())
    }

    fn read_pair(&mut self, bus: &mut Bus) -> (r: Result<(u32, u32), CpuError>)
        requires
            old(bus).wf(),
        ensures
            final(bus).wf(),
            Run::ends(
                Run::start(old(self)@, old(bus)@).read_pair(),
                final(self)@,
                final(bus)@,
                r,
            ),
    {
        let a: u32 = self.read_op(bus, 0)?;
        let b: u32 = self.read_op(bus, 1)?;
        Ok((a, b))
    }

    fn read_pair_reversed(&mut self, bus: &mut Bus) -> (r: Result<(u32, u32), CpuError>)
        requires
            old(bus).wf(),
        ensures
            final(bus).wf(),
            Run::ends(
                Run::start(old(self)@, old(bus)@).read_pair_reversed(),
                final(self)@,
                final(bus)@,
                r,
            ),
    {
        let a: u32 = self.read_op(bus, 1)?;
        let b: u32 = self.read_op(bus, 0)?;
        Ok((a, b))
    }

    pub(crate) fn do_add(&mut self, bus: &mut Bus, dst: usize) -> (r: Result<(), CpuError>)
        requires
            dst < 4,
            old(bus).wf(),
        ensures
            final(bus).wf(),
            Run::start(old(self)@, old(bus)@).do_add(dst as int).done(final(self)@, final(bus)@, r),
    {
        reveal(Run::do_add);
        let (a, b) = self.read_pair(bus)?;
        self.add(bus, a, b, dst)
    }

    pub(crate) fn do_sub(&mut self, bus: &mut Bus, dst: usize) -> (r: Result<(), CpuError>)
        requires
            dst < 4,
            old(bus).wf(),
        ensures
            final(bus).wf(),
            Run::start(old(self)@, old(bus)@).do_sub(dst as int).done(final(self)@, final(bus)@, r),
    {
        reveal(Run::do_sub);
        let (a, b) = self.read_pair_reversed(bus)?;
        self.sub(bus, a, b, dst)
    }

    pub(crate) fn do_inc(&mut self, bus: &mut Bus) -> (r: Result<(), CpuError>)
        requires
            old(bus).wf(),
        ensures
            final(bus).wf(),
            Run::start(old(self)@, old(bus)@).do_inc().done(final(self)@, final(bus)@, r),
    {
        reveal(Run::do_inc);
        let a: u32 = self.read_op(bus, 0)?;
        self.add(bus, a, 1, 0)
    }

    pub(crate) fn do_dec(&mut self, bus: &mut Bus) -> (r: Result<(), CpuError>)
        requires
            old(bus).wf(),
        ensures
            final(bus).wf(),
            Run::start(old(self)@, old(bus)@).do_dec().done(final(self)@, final(bus)@, r),
    {
        reveal(Run::do_dec);
        let a: u32 = self.read_op(bus, 0)?;
        self.sub(bus, a, 1, 0)
    }

    pub(crate) fn do_logic(&mut self, bus: &mut Bus, kind: Logic, dst: usize) -> (r: Result<(), CpuError>)
        requires
            dst < 4,
            old(bus).wf(),
        ensures
            final(bus).wf(),
            Run::start(old(self)@, old(bus)@).do_logic(kind, dst as int).done(
                final(self)@,
                final(bus)@,
                r,
            ),
    {
        reveal(Run::do_logic);
        let (a, b) = self.read_pair(bus)?;
        let result: u32 = match kind {
            Logic::And => a & b,
            Logic::Or => a | b,
            Logic::Xor => a ^ b,
        };
        self.finish_result(bus, result, dst)
    }

    pub(crate) fn do_bit(&mut self, bus: &mut Bus) -> (r: Result<(), CpuError>)
        requires
            old(bus).wf(),
        ensures
            final(bus).wf(),
            Run::start(old(self)@, old(bus)@).do_bit().done(final(self)@, final(bus)@, r),
    {
        reveal(Run::do_bit);
        let (a, b) = self.read_pair(bus)?;
        self.set_result_flags(a & b, 1);
        Ok(())
    }

    pub(crate) fn do_mul(&mut self, bus: &mut Bus, dst: usize) -> (r: Result<(), CpuError>)
        requires
            dst < 4,
            old(bus).wf(),
        ensures
            final(bus).wf(),
            Run::start(old(self)@, old(bus)@).do_mul(dst as int).done(final(self)@, final(bus)@, r),
    {
        reveal(Run::do_mul);
        let (a, b) = self.read_pair(bus)?;
        self.finish_result(bus, a.wrapping_mul(b), dst)
    }

    pub(crate) fn do_div(&mut self, bus: &mut Bus, width: Width, dst: usize) -> (r: Result<(), CpuError>)
        requires
            dst < 4,
            old(bus).wf(),
        ensures
            final(bus).wf(),
            Run::start(old(self)@, old(bus)@).do_div(width, dst as int).done(
                final(self)@,
                final(bus)@,
                r,
            ),
    {
        reveal(Run::do_div);
        let (a, b) = self.read_pair(bus)?;
        if a == 0 {
            return raise(CpuException::IntegerZeroDivide);
        }
        let result: u32 = match self.div(a, b, 0, 1) {
            Some(q) => q,
            None => return raise(CpuException::IntegerZeroDivide),
        };
        let overflow: bool = match width {
            Width::Word => a == 0xffffffff && b == 0x80000000,
            Width::Half => a == 0xffff && b == 0x8000,
            Width::Byte => a == 0xff && b == 0x80,
        };
        if overflow {
            self.set_v_flag(true);
        }
        self.write_op(bus, dst, result)?;
        self.set_nz_flags(result, dst);
        self.set_c_flag(false);
        Ok(())
    }

    pub(crate) fn do_mod(&mut self, bus: &mut Bus, dst: usize) -> (r: Result<(), CpuError>)
        requires
            dst < 4,
            old(bus).wf(),
        ensures
            final(bus).wf(),
            Run::start(old(self)@, old(bus)@).do_mod(dst as int).done(final(self)@, final(bus)@, r),
    {
        reveal(Run::do_mod);
        let (a, b) = self.read_pair(bus)?;
        if a == 0 {
            return raise(CpuException::IntegerZeroDivide);
        }
        match self.modulo(a, b, 0, 1) {
            Some(result) => self.finish_result(bus, result, dst),
            None => raise(CpuException::IntegerZeroDivide),
        }
    }

    pub(crate) fn do_alsw3(&mut self, bus: &mut Bus) -> (r: Result<(), CpuError>)
        requires
            old(bus).wf(),
        ensures
            final(bus).wf(),
            Run::start(old(self)@, old(bus)@).do_alsw3().done(final(self)@, final(bus)@, r),
    {
        reveal(Run::do_alsw3);
        let (a, b) = self.read_pair(bus)?;
        let result: u64 = (a as u64) << (shift_count(b) as u64);
        self.finish_result(bus, result as u32, 2)
    }

    pub(crate) fn do_lls(&mut self, bus: &mut Bus) -> (r: Result<(), CpuError>)
        requires
            old(bus).wf(),
        ensures
            final(bus).wf(),
            Run::start(old(self)@, old(bus)@).do_lls().done(final(self)@, final(bus)@, r),
    {
        reveal(Run::do_lls);
        let (a, b) = self.read_pair_reversed(bus)?;
        let result: u64 = (a as u64) << (shift_count(b) as u64);
        self.finish_result(bus, result as u32, 2)
    }

    pub(crate) fn do_ars(&mut self, bus: &mut Bus) -> (r: Result<(), CpuError>)
        requires
            old(bus).wf(),
        ensures
            final(bus).wf(),
            Run::start(old(self)@, old(bus)@).do_ars().done(final(self)@, final(bus)@, r),
    {
        reveal(Run::do_ars);
        let (a, b) = self.read_pair_reversed(bus)?;
        let result: u32 = shift_right(self.ir.operands[0].data_type(), a, shift_count(b));
        self.finish_plain(bus, result, 2)
    }

    pub(crate) fn do_lrs(&mut self, bus: &mut Bus) -> (r: Result<(), CpuError>)
        requires
            old(bus).wf(),
        ensures
            final(bus).wf(),
            Run::start(old(self)@, old(bus)@).do_lrs().done(final(self)@, final(bus)@, r),
    {
        reveal(Run::do_lrs);
        let (a, b) = self.read_pair_reversed(bus)?;
        self.finish_result(bus, a >> shift_count(b), 2)
    }

    pub(crate) fn do_rot(&mut self, bus: &mut Bus) -> (r: Result<(), CpuError>)
        requires
            old(bus).wf(),
        ensures
            final(bus).wf(),
            Run::start(old(self)@, old(bus)@).do_rot().done(final(self)@, final(bus)@, r),
    {
        reveal(Run::do_rot);
        let (a, b) = self.read_pair(bus)?;
        self.finish_plain(bus, rotate(b, shift_count(a)), 2)
    }

    pub(crate) fn do_mcom(&mut self, bus: &mut Bus) -> (r: Result<(), CpuError>)
        requires
            old(bus).wf(),
        ensures
            final(bus).wf(),
            Run::start(old(self)@, old(bus)@).do_mcom().done(final(self)@, final(bus)@, r),
    {
        reveal(Run::do_mcom);
        let a: u32 = self.read_op(bus, 0)?;
        self.finish_result(bus, !a, 1)
    }

    pub(crate) fn do_mneg(&mut self, bus: &mut Bus) -> (r: Result<(), CpuError>)
        requires
            old(bus).wf(),
        ensures
            final(bus).wf(),
            Run::start(old(self)@, old(bus)@).do_mneg().done(final(self)@, final(bus)@, r),
    {
        reveal(Run::do_mneg);
        let a: u32 = self.read_op(bus, 0)?;
        self.finish_result(bus, negate(a), 1)
    }

    pub(crate) fn do_mov(&mut self, bus: &mut Bus) -> (r: Result<(), CpuError>)
        requires
            old(bus).wf(),
        ensures
            final(bus).wf(),
            Run::start(old(self)@, old(bus)@).do_mov().done(final(self)@, final(bus)@, r),
    {
        reveal(Run::do_mov);
        let val: u32 = self.read_op(bus, 0)?;
        self.finish_result(bus, val, 1)
    }

    pub(crate) fn do_movaw(&mut self, bus: &mut Bus) -> (r: Result<(), CpuError>)
        requires
            old(bus).wf(),
        ensures
            final(bus).wf(),
            Run::start(old(self)@, old(bus)@).do_movaw().done(final(self)@, final(bus)@, r),
    {
        reveal(Run::do_movaw);
        let result: u32 = self.effective_address(bus, 0)?;
        self.finish_result(bus, result, 1)
    }

    pub(crate) fn do_clr(&mut self, bus: &mut Bus) -> (r: Result<(), CpuError>)
        requires
            old(bus).wf(),
        ensures
            final(bus).wf(),
            Run::start(old(self)@, old(bus)@).do_clr().done(final(self)@, final(bus)@, r),
    {
        reveal(Run::do_clr);
        self.write_op(bus, 0, 0)?;
        self.set_nzcv(false, true, false, false);
        Ok(())
    }

    pub(crate) fn do_compare(&mut self, bus: &mut Bus, width: Width) -> (r: Result<(), CpuError>)
        requires
            old(bus).wf(),
        ensures
            final(bus).wf(),
            Run::start(old(self)@, old(bus)@).do_compare(width).done(final(self)@, final(bus)@, r),
    {
        reveal(Run::do_compare);
        let (a, b) = self.read_pair(bus)?;
        match width {
            Width::Word => self.set_nzcv((b as i32) < (a as i32), b == a, b < a, false),
            Width::Half => self.set_nzcv(
                (b as i16) < (a as i16),
                (b as u16) == (a as u16),
                (b as u16) < (a as u16),
                false,
            ),
            Width::Byte => self.set_nzcv(
                (b as i8) < (a as i8),
                (b as u8) == (a as u8),
                (b as u8) < (a as u8),
                false,
            ),
        }
        Ok(())
    }

    pub(crate) fn do_tst(&mut self, bus: &mut Bus, width: Width) -> (r: Result<(), CpuError>)
        requires
            old(bus).wf(),
        ensures
            final(bus).wf(),
            Run::start(old(self)@, old(bus)@).do_tst(width).done(final(self)@, final(bus)@, r),
    {
        reveal(Run::do_tst);
        let a: u32 = self.read_op(bus, 0)?;
        match width {
            Width::Word => self.set_nzcv((a as i32) < 0, a == 0, false, false),
            Width::Half => self.set_nzcv((a as i16) < 0, a == 0, false, false),
            Width::Byte => self.set_nzcv((a as i8) < 0, a == 0, false, false),
        }
        Ok(())
    }

    pub(crate) fn do_swap(&mut self, bus: &mut Bus) -> (r: Result<(), CpuError>)
        requires
            old(bus).wf(),
        ensures
            final(bus).wf(),
            Run::start(old(self)@, old(bus)@).do_swap().done(final(self)@, final(bus)@, r),
    {
        reveal(Run::do_swap);
        let a: u32 = self.read_op(bus, 0)?;
        let r0: u32 = self.r[0];
        self.write_op(bus, 0, r0)?;
        self.r[0] = a;
        self.set_nzcv((a as i32) < 0, a == 0, false, false);
        Ok(())
    }

    pub(crate) fn do_extf(&mut self, bus: &mut Bus) -> (r: Result<(), CpuError>)
        requires
            old(bus).wf(),
        ensures
            final(bus).wf(),
            Run::start(old(self)@, old(bus)@).do_extf().done(final(self)@, final(bus)@, r),
    {
        reveal(Run::do_extf);
        let w: u32 = self.read_op(bus, 0)?;
        let o: u32 = self.read_op(bus, 1)?;
        let a: u32 = self.read_op(bus, 2)?;
        let width: u32 = shift_count(w) + 1;
        let offset: u32 = shift_count(o);
        self.finish_result(bus, (a & mask_of_field(width, offset)) >> offset, 3)
    }

    pub(crate) fn do_insf(&mut self, bus: &mut Bus) -> (r: Result<(), CpuError>)
        requires
            old(bus).wf(),
        ensures
            final(bus).wf(),
            Run::start(old(self)@, old(bus)@).do_insf().done(final(self)@, final(bus)@, r),
    {
        reveal(Run::do_insf);
        let w: u32 = self.read_op(bus, 0)?;
        let o: u32 = self.read_op(bus, 1)?;
        let a: u32 = self.read_op(bus, 2)?;
        let b: u32 = self.read_op(bus, 3)?;
        let mask: u32 = mask_of(shift_count(w) + 1);
        let offset: u32 = shift_count(o);
        self.finish_result(bus, (b & !(mask << offset)) | ((a & mask) << offset), 3)
    }

    pub(crate) fn do_branch(&self, bus: &Bus, cond: Cond, wide: bool) -> (r: i32)
        ensures
            Run::ends(Run::start(self@, bus@).do_branch(cond, wide), self@, bus@, Ok::<i32, CpuError>(r)),
    {
        reveal(Run::do_branch);
        if self.holds(cond) {
            self.displacement(wide)
        } else {
            self.length()
        }
    }

    pub(crate) fn do_bsb(&mut self, bus: &mut Bus, wide: bool) -> (r: Result<i32, CpuError>)
        requires
            old(bus).wf(),
        ensures
            final(bus).wf(),
            Run::ends(
                Run::start(old(self)@, old(bus)@).do_bsb(wide),
                final(self)@,
                final(bus)@,
                r,
            ),
    {
        reveal(Run::do_bsb);
        let offset: i32 = self.displacement(wide);
        let return_pc: u32 = advance(self.r[R_PC], self.length());
        self.stack_push(bus, return_pc)?;
        Ok(offset)
    }

    pub(crate) fn do_return(&mut self, bus: &mut Bus, cond: Cond) -> (r: Result<i32, CpuError>)
        requires
            old(bus).wf(),
        ensures
            final(bus).wf(),
            Run::ends(
                Run::start(old(self)@, old(bus)@).do_return(cond),
                final(self)@,
                final(bus)@,
                r,
            ),
    {
        reveal(Run::do_return);
        if self.holds(cond) {
            let pc: u32 = self.stack_pop(bus)?;
            self.r[R_PC] = pc;
            Ok(0)
        } else {
            Ok(self.length())
        }
    }

    pub(crate) fn do_jmp(&mut self, bus: &mut Bus) -> (r: Result<(), CpuError>)
        requires
            old(bus).wf(),
        ensures
            final(bus).wf(),
            Run::start(old(self)@, old(bus)@).do_jmp().done(final(self)@, final(bus)@, r),
    {
        reveal(Run::do_jmp);
        let a: u32 = self.effective_address(bus, 0)?;
        self.r[R_PC] = a;
        Ok(())
    }

    pub(crate) fn do_jsb(&mut self, bus: &mut Bus) -> (r: Result<(), CpuError>)
        requires
            old(bus).wf(),
        ensures
            final(bus).wf(),
            Run::start(old(self)@, old(bus)@).do_jsb().done(final(self)@, final(bus)@, r),
    {
        reveal(Run::do_jsb);
        let return_pc: u32 = advance(self.r[R_PC], self.length());
        self.stack_push(bus, return_pc)?;
        let a: u32 = self.effective_address(bus, 0)?;
        self.r[R_PC] = a;
        Ok(())
    }

    pub(crate) fn do_call(&mut self, bus: &mut Bus) -> (r: Result<(), CpuError>)
        requires
            old(bus).wf(),
        ensures
            final(bus).wf(),
            Run::start(old(self)@, old(bus)@).do_call().done(final(self)@, final(bus)@, r),
    {
        reveal(Run::do_call);
        let a: u32 = self.effective_address(bus, 0)?;
        let b: u32 = self.effective_address(bus, 1)?;
        let return_pc: u32 = advance(self.r[R_PC], self.length());
        store_word(bus, self.r[R_SP].wrapping_add(4), self.r[R_AP])?;
        store_word(bus, self.r[R_SP], return_pc)?;
        self.r[R_SP] = self.r[R_SP].wrapping_add(8);
        self.r[R_PC] = b;
        self.r[R_AP] = a;
        Ok(())
    }

    pub(crate) fn do_ret(&mut self, bus: &mut Bus) -> (r: Result<(), CpuError>)
        requires
            old(bus).wf(),
        ensures
            final(bus).wf(),
            Run::start(old(self)@, old(bus)@).do_ret().done(final(self)@, final(bus)@, r),
    {
        reveal(Run::do_ret);
        let a: u32 = self.r[R_AP];
        let b: u32 = fetch_word(bus, self.r[R_SP].wrapping_sub(4), AccessCode::AddressFetch)?;
        let c: u32 = fetch_word(bus, self.r[R_SP].wrapping_sub(8), AccessCode::AddressFetch)?;
        self.r[R_AP] = b;
        self.r[R_PC] = c;
        self.r[R_SP] = a;
        Ok(())
    }

    pub(crate) fn do_popw(&mut self, bus: &mut Bus) -> (r: Result<(), CpuError>)
        requires
            old(bus).wf(),
        ensures
            final(bus).wf(),
            Run::start(old(self)@, old(bus)@).do_popw().done(final(self)@, final(bus)@, r),
    {
        reveal(Run::do_popw);
        let val: u32 = fetch_word(bus, self.r[R_SP].wrapping_sub(4), AccessCode::AddressFetch)?;
        self.write_op(bus, 0, val)?;
        self.r[R_SP] = self.r[R_SP].wrapping_sub(4);
        self.set_plain_flags(val, 0);
        Ok(())
    }

    pub(crate) fn do_pushaw(&mut self, bus: &mut Bus) -> (r: Result<(), CpuError>)
        requires
            old(bus).wf(),
        ensures
            final(bus).wf(),
            Run::start(old(self)@, old(bus)@).do_pushaw().done(final(self)@, final(bus)@, r),
    {
        reveal(Run::do_pushaw);
        let val: u32 = self.effective_address(bus, 0)?;
        self.stack_push(bus, val)?;
        self.set_plain_flags(val, 0);
        Ok(())
    }

    pub(crate) fn do_pushw(&mut self, bus: &mut Bus) -> (r: Result<(), CpuError>)
        requires
            old(bus).wf(),
        ensures
            final(bus).wf(),
            Run::start(old(self)@, old(bus)@).do_pushw().done(final(self)@, final(bus)@, r),
    {
        reveal(Run::do_pushw);
        let val: u32 = self.read_op(bus, 0)?;
        self.stack_push(bus, val)?;
        self.set_plain_flags(val, 0);
        Ok(())
    }

    fn save_from(&mut self, bus: &mut Bus, first: usize, address: u32) -> (r: Result<(), CpuError>)
        requires
            old(bus).wf(),
        ensures
            final(bus).wf(),
            Run::start(old(self)@, old(bus)@).save_from(first as int, address).done(
                final(self)@,
                final(bus)@,
                r,
            ),
    {
        let ghost goal = Run::start(old(self)@, old(bus)@).save_from(first as int, address);
        let mut r: usize = first;
        let mut at: u32 = address;
        while r < R_FP
            invariant
                bus.wf(),
                self@ == old(self)@,
                goal == Run::start(old(self)@, old(bus)@).save_from(first as int, address),
                Run::start(self@, bus@).save_from(r as int, at) == goal,
            decreases 9 - r,
        {
            store_word(bus, at, self.r[r])?;
            r += 1;
            at = at.wrapping_add(4);
        }
        Ok(())
    }

    pub(crate) fn do_save(&mut self, bus: &mut Bus) -> (r: Result<(), CpuError>)
        requires
            old(bus).wf(),
        ensures
            final(bus).wf(),
            Run::start(old(self)@, old(bus)@).do_save().done(final(self)@, final(bus)@, r),
    {
        reveal(Run::do_save);
        store_word(bus, self.r[R_SP], self.r[R_FP])?;
        let first: usize = match self.ir.operands[0].register {
            Some(r) => r,
            None => return Err(illegal_opcode()),
        };
        self.save_from(bus, first, self.r[R_SP].wrapping_add(4))?;
        self.r[R_SP] = self.r[R_SP].wrapping_add(28);
        self.r[R_FP] = self.r[R_SP];
        Ok(())
    }

    fn restore_from(&mut self, bus: &mut Bus, first: usize, address: u32) -> (r: Result<
        (),
        CpuError,
    >)
        requires
            old(bus).wf(),
        ensures
            final(bus).wf(),
            Run::start(old(self)@, old(bus)@).restore_from(first as int, address).done(
                final(self)@,
                final(bus)@,
                r,
            ),
    {
        let ghost goal = Run::start(old(self)@, old(bus)@).restore_from(first as int, address);
        let mut r: usize = first;
        let mut at: u32 = address;
        while r < R_FP
            invariant
                bus.wf(),
                goal == Run::start(old(self)@, old(bus)@).restore_from(first as int, address),
                Run::start(self@, bus@).restore_from(r as int, at) == goal,
            decreases 9 - r,
        {
            let v: u32 = fetch_word(bus, at, AccessCode::AddressFetch)?;
            self.r[r] = v;
            r += 1;
            at = at.wrapping_add(4);
        }
        Ok(())
    }

    pub(crate) fn do_restore(&mut self, bus: &mut Bus) -> (r: Result<(), CpuError>)
        requires
            old(bus).wf(),
        ensures
            final(bus).wf(),
            Run::start(old(self)@, old(bus)@).do_restore().done(final(self)@, final(bus)@, r),
    {
        reveal(Run::do_restore);
        let a: u32 = self.r[R_FP].wrapping_sub(28);
        let b: u32 = fetch_word(bus, a, AccessCode::AddressFetch)?;
        let c: u32 = self.r[R_FP].wrapping_sub(24);
        let first: usize = match self.ir.operands[0].register {
            Some(r) => r,
            None => return Err(illegal_opcode()),
        };
        self.restore_from(bus, first, c)?;
        self.r[R_FP] = b;
        self.r[R_SP] = a;
        Ok(())
    }

    pub(crate) fn do_retg(&mut self, bus: &mut Bus) -> (r: Result<(), CpuError>)
        requires
            old(bus).wf(),
        ensures
            final(bus).wf(),
            Run::start(old(self)@, old(bus)@).do_retg().done(final(self)@, final(bus)@, r),
    {
        reveal(Run::do_retg);
        let stacked: u32 = fetch_word(
            bus,
            self.r[R_SP].wrapping_sub(4),
            AccessCode::AddressFetch,
        )?;
        let new_pc: u32 = fetch_word(bus, self.r[R_SP].wrapping_sub(8), AccessCode::AddressFetch)?;
        let psw: u32 = self.r[R_PSW];
        self.r[R_PSW] = (((((((stacked & !(F_IPL | F_CFD | F_QIE | F_CD | F_R | F_ISC | F_TM
            | F_ET)) | (psw & F_IPL)) | (psw & F_CFD)) | (psw & F_QIE)) | (psw & F_CD)) | (psw
            & F_R)) | (7u32 << 3)) | 3;
        self.r[R_PC] = new_pc;
        self.r[R_SP] = self.r[R_SP].wrapping_sub(8);
        Ok(())
    }

    pub(crate) fn block_move(&mut self, bus: &mut Bus) -> (r: Result<(), CpuError>)
        requires
            old(bus).wf(),
        ensures
            final(bus).wf(),
            Run::start(old(self)@, old(bus)@).block_move().done(final(self)@, final(bus)@, r),
    {
        let ghost goal = Run::start(old(self)@, old(bus)@).block_move();
        while self.r[2] != 0
            invariant
                bus.wf(),
                goal == Run::start(old(self)@, old(bus)@).block_move(),
                Run::start(self@, bus@).block_move() == goal,
            decreases self.r[2],
        {
            let a: u32 = fetch_word(bus, self.r[0], AccessCode::AddressFetch)?;
            store_word(bus, self.r[1], a)?;
            self.r[2] = self.r[2] - 1;
            self.r[0] = self.r[0].wrapping_add(4);
            self.r[1] = self.r[1].wrapping_add(4);
        }
        Ok(())
    }

    pub(crate) fn strend(&mut self, bus: &mut Bus) -> (r: Result<(), CpuError>)
        requires
            old(bus).wf(),
        ensures
            final(bus).wf(),
            Run::start(old(self)@, old(bus)@).strend().done(final(self)@, final(bus)@, r),
    {
        reveal(BusState::read_byte);
        let ghost goal = Run::start(old(self)@, old(bus)@).strend();
        let mut going: bool = true;
        while going
            invariant
                bus.wf(),
                goal == Run::start(old(self)@, old(bus)@).strend(),
                going ==> Run::start(self@, bus@).strend() == goal,
                !going ==> Run::start(self@, bus@) == goal,
            decreases
                    (if going {
                        TOP + 1 - self.r[0]
                    } else {
                        0
                    }),
        {
            proof {
                reveal(BusState::read_byte);
            }
            let b: u8 = fetch_byte(bus, self.r[0], AccessCode::AddressFetch)?;
            if b == 0 {
                going = false;
            } else {
                self.r[0] = self.r[0].wrapping_add(1);
            }
        }
        Ok(())
    }

    fn save_status(&mut self, bus: &mut Bus, new_pcbp: u32) -> (r: Result<(), CpuError>)
        requires
            old(bus).wf(),
        ensures
            final(bus).wf(),
            Run::start(old(self)@, old(bus)@).save_status(new_pcbp).done(
                final(self)@,
                final(bus)@,
                r,
            ),
    {
        let pcbp: u32 = self.r[R_PCBP];
        store_word(bus, pcbp.wrapping_add(4), self.r[R_PC])?;
        self.r[R_PSW] = self.r[R_PSW] & !F_R;
        let w: u32 = fetch_word(bus, new_pcbp, AccessCode::AddressFetch)?;
        self.r[R_PSW] = self.r[R_PSW] | (w & F_R);
        store_word(bus, pcbp, self.r[R_PSW])?;
        store_word(bus, pcbp.wrapping_add(8), self.r[R_SP])
    }

    fn save_registers(&mut self, bus: &mut Bus) -> (r: Result<(), CpuError>)
        requires
            old(bus).wf(),
        ensures
            final(bus).wf(),
            Run::start(old(self)@, old(bus)@).save_registers().done(final(self)@, final(bus)@, r),
    {
        let pcbp: u32 = self.r[R_PCBP];
        store_word(bus, pcbp.wrapping_add(24), self.r[R_FP])?;
        self.save_from(bus, 0, pcbp.wrapping_add(28))?;
        store_word(bus, pcbp.wrapping_add(20), self.r[R_AP])?;
        self.r[R_FP] = pcbp.wrapping_add(52);
        Ok(())
    }

    fn context_switch_1(&mut self, bus: &mut Bus, new_pcbp: u32) -> (r: Result<(), CpuError>)
        requires
            old(bus).wf(),
        ensures
            final(bus).wf(),
            Run::start(old(self)@, old(bus)@).context_switch_1(new_pcbp).done(
                final(self)@,
                final(bus)@,
                r,
            ),
    {
        self.save_status(bus, new_pcbp)?;
        if (self.r[R_PSW] & F_R) != 0 {
            self.save_registers(bus)?;
        }
        Ok(())
    }

    fn context_switch_2(&mut self, bus: &mut Bus, new_pcbp: u32) -> (r: Result<(), CpuError>)
        requires
            old(bus).wf(),
        ensures
            final(bus).wf(),
            Run::start(old(self)@, old(bus)@).context_switch_2(new_pcbp).done(
                final(self)@,
                final(bus)@,
                r,
            ),
    {
        self.r[R_PCBP] = new_pcbp;
        let psw: u32 = fetch_word(bus, new_pcbp, AccessCode::AddressFetch)?;
        self.r[R_PSW] = psw & !F_TM;
        let pc: u32 = fetch_word(bus, new_pcbp.wrapping_add(4), AccessCode::AddressFetch)?;
        self.r[R_PC] = pc;
        let sp: u32 = fetch_word(bus, new_pcbp.wrapping_add(8), AccessCode::AddressFetch)?;
        self.r[R_SP] = sp;
        if (self.r[R_PSW] & F_I) != 0 {
            self.r[R_PSW] = self.r[R_PSW] & !F_I;
            self.r[R_PCBP] = self.r[R_PCBP].wrapping_add(12);
        }
        Ok(())
    }

    fn move_blocks(&mut self, bus: &mut Bus) -> (r: Result<(), CpuError>)
        requires
            old(bus).wf(),
            old(self).r[0] <= TOP + 4,
        ensures
            final(bus).wf(),
            Run::start(old(self)@, old(bus)@).move_blocks().done(final(self)@, final(bus)@, r),
    {
        reveal(BusState::read_word);
        let ghost goal = Run::start(old(self)@, old(bus)@).move_blocks();
        while self.r[2] != 0
            invariant
                bus.wf(),
                self.r[0] <= TOP + 4,
                goal == Run::start(old(self)@, old(bus)@).move_blocks(),
                Run::start(self@, bus@).move_blocks() == goal,
            decreases TOP + 8 - self.r[0],
        {
            proof {
                reveal(BusState::read_word);
            }
            let dst: u32 = fetch_word(bus, self.r[0], AccessCode::AddressFetch)?;
            self.r[1] = dst;
            self.r[0] = self.r[0].wrapping_add(4);
            proof {
                crate::exec_model::lemma_block_move_climbs(Run::start(self@, bus@));
            }
            self.block_move(bus)?;
            let count: u32 = fetch_word(bus, self.r[0], AccessCode::AddressFetch)?;
            self.r[2] = count;
            self.r[0] = self.r[0].wrapping_add(4);
        }
        Ok(())
    }

    fn context_switch_3(&mut self, bus: &mut Bus) -> (r: Result<(), CpuError>)
        requires
            old(bus).wf(),
        ensures
            final(bus).wf(),
            Run::start(old(self)@, old(bus)@).context_switch_3().done(
                final(self)@,
                final(bus)@,
                r,
            ),
    {
        proof {
            reveal(BusState::read_word);
        }
        if (self.r[R_PSW] & F_R) != 0 {
            self.r[0] = self.r[R_PCBP].wrapping_add(64);
            let count: u32 = fetch_word(bus, self.r[0], AccessCode::AddressFetch)?;
            self.r[2] = count;
            self.r[0] = self.r[0].wrapping_add(4);
            self.move_blocks(bus)?;
            self.r[0] = self.r[0].wrapping_add(4);
        }
        Ok(())
    }

    fn switch_to(&mut self, bus: &mut Bus, new_pcbp: u32) -> (r: Result<(), CpuError>)
        requires
            old(bus).wf(),
        ensures
            final(bus).wf(),
            Run::start(old(self)@, old(bus)@).switch_to(new_pcbp).done(
                final(self)@,
                final(bus)@,
                r,
            ),
    {
        self.r[R_PSW] = (self.r[R_PSW] & !(F_ISC | F_TM | F_ET)) | 1;
        self.context_switch_1(bus, new_pcbp)?;
        self.context_switch_2(bus, new_pcbp)?;
        self.r[R_PSW] = ((self.r[R_PSW] & !(F_ISC | F_TM | F_ET)) | (7u32 << 3)) | 3;
        self.context_switch_3(bus)
    }

    /// Enters the handler of an interrupt.
    pub fn on_interrupt(&mut self, bus: &mut Bus, vector: u8) -> (r: Result<(), CpuError>)
        requires
            old(bus).wf(),
        ensures
            final(bus).wf(),
            Run::start(old(self)@, old(bus)@).on_interrupt(vector).done(
                final(self)@,
                final(bus)@,
                r,
            ),
    {
        reveal(Run::on_interrupt);
        let new_pcbp: u32 = fetch_word(
            bus,
            0x8c + 4 * (vector as u32),
            AccessCode::AddressFetch,
        )?;
        self.irq_push(bus, self.r[R_PCBP])?;
        self.switch_to(bus, new_pcbp)
    }

    pub(crate) fn do_callps(&mut self, bus: &mut Bus) -> (r: Result<(), CpuError>)
        requires
            old(bus).wf(),
        ensures
            final(bus).wf(),
            Run::start(old(self)@, old(bus)@).do_callps().done(final(self)@, final(bus)@, r),
    {
        reveal(Run::do_callps);
        match self.priv_level() {
            CpuLevel::Kernel => {
                let a: u32 = self.r[0];
                self.error_context = ErrorContext::ResetIntStack;
                self.irq_push(bus, self.r[R_PCBP])?;
                self.r[R_PC] = self.r[R_PC].wrapping_add(2);
                self.switch_to(bus, a)?;
                self.error_context = ErrorContext::NoContext;
                Ok(())
            },
            _ => raise(CpuException::PrivilegedOpcode),
        }
    }

    fn reload_registers(&mut self, bus: &mut Bus, pcbp: u32) -> (r: Result<(), CpuError>)
        requires
            old(bus).wf(),
        ensures
            final(bus).wf(),
            Run::start(old(self)@, old(bus)@).reload_registers(pcbp).done(
                final(self)@,
                final(bus)@,
                r,
            ),
    {
        let fp: u32 = fetch_word(bus, pcbp.wrapping_add(24), AccessCode::AddressFetch)?;
        self.r[R_FP] = fp;
        self.restore_from(bus, 0, pcbp.wrapping_add(28))?;
        let ap: u32 = fetch_word(bus, pcbp.wrapping_add(20), AccessCode::AddressFetch)?;
        self.r[R_AP] = ap;
        Ok(())
    }

    pub(crate) fn do_retps(&mut self, bus: &mut Bus) -> (r: Result<(), CpuError>)
        requires
            old(bus).wf(),
        ensures
            final(bus).wf(),
            Run::start(old(self)@, old(bus)@).do_retps().done(final(self)@, final(bus)@, r),
    {
        reveal(Run::do_retps);
        match self.priv_level() {
            CpuLevel::Kernel => {
                let new_pcbp: u32 = self.irq_pop(bus)?;
                let new_psw: u32 = fetch_word(bus, new_pcbp, AccessCode::AddressFetch)?;
                self.r[R_PSW] = (self.r[R_PSW] & !F_R) | (new_psw & F_R);
                self.context_switch_2(bus, new_pcbp)?;
                self.context_switch_3(bus)?;
                if self.r[R_PSW] & F_R != 0 {
                    self.reload_registers(bus, new_pcbp)?;
                }
                Ok(())
            },
            _ => raise(CpuException::PrivilegedOpcode),
        }
    }

    pub(crate) fn do_vjmp(&mut self, bus: &Bus) -> (r: Result<(), CpuError>)
        ensures
            Run::start(old(self)@, bus@).do_vjmp().done(final(self)@, bus@, r),
    {
        reveal(Run::do_vjmp);
        match self.priv_level() {
            CpuLevel::Kernel => {
                self.r[R_PC] = self.r[0];
                Ok(())
            },
            _ => raise(CpuException::PrivilegedOpcode),
        }
    }

    /// Passes through a gate.
    pub fn gate(&mut self, bus: &mut Bus, index1: u32, index2: u32) -> (r: Result<(), CpuError>)
        requires
            old(bus).wf(),
        ensures
            final(bus).wf(),
            Run::start(old(self)@, old(bus)@).gate(index1, index2).done(
                final(self)@,
                final(bus)@,
                r,
            ),
    {
        let table: u32 = fetch_word(bus, index1, AccessCode::AddressFetch)?;
        let entry: u32 = table.wrapping_add(index2);
        let word: u32 = fetch_word(bus, entry, AccessCode::AddressFetch)?;
        let pc: u32 = fetch_word(bus, entry.wrapping_add(4), AccessCode::AddressFetch)?;
        let psw: u32 = self.r[R_PSW];
        self.r[R_PC] = pc;
        self.r[R_PSW] = ((((((word & !(F_PM | F_IPL | F_R | F_ISC | F_TM | F_ET)) | ((psw & F_CM)
            >> 2)) | (psw & F_IPL)) | (psw & F_R)) | (7u32 << 3)) | (1u32 << 2)) | 3;
        Ok(())
    }

    /// Enters the handler of an exception.
    pub fn on_exception(&mut self, bus: &mut Bus, exc: &ExceptionType) -> (r: Result<(), CpuError>)
        requires
            old(bus).wf(),
        ensures
            final(bus).wf(),
            Run::start(old(self)@, old(bus)@).on_exception().done(final(self)@, final(bus)@, r),
    {
        reveal(Run::on_exception);
        match exc {
            ExceptionType::ExternalMemory => {
                store_word(bus, self.r[R_ISP], self.r[R_PC])?;
                self.r[R_PSW] = (((self.r[R_PSW] & !F_ET) & !F_ISC) | 3) | (5u32 << 3);
                store_word(bus, self.r[R_ISP].wrapping_add(4), self.r[R_PSW])?;
                self.gate(bus, 0, 5u32 << 3)?;
                self.r[R_ISP] = self.r[R_ISP].wrapping_add(8);
                Ok(())
            },
        }
    }
}

} // verus!
