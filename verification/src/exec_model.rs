//! The mathematical model of the executor: what each instruction does
//! to the processor and the bus, the process switches, the interrupt
//! and exception entries, and one whole step of the machine.

use crate::bus_model::BusState;
use crate::cpu_model::{
    sext16, sext8, CpuState, Run, F_C, F_CD, F_CFD, F_CM, F_ET, F_I, F_IPL, F_ISC, F_PM, F_QIE,
    F_R, F_TM, F_V, R_AP, R_FP, R_ISP, R_PC, R_PCBP, R_PSW, R_SP, WE32100_VERSION,
};
use crate::err::{CpuError, CpuException};
use crate::instr::{operation_of, Cond, CpuLevel, Data, ErrorContext, Op};
use vstd::prelude::*;

verus! {

/// The bitwise operations of two operands.
#[derive(Eq, PartialEq, Debug, Copy, Clone)]
pub enum Logic {
    And,
    Or,
    Xor,
}

/// The three operand widths.
#[derive(Eq, PartialEq, Debug, Copy, Clone)]
pub enum Width {
    Word,
    Half,
    Byte,
}

/// The end of memory: no device answers at or above this address.
pub const TOP: u32 = 0x800000;

/// The result of a bitwise operation.
pub open spec fn apply(kind: Logic, a: u32, b: u32) -> u32 {
    match kind {
        Logic::And => a & b,
        Logic::Or => a | b,
        Logic::Xor => a ^ b,
    }
}

/// Whether a condition holds of the flags.
pub open spec fn cond_holds(cpu: CpuState, cond: Cond) -> bool {
    match cond {
        Cond::Always => true,
        Cond::Equal => cpu.z_flag(),
        Cond::NotEqual => !cpu.z_flag(),
        Cond::Greater => !(cpu.n_flag() || cpu.z_flag()),
        Cond::GreaterEqual => !cpu.n_flag() || cpu.z_flag(),
        Cond::Less => cpu.n_flag() && !cpu.z_flag(),
        Cond::LessEqual => cpu.n_flag() || cpu.z_flag(),
        Cond::GreaterU => !(cpu.c_flag() || cpu.z_flag()),
        Cond::GreaterEqualU => !cpu.c_flag(),
        Cond::LessU => cpu.c_flag(),
        Cond::LessEqualU => cpu.c_flag() || cpu.z_flag(),
        Cond::OverflowClear => !cpu.v_flag(),
        Cond::OverflowSet => cpu.v_flag(),
        Cond::ReturnLess => cpu.n_flag() || !cpu.z_flag(),
    }
}

/// The largest unsigned value of a data type's width.
pub open spec fn type_max(t: Data) -> Option<u64> {
    match t {
        Data::Word | Data::UWord => Some(0xffffffffu64),
        Data::Half | Data::UHalf => Some(0xffffu64),
        Data::Byte | Data::SByte => Some(0xffu64),
        Data::NoData => None,
    }
}

/// The sign bit of a data type's width.
pub open spec fn type_sign(t: Data) -> u32 {
    match t {
        Data::Word | Data::UWord => 0x80000000u32,
        Data::Half | Data::UHalf => 0x8000u32,
        _ => 0x80u32,
    }
}

/// The low five bits of a shift count.
pub open spec fn low5(count: u32) -> u32 {
    count & 0x1f
}

/// The two's complement of a word.
pub open spec fn negated(x: u32) -> u32 {
    (!x).wrapping_add(1)
}

/// The magnitude of a word read as a signed number.
pub open spec fn magnitude(x: u32) -> u32 {
    if x & 0x80000000 != 0 {
        negated(x)
    } else {
        x
    }
}

/// Signed division that rounds towards zero: the quotient of the
/// magnitudes, negative when the signs differ. The divisor is not zero.
pub open spec fn signed_quotient(b: u32, a: u32) -> u32 {
    let q = magnitude(b) / magnitude(a);
    if (b & 0x80000000 != 0) != (a & 0x80000000 != 0) {
        negated(q)
    } else {
        q
    }
}

/// The remainder of signed division that rounds towards zero: the
/// remainder of the magnitudes, with the sign of the dividend.
pub open spec fn signed_remainder(b: u32, a: u32) -> u32 {
    let m = magnitude(b) % magnitude(a);
    if b & 0x80000000 != 0 {
        negated(m)
    } else {
        m
    }
}

/// `b` divided by `a` in the data type `t`: signed for word, half-word
/// and signed byte, unsigned for the others, the result extended to a
/// word. Nothing where the divisor, or its magnitude in a signed type,
/// is zero at that width.
pub open spec fn quotient(t: Data, b: u32, a: u32) -> Option<u32> {
    match t {
        Data::Word => if magnitude(a) == 0 {
            None
        } else {
            Some(signed_quotient(b, a))
        },
        Data::Half => if magnitude(sext16(a as u16)) == 0 {
            None
        } else {
            Some(sext16(signed_quotient(sext16(b as u16), sext16(a as u16)) as u16))
        },
        Data::SByte => if magnitude(sext8(a as u8)) == 0 {
            None
        } else {
            Some(sext8(signed_quotient(sext8(b as u8), sext8(a as u8)) as u8))
        },
        Data::UHalf => if a as u16 == 0 {
            None
        } else {
            Some(((b as u16) / (a as u16)) as u32)
        },
        Data::Byte => if a as u8 == 0 {
            None
        } else {
            Some(((b as u8) / (a as u8)) as u32)
        },
        _ => if a == 0 {
            None
        } else {
            Some(b / a)
        },
    }
}

/// The remainder of `b` divided by `a` in the data type `t`.
pub open spec fn remainder(t: Data, b: u32, a: u32) -> Option<u32> {
    match t {
        Data::Word => if magnitude(a) == 0 {
            None
        } else {
            Some(signed_remainder(b, a))
        },
        Data::Half => if magnitude(sext16(a as u16)) == 0 {
            None
        } else {
            Some(sext16(signed_remainder(sext16(b as u16), sext16(a as u16)) as u16))
        },
        Data::SByte => if magnitude(sext8(a as u8)) == 0 {
            None
        } else {
            Some(sext8(signed_remainder(sext8(b as u8), sext8(a as u8)) as u8))
        },
        Data::UHalf => if a as u16 == 0 {
            None
        } else {
            Some(((b as u16) % (a as u16)) as u32)
        },
        Data::Byte => if a as u8 == 0 {
            None
        } else {
            Some(((b as u8) % (a as u8)) as u32)
        },
        _ => if a == 0 {
            None
        } else {
            Some(b % a)
        },
    }
}

/// A word shifted right by `count` places, fewer than 32, with its
/// sign bit filling in from the left.
pub open spec fn sar(a: u32, count: u32) -> u32 {
    if a & 0x80000000 != 0 {
        !((!a) >> count)
    } else {
        a >> count
    }
}

/// The arithmetic right shift of `a` in the data type `t`: the signed
/// types replicate their sign, the unsigned ones fill with zeros.
pub open spec fn shifted_right(t: Data, a: u32, count: u32) -> u32 {
    match t {
        Data::Word => sar(a, count),
        Data::UWord => a >> count,
        Data::Half => sar(sext16(a as u16), count),
        Data::UHalf => ((a as u16) as u32) >> count,
        Data::Byte => ((a as u8) as u32) >> count,
        Data::SByte => sar(sext8(a as u8), count),
        Data::NoData => 0,
    }
}

/// A word rotated right by `count` places, fewer than 32.
pub open spec fn rotated(b: u32, count: u32) -> u32 {
    if count == 0 {
        b
    } else {
        (b >> count) | (b << ((32 - count) as u32))
    }
}

/// The mask of the `width` lowest bits, `width` being 1 to 32.
pub open spec fn low_mask(width: u32) -> u32 {
    if width >= 32 {
        0xffffffff
    } else {
        (1u32 << width).wrapping_sub(1)
    }
}

/// The mask of a bit field of `width` bits from bit `offset` on. A
/// field that runs over the top of the word goes on from bit 0.
pub open spec fn field_mask(width: u32, offset: u32) -> u32 {
    if width + offset > 32 {
        (low_mask(width) << offset) | (1u32 << ((width + offset - 32) as u32)).wrapping_sub(1)
    } else {
        low_mask(width) << offset
    }
}

/// The priority at which an interrupt vector is recognised.
pub open spec fn ipl_of(vector: u8) -> u32 {
    if vector == 0 {
        0
    } else if vector < 8 {
        14
    } else {
        15
    }
}

/// The program counter moved on by a signed increment, modulo 2^32.
pub open spec fn advanced(pc: u32, increment: i32) -> u32 {
    (pc as i32).wrapping_add(increment) as u32
}

/// The status word on entry to a handler: internal state code 7,
/// trace mask clear, exception type 3.
pub open spec fn entered(psw: u32) -> u32 {
    ((psw & !(F_ISC | F_TM | F_ET)) | (7u32 << 3)) | 3
}

/// The status word as it is saved on a process switch: internal state
/// code and trace mask clear, exception type 1.
pub open spec fn leaving(psw: u32) -> u32 {
    (psw & !(F_ISC | F_TM | F_ET)) | 1
}

/// The status word that a return from a gate installs: the one from
/// the stack, with the interrupt level and the cache and register-save
/// bits of the running one, internal state code 7 and exception type 3.
pub open spec fn regated(stacked: u32, psw: u32) -> u32 {
    (((((((stacked & !(F_IPL | F_CFD | F_QIE | F_CD | F_R | F_ISC | F_TM | F_ET)) | (psw & F_IPL))
        | (psw & F_CFD)) | (psw & F_QIE)) | (psw & F_CD)) | (psw & F_R)) | (7u32 << 3)) | 3
}

/// The status word that a gate installs: the one from the vector table,
/// with the previous mode taken from the running current mode, the
/// interrupt level and register-save bit of the running one, internal
/// state code 7, trace mask set and exception type 3.
pub open spec fn gated(table: u32, psw: u32) -> u32 {
    ((((((table & !(F_PM | F_IPL | F_R | F_ISC | F_TM | F_ET)) | ((psw & F_CM) >> 2)) | (psw
        & F_IPL)) | (psw & F_R)) | (7u32 << 3)) | (1u32 << 2)) | 3
}

/// The status word of an external-memory exception: exception type 3,
/// internal state code 5.
pub open spec fn faulted(psw: u32) -> u32 {
    (((psw & !F_ET) & !F_ISC) | 3) | (5u32 << 3)
}

/// The embedded value of the first operand as a displacement of a
/// half-word or of a byte.
pub open spec fn displacement_of(cpu: CpuState, wide: bool) -> i32 {
    if wide {
        sext16(cpu.ir.operands[0].embedded as u16) as i32
    } else {
        sext8(cpu.ir.operands[0].embedded as u8) as i32
    }
}

impl Run {
    /// The processor status word of the run.
    pub open spec fn psw(self) -> u32 {
        self.reg(R_PSW)
    }

    /// The run stopped by an exception of the processor.
    pub open spec fn raise(self, e: CpuException) -> Run {
        self.fail(CpuError::Exception(e))
    }

    /// The effective type of an operand slot.
    pub open spec fn op_type(self, index: int) -> Data {
        self.cpu.ir.operands[index].effective_type()
    }

    /// The embedded value of the first operand as a displacement of a
    /// half-word or of a byte.
    pub open spec fn displacement(self, wide: bool) -> i32 {
        displacement_of(self.cpu, wide)
    }

    /// The length of the decoded instruction.
    pub open spec fn length(self) -> i32 {
        self.cpu.ir.bytes as i32
    }

    /// The end of an addition or subtraction whose full result is
    /// `result`: the result is written to the destination; N and Z
    /// follow it; C says that it does not fit the destination's width
    /// unsigned; V is the sign bit of `(a ^ !b) & (a ^ result)`.
    pub open spec fn finish_sum(self, a: u32, b: u32, result: u64, dst: int) -> Run {
        let s = self.write_op(dst, result as u32);
        if s.fault is Some {
            s
        } else {
            let c = s.cpu.set_nz_flags(result as u32, dst);
            match type_max(s.op_type(dst)) {
                Some(max) => s.with_cpu(
                    c.with_flag(F_C, result > max).with_flag(
                        F_V,
                        (((a ^ !b) & (a ^ (result as u32))) & type_sign(s.op_type(dst))) != 0,
                    ),
                ),
                None => s.with_cpu(c).illegal(),
            }
        }
    }

    /// Addition: the full sum of two words decides the flags.
    pub open spec fn add(self, a: u32, b: u32, dst: int) -> Run {
        self.finish_sum(a, b, (a as u64).wrapping_add(b as u64), dst)
    }

    /// Subtraction: the full difference, taken modulo 2^64, decides the
    /// flags.
    pub open spec fn sub(self, a: u32, b: u32, dst: int) -> Run {
        self.finish_sum(a, b, (a as u64).wrapping_sub(b as u64), dst)
    }

    /// The end of an instruction that writes `result` and sets N, Z and
    /// V from it, clearing C.
    pub open spec fn finish_result(self, result: u32, dst: int) -> Run {
        let s = self.write_op(dst, result);
        s.with_cpu(s.cpu.set_result_flags(result, dst))
    }

    /// The end of an instruction that writes `result` and sets N and Z
    /// from it, clearing C and V.
    pub open spec fn finish_plain(self, result: u32, dst: int) -> Run {
        let s = self.write_op(dst, result);
        s.with_cpu(s.cpu.set_plain_flags(result, dst))
    }

    /// The two source operands, the first read first.
    pub open spec fn read_pair(self) -> (Run, (u32, u32)) {
        let (s1, a) = self.read_op(0);
        let (s2, b) = s1.read_op(1);
        (s2, (a, b))
    }

    /// The two source operands, the second read first.
    pub open spec fn read_pair_reversed(self) -> (Run, (u32, u32)) {
        let (s1, a) = self.read_op(1);
        let (s2, b) = s1.read_op(0);
        (s2, (a, b))
    }

    /// Addition of the first operand to the second.
    #[verifier::opaque]
    pub open spec fn do_add(self, dst: int) -> Run {
        let (s, (a, b)) = self.read_pair();
        s.add(a, b, dst)
    }

    /// Subtraction: the second operand minus the first.
    #[verifier::opaque]
    pub open spec fn do_sub(self, dst: int) -> Run {
        let (s, (a, b)) = self.read_pair_reversed();
        s.sub(a, b, dst)
    }

    /// Addition of one to the operand.
    #[verifier::opaque]
    pub open spec fn do_inc(self) -> Run {
        let (s, a) = self.read_op(0);
        s.add(a, 1, 0)
    }

    /// Subtraction of one from the operand.
    #[verifier::opaque]
    pub open spec fn do_dec(self) -> Run {
        let (s, a) = self.read_op(0);
        s.sub(a, 1, 0)
    }

    /// A bitwise operation of the first two operands.
    #[verifier::opaque]
    pub open spec fn do_logic(self, kind: Logic, dst: int) -> Run {
        let (s, (a, b)) = self.read_pair();
        s.finish_result(apply(kind, a, b), dst)
    }

    /// The bit test: the flags of an AND whose result is dropped.
    #[verifier::opaque]
    pub open spec fn do_bit(self) -> Run {
        let (s, (a, b)) = self.read_pair();
        s.with_cpu(s.cpu.set_result_flags(a & b, 1))
    }

    /// The product of the first two operands, modulo 2^32.
    #[verifier::opaque]
    pub open spec fn do_mul(self, dst: int) -> Run {
        let (s, (a, b)) = self.read_pair();
        s.finish_result(a.wrapping_mul(b), dst)
    }

    /// Division of the second operand by the first, in the declared
    /// type of the second. A divisor of zero raises the zero-divide
    /// exception. Dividing the most negative number of the width by
    /// minus one sets V; no other division touches V.
    #[verifier::opaque]
    pub open spec fn do_div(self, width: Width, dst: int) -> Run {
        let (s, (a, b)) = self.read_pair();
        if s.fault is Some {
            s
        } else if a == 0 {
            s.raise(CpuException::IntegerZeroDivide)
        } else {
            match quotient(s.cpu.declared_type(1), b, a) {
                None => s.raise(CpuException::IntegerZeroDivide),
                Some(result) => {
                    let overflow = match width {
                        Width::Word => a == 0xffffffff && b == 0x80000000,
                        Width::Half => a == 0xffff && b == 0x8000,
                        Width::Byte => a == 0xff && b == 0x80,
                    };
                    let s1 = if overflow {
                        s.with_cpu(s.cpu.with_flag(F_V, true))
                    } else {
                        s
                    };
                    let s2 = s1.write_op(dst, result);
                    s2.with_cpu(s2.cpu.set_nz_flags(result, dst).with_flag(F_C, false))
                },
            }
        }
    }

    /// The remainder of the second operand divided by the first.
    #[verifier::opaque]
    pub open spec fn do_mod(self, dst: int) -> Run {
        let (s, (a, b)) = self.read_pair();
        if s.fault is Some {
            s
        } else if a == 0 {
            s.raise(CpuException::IntegerZeroDivide)
        } else {
            match remainder(s.cpu.declared_type(1), b, a) {
                None => s.raise(CpuException::IntegerZeroDivide),
                Some(result) => s.finish_result(result, dst),
            }
        }
    }

    /// The arithmetic left shift of a word: the first operand shifted
    /// by the low five bits of the second.
    #[verifier::opaque]
    pub open spec fn do_alsw3(self) -> Run {
        let (s, (a, b)) = self.read_pair();
        s.finish_result((((a as u64) << (low5(b) as u64)) as u32), 2)
    }

    /// The logical left shift.
    #[verifier::opaque]
    pub open spec fn do_lls(self) -> Run {
        let (s, (a, b)) = self.read_pair_reversed();
        s.finish_result((((a as u64) << (low5(b) as u64)) as u32), 2)
    }

    /// The arithmetic right shift, in the effective type of the count.
    #[verifier::opaque]
    pub open spec fn do_ars(self) -> Run {
        let (s, (a, b)) = self.read_pair_reversed();
        s.finish_plain(shifted_right(s.op_type(0), a, low5(b)), 2)
    }

    /// The logical right shift of a word.
    #[verifier::opaque]
    pub open spec fn do_lrs(self) -> Run {
        let (s, (a, b)) = self.read_pair_reversed();
        s.finish_result(a >> low5(b), 2)
    }

    /// The rotation of a word to the right.
    #[verifier::opaque]
    pub open spec fn do_rot(self) -> Run {
        let (s, (a, b)) = self.read_pair();
        s.finish_plain(rotated(b, low5(a)), 2)
    }

    /// The bitwise complement of the first operand.
    #[verifier::opaque]
    pub open spec fn do_mcom(self) -> Run {
        let (s, a) = self.read_op(0);
        s.finish_result(!a, 1)
    }

    /// The two's complement of the first operand.
    #[verifier::opaque]
    pub open spec fn do_mneg(self) -> Run {
        let (s, a) = self.read_op(0);
        s.finish_result(negated(a), 1)
    }

    /// The move of the first operand to the second.
    #[verifier::opaque]
    pub open spec fn do_mov(self) -> Run {
        let (s, a) = self.read_op(0);
        s.finish_result(a, 1)
    }

    /// The move of an effective address.
    #[verifier::opaque]
    pub open spec fn do_movaw(self) -> Run {
        let (s, a) = self.effective_address(0);
        s.finish_result(a, 1)
    }

    /// The clearing of an operand: Z is set, N, C and V are cleared.
    #[verifier::opaque]
    pub open spec fn do_clr(self) -> Run {
        let s = self.write_op(0, 0);
        s.with_cpu(s.cpu.set_nzcv(false, true, false, false))
    }

    /// The comparison of the second operand with the first at a width:
    /// Z says they are equal, N that the second is less signed, C that
    /// it is less unsigned; V is clear.
    #[verifier::opaque]
    pub open spec fn do_compare(self, width: Width) -> Run {
        let (s, (a, b)) = self.read_pair();
        match width {
            Width::Word => s.with_cpu(s.cpu.set_nzcv((b as i32) < (a as i32), b == a, b < a, false)),
            Width::Half => s.with_cpu(
                s.cpu.set_nzcv(
                    (b as i16) < (a as i16),
                    (b as u16) == (a as u16),
                    (b as u16) < (a as u16),
                    false,
                ),
            ),
            Width::Byte => s.with_cpu(
                s.cpu.set_nzcv(
                    (b as i8) < (a as i8),
                    (b as u8) == (a as u8),
                    (b as u8) < (a as u8),
                    false,
                ),
            ),
        }
    }

    /// The test of an operand: N is its sign at a width, Z says that it
    /// is zero; C and V are clear.
    #[verifier::opaque]
    pub open spec fn do_tst(self, width: Width) -> Run {
        let (s, a) = self.read_op(0);
        match width {
            Width::Word => s.with_cpu(s.cpu.set_nzcv((a as i32) < 0, a == 0, false, false)),
            Width::Half => s.with_cpu(s.cpu.set_nzcv((a as i16) < 0, a == 0, false, false)),
            Width::Byte => s.with_cpu(s.cpu.set_nzcv((a as i8) < 0, a == 0, false, false)),
        }
    }

    /// The swap of an operand with register 0.
    #[verifier::opaque]
    pub open spec fn do_swap(self) -> Run {
        let (s, a) = self.read_op(0);
        let s1 = s.write_op(0, s.reg(0));
        s1.with_cpu(s1.cpu.with_reg(0, a).set_nzcv((a as i32) < 0, a == 0, false, false))
    }

    /// The extraction of a bit field of the third operand into the
    /// fourth. The first operand gives the width less one, the second
    /// the offset, five bits each.
    #[verifier::opaque]
    pub open spec fn do_extf(self) -> Run {
        let (s1, w) = self.read_op(0);
        let (s2, o) = s1.read_op(1);
        let (s3, a) = s2.read_op(2);
        s3.finish_result(
            (a & field_mask((low5(w) + 1) as u32, low5(o))) >> low5(o),
            3,
        )
    }

    /// The insertion of the low bits of the third operand into a bit
    /// field of the fourth.
    #[verifier::opaque]
    pub open spec fn do_insf(self) -> Run {
        let (s1, w) = self.read_op(0);
        let (s2, o) = s1.read_op(1);
        let (s3, a) = s2.read_op(2);
        let (s4, b) = s3.read_op(3);
        let mask = low_mask((low5(w) + 1) as u32);
        s4.finish_result((b & !(mask << low5(o))) | ((a & mask) << low5(o)), 3)
    }

    /// A branch: by the displacement if the condition holds, else on
    /// to the next instruction.
    #[verifier::opaque]
    pub open spec fn do_branch(self, cond: Cond, wide: bool) -> (Run, i32) {
        if cond_holds(self.cpu, cond) {
            (self, self.displacement(wide))
        } else {
            (self, self.length())
        }
    }

    /// A branch to a subroutine: the address of the next instruction
    /// is pushed.
    #[verifier::opaque]
    pub open spec fn do_bsb(self, wide: bool) -> (Run, i32) {
        (self.push(R_SP, advanced(self.reg(R_PC), self.length())), self.displacement(wide))
    }

    /// A return from a subroutine if the condition holds.
    #[verifier::opaque]
    pub open spec fn do_return(self, cond: Cond) -> (Run, i32) {
        if cond_holds(self.cpu, cond) {
            let (s, pc) = self.pop(R_SP);
            (s.put(R_PC, pc), 0)
        } else {
            (self, self.length())
        }
    }

    /// A jump to the effective address of the operand.
    #[verifier::opaque]
    pub open spec fn do_jmp(self) -> Run {
        let (s, a) = self.effective_address(0);
        s.put(R_PC, a)
    }

    /// A jump to a subroutine: the address of the next instruction is
    /// pushed.
    #[verifier::opaque]
    pub open spec fn do_jsb(self) -> Run {
        let s = self.push(R_SP, advanced(self.reg(R_PC), self.length()));
        let (s1, a) = s.effective_address(0);
        s1.put(R_PC, a)
    }

    /// A procedure call: the argument pointer and the return address
    /// are stored at the stack pointer, which moves up by eight.
    #[verifier::opaque]
    pub open spec fn do_call(self) -> Run {
        let (s1, a) = self.effective_address(0);
        let (s2, b) = s1.effective_address(1);
        let s3 = s2.write_word(s2.reg(R_SP).wrapping_add(4), s2.reg(R_AP));
        let s4 = s3.write_word(s3.reg(R_SP), advanced(s3.reg(R_PC), s3.length()));
        s4.put(R_SP, s4.reg(R_SP).wrapping_add(8)).put(R_PC, b).put(R_AP, a)
    }

    /// A procedure return.
    #[verifier::opaque]
    pub open spec fn do_ret(self) -> Run {
        let (s1, b) = self.read_word(self.reg(R_SP).wrapping_sub(4));
        let (s2, c) = s1.read_word(s1.reg(R_SP).wrapping_sub(8));
        s2.put(R_AP, b).put(R_PC, c).put(R_SP, self.reg(R_AP))
    }

    /// A word popped from the stack into the operand.
    #[verifier::opaque]
    pub open spec fn do_popw(self) -> Run {
        let (s1, val) = self.read_word(self.reg(R_SP).wrapping_sub(4));
        let s2 = s1.write_op(0, val);
        let s3 = s2.put(R_SP, s2.reg(R_SP).wrapping_sub(4));
        s3.with_cpu(s3.cpu.set_plain_flags(val, 0))
    }

    /// The effective address of the operand pushed onto the stack.
    #[verifier::opaque]
    pub open spec fn do_pushaw(self) -> Run {
        let (s1, val) = self.effective_address(0);
        let s2 = s1.push(R_SP, val);
        s2.with_cpu(s2.cpu.set_plain_flags(val, 0))
    }

    /// The operand pushed onto the stack.
    #[verifier::opaque]
    pub open spec fn do_pushw(self) -> Run {
        let (s1, val) = self.read_op(0);
        let s2 = s1.push(R_SP, val);
        s2.with_cpu(s2.cpu.set_plain_flags(val, 0))
    }

    /// The registers from `r` up to register 8 stored from `address`
    /// on.
    pub open spec fn save_from(self, r: int, address: u32) -> Run
        decreases 9 - r,
    {
        if self.fault is Some || r < 0 || r >= 9 {
            self
        } else {
            let s = self.write_word(address, self.reg(r as usize));
            if s.fault is Some {
                s
            } else {
                s.save_from(r + 1, address.wrapping_add(4))
            }
        }
    }

    /// The saving of a frame: the frame pointer and the registers from
    /// the operand's up to register 8 go onto the stack.
    #[verifier::opaque]
    pub open spec fn do_save(self) -> Run {
        let s1 = self.write_word(self.reg(R_SP), self.reg(R_FP));
        if s1.fault is Some {
            s1
        } else {
            match self.cpu.ir.operands[0].register {
                None => s1.illegal(),
                Some(r) => {
                    let s2 = s1.save_from(r as int, s1.reg(R_SP).wrapping_add(4));
                    let s3 = s2.put(R_SP, s2.reg(R_SP).wrapping_add(28));
                    s3.put(R_FP, s3.reg(R_SP))
                },
            }
        }
    }

    /// The registers from `r` up to register 8 loaded from `address`
    /// on.
    pub open spec fn restore_from(self, r: int, address: u32) -> Run
        decreases 9 - r,
    {
        if self.fault is Some || r < 0 || r >= 9 {
            self
        } else {
            let (s, v) = self.read_word(address);
            if s.fault is Some {
                s
            } else {
                s.put(r as usize, v).restore_from(r + 1, address.wrapping_add(4))
            }
        }
    }

    /// The restoring of a frame that was saved.
    #[verifier::opaque]
    pub open spec fn do_restore(self) -> Run {
        let a = self.reg(R_FP).wrapping_sub(28);
        let (s1, b) = self.read_word(a);
        if s1.fault is Some {
            s1
        } else {
            match self.cpu.ir.operands[0].register {
                None => s1.illegal(),
                Some(r) => s1.restore_from(r as int, self.reg(R_FP).wrapping_sub(24)).put(
                    R_FP,
                    b,
                ).put(R_SP, a),
            }
        }
    }

    /// The return from a gate.
    #[verifier::opaque]
    pub open spec fn do_retg(self) -> Run {
        let (s1, stacked) = self.read_word(self.reg(R_SP).wrapping_sub(4));
        let (s2, pc) = s1.read_word(s1.reg(R_SP).wrapping_sub(8));
        s2.put(R_PSW, regated(stacked, s2.psw())).put(R_PC, pc).put(
            R_SP,
            s2.reg(R_SP).wrapping_sub(8),
        )
    }

    /// The block move: as many words as register 2 counts, from where
    /// register 0 points to where register 1 points.
    pub open spec fn block_move(self) -> Run
        decreases self.reg(2),
        when self.cpu.wf()
    {
        if self.fault is Some || self.reg(2) == 0 {
            self
        } else {
            let (s1, word) = self.read_word(self.reg(0));
            let s2 = s1.write_word(s1.reg(1), word);
            if s2.fault is Some {
                s2
            } else {
                s2.put(2, (s2.reg(2) - 1) as u32).put(0, s2.reg(0).wrapping_add(4)).put(
                    1,
                    s2.reg(1).wrapping_add(4),
                ).block_move()
            }
        }
    }

    /// The search for the end of a string: register 0 moves up to the
    /// first zero byte.
    pub open spec fn strend(self) -> Run
        decreases TOP - self.reg(0),
        when self.cpu.wf()
        via Self::strend_decreases
    {
        if self.fault is Some {
            self
        } else {
            let (s1, b) = self.read_byte(self.reg(0));
            if s1.fault is Some || b == 0 {
                s1
            } else {
                s1.put(0, s1.reg(0).wrapping_add(1)).strend()
            }
        }
    }

    #[via_fn]
    proof fn strend_decreases(self) {
        reveal(BusState::read_byte);
    }

    /// The program counter, the status word and the stack pointer saved
    /// in the running process's control block. The status word first
    /// takes the register-save bit of the new process.
    pub open spec fn save_status(self, new_pcbp: u32) -> Run {
        if self.fault is Some {
            self
        } else {
            let pcbp = self.reg(R_PCBP);
            let s1 = self.write_word(pcbp.wrapping_add(4), self.reg(R_PC));
            let s2 = s1.put(R_PSW, s1.psw() & !F_R);
            let (s3, w) = s2.read_word(new_pcbp);
            let s4 = s3.put(R_PSW, s3.psw() | (w & F_R));
            let s5 = s4.write_word(pcbp, s4.psw());
            s5.write_word(pcbp.wrapping_add(8), s5.reg(R_SP))
        }
    }

    /// The frame pointer, registers 0 to 8 and the argument pointer
    /// saved in the running process's control block. The frame pointer
    /// is left pointing into the block.
    pub open spec fn save_registers(self) -> Run {
        if self.fault is Some {
            self
        } else {
            let pcbp = self.reg(R_PCBP);
            let s1 = self.write_word(pcbp.wrapping_add(24), self.reg(R_FP));
            let s2 = s1.save_from(0, pcbp.wrapping_add(28));
            let s3 = s2.write_word(pcbp.wrapping_add(20), s2.reg(R_AP));
            s3.put(R_FP, pcbp.wrapping_add(52))
        }
    }

    /// The first phase of a process switch: the running process is
    /// saved in its control block, with its registers if the register-
    /// save bit of the new process is set.
    pub open spec fn context_switch_1(self, new_pcbp: u32) -> Run {
        let s = self.save_status(new_pcbp);
        if s.fault is Some || (s.psw() & F_R) == 0 {
            s
        } else {
            s.save_registers()
        }
    }

    /// The second phase of a process switch: the status word, the
    /// program counter and the stack pointer are loaded from the new
    /// control block. An initial context is skipped.
    pub open spec fn context_switch_2(self, new_pcbp: u32) -> Run {
        if self.fault is Some {
            self
        } else {
            let s1 = self.put(R_PCBP, new_pcbp);
            let (s2, psw) = s1.read_word(new_pcbp);
            let s3 = s2.put(R_PSW, psw & !F_TM);
            let (s4, pc) = s3.read_word(new_pcbp.wrapping_add(4));
            let s5 = s4.put(R_PC, pc);
            let (s6, sp) = s5.read_word(new_pcbp.wrapping_add(8));
            let s7 = s6.put(R_SP, sp);
            if s7.fault is None && (s7.psw() & F_I) != 0 {
                s7.put(R_PSW, s7.psw() & !F_I).put(R_PCBP, s7.reg(R_PCBP).wrapping_add(12))
            } else {
                s7
            }
        }
    }

    /// The block moves of a process switch, from the one whose count
    /// is in register 2 on: each block is a count, a destination and
    /// the words; a count of zero ends the list.
    pub open spec fn move_blocks(self) -> Run
        decreases TOP + 8 - self.reg(0),
        when self.cpu.wf() && self.reg(0) <= TOP + 4
        via Self::move_blocks_decreases
    {
        if self.fault is Some || self.reg(2) == 0 {
            self
        } else {
            let (s1, dst) = self.read_word(self.reg(0));
            let s2 = s1.put(1, dst);
            let s3 = s2.put(0, s2.reg(0).wrapping_add(4)).block_move();
            let (s4, count) = s3.read_word(s3.reg(0));
            let s5 = s4.put(2, count);
            if s5.fault is Some {
                s5
            } else {
                s5.put(0, s5.reg(0).wrapping_add(4)).move_blocks()
            }
        }
    }

    #[via_fn]
    proof fn move_blocks_decreases(self) {
        reveal(BusState::read_word);
        if !(self.fault is Some || self.reg(2) == 0) {
            let (s1, dst) = self.read_word(self.reg(0));
            let s2 = s1.put(1, dst);
            let s2b = s2.put(0, s2.reg(0).wrapping_add(4));
            let s3 = s2b.block_move();
            let (s4, count) = s3.read_word(s3.reg(0));
            let s5 = s4.put(2, count);
            if s5.fault is None {
                lemma_block_move_climbs(s2b);
                assert(s1.fault is None);
                assert(self.reg(0) < TOP);
                assert(s3.reg(0) < TOP);
            }
        }
    }

    /// The third phase of a process switch: if the register-save bit
    /// is set, the block moves listed behind the control block are
    /// carried out.
    pub open spec fn context_switch_3(self) -> Run {
        if self.fault is Some || (self.psw() & F_R) == 0 {
            self
        } else {
            let s1 = self.put(0, self.reg(R_PCBP).wrapping_add(64));
            let (s2, count) = s1.read_word(s1.reg(0));
            let s3 = s2.put(2, count);
            if s3.fault is Some {
                s3
            } else {
                let s4 = s3.put(0, s3.reg(0).wrapping_add(4)).move_blocks();
                s4.put(0, s4.reg(0).wrapping_add(4))
            }
        }
    }

    /// The switch to the process whose control block is at `new_pcbp`,
    /// after the old control block pointer was pushed.
    pub open spec fn switch_to(self, new_pcbp: u32) -> Run {
        if self.fault is Some {
            self
        } else {
            let s1 = self.put(R_PSW, leaving(self.psw()));
            let s2 = s1.context_switch_1(new_pcbp);
            let s3 = s2.context_switch_2(new_pcbp);
            s3.put(R_PSW, entered(s3.psw())).context_switch_3()
        }
    }

    /// The entry into the handler of an interrupt.
    #[verifier::opaque]
    pub open spec fn on_interrupt(self, vector: u8) -> Run {
        let (s1, new_pcbp) = self.read_word((0x8cu32 + 4 * (vector as u32)) as u32);
        let s2 = s1.push(R_ISP, s1.reg(R_PCBP));
        s2.switch_to(new_pcbp)
    }

    /// The call of a process: a switch to the process whose control
    /// block register 0 points at. Kernel level only.
    #[verifier::opaque]
    pub open spec fn do_callps(self) -> Run {
        if self.fault is Some {
            self
        } else if self.cpu.priv_level() != CpuLevel::Kernel {
            self.raise(CpuException::PrivilegedOpcode)
        } else {
            let a = self.reg(0);
            let s0 = self.with_cpu(
                CpuState { error_context: ErrorContext::ResetIntStack, ..self.cpu },
            );
            let s1 = s0.push(R_ISP, s0.reg(R_PCBP));
            let s2 = s1.put(R_PC, s1.reg(R_PC).wrapping_add(2));
            let s3 = s2.switch_to(a);
            s3.with_cpu(CpuState { error_context: ErrorContext::NoContext, ..s3.cpu })
        }
    }

    /// The registers 0 to 8 and the frame and argument pointers loaded
    /// from the control block at `pcbp`.
    pub open spec fn reload_registers(self, pcbp: u32) -> Run {
        if self.fault is Some {
            self
        } else {
            let (s1, fp) = self.read_word(pcbp.wrapping_add(24));
            let s2 = s1.put(R_FP, fp).restore_from(0, pcbp.wrapping_add(28));
            let (s3, ap) = s2.read_word(pcbp.wrapping_add(20));
            s3.put(R_AP, ap)
        }
    }

    /// The return to the process whose control block pointer is on top
    /// of the interrupt stack. Kernel level only.
    #[verifier::opaque]
    pub open spec fn do_retps(self) -> Run {
        if self.fault is Some {
            self
        } else if self.cpu.priv_level() != CpuLevel::Kernel {
            self.raise(CpuException::PrivilegedOpcode)
        } else {
            let (s1, new_pcbp) = self.irq_pop();
            let (s2, new_psw) = s1.read_word(new_pcbp);
            let s3 = s2.put(R_PSW, (s2.psw() & !F_R) | (new_psw & F_R));
            let s4 = s3.context_switch_2(new_pcbp).context_switch_3();
            if s4.fault is None && (s4.psw() & F_R) != 0 {
                s4.reload_registers(new_pcbp)
            } else {
                s4
            }
        }
    }

    /// A jump to where register 0 points, which would switch the
    /// memory management on or off. Kernel level only.
    #[verifier::opaque]
    pub open spec fn do_vjmp(self) -> Run {
        if self.cpu.priv_level() != CpuLevel::Kernel {
            self.raise(CpuException::PrivilegedOpcode)
        } else {
            self.put(R_PC, self.reg(0))
        }
    }

    /// A gate: the table at `index1` gives the address of a second
    /// table, whose entry at `index2` gives the new status word and
    /// program counter.
    pub open spec fn gate(self, index1: u32, index2: u32) -> Run {
        if self.fault is Some {
            self
        } else {
            let (s1, table) = self.read_word(index1);
            let entry = table.wrapping_add(index2);
            let (s2, word) = s1.read_word(entry);
            let (s3, pc) = s2.read_word(entry.wrapping_add(4));
            s3.put(R_PC, pc).put(R_PSW, gated(word, s3.psw()))
        }
    }

    /// The entry into the handler of an external-memory exception: the
    /// program counter and the status word, with exception type 3 and
    /// internal state code 5, go onto the interrupt stack; a gate for
    /// that state code is taken; the interrupt stack pointer moves up by
    /// eight.
    #[verifier::opaque]
    pub open spec fn on_exception(self) -> Run {
        let s1 = self.write_word(self.reg(R_ISP), self.reg(R_PC));
        let s2 = s1.put(R_PSW, faulted(s1.psw()));
        let s3 = s2.write_word(s2.reg(R_ISP).wrapping_add(4), s2.psw());
        let s4 = s3.gate(0, 5u32 << 3);
        s4.put(R_ISP, s4.reg(R_ISP).wrapping_add(8))
    }

    /// The carrying out of the decoded instruction, with the amount by
    /// which the program counter then moves on: the instruction's
    /// length, a displacement, or nothing where the instruction has set
    /// the program counter itself.
    #[verifier::opaque]
    pub open spec fn execute(self) -> (Run, i32) {
        if self.fault is Some {
            (self, 0)
        } else {
            match operation_of(self.cpu.ir.opcode) {
                Op::Nop1 => (self, 1),
                Op::Nop2 => (self, 2),
                Op::Nop3 => (self, 3),
                Op::Cflush => (self, self.length()),
                Op::Add2 => (self.do_add(1), self.length()),
                Op::Add3 => (self.do_add(2), self.length()),
                Op::Sub2 => (self.do_sub(1), self.length()),
                Op::Sub3 => (self.do_sub(2), self.length()),
                Op::Inc => (self.do_inc(), self.length()),
                Op::Dec => (self.do_dec(), self.length()),
                Op::Alsw3 => (self.do_alsw3(), self.length()),
                Op::And2 => (self.do_logic(Logic::And, 1), self.length()),
                Op::And3 => (self.do_logic(Logic::And, 2), self.length()),
                Op::Or2 => (self.do_logic(Logic::Or, 1), self.length()),
                Op::Or3 => (self.do_logic(Logic::Or, 2), self.length()),
                Op::Xor2 => (self.do_logic(Logic::Xor, 1), self.length()),
                Op::Xor3 => (self.do_logic(Logic::Xor, 2), self.length()),
                Op::Bit => (self.do_bit(), self.length()),
                Op::BranchH(cond) => self.do_branch(cond, true),
                Op::BranchB(cond) => self.do_branch(cond, false),
                Op::Bsbh => self.do_bsb(true),
                Op::Bsbb => self.do_bsb(false),
                Op::Trap => (self.illegal(), 0),
                Op::Call => (self.do_call(), 0),
                Op::Callps => (self.do_callps(), 0),
                Op::Clr => (self.do_clr(), self.length()),
                Op::CompareW => (self.do_compare(Width::Word), self.length()),
                Op::CompareH => (self.do_compare(Width::Half), self.length()),
                Op::CompareB => (self.do_compare(Width::Byte), self.length()),
                Op::DivW2 => (self.do_div(Width::Word, 1), self.length()),
                Op::DivH2 => (self.do_div(Width::Half, 1), self.length()),
                Op::DivB2 => (self.do_div(Width::Byte, 1), self.length()),
                Op::DivW3 => (self.do_div(Width::Word, 2), self.length()),
                Op::DivH3 => (self.do_div(Width::Half, 2), self.length()),
                Op::DivB3 => (self.do_div(Width::Byte, 2), self.length()),
                Op::Mverno => (self.put(0, WE32100_VERSION), self.length()),
                Op::Enbvjmp => (self.do_vjmp(), 0),
                Op::Disvjmp => (self.do_vjmp(), 0),
                Op::Extf => (self.do_extf(), self.length()),
                Op::Insf => (self.do_insf(), self.length()),
                Op::Jmp => (self.do_jmp(), 0),
                Op::Jsb => (self.do_jsb(), 0),
                Op::Lls => (self.do_lls(), self.length()),
                Op::Ars => (self.do_ars(), self.length()),
                Op::Lrs => (self.do_lrs(), self.length()),
                Op::Mcom => (self.do_mcom(), self.length()),
                Op::Mneg => (self.do_mneg(), self.length()),
                Op::Movblw => (self.block_move(), self.length()),
                Op::Strend => (self.strend(), self.length()),
                Op::Swap => (self.do_swap(), self.length()),
                Op::Rotw => (self.do_rot(), self.length()),
                Op::Movaw => (self.do_movaw(), self.length()),
                Op::Mov => (self.do_mov(), self.length()),
                Op::Mod2 => (self.do_mod(1), self.length()),
                Op::Mod3 => (self.do_mod(2), self.length()),
                Op::Mul2 => (self.do_mul(1), self.length()),
                Op::Mul3 => (self.do_mul(2), self.length()),
                Op::Popw => (self.do_popw(), self.length()),
                Op::Pushaw => (self.do_pushaw(), self.length()),
                Op::Pushw => (self.do_pushw(), self.length()),
                Op::Restore => (self.do_restore(), self.length()),
                Op::Retg => (self.do_retg(), 0),
                Op::Return(cond) => self.do_return(cond),
                Op::Ret => (self.do_ret(), 0),
                Op::Retps => (self.do_retps(), 0),
                Op::Save => (self.do_save(), self.length()),
                Op::TstW => (self.do_tst(Width::Word), self.length()),
                Op::TstH => (self.do_tst(Width::Half), self.length()),
                Op::TstB => (self.do_tst(Width::Byte), self.length()),
                Op::Unimplemented => (self.illegal(), 0),
            }
        }
    }

    /// The interrupt that is taken at `now`, if one is: the DUART
    /// reports a vector whose priority is above the processor's
    /// interrupt level. The vector of the handler is the complement of
    /// its low six bits.
    #[verifier::opaque]
    pub open spec fn take_interrupt(self, pending: Option<u8>) -> Run {
        match pending {
            Some(val) => if ((self.psw() >> 13) & 0xf) < ipl_of(val & 0x3f) {
                self.on_interrupt((!val) & 0x3f)
            } else {
                self
            },
            None => self,
        }
    }

    /// One instruction at the time `now`: the DUART is serviced and
    /// polled, an interrupt is taken if one is due, and the instruction
    /// at the program counter is decoded and carried out.
    #[verifier::opaque]
    pub open spec fn dispatch(self, now: u64) -> (Run, i32) {
        let s0 = self.with_cpu(CpuState { steps: self.cpu.steps.wrapping_add(1), ..self.cpu });
        let s1 = Run { bus: s0.bus.service(now).poll(now), ..s0 };
        let s2 = s1.take_interrupt(s0.bus.service(now).duart.pending(now));
        if s2.fault is Some {
            (s2, 0)
        } else {
            let s3 = s2.decode_instruction();
            if s3.fault is Some {
                (s3, 0)
            } else {
                s3.execute()
            }
        }
    }

    /// The reset of the processor: the registers are cleared, and the
    /// control block whose address is at 0x80 gives the status word, the
    /// program counter and the stack pointer. An initial context is
    /// skipped. The internal state code becomes 3.
    pub open spec fn reset(self) -> Run {
        let s0 = self.with_cpu(CpuState { r: Seq::new(16, |i: int| 0u32), ..self.cpu });
        let (s1, pcbp) = s0.read_word(0x80);
        let s2 = s1.put(R_PCBP, pcbp);
        let (s3, psw) = s2.read_word(pcbp);
        let s4 = s3.put(R_PSW, psw);
        let (s5, pc) = s4.read_word(pcbp.wrapping_add(4));
        let s6 = s5.put(R_PC, pc);
        let (s7, sp) = s6.read_word(pcbp.wrapping_add(8));
        let s8 = s7.put(R_SP, sp);
        let s9 = if s8.fault is None && (s8.psw() & F_I) != 0 {
            s8.put(R_PSW, s8.psw() & !F_I).put(R_PCBP, s8.reg(R_PCBP).wrapping_add(12))
        } else {
            s8
        };
        s9.with_cpu(s9.cpu.set_isc(3))
    }
}

/// A block move never moves register 0 down, and leaves it within
/// four bytes of the end of memory if it began there.
pub proof fn lemma_block_move_climbs(s: Run)
    requires
        s.cpu.wf(),
        s.reg(0) <= TOP + 4,
    ensures
        s.block_move().cpu.wf(),
        s.block_move().reg(0) >= s.reg(0),
        s.block_move().reg(0) <= TOP + 4,
        s.block_move().fault is None ==> s.fault is None,
    decreases s.reg(2),
{
    reveal(BusState::read_word);
    if !(s.fault is Some || s.reg(2) == 0) {
        let (s1, word) = s.read_word(s.reg(0));
        let s2 = s1.write_word(s1.reg(1), word);
        if s2.fault is None {
            assert(s.reg(0) < TOP);
            let s3 = s2.put(2, (s2.reg(2) - 1) as u32).put(0, s2.reg(0).wrapping_add(4)).put(
                1,
                s2.reg(1).wrapping_add(4),
            );
            lemma_block_move_climbs(s3);
        }
    }
}

/// One step of the machine at the time `now`. After an instruction
/// that ends well the program counter moves on. A fault of the bus for
/// want of a device, or in reading or writing, becomes an external-
/// memory exception, whose own faults are dropped. Every other fault
/// ends the step where it came up.
pub open spec fn step(cpu: CpuState, bus: BusState, now: u64) -> (CpuState, BusState) {
    let (run, increment) = Run::start(cpu, bus).dispatch(now);
    match run.fault {
        None => (run.cpu.with_reg(R_PC, advanced(run.cpu.r[R_PC as int], increment)), run.bus),
        Some(CpuError::Bus(e)) => if e.is_memory_fault() {
            (
                Run::start(run.cpu, run.bus).on_exception().cpu,
                Run::start(run.cpu, run.bus).on_exception().bus,
            )
        } else {
            (run.cpu, run.bus)
        },
        Some(_) => (run.cpu, run.bus),
    }
}

/// One step of the machine at the time `now` that reports its fault
/// in place of handling it: after an instruction that ends well the
/// program counter moves on; a fault ends the step where it came up.
pub open spec fn step_checked(cpu: CpuState, bus: BusState, now: u64) -> (
    CpuState,
    BusState,
    Result<(), CpuError>,
) {
    let (run, increment) = Run::start(cpu, bus).dispatch(now);
    match run.fault {
        None => (
            run.cpu.with_reg(R_PC, advanced(run.cpu.r[R_PC as int], increment)),
            run.bus,
            Ok(()),
        ),
        Some(e) => (run.cpu, run.bus, Err(e)),
    }
}

/// Exception entry. A step whose instruction stops on a fault of the
/// bus for want of a device, or in reading or writing, ends as the
/// entry into the external-memory handler ends. Where that entry does
/// not fault itself, the interrupt stack pointer has moved up by eight,
/// and the program counter and the status word are the ones that the
/// vector table gives: the word at address 0 points at a table whose
/// entry for state code 5 holds the status word and, four bytes on,
/// the program counter.
pub proof fn lemma_exception_entry(cpu: CpuState, bus: BusState, now: u64)
    requires
        cpu.wf(),
        Run::start(cpu, bus).dispatch(now).0.cpu.wf(),
        Run::start(cpu, bus).dispatch(now).0.fault is Some,
        Run::start(cpu, bus).dispatch(now).0.fault->Some_0 is Bus,
        Run::start(cpu, bus).dispatch(now).0.fault->Some_0->Bus_0.is_memory_fault(),
    ensures
        ({
            let run = Run::start(cpu, bus).dispatch(now).0;
            let begun = Run::start(run.cpu, run.bus);
            let entered = begun.on_exception();
            let isp = run.cpu.r[R_ISP as int];
            let pushed = begun.write_word(isp, run.cpu.r[R_PC as int]).put(
                R_PSW,
                faulted(run.cpu.psw()),
            ).write_word(isp.wrapping_add(4), faulted(run.cpu.psw()));
            let table = pushed.read_word(0).1;
            let entry = table.wrapping_add(5u32 << 3);
            let word = pushed.read_word(0).0.read_word(entry).1;
            let pc = pushed.read_word(0).0.read_word(entry).0.read_word(entry.wrapping_add(4)).1;
            &&& step(cpu, bus, now) == (entered.cpu, entered.bus)
            &&& entered.fault is None ==> {
                &&& entered.cpu.r[R_ISP as int] == isp.wrapping_add(8)
                &&& entered.cpu.r[R_PC as int] == pc
                &&& entered.cpu.psw() == gated(word, faulted(run.cpu.psw()))
            }
        }),
{
    reveal(Run::on_exception);
}

} // verus!
