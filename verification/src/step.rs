//! The stepping of the processor: one instruction at a time, with the
//! interrupts before it and the exceptions after it, verified against
//! the model of [`crate::exec_model`].

use crate::bus::Bus;
use crate::cpu::{illegal_opcode, Cpu};
use crate::cpu_model::{Run, F_I, R_PC, R_PCBP, R_PSW, R_SP, WE32100_VERSION};
use crate::device::AccessCode;
use crate::err::{BusError, CpuError};
use crate::exec_model::{ipl_of, step, step_checked, Logic, Width};
use crate::instr::{operation, ExceptionType, Op};
use vstd::prelude::*;

verus! {

impl Cpu {
    /// Resets the processor.
    pub fn reset(&mut self, bus: &mut Bus) -> (r: Result<(), BusError>)
        requires
            old(bus).wf(),
        ensures
            final(bus).wf(),
            Run::start(old(self)@, old(bus)@).reset().cpu == final(self)@,
            Run::start(old(self)@, old(bus)@).reset().bus == final(bus)@,
            match r {
                Ok(v) => Run::start(old(self)@, old(bus)@).reset().fault is None,
                Err(e) => Run::start(old(self)@, old(bus)@).reset().fault == Some(
                    CpuError::Bus(e),
                ),
            },
    {
        self.r = [0; 16];
        assert(self@.r =~= Seq::new(16, |i: int| 0u32));
        let pcbp: u32 = bus.read_word(0x80, AccessCode::AddressFetch)?;
        self.r[R_PCBP] = pcbp;
        let psw: u32 = bus.read_word(pcbp as usize, AccessCode::AddressFetch)?;
        self.r[R_PSW] = psw;
        let pc: u32 = bus.read_word(pcbp.wrapping_add(4) as usize, AccessCode::AddressFetch)?;
        self.r[R_PC] = pc;
        let sp: u32 = bus.read_word(pcbp.wrapping_add(8) as usize, AccessCode::AddressFetch)?;
        self.r[R_SP] = sp;
        if self.r[R_PSW] & F_I != 0 {
            self.r[R_PSW] = self.r[R_PSW] & !F_I;
            self.r[R_PCBP] = self.r[R_PCBP].wrapping_add(12);
        }
        self.set_isc(3);
        Ok(())
    }

    /// Carries out the decoded instruction and returns the amount by
    /// which the program counter is to move on.
    #[verifier::rlimit(80)]
    pub fn execute(&mut self, bus: &mut Bus) -> (r: Result<i32, CpuError>)
        requires
            old(bus).wf(),
        ensures
            final(bus).wf(),
            Run::ends(Run::start(old(self)@, old(bus)@).execute(), final(self)@, final(bus)@, r),
    {
        reveal(Run::execute);
        let length: i32 = self.ir.bytes as i32;
        match operation(self.ir.opcode) {
            Op::Nop1 => Ok(1),
            Op::Nop2 => Ok(2),
            Op::Nop3 => Ok(3),
            Op::Cflush => Ok(length),
            Op::Add2 => {
                self.do_add(bus, 1)?;
                Ok(length)
            },
            Op::Add3 => {
                self.do_add(bus, 2)?;
                Ok(length)
            },
            Op::Sub2 => {
                self.do_sub(bus, 1)?;
                Ok(length)
            },
            Op::Sub3 => {
                self.do_sub(bus, 2)?;
                Ok(length)
            },
            Op::Inc => {
                self.do_inc(bus)?;
                Ok(length)
            },
            Op::Dec => {
                self.do_dec(bus)?;
                Ok(length)
            },
            Op::Alsw3 => {
                self.do_alsw3(bus)?;
                Ok(length)
            },
            Op::And2 => {
                self.do_logic(bus, Logic::And, 1)?;
                Ok(length)
            },
            Op::And3 => {
                self.do_logic(bus, Logic::And, 2)?;
                Ok(length)
            },
            Op::Or2 => {
                self.do_logic(bus, Logic::Or, 1)?;
                Ok(length)
            },
            Op::Or3 => {
                self.do_logic(bus, Logic::Or, 2)?;
                Ok(length)
            },
            Op::Xor2 => {
                self.do_logic(bus, Logic::Xor, 1)?;
                Ok(length)
            },
            Op::Xor3 => {
                self.do_logic(bus, Logic::Xor, 2)?;
                Ok(length)
            },
            Op::Bit => {
                self.do_bit(bus)?;
                Ok(length)
            },
            Op::BranchH(cond) => Ok(self.do_branch(bus, cond, true)),
            Op::BranchB(cond) => Ok(self.do_branch(bus, cond, false)),
            Op::Bsbh => self.do_bsb(bus, true),
            Op::Bsbb => self.do_bsb(bus, false),
            Op::Trap => Err(illegal_opcode()),
            Op::Call => {
                self.do_call(bus)?;
                Ok(0)
            },
            Op::Callps => {
                self.do_callps(bus)?;
                Ok(0)
            },
            Op::Clr => {
                self.do_clr(bus)?;
                Ok(length)
            },
            Op::CompareW => {
                self.do_compare(bus, Width::Word)?;
                Ok(length)
            },
            Op::CompareH => {
                self.do_compare(bus, Width::Half)?;
                Ok(length)
            },
            Op::CompareB => {
                self.do_compare(bus, Width::Byte)?;
                Ok(length)
            },
            Op::DivW2 => {
                self.do_div(bus, Width::Word, 1)?;
                Ok(length)
            },
            Op::DivH2 => {
                self.do_div(bus, Width::Half, 1)?;
                Ok(length)
            },
            Op::DivB2 => {
                self.do_div(bus, Width::Byte, 1)?;
                Ok(length)
            },
            Op::DivW3 => {
                self.do_div(bus, Width::Word, 2)?;
                Ok(length)
            },
            Op::DivH3 => {
                self.do_div(bus, Width::Half, 2)?;
                Ok(length)
            },
            Op::DivB3 => {
                self.do_div(bus, Width::Byte, 2)?;
                Ok(length)
            },
            Op::Mverno => {
                self.r[0] = WE32100_VERSION;
                Ok(length)
            },
            Op::Enbvjmp => {
                self.do_vjmp(bus)?;
                Ok(0)
            },
            Op::Disvjmp => {
                self.do_vjmp(bus)?;
                Ok(0)
            },
            Op::Extf => {
                self.do_extf(bus)?;
                Ok(length)
            },
            Op::Insf => {
                self.do_insf(bus)?;
                Ok(length)
            },
            Op::Jmp => {
                self.do_jmp(bus)?;
                Ok(0)
            },
            Op::Jsb => {
                self.do_jsb(bus)?;
                Ok(0)
            },
            Op::Lls => {
                self.do_lls(bus)?;
                Ok(length)
            },
            Op::Ars => {
                self.do_ars(bus)?;
                Ok(length)
            },
            Op::Lrs => {
                self.do_lrs(bus)?;
                Ok(length)
            },
            Op::Mcom => {
                self.do_mcom(bus)?;
                Ok(length)
            },
            Op::Mneg => {
                self.do_mneg(bus)?;
                Ok(length)
            },
            Op::Movblw => {
                self.block_move(bus)?;
                Ok(length)
            },
            Op::Strend => {
                self.strend(bus)?;
                Ok(length)
            },
            Op::Swap => {
                self.do_swap(bus)?;
                Ok(length)
            },
            Op::Rotw => {
                self.do_rot(bus)?;
                Ok(length)
            },
            Op::Movaw => {
                self.do_movaw(bus)?;
                Ok(length)
            },
            Op::Mov => {
                self.do_mov(bus)?;
                Ok(length)
            },
            Op::Mod2 => {
                self.do_mod(bus, 1)?;
                Ok(length)
            },
            Op::Mod3 => {
                self.do_mod(bus, 2)?;
                Ok(length)
            },
            Op::Mul2 => {
                self.do_mul(bus, 1)?;
                Ok(length)
            },
            Op::Mul3 => {
                self.do_mul(bus, 2)?;
                Ok(length)
            },
            Op::Popw => {
                self.do_popw(bus)?;
                Ok(length)
            },
            Op::Pushaw => {
                self.do_pushaw(bus)?;
                Ok(length)
            },
            Op::Pushw => {
                self.do_pushw(bus)?;
                Ok(length)
            },
            Op::Restore => {
                self.do_restore(bus)?;
                Ok(length)
            },
            Op::Retg => {
                self.do_retg(bus)?;
                Ok(0)
            },
            Op::Return(cond) => self.do_return(bus, cond),
            Op::Ret => {
                self.do_ret(bus)?;
                Ok(0)
            },
            Op::Retps => {
                self.do_retps(bus)?;
                Ok(0)
            },
            Op::Save => {
                self.do_save(bus)?;
                Ok(length)
            },
            Op::TstW => {
                self.do_tst(bus, Width::Word)?;
                Ok(length)
            },
            Op::TstH => {
                self.do_tst(bus, Width::Half)?;
                Ok(length)
            },
            Op::TstB => {
                self.do_tst(bus, Width::Byte)?;
                Ok(length)
            },
            Op::Unimplemented => Err(illegal_opcode()),
        }
    }

    fn take_interrupt(&mut self, bus: &mut Bus, pending: Option<u8>) -> (r: Result<(), CpuError>)
        requires
            old(bus).wf(),
        ensures
            final(bus).wf(),
            Run::start(old(self)@, old(bus)@).take_interrupt(pending).done(
                final(self)@,
                final(bus)@,
                r,
            ),
    {
        reveal(Run::take_interrupt);
        match pending {
            Some(val) => {
                let cpu_ipl: u32 = (self.r[R_PSW] >> 13) & 0xf;
                if cpu_ipl < priority_of(val & 0x3f) {
                    self.on_interrupt(bus, (!val) & 0x3f)
                } else {
                    Ok(())
                }
            },
            None => Ok(()),
        }
    }

    /// Carries out one instruction at the time `now`, and returns the
    /// amount by which the program counter is to move on.
    pub fn dispatch_at(&mut self, bus: &mut Bus, now: u64) -> (r: Result<i32, CpuError>)
        requires
            old(bus).wf(),
        ensures
            final(bus).wf(),
            Run::ends(
                Run::start(old(self)@, old(bus)@).dispatch(now),
                final(self)@,
                final(bus)@,
                r,
            ),
    {
        reveal(Run::dispatch);
        self.steps = self.steps.wrapping_add(1);
        bus.service_at(now);
        let pending: Option<u8> = bus.get_interrupts_at(now);
        self.take_interrupt(bus, pending)?;
        self.decode_instruction(bus)?;
        self.execute(bus)
    }

    /// Carries out one instruction at the time that the clock shows,
    /// and returns the amount by which the program counter is to move
    /// on.
    pub fn dispatch(&mut self, bus: &mut Bus) -> (r: Result<i32, CpuError>)
        requires
            old(bus).wf(),
        ensures
            final(bus).wf(),
            exists|now: u64|
                Run::ends(
                    #[trigger] Run::start(old(self)@, old(bus)@).dispatch(now),
                    final(self)@,
                    final(bus)@,
                    r,
                ),
    {
        let now: u64 = bus.now();
        self.dispatch_at(bus, now)
    }

    /// Steps the processor by one instruction at the time `now`, and
    /// reports a fault in place of handling it.
    pub fn step_with_error_at(&mut self, bus: &mut Bus, now: u64) -> (r: Result<(), CpuError>)
        requires
            old(bus).wf(),
        ensures
            final(bus).wf(),
            (final(self)@, final(bus)@, r) == step_checked(old(self)@, old(bus)@, now),
    {
        let i: i32 = self.dispatch_at(bus, now)?;
        self.r[R_PC] = (self.r[R_PC] as i32).wrapping_add(i) as u32;
        Ok(())
    }

    /// Steps the processor by one instruction at the time that the
    /// clock shows, and reports a fault in place of handling it.
    pub fn step_with_error(&mut self, bus: &mut Bus) -> (r: Result<(), CpuError>)
        requires
            old(bus).wf(),
        ensures
            final(bus).wf(),
            exists|now: u64|
                (final(self)@, final(bus)@, r) == #[trigger] step_checked(
                    old(self)@,
                    old(bus)@,
                    now,
                ),
    {
        let now: u64 = bus.now();
        self.step_with_error_at(bus, now)
    }

    /// Steps the processor by one instruction at the time `now`.
    pub fn step_at(&mut self, bus: &mut Bus, now: u64)
        requires
            old(bus).wf(),
        ensures
            final(bus).wf(),
            (final(self)@, final(bus)@) == step(old(self)@, old(bus)@, now),
    {
        match self.dispatch_at(bus, now) {
            Ok(i) => {
                self.r[R_PC] = (self.r[R_PC] as i32).wrapping_add(i) as u32;
            },
            Err(CpuError::Bus(e)) => {
                if e.memory_fault() {
                    let _ = self.on_exception(bus, &ExceptionType::ExternalMemory);
                }
            },
            Err(_) => {},
        }
    }

    /// Steps the processor by one instruction at the time that the
    /// clock shows.
    pub fn step(&mut self, bus: &mut Bus)
        requires
            old(bus).wf(),
        ensures
            final(bus).wf(),
            exists|now: u64|
                (final(self)@, final(bus)@) == #[trigger] step(old(self)@, old(bus)@, now),
    {
        let now: u64 = bus.now();
        self.step_at(bus, now);
    }
}

fn priority_of(vector: u8) -> (r: u32)
    ensures
        r == ipl_of(vector),
{
    if vector == 0 {
        0
    } else if vector < 8 {
        14
    } else {
        15
    }
}

} // verus!
