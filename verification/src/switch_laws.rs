//! The process call and its return undo each other: what the model of
//! the executor implies for a process switch through control blocks
//! that lie in RAM.

use crate::bus_model::{device_at, BusState, DeviceId, RAM_BASE, RAM_END};
use crate::cpu_model::{
    CpuState, Run, F_CM, F_I, F_R, F_TM, R_AP, R_FP, R_ISP, R_PC, R_PCBP, R_PSW, R_SP,
};
use crate::exec_model::{entered, leaving};
use crate::instr::CpuLevel;
use crate::mem::{word_be, word_bytes};
use vstd::prelude::*;

verus! {

/// Whether the word at `a` lies in RAM, at an address that is a
/// multiple of four.
pub open spec fn cell(bus: BusState, a: u32) -> bool {
    &&& bus.wf()
    &&& a % 4 == 0
    &&& RAM_BASE <= a
    &&& a + 4 <= RAM_BASE + bus.ram.bytes.len()
    &&& a + 4 <= RAM_END
}

/// The word that RAM holds at `a`.
pub open spec fn peek(bus: BusState, a: u32) -> u32 {
    word_be(
        bus.ram.at(a as int),
        bus.ram.at(a + 1),
        bus.ram.at(a + 2),
        bus.ram.at(a + 3),
    )
}

/// Whether two buses differ in RAM and in the dirty flag at most.
pub open spec fn same_devices(a: BusState, b: BusState) -> bool {
    &&& b.wf() == a.wf()
    &&& b.ram.bytes.len() == a.ram.bytes.len()
}

proof fn lemma_aligned(a: u32)
    ensures
        (a as usize) & 3 == 0 <==> a % 4 == 0,
{
    assert(a & 3 == 0 <==> a % 4 == 0) by (bit_vector);
    assert((a as usize) & 3 == (a & 3) as usize) by (bit_vector);
}

proof fn lemma_read(s: Run, a: u32)
    requires
        s.fault is None,
        cell(s.bus, a),
    ensures
        s.read_word(a) == (s, peek(s.bus, a)),
{
    reveal(BusState::read_word);
    lemma_aligned(a);
    assert(device_at(a as usize) == Some(DeviceId::Ram));
}

proof fn lemma_write(s: Run, a: u32, v: u32)
    requires
        s.fault is None,
        cell(s.bus, a),
    ensures
        s.write_word(a, v).fault is None,
        s.write_word(a, v).cpu == s.cpu,
        same_devices(s.bus, s.write_word(a, v).bus),
        peek(s.write_word(a, v).bus, a) == v,
        forall|b: u32|
            #![trigger peek(s.write_word(a, v).bus, b)]
            cell(s.bus, b) && b != a ==> peek(s.write_word(a, v).bus, b) == peek(s.bus, b),
{
    reveal(BusState::write_word);
    reveal(BusState::write);
    lemma_aligned(a);
    assert(device_at(a as usize) == Some(DeviceId::Ram));
    let t = s.write_word(a, v);
    let data = word_bytes(v);
    assert(t.bus.ram.bytes == s.bus.ram.with_bytes(a as usize, data).bytes);
    assert(((v >> 24) as u8 as u32) << 24 | ((v >> 16) as u8 as u32) << 16 | ((v >> 8) as u8
        as u32) << 8 | (v as u8 as u32) == v) by (bit_vector);
    assert(t.bus.ram.at(a as int) == data[0]);
    assert(t.bus.ram.at(a + 1) == data[1]);
    assert(t.bus.ram.at(a + 2) == data[2]);
    assert(t.bus.ram.at(a + 3) == data[3]);
    assert forall|b: u32| cell(s.bus, b) && b != a implies #[trigger] peek(t.bus, b) == peek(
        s.bus,
        b,
    ) by {
        assert(t.bus.ram.at(b as int) == s.bus.ram.at(b as int));
        assert(t.bus.ram.at(b + 1) == s.bus.ram.at(b + 1));
        assert(t.bus.ram.at(b + 2) == s.bus.ram.at(b + 2));
        assert(t.bus.ram.at(b + 3) == s.bus.ram.at(b + 3));
    }
}

/// Whether the `n` words from `base` on lie in RAM.
pub open spec fn region(bus: BusState, base: u32, n: nat) -> bool {
    &&& bus.wf()
    &&& base % 4 == 0
    &&& RAM_BASE <= base
    &&& base + 4 * n <= RAM_BASE + bus.ram.bytes.len()
    &&& base + 4 * n <= RAM_END
}

/// Whether `t` holds what `s` holds in every word of RAM outside the
/// `n` words from `base` on.
pub open spec fn kept_outside(s: BusState, t: BusState, base: u32, n: nat) -> bool {
    &&& same_devices(s, t)
    &&& forall|b: u32|
        #![trigger peek(t, b)]
        cell(s, b) && !(base <= b < base + 4 * n) ==> peek(t, b) == peek(s, b)
}

proof fn lemma_save_from(s: Run, r: int, base: u32)
    requires
        s.fault is None,
        s.cpu.wf(),
        0 <= r <= 9,
        region(s.bus, base, (9 - r) as nat),
    ensures
        s.save_from(r, base).fault is None,
        s.save_from(r, base).cpu == s.cpu,
        kept_outside(s.bus, s.save_from(r, base).bus, base, (9 - r) as nat),
        forall|i: int|
            #![trigger s.cpu.r[i]]
            r <= i < 9 ==> peek(s.save_from(r, base).bus, (base + 4 * (i - r)) as u32)
                == s.cpu.r[i],
    decreases 9 - r,
{
    if r < 9 {
        let s1 = s.write_word(base, s.reg(r as usize));
        lemma_write(s, base, s.reg(r as usize));
        let next = base.wrapping_add(4);
        assert(next == base + 4);
        lemma_save_from(s1, r + 1, next);
        let t = s.save_from(r, base);
        assert(t == s1.save_from(r + 1, next));
        assert forall|i: int| #![trigger s.cpu.r[i]] r <= i < 9 implies peek(
            t.bus,
            (base + 4 * (i - r)) as u32,
        ) == s.cpu.r[i] by {
            if i == r {
                assert(cell(s1.bus, base));
                assert(peek(t.bus, base) == peek(s1.bus, base));
            } else {
                assert((next + 4 * (i - (r + 1))) as u32 == (base + 4 * (i - r)) as u32);
                assert(s1.cpu.r[i] == s.cpu.r[i]);
            }
        }
        assert forall|b: u32| #![trigger peek(t.bus, b)] cell(s.bus, b) && !(base <= b < base + 4
            * (9 - r)) implies peek(t.bus, b) == peek(s.bus, b) by {
            assert(cell(s1.bus, b));
            assert(peek(t.bus, b) == peek(s1.bus, b));
            assert(peek(s1.bus, b) == peek(s.bus, b));
        }
    }
}

proof fn lemma_restore_from(s: Run, r: int, base: u32)
    requires
        s.fault is None,
        s.cpu.wf(),
        0 <= r <= 9,
        region(s.bus, base, (9 - r) as nat),
    ensures
        s.restore_from(r, base).fault is None,
        s.restore_from(r, base).bus == s.bus,
        s.restore_from(r, base).cpu.wf(),
        s.restore_from(r, base).cpu.ir == s.cpu.ir,
        forall|i: int|
            #![trigger s.restore_from(r, base).cpu.r[i]]
            0 <= i < 16 ==> s.restore_from(r, base).cpu.r[i] == (if r <= i < 9 {
                peek(s.bus, (base + 4 * (i - r)) as u32)
            } else {
                s.cpu.r[i]
            }),
    decreases 9 - r,
{
    if r < 9 {
        lemma_read(s, base);
        let s1 = s.put(r as usize, peek(s.bus, base));
        let next = base.wrapping_add(4);
        assert(next == base + 4);
        lemma_restore_from(s1, r + 1, next);
        let t = s.restore_from(r, base);
        assert(t == s1.restore_from(r + 1, next));
        assert forall|i: int| #![trigger t.cpu.r[i]] 0 <= i < 16 implies t.cpu.r[i] == (if r <= i
            < 9 {
            peek(s.bus, (base + 4 * (i - r)) as u32)
        } else {
            s.cpu.r[i]
        }) by {
            if r < i < 9 {
                assert((next + 4 * (i - (r + 1))) as u32 == (base + 4 * (i - r)) as u32);
            }
        }
    }
}

proof fn lemma_save_status(s: Run, new_pcbp: u32)
    requires
        s.fault is None,
        s.cpu.wf(),
        region(s.bus, s.reg(R_PCBP), 3),
        cell(s.bus, new_pcbp),
        !(s.reg(R_PCBP) <= new_pcbp < s.reg(R_PCBP) + 12),
    ensures
        ({
            let t = s.save_status(new_pcbp);
            let pcbp = s.reg(R_PCBP);
            let psw = (s.psw() & !F_R) | (peek(s.bus, new_pcbp) & F_R);
            &&& t.fault is None
            &&& t.cpu.wf()
            &&& t.cpu.ir == s.cpu.ir
            &&& t.cpu.error_context == s.cpu.error_context
            &&& forall|i: int|
                #![trigger t.cpu.r[i]]
                0 <= i < 16 ==> t.cpu.r[i] == (if i == R_PSW {
                    psw
                } else {
                    s.cpu.r[i]
                })
            &&& peek(t.bus, pcbp) == psw
            &&& peek(t.bus, (pcbp + 4) as u32) == s.reg(R_PC)
            &&& peek(t.bus, (pcbp + 8) as u32) == s.reg(R_SP)
            &&& kept_outside(s.bus, t.bus, pcbp, 3)
        }),
{
    let pcbp = s.reg(R_PCBP);
    let s1 = s.write_word(pcbp.wrapping_add(4), s.reg(R_PC));
    lemma_write(s, pcbp.wrapping_add(4), s.reg(R_PC));
    let s2 = s1.put(R_PSW, s1.psw() & !F_R);
    lemma_read(s2, new_pcbp);
    assert(peek(s2.bus, new_pcbp) == peek(s.bus, new_pcbp));
    let s4 = s2.put(R_PSW, s2.psw() | (peek(s.bus, new_pcbp) & F_R));
    lemma_write(s4, pcbp, s4.psw());
    let s5 = s4.write_word(pcbp, s4.psw());
    lemma_write(s5, pcbp.wrapping_add(8), s5.reg(R_SP));
    let t = s5.write_word(pcbp.wrapping_add(8), s5.reg(R_SP));
    assert(t == s.save_status(new_pcbp));
    assert(peek(t.bus, pcbp) == peek(s5.bus, pcbp));
    assert(peek(s5.bus, (pcbp + 4) as u32) == peek(s4.bus, (pcbp + 4) as u32));
    assert(peek(t.bus, (pcbp + 4) as u32) == peek(s5.bus, (pcbp + 4) as u32));
    assert forall|b: u32| #![trigger peek(t.bus, b)] cell(s.bus, b) && !(pcbp <= b < pcbp + 4
        * 3) implies peek(t.bus, b) == peek(s.bus, b) by {
        assert(peek(t.bus, b) == peek(s5.bus, b));
        assert(peek(s5.bus, b) == peek(s4.bus, b));
        assert(peek(s1.bus, b) == peek(s.bus, b));
    }
}

proof fn lemma_save_registers(s: Run)
    requires
        s.fault is None,
        s.cpu.wf(),
        region(s.bus, s.reg(R_PCBP), 16),
    ensures
        ({
            let t = s.save_registers();
            let pcbp = s.reg(R_PCBP);
            &&& t.fault is None
            &&& t.cpu == s.cpu.with_reg(R_FP, (pcbp + 52) as u32)
            &&& peek(t.bus, (pcbp + 24) as u32) == s.reg(R_FP)
            &&& peek(t.bus, (pcbp + 20) as u32) == s.reg(R_AP)
            &&& forall|i: int|
                #![trigger s.cpu.r[i]]
                0 <= i < 9 ==> peek(t.bus, (pcbp + 28 + 4 * i) as u32) == s.cpu.r[i]
            &&& kept_outside(s.bus, t.bus, (pcbp + 20) as u32, 11)
        }),
{
    let pcbp = s.reg(R_PCBP);
    lemma_write(s, pcbp.wrapping_add(24), s.reg(R_FP));
    let s1 = s.write_word(pcbp.wrapping_add(24), s.reg(R_FP));
    lemma_save_from(s1, 0, pcbp.wrapping_add(28));
    let s2 = s1.save_from(0, pcbp.wrapping_add(28));
    lemma_write(s2, pcbp.wrapping_add(20), s2.reg(R_AP));
    let s3 = s2.write_word(pcbp.wrapping_add(20), s2.reg(R_AP));
    let t = s.save_registers();
    assert(t == s3.put(R_FP, pcbp.wrapping_add(52)));
    assert(cell(s1.bus, (pcbp + 24) as u32));
    assert(peek(s2.bus, (pcbp + 24) as u32) == peek(s1.bus, (pcbp + 24) as u32));
    assert(peek(s3.bus, (pcbp + 24) as u32) == peek(s2.bus, (pcbp + 24) as u32));
    assert forall|i: int| #![trigger s.cpu.r[i]] 0 <= i < 9 implies peek(
        t.bus,
        (pcbp + 28 + 4 * i) as u32,
    ) == s.cpu.r[i] by {
        assert(s1.cpu.r[i] == s.cpu.r[i]);
        assert((pcbp.wrapping_add(28) + 4 * (i - 0)) as u32 == (pcbp + 28 + 4 * i) as u32);
        assert(peek(s2.bus, (pcbp + 28 + 4 * i) as u32) == s1.cpu.r[i]);
        assert(cell(s2.bus, (pcbp + 28 + 4 * i) as u32));
        assert(peek(s3.bus, (pcbp + 28 + 4 * i) as u32) == peek(
            s2.bus,
            (pcbp + 28 + 4 * i) as u32,
        ));
    }
    assert forall|b: u32| #![trigger peek(t.bus, b)] cell(s.bus, b) && !((pcbp + 20) as u32 <= b
        < (pcbp + 20) as u32 + 4 * 11) implies peek(t.bus, b) == peek(s.bus, b) by {
        assert(cell(s1.bus, b));
        assert(cell(s2.bus, b));
        assert(peek(s3.bus, b) == peek(s2.bus, b));
        assert(peek(s2.bus, b) == peek(s1.bus, b));
        assert(peek(s1.bus, b) == peek(s.bus, b));
    }
}

proof fn lemma_context_switch_2(s: Run, new_pcbp: u32)
    requires
        s.fault is None,
        s.cpu.wf(),
        region(s.bus, new_pcbp, 3),
    ensures
        ({
            let t = s.context_switch_2(new_pcbp);
            let word = peek(s.bus, new_pcbp) & !F_TM;
            &&& t.fault is None
            &&& t.bus == s.bus
            &&& t.cpu.wf()
            &&& t.cpu.ir == s.cpu.ir
            &&& t.cpu.error_context == s.cpu.error_context
            &&& forall|i: int|
                #![trigger t.cpu.r[i]]
                0 <= i < 16 ==> t.cpu.r[i] == (if i == R_PCBP {
                    if word & F_I != 0 {
                        (new_pcbp + 12) as u32
                    } else {
                        new_pcbp
                    }
                } else if i == R_PSW {
                    if word & F_I != 0 {
                        word & !F_I
                    } else {
                        word
                    }
                } else if i == R_PC {
                    peek(s.bus, (new_pcbp + 4) as u32)
                } else if i == R_SP {
                    peek(s.bus, (new_pcbp + 8) as u32)
                } else {
                    s.cpu.r[i]
                })
        }),
{
    let s1 = s.put(R_PCBP, new_pcbp);
    lemma_read(s1, new_pcbp);
    let s3 = s1.put(R_PSW, peek(s.bus, new_pcbp) & !F_TM);
    lemma_read(s3, new_pcbp.wrapping_add(4));
    let s5 = s3.put(R_PC, peek(s.bus, (new_pcbp + 4) as u32));
    lemma_read(s5, new_pcbp.wrapping_add(8));
}

proof fn lemma_no_block_moves(s: Run)
    requires
        s.fault is None,
        s.cpu.wf(),
        s.psw() & F_R != 0,
        cell(s.bus, (s.reg(R_PCBP) + 64) as u32),
        s.reg(R_PCBP) + 64 <= u32::MAX,
        peek(s.bus, (s.reg(R_PCBP) + 64) as u32) == 0,
    ensures
        ({
            let t = s.context_switch_3();
            &&& t.fault is None
            &&& t.bus == s.bus
            &&& t.cpu.wf()
            &&& t.cpu.ir == s.cpu.ir
            &&& t.cpu.error_context == s.cpu.error_context
            &&& forall|i: int|
                #![trigger t.cpu.r[i]]
                0 <= i < 16 ==> t.cpu.r[i] == (if i == 0 {
                    (s.reg(R_PCBP) + 72) as u32
                } else if i == 2 {
                    0
                } else {
                    s.cpu.r[i]
                })
        }),
{
    let s1 = s.put(0, s.reg(R_PCBP).wrapping_add(64));
    lemma_read(s1, s1.reg(0));
    let s3 = s1.put(2, 0);
    let s4 = s3.put(0, s3.reg(0).wrapping_add(4));
    assert(s4.move_blocks() == s4);
}

proof fn lemma_reload_registers(s: Run, pcbp: u32)
    requires
        s.fault is None,
        s.cpu.wf(),
        pcbp + 20 <= u32::MAX,
        region(s.bus, (pcbp + 20) as u32, 11),
    ensures
        ({
            let t = s.reload_registers(pcbp);
            &&& t.fault is None
            &&& t.bus == s.bus
            &&& t.cpu.wf()
            &&& forall|i: int|
                #![trigger t.cpu.r[i]]
                0 <= i < 16 ==> t.cpu.r[i] == (if i < 9 {
                    peek(s.bus, (pcbp + 28 + 4 * i) as u32)
                } else if i == R_FP {
                    peek(s.bus, (pcbp + 24) as u32)
                } else if i == R_AP {
                    peek(s.bus, (pcbp + 20) as u32)
                } else {
                    s.cpu.r[i]
                })
        }),
{
    lemma_read(s, pcbp.wrapping_add(24));
    let s1 = s.put(R_FP, peek(s.bus, (pcbp + 24) as u32));
    lemma_restore_from(s1, 0, pcbp.wrapping_add(28));
    let s2 = s1.restore_from(0, pcbp.wrapping_add(28));
    lemma_read(s2, pcbp.wrapping_add(20));
    let t = s.reload_registers(pcbp);
    assert(t == s2.put(R_AP, peek(s.bus, (pcbp + 20) as u32)));
    assert forall|i: int| #![trigger t.cpu.r[i]] 0 <= i < 9 implies t.cpu.r[i] == peek(
        s.bus,
        (pcbp + 28 + 4 * i) as u32,
    ) by {
        assert(s2.cpu.r[i] == peek(s1.bus, (pcbp.wrapping_add(28) + 4 * (i - 0)) as u32));
    }
}

/// The control block pointer that the second phase of a switch leaves
/// for a control block at `pcbp` whose status word is `word`: behind
/// the initial context if the word has its bit set.
pub open spec fn block_behind(pcbp: u32, word: u32) -> u32 {
    if (word & !F_TM) & F_I != 0 {
        (pcbp + 12) as u32
    } else {
        pcbp
    }
}

/// The status word that a process switch saves for the running
/// process, whose status word is `psw`, on the way to a process whose
/// control block begins with `word`.
pub open spec fn saved_status(psw: u32, word: u32) -> u32 {
    (leaving(psw) & !F_R) | (word & F_R)
}

/// What a call of the process at `cpu.r[0]` leaves behind for the
/// return: the old control block pointer on the interrupt stack, and
/// the old process in its control block.
pub open spec fn left_by_call(cpu: CpuState, bus: BusState, called: Run) -> bool {
    let old_pcbp = cpu.r[R_PCBP as int];
    let isp = cpu.r[R_ISP as int];
    let word = peek(bus, cpu.r[0]);
    &&& called.fault is None
    &&& called.cpu.wf()
    &&& called.cpu.priv_level() == CpuLevel::Kernel
    &&& called.cpu.r[R_ISP as int] == isp + 4
    &&& region(called.bus, old_pcbp, 17)
    &&& cell(called.bus, isp)
    &&& peek(called.bus, isp) == old_pcbp
    &&& peek(called.bus, old_pcbp) == saved_status(cpu.psw(), word)
    &&& peek(called.bus, (old_pcbp + 4) as u32) == cpu.r[R_PC as int].wrapping_add(2)
    &&& peek(called.bus, (old_pcbp + 8) as u32) == cpu.r[R_SP as int]
    &&& peek(called.bus, (old_pcbp + 20) as u32) == cpu.r[R_AP as int]
    &&& peek(called.bus, (old_pcbp + 24) as u32) == cpu.r[R_FP as int]
    &&& peek(called.bus, (old_pcbp + 64) as u32) == 0
    &&& forall|i: int|
        #![trigger cpu.r[i]]
        0 <= i < 9 ==> peek(called.bus, (old_pcbp + 28 + 4 * i) as u32) == cpu.r[i]
}

/// Where a call of a process begins: at kernel level, with both
/// control blocks and the top of the interrupt stack in RAM and apart,
/// the called process's register-save bit set and its level the kernel
/// level, and no block moves listed in either control block.
pub open spec fn ready_to_call(cpu: CpuState, bus: BusState) -> bool {
    &&& cpu.wf()
    &&& cpu.priv_level() == CpuLevel::Kernel
    &&& cpu.psw() & F_I == 0
    &&& region(bus, cpu.r[R_PCBP as int], 17)
    &&& region(bus, cpu.r[0], 20)
    &&& cell(bus, cpu.r[R_ISP as int])
    &&& (cpu.r[R_PCBP as int] + 68 <= cpu.r[0] || cpu.r[0] + 80 <= cpu.r[R_PCBP as int])
    &&& !(cpu.r[R_PCBP as int] <= cpu.r[R_ISP as int] < cpu.r[R_PCBP as int] + 68)
    &&& !(cpu.r[0] <= cpu.r[R_ISP as int] < cpu.r[0] + 80)
    &&& peek(bus, cpu.r[0]) & F_R != 0
    &&& peek(bus, cpu.r[0]) & F_CM == 0
    &&& peek(bus, (block_behind(cpu.r[0], peek(bus, cpu.r[0])) + 64) as u32) == 0
    &&& peek(bus, (cpu.r[R_PCBP as int] + 64) as u32) == 0
}

/// The run at the point of a process call where the old control
/// block pointer is pushed and the program counter and the status word
/// are made ready to be saved.
pub open spec fn call_begun(cpu: CpuState, bus: BusState) -> Run {
    let s0 = Run::start(cpu, bus).with_cpu(
        CpuState { error_context: crate::instr::ErrorContext::ResetIntStack, ..cpu },
    );
    let s1 = s0.push(R_ISP, s0.reg(R_PCBP));
    let s2 = s1.put(R_PC, s1.reg(R_PC).wrapping_add(2));
    s2.put(R_PSW, leaving(s2.psw()))
}

/// What the first phase of the switch leaves: the old process in its
/// control block, and the new control block untouched.
pub open spec fn saved_by_call(cpu: CpuState, bus: BusState, s: Run) -> bool {
    let old_pcbp = cpu.r[R_PCBP as int];
    let new_pcbp = cpu.r[0];
    let isp = cpu.r[R_ISP as int];
    let word = peek(bus, new_pcbp);
    &&& s.fault is None
    &&& s.cpu.wf()
    &&& s.cpu.r[R_ISP as int] == isp + 4
    &&& s.cpu.r[R_PCBP as int] == old_pcbp
    &&& s.psw() == saved_status(cpu.psw(), word)
    &&& same_devices(bus, s.bus)
    &&& peek(s.bus, isp) == old_pcbp
    &&& peek(s.bus, old_pcbp) == saved_status(cpu.psw(), word)
    &&& peek(s.bus, (old_pcbp + 4) as u32) == cpu.r[R_PC as int].wrapping_add(2)
    &&& peek(s.bus, (old_pcbp + 8) as u32) == cpu.r[R_SP as int]
    &&& peek(s.bus, (old_pcbp + 20) as u32) == cpu.r[R_AP as int]
    &&& peek(s.bus, (old_pcbp + 24) as u32) == cpu.r[R_FP as int]
    &&& peek(s.bus, (old_pcbp + 64) as u32) == 0
    &&& peek(s.bus, new_pcbp) == word
    &&& peek(s.bus, (block_behind(new_pcbp, word) + 64) as u32) == 0
    &&& forall|i: int|
        #![trigger cpu.r[i]]
        0 <= i < 9 ==> peek(s.bus, (old_pcbp + 28 + 4 * i) as u32) == cpu.r[i]
}

#[verifier::rlimit(60)]
proof fn lemma_call_saves(cpu: CpuState, bus: BusState)
    requires
        ready_to_call(cpu, bus),
    ensures
        saved_by_call(cpu, bus, call_begun(cpu, bus).context_switch_1(cpu.r[0])),
{
    let old_pcbp = cpu.r[R_PCBP as int];
    let new_pcbp = cpu.r[0];
    let isp = cpu.r[R_ISP as int];
    let w = peek(bus, new_pcbp);
    let behind = block_behind(new_pcbp, w);
    assert(forall|x: u32, y: u32| y & F_R != 0 ==> ((x & !F_R) | (y & F_R)) & F_R != 0)
        by (bit_vector);
    let s0 = Run::start(cpu, bus).with_cpu(
        CpuState { error_context: crate::instr::ErrorContext::ResetIntStack, ..cpu },
    );
    lemma_write(s0, isp, old_pcbp);
    let s1 = s0.push(R_ISP, old_pcbp);
    let s3 = call_begun(cpu, bus);
    assert(s3.bus == s1.bus);
    assert(peek(s3.bus, new_pcbp) == w);
    lemma_save_status(s3, new_pcbp);
    let s4 = s3.save_status(new_pcbp);
    let psw1 = saved_status(cpu.psw(), w);
    assert(s4.psw() == psw1);
    lemma_save_registers(s4);
    let s5 = s4.save_registers();
    assert(s5 == s3.context_switch_1(new_pcbp));
    assert(peek(s5.bus, new_pcbp) == w) by {
        assert(cell(s3.bus, new_pcbp));
        assert(peek(s4.bus, new_pcbp) == peek(s3.bus, new_pcbp));
        assert(cell(s4.bus, new_pcbp));
    }
    assert(peek(s5.bus, (behind + 64) as u32) == 0) by {
        let c = (behind + 64) as u32;
        assert(cell(bus, c));
        assert(peek(s1.bus, c) == peek(bus, c));
        assert(cell(s3.bus, c));
        assert(peek(s4.bus, c) == peek(s3.bus, c));
        assert(cell(s4.bus, c));
        assert(peek(s5.bus, c) == peek(s4.bus, c));
    }
    assert(peek(s5.bus, isp) == old_pcbp) by {
        assert(cell(s1.bus, isp));
        assert(cell(s3.bus, isp));
        assert(peek(s4.bus, isp) == peek(s3.bus, isp));
        assert(cell(s4.bus, isp));
        assert(peek(s5.bus, isp) == peek(s4.bus, isp));
    }
    assert(peek(s5.bus, old_pcbp) == psw1 && peek(s5.bus, (old_pcbp + 4) as u32)
        == cpu.r[R_PC as int].wrapping_add(2) && peek(s5.bus, (old_pcbp + 8) as u32)
        == cpu.r[R_SP as int]) by {
        assert(cell(s4.bus, old_pcbp));
        assert(cell(s4.bus, (old_pcbp + 4) as u32));
        assert(cell(s4.bus, (old_pcbp + 8) as u32));
        assert(peek(s5.bus, old_pcbp) == peek(s4.bus, old_pcbp));
        assert(peek(s5.bus, (old_pcbp + 4) as u32) == peek(s4.bus, (old_pcbp + 4) as u32));
        assert(peek(s5.bus, (old_pcbp + 8) as u32) == peek(s4.bus, (old_pcbp + 8) as u32));
    }
    assert(peek(s5.bus, (old_pcbp + 64) as u32) == 0) by {
        let c = (old_pcbp + 64) as u32;
        assert(cell(bus, c));
        assert(peek(s1.bus, c) == peek(bus, c));
        assert(cell(s3.bus, c));
        assert(peek(s4.bus, c) == peek(s3.bus, c));
        assert(cell(s4.bus, c));
        assert(peek(s5.bus, c) == peek(s4.bus, c));
    }
    assert forall|i: int| #![trigger cpu.r[i]] 0 <= i < 9 implies peek(
        s5.bus,
        (old_pcbp + 28 + 4 * i) as u32,
    ) == cpu.r[i] by {
        assert(s4.cpu.r[i] == cpu.r[i]);
    }
}

#[verifier::rlimit(60)]
proof fn lemma_call(cpu: CpuState, bus: BusState)
    requires
        ready_to_call(cpu, bus),
    ensures
        left_by_call(cpu, bus, Run::start(cpu, bus).do_callps()),
{
    reveal(Run::do_callps);
    let new_pcbp = cpu.r[0];
    let w = peek(bus, new_pcbp);
    let behind = block_behind(new_pcbp, w);
    assert(forall|y: u32|
        y & F_R != 0 ==> entered(y & !F_TM) & F_R != 0 && entered((y & !F_TM) & !F_I) & F_R != 0)
        by (bit_vector);
    assert(forall|y: u32|
        y & F_CM == 0 ==> ((entered(y & !F_TM) & F_CM) >> 11) & 3 == 0 && ((entered(
            (y & !F_TM) & !F_I,
        ) & F_CM) >> 11) & 3 == 0) by (bit_vector);
    lemma_call_saves(cpu, bus);
    let s3 = call_begun(cpu, bus);
    let s5 = s3.context_switch_1(new_pcbp);
    lemma_context_switch_2(s5, new_pcbp);
    let s6 = s5.context_switch_2(new_pcbp);
    assert(s6.reg(R_PCBP) == behind);
    let s7 = s6.put(R_PSW, entered(s6.psw()));
    lemma_no_block_moves(s7);
    let s8 = s7.context_switch_3();
    let s0 = Run::start(cpu, bus).with_cpu(
        CpuState { error_context: crate::instr::ErrorContext::ResetIntStack, ..cpu },
    );
    lemma_write(s0, cpu.r[R_ISP as int], cpu.r[R_PCBP as int]);
    let s1 = s0.push(R_ISP, s0.reg(R_PCBP));
    let s2 = s1.put(R_PC, s1.reg(R_PC).wrapping_add(2));
    assert(s2.fault is None);
    assert(s3 == s2.put(R_PSW, leaving(s2.psw())));
    assert(s8 == s2.switch_to(new_pcbp));
    let called = Run::start(cpu, bus).do_callps();
    assert(called == s8.with_cpu(
        CpuState { error_context: crate::instr::ErrorContext::NoContext, ..s8.cpu },
    ));
    assert(called.bus == s5.bus);
}

#[verifier::rlimit(60)]
proof fn lemma_return(cpu: CpuState, bus: BusState, called: Run)
    requires
        cpu.wf(),
        cpu.psw() & F_I == 0,
        peek(bus, cpu.r[0]) & F_R != 0,
        left_by_call(cpu, bus, called),
    ensures
        ({
            let back = Run::start(called.cpu, called.bus).do_retps();
            &&& back.fault is None
            &&& back.cpu.r[R_PCBP as int] == cpu.r[R_PCBP as int]
            &&& back.cpu.r[R_SP as int] == cpu.r[R_SP as int]
            &&& back.cpu.r[R_ISP as int] == cpu.r[R_ISP as int]
            &&& back.cpu.r[R_PC as int] == cpu.r[R_PC as int].wrapping_add(2)
            &&& forall|i: int| 0 <= i <= 10 ==> back.cpu.r[i] == cpu.r[i]
        }),
{
    reveal(Run::do_retps);
    let old_pcbp = cpu.r[R_PCBP as int];
    let isp = cpu.r[R_ISP as int];
    let psw1 = saved_status(cpu.psw(), peek(bus, cpu.r[0]));
    assert(forall|x: u32, y: u32|
        x & F_I == 0 ==> (saved_status(x, y) & !F_TM) & F_I == 0) by (bit_vector);
    assert(forall|x: u32, y: u32| y & F_R != 0 ==> (saved_status(x, y) & !F_TM) & F_R != 0)
        by (bit_vector);
    let r0 = Run::start(called.cpu, called.bus);
    let r1 = r0.put(R_ISP, r0.reg(R_ISP).wrapping_sub(4));
    assert(r1.reg(R_ISP) == isp);
    lemma_read(r1, isp);
    lemma_read(r1, old_pcbp);
    let r3 = r1.put(R_PSW, (r1.psw() & !F_R) | (psw1 & F_R));
    lemma_context_switch_2(r3, old_pcbp);
    let r4 = r3.context_switch_2(old_pcbp);
    assert(r4.reg(R_PCBP) == old_pcbp);
    assert(r4.psw() == psw1 & !F_TM);
    lemma_no_block_moves(r4);
    let r5 = r4.context_switch_3();
    assert(r5.psw() & F_R != 0);
    lemma_reload_registers(r5, old_pcbp);
    let back = r0.do_retps();
    assert(back == r5.reload_registers(old_pcbp));
    assert forall|i: int| 0 <= i <= 10 implies back.cpu.r[i] == cpu.r[i] by {
        if i < 9 {
            assert(peek(called.bus, (old_pcbp + 28 + 4 * i) as u32) == cpu.r[i]);
        }
    }
}

/// Process switch round trip. Let a process at kernel level call the
/// process whose control block register 0 points at, and let that
/// process return at once. If the control block of the called process
/// has its register-save bit set and names the kernel level, if neither
/// control block lists block moves, and if the two control blocks and
/// the top of the interrupt stack lie in RAM apart from each other,
/// then neither instruction faults, and the return restores the control
/// block pointer, the stack pointer, the interrupt stack pointer,
/// registers 0 to 8, the frame pointer and the argument pointer exactly;
/// the program counter points behind the call.
pub proof fn lemma_process_switch_round_trip(cpu: CpuState, bus: BusState)
    requires
        ready_to_call(cpu, bus),
    ensures
        ({
            let called = Run::start(cpu, bus).do_callps();
            let back = Run::start(called.cpu, called.bus).do_retps();
            &&& called.fault is None
            &&& back.fault is None
            &&& back.cpu.r[R_PCBP as int] == cpu.r[R_PCBP as int]
            &&& back.cpu.r[R_SP as int] == cpu.r[R_SP as int]
            &&& back.cpu.r[R_ISP as int] == cpu.r[R_ISP as int]
            &&& back.cpu.r[R_PC as int] == cpu.r[R_PC as int].wrapping_add(2)
            &&& forall|i: int| 0 <= i <= 10 ==> back.cpu.r[i] == cpu.r[i]
        }),
{
    lemma_call(cpu, bus);
    lemma_return(cpu, bus, Run::start(cpu, bus).do_callps());
}

} // verus!
