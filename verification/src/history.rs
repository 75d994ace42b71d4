//! A ring of the instructions executed last, as text.

use crate::instr::{mnemonic, mnemonic_of, AddrMode, Instruction, Mnemonic, OpType, Operand};
use crate::text::{
    decimal, hex, hex_padded, push_decimal, push_hex, push_hex_padded, push_signed16,
    push_signed32, push_signed8, signed16, signed32, signed8, signed_decimal,
};
use vstd::prelude::*;
use vstd::string::StringExecFns;

verus! {

/// One line of the history: where an instruction stood and how it reads.
#[derive(Debug, Clone, Eq, PartialEq)]
pub struct HistoryEntry {
    pub pc: u32,
    pub text: String,
}

/// How a register is written in an operand.
pub open spec fn register_text(r: usize) -> Seq<char> {
    if r == 9 {
        "%fp"@
    } else if r == 10 {
        "%ap"@
    } else if r == 11 {
        "%psw"@
    } else if r == 12 {
        "%sp"@
    } else if r == 13 {
        "%pcbp"@
    } else if r == 14 {
        "%isp"@
    } else if r == 15 {
        "%pc"@
    } else {
        "%r"@ + decimal(r as nat)
    }
}

/// A displacement with its base register, with a star in front if the
/// operand is deferred; three question marks where no register is
/// named.
pub open spec fn displaced_text(value: Seq<char>, register: Option<usize>, deferred: bool) -> Seq<
    char,
> {
    match register {
        Some(r) => (if deferred {
            "*"@
        } else {
            Seq::<char>::empty()
        }) + value + "("@ + register_text(r) + ")"@,
        None => "???"@,
    }
}

/// How an operand reads in the history.
pub open spec fn operand_text(op: Operand) -> Seq<char> {
    match op.mode {
        AddrMode::Absolute => "&0x"@ + hex(op.embedded as nat),
        AddrMode::AbsoluteDeferred => "*&0x"@ + hex(op.embedded as nat),
        AddrMode::ApShortOffset => signed_decimal(signed8(op.embedded)) + "(%ap)"@,
        AddrMode::FpShortOffset => signed_decimal(signed8(op.embedded)) + "(%fp)"@,
        AddrMode::ByteDisplacement => displaced_text(
            signed_decimal(signed8(op.embedded)),
            op.register,
            false,
        ),
        AddrMode::ByteDisplacementDeferred => displaced_text(
            signed_decimal(signed8(op.embedded)),
            op.register,
            true,
        ),
        AddrMode::HalfwordDisplacement => displaced_text(
            signed_decimal(signed16(op.embedded)),
            op.register,
            false,
        ),
        AddrMode::HalfwordDisplacementDeferred => displaced_text(
            signed_decimal(signed16(op.embedded)),
            op.register,
            true,
        ),
        AddrMode::WordDisplacement => displaced_text(
            signed_decimal(signed32(op.embedded)),
            op.register,
            false,
        ),
        AddrMode::WordDisplacementDeferred => displaced_text(
            signed_decimal(signed32(op.embedded)),
            op.register,
            true,
        ),
        AddrMode::Register => match op.register {
            Some(r) => register_text(r),
            None => "???"@,
        },
        _ => "0x"@ + hex(op.embedded as nat),
    }
}

/// The number of operands that an instruction takes: the operand kinds
/// of its table entry up to the first empty one.
pub open spec fn operand_count(m: Option<Mnemonic>) -> nat {
    match m {
        None => 0,
        Some(m) => if m.ops[0] == OpType::NoOp {
            0
        } else if m.ops[1] == OpType::NoOp {
            1
        } else if m.ops[2] == OpType::NoOp {
            2
        } else if m.ops[3] == OpType::NoOp {
            3
        } else {
            4
        },
    }
}

/// The first `count` operands as text, with commas between them.
pub open spec fn operands_text(operands: Seq<Operand>, count: nat) -> Seq<char>
    decreases count,
{
    if count == 0 {
        Seq::<char>::empty()
    } else if count == 1 {
        operand_text(operands[0])
    } else {
        operands_text(operands, (count - 1) as nat) + ","@ + operand_text(operands[count - 1])
    }
}

/// How an instruction at `pc` reads in the history: the address in
/// eight hexadecimal digits, a colon and two tabs, the mnemonic, and
/// after one more tab the operands, if it has any.
pub open spec fn instruction_text(instr: Instruction, pc: u32) -> Seq<char> {
    let count = operand_count(mnemonic_of(instr.opcode));
    hex_padded(pc as nat, 8) + ":\t\t"@ + instr.name@ + (if count > 0 {
        "\t"@
    } else {
        Seq::<char>::empty()
    }) + operands_text(instr.operands@, count)
}

fn push_register(s: &mut String, r: usize)
    ensures
        final(s)@ == old(s)@ + register_text(r),
{
    if r == 9 {
        s.append("%fp");
    } else if r == 10 {
        s.append("%ap");
    } else if r == 11 {
        s.append("%psw");
    } else if r == 12 {
        s.append("%sp");
    } else if r == 13 {
        s.append("%pcbp");
    } else if r == 14 {
        s.append("%isp");
    } else if r == 15 {
        s.append("%pc");
    } else {
        s.append("%r");
        push_decimal(s, r as u64);
        assert(final(s)@ =~= old(s)@ + register_text(r));
    }
}

/// The three widths of a displacement.
#[derive(Debug, Clone, Copy, PartialEq, Eq)]
pub enum Span {
    Byte,
    Half,
    Word,
}

/// The displacement that an embedded value stands for at a width.
pub open spec fn displacement_text(span: Span, embedded: u32) -> Seq<char> {
    match span {
        Span::Byte => signed_decimal(signed8(embedded)),
        Span::Half => signed_decimal(signed16(embedded)),
        Span::Word => signed_decimal(signed32(embedded)),
    }
}

fn push_displacement(s: &mut String, span: Span, embedded: u32)
    ensures
        final(s)@ == old(s)@ + displacement_text(span, embedded),
{
    match span {
        Span::Byte => push_signed8(s, embedded),
        Span::Half => push_signed16(s, embedded),
        Span::Word => push_signed32(s, embedded),
    }
}

fn push_displaced(s: &mut String, span: Span, op: &Operand, deferred: bool)
    ensures
        final(s)@ == old(s)@ + displaced_text(
            displacement_text(span, op.embedded),
            op.register,
            deferred,
        ),
{
    match op.register {
        Some(r) => {
            if deferred {
                s.append("*");
            }
            push_displacement(s, span, op.embedded);
            s.append("(");
            push_register(s, r);
            s.append(")");
            assert(final(s)@ =~= old(s)@ + displaced_text(
                displacement_text(span, op.embedded),
                op.register,
                deferred,
            ));
        },
        None => {
            s.append("???");
        },
    }
}

fn push_operand(s: &mut String, op: &Operand)
    ensures
        final(s)@ == old(s)@ + operand_text(*op),
{
    match op.mode {
        AddrMode::Absolute => {
            s.append("&0x");
            push_hex(s, op.embedded as u64);
        },
        AddrMode::AbsoluteDeferred => {
            s.append("*&0x");
            push_hex(s, op.embedded as u64);
        },
        AddrMode::ApShortOffset => {
            push_signed8(s, op.embedded);
            s.append("(%ap)");
        },
        AddrMode::FpShortOffset => {
            push_signed8(s, op.embedded);
            s.append("(%fp)");
        },
        AddrMode::ByteDisplacement => push_displaced(s, Span::Byte, op, false),
        AddrMode::ByteDisplacementDeferred => push_displaced(s, Span::Byte, op, true),
        AddrMode::HalfwordDisplacement => push_displaced(s, Span::Half, op, false),
        AddrMode::HalfwordDisplacementDeferred => push_displaced(s, Span::Half, op, true),
        AddrMode::WordDisplacement => push_displaced(s, Span::Word, op, false),
        AddrMode::WordDisplacementDeferred => push_displaced(s, Span::Word, op, true),
        AddrMode::Register => match op.register {
            Some(r) => push_register(s, r),
            None => {
                s.append("???");
            },
        },
        _ => {
            s.append("0x");
            push_hex(s, op.embedded as u64);
        },
    }
    assert(final(s)@ =~= old(s)@ + operand_text(*op));
}

fn count_operands(m: &Option<Mnemonic>) -> (r: usize)
    ensures
        r == operand_count(*m),
        r <= 4,
{
    match m {
        None => 0,
        Some(m) => {
            let mut count: usize = 0;
            let mut more: bool = true;
            while more && count < 4
                invariant
                    count <= 4,
                    forall|k: int| 0 <= k < count ==> m.ops[k] != OpType::NoOp,
                    !more ==> count < 4 && m.ops[count as int] == OpType::NoOp,
                decreases 4 - count + if more { 1nat } else { 0nat },
            {
                match m.ops[count] {
                    OpType::NoOp => {
                        more = false;
                    },
                    _ => {
                        count += 1;
                    },
                }
            }
            count
        },
    }
}

impl HistoryEntry {
    /// How an operand reads in the history.
    pub fn decode_operand(op: &Operand) -> (r: String)
        ensures
            r@ == operand_text(*op),
    {
        let mut s: String = String::new();
        push_operand(&mut s, op);
        assert(s@ =~= operand_text(*op));
        s
    }

    /// How an instruction at `pc` reads in the history.
    pub fn decode_instruction(instr: &Instruction, pc: u32) -> (r: String)
        ensures
            r@ == instruction_text(*instr, pc),
    {
        let mut decoded: String = String::new();
        push_hex_padded(&mut decoded, pc as u64, 8);
        decoded.append(":\t\t");
        decoded.append(instr.name);
        let count: usize = count_operands(&mnemonic(instr.opcode));
        if count > 0 {
            decoded.append("\t");
        }
        let ghost front = decoded@;
        let mut i: usize = 0;
        while i < count
            invariant
                i <= count <= 4,
                decoded@ == front + operands_text(instr.operands@, i as nat),
            decreases count - i,
        {
            if i > 0 {
                decoded.append(",");
            }
            push_operand(&mut decoded, &instr.operands[i]);
            i += 1;
            assert(decoded@ =~= front + operands_text(instr.operands@, i as nat));
        }
        assert(decoded@ =~= instruction_text(*instr, pc));
        decoded
    }

    /// The history entry of an instruction at `pc`.
    pub fn new(instr: &Instruction, pc: u32) -> (entry: HistoryEntry)
        ensures
            entry.pc == pc,
            entry.text@ == instruction_text(*instr, pc),
    {
        HistoryEntry { pc, text: HistoryEntry::decode_instruction(instr, pc) }
    }
}

/// A ring of history entries that overwrites its oldest entry once it
/// is full.
pub struct History {
    /// The number of entries that the ring holds at most.
    pub capacity: u32,
    /// Where the next entry goes.
    pub index: u32,
    /// Where the next entry is read.
    pub read_ptr: u32,
    pub history: Vec<HistoryEntry>,
}

/// The place behind `at` in a ring of `capacity` places.
pub open spec fn next_place(at: u32, capacity: u32) -> u32 {
    ((at + 1) % (capacity as int)) as u32
}

impl History {
    /// The ring has room for something, and both pointers and the
    /// number of entries stay within it.
    pub open spec fn wf(&self) -> bool {
        &&& self.capacity > 0
        &&& self.index < self.capacity
        &&& self.read_ptr < self.capacity
        &&& self.history@.len() <= self.capacity
    }

    /// An empty ring.
    pub fn new(capacity: u32) -> (h: History)
        ensures
            h.capacity == capacity,
            h.index == 0,
            h.read_ptr == 0,
            h.history@.len() == 0,
            capacity > 0 ==> h.wf(),
    {
        History { capacity, index: 0, read_ptr: 0, history: Vec::with_capacity(capacity as usize) }
    }

    /// Adds an entry: behind the others while there is room, else in
    /// place of the one at the write index. The write index moves on;
    /// the read pointer moves on with it when the write index has come
    /// to stand just behind it.
    pub fn push(&mut self, entry: HistoryEntry)
        requires
            old(self).wf(),
        ensures
            final(self).wf(),
            final(self).capacity == old(self).capacity,
            final(self).history@ == (if old(self).history@.len() < old(self).capacity {
                old(self).history@.push(entry)
            } else {
                old(self).history@.update(old(self).index as int, entry)
            }),
            final(self).index == next_place(old(self).index, old(self).capacity),
            final(self).read_ptr == (if final(self).index == next_place(
                old(self).read_ptr,
                old(self).capacity,
            ) {
                next_place(old(self).read_ptr, old(self).capacity)
            } else {
                old(self).read_ptr
            }),
    {
        if self.history.len() < self.capacity as usize {
            self.history.push(entry);
        } else {
            self.history[self.index as usize] = entry;
        }
        self.index = (self.index + 1) % self.capacity;
        if self.index == (self.read_ptr + 1) % self.capacity {
            self.read_ptr = (self.read_ptr + 1) % self.capacity;
        }
    }

    /// The number of entries held.
    pub fn len(&self) -> (r: u32)
        requires
            self.wf(),
        ensures
            r == self.history@.len(),
    {
        self.history.len() as u32
    }

    /// The number of entries that the ring holds at most.
    pub fn capacity(&self) -> (r: u32)
        ensures
            r == self.capacity,
    {
        self.capacity
    }

    /// The text of the entry at the read pointer, which then moves on.
    /// Nothing, and no move, where no entry is there.
    pub fn next(&mut self) -> (r: Option<String>)
        requires
            old(self).wf(),
        ensures
            final(self).wf(),
            final(self).capacity == old(self).capacity,
            final(self).index == old(self).index,
            final(self).history@ == old(self).history@,
            old(self).read_ptr < old(self).history@.len() ==> r == Some(
                old(self).history@[old(self).read_ptr as int].text,
            ) && final(self).read_ptr == next_place(old(self).read_ptr, old(self).capacity),
            old(self).read_ptr >= old(self).history@.len() ==> r == None::<String>
                && final(self).read_ptr == old(self).read_ptr,
    {
        if self.read_ptr as usize >= self.history.len() {
            return None;
        }
        let text: String = self.history[self.read_ptr as usize].text.clone();
        self.read_ptr = (self.read_ptr + 1) % self.capacity;
        Some(text)
    }
}

} // verus!
