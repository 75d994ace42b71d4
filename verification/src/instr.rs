//! The instruction set as data: the data types and operand kinds, the
//! decoded form of an operand and of an instruction, and the table that
//! gives each opcode its mnemonic, its operands and its operation.

use vstd::prelude::*;

verus! {

/// How an operand is addressed.
#[derive(Clone, Copy, Eq, PartialEq, Debug)]
pub enum AddrMode {
    NoMode,
    Absolute,
    AbsoluteDeferred,
    ByteDisplacement,
    ByteDisplacementDeferred,
    HalfwordDisplacement,
    HalfwordDisplacementDeferred,
    WordDisplacement,
    WordDisplacementDeferred,
    ApShortOffset,
    FpShortOffset,
    ByteImmediate,
    HalfwordImmediate,
    WordImmediate,
    PositiveLiteral,
    NegativeLiteral,
    Register,
    RegisterDeferred,
    Expanded,
}

/// What kind of operand an instruction takes at a position.
#[derive(Copy, Clone, Debug, Eq, PartialEq)]
pub enum OpType {
    /// An immediate value behind the opcode, without a descriptor.
    Lit,
    /// A source, given by a descriptor.
    Src,
    /// A destination, given by a descriptor.
    Dest,
    /// No operand.
    NoOp,
}

/// The data type of an instruction or of an operand.
#[derive(Copy, Clone, Eq, PartialEq, Debug)]
pub enum Data {
    NoData,
    Byte,
    Half,
    Word,
    SByte,
    UHalf,
    UWord,
}

/// The privilege levels of the processor.
#[derive(Eq, PartialEq, Debug, Copy, Clone)]
pub enum CpuLevel {
    User,
    Supervisor,
    Executive,
    Kernel,
}

/// What the processor was doing when a fault came up.
#[derive(Eq, PartialEq, Debug, Copy, Clone)]
pub enum ErrorContext {
    NoContext,
    NormalGateVector,
    ProcessGatePcb,
    ProcessOldPcb,
    ProcessNewPcb,
    ResteGateVector,
    ResetSystemData,
    ResetIntStack,
    StackFault,
}

/// The exceptions that are taken through the vector table.
#[derive(Eq, PartialEq, Debug, Copy, Clone)]
pub enum ExceptionType {
    ExternalMemory,
}

/// A decoded operand.
#[derive(Eq, PartialEq, Debug, Copy, Clone)]
pub struct Operand {
    /// The number of bytes that the operand takes in the instruction.
    pub size: u8,
    pub mode: AddrMode,
    /// The data type that the instruction declares.
    pub data_type: Data,
    /// The data type that an expanded-type descriptor puts in its place.
    pub expanded_type: Option<Data>,
    pub register: Option<usize>,
    /// The immediate value or displacement embedded in the instruction.
    pub embedded: u32,
    /// The value last moved to or from the operand.
    pub data: u32,
}

impl Operand {
    /// The operand with the given fields and no data yet.
    pub open spec fn spec_new(
        size: u8,
        mode: AddrMode,
        data_type: Data,
        expanded_type: Option<Data>,
        register: Option<usize>,
        embedded: u32,
    ) -> Operand {
        Operand { size, mode, data_type, expanded_type, register, embedded, data: 0 }
    }

    /// The operand with the given fields and no data yet.
    pub fn new(
        size: u8,
        mode: AddrMode,
        data_type: Data,
        expanded_type: Option<Data>,
        register: Option<usize>,
        embedded: u32,
    ) -> (op: Operand)
        ensures
            op == Operand::spec_new(size, mode, data_type, expanded_type, register, embedded),
    {
        Operand { size, mode, data_type, expanded_type, register, embedded, data: 0 }
    }

    /// The effective data type: the expanded type if there is one, else
    /// the declared type.
    pub open spec fn effective_type(self) -> Data {
        match self.expanded_type {
            Some(t) => t,
            None => self.data_type,
        }
    }

    /// The effective data type.
    pub fn data_type(&self) -> (t: Data)
        ensures
            t == self.effective_type(),
    {
        match self.expanded_type {
            Some(t) => t,
            None => self.data_type,
        }
    }
}

/// The conditions on which an instruction branches or returns, as they
/// read the flags N, Z, C and V.
#[derive(Eq, PartialEq, Debug, Copy, Clone)]
pub enum Cond {
    Always,
    /// Z
    Equal,
    /// not Z
    NotEqual,
    /// neither N nor Z
    Greater,
    /// not N, or Z
    GreaterEqual,
    /// N and not Z
    Less,
    /// N or Z
    LessEqual,
    /// neither C nor Z
    GreaterU,
    /// not C
    GreaterEqualU,
    /// C
    LessU,
    /// C or Z
    LessEqualU,
    /// not V
    OverflowClear,
    /// V
    OverflowSet,
    /// N, or not Z: the condition of the return-if-less instruction
    ReturnLess,
}

/// What an instruction does, apart from its data type and operands.
#[derive(Eq, PartialEq, Debug, Copy, Clone)]
pub enum Op {
    Nop1,
    Nop2,
    Nop3,
    Add2,
    Add3,
    Sub2,
    Sub3,
    Inc,
    Dec,
    Alsw3,
    And2,
    And3,
    Or2,
    Or3,
    Xor2,
    Xor3,
    Bit,
    /// Branch by a half-word displacement.
    BranchH(Cond),
    /// Branch by a byte displacement.
    BranchB(Cond),
    Bsbh,
    Bsbb,
    /// The breakpoint traps.
    Trap,
    Call,
    Cflush,
    Callps,
    Clr,
    CompareW,
    CompareH,
    CompareB,
    DivW2,
    DivH2,
    DivB2,
    DivW3,
    DivH3,
    DivB3,
    Mverno,
    Enbvjmp,
    Disvjmp,
    Extf,
    Insf,
    Jmp,
    Jsb,
    Lls,
    Ars,
    Lrs,
    Mcom,
    Mneg,
    Movblw,
    Strend,
    Swap,
    Rotw,
    Movaw,
    Mov,
    Mod2,
    Mod3,
    Mul2,
    Mul3,
    Popw,
    Pushaw,
    Pushw,
    Restore,
    Retg,
    /// Return from subroutine on a condition.
    Return(Cond),
    Ret,
    Retps,
    Save,
    TstW,
    TstH,
    TstB,
    /// Decoded, but not carried out by this processor.
    Unimplemented,
}

/// An entry of the opcode table.
#[derive(Clone, Copy, Debug, Eq, PartialEq)]
pub struct Mnemonic {
    pub opcode: u16,
    pub dtype: Data,
    pub name: &'static str,
    pub ops: [OpType; 4],
    pub op: Op,
}

/// A decoded instruction.
#[derive(Debug, Eq, PartialEq)]
pub struct Instruction {
    pub opcode: u16,
    pub name: &'static str,
    pub data_type: Data,
    /// The length of the instruction in bytes.
    pub bytes: u8,
    pub operands: [Operand; 4],
}

/// The table entry with the given fields.
pub open spec fn entry(
    opcode: u16,
    dtype: Data,
    name: &'static str,
    op0: OpType,
    op1: OpType,
    op2: OpType,
    op3: OpType,
    op: Op,
) -> Mnemonic {
    Mnemonic { opcode, dtype, name, ops: [op0, op1, op2, op3], op }
}

impl Mnemonic {
    /// The table entry with the given fields.
    pub fn new(
        opcode: u16,
        dtype: Data,
        name: &'static str,
        op0: OpType,
        op1: OpType,
        op2: OpType,
        op3: OpType,
        op: Op,
    ) -> (m: Mnemonic)
        ensures
            m == entry(opcode, dtype, name, op0, op1, op2, op3, op),
    {
        Mnemonic { opcode, dtype, name, ops: [op0, op1, op2, op3], op }
    }
}

/// The table of the one-byte opcodes.
#[verifier::opaque]
pub open spec fn byte_entry(opcode: u8) -> Option<Mnemonic> {
    match opcode {
        0x00 => Some(
            entry(0x00, Data::NoData, "halt", OpType::NoOp, OpType::NoOp, OpType::NoOp, OpType::NoOp, Op::Trap),
        ),
        0x02 => Some(
            entry(0x02, Data::Word, "SPOPRD", OpType::Lit, OpType::Src, OpType::NoOp, OpType::NoOp, Op::Unimplemented),
        ),
        0x03 => Some(
            entry(0x03, Data::Word, "SPOPRD2", OpType::Lit, OpType::Src, OpType::Dest, OpType::NoOp, Op::Unimplemented),
        ),
        0x04 => Some(
            entry(0x04, Data::Word, "MOVAW", OpType::Src, OpType::Dest, OpType::NoOp, OpType::NoOp, Op::Movaw),
        ),
        0x06 => Some(
            entry(0x06, Data::Word, "SPOPRT", OpType::Lit, OpType::Src, OpType::NoOp, OpType::NoOp, Op::Unimplemented),
        ),
        0x07 => Some(
            entry(0x07, Data::Word, "SPOPT2", OpType::Lit, OpType::Src, OpType::Dest, OpType::NoOp, Op::Unimplemented),
        ),
        0x08 => Some(
            entry(0x08, Data::NoData, "RET", OpType::NoOp, OpType::NoOp, OpType::NoOp, OpType::NoOp, Op::Ret),
        ),
        0x0c => Some(
            entry(0x0c, Data::Word, "MOVTRW", OpType::Src, OpType::Dest, OpType::NoOp, OpType::NoOp, Op::Unimplemented),
        ),
        0x10 => Some(
            entry(0x10, Data::Word, "SAVE", OpType::Src, OpType::NoOp, OpType::NoOp, OpType::NoOp, Op::Save),
        ),
        0x13 => Some(
            entry(0x13, Data::Word, "SPOPWD", OpType::Lit, OpType::Dest, OpType::NoOp, OpType::NoOp, Op::Unimplemented),
        ),
        0x14 => Some(
            entry(0x14, Data::Byte, "EXTOP", OpType::NoOp, OpType::NoOp, OpType::NoOp, OpType::NoOp, Op::Unimplemented),
        ),
        0x17 => Some(
            entry(0x17, Data::Word, "SPOPWT", OpType::Lit, OpType::Dest, OpType::NoOp, OpType::NoOp, Op::Unimplemented),
        ),
        0x18 => Some(
            entry(0x18, Data::NoData, "RESTORE", OpType::Src, OpType::NoOp, OpType::NoOp, OpType::NoOp, Op::Restore),
        ),
        0x1c => Some(
            entry(0x1c, Data::Word, "SWAPWI", OpType::Dest, OpType::NoOp, OpType::NoOp, OpType::NoOp, Op::Swap),
        ),
        0x1e => Some(
            entry(0x1e, Data::Half, "SWAPHI", OpType::Dest, OpType::NoOp, OpType::NoOp, OpType::NoOp, Op::Swap),
        ),
        0x1f => Some(
            entry(0x1f, Data::Byte, "SWAPBI", OpType::Dest, OpType::NoOp, OpType::NoOp, OpType::NoOp, Op::Swap),
        ),
        0x20 => Some(
            entry(0x20, Data::Word, "POPW", OpType::Src, OpType::NoOp, OpType::NoOp, OpType::NoOp, Op::Popw),
        ),
        0x22 => Some(
            entry(0x22, Data::Word, "SPOPRS", OpType::Lit, OpType::Src, OpType::NoOp, OpType::NoOp, Op::Unimplemented),
        ),
        0x23 => Some(
            entry(0x23, Data::Word, "SPOPS2", OpType::Lit, OpType::Src, OpType::Dest, OpType::NoOp, Op::Unimplemented),
        ),
        0x24 => Some(
            entry(0x24, Data::Word, "JMP", OpType::Dest, OpType::NoOp, OpType::NoOp, OpType::NoOp, Op::Jmp),
        ),
        0x27 => Some(
            entry(0x27, Data::NoData, "CFLUSH", OpType::NoOp, OpType::NoOp, OpType::NoOp, OpType::NoOp, Op::Cflush),
        ),
        0x28 => Some(
            entry(0x28, Data::Word, "TSTW", OpType::Src, OpType::NoOp, OpType::NoOp, OpType::NoOp, Op::TstW),
        ),
        0x2a => Some(
            entry(0x2a, Data::Half, "TSTH", OpType::Src, OpType::NoOp, OpType::NoOp, OpType::NoOp, Op::TstH),
        ),
        0x2b => Some(
            entry(0x2b, Data::Byte, "TSTB", OpType::Src, OpType::NoOp, OpType::NoOp, OpType::NoOp, Op::TstB),
        ),
        0x2c => Some(
            entry(0x2c, Data::Word, "CALL", OpType::Src, OpType::Dest, OpType::NoOp, OpType::NoOp, Op::Call),
        ),
        0x2e => Some(
            entry(0x2e, Data::NoData, "BPT", OpType::NoOp, OpType::NoOp, OpType::NoOp, OpType::NoOp, Op::Trap),
        ),
        0x2f => Some(
            entry(0x2f, Data::NoData, "WAIT", OpType::NoOp, OpType::NoOp, OpType::NoOp, OpType::NoOp, Op::Unimplemented),
        ),
        0x32 => Some(
            entry(0x32, Data::Word, "SPOP", OpType::Lit, OpType::NoOp, OpType::NoOp, OpType::NoOp, Op::Unimplemented),
        ),
        0x33 => Some(
            entry(0x33, Data::Word, "SPOPWS", OpType::Lit, OpType::Dest, OpType::NoOp, OpType::NoOp, Op::Unimplemented),
        ),
        0x34 => Some(
            entry(0x34, Data::Word, "JSB", OpType::Dest, OpType::NoOp, OpType::NoOp, OpType::NoOp, Op::Jsb),
        ),
        0x36 => Some(
            entry(0x36, Data::Half, "BSBH", OpType::Lit, OpType::NoOp, OpType::NoOp, OpType::NoOp, Op::Bsbh),
        ),
        0x37 => Some(
            entry(0x37, Data::Byte, "BSBB", OpType::Lit, OpType::NoOp, OpType::NoOp, OpType::NoOp, Op::Bsbb),
        ),
        0x38 => Some(
            entry(0x38, Data::Word, "BITW", OpType::Src, OpType::Src, OpType::NoOp, OpType::NoOp, Op::Bit),
        ),
        0x3a => Some(
            entry(0x3a, Data::Half, "BITH", OpType::Src, OpType::Src, OpType::NoOp, OpType::NoOp, Op::Bit),
        ),
        0x3b => Some(
            entry(0x3b, Data::Byte, "BITB", OpType::Src, OpType::Src, OpType::NoOp, OpType::NoOp, Op::Bit),
        ),
        0x3c => Some(
            entry(0x3c, Data::Word, "CMPW", OpType::Src, OpType::Src, OpType::NoOp, OpType::NoOp, Op::CompareW),
        ),
        0x3e => Some(
            entry(0x3e, Data::Half, "CMPH", OpType::Src, OpType::Src, OpType::NoOp, OpType::NoOp, Op::CompareH),
        ),
        0x3f => Some(
            entry(0x3f, Data::Byte, "CMPB", OpType::Src, OpType::Src, OpType::NoOp, OpType::NoOp, Op::CompareB),
        ),
        0x40 => Some(
            entry(0x40, Data::NoData, "RGEQ", OpType::NoOp, OpType::NoOp, OpType::NoOp, OpType::NoOp, Op::Return(Cond::GreaterEqual)),
        ),
        0x42 => Some(
            entry(0x42, Data::Half, "BGEH", OpType::Lit, OpType::NoOp, OpType::NoOp, OpType::NoOp, Op::BranchH(Cond::GreaterEqual)),
        ),
        0x43 => Some(
            entry(0x43, Data::Byte, "BGEB", OpType::Lit, OpType::NoOp, OpType::NoOp, OpType::NoOp, Op::BranchB(Cond::GreaterEqual)),
        ),
        0x44 => Some(
            entry(0x44, Data::NoData, "RGTR", OpType::NoOp, OpType::NoOp, OpType::NoOp, OpType::NoOp, Op::Return(Cond::Greater)),
        ),
        0x46 => Some(
            entry(0x46, Data::Half, "BGH", OpType::Lit, OpType::NoOp, OpType::NoOp, OpType::NoOp, Op::BranchH(Cond::Greater)),
        ),
        0x47 => Some(
            entry(0x47, Data::Byte, "BGB", OpType::Lit, OpType::NoOp, OpType::NoOp, OpType::NoOp, Op::BranchB(Cond::Greater)),
        ),
        0x48 => Some(
            entry(0x48, Data::NoData, "RLSS", OpType::NoOp, OpType::NoOp, OpType::NoOp, OpType::NoOp, Op::Return(Cond::ReturnLess)),
        ),
        0x4a => Some(
            entry(0x4a, Data::Half, "BLH", OpType::Lit, OpType::NoOp, OpType::NoOp, OpType::NoOp, Op::BranchH(Cond::Less)),
        ),
        0x4b => Some(
            entry(0x4b, Data::Byte, "BLB", OpType::Lit, OpType::NoOp, OpType::NoOp, OpType::NoOp, Op::BranchB(Cond::Less)),
        ),
        0x4c => Some(
            entry(0x4c, Data::NoData, "RLEQ", OpType::NoOp, OpType::NoOp, OpType::NoOp, OpType::NoOp, Op::Return(Cond::LessEqual)),
        ),
        0x4e => Some(
            entry(0x4e, Data::Half, "BLEH", OpType::Lit, OpType::NoOp, OpType::NoOp, OpType::NoOp, Op::BranchH(Cond::LessEqual)),
        ),
        0x4f => Some(
            entry(0x4f, Data::Byte, "BLEB", OpType::Lit, OpType::NoOp, OpType::NoOp, OpType::NoOp, Op::BranchB(Cond::LessEqual)),
        ),
        0x50 => Some(
            entry(0x50, Data::NoData, "RGEQU", OpType::NoOp, OpType::NoOp, OpType::NoOp, OpType::NoOp, Op::Return(Cond::GreaterEqualU)),
        ),
        0x52 => Some(
            entry(0x52, Data::Half, "BGEUH", OpType::Lit, OpType::NoOp, OpType::NoOp, OpType::NoOp, Op::BranchH(Cond::GreaterEqualU)),
        ),
        0x53 => Some(
            entry(0x53, Data::Byte, "BGEUB", OpType::Lit, OpType::NoOp, OpType::NoOp, OpType::NoOp, Op::BranchB(Cond::GreaterEqualU)),
        ),
        0x54 => Some(
            entry(0x54, Data::NoData, "RGTRU", OpType::NoOp, OpType::NoOp, OpType::NoOp, OpType::NoOp, Op::Unimplemented),
        ),
        0x56 => Some(
            entry(0x56, Data::Half, "BGUH", OpType::Lit, OpType::NoOp, OpType::NoOp, OpType::NoOp, Op::BranchH(Cond::GreaterU)),
        ),
        0x57 => Some(
            entry(0x57, Data::Byte, "BGUB", OpType::Lit, OpType::NoOp, OpType::NoOp, OpType::NoOp, Op::BranchB(Cond::GreaterU)),
        ),
        0x58 => Some(
            entry(0x58, Data::NoData, "RLSSU", OpType::NoOp, OpType::NoOp, OpType::NoOp, OpType::NoOp, Op::Unimplemented),
        ),
        0x5a => Some(
            entry(0x5a, Data::Half, "BLUH", OpType::Lit, OpType::NoOp, OpType::NoOp, OpType::NoOp, Op::BranchH(Cond::LessU)),
        ),
        0x5b => Some(
            entry(0x5b, Data::Byte, "BLUB", OpType::Lit, OpType::NoOp, OpType::NoOp, OpType::NoOp, Op::BranchB(Cond::LessU)),
        ),
        0x5c => Some(
            entry(0x5c, Data::NoData, "RLEQU", OpType::NoOp, OpType::NoOp, OpType::NoOp, OpType::NoOp, Op::Return(Cond::LessEqualU)),
        ),
        0x5e => Some(
            entry(0x5e, Data::Half, "BLEUH", OpType::Lit, OpType::NoOp, OpType::NoOp, OpType::NoOp, Op::BranchH(Cond::LessEqualU)),
        ),
        0x5f => Some(
            entry(0x5f, Data::Byte, "BLEUB", OpType::Lit, OpType::NoOp, OpType::NoOp, OpType::NoOp, Op::BranchB(Cond::LessEqualU)),
        ),
        0x60 => Some(
            entry(0x60, Data::NoData, "RVC", OpType::NoOp, OpType::NoOp, OpType::NoOp, OpType::NoOp, Op::Unimplemented),
        ),
        0x62 => Some(
            entry(0x62, Data::Half, "BVCH", OpType::Lit, OpType::NoOp, OpType::NoOp, OpType::NoOp, Op::BranchH(Cond::OverflowClear)),
        ),
        0x63 => Some(
            entry(0x63, Data::Byte, "BVCB", OpType::Lit, OpType::NoOp, OpType::NoOp, OpType::NoOp, Op::BranchB(Cond::OverflowClear)),
        ),
        0x64 => Some(
            entry(0x64, Data::NoData, "RNEQU", OpType::NoOp, OpType::NoOp, OpType::NoOp, OpType::NoOp, Op::Return(Cond::NotEqual)),
        ),
        0x66 => Some(
            entry(0x66, Data::Half, "BNEH", OpType::Lit, OpType::NoOp, OpType::NoOp, OpType::NoOp, Op::BranchH(Cond::NotEqual)),
        ),
        0x67 => Some(
            entry(0x67, Data::Byte, "BNEB", OpType::Lit, OpType::NoOp, OpType::NoOp, OpType::NoOp, Op::BranchB(Cond::NotEqual)),
        ),
        0x68 => Some(
            entry(0x68, Data::NoData, "RVS", OpType::NoOp, OpType::NoOp, OpType::NoOp, OpType::NoOp, Op::Unimplemented),
        ),
        0x6a => Some(
            entry(0x6a, Data::Half, "BVSH", OpType::Lit, OpType::NoOp, OpType::NoOp, OpType::NoOp, Op::BranchH(Cond::OverflowSet)),
        ),
        0x6b => Some(
            entry(0x6b, Data::Byte, "BVSB", OpType::Lit, OpType::NoOp, OpType::NoOp, OpType::NoOp, Op::BranchB(Cond::OverflowSet)),
        ),
        0x6c => Some(
            entry(0x6c, Data::NoData, "REQLU", OpType::NoOp, OpType::NoOp, OpType::NoOp, OpType::NoOp, Op::Return(Cond::Equal)),
        ),
        0x6e => Some(
            entry(0x6e, Data::Half, "BEH", OpType::Lit, OpType::NoOp, OpType::NoOp, OpType::NoOp, Op::BranchH(Cond::Equal)),
        ),
        0x6f => Some(
            entry(0x6f, Data::Byte, "BEB", OpType::Lit, OpType::NoOp, OpType::NoOp, OpType::NoOp, Op::BranchB(Cond::Equal)),
        ),
        0x70 => Some(
            entry(0x70, Data::NoData, "NOP", OpType::NoOp, OpType::NoOp, OpType::NoOp, OpType::NoOp, Op::Nop1),
        ),
        0x72 => Some(
            entry(0x72, Data::NoData, "NOP3", OpType::NoOp, OpType::NoOp, OpType::NoOp, OpType::NoOp, Op::Nop3),
        ),
        0x73 => Some(
            entry(0x73, Data::NoData, "NOP2", OpType::NoOp, OpType::NoOp, OpType::NoOp, OpType::NoOp, Op::Nop2),
        ),
        0x74 => Some(
            entry(0x74, Data::NoData, "RNEQ", OpType::NoOp, OpType::NoOp, OpType::NoOp, OpType::NoOp, Op::Return(Cond::NotEqual)),
        ),
        0x76 => Some(
            entry(0x76, Data::Half, "BNEH", OpType::Lit, OpType::NoOp, OpType::NoOp, OpType::NoOp, Op::BranchH(Cond::NotEqual)),
        ),
        0x77 => Some(
            entry(0x77, Data::Byte, "BNEB", OpType::Lit, OpType::NoOp, OpType::NoOp, OpType::NoOp, Op::BranchB(Cond::NotEqual)),
        ),
        0x78 => Some(
            entry(0x78, Data::NoData, "RSB", OpType::NoOp, OpType::NoOp, OpType::NoOp, OpType::NoOp, Op::Return(Cond::Always)),
        ),
        0x7a => Some(
            entry(0x7a, Data::Half, "BRH", OpType::Lit, OpType::NoOp, OpType::NoOp, OpType::NoOp, Op::BranchH(Cond::Always)),
        ),
        0x7b => Some(
            entry(0x7b, Data::Byte, "BRB", OpType::Lit, OpType::NoOp, OpType::NoOp, OpType::NoOp, Op::BranchB(Cond::Always)),
        ),
        0x7c => Some(
            entry(0x7c, Data::NoData, "REQL", OpType::NoOp, OpType::NoOp, OpType::NoOp, OpType::NoOp, Op::Return(Cond::Equal)),
        ),
        0x7e => Some(
            entry(0x7e, Data::Half, "BEH", OpType::Lit, OpType::NoOp, OpType::NoOp, OpType::NoOp, Op::BranchH(Cond::Equal)),
        ),
        0x7f => Some(
            entry(0x7f, Data::Byte, "BEB", OpType::Lit, OpType::NoOp, OpType::NoOp, OpType::NoOp, Op::BranchB(Cond::Equal)),
        ),
        0x80 => Some(
            entry(0x80, Data::Word, "CLRW", OpType::Dest, OpType::NoOp, OpType::NoOp, OpType::NoOp, Op::Clr),
        ),
        0x82 => Some(
            entry(0x82, Data::Half, "CLRH", OpType::Dest, OpType::NoOp, OpType::NoOp, OpType::NoOp, Op::Clr),
        ),
        0x83 => Some(
            entry(0x83, Data::Byte, "CLRB", OpType::Dest, OpType::NoOp, OpType::NoOp, OpType::NoOp, Op::Clr),
        ),
        0x84 => Some(
            entry(0x84, Data::Word, "MOVW", OpType::Src, OpType::Dest, OpType::NoOp, OpType::NoOp, Op::Mov),
        ),
        0x86 => Some(
            entry(0x86, Data::Half, "MOVH", OpType::Src, OpType::Dest, OpType::NoOp, OpType::NoOp, Op::Mov),
        ),
        0x87 => Some(
            entry(0x87, Data::Byte, "MOVB", OpType::Src, OpType::Dest, OpType::NoOp, OpType::NoOp, Op::Mov),
        ),
        0x88 => Some(
            entry(0x88, Data::Word, "MCOMW", OpType::Src, OpType::Dest, OpType::NoOp, OpType::NoOp, Op::Mcom),
        ),
        0x8a => Some(
            entry(0x8a, Data::Half, "MCOMH", OpType::Src, OpType::Dest, OpType::NoOp, OpType::NoOp, Op::Mcom),
        ),
        0x8b => Some(
            entry(0x8b, Data::Byte, "MCOMB", OpType::Src, OpType::Dest, OpType::NoOp, OpType::NoOp, Op::Mcom),
        ),
        0x8c => Some(
            entry(0x8c, Data::Word, "MNEGW", OpType::Src, OpType::Dest, OpType::NoOp, OpType::NoOp, Op::Mneg),
        ),
        0x8e => Some(
            entry(0x8e, Data::Half, "MNEGH", OpType::Src, OpType::Dest, OpType::NoOp, OpType::NoOp, Op::Mneg),
        ),
        0x8f => Some(
            entry(0x8f, Data::Byte, "MNEGB", OpType::Src, OpType::Dest, OpType::NoOp, OpType::NoOp, Op::Mneg),
        ),
        0x90 => Some(
            entry(0x90, Data::Word, "INCW", OpType::Dest, OpType::NoOp, OpType::NoOp, OpType::NoOp, Op::Inc),
        ),
        0x92 => Some(
            entry(0x92, Data::Half, "INCH", OpType::Dest, OpType::NoOp, OpType::NoOp, OpType::NoOp, Op::Inc),
        ),
        0x93 => Some(
            entry(0x93, Data::Byte, "INCB", OpType::Dest, OpType::NoOp, OpType::NoOp, OpType::NoOp, Op::Inc),
        ),
        0x94 => Some(
            entry(0x94, Data::Word, "DECW", OpType::Dest, OpType::NoOp, OpType::NoOp, OpType::NoOp, Op::Dec),
        ),
        0x96 => Some(
            entry(0x96, Data::Half, "DECH", OpType::Dest, OpType::NoOp, OpType::NoOp, OpType::NoOp, Op::Dec),
        ),
        0x97 => Some(
            entry(0x97, Data::Byte, "DECB", OpType::Dest, OpType::NoOp, OpType::NoOp, OpType::NoOp, Op::Dec),
        ),
        0x9c => Some(
            entry(0x9c, Data::Word, "ADDW2", OpType::Src, OpType::Dest, OpType::NoOp, OpType::NoOp, Op::Add2),
        ),
        0x9e => Some(
            entry(0x9e, Data::Half, "ADDH2", OpType::Src, OpType::Dest, OpType::NoOp, OpType::NoOp, Op::Add2),
        ),
        0x9f => Some(
            entry(0x9f, Data::Byte, "ADDB2", OpType::Src, OpType::Dest, OpType::NoOp, OpType::NoOp, Op::Add2),
        ),
        0xa0 => Some(
            entry(0xa0, Data::Word, "PUSHW", OpType::Src, OpType::NoOp, OpType::NoOp, OpType::NoOp, Op::Pushw),
        ),
        0xa4 => Some(
            entry(0xa4, Data::Word, "MODW2", OpType::Src, OpType::Dest, OpType::NoOp, OpType::NoOp, Op::Mod2),
        ),
        0xa6 => Some(
            entry(0xa6, Data::Half, "MODH2", OpType::Src, OpType::Dest, OpType::NoOp, OpType::NoOp, Op::Mod2),
        ),
        0xa7 => Some(
            entry(0xa7, Data::Byte, "MODB2", OpType::Src, OpType::Dest, OpType::NoOp, OpType::NoOp, Op::Mod2),
        ),
        0xa8 => Some(
            entry(0xa8, Data::Word, "MULW2", OpType::Src, OpType::Dest, OpType::NoOp, OpType::NoOp, Op::Mul2),
        ),
        0xaa => Some(
            entry(0xaa, Data::Half, "MULH2", OpType::Src, OpType::Dest, OpType::NoOp, OpType::NoOp, Op::Mul2),
        ),
        0xab => Some(
            entry(0xab, Data::Byte, "MULB2", OpType::Src, OpType::Dest, OpType::NoOp, OpType::NoOp, Op::Mul2),
        ),
        0xac => Some(
            entry(0xac, Data::Word, "DIVW2", OpType::Src, OpType::Dest, OpType::NoOp, OpType::NoOp, Op::DivW2),
        ),
        0xae => Some(
            entry(0xae, Data::Half, "DIVH2", OpType::Src, OpType::Dest, OpType::NoOp, OpType::NoOp, Op::DivH2),
        ),
        0xaf => Some(
            entry(0xaf, Data::Byte, "DIVB2", OpType::Src, OpType::Dest, OpType::NoOp, OpType::NoOp, Op::DivB2),
        ),
        0xb0 => Some(
            entry(0xb0, Data::Word, "ORW2", OpType::Src, OpType::Dest, OpType::NoOp, OpType::NoOp, Op::Or2),
        ),
        0xb2 => Some(
            entry(0xb2, Data::Half, "ORH2", OpType::Src, OpType::Dest, OpType::NoOp, OpType::NoOp, Op::Or2),
        ),
        0xb3 => Some(
            entry(0xb3, Data::Byte, "ORB2", OpType::Src, OpType::Dest, OpType::NoOp, OpType::NoOp, Op::Or2),
        ),
        0xb4 => Some(
            entry(0xb4, Data::Word, "XORW2", OpType::Src, OpType::Dest, OpType::NoOp, OpType::NoOp, Op::Xor2),
        ),
        0xb6 => Some(
            entry(0xb6, Data::Half, "XORH2", OpType::Src, OpType::Dest, OpType::NoOp, OpType::NoOp, Op::Xor2),
        ),
        0xb7 => Some(
            entry(0xb7, Data::Byte, "XORB2", OpType::Src, OpType::Dest, OpType::NoOp, OpType::NoOp, Op::Xor2),
        ),
        0xb8 => Some(
            entry(0xb8, Data::Word, "ANDW2", OpType::Src, OpType::Dest, OpType::NoOp, OpType::NoOp, Op::And2),
        ),
        0xba => Some(
            entry(0xba, Data::Half, "ANDH2", OpType::Src, OpType::Dest, OpType::NoOp, OpType::NoOp, Op::And2),
        ),
        0xbb => Some(
            entry(0xbb, Data::Byte, "ANDB2", OpType::Src, OpType::Dest, OpType::NoOp, OpType::NoOp, Op::And2),
        ),
        0xbc => Some(
            entry(0xbc, Data::Word, "SUBW2", OpType::Src, OpType::Dest, OpType::NoOp, OpType::NoOp, Op::Sub2),
        ),
        0xbe => Some(
            entry(0xbe, Data::Half, "SUBH2", OpType::Src, OpType::Dest, OpType::NoOp, OpType::NoOp, Op::Sub2),
        ),
        0xbf => Some(
            entry(0xbf, Data::Byte, "SUBB2", OpType::Src, OpType::Dest, OpType::NoOp, OpType::NoOp, Op::Sub2),
        ),
        0xc0 => Some(
            entry(0xc0, Data::Word, "ALSW3", OpType::Src, OpType::Src, OpType::Dest, OpType::NoOp, Op::Alsw3),
        ),
        0xc4 => Some(
            entry(0xc4, Data::Word, "ARSW3", OpType::Src, OpType::Src, OpType::Dest, OpType::NoOp, Op::Ars),
        ),
        0xc6 => Some(
            entry(0xc6, Data::Half, "ARSH3", OpType::Src, OpType::Src, OpType::Dest, OpType::NoOp, Op::Ars),
        ),
        0xc7 => Some(
            entry(0xc7, Data::Byte, "ARSB3", OpType::Src, OpType::Src, OpType::Dest, OpType::NoOp, Op::Ars),
        ),
        0xc8 => Some(
            entry(0xc8, Data::Word, "INSFW", OpType::Src, OpType::Src, OpType::Src, OpType::Dest, Op::Insf),
        ),
        0xca => Some(
            entry(0xca, Data::Half, "INSFH", OpType::Src, OpType::Src, OpType::Src, OpType::Dest, Op::Insf),
        ),
        0xcb => Some(
            entry(0xcb, Data::Byte, "INSFB", OpType::Src, OpType::Src, OpType::Src, OpType::Dest, Op::Insf),
        ),
        0xcc => Some(
            entry(0xcc, Data::Word, "EXTFW", OpType::Src, OpType::Src, OpType::Src, OpType::Dest, Op::Extf),
        ),
        0xce => Some(
            entry(0xce, Data::Half, "EXTFH", OpType::Src, OpType::Src, OpType::Src, OpType::Dest, Op::Extf),
        ),
        0xcf => Some(
            entry(0xcf, Data::Byte, "EXTFB", OpType::Src, OpType::Src, OpType::Src, OpType::Dest, Op::Extf),
        ),
        0xd0 => Some(
            entry(0xd0, Data::Word, "LLSW3", OpType::Src, OpType::Src, OpType::Dest, OpType::NoOp, Op::Lls),
        ),
        0xd2 => Some(
            entry(0xd2, Data::Half, "LLSH3", OpType::Src, OpType::Src, OpType::Dest, OpType::NoOp, Op::Lls),
        ),
        0xd3 => Some(
            entry(0xd3, Data::Byte, "LLSB3", OpType::Src, OpType::Src, OpType::Dest, OpType::NoOp, Op::Lls),
        ),
        0xd4 => Some(
            entry(0xd4, Data::Word, "LRSW3", OpType::Src, OpType::Src, OpType::Dest, OpType::NoOp, Op::Lrs),
        ),
        0xd8 => Some(
            entry(0xd8, Data::Word, "ROTW", OpType::Src, OpType::Src, OpType::Dest, OpType::NoOp, Op::Rotw),
        ),
        0xdc => Some(
            entry(0xdc, Data::Word, "ADDW3", OpType::Src, OpType::Src, OpType::Dest, OpType::NoOp, Op::Add3),
        ),
        0xde => Some(
            entry(0xde, Data::Half, "ADDH3", OpType::Src, OpType::Src, OpType::Dest, OpType::NoOp, Op::Add3),
        ),
        0xdf => Some(
            entry(0xdf, Data::Byte, "ADDB3", OpType::Src, OpType::Src, OpType::Dest, OpType::NoOp, Op::Add3),
        ),
        0xe0 => Some(
            entry(0xe0, Data::Word, "PUSHAW", OpType::Src, OpType::NoOp, OpType::NoOp, OpType::NoOp, Op::Pushaw),
        ),
        0xe4 => Some(
            entry(0xe4, Data::Word, "MODW3", OpType::Src, OpType::Src, OpType::Dest, OpType::NoOp, Op::Mod3),
        ),
        0xe6 => Some(
            entry(0xe6, Data::Half, "MODH3", OpType::Src, OpType::Src, OpType::Dest, OpType::NoOp, Op::Mod3),
        ),
        0xe7 => Some(
            entry(0xe7, Data::Byte, "MODB3", OpType::Src, OpType::Src, OpType::Dest, OpType::NoOp, Op::Mod3),
        ),
        0xe8 => Some(
            entry(0xe8, Data::Word, "MULW3", OpType::Src, OpType::Src, OpType::Dest, OpType::NoOp, Op::Mul3),
        ),
        0xea => Some(
            entry(0xea, Data::Half, "MULH3", OpType::Src, OpType::Src, OpType::Dest, OpType::NoOp, Op::Mul3),
        ),
        0xeb => Some(
            entry(0xeb, Data::Byte, "MULB3", OpType::Src, OpType::Src, OpType::Dest, OpType::NoOp, Op::Mul3),
        ),
        0xec => Some(
            entry(0xec, Data::Word, "DIVW3", OpType::Src, OpType::Src, OpType::Dest, OpType::NoOp, Op::DivW3),
        ),
        0xee => Some(
            entry(0xee, Data::Half, "DIVH3", OpType::Src, OpType::Src, OpType::Dest, OpType::NoOp, Op::DivH3),
        ),
        0xef => Some(
            entry(0xef, Data::Byte, "DIVB3", OpType::Src, OpType::Src, OpType::Dest, OpType::NoOp, Op::DivB3),
        ),
        0xf0 => Some(
            entry(0xf0, Data::Word, "ORW3", OpType::Src, OpType::Src, OpType::Dest, OpType::NoOp, Op::Or3),
        ),
        0xf2 => Some(
            entry(0xf2, Data::Half, "ORH3", OpType::Src, OpType::Src, OpType::Dest, OpType::NoOp, Op::Or3),
        ),
        0xf3 => Some(
            entry(0xf3, Data::Byte, "ORB3", OpType::Src, OpType::Src, OpType::Dest, OpType::NoOp, Op::Or3),
        ),
        0xf4 => Some(
            entry(0xf4, Data::Word, "XORW3", OpType::Src, OpType::Src, OpType::Dest, OpType::NoOp, Op::Xor3),
        ),
        0xf6 => Some(
            entry(0xf6, Data::Half, "XORH3", OpType::Src, OpType::Src, OpType::Dest, OpType::NoOp, Op::Xor3),
        ),
        0xf7 => Some(
            entry(0xf7, Data::Byte, "XORB3", OpType::Src, OpType::Src, OpType::Dest, OpType::NoOp, Op::Xor3),
        ),
        0xf8 => Some(
            entry(0xf8, Data::Word, "ANDW3", OpType::Src, OpType::Src, OpType::Dest, OpType::NoOp, Op::And3),
        ),
        0xfa => Some(
            entry(0xfa, Data::Half, "ANDH3", OpType::Src, OpType::Src, OpType::Dest, OpType::NoOp, Op::And3),
        ),
        0xfb => Some(
            entry(0xfb, Data::Byte, "ANDB3", OpType::Src, OpType::Src, OpType::Dest, OpType::NoOp, Op::And3),
        ),
        0xfc => Some(
            entry(0xfc, Data::Word, "SUBW3", OpType::Src, OpType::Src, OpType::Dest, OpType::NoOp, Op::Sub3),
        ),
        0xfe => Some(
            entry(0xfe, Data::Half, "SUBH3", OpType::Src, OpType::Src, OpType::Dest, OpType::NoOp, Op::Sub3),
        ),
        0xff => Some(
            entry(0xff, Data::Byte, "SUBB3", OpType::Src, OpType::Src, OpType::Dest, OpType::NoOp, Op::Sub3),
        ),
        _ => None,
    }
}

/// The table of the two-byte opcodes, which all begin with 0x30.
#[verifier::opaque]
pub open spec fn halfword_entry(opcode: u16) -> Option<Mnemonic> {
    match opcode {
        0x3009 => Some(
            entry(0x3009, Data::NoData, "MVERNO", OpType::NoOp, OpType::NoOp, OpType::NoOp, OpType::NoOp, Op::Mverno),
        ),
        0x300d => Some(
            entry(0x300d, Data::NoData, "ENBVJMP", OpType::NoOp, OpType::NoOp, OpType::NoOp, OpType::NoOp, Op::Enbvjmp),
        ),
        0x3013 => Some(
            entry(0x3013, Data::NoData, "DISVJMP", OpType::NoOp, OpType::NoOp, OpType::NoOp, OpType::NoOp, Op::Disvjmp),
        ),
        0x3019 => Some(
            entry(0x3019, Data::NoData, "MOVBLW", OpType::NoOp, OpType::NoOp, OpType::NoOp, OpType::NoOp, Op::Movblw),
        ),
        0x301f => Some(
            entry(0x301f, Data::NoData, "STREND", OpType::NoOp, OpType::NoOp, OpType::NoOp, OpType::NoOp, Op::Strend),
        ),
        0x302f => Some(
            entry(0x302f, Data::NoData, "INTACK", OpType::NoOp, OpType::NoOp, OpType::NoOp, OpType::NoOp, Op::Unimplemented),
        ),
        0x303f => Some(
            entry(0x303f, Data::NoData, "STRCPY", OpType::NoOp, OpType::NoOp, OpType::NoOp, OpType::NoOp, Op::Unimplemented),
        ),
        0x3045 => Some(
            entry(0x3045, Data::NoData, "RETG", OpType::NoOp, OpType::NoOp, OpType::NoOp, OpType::NoOp, Op::Retg),
        ),
        0x3061 => Some(
            entry(0x3061, Data::NoData, "GATE", OpType::NoOp, OpType::NoOp, OpType::NoOp, OpType::NoOp, Op::Unimplemented),
        ),
        0x30ac => Some(
            entry(0x30ac, Data::NoData, "CALLPS", OpType::NoOp, OpType::NoOp, OpType::NoOp, OpType::NoOp, Op::Callps),
        ),
        0x30c8 => Some(
            entry(0x30c8, Data::NoData, "RETPS", OpType::NoOp, OpType::NoOp, OpType::NoOp, OpType::NoOp, Op::Retps),
        ),
        _ => None,
    }
}

/// The table entry of an opcode, one byte or two.
pub open spec fn mnemonic_of(opcode: u16) -> Option<Mnemonic> {
    if opcode < 0x100 {
        byte_entry(opcode as u8)
    } else {
        halfword_entry(opcode)
    }
}

/// What the instruction with an opcode does.
pub open spec fn operation_of(opcode: u16) -> Op {
    match mnemonic_of(opcode) {
        Some(m) => m.op,
        None => Op::Unimplemented,
    }
}

/// Looks up a one-byte opcode.
pub fn byte_mnemonic(opcode: u8) -> (r: Option<Mnemonic>)
    ensures
        r == byte_entry(opcode),
{
    reveal(byte_entry);
    match opcode {
        0x00 => Some(
            Mnemonic::new(0x00, Data::NoData, "halt", OpType::NoOp, OpType::NoOp, OpType::NoOp, OpType::NoOp, Op::Trap),
        ),
        0x02 => Some(
            Mnemonic::new(0x02, Data::Word, "SPOPRD", OpType::Lit, OpType::Src, OpType::NoOp, OpType::NoOp, Op::Unimplemented),
        ),
        0x03 => Some(
            Mnemonic::new(0x03, Data::Word, "SPOPRD2", OpType::Lit, OpType::Src, OpType::Dest, OpType::NoOp, Op::Unimplemented),
        ),
        0x04 => Some(
            Mnemonic::new(0x04, Data::Word, "MOVAW", OpType::Src, OpType::Dest, OpType::NoOp, OpType::NoOp, Op::Movaw),
        ),
        0x06 => Some(
            Mnemonic::new(0x06, Data::Word, "SPOPRT", OpType::Lit, OpType::Src, OpType::NoOp, OpType::NoOp, Op::Unimplemented),
        ),
        0x07 => Some(
            Mnemonic::new(0x07, Data::Word, "SPOPT2", OpType::Lit, OpType::Src, OpType::Dest, OpType::NoOp, Op::Unimplemented),
        ),
        0x08 => Some(
            Mnemonic::new(0x08, Data::NoData, "RET", OpType::NoOp, OpType::NoOp, OpType::NoOp, OpType::NoOp, Op::Ret),
        ),
        0x0c => Some(
            Mnemonic::new(0x0c, Data::Word, "MOVTRW", OpType::Src, OpType::Dest, OpType::NoOp, OpType::NoOp, Op::Unimplemented),
        ),
        0x10 => Some(
            Mnemonic::new(0x10, Data::Word, "SAVE", OpType::Src, OpType::NoOp, OpType::NoOp, OpType::NoOp, Op::Save),
        ),
        0x13 => Some(
            Mnemonic::new(0x13, Data::Word, "SPOPWD", OpType::Lit, OpType::Dest, OpType::NoOp, OpType::NoOp, Op::Unimplemented),
        ),
        0x14 => Some(
            Mnemonic::new(0x14, Data::Byte, "EXTOP", OpType::NoOp, OpType::NoOp, OpType::NoOp, OpType::NoOp, Op::Unimplemented),
        ),
        0x17 => Some(
            Mnemonic::new(0x17, Data::Word, "SPOPWT", OpType::Lit, OpType::Dest, OpType::NoOp, OpType::NoOp, Op::Unimplemented),
        ),
        0x18 => Some(
            Mnemonic::new(0x18, Data::NoData, "RESTORE", OpType::Src, OpType::NoOp, OpType::NoOp, OpType::NoOp, Op::Restore),
        ),
        0x1c => Some(
            Mnemonic::new(0x1c, Data::Word, "SWAPWI", OpType::Dest, OpType::NoOp, OpType::NoOp, OpType::NoOp, Op::Swap),
        ),
        0x1e => Some(
            Mnemonic::new(0x1e, Data::Half, "SWAPHI", OpType::Dest, OpType::NoOp, OpType::NoOp, OpType::NoOp, Op::Swap),
        ),
        0x1f => Some(
            Mnemonic::new(0x1f, Data::Byte, "SWAPBI", OpType::Dest, OpType::NoOp, OpType::NoOp, OpType::NoOp, Op::Swap),
        ),
        0x20 => Some(
            Mnemonic::new(0x20, Data::Word, "POPW", OpType::Src, OpType::NoOp, OpType::NoOp, OpType::NoOp, Op::Popw),
        ),
        0x22 => Some(
            Mnemonic::new(0x22, Data::Word, "SPOPRS", OpType::Lit, OpType::Src, OpType::NoOp, OpType::NoOp, Op::Unimplemented),
        ),
        0x23 => Some(
            Mnemonic::new(0x23, Data::Word, "SPOPS2", OpType::Lit, OpType::Src, OpType::Dest, OpType::NoOp, Op::Unimplemented),
        ),
        0x24 => Some(
            Mnemonic::new(0x24, Data::Word, "JMP", OpType::Dest, OpType::NoOp, OpType::NoOp, OpType::NoOp, Op::Jmp),
        ),
        0x27 => Some(
            Mnemonic::new(0x27, Data::NoData, "CFLUSH", OpType::NoOp, OpType::NoOp, OpType::NoOp, OpType::NoOp, Op::Cflush),
        ),
        0x28 => Some(
            Mnemonic::new(0x28, Data::Word, "TSTW", OpType::Src, OpType::NoOp, OpType::NoOp, OpType::NoOp, Op::TstW),
        ),
        0x2a => Some(
            Mnemonic::new(0x2a, Data::Half, "TSTH", OpType::Src, OpType::NoOp, OpType::NoOp, OpType::NoOp, Op::TstH),
        ),
        0x2b => Some(
            Mnemonic::new(0x2b, Data::Byte, "TSTB", OpType::Src, OpType::NoOp, OpType::NoOp, OpType::NoOp, Op::TstB),
        ),
        0x2c => Some(
            Mnemonic::new(0x2c, Data::Word, "CALL", OpType::Src, OpType::Dest, OpType::NoOp, OpType::NoOp, Op::Call),
        ),
        0x2e => Some(
            Mnemonic::new(0x2e, Data::NoData, "BPT", OpType::NoOp, OpType::NoOp, OpType::NoOp, OpType::NoOp, Op::Trap),
        ),
        0x2f => Some(
            Mnemonic::new(0x2f, Data::NoData, "WAIT", OpType::NoOp, OpType::NoOp, OpType::NoOp, OpType::NoOp, Op::Unimplemented),
        ),
        0x32 => Some(
            Mnemonic::new(0x32, Data::Word, "SPOP", OpType::Lit, OpType::NoOp, OpType::NoOp, OpType::NoOp, Op::Unimplemented),
        ),
        0x33 => Some(
            Mnemonic::new(0x33, Data::Word, "SPOPWS", OpType::Lit, OpType::Dest, OpType::NoOp, OpType::NoOp, Op::Unimplemented),
        ),
        0x34 => Some(
            Mnemonic::new(0x34, Data::Word, "JSB", OpType::Dest, OpType::NoOp, OpType::NoOp, OpType::NoOp, Op::Jsb),
        ),
        0x36 => Some(
            Mnemonic::new(0x36, Data::Half, "BSBH", OpType::Lit, OpType::NoOp, OpType::NoOp, OpType::NoOp, Op::Bsbh),
        ),
        0x37 => Some(
            Mnemonic::new(0x37, Data::Byte, "BSBB", OpType::Lit, OpType::NoOp, OpType::NoOp, OpType::NoOp, Op::Bsbb),
        ),
        0x38 => Some(
            Mnemonic::new(0x38, Data::Word, "BITW", OpType::Src, OpType::Src, OpType::NoOp, OpType::NoOp, Op::Bit),
        ),
        0x3a => Some(
            Mnemonic::new(0x3a, Data::Half, "BITH", OpType::Src, OpType::Src, OpType::NoOp, OpType::NoOp, Op::Bit),
        ),
        0x3b => Some(
            Mnemonic::new(0x3b, Data::Byte, "BITB", OpType::Src, OpType::Src, OpType::NoOp, OpType::NoOp, Op::Bit),
        ),
        0x3c => Some(
            Mnemonic::new(0x3c, Data::Word, "CMPW", OpType::Src, OpType::Src, OpType::NoOp, OpType::NoOp, Op::CompareW),
        ),
        0x3e => Some(
            Mnemonic::new(0x3e, Data::Half, "CMPH", OpType::Src, OpType::Src, OpType::NoOp, OpType::NoOp, Op::CompareH),
        ),
        0x3f => Some(
            Mnemonic::new(0x3f, Data::Byte, "CMPB", OpType::Src, OpType::Src, OpType::NoOp, OpType::NoOp, Op::CompareB),
        ),
        0x40 => Some(
            Mnemonic::new(0x40, Data::NoData, "RGEQ", OpType::NoOp, OpType::NoOp, OpType::NoOp, OpType::NoOp, Op::Return(Cond::GreaterEqual)),
        ),
        0x42 => Some(
            Mnemonic::new(0x42, Data::Half, "BGEH", OpType::Lit, OpType::NoOp, OpType::NoOp, OpType::NoOp, Op::BranchH(Cond::GreaterEqual)),
        ),
        0x43 => Some(
            Mnemonic::new(0x43, Data::Byte, "BGEB", OpType::Lit, OpType::NoOp, OpType::NoOp, OpType::NoOp, Op::BranchB(Cond::GreaterEqual)),
        ),
        0x44 => Some(
            Mnemonic::new(0x44, Data::NoData, "RGTR", OpType::NoOp, OpType::NoOp, OpType::NoOp, OpType::NoOp, Op::Return(Cond::Greater)),
        ),
        0x46 => Some(
            Mnemonic::new(0x46, Data::Half, "BGH", OpType::Lit, OpType::NoOp, OpType::NoOp, OpType::NoOp, Op::BranchH(Cond::Greater)),
        ),
        0x47 => Some(
            Mnemonic::new(0x47, Data::Byte, "BGB", OpType::Lit, OpType::NoOp, OpType::NoOp, OpType::NoOp, Op::BranchB(Cond::Greater)),
        ),
        0x48 => Some(
            Mnemonic::new(0x48, Data::NoData, "RLSS", OpType::NoOp, OpType::NoOp, OpType::NoOp, OpType::NoOp, Op::Return(Cond::ReturnLess)),
        ),
        0x4a => Some(
            Mnemonic::new(0x4a, Data::Half, "BLH", OpType::Lit, OpType::NoOp, OpType::NoOp, OpType::NoOp, Op::BranchH(Cond::Less)),
        ),
        0x4b => Some(
            Mnemonic::new(0x4b, Data::Byte, "BLB", OpType::Lit, OpType::NoOp, OpType::NoOp, OpType::NoOp, Op::BranchB(Cond::Less)),
        ),
        0x4c => Some(
            Mnemonic::new(0x4c, Data::NoData, "RLEQ", OpType::NoOp, OpType::NoOp, OpType::NoOp, OpType::NoOp, Op::Return(Cond::LessEqual)),
        ),
        0x4e => Some(
            Mnemonic::new(0x4e, Data::Half, "BLEH", OpType::Lit, OpType::NoOp, OpType::NoOp, OpType::NoOp, Op::BranchH(Cond::LessEqual)),
        ),
        0x4f => Some(
            Mnemonic::new(0x4f, Data::Byte, "BLEB", OpType::Lit, OpType::NoOp, OpType::NoOp, OpType::NoOp, Op::BranchB(Cond::LessEqual)),
        ),
        0x50 => Some(
            Mnemonic::new(0x50, Data::NoData, "RGEQU", OpType::NoOp, OpType::NoOp, OpType::NoOp, OpType::NoOp, Op::Return(Cond::GreaterEqualU)),
        ),
        0x52 => Some(
            Mnemonic::new(0x52, Data::Half, "BGEUH", OpType::Lit, OpType::NoOp, OpType::NoOp, OpType::NoOp, Op::BranchH(Cond::GreaterEqualU)),
        ),
        0x53 => Some(
            Mnemonic::new(0x53, Data::Byte, "BGEUB", OpType::Lit, OpType::NoOp, OpType::NoOp, OpType::NoOp, Op::BranchB(Cond::GreaterEqualU)),
        ),
        0x54 => Some(
            Mnemonic::new(0x54, Data::NoData, "RGTRU", OpType::NoOp, OpType::NoOp, OpType::NoOp, OpType::NoOp, Op::Unimplemented),
        ),
        0x56 => Some(
            Mnemonic::new(0x56, Data::Half, "BGUH", OpType::Lit, OpType::NoOp, OpType::NoOp, OpType::NoOp, Op::BranchH(Cond::GreaterU)),
        ),
        0x57 => Some(
            Mnemonic::new(0x57, Data::Byte, "BGUB", OpType::Lit, OpType::NoOp, OpType::NoOp, OpType::NoOp, Op::BranchB(Cond::GreaterU)),
        ),
        0x58 => Some(
            Mnemonic::new(0x58, Data::NoData, "RLSSU", OpType::NoOp, OpType::NoOp, OpType::NoOp, OpType::NoOp, Op::Unimplemented),
        ),
        0x5a => Some(
            Mnemonic::new(0x5a, Data::Half, "BLUH", OpType::Lit, OpType::NoOp, OpType::NoOp, OpType::NoOp, Op::BranchH(Cond::LessU)),
        ),
        0x5b => Some(
            Mnemonic::new(0x5b, Data::Byte, "BLUB", OpType::Lit, OpType::NoOp, OpType::NoOp, OpType::NoOp, Op::BranchB(Cond::LessU)),
        ),
        0x5c => Some(
            Mnemonic::new(0x5c, Data::NoData, "RLEQU", OpType::NoOp, OpType::NoOp, OpType::NoOp, OpType::NoOp, Op::Return(Cond::LessEqualU)),
        ),
        0x5e => Some(
            Mnemonic::new(0x5e, Data::Half, "BLEUH", OpType::Lit, OpType::NoOp, OpType::NoOp, OpType::NoOp, Op::BranchH(Cond::LessEqualU)),
        ),
        0x5f => Some(
            Mnemonic::new(0x5f, Data::Byte, "BLEUB", OpType::Lit, OpType::NoOp, OpType::NoOp, OpType::NoOp, Op::BranchB(Cond::LessEqualU)),
        ),
        0x60 => Some(
            Mnemonic::new(0x60, Data::NoData, "RVC", OpType::NoOp, OpType::NoOp, OpType::NoOp, OpType::NoOp, Op::Unimplemented),
        ),
        0x62 => Some(
            Mnemonic::new(0x62, Data::Half, "BVCH", OpType::Lit, OpType::NoOp, OpType::NoOp, OpType::NoOp, Op::BranchH(Cond::OverflowClear)),
        ),
        0x63 => Some(
            Mnemonic::new(0x63, Data::Byte, "BVCB", OpType::Lit, OpType::NoOp, OpType::NoOp, OpType::NoOp, Op::BranchB(Cond::OverflowClear)),
        ),
        0x64 => Some(
            Mnemonic::new(0x64, Data::NoData, "RNEQU", OpType::NoOp, OpType::NoOp, OpType::NoOp, OpType::NoOp, Op::Return(Cond::NotEqual)),
        ),
        0x66 => Some(
            Mnemonic::new(0x66, Data::Half, "BNEH", OpType::Lit, OpType::NoOp, OpType::NoOp, OpType::NoOp, Op::BranchH(Cond::NotEqual)),
        ),
        0x67 => Some(
            Mnemonic::new(0x67, Data::Byte, "BNEB", OpType::Lit, OpType::NoOp, OpType::NoOp, OpType::NoOp, Op::BranchB(Cond::NotEqual)),
        ),
        0x68 => Some(
            Mnemonic::new(0x68, Data::NoData, "RVS", OpType::NoOp, OpType::NoOp, OpType::NoOp, OpType::NoOp, Op::Unimplemented),
        ),
        0x6a => Some(
            Mnemonic::new(0x6a, Data::Half, "BVSH", OpType::Lit, OpType::NoOp, OpType::NoOp, OpType::NoOp, Op::BranchH(Cond::OverflowSet)),
        ),
        0x6b => Some(
            Mnemonic::new(0x6b, Data::Byte, "BVSB", OpType::Lit, OpType::NoOp, OpType::NoOp, OpType::NoOp, Op::BranchB(Cond::OverflowSet)),
        ),
        0x6c => Some(
            Mnemonic::new(0x6c, Data::NoData, "REQLU", OpType::NoOp, OpType::NoOp, OpType::NoOp, OpType::NoOp, Op::Return(Cond::Equal)),
        ),
        0x6e => Some(
            Mnemonic::new(0x6e, Data::Half, "BEH", OpType::Lit, OpType::NoOp, OpType::NoOp, OpType::NoOp, Op::BranchH(Cond::Equal)),
        ),
        0x6f => Some(
            Mnemonic::new(0x6f, Data::Byte, "BEB", OpType::Lit, OpType::NoOp, OpType::NoOp, OpType::NoOp, Op::BranchB(Cond::Equal)),
        ),
        0x70 => Some(
            Mnemonic::new(0x70, Data::NoData, "NOP", OpType::NoOp, OpType::NoOp, OpType::NoOp, OpType::NoOp, Op::Nop1),
        ),
        0x72 => Some(
            Mnemonic::new(0x72, Data::NoData, "NOP3", OpType::NoOp, OpType::NoOp, OpType::NoOp, OpType::NoOp, Op::Nop3),
        ),
        0x73 => Some(
            Mnemonic::new(0x73, Data::NoData, "NOP2", OpType::NoOp, OpType::NoOp, OpType::NoOp, OpType::NoOp, Op::Nop2),
        ),
        0x74 => Some(
            Mnemonic::new(0x74, Data::NoData, "RNEQ", OpType::NoOp, OpType::NoOp, OpType::NoOp, OpType::NoOp, Op::Return(Cond::NotEqual)),
        ),
        0x76 => Some(
            Mnemonic::new(0x76, Data::Half, "BNEH", OpType::Lit, OpType::NoOp, OpType::NoOp, OpType::NoOp, Op::BranchH(Cond::NotEqual)),
        ),
        0x77 => Some(
            Mnemonic::new(0x77, Data::Byte, "BNEB", OpType::Lit, OpType::NoOp, OpType::NoOp, OpType::NoOp, Op::BranchB(Cond::NotEqual)),
        ),
        0x78 => Some(
            Mnemonic::new(0x78, Data::NoData, "RSB", OpType::NoOp, OpType::NoOp, OpType::NoOp, OpType::NoOp, Op::Return(Cond::Always)),
        ),
        0x7a => Some(
            Mnemonic::new(0x7a, Data::Half, "BRH", OpType::Lit, OpType::NoOp, OpType::NoOp, OpType::NoOp, Op::BranchH(Cond::Always)),
        ),
        0x7b => Some(
            Mnemonic::new(0x7b, Data::Byte, "BRB", OpType::Lit, OpType::NoOp, OpType::NoOp, OpType::NoOp, Op::BranchB(Cond::Always)),
        ),
        0x7c => Some(
            Mnemonic::new(0x7c, Data::NoData, "REQL", OpType::NoOp, OpType::NoOp, OpType::NoOp, OpType::NoOp, Op::Return(Cond::Equal)),
        ),
        0x7e => Some(
            Mnemonic::new(0x7e, Data::Half, "BEH", OpType::Lit, OpType::NoOp, OpType::NoOp, OpType::NoOp, Op::BranchH(Cond::Equal)),
        ),
        0x7f => Some(
            Mnemonic::new(0x7f, Data::Byte, "BEB", OpType::Lit, OpType::NoOp, OpType::NoOp, OpType::NoOp, Op::BranchB(Cond::Equal)),
        ),
        0x80 => Some(
            Mnemonic::new(0x80, Data::Word, "CLRW", OpType::Dest, OpType::NoOp, OpType::NoOp, OpType::NoOp, Op::Clr),
        ),
        0x82 => Some(
            Mnemonic::new(0x82, Data::Half, "CLRH", OpType::Dest, OpType::NoOp, OpType::NoOp, OpType::NoOp, Op::Clr),
        ),
        0x83 => Some(
            Mnemonic::new(0x83, Data::Byte, "CLRB", OpType::Dest, OpType::NoOp, OpType::NoOp, OpType::NoOp, Op::Clr),
        ),
        0x84 => Some(
            Mnemonic::new(0x84, Data::Word, "MOVW", OpType::Src, OpType::Dest, OpType::NoOp, OpType::NoOp, Op::Mov),
        ),
        0x86 => Some(
            Mnemonic::new(0x86, Data::Half, "MOVH", OpType::Src, OpType::Dest, OpType::NoOp, OpType::NoOp, Op::Mov),
        ),
        0x87 => Some(
            Mnemonic::new(0x87, Data::Byte, "MOVB", OpType::Src, OpType::Dest, OpType::NoOp, OpType::NoOp, Op::Mov),
        ),
        0x88 => Some(
            Mnemonic::new(0x88, Data::Word, "MCOMW", OpType::Src, OpType::Dest, OpType::NoOp, OpType::NoOp, Op::Mcom),
        ),
        0x8a => Some(
            Mnemonic::new(0x8a, Data::Half, "MCOMH", OpType::Src, OpType::Dest, OpType::NoOp, OpType::NoOp, Op::Mcom),
        ),
        0x8b => Some(
            Mnemonic::new(0x8b, Data::Byte, "MCOMB", OpType::Src, OpType::Dest, OpType::NoOp, OpType::NoOp, Op::Mcom),
        ),
        0x8c => Some(
            Mnemonic::new(0x8c, Data::Word, "MNEGW", OpType::Src, OpType::Dest, OpType::NoOp, OpType::NoOp, Op::Mneg),
        ),
        0x8e => Some(
            Mnemonic::new(0x8e, Data::Half, "MNEGH", OpType::Src, OpType::Dest, OpType::NoOp, OpType::NoOp, Op::Mneg),
        ),
        0x8f => Some(
            Mnemonic::new(0x8f, Data::Byte, "MNEGB", OpType::Src, OpType::Dest, OpType::NoOp, OpType::NoOp, Op::Mneg),
        ),
        0x90 => Some(
            Mnemonic::new(0x90, Data::Word, "INCW", OpType::Dest, OpType::NoOp, OpType::NoOp, OpType::NoOp, Op::Inc),
        ),
        0x92 => Some(
            Mnemonic::new(0x92, Data::Half, "INCH", OpType::Dest, OpType::NoOp, OpType::NoOp, OpType::NoOp, Op::Inc),
        ),
        0x93 => Some(
            Mnemonic::new(0x93, Data::Byte, "INCB", OpType::Dest, OpType::NoOp, OpType::NoOp, OpType::NoOp, Op::Inc),
        ),
        0x94 => Some(
            Mnemonic::new(0x94, Data::Word, "DECW", OpType::Dest, OpType::NoOp, OpType::NoOp, OpType::NoOp, Op::Dec),
        ),
        0x96 => Some(
            Mnemonic::new(0x96, Data::Half, "DECH", OpType::Dest, OpType::NoOp, OpType::NoOp, OpType::NoOp, Op::Dec),
        ),
        0x97 => Some(
            Mnemonic::new(0x97, Data::Byte, "DECB", OpType::Dest, OpType::NoOp, OpType::NoOp, OpType::NoOp, Op::Dec),
        ),
        0x9c => Some(
            Mnemonic::new(0x9c, Data::Word, "ADDW2", OpType::Src, OpType::Dest, OpType::NoOp, OpType::NoOp, Op::Add2),
        ),
        0x9e => Some(
            Mnemonic::new(0x9e, Data::Half, "ADDH2", OpType::Src, OpType::Dest, OpType::NoOp, OpType::NoOp, Op::Add2),
        ),
        0x9f => Some(
            Mnemonic::new(0x9f, Data::Byte, "ADDB2", OpType::Src, OpType::Dest, OpType::NoOp, OpType::NoOp, Op::Add2),
        ),
        0xa0 => Some(
            Mnemonic::new(0xa0, Data::Word, "PUSHW", OpType::Src, OpType::NoOp, OpType::NoOp, OpType::NoOp, Op::Pushw),
        ),
        0xa4 => Some(
            Mnemonic::new(0xa4, Data::Word, "MODW2", OpType::Src, OpType::Dest, OpType::NoOp, OpType::NoOp, Op::Mod2),
        ),
        0xa6 => Some(
            Mnemonic::new(0xa6, Data::Half, "MODH2", OpType::Src, OpType::Dest, OpType::NoOp, OpType::NoOp, Op::Mod2),
        ),
        0xa7 => Some(
            Mnemonic::new(0xa7, Data::Byte, "MODB2", OpType::Src, OpType::Dest, OpType::NoOp, OpType::NoOp, Op::Mod2),
        ),
        0xa8 => Some(
            Mnemonic::new(0xa8, Data::Word, "MULW2", OpType::Src, OpType::Dest, OpType::NoOp, OpType::NoOp, Op::Mul2),
        ),
        0xaa => Some(
            Mnemonic::new(0xaa, Data::Half, "MULH2", OpType::Src, OpType::Dest, OpType::NoOp, OpType::NoOp, Op::Mul2),
        ),
        0xab => Some(
            Mnemonic::new(0xab, Data::Byte, "MULB2", OpType::Src, OpType::Dest, OpType::NoOp, OpType::NoOp, Op::Mul2),
        ),
        0xac => Some(
            Mnemonic::new(0xac, Data::Word, "DIVW2", OpType::Src, OpType::Dest, OpType::NoOp, OpType::NoOp, Op::DivW2),
        ),
        0xae => Some(
            Mnemonic::new(0xae, Data::Half, "DIVH2", OpType::Src, OpType::Dest, OpType::NoOp, OpType::NoOp, Op::DivH2),
        ),
        0xaf => Some(
            Mnemonic::new(0xaf, Data::Byte, "DIVB2", OpType::Src, OpType::Dest, OpType::NoOp, OpType::NoOp, Op::DivB2),
        ),
        0xb0 => Some(
            Mnemonic::new(0xb0, Data::Word, "ORW2", OpType::Src, OpType::Dest, OpType::NoOp, OpType::NoOp, Op::Or2),
        ),
        0xb2 => Some(
            Mnemonic::new(0xb2, Data::Half, "ORH2", OpType::Src, OpType::Dest, OpType::NoOp, OpType::NoOp, Op::Or2),
        ),
        0xb3 => Some(
            Mnemonic::new(0xb3, Data::Byte, "ORB2", OpType::Src, OpType::Dest, OpType::NoOp, OpType::NoOp, Op::Or2),
        ),
        0xb4 => Some(
            Mnemonic::new(0xb4, Data::Word, "XORW2", OpType::Src, OpType::Dest, OpType::NoOp, OpType::NoOp, Op::Xor2),
        ),
        0xb6 => Some(
            Mnemonic::new(0xb6, Data::Half, "XORH2", OpType::Src, OpType::Dest, OpType::NoOp, OpType::NoOp, Op::Xor2),
        ),
        0xb7 => Some(
            Mnemonic::new(0xb7, Data::Byte, "XORB2", OpType::Src, OpType::Dest, OpType::NoOp, OpType::NoOp, Op::Xor2),
        ),
        0xb8 => Some(
            Mnemonic::new(0xb8, Data::Word, "ANDW2", OpType::Src, OpType::Dest, OpType::NoOp, OpType::NoOp, Op::And2),
        ),
        0xba => Some(
            Mnemonic::new(0xba, Data::Half, "ANDH2", OpType::Src, OpType::Dest, OpType::NoOp, OpType::NoOp, Op::And2),
        ),
        0xbb => Some(
            Mnemonic::new(0xbb, Data::Byte, "ANDB2", OpType::Src, OpType::Dest, OpType::NoOp, OpType::NoOp, Op::And2),
        ),
        0xbc => Some(
            Mnemonic::new(0xbc, Data::Word, "SUBW2", OpType::Src, OpType::Dest, OpType::NoOp, OpType::NoOp, Op::Sub2),
        ),
        0xbe => Some(
            Mnemonic::new(0xbe, Data::Half, "SUBH2", OpType::Src, OpType::Dest, OpType::NoOp, OpType::NoOp, Op::Sub2),
        ),
        0xbf => Some(
            Mnemonic::new(0xbf, Data::Byte, "SUBB2", OpType::Src, OpType::Dest, OpType::NoOp, OpType::NoOp, Op::Sub2),
        ),
        0xc0 => Some(
            Mnemonic::new(0xc0, Data::Word, "ALSW3", OpType::Src, OpType::Src, OpType::Dest, OpType::NoOp, Op::Alsw3),
        ),
        0xc4 => Some(
            Mnemonic::new(0xc4, Data::Word, "ARSW3", OpType::Src, OpType::Src, OpType::Dest, OpType::NoOp, Op::Ars),
        ),
        0xc6 => Some(
            Mnemonic::new(0xc6, Data::Half, "ARSH3", OpType::Src, OpType::Src, OpType::Dest, OpType::NoOp, Op::Ars),
        ),
        0xc7 => Some(
            Mnemonic::new(0xc7, Data::Byte, "ARSB3", OpType::Src, OpType::Src, OpType::Dest, OpType::NoOp, Op::Ars),
        ),
        0xc8 => Some(
            Mnemonic::new(0xc8, Data::Word, "INSFW", OpType::Src, OpType::Src, OpType::Src, OpType::Dest, Op::Insf),
        ),
        0xca => Some(
            Mnemonic::new(0xca, Data::Half, "INSFH", OpType::Src, OpType::Src, OpType::Src, OpType::Dest, Op::Insf),
        ),
        0xcb => Some(
            Mnemonic::new(0xcb, Data::Byte, "INSFB", OpType::Src, OpType::Src, OpType::Src, OpType::Dest, Op::Insf),
        ),
        0xcc => Some(
            Mnemonic::new(0xcc, Data::Word, "EXTFW", OpType::Src, OpType::Src, OpType::Src, OpType::Dest, Op::Extf),
        ),
        0xce => Some(
            Mnemonic::new(0xce, Data::Half, "EXTFH", OpType::Src, OpType::Src, OpType::Src, OpType::Dest, Op::Extf),
        ),
        0xcf => Some(
            Mnemonic::new(0xcf, Data::Byte, "EXTFB", OpType::Src, OpType::Src, OpType::Src, OpType::Dest, Op::Extf),
        ),
        0xd0 => Some(
            Mnemonic::new(0xd0, Data::Word, "LLSW3", OpType::Src, OpType::Src, OpType::Dest, OpType::NoOp, Op::Lls),
        ),
        0xd2 => Some(
            Mnemonic::new(0xd2, Data::Half, "LLSH3", OpType::Src, OpType::Src, OpType::Dest, OpType::NoOp, Op::Lls),
        ),
        0xd3 => Some(
            Mnemonic::new(0xd3, Data::Byte, "LLSB3", OpType::Src, OpType::Src, OpType::Dest, OpType::NoOp, Op::Lls),
        ),
        0xd4 => Some(
            Mnemonic::new(0xd4, Data::Word, "LRSW3", OpType::Src, OpType::Src, OpType::Dest, OpType::NoOp, Op::Lrs),
        ),
        0xd8 => Some(
            Mnemonic::new(0xd8, Data::Word, "ROTW", OpType::Src, OpType::Src, OpType::Dest, OpType::NoOp, Op::Rotw),
        ),
        0xdc => Some(
            Mnemonic::new(0xdc, Data::Word, "ADDW3", OpType::Src, OpType::Src, OpType::Dest, OpType::NoOp, Op::Add3),
        ),
        0xde => Some(
            Mnemonic::new(0xde, Data::Half, "ADDH3", OpType::Src, OpType::Src, OpType::Dest, OpType::NoOp, Op::Add3),
        ),
        0xdf => Some(
            Mnemonic::new(0xdf, Data::Byte, "ADDB3", OpType::Src, OpType::Src, OpType::Dest, OpType::NoOp, Op::Add3),
        ),
        0xe0 => Some(
            Mnemonic::new(0xe0, Data::Word, "PUSHAW", OpType::Src, OpType::NoOp, OpType::NoOp, OpType::NoOp, Op::Pushaw),
        ),
        0xe4 => Some(
            Mnemonic::new(0xe4, Data::Word, "MODW3", OpType::Src, OpType::Src, OpType::Dest, OpType::NoOp, Op::Mod3),
        ),
        0xe6 => Some(
            Mnemonic::new(0xe6, Data::Half, "MODH3", OpType::Src, OpType::Src, OpType::Dest, OpType::NoOp, Op::Mod3),
        ),
        0xe7 => Some(
            Mnemonic::new(0xe7, Data::Byte, "MODB3", OpType::Src, OpType::Src, OpType::Dest, OpType::NoOp, Op::Mod3),
        ),
        0xe8 => Some(
            Mnemonic::new(0xe8, Data::Word, "MULW3", OpType::Src, OpType::Src, OpType::Dest, OpType::NoOp, Op::Mul3),
        ),
        0xea => Some(
            Mnemonic::new(0xea, Data::Half, "MULH3", OpType::Src, OpType::Src, OpType::Dest, OpType::NoOp, Op::Mul3),
        ),
        0xeb => Some(
            Mnemonic::new(0xeb, Data::Byte, "MULB3", OpType::Src, OpType::Src, OpType::Dest, OpType::NoOp, Op::Mul3),
        ),
        0xec => Some(
            Mnemonic::new(0xec, Data::Word, "DIVW3", OpType::Src, OpType::Src, OpType::Dest, OpType::NoOp, Op::DivW3),
        ),
        0xee => Some(
            Mnemonic::new(0xee, Data::Half, "DIVH3", OpType::Src, OpType::Src, OpType::Dest, OpType::NoOp, Op::DivH3),
        ),
        0xef => Some(
            Mnemonic::new(0xef, Data::Byte, "DIVB3", OpType::Src, OpType::Src, OpType::Dest, OpType::NoOp, Op::DivB3),
        ),
        0xf0 => Some(
            Mnemonic::new(0xf0, Data::Word, "ORW3", OpType::Src, OpType::Src, OpType::Dest, OpType::NoOp, Op::Or3),
        ),
        0xf2 => Some(
            Mnemonic::new(0xf2, Data::Half, "ORH3", OpType::Src, OpType::Src, OpType::Dest, OpType::NoOp, Op::Or3),
        ),
        0xf3 => Some(
            Mnemonic::new(0xf3, Data::Byte, "ORB3", OpType::Src, OpType::Src, OpType::Dest, OpType::NoOp, Op::Or3),
        ),
        0xf4 => Some(
            Mnemonic::new(0xf4, Data::Word, "XORW3", OpType::Src, OpType::Src, OpType::Dest, OpType::NoOp, Op::Xor3),
        ),
        0xf6 => Some(
            Mnemonic::new(0xf6, Data::Half, "XORH3", OpType::Src, OpType::Src, OpType::Dest, OpType::NoOp, Op::Xor3),
        ),
        0xf7 => Some(
            Mnemonic::new(0xf7, Data::Byte, "XORB3", OpType::Src, OpType::Src, OpType::Dest, OpType::NoOp, Op::Xor3),
        ),
        0xf8 => Some(
            Mnemonic::new(0xf8, Data::Word, "ANDW3", OpType::Src, OpType::Src, OpType::Dest, OpType::NoOp, Op::And3),
        ),
        0xfa => Some(
            Mnemonic::new(0xfa, Data::Half, "ANDH3", OpType::Src, OpType::Src, OpType::Dest, OpType::NoOp, Op::And3),
        ),
        0xfb => Some(
            Mnemonic::new(0xfb, Data::Byte, "ANDB3", OpType::Src, OpType::Src, OpType::Dest, OpType::NoOp, Op::And3),
        ),
        0xfc => Some(
            Mnemonic::new(0xfc, Data::Word, "SUBW3", OpType::Src, OpType::Src, OpType::Dest, OpType::NoOp, Op::Sub3),
        ),
        0xfe => Some(
            Mnemonic::new(0xfe, Data::Half, "SUBH3", OpType::Src, OpType::Src, OpType::Dest, OpType::NoOp, Op::Sub3),
        ),
        0xff => Some(
            Mnemonic::new(0xff, Data::Byte, "SUBB3", OpType::Src, OpType::Src, OpType::Dest, OpType::NoOp, Op::Sub3),
        ),
        _ => None,
    }
}

/// Looks up a two-byte opcode.
pub fn halfword_mnemonic(opcode: u16) -> (r: Option<Mnemonic>)
    ensures
        r == halfword_entry(opcode),
{
    reveal(halfword_entry);
    match opcode {
        0x3009 => Some(
            Mnemonic::new(0x3009, Data::NoData, "MVERNO", OpType::NoOp, OpType::NoOp, OpType::NoOp, OpType::NoOp, Op::Mverno),
        ),
        0x300d => Some(
            Mnemonic::new(0x300d, Data::NoData, "ENBVJMP", OpType::NoOp, OpType::NoOp, OpType::NoOp, OpType::NoOp, Op::Enbvjmp),
        ),
        0x3013 => Some(
            Mnemonic::new(0x3013, Data::NoData, "DISVJMP", OpType::NoOp, OpType::NoOp, OpType::NoOp, OpType::NoOp, Op::Disvjmp),
        ),
        0x3019 => Some(
            Mnemonic::new(0x3019, Data::NoData, "MOVBLW", OpType::NoOp, OpType::NoOp, OpType::NoOp, OpType::NoOp, Op::Movblw),
        ),
        0x301f => Some(
            Mnemonic::new(0x301f, Data::NoData, "STREND", OpType::NoOp, OpType::NoOp, OpType::NoOp, OpType::NoOp, Op::Strend),
        ),
        0x302f => Some(
            Mnemonic::new(0x302f, Data::NoData, "INTACK", OpType::NoOp, OpType::NoOp, OpType::NoOp, OpType::NoOp, Op::Unimplemented),
        ),
        0x303f => Some(
            Mnemonic::new(0x303f, Data::NoData, "STRCPY", OpType::NoOp, OpType::NoOp, OpType::NoOp, OpType::NoOp, Op::Unimplemented),
        ),
        0x3045 => Some(
            Mnemonic::new(0x3045, Data::NoData, "RETG", OpType::NoOp, OpType::NoOp, OpType::NoOp, OpType::NoOp, Op::Retg),
        ),
        0x3061 => Some(
            Mnemonic::new(0x3061, Data::NoData, "GATE", OpType::NoOp, OpType::NoOp, OpType::NoOp, OpType::NoOp, Op::Unimplemented),
        ),
        0x30ac => Some(
            Mnemonic::new(0x30ac, Data::NoData, "CALLPS", OpType::NoOp, OpType::NoOp, OpType::NoOp, OpType::NoOp, Op::Callps),
        ),
        0x30c8 => Some(
            Mnemonic::new(0x30c8, Data::NoData, "RETPS", OpType::NoOp, OpType::NoOp, OpType::NoOp, OpType::NoOp, Op::Retps),
        ),
        _ => None,
    }
}

/// Looks up an opcode, one byte or two.
pub fn mnemonic(opcode: u16) -> (r: Option<Mnemonic>)
    ensures
        r == mnemonic_of(opcode),
{
    if opcode < 0x100 {
        byte_mnemonic(opcode as u8)
    } else {
        halfword_mnemonic(opcode)
    }
}

/// What the instruction with an opcode does.
pub fn operation(opcode: u16) -> (op: Op)
    ensures
        op == operation_of(opcode),
{
    match mnemonic(opcode) {
        Some(m) => m.op,
        None => Op::Unimplemented,
    }
}

} // verus!
