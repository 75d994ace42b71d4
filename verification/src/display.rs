//! Operands and instructions as text, as a trace of the processor
//! shows them.

use crate::instr::{Data, Instruction, Operand};
use crate::text::{hex_padded, padded_right, push_hex_padded, push_spaces};
use vstd::prelude::*;
use vstd::string::{StrSliceExecFns, StringExecFns};

verus! {

impl Operand {
    /// The value last moved to or from the operand, in as many
    /// hexadecimal digits as its declared type has; nothing where it has
    /// no type.
    pub open spec fn display_text(self) -> Seq<char> {
        match self.data_type {
            Data::NoData => Seq::<char>::empty(),
            Data::Byte | Data::SByte => "0x"@ + hex_padded((self.data % 0x100) as nat, 2),
            Data::Half | Data::UHalf => "0x"@ + hex_padded((self.data % 0x10000) as nat, 4),
            Data::Word | Data::UWord => "0x"@ + hex_padded(self.data as nat, 8),
        }
    }

    fn push_text(&self, s: &mut String)
        ensures
            final(s)@ == old(s)@ + self.display_text(),
    {
        match self.data_type {
            Data::NoData => {},
            Data::Byte | Data::SByte => {
                s.append("0x");
                push_hex_padded(s, (self.data % 0x100) as u64, 2);
            },
            Data::Half | Data::UHalf => {
                s.append("0x");
                push_hex_padded(s, (self.data % 0x10000) as u64, 4);
            },
            Data::Word | Data::UWord => {
                s.append("0x");
                push_hex_padded(s, self.data as u64, 8);
            },
        }
        assert(final(s)@ =~= old(s)@ + self.display_text());
    }

    /// The operand's data as text.
    pub fn to_text(&self) -> (r: String)
        ensures
            r@ == self.display_text(),
    {
        let mut s: String = String::new();
        self.push_text(&mut s);
        assert(s@ =~= self.display_text());
        s
    }
}

impl Instruction {
    /// The mnemonic in a column of five characters, a space, and the
    /// data of the four operands.
    pub open spec fn display_text(self) -> Seq<char> {
        padded_right(self.name@, 5) + " "@ + self.operands[0].display_text()
            + self.operands[1].display_text() + self.operands[2].display_text()
            + self.operands[3].display_text()
    }

    /// The instruction as text.
    pub fn to_text(&self) -> (r: String)
        ensures
            r@ == self.display_text(),
    {
        let mut s: String = String::new();
        s.append(self.name);
        let len: usize = self.name.unicode_len();
        if len < 5 {
            push_spaces(&mut s, 5 - len);
        }
        assert(s@ =~= padded_right(self.name@, 5));
        s.append(" ");
        self.operands[0].push_text(&mut s);
        self.operands[1].push_text(&mut s);
        self.operands[2].push_text(&mut s);
        self.operands[3].push_text(&mut s);
        s
    }
}

} // verus!
