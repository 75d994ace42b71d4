//! A region of byte-addressable memory. Multi-byte values are stored
//! big-endian: the most significant byte at the lowest address.

use crate::device::{AccessCode, Device};
use crate::err::BusError;
use std::ops::Range;
use vstd::prelude::*;

verus! {

/// The half-word whose high byte is `hi` and whose low byte is `lo`.
pub open spec fn half_be(hi: u8, lo: u8) -> u16 {
    (hi as u16) << 8 | (lo as u16)
}

/// The word made of four bytes, `b0` being the most significant.
pub open spec fn word_be(b0: u8, b1: u8, b2: u8, b3: u8) -> u32 {
    (b0 as u32) << 24 | (b1 as u32) << 16 | (b2 as u32) << 8 | (b3 as u32)
}

/// The mathematical model of a memory region.
pub struct MemState {
    /// The absolute address of the first byte.
    pub base: usize,
    /// The bytes of the region, in address order.
    pub bytes: Seq<u8>,
    /// Whether writes are refused.
    pub read_only: bool,
}

impl MemState {
    /// The region ends inside the address space.
    pub open spec fn wf(self) -> bool {
        self.base + self.bytes.len() <= usize::MAX
    }

    /// Whether the `width` bytes at `address` all lie inside the region.
    pub open spec fn covers(self, address: usize, width: nat) -> bool {
        self.base <= address && address + width <= self.base + self.bytes.len()
    }

    /// The byte stored at an absolute address inside the region.
    pub open spec fn at(self, address: int) -> u8 {
        self.bytes[address - self.base]
    }

    /// What a byte read at an absolute address answers.
    pub open spec fn read_byte(self, address: usize) -> Result<u8, BusError> {
        if self.covers(address, 1) {
            Ok(self.at(address as int))
        } else {
            Err(BusError::Range)
        }
    }

    /// What a half-word read at an absolute address answers: the two
    /// bytes there, the first being the high one.
    pub open spec fn read_half(self, address: usize) -> Result<u16, BusError> {
        if self.covers(address, 2) {
            Ok(half_be(self.at(address as int), self.at(address + 1)))
        } else {
            Err(BusError::Range)
        }
    }

    /// What a word read at an absolute address answers: the four bytes
    /// there, the first being the highest.
    pub open spec fn read_word(self, address: usize) -> Result<u32, BusError> {
        if self.covers(address, 4) {
            Ok(
                word_be(
                    self.at(address as int),
                    self.at(address + 1),
                    self.at(address + 2),
                    self.at(address + 3),
                ),
            )
        } else {
            Err(BusError::Range)
        }
    }

    /// The region with `data` stored from `address` on.
    pub open spec fn with_bytes(self, address: usize, data: Seq<u8>) -> MemState {
        MemState {
            bytes: Seq::new(
                self.bytes.len(),
                |i: int|
                    if address - self.base <= i < address - self.base + data.len() {
                        data[i - (address - self.base)]
                    } else {
                        self.bytes[i]
                    },
            ),
            ..self
        }
    }

    /// What a write of `data` at `address` answers: a read-only region
    /// refuses it, and so does a region that does not hold all of it.
    pub open spec fn write_result(self, address: usize, width: nat) -> Result<(), BusError> {
        if self.read_only {
            Err(BusError::Permission)
        } else if !self.covers(address, width) {
            Err(BusError::Range)
        } else {
            Ok(())
        }
    }

    /// The region after a write of `data` at `address`: changed exactly
    /// when the write is accepted.
    pub open spec fn write(self, address: usize, data: Seq<u8>) -> MemState {
        if self.write_result(address, data.len()) is Ok {
            self.with_bytes(address, data)
        } else {
            self
        }
    }

    /// What a load of `width` bytes at `address` answers. A load ignores
    /// the read-only flag.
    pub open spec fn load_result(self, address: usize, width: nat) -> Result<(), BusError> {
        if self.covers(address, width) {
            Ok(())
        } else {
            Err(BusError::Range)
        }
    }

    /// The region after a load of `data` at `address`: changed exactly
    /// when all of it fits.
    pub open spec fn load(self, address: usize, data: Seq<u8>) -> MemState {
        if self.covers(address, data.len()) {
            self.with_bytes(address, data)
        } else {
            self
        }
    }
}

/// The bytes of a half-word, most significant first.
pub open spec fn half_bytes(val: u16) -> Seq<u8> {
    seq![(val >> 8) as u8, val as u8]
}

/// The bytes of a word, most significant first.
pub open spec fn word_bytes(val: u32) -> Seq<u8> {
    seq![(val >> 24) as u8, (val >> 16) as u8, (val >> 8) as u8, val as u8]
}

/// A region of memory on the bus.
pub struct Mem {
    address_range: Range<usize>,
    len: usize,
    ram: Vec<u8>,
    is_read_only: bool,
}

impl View for Mem {
    type V = MemState;

    closed spec fn view(&self) -> MemState {
        MemState { base: self.address_range.start, bytes: self.ram@, read_only: self.is_read_only }
    }
}

impl Mem {
    /// The fields agree with each other.
    pub closed spec fn inv(&self) -> bool {
        &&& self.len == self.ram@.len()
        &&& self.address_range.end == self.address_range.start + self.len
    }

    /// A zero-filled region of `len` bytes from `start_address` on.
    pub fn new(start_address: usize, len: usize, is_read_only: bool) -> (m: Mem)
        requires
            start_address + len <= usize::MAX,
        ensures
            m.inv(),
            m@.wf(),
            m@.base == start_address,
            m@.read_only == is_read_only,
            m@.bytes == Seq::new(len as nat, |i: int| 0u8),
    {
        let ram: Vec<u8> = vec![0u8; len];
        assert(ram@ =~= Seq::new(len as nat, |i: int| 0u8));
        Mem { address_range: start_address..start_address + len, len, ram, is_read_only }
    }

    /// The bytes at the offsets `range.start .. range.end` of the region,
    /// or a range fault where the region does not hold them all.
    pub fn as_slice(&self, range: Range<usize>) -> (r: Result<&[u8], BusError>)
        requires
            self.inv(),
        ensures
            range.start <= range.end <= self@.bytes.len() ==> r is Ok && r->Ok_0@
                == self@.bytes.subrange(range.start as int, range.end as int),
            !(range.start <= range.end <= self@.bytes.len()) ==> r == Err::<&[u8], BusError>(
                BusError::Range,
            ),
    {
        if range.start <= range.end && range.end <= self.len {
            Ok(vstd::slice::slice_subrange(self.ram.as_slice(), range.start, range.end))
        } else {
            Err(BusError::Range)
        }
    }

    /// All the bytes of the region, in address order.
    pub fn bytes(&self) -> (r: &[u8])
        ensures
            r@ == self@.bytes,
    {
        self.ram.as_slice()
    }

    /// The byte at offset `idx` of the region, if there is one.
    pub fn get(&self, idx: usize) -> (r: Option<u8>)
        requires
            self.inv(),
        ensures
            r == (if idx < self@.bytes.len() {
                Some(self@.bytes[idx as int])
            } else {
                None
            }),
    {
        if idx < self.len {
            Some(self.ram[idx])
        } else {
            None
        }
    }

    /// Stores `val` at offset `idx` of the region, read-only or not, and
    /// says whether there is such an offset.
    pub fn set(&mut self, idx: usize, val: u8) -> (r: bool)
        requires
            old(self).inv(),
        ensures
            final(self).inv(),
            r == (idx < old(self)@.bytes.len()),
            r ==> final(self)@ == (MemState { bytes: old(self)@.bytes.update(idx as int, val), ..old(self)@ }),
            !r ==> final(self)@ == old(self)@,
    {
        if idx < self.len {
            self.ram[idx] = val;
            true
        } else {
            false
        }
    }
}

impl Device for Mem {
    open spec fn wf(&self) -> bool {
        self.inv() && self@.wf()
    }

    fn address_range(&self) -> (r: Range<usize>)
        ensures
            self.wf() ==> r.start == self@.base && r.end == self@.base + self@.bytes.len(),
    {
        self.address_range.start..self.address_range.end
    }

    fn name(&self) -> (r: &'static str)
        ensures
            r@ == (if self@.read_only {
                "ROM"@
            } else {
                "RAM"@
            }),
    {
        if self.is_read_only {
            "ROM"
        } else {
            "RAM"
        }
    }

    fn is_read_only(&self) -> (r: bool)
        ensures
            r == self@.read_only,
    {
        self.is_read_only
    }

    /// Reads the byte at an absolute address.
    fn read_byte(&mut self, address: usize, access: AccessCode) -> (r: Result<u8, BusError>)
        ensures
            final(self)@ == old(self)@,
            r == old(self)@.read_byte(address),
    {
        if address < self.address_range.start || address >= self.address_range.end {
            Err(BusError::Range)
        } else {
            let offset: usize = address - self.address_range.start;
            Ok(self.ram[offset])
        }
    }

    /// Reads the big-endian half-word at an absolute address.
    fn read_half(&mut self, address: usize, access: AccessCode) -> (r: Result<u16, BusError>)
        ensures
            final(self)@ == old(self)@,
            r == old(self)@.read_half(address),
    {
        if address < self.address_range.start || address >= self.address_range.end
            || self.address_range.end - address < 2 {
            Err(BusError::Range)
        } else {
            let offset: usize = address - self.address_range.start;
            Ok((self.ram[offset] as u16) << 8 | (self.ram[offset + 1] as u16))
        }
    }

    /// Reads the big-endian word at an absolute address.
    fn read_word(&mut self, address: usize, access: AccessCode) -> (r: Result<u32, BusError>)
        ensures
            final(self)@ == old(self)@,
            r == old(self)@.read_word(address),
    {
        if address < self.address_range.start || address >= self.address_range.end
            || self.address_range.end - address < 4 {
            Err(BusError::Range)
        } else {
            let offset: usize = address - self.address_range.start;
            Ok(
                (self.ram[offset] as u32) << 24 | (self.ram[offset + 1] as u32) << 16 | (
                self.ram[offset + 2] as u32) << 8 | (self.ram[offset + 3] as u32),
            )
        }
    }

    /// Writes a byte at an absolute address.
    fn write_byte(&mut self, address: usize, val: u8, access: AccessCode) -> (r: Result<
        (),
        BusError,
    >)
        ensures
            r == old(self)@.write_result(address, 1),
            final(self)@ == old(self)@.write(address, seq![val]),
    {
        if self.is_read_only {
            return Err(BusError::Permission);
        }
        if address < self.address_range.start || address >= self.address_range.end {
            Err(BusError::Range)
        } else {
            let offset: usize = address - self.address_range.start;
            self.ram[offset] = val;
            assert(final(self)@.bytes =~= old(self)@.with_bytes(address, seq![val]).bytes);
            Ok(())
        }
    }

    /// Writes a half-word, big-endian, at an absolute address.
    fn write_half(&mut self, address: usize, val: u16, access: AccessCode) -> (r: Result<
        (),
        BusError,
    >)
        ensures
            r == old(self)@.write_result(address, 2),
            final(self)@ == old(self)@.write(address, half_bytes(val)),
    {
        if self.is_read_only {
            return Err(BusError::Permission);
        }
        if address < self.address_range.start || address >= self.address_range.end
            || self.address_range.end - address < 2 {
            Err(BusError::Range)
        } else {
            let offset: usize = address - self.address_range.start;
            self.ram[offset] = (val >> 8) as u8;
            self.ram[offset + 1] = val as u8;
            assert(final(self)@.bytes =~= old(self)@.with_bytes(address, half_bytes(val)).bytes);
            Ok(())
        }
    }

    /// Writes a word, big-endian, at an absolute address.
    fn write_word(&mut self, address: usize, val: u32, access: AccessCode) -> (r: Result<
        (),
        BusError,
    >)
        ensures
            r == old(self)@.write_result(address, 4),
            final(self)@ == old(self)@.write(address, word_bytes(val)),
    {
        if self.is_read_only {
            return Err(BusError::Permission);
        }
        if address < self.address_range.start || address >= self.address_range.end
            || self.address_range.end - address < 4 {
            Err(BusError::Range)
        } else {
            let offset: usize = address - self.address_range.start;
            self.ram[offset] = (val >> 24) as u8;
            self.ram[offset + 1] = (val >> 16) as u8;
            self.ram[offset + 2] = (val >> 8) as u8;
            self.ram[offset + 3] = val as u8;
            assert(final(self)@.bytes =~= old(self)@.with_bytes(address, word_bytes(val)).bytes);
            Ok(())
        }
    }

    /// Copies `data` into the region from an absolute address on, even
    /// into a read-only region. Nothing is copied unless all of it fits.
    fn load(&mut self, address: usize, data: &[u8]) -> (r: Result<(), BusError>)
        ensures
            r == old(self)@.load_result(address, data@.len()),
            final(self)@ == old(self)@.load(address, data@),
    {
        if address < self.address_range.start || address > self.address_range.end
            || self.address_range.end - address < data.len() {
            return Err(BusError::Range);
        }
        let offset: usize = address - self.address_range.start;
        let mut i: usize = 0;
        while i < data.len()
            invariant
                self.inv(),
                self@.wf(),
                self@.base == old(self)@.base,
                self@.read_only == old(self)@.read_only,
                offset == address - self@.base,
                offset + data@.len() <= self@.bytes.len(),
                self@.bytes.len() == old(self)@.bytes.len(),
                i <= data@.len(),
                forall|k: int|
                    0 <= k < self@.bytes.len() ==> self@.bytes[k] == (if offset <= k < offset + i {
                        data@[k - offset]
                    } else {
                        old(self)@.bytes[k]
                    }),
            decreases data@.len() - i,
        {
            self.ram[offset + i] = data[i];
            i += 1;
        }
        assert(final(self)@.bytes =~= old(self)@.with_bytes(address, data@).bytes);
        Ok(())
    }
}

} // verus!
