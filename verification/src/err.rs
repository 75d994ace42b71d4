//! The two error taxonomies of the machine: faults raised by the bus and
//! its devices, and exceptions raised by the processor itself.

use crate::text::{hex, hex_padded, push_hex, push_hex_padded};
use vstd::prelude::*;
use vstd::string::StringExecFns;

verus! {

/// An exception raised by the processor while decoding or executing.
#[derive(Debug, Clone, Copy, PartialEq, Eq)]
pub enum CpuException {
    IllegalOpcode,
    InvalidDescriptor,
    PrivilegedOpcode,
    IntegerZeroDivide,
}

/// A fault raised by the bus or by one of the devices on it.
#[derive(Debug, Clone, Copy, PartialEq, Eq)]
pub enum BusError {
    Init,
    Read(usize),
    Write(usize),
    NoDevice(usize),
    Range,
    Permission,
    Alignment(usize),
}

/// Anything that can stop an instruction: a processor exception or a
/// fault of the bus.
#[derive(Debug, Clone, Copy, PartialEq, Eq)]
pub enum CpuError {
    Exception(CpuException),
    Bus(BusError),
}

impl BusError {
    /// True for the faults that the processor turns into an
    /// external-memory exception: no device, read and write faults.
    pub open spec fn is_memory_fault(self) -> bool {
        self is NoDevice || self is Read || self is Write
    }

    /// Tells whether this fault is one that the processor turns into an
    /// external-memory exception.
    pub fn memory_fault(&self) -> (r: bool)
        ensures
            r == self.is_memory_fault(),
    {
        match self {
            BusError::NoDevice(_) => true,
            BusError::Read(_) => true,
            BusError::Write(_) => true,
            _ => false,
        }
    }
}

impl CpuError {
    /// Wraps a processor exception.
    pub fn from_exception(err: CpuException) -> (r: CpuError)
        ensures
            r == CpuError::Exception(err),
    {
        CpuError::Exception(err)
    }

    /// Wraps a bus fault.
    pub fn from_bus(err: BusError) -> (r: CpuError)
        ensures
            r == CpuError::Bus(err),
    {
        CpuError::Bus(err)
    }
}

impl CpuException {
    /// The exception in words.
    pub open spec fn message_text(self) -> Seq<char> {
        match self {
            CpuException::IllegalOpcode => "Illegal Opcode"@,
            CpuException::InvalidDescriptor => "Invalid Descriptor"@,
            CpuException::PrivilegedOpcode => "Privileged Opcode"@,
            CpuException::IntegerZeroDivide => "Integer Zero Divide"@,
        }
    }

    /// The exception in words.
    pub fn message(&self) -> (r: String)
        ensures
            r@ == self.message_text(),
    {
        match self {
            CpuException::IllegalOpcode => String::from_str("Illegal Opcode"),
            CpuException::InvalidDescriptor => String::from_str("Invalid Descriptor"),
            CpuException::PrivilegedOpcode => String::from_str("Privileged Opcode"),
            CpuException::IntegerZeroDivide => String::from_str("Integer Zero Divide"),
        }
    }
}

impl BusError {
    /// The fault in words, with its address in hexadecimal where it has
    /// one.
    pub open spec fn message_text(self) -> Seq<char> {
        match self {
            BusError::Init => "Could not initialize bus"@,
            BusError::Read(addr) => "Could not read from bus at address "@ + hex(addr as nat),
            BusError::Write(addr) => "Could not write to bus at address "@ + hex(addr as nat),
            BusError::NoDevice(addr) => "No device at address "@ + hex(addr as nat),
            BusError::Range => "Address out of range"@,
            BusError::Permission => "Invalid permission"@,
            BusError::Alignment(addr) => "Memory Alignment at address "@ + hex_padded(
                addr as nat,
                8,
            ),
        }
    }

    /// The fault in words.
    pub fn message(&self) -> (r: String)
        ensures
            r@ == self.message_text(),
    {
        match self {
            BusError::Init => String::from_str("Could not initialize bus"),
            BusError::Read(addr) => {
                let mut s: String = String::from_str("Could not read from bus at address ");
                push_hex(&mut s, *addr as u64);
                s
            },
            BusError::Write(addr) => {
                let mut s: String = String::from_str("Could not write to bus at address ");
                push_hex(&mut s, *addr as u64);
                s
            },
            BusError::NoDevice(addr) => {
                let mut s: String = String::from_str("No device at address ");
                push_hex(&mut s, *addr as u64);
                s
            },
            BusError::Range => String::from_str("Address out of range"),
            BusError::Permission => String::from_str("Invalid permission"),
            BusError::Alignment(addr) => {
                let mut s: String = String::from_str("Memory Alignment at address ");
                push_hex_padded(&mut s, *addr as u64, 8);
                s
            },
        }
    }
}

impl CpuError {
    /// The error in words: those of the exception or of the fault.
    pub open spec fn message_text(self) -> Seq<char> {
        match self {
            CpuError::Exception(e) => e.message_text(),
            CpuError::Bus(e) => e.message_text(),
        }
    }

    /// The error in words.
    pub fn message(&self) -> (r: String)
        ensures
            r@ == self.message_text(),
    {
        match self {
            CpuError::Exception(e) => e.message(),
            CpuError::Bus(e) => e.message(),
        }
    }
}

} // verus!
