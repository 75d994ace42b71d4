//! The mouse latch: two half-word registers that the host writes and the
//! processor reads.

use crate::device::{AccessCode, Device};
use crate::err::BusError;
use std::ops::Range;
use vstd::prelude::*;

verus! {

/// The first address of the mouse latch.
pub const START_ADDRESS: usize = 0x40_0000;

/// The address behind the last one of the mouse latch.
pub const END_ADDRESS: usize = 0x40_0004;

/// The mouse coordinates as last reported by the host.
#[derive(Debug, Clone, Copy, PartialEq, Eq)]
pub struct Mouse {
    pub x: u16,
    pub y: u16,
}

impl Mouse {
    /// A latch with both coordinates at zero.
    pub fn new() -> (m: Mouse)
        ensures
            m.x == 0,
            m.y == 0,
    {
        Mouse { x: 0, y: 0 }
    }

    /// What a half-word read at an absolute address answers: Y at the
    /// first address of the latch, X two bytes further on, and no device
    /// anywhere else.
    pub open spec fn spec_read_half(self, address: usize) -> Result<u16, BusError> {
        if address == START_ADDRESS {
            Ok(self.y)
        } else if address == START_ADDRESS + 2 {
            Ok(self.x)
        } else {
            Err(BusError::NoDevice(address))
        }
    }
}

impl Default for Mouse {
    fn default() -> (m: Mouse)
        ensures
            m.x == 0,
            m.y == 0,
    {
        Mouse::new()
    }
}

/// Only half-word reads are wired up; every other access finds no device
/// and changes nothing.
impl Device for Mouse {
    open spec fn wf(&self) -> bool {
        true
    }

    fn address_range(&self) -> (r: Range<usize>)
        ensures
            r.start == START_ADDRESS,
            r.end == END_ADDRESS,
    {
        START_ADDRESS..END_ADDRESS
    }

    fn name(&self) -> (r: &'static str)
        ensures
            r@ == "MOUSE"@,
    {
        "MOUSE"
    }

    fn is_read_only(&self) -> (r: bool)
        ensures
            !r,
    {
        false
    }

    fn read_byte(&mut self, address: usize, access: AccessCode) -> (r: Result<u8, BusError>)
        ensures
            *final(self) == *old(self),
            r == Err::<u8, BusError>(BusError::NoDevice(address)),
    {
        Err(BusError::NoDevice(address))
    }

    fn read_half(&mut self, address: usize, access: AccessCode) -> (r: Result<u16, BusError>)
        ensures
            *final(self) == *old(self),
            r == old(self).spec_read_half(address),
    {
        if address == START_ADDRESS {
            Ok(self.y)
        } else if address == START_ADDRESS + 2 {
            Ok(self.x)
        } else {
            Err(BusError::NoDevice(address))
        }
    }

    fn read_word(&mut self, address: usize, access: AccessCode) -> (r: Result<u32, BusError>)
        ensures
            *final(self) == *old(self),
            r == Err::<u32, BusError>(BusError::NoDevice(address)),
    {
        Err(BusError::NoDevice(address))
    }

    fn write_byte(&mut self, address: usize, val: u8, access: AccessCode) -> (r: Result<
        (),
        BusError,
    >)
        ensures
            *final(self) == *old(self),
            r == Err::<(), BusError>(BusError::NoDevice(address)),
    {
        Err(BusError::NoDevice(address))
    }

    fn write_half(&mut self, address: usize, val: u16, access: AccessCode) -> (r: Result<
        (),
        BusError,
    >)
        ensures
            *final(self) == *old(self),
            r == Err::<(), BusError>(BusError::NoDevice(address)),
    {
        Err(BusError::NoDevice(address))
    }

    fn write_word(&mut self, address: usize, val: u32, access: AccessCode) -> (r: Result<
        (),
        BusError,
    >)
        ensures
            *final(self) == *old(self),
            r == Err::<(), BusError>(BusError::NoDevice(address)),
    {
        Err(BusError::NoDevice(address))
    }

    fn load(&mut self, address: usize, data: &[u8]) -> (r: Result<(), BusError>)
        ensures
            *final(self) == *old(self),
            r == Err::<(), BusError>(BusError::NoDevice(address)),
    {
        Err(BusError::NoDevice(address))
    }
}

} // verus!
