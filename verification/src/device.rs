//! What every device on the bus offers.

use crate::err::BusError;
use std::ops::Range;
use vstd::prelude::*;

verus! {

/// The access status code that the processor puts on the bus with each
/// transfer. No device of this machine looks at it.
#[derive(Debug, Clone, Copy, PartialEq, Eq)]
pub enum AccessCode {
    MoveTranslated,
    CoprDataWrite,
    AutoVectorIrqAck,
    CoprDataFetch,
    StopAck,
    CoprBroadcast,
    CoprStatusFetch,
    ReadInterlocked,
    AddressFetch,
    OperandFetch,
    Write,
    IrqAck,
    IfAfterPcDisc,
    InstrPrefetch,
    InstrFetch,
    NoOp,
}

/// A device on the bus, addressed by absolute addresses.
///
/// The trait fixes the calls; what each call returns and changes is
/// stated by each device on its own model.
pub trait Device {
    /// The device's internal invariant.
    spec fn wf(&self) -> bool;

    /// The absolute addresses that the device answers to.
    fn address_range(&self) -> Range<usize>;

    /// A short name for the device.
    fn name(&self) -> &'static str;

    /// Whether writes to the device are refused.
    fn is_read_only(&self) -> bool;

    fn read_byte(&mut self, address: usize, access: AccessCode) -> (r: Result<u8, BusError>)
        requires
            old(self).wf(),
        ensures
            final(self).wf(),
    ;

    fn read_half(&mut self, address: usize, access: AccessCode) -> (r: Result<u16, BusError>)
        requires
            old(self).wf(),
        ensures
            final(self).wf(),
    ;

    fn read_word(&mut self, address: usize, access: AccessCode) -> (r: Result<u32, BusError>)
        requires
            old(self).wf(),
        ensures
            final(self).wf(),
    ;

    fn write_byte(&mut self, address: usize, val: u8, access: AccessCode) -> (r: Result<
        (),
        BusError,
    >)
        requires
            old(self).wf(),
        ensures
            final(self).wf(),
    ;

    fn write_half(&mut self, address: usize, val: u16, access: AccessCode) -> (r: Result<
        (),
        BusError,
    >)
        requires
            old(self).wf(),
        ensures
            final(self).wf(),
    ;

    fn write_word(&mut self, address: usize, val: u32, access: AccessCode) -> (r: Result<
        (),
        BusError,
    >)
        requires
            old(self).wf(),
        ensures
            final(self).wf(),
    ;

    fn load(&mut self, address: usize, data: &[u8]) -> (r: Result<(), BusError>)
        requires
            old(self).wf(),
        ensures
            final(self).wf(),
    ;
}

} // verus!
