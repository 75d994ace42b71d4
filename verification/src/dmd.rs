//! The terminal as a whole: a processor and a bus, driven by the host.

use crate::bus::Bus;
use crate::bus_model::BusState;
use crate::cpu::Cpu;
use crate::cpu_model::{CpuState, Run, R_AP, R_PC};
use crate::device::AccessCode;

use crate::err::{BusError, CpuError};
use crate::exec_model::step;
use crate::mouse::Mouse;
use vstd::prelude::*;

verus! {

/// The size of the terminal's RAM in bytes.
pub const MEM_SIZE: usize = 0x100000;

/// The two pairs of firmware images, each a low part that is loaded at
/// address 0 and a high part that is loaded behind it.
pub struct RomImages {
    pub lo_v1: Vec<u8>,
    pub hi_v1: Vec<u8>,
    pub lo_v2: Vec<u8>,
    pub hi_v2: Vec<u8>,
}

impl RomImages {
    /// The low image of a firmware version: version 1 has its own, every
    /// other number means version 2.
    pub open spec fn lo(self, version: u8) -> Seq<u8> {
        if version == 1 {
            self.lo_v1@
        } else {
            self.lo_v2@
        }
    }

    /// The high image of a firmware version.
    pub open spec fn hi(self, version: u8) -> Seq<u8> {
        if version == 1 {
            self.hi_v1@
        } else {
            self.hi_v2@
        }
    }
}

/// The mathematical model of the terminal.
pub struct DmdState {
    pub cpu: CpuState,
    pub bus: BusState,
}

impl DmdState {
    /// The terminal after the firmware of a version was loaded and the
    /// processor reset, with the fault that stopped it, if one did. The
    /// low image goes to address 0, the high image behind it.
    pub open spec fn reset(self, lo: Seq<u8>, hi: Seq<u8>) -> (DmdState, Result<(), BusError>) {
        let (b1, r1) = self.bus.load(0, lo);
        match r1 {
            Err(e) => (DmdState { bus: b1, ..self }, Err(e)),
            Ok(_) => {
                let (b2, r2) = b1.load(lo.len() as usize, hi);
                match r2 {
                    Err(e) => (DmdState { bus: b2, ..self }, Err(e)),
                    Ok(_) => {
                        let run = Run::start(self.cpu, b2).reset();
                        (
                            DmdState { cpu: run.cpu, bus: run.bus },
                            match run.fault {
                                Some(CpuError::Bus(e)) => Err(e),
                                _ => Ok(()),
                            },
                        )
                    },
                }
            },
        }
    }

    /// One step at the time `now`.
    pub open spec fn step(self, now: u64) -> DmdState {
        DmdState { cpu: step(self.cpu, self.bus, now).0, bus: step(self.cpu, self.bus, now).1 }
    }

    /// As many steps as `times` has entries, each at its time.
    pub open spec fn run(self, times: Seq<u64>) -> DmdState
        decreases times.len(),
    {
        if times.len() == 0 {
            self
        } else {
            self.run(times.drop_last()).step(times.last())
        }
    }
}

/// The terminal.
pub struct Dmd {
    cpu: Cpu,
    bus: Bus,
}

impl View for Dmd {
    type V = DmdState;

    closed spec fn view(&self) -> DmdState {
        DmdState { cpu: self.cpu@, bus: self.bus@ }
    }
}

impl Dmd {
    /// The bus keeps its invariant.
    pub closed spec fn wf(&self) -> bool {
        self.bus.wf()
    }

    /// A terminal after power-up, with one megabyte of RAM.
    pub fn new() -> (dmd: Dmd)
        ensures
            dmd.wf(),
            dmd@ == (DmdState { cpu: CpuState::initial(), bus: BusState::initial(MEM_SIZE) }),
    {
        let cpu = Cpu::new();
        let bus = Bus::new(0x100000);
        Dmd { cpu, bus }
    }

    /// Loads the firmware of a version and resets the processor.
    pub fn reset(&mut self, version: u8, roms: &RomImages) -> (r: Result<(), BusError>)
        requires
            old(self).wf(),
        ensures
            final(self).wf(),
            (final(self)@, r) == old(self)@.reset(roms.lo(version), roms.hi(version)),
    {
        let (lo, hi): (&Vec<u8>, &Vec<u8>) = if version == 1 {
            (&roms.lo_v1, &roms.hi_v1)
        } else {
            (&roms.lo_v2, &roms.hi_v2)
        };
        self.bus.load(0, lo.as_slice())?;
        self.bus.load(lo.len(), hi.as_slice())?;
        match self.cpu.reset(&mut self.bus) {
            Ok(_) => Ok(()),
            Err(e) => Err(e),
        }
    }

    /// Clears the dirty flag and hands out the frame buffer.
    pub fn video_ram(&mut self) -> (r: Result<&[u8], BusError>)
        requires
            old(self).wf(),
        ensures
            final(self).wf(),
            final(self)@ == (DmdState {
                bus: BusState { video_ram_dirty: false, ..old(self)@.bus },
                ..old(self)@
            }),
            old(self)@.bus.video_ram() is Ok ==> r is Ok && r->Ok_0@
                == old(self)@.bus.video_ram()->Ok_0,
            old(self)@.bus.video_ram() is Err ==> r == Err::<&[u8], BusError>(BusError::Range),
    {
        self.bus.video_ram()
    }

    /// The program counter.
    pub fn get_pc(&self) -> (r: u32)
        ensures
            r == self@.cpu.r[R_PC as int],
    {
        self.cpu.get_pc()
    }

    /// The argument pointer.
    pub fn get_ap(&self) -> (r: u32)
        ensures
            r == self@.cpu.r[R_AP as int],
    {
        self.cpu.get_ap()
    }

    /// The processor status word.
    pub fn get_psw(&self) -> (r: u32)
        ensures
            r == self@.cpu.psw(),
    {
        self.cpu.get_psw()
    }

    /// The register that the low four bits of `reg` number.
    pub fn get_register(&self, reg: u8) -> (r: u32)
        ensures
            r == self@.cpu.r[(reg & 0xf) as int],
    {
        let index: u8 = reg & 0xf;
        assert(reg & 0xf < 16) by (bit_vector);
        self.cpu.r[index as usize]
    }

    /// Reads a word from the bus, if there is one to be had.
    pub fn read_word(&mut self, addr: usize) -> (r: Option<u32>)
        requires
            old(self).wf(),
        ensures
            final(self).wf(),
            final(self)@ == (DmdState { bus: old(self)@.bus.read_word(addr).0, ..old(self)@ }),
            r == (match old(self)@.bus.read_word(addr).1 {
                Ok(d) => Some(d),
                Err(_) => None,
            }),
    {
        match self.bus.read_word(addr, AccessCode::AddressFetch) {
            Ok(d) => Some(d),
            _ => None,
        }
    }

    /// Reads a byte from the bus, if there is one to be had.
    pub fn read_byte(&mut self, addr: usize) -> (r: Option<u8>)
        requires
            old(self).wf(),
        ensures
            final(self).wf(),
            final(self)@ == (DmdState { bus: old(self)@.bus.read_byte(addr).0, ..old(self)@ }),
            r == (match old(self)@.bus.read_byte(addr).1 {
                Ok(d) => Some(d),
                Err(_) => None,
            }),
    {
        match self.bus.read_byte(addr, AccessCode::AddressFetch) {
            Ok(d) => Some(d),
            _ => None,
        }
    }

    /// Steps the terminal by one instruction at the time `now`.
    pub fn step_at(&mut self, now: u64)
        requires
            old(self).wf(),
        ensures
            final(self).wf(),
            final(self)@ == old(self)@.step(now),
    {
        self.cpu.step_at(&mut self.bus, now);
    }

    /// Steps the terminal by one instruction at the time that the clock
    /// shows.
    pub fn step(&mut self)
        requires
            old(self).wf(),
        ensures
            final(self).wf(),
            exists|now: u64| final(self)@ == #[trigger] old(self)@.step(now),
    {
        let now: u64 = self.bus.now();
        self.step_at(now);
    }

    /// Steps the terminal by `count` instructions, each at the time that
    /// the clock then shows.
    pub fn run(&mut self, count: usize)
        requires
            old(self).wf(),
        ensures
            final(self).wf(),
            exists|times: Seq<u64>|
                times.len() == count && final(self)@ == #[trigger] old(self)@.run(times),
    {
        let ghost mut times: Seq<u64> = Seq::empty();
        let mut i: usize = 0;
        while i < count
            invariant
                self.wf(),
                i <= count,
                times.len() == i,
                self@ == old(self)@.run(times),
            decreases count - i,
        {
            let now: u64 = self.bus.now();
            self.step_at(now);
            proof {
                assert(times.push(now).drop_last() =~= times);
                times = times.push(now);
            }
            i += 1;
        }
    }

    /// Hands the host the oldest character that the RS-232 port has sent.
    pub fn rs232_tx(&mut self) -> (r: Option<u8>)
        requires
            old(self).wf(),
        ensures
            final(self).wf(),
            final(self)@.cpu == old(self)@.cpu,
            final(self)@.bus == (BusState {
                duart: old(self)@.bus.duart.host_tx(0).0,
                ..old(self)@.bus
            }),
            r == old(self)@.bus.duart.host_tx(0).1,
    {
        self.bus.rs232_tx()
    }

    /// Hands the host the oldest character that the keyboard port has
    /// sent.
    pub fn keyboard_tx(&mut self) -> (r: Option<u8>)
        requires
            old(self).wf(),
        ensures
            final(self).wf(),
            final(self)@.cpu == old(self)@.cpu,
            final(self)@.bus == (BusState {
                duart: old(self)@.bus.duart.host_tx(1).0,
                ..old(self)@.bus
            }),
            r == old(self)@.bus.duart.host_tx(1).1,
    {
        self.bus.keyboard_tx()
    }

    /// Queues a character from the host for the RS-232 port.
    pub fn rs232_rx(&mut self, c: u8)
        requires
            old(self).wf(),
        ensures
            final(self).wf(),
            final(self)@.cpu == old(self)@.cpu,
            final(self)@.bus == (BusState {
                duart: old(self)@.bus.duart.host_rx(0, c),
                ..old(self)@.bus
            }),
    {
        self.bus.rs232_rx(c);
    }

    /// Queues a character from the host for the keyboard port.
    pub fn keyboard_rx(&mut self, keycode: u8)
        requires
            old(self).wf(),
        ensures
            final(self).wf(),
            final(self)@.cpu == old(self)@.cpu,
            final(self)@.bus == (BusState {
                duart: old(self)@.bus.duart.host_rx(1, keycode),
                ..old(self)@.bus
            }),
    {
        self.bus.keyboard_rx(keycode);
    }

    /// Latches the mouse coordinates.
    pub fn mouse_move(&mut self, x: u16, y: u16)
        requires
            old(self).wf(),
        ensures
            final(self).wf(),
            final(self)@.cpu == old(self)@.cpu,
            final(self)@.bus == (BusState { mouse: Mouse { x, y }, ..old(self)@.bus }),
    {
        self.bus.mouse_move(x, y);
    }

    /// A mouse button goes down.
    pub fn mouse_down(&mut self, button: u8)
        requires
            old(self).wf(),
        ensures
            final(self).wf(),
            final(self)@.cpu == old(self)@.cpu,
            final(self)@.bus == (BusState {
                duart: old(self)@.bus.duart.mouse_down(button),
                ..old(self)@.bus
            }),
    {
        self.bus.mouse_down(button);
    }

    /// A mouse button comes up.
    pub fn mouse_up(&mut self, button: u8)
        requires
            old(self).wf(),
        ensures
            final(self).wf(),
            final(self)@.cpu == old(self)@.cpu,
            final(self)@.bus == (BusState {
                duart: old(self)@.bus.duart.mouse_up(button),
                ..old(self)@.bus
            }),
    {
        self.bus.mouse_up(button);
    }

    /// The DUART's output port as it reads.
    pub fn duart_output(&self) -> (r: u8)
        ensures
            r == !self@.bus.duart.outprt,
    {
        self.bus.duart_output()
    }

    /// Replaces the contents of the non-volatile RAM.
    pub fn set_nvram(&mut self, nvram: &[u8])
        requires
            old(self).wf(),
        ensures
            final(self).wf(),
            final(self)@ == (DmdState { bus: old(self)@.bus.set_nvram(nvram@), ..old(self)@ }),
    {
        self.bus.set_nvram(nvram);
    }

    /// The contents of the non-volatile RAM.
    pub fn get_nvram(&self) -> (r: &[u8])
        requires
            self.wf(),
        ensures
            r@ == self@.bus.bbram.bytes,
    {
        self.bus.get_nvram()
    }
}

impl Default for Dmd {
    fn default() -> (dmd: Dmd)
        ensures
            dmd.wf(),
            dmd@ == (DmdState { cpu: CpuState::initial(), bus: BusState::initial(MEM_SIZE) }),
    {
        Dmd::new()
    }
}

} // verus!
