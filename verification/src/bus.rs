//! The bus: address decoding to the devices, the alignment check of the
//! data path, and the dirty flag of the frame buffer. Every operation
//! is verified against the model of [`crate::bus_model`].

use crate::bus_model::{device_at, BusState, DeviceId, NVRAM_SIZE, RAM_BASE};
use crate::device::{AccessCode, Device};
use crate::duart::Duart;
use crate::err::BusError;
use crate::mem::Mem;
use crate::mouse::Mouse;
use vstd::prelude::*;

verus! {

/// The bus and the devices on it.
pub struct Bus {
    rom: Mem,
    duart: Duart,
    mouse: Mouse,
    vid: Mem,
    bbram: Mem,
    ram: Mem,
    video_ram_dirty: bool,
}

impl View for Bus {
    type V = BusState;

    closed spec fn view(&self) -> BusState {
        BusState {
            rom: self.rom@,
            duart: self.duart@,
            mouse: self.mouse,
            vid: self.vid@,
            bbram: self.bbram@,
            ram: self.ram@,
            video_ram_dirty: self.video_ram_dirty,
        }
    }
}

/// The device that answers at an address, if any.
pub fn decode(address: usize) -> (r: Option<DeviceId>)
    ensures
        r == device_at(address),
{
    if address < 0x20000 {
        Some(DeviceId::Rom)
    } else if 0x200000 <= address && address < 0x200040 {
        Some(DeviceId::Duart)
    } else if 0x400000 <= address && address < 0x400004 {
        Some(DeviceId::Mouse)
    } else if 0x500000 <= address && address < 0x500002 {
        Some(DeviceId::Vid)
    } else if 0x600000 <= address && address < 0x602000 {
        Some(DeviceId::Bbram)
    } else if 0x700000 <= address && address < 0x800000 {
        Some(DeviceId::Ram)
    } else {
        None
    }
}

impl Bus {
    /// Every device keeps its invariant and sits at its place.
    pub closed spec fn wf(&self) -> bool {
        &&& self@.wf()
        &&& self.rom.inv()
        &&& self.vid.inv()
        &&& self.bbram.inv()
        &&& self.ram.inv()
        &&& self.duart.inv()
    }

    /// A bus with `mem_size` bytes of RAM.
    pub fn new(mem_size: usize) -> (bus: Bus)
        requires
            RAM_BASE + mem_size <= usize::MAX,
        ensures
            bus.wf(),
            bus@ == BusState::initial(mem_size),
    {
        Bus {
            rom: Mem::new(0, 0x20000, true),
            duart: Duart::new(),
            mouse: Mouse::new(),
            vid: Mem::new(0x500000, 0x2, false),
            bbram: Mem::new(0x600000, 0x2000, false),
            ram: Mem::new(0x700000, mem_size, false),
            video_ram_dirty: false,
        }
    }

    fn is_video_ram(&self, address: usize) -> (r: bool)
        requires
            self.wf(),
        ensures
            r == self@.is_video_ram(address),
    {
        if address < 0x700000 || address >= 0x800000 {
            return false;
        }
        let hi: u8 = match self.vid.get(0) {
            Some(b) => b,
            None => 0,
        };
        let lo: u8 = match self.vid.get(1) {
            Some(b) => b,
            None => 0,
        };
        let vid_register: usize = ((hi as u16) << 8 | (lo as u16)) as usize;
        let start: usize = vid_register * 4;
        let offset: usize = address - 0x700000;
        start <= offset && offset - start < 0x19000
    }

    fn dev_read_byte(&mut self, dev: DeviceId, address: usize, access: AccessCode) -> (r: Result<
        u8,
        BusError,
    >)
        requires
            old(self).wf(),
        ensures
            final(self).wf(),
            (final(self)@, r) == old(self)@.dev_read_byte(dev, address),
    {
        match dev {
            DeviceId::Rom => self.rom.read_byte(address, access),
            DeviceId::Duart => self.duart.read_byte(address, access),
            DeviceId::Mouse => self.mouse.read_byte(address, access),
            DeviceId::Vid => self.vid.read_byte(address, access),
            DeviceId::Bbram => self.bbram.read_byte(address, access),
            DeviceId::Ram => self.ram.read_byte(address, access),
        }
    }

    /// Reads a byte.
    pub fn read_byte(&mut self, address: usize, access: AccessCode) -> (r: Result<u8, BusError>)
        requires
            old(self).wf(),
        ensures
            final(self).wf(),
            (final(self)@, r) == old(self)@.read_byte(address),
    {
        reveal(BusState::read_byte);
        match decode(address) {
            Some(dev) => self.dev_read_byte(dev, address, access),
            None => Err(BusError::NoDevice(address)),
        }
    }

    /// Reads a big-endian half-word at an even address.
    pub fn read_half(&mut self, address: usize, access: AccessCode) -> (r: Result<u16, BusError>)
        requires
            old(self).wf(),
        ensures
            final(self).wf(),
            (final(self)@, r) == old(self)@.read_half(address),
    {
        reveal(BusState::read_half);
        if address & 1 != 0 {
            return Err(BusError::Alignment(address));
        }
        match decode(address) {
            Some(DeviceId::Rom) => self.rom.read_half(address, access),
            Some(DeviceId::Duart) => self.duart.read_half(address, access),
            Some(DeviceId::Mouse) => self.mouse.read_half(address, access),
            Some(DeviceId::Vid) => self.vid.read_half(address, access),
            Some(DeviceId::Bbram) => self.bbram.read_half(address, access),
            Some(DeviceId::Ram) => self.ram.read_half(address, access),
            None => Err(BusError::NoDevice(address)),
        }
    }

    /// Reads a big-endian word at an address that is a multiple of four.
    pub fn read_word(&mut self, address: usize, access: AccessCode) -> (r: Result<u32, BusError>)
        requires
            old(self).wf(),
        ensures
            final(self).wf(),
            (final(self)@, r) == old(self)@.read_word(address),
    {
        reveal(BusState::read_word);
        if address & 3 != 0 {
            return Err(BusError::Alignment(address));
        }
        match decode(address) {
            Some(DeviceId::Rom) => self.rom.read_word(address, access),
            Some(DeviceId::Duart) => self.duart.read_word(address, access),
            Some(DeviceId::Mouse) => self.mouse.read_word(address, access),
            Some(DeviceId::Vid) => self.vid.read_word(address, access),
            Some(DeviceId::Bbram) => self.bbram.read_word(address, access),
            Some(DeviceId::Ram) => self.ram.read_word(address, access),
            None => Err(BusError::NoDevice(address)),
        }
    }

    /// Fetches a little-endian half-word operand.
    pub fn read_op_half(&mut self, address: usize) -> (r: Result<u16, BusError>)
        requires
            old(self).wf(),
        ensures
            final(self).wf(),
            (final(self)@, r) == old(self)@.read_op_half(address),
    {
        reveal(BusState::read_op_half);
        let dev: DeviceId = match decode(address) {
            Some(dev) => dev,
            None => return Err(BusError::NoDevice(address)),
        };
        let b0: u8 = match self.dev_read_byte(dev, address, AccessCode::OperandFetch) {
            Ok(b) => b,
            Err(e) => return Err(e),
        };
        let b1: u8 = match self.dev_read_byte(dev, address + 1, AccessCode::OperandFetch) {
            Ok(b) => b,
            Err(e) => return Err(e),
        };
        Ok((b0 as u16) | (b1 as u16) << 8)
    }

    /// Fetches a little-endian word operand.
    pub fn read_op_word(&mut self, address: usize) -> (r: Result<u32, BusError>)
        requires
            old(self).wf(),
        ensures
            final(self).wf(),
            (final(self)@, r) == old(self)@.read_op_word(address),
    {
        reveal(BusState::read_op_word);
        let dev: DeviceId = match decode(address) {
            Some(dev) => dev,
            None => return Err(BusError::NoDevice(address)),
        };
        let b0: u8 = match self.dev_read_byte(dev, address, AccessCode::OperandFetch) {
            Ok(b) => b,
            Err(e) => return Err(e),
        };
        let b1: u8 = match self.dev_read_byte(dev, address + 1, AccessCode::OperandFetch) {
            Ok(b) => b,
            Err(e) => return Err(e),
        };
        let b2: u8 = match self.dev_read_byte(dev, address + 2, AccessCode::OperandFetch) {
            Ok(b) => b,
            Err(e) => return Err(e),
        };
        let b3: u8 = match self.dev_read_byte(dev, address + 3, AccessCode::OperandFetch) {
            Ok(b) => b,
            Err(e) => return Err(e),
        };
        Ok((b0 as u32) | (b1 as u32) << 8 | (b2 as u32) << 16 | (b3 as u32) << 24)
    }

    /// Writes a byte.
    pub fn write_byte(&mut self, address: usize, val: u8) -> (r: Result<(), BusError>)
        requires
            old(self).wf(),
        ensures
            final(self).wf(),
            (final(self)@, r) == old(self)@.write_byte(address, val),
    {
        reveal(BusState::write_byte);
        reveal(BusState::write);
        if self.is_video_ram(address) {
            self.video_ram_dirty = true;
        }
        match decode(address) {
            Some(DeviceId::Rom) => self.rom.write_byte(address, val, AccessCode::Write),
            Some(DeviceId::Duart) => self.duart.write_byte(address, val, AccessCode::Write),
            Some(DeviceId::Mouse) => self.mouse.write_byte(address, val, AccessCode::Write),
            Some(DeviceId::Vid) => self.vid.write_byte(address, val, AccessCode::Write),
            Some(DeviceId::Bbram) => self.bbram.write_byte(address, val, AccessCode::Write),
            Some(DeviceId::Ram) => self.ram.write_byte(address, val, AccessCode::Write),
            None => Err(BusError::NoDevice(address)),
        }
    }

    /// Writes a big-endian half-word at an even address.
    pub fn write_half(&mut self, address: usize, val: u16) -> (r: Result<(), BusError>)
        requires
            old(self).wf(),
        ensures
            final(self).wf(),
            (final(self)@, r) == old(self)@.write_half(address, val),
    {
        reveal(BusState::write_half);
        reveal(BusState::write);
        if address & 1 != 0 {
            return Err(BusError::Alignment(address));
        }
        if self.is_video_ram(address) {
            self.video_ram_dirty = true;
        }
        match decode(address) {
            Some(DeviceId::Rom) => self.rom.write_half(address, val, AccessCode::Write),
            Some(DeviceId::Duart) => self.duart.write_half(address, val, AccessCode::Write),
            Some(DeviceId::Mouse) => self.mouse.write_half(address, val, AccessCode::Write),
            Some(DeviceId::Vid) => self.vid.write_half(address, val, AccessCode::Write),
            Some(DeviceId::Bbram) => self.bbram.write_half(address, val, AccessCode::Write),
            Some(DeviceId::Ram) => self.ram.write_half(address, val, AccessCode::Write),
            None => Err(BusError::NoDevice(address)),
        }
    }

    /// Writes a big-endian word at an address that is a multiple of
    /// four.
    pub fn write_word(&mut self, address: usize, val: u32) -> (r: Result<(), BusError>)
        requires
            old(self).wf(),
        ensures
            final(self).wf(),
            (final(self)@, r) == old(self)@.write_word(address, val),
    {
        reveal(BusState::write_word);
        reveal(BusState::write);
        if address & 3 != 0 {
            return Err(BusError::Alignment(address));
        }
        if self.is_video_ram(address) {
            self.video_ram_dirty = true;
        }
        match decode(address) {
            Some(DeviceId::Rom) => self.rom.write_word(address, val, AccessCode::Write),
            Some(DeviceId::Duart) => self.duart.write_word(address, val, AccessCode::Write),
            Some(DeviceId::Mouse) => self.mouse.write_word(address, val, AccessCode::Write),
            Some(DeviceId::Vid) => self.vid.write_word(address, val, AccessCode::Write),
            Some(DeviceId::Bbram) => self.bbram.write_word(address, val, AccessCode::Write),
            Some(DeviceId::Ram) => self.ram.write_word(address, val, AccessCode::Write),
            None => Err(BusError::NoDevice(address)),
        }
    }

    /// Loads `data` into the memory at `address`, read-only or not.
    pub fn load(&mut self, address: usize, data: &[u8]) -> (r: Result<(), BusError>)
        requires
            old(self).wf(),
        ensures
            final(self).wf(),
            (final(self)@, r) == old(self)@.load(address, data@),
    {
        reveal(BusState::load);
        match decode(address) {
            Some(DeviceId::Rom) => self.rom.load(address, data),
            Some(DeviceId::Duart) => self.duart.load(address, data),
            Some(DeviceId::Mouse) => self.mouse.load(address, data),
            Some(DeviceId::Vid) => self.vid.load(address, data),
            Some(DeviceId::Bbram) => self.bbram.load(address, data),
            Some(DeviceId::Ram) => self.ram.load(address, data),
            None => Err(BusError::NoDevice(address)),
        }
    }

    /// Clears the dirty flag and hands out the frame buffer.
    pub fn video_ram(&mut self) -> (r: Result<&[u8], BusError>)
        requires
            old(self).wf(),
        ensures
            final(self).wf(),
            final(self)@ == (BusState { video_ram_dirty: false, ..old(self)@ }),
            old(self)@.video_ram() is Ok ==> r is Ok && r->Ok_0@ == old(self)@.video_ram()->Ok_0,
            old(self)@.video_ram() is Err ==> r == Err::<&[u8], BusError>(BusError::Range),
    {
        self.video_ram_dirty = false;
        let hi: u8 = match self.vid.get(0) {
            Some(b) => b,
            None => 0,
        };
        let lo: u8 = match self.vid.get(1) {
            Some(b) => b,
            None => 0,
        };
        let vid_register: usize = ((hi as u16) << 8 | (lo as u16)) as usize;
        let start: usize = vid_register * 4;
        let end: usize = start + 0x19000;
        self.ram.as_slice(start..end)
    }

    /// Whether the frame buffer was written since it was last handed out.
    pub fn video_ram_dirty(&self) -> (r: bool)
        ensures
            r == self@.video_ram_dirty,
    {
        self.video_ram_dirty
    }

    /// The time on the machine's clock, in nanoseconds.
    pub fn now(&self) -> (ns: u64) {
        self.duart.now()
    }

    /// Moves the DUART on at the time `now`.
    pub fn service_at(&mut self, now: u64)
        requires
            old(self).wf(),
        ensures
            final(self).wf(),
            final(self)@ == old(self)@.service(now),
    {
        self.duart.service_at(now);
    }

    /// Moves the DUART on at the time that the clock shows.
    pub fn service(&mut self)
        requires
            old(self).wf(),
        ensures
            final(self).wf(),
            exists|now: u64| final(self)@ == #[trigger] old(self)@.service(now),
    {
        let now: u64 = self.now();
        self.service_at(now);
    }

    /// Polls the DUART for interrupts at the time `now`.
    pub fn get_interrupts_at(&mut self, now: u64) -> (r: Option<u8>)
        requires
            old(self).wf(),
        ensures
            final(self).wf(),
            final(self)@ == old(self)@.poll(now),
            r == old(self)@.duart.pending(now),
    {
        self.duart.get_interrupt_at(now)
    }

    /// Polls the DUART for interrupts at the time that the clock shows.
    pub fn get_interrupts(&mut self) -> (r: Option<u8>)
        requires
            old(self).wf(),
        ensures
            final(self).wf(),
            exists|now: u64|
                final(self)@ == #[trigger] old(self)@.poll(now) && r == old(self)@.duart.pending(
                    now,
                ),
    {
        let now: u64 = self.now();
        self.get_interrupts_at(now)
    }

    /// Latches the mouse coordinates.
    pub fn mouse_move(&mut self, x: u16, y: u16)
        requires
            old(self).wf(),
        ensures
            final(self).wf(),
            final(self)@ == (BusState { mouse: Mouse { x, y }, ..old(self)@ }),
    {
        self.mouse.x = x;
        self.mouse.y = y;
    }

    /// A mouse button goes down.
    pub fn mouse_down(&mut self, button: u8)
        requires
            old(self).wf(),
        ensures
            final(self).wf(),
            final(self)@ == (BusState { duart: old(self)@.duart.mouse_down(button), ..old(self)@ }),
    {
        self.duart.mouse_down(button);
    }

    /// A mouse button comes up.
    pub fn mouse_up(&mut self, button: u8)
        requires
            old(self).wf(),
        ensures
            final(self).wf(),
            final(self)@ == (BusState { duart: old(self)@.duart.mouse_up(button), ..old(self)@ }),
    {
        self.duart.mouse_up(button);
    }

    /// Hands the host the oldest character that the RS-232 port has sent.
    pub fn rs232_tx(&mut self) -> (r: Option<u8>)
        requires
            old(self).wf(),
        ensures
            final(self).wf(),
            final(self)@ == (BusState { duart: old(self)@.duart.host_tx(0).0, ..old(self)@ }),
            r == old(self)@.duart.host_tx(0).1,
    {
        self.duart.rs232_tx()
    }

    /// Hands the host the oldest character that the keyboard port has
    /// sent.
    pub fn keyboard_tx(&mut self) -> (r: Option<u8>)
        requires
            old(self).wf(),
        ensures
            final(self).wf(),
            final(self)@ == (BusState { duart: old(self)@.duart.host_tx(1).0, ..old(self)@ }),
            r == old(self)@.duart.host_tx(1).1,
    {
        self.duart.keyboard_tx()
    }

    /// Queues a character from the host for the RS-232 port.
    pub fn rs232_rx(&mut self, c: u8)
        requires
            old(self).wf(),
        ensures
            final(self).wf(),
            final(self)@ == (BusState { duart: old(self)@.duart.host_rx(0, c), ..old(self)@ }),
    {
        self.duart.rs232_rx(c);
    }

    /// Queues a character from the host for the keyboard port.
    pub fn keyboard_rx(&mut self, keycode: u8)
        requires
            old(self).wf(),
        ensures
            final(self).wf(),
            final(self)@ == (BusState { duart: old(self)@.duart.host_rx(1, keycode), ..old(self)@ }),
    {
        self.duart.keyboard_rx(keycode);
    }

    /// The DUART's output port as it reads.
    pub fn duart_output(&self) -> (r: u8)
        ensures
            r == !self@.duart.outprt,
    {
        self.duart.output_port()
    }

    /// The contents of the non-volatile RAM.
    pub fn get_nvram(&self) -> (r: &[u8])
        requires
            self.wf(),
        ensures
            r@ == self@.bbram.bytes,
    {
        self.bbram.bytes()
    }

    /// Replaces the contents of the non-volatile RAM.
    pub fn set_nvram(&mut self, nvram: &[u8])
        requires
            old(self).wf(),
        ensures
            final(self).wf(),
            final(self)@ == old(self)@.set_nvram(nvram@),
    {
        let mut i: usize = 0;
        while i < nvram.len() && i < NVRAM_SIZE
            invariant
                self.wf(),
                i <= NVRAM_SIZE,
                i <= nvram@.len(),
                self@ == (BusState { bbram: self@.bbram, ..old(self)@ }),
                self@.bbram.base == old(self)@.bbram.base,
                self@.bbram.read_only == old(self)@.bbram.read_only,
                self@.bbram.bytes.len() == old(self)@.bbram.bytes.len(),
                forall|k: int|
                    0 <= k < NVRAM_SIZE ==> self@.bbram.bytes[k] == (if k < i {
                        nvram@[k]
                    } else {
                        old(self)@.bbram.bytes[k]
                    }),
            decreases nvram@.len() - i,
        {
            self.bbram.set(i, nvram[i]);
            i += 1;
        }
        assert(final(self)@.bbram.bytes =~= old(self)@.set_nvram(nvram@).bbram.bytes);
    }
}

} // verus!
