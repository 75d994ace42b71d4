//! The mathematical model of the bus: which device answers at which
//! address, the alignment rule of the data path, the little-endian
//! operand fetches, and the dirty flag of the frame buffer.
//!
//! ```text
//! 0x000000..0x020000  ROM
//! 0x200000..0x200040  DUART
//! 0x400000..0x400004  mouse
//! 0x500000..0x500002  video start register
//! 0x600000..0x602000  non-volatile RAM
//! 0x700000..0x800000  RAM
//! ```

use crate::duart_model::DuartState;
use crate::err::BusError;
use crate::mem::{half_be, half_bytes, word_bytes, MemState};
use crate::mouse::Mouse;
use vstd::prelude::*;

verus! {

pub const ROM_SIZE: usize = 0x20000;

pub const VID_BASE: usize = 0x500000;

pub const NVRAM_BASE: usize = 0x600000;

pub const NVRAM_SIZE: usize = 8192;

pub const RAM_BASE: usize = 0x700000;

pub const RAM_END: usize = 0x800000;

/// The length of the frame buffer in bytes.
pub const VIDEO_RAM_SIZE: usize = 0x19000;

/// The devices on the bus.
#[derive(Debug, Clone, Copy, PartialEq, Eq)]
pub enum DeviceId {
    Rom,
    Duart,
    Mouse,
    Vid,
    Bbram,
    Ram,
}

/// The device that answers at an address, if any.
pub open spec fn device_at(address: usize) -> Option<DeviceId> {
    if address < 0x20000 {
        Some(DeviceId::Rom)
    } else if 0x200000 <= address < 0x200040 {
        Some(DeviceId::Duart)
    } else if 0x400000 <= address < 0x400004 {
        Some(DeviceId::Mouse)
    } else if 0x500000 <= address < 0x500002 {
        Some(DeviceId::Vid)
    } else if 0x600000 <= address < 0x602000 {
        Some(DeviceId::Bbram)
    } else if 0x700000 <= address < 0x800000 {
        Some(DeviceId::Ram)
    } else {
        None
    }
}

/// The half-word whose low byte is `b0`: the order of an operand in the
/// instruction stream.
pub open spec fn half_le(b0: u8, b1: u8) -> u16 {
    (b0 as u16) | (b1 as u16) << 8
}

/// The word whose lowest byte is `b0`: the order of an operand in the
/// instruction stream.
pub open spec fn word_le(b0: u8, b1: u8, b2: u8, b3: u8) -> u32 {
    (b0 as u32) | (b1 as u32) << 8 | (b2 as u32) << 16 | (b3 as u32) << 24
}

/// Everything on the bus.
pub struct BusState {
    pub rom: MemState,
    pub duart: DuartState,
    pub mouse: Mouse,
    /// The video start register, two bytes of memory.
    pub vid: MemState,
    pub bbram: MemState,
    pub ram: MemState,
    /// Whether the frame buffer was written since it was last read out.
    pub video_ram_dirty: bool,
}

impl BusState {
    /// Every device sits at its place on the bus and keeps its own
    /// invariant.
    pub open spec fn wf(self) -> bool {
        &&& self.rom.base == 0
        &&& self.rom.bytes.len() == ROM_SIZE
        &&& self.rom.read_only
        &&& self.vid.base == VID_BASE
        &&& self.vid.bytes.len() == 2
        &&& !self.vid.read_only
        &&& self.bbram.base == NVRAM_BASE
        &&& self.bbram.bytes.len() == NVRAM_SIZE
        &&& !self.bbram.read_only
        &&& self.ram.base == RAM_BASE
        &&& self.ram.wf()
        &&& !self.ram.read_only
        &&& self.duart.wf()
    }

    /// The bus after power-up with `mem_size` bytes of RAM: all memory
    /// zero, the DUART and the mouse in their initial states.
    pub open spec fn initial(mem_size: usize) -> BusState {
        BusState {
            rom: MemState { base: 0, bytes: Seq::new(ROM_SIZE as nat, |i: int| 0u8), read_only: true },
            duart: DuartState::initial(),
            mouse: Mouse { x: 0, y: 0 },
            vid: MemState { base: VID_BASE, bytes: Seq::new(2, |i: int| 0u8), read_only: false },
            bbram: MemState {
                base: NVRAM_BASE,
                bytes: Seq::new(NVRAM_SIZE as nat, |i: int| 0u8),
                read_only: false,
            },
            ram: MemState {
                base: RAM_BASE,
                bytes: Seq::new(mem_size as nat, |i: int| 0u8),
                read_only: false,
            },
            video_ram_dirty: false,
        }
    }

    /// The memory region behind a device, for the four that are memory.
    pub open spec fn mem(self, dev: DeviceId) -> MemState {
        match dev {
            DeviceId::Rom => self.rom,
            DeviceId::Vid => self.vid,
            DeviceId::Bbram => self.bbram,
            _ => self.ram,
        }
    }

    /// The bus with the memory region behind a device replaced.
    pub open spec fn with_mem(self, dev: DeviceId, m: MemState) -> BusState {
        match dev {
            DeviceId::Rom => BusState { rom: m, ..self },
            DeviceId::Vid => BusState { vid: m, ..self },
            DeviceId::Bbram => BusState { bbram: m, ..self },
            _ => BusState { ram: m, ..self },
        }
    }

    /// The offset into RAM at which the frame buffer starts: four times
    /// the video start register.
    pub open spec fn video_start(self) -> int {
        (half_be(self.vid.bytes[0], self.vid.bytes[1]) as usize) * 4
    }

    /// Whether an address lies in the frame buffer.
    pub open spec fn is_video_ram(self, address: usize) -> bool {
        &&& RAM_BASE <= address < RAM_END
        &&& self.video_start() <= address - RAM_BASE < self.video_start() + VIDEO_RAM_SIZE
    }

    /// The bus with the dirty flag set if `address` lies in the frame
    /// buffer.
    pub open spec fn touched(self, address: usize) -> BusState {
        if self.is_video_ram(address) {
            BusState { video_ram_dirty: true, ..self }
        } else {
            self
        }
    }

    /// A byte read by a given device.
    pub open spec fn dev_read_byte(self, dev: DeviceId, address: usize) -> (
        BusState,
        Result<u8, BusError>,
    ) {
        match dev {
            DeviceId::Duart => (
                BusState { duart: self.duart.read_byte(address).0, ..self },
                self.duart.read_byte(address).1,
            ),
            DeviceId::Mouse => (self, Err(BusError::NoDevice(address))),
            _ => (self, self.mem(dev).read_byte(address)),
        }
    }

    /// A half-word read by a given device.
    pub open spec fn dev_read_half(self, dev: DeviceId, address: usize) -> (
        BusState,
        Result<u16, BusError>,
    ) {
        match dev {
            DeviceId::Duart => (
                BusState { duart: self.duart.read_half(address).0, ..self },
                self.duart.read_half(address).1,
            ),
            DeviceId::Mouse => (self, self.mouse.spec_read_half(address)),
            _ => (self, self.mem(dev).read_half(address)),
        }
    }

    /// A word read by a given device.
    pub open spec fn dev_read_word(self, dev: DeviceId, address: usize) -> (
        BusState,
        Result<u32, BusError>,
    ) {
        match dev {
            DeviceId::Duart => (
                BusState { duart: self.duart.read_word(address).0, ..self },
                self.duart.read_word(address).1,
            ),
            DeviceId::Mouse => (self, Err(BusError::NoDevice(address))),
            _ => (self, self.mem(dev).read_word(address)),
        }
    }

    /// A byte read on the data path.
    #[verifier::opaque]
    pub open spec fn read_byte(self, address: usize) -> (BusState, Result<u8, BusError>) {
        match device_at(address) {
            Some(dev) => self.dev_read_byte(dev, address),
            None => (self, Err(BusError::NoDevice(address))),
        }
    }

    /// A half-word read on the data path: refused at an odd address.
    #[verifier::opaque]
    pub open spec fn read_half(self, address: usize) -> (BusState, Result<u16, BusError>) {
        if address & 1 != 0 {
            (self, Err(BusError::Alignment(address)))
        } else {
            match device_at(address) {
                Some(dev) => self.dev_read_half(dev, address),
                None => (self, Err(BusError::NoDevice(address))),
            }
        }
    }

    /// A word read on the data path: refused unless the address is a
    /// multiple of four.
    #[verifier::opaque]
    pub open spec fn read_word(self, address: usize) -> (BusState, Result<u32, BusError>) {
        if address & 3 != 0 {
            (self, Err(BusError::Alignment(address)))
        } else {
            match device_at(address) {
                Some(dev) => self.dev_read_word(dev, address),
                None => (self, Err(BusError::NoDevice(address))),
            }
        }
    }

    /// The fetch of a half-word operand: two byte reads by the device at
    /// `address`, the first byte being the low one. No alignment is asked.
    #[verifier::opaque]
    pub open spec fn read_op_half(self, address: usize) -> (BusState, Result<u16, BusError>) {
        match device_at(address) {
            None => (self, Err(BusError::NoDevice(address))),
            Some(dev) => {
                let (s0, r0) = self.dev_read_byte(dev, address);
                match r0 {
                    Err(e) => (s0, Err(e)),
                    Ok(b0) => {
                        let (s1, r1) = s0.dev_read_byte(dev, (address + 1) as usize);
                        match r1 {
                            Err(e) => (s1, Err(e)),
                            Ok(b1) => (s1, Ok(half_le(b0, b1))),
                        }
                    },
                }
            },
        }
    }

    /// The fetch of a word operand: four byte reads by the device at
    /// `address`, the first byte being the lowest. No alignment is asked.
    #[verifier::opaque]
    pub open spec fn read_op_word(self, address: usize) -> (BusState, Result<u32, BusError>) {
        match device_at(address) {
            None => (self, Err(BusError::NoDevice(address))),
            Some(dev) => {
                let (s0, r0) = self.dev_read_byte(dev, address);
                match r0 {
                    Err(e) => (s0, Err(e)),
                    Ok(b0) => {
                        let (s1, r1) = s0.dev_read_byte(dev, (address + 1) as usize);
                        match r1 {
                            Err(e) => (s1, Err(e)),
                            Ok(b1) => {
                                let (s2, r2) = s1.dev_read_byte(dev, (address + 2) as usize);
                                match r2 {
                                    Err(e) => (s2, Err(e)),
                                    Ok(b2) => {
                                        let (s3, r3) = s2.dev_read_byte(
                                            dev,
                                            (address + 3) as usize,
                                        );
                                        match r3 {
                                            Err(e) => (s3, Err(e)),
                                            Ok(b3) => (s3, Ok(word_le(b0, b1, b2, b3))),
                                        }
                                    },
                                }
                            },
                        }
                    },
                }
            },
        }
    }

    /// A write of `data` at `address` by a given device: memory stores
    /// the bytes, the DUART takes the low byte, the mouse refuses.
    pub open spec fn dev_write(self, dev: DeviceId, address: usize, data: Seq<u8>) -> (
        BusState,
        Result<(), BusError>,
    ) {
        match dev {
            DeviceId::Duart => (
                BusState {
                    duart: if data.len() == 1 {
                        self.duart.write_byte(address, data[0])
                    } else if data.len() == 2 {
                        self.duart.write_half(address, data[1] as u16)
                    } else {
                        self.duart.write_word(address, data[3] as u32)
                    },
                    ..self
                },
                Ok(()),
            ),
            DeviceId::Mouse => (self, Err(BusError::NoDevice(address))),
            _ => (
                self.with_mem(dev, self.mem(dev).write(address, data)),
                self.mem(dev).write_result(address, data.len()),
            ),
        }
    }

    /// A write on the data path, after the alignment check: the dirty
    /// flag first, then the device.
    #[verifier::opaque]
    pub open spec fn write(self, address: usize, data: Seq<u8>) -> (
        BusState,
        Result<(), BusError>,
    ) {
        match device_at(address) {
            Some(dev) => self.touched(address).dev_write(dev, address, data),
            None => (self.touched(address), Err(BusError::NoDevice(address))),
        }
    }

    /// A byte write on the data path.
    #[verifier::opaque]
    pub open spec fn write_byte(self, address: usize, val: u8) -> (BusState, Result<(), BusError>) {
        self.write(address, seq![val])
    }

    /// A half-word write on the data path: refused at an odd address.
    #[verifier::opaque]
    pub open spec fn write_half(self, address: usize, val: u16) -> (
        BusState,
        Result<(), BusError>,
    ) {
        if address & 1 != 0 {
            (self, Err(BusError::Alignment(address)))
        } else {
            self.write(address, half_bytes(val))
        }
    }

    /// A word write on the data path: refused unless the address is a
    /// multiple of four.
    #[verifier::opaque]
    pub open spec fn write_word(self, address: usize, val: u32) -> (
        BusState,
        Result<(), BusError>,
    ) {
        if address & 3 != 0 {
            (self, Err(BusError::Alignment(address)))
        } else {
            self.write(address, word_bytes(val))
        }
    }

    /// The loading of `data` at `address`: into the memory that is
    /// there, read-only or not.
    #[verifier::opaque]
    pub open spec fn load(self, address: usize, data: Seq<u8>) -> (BusState, Result<(), BusError>) {
        match device_at(address) {
            None => (self, Err(BusError::NoDevice(address))),
            Some(DeviceId::Duart) => (self, Err(BusError::NoDevice(address))),
            Some(DeviceId::Mouse) => (self, Err(BusError::NoDevice(address))),
            Some(dev) => (
                self.with_mem(dev, self.mem(dev).load(address, data)),
                self.mem(dev).load_result(address, data.len()),
            ),
        }
    }

    /// The bus after the DUART has moved on at the time `now`.
    pub open spec fn service(self, now: u64) -> BusState {
        BusState { duart: self.duart.service(now), ..self }
    }

    /// The bus after the DUART was polled for interrupts at `now`.
    pub open spec fn poll(self, now: u64) -> BusState {
        BusState { duart: self.duart.poll(now), ..self }
    }

    /// The frame buffer: the bytes of RAM from the video start on, if
    /// RAM holds them all.
    pub open spec fn video_ram(self) -> Result<Seq<u8>, BusError> {
        if self.video_start() + VIDEO_RAM_SIZE <= self.ram.bytes.len() {
            Ok(self.ram.bytes.subrange(self.video_start(), self.video_start() + VIDEO_RAM_SIZE))
        } else {
            Err(BusError::Range)
        }
    }

    /// The non-volatile RAM after the host has replaced its contents by
    /// `nvram`. What does not fit is left out.
    pub open spec fn set_nvram(self, nvram: Seq<u8>) -> BusState {
        BusState {
            bbram: MemState {
                bytes: Seq::new(
                    self.bbram.bytes.len(),
                    |i: int|
                        if i < nvram.len() {
                            nvram[i]
                        } else {
                            self.bbram.bytes[i]
                        },
                ),
                ..self.bbram
            },
            ..self
        }
    }
}

/// Whether a device is one of the four memories.
pub open spec fn is_memory(dev: DeviceId) -> bool {
    dev != DeviceId::Duart && dev != DeviceId::Mouse
}

/// Endianness. Where four bytes `b0, b1, b2, b3` lie in memory at an
/// address that is a multiple of four, a word read gives
/// `b0<<24 | b1<<16 | b2<<8 | b3` and an operand fetch gives
/// `b3<<24 | b2<<16 | b1<<8 | b0`; neither changes the bus.
pub proof fn lemma_endianness(bus: BusState, address: usize, dev: DeviceId)
    requires
        bus.wf(),
        address & 3 == 0,
        device_at(address) == Some(dev),
        is_memory(dev),
        bus.mem(dev).covers(address, 4),
    ensures
        bus.read_word(address) == (
            bus,
            Ok::<u32, BusError>(
                (bus.mem(dev).at(address as int) as u32) << 24 | (bus.mem(dev).at(address + 1)
                    as u32) << 16 | (bus.mem(dev).at(address + 2) as u32) << 8 | (bus.mem(dev).at(
                    address + 3,
                ) as u32),
            ),
        ),
        bus.read_op_word(address) == (
            bus,
            Ok::<u32, BusError>(
                (bus.mem(dev).at(address as int) as u32) | (bus.mem(dev).at(address + 1) as u32)
                    << 8 | (bus.mem(dev).at(address + 2) as u32) << 16 | (bus.mem(dev).at(
                    address + 3,
                ) as u32) << 24,
            ),
        ),
{
    reveal(BusState::read_byte);
    reveal(BusState::read_half);
    reveal(BusState::read_word);
    reveal(BusState::read_op_half);
    reveal(BusState::read_op_word);
    reveal(BusState::write);
    reveal(BusState::write_byte);
    reveal(BusState::write_half);
    reveal(BusState::write_word);
    reveal(BusState::load);
}

/// Alignment. A half-word access at an odd address and a word access
/// at an address that is no multiple of four fail with an alignment
/// fault that names the address, and change nothing.
pub proof fn lemma_alignment(bus: BusState, address: usize, half: u16, word: u32)
    ensures
        address & 1 != 0 ==> bus.read_half(address) == (
            bus,
            Err::<u16, BusError>(BusError::Alignment(address)),
        ) && bus.write_half(address, half) == (
            bus,
            Err::<(), BusError>(BusError::Alignment(address)),
        ),
        address & 3 != 0 ==> bus.read_word(address) == (
            bus,
            Err::<u32, BusError>(BusError::Alignment(address)),
        ) && bus.write_word(address, word) == (
            bus,
            Err::<(), BusError>(BusError::Alignment(address)),
        ),
        address & 1 == 0 ==> !(bus.read_half(address).1 is Err && bus.read_half(
            address,
        ).1->Err_0 is Alignment),
        address & 3 == 0 ==> !(bus.read_word(address).1 is Err && bus.read_word(
            address,
        ).1->Err_0 is Alignment),
{
    reveal(BusState::read_byte);
    reveal(BusState::read_half);
    reveal(BusState::read_word);
    reveal(BusState::read_op_half);
    reveal(BusState::read_op_word);
    reveal(BusState::write);
    reveal(BusState::write_byte);
    reveal(BusState::write_half);
    reveal(BusState::write_word);
    reveal(BusState::load);
}

/// Read-only memory. A write to an address of the ROM changes nothing
/// on the bus, and is refused: with a permission fault, or with an
/// alignment fault where the address does not suit the width.
pub proof fn lemma_rom_is_read_only(bus: BusState, address: usize, byte: u8, half: u16, word: u32)
    requires
        bus.wf(),
        address < ROM_SIZE,
    ensures
        bus.write_byte(address, byte) == (bus, Err::<(), BusError>(BusError::Permission)),
        bus.write_half(address, half) == (
            bus,
            Err::<(), BusError>(
                if address & 1 != 0 {
                    BusError::Alignment(address)
                } else {
                    BusError::Permission
                },
            ),
        ),
        bus.write_word(address, word) == (
            bus,
            Err::<(), BusError>(
                if address & 3 != 0 {
                    BusError::Alignment(address)
                } else {
                    BusError::Permission
                },
            ),
        ),
{
    reveal(BusState::read_byte);
    reveal(BusState::read_half);
    reveal(BusState::read_word);
    reveal(BusState::read_op_half);
    reveal(BusState::read_op_word);
    reveal(BusState::write);
    reveal(BusState::write_byte);
    reveal(BusState::write_half);
    reveal(BusState::write_word);
    reveal(BusState::load);
    assert(device_at(address) == Some(DeviceId::Rom));
    assert(!bus.is_video_ram(address));
}

/// Dirty tracking. A write that passes the alignment check sets the
/// dirty flag if its address lies in the frame buffer, and leaves the
/// flag as it was if not; a write that fails the alignment check leaves
/// it too.
pub proof fn lemma_dirty_tracking(bus: BusState, address: usize, byte: u8, half: u16, word: u32)
    ensures
        bus.write_byte(address, byte).0.video_ram_dirty == (bus.video_ram_dirty
            || bus.is_video_ram(address)),
        bus.write_half(address, half).0.video_ram_dirty == (bus.video_ram_dirty || (address & 1
            == 0 && bus.is_video_ram(address))),
        bus.write_word(address, word).0.video_ram_dirty == (bus.video_ram_dirty || (address & 3
            == 0 && bus.is_video_ram(address))),
{
    reveal(BusState::read_byte);
    reveal(BusState::read_half);
    reveal(BusState::read_word);
    reveal(BusState::read_op_half);
    reveal(BusState::read_op_word);
    reveal(BusState::write);
    reveal(BusState::write_byte);
    reveal(BusState::write_half);
    reveal(BusState::write_word);
    reveal(BusState::load);
    lemma_write_keeps_flag(bus.touched(address), address, seq![byte]);
    lemma_write_keeps_flag(bus.touched(address), address, half_bytes(half));
    lemma_write_keeps_flag(bus.touched(address), address, word_bytes(word));
}

/// No device touches the dirty flag.
proof fn lemma_write_keeps_flag(bus: BusState, address: usize, data: Seq<u8>)
    ensures
        forall|dev: DeviceId|
            (#[trigger] bus.dev_write(dev, address, data)).0.video_ram_dirty
                == bus.video_ram_dirty,
{
}

/// Unmapped addresses. Where no device answers, every access on the
/// data path that passes the alignment check fails for want of a
/// device, and a read changes nothing.
pub proof fn lemma_unmapped(bus: BusState, address: usize, byte: u8)
    requires
        device_at(address) is None,
    ensures
        bus.read_byte(address) == (bus, Err::<u8, BusError>(BusError::NoDevice(address))),
        address & 1 == 0 ==> bus.read_half(address) == (
            bus,
            Err::<u16, BusError>(BusError::NoDevice(address)),
        ),
        address & 3 == 0 ==> bus.read_word(address) == (
            bus,
            Err::<u32, BusError>(BusError::NoDevice(address)),
        ),
        bus.write_byte(address, byte).1 == Err::<(), BusError>(BusError::NoDevice(address)),
        BusError::NoDevice(address).is_memory_fault(),
{
    reveal(BusState::read_byte);
    reveal(BusState::read_half);
    reveal(BusState::read_word);
    reveal(BusState::read_op_half);
    reveal(BusState::read_op_word);
    reveal(BusState::write);
    reveal(BusState::write_byte);
    reveal(BusState::write_half);
    reveal(BusState::write_word);
    reveal(BusState::load);
}

} // verus!
