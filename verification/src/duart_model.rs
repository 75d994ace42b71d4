//! The mathematical model of the 2681 DUART: two serial ports with their
//! receive FIFOs and transmit registers, the input and output ports and
//! the interrupt registers, and what each access and each tick of the
//! clock does to them.
//!
//! Time is a count of nanoseconds. Port 0 is the RS-232 line, port 1
//! the keyboard.

use crate::err::BusError;
use vstd::prelude::*;

verus! {

/// The first address of the DUART's window on the bus.
pub const START_ADDR: usize = 0x200000;

/// The address behind the last one of the window.
pub const END_ADDR: usize = 0x200040;

/// The time between two vertical blanks, in nanoseconds (60 Hz).
pub const VERTICAL_BLANK_DELAY: u64 = 16_666_666;

/// The character delay of a port before its clock is first selected.
pub const DEFAULT_CHAR_DELAY: u64 = 1_000_000;

pub const PORT_0: usize = 0;

pub const PORT_1: usize = 1;

// Register offsets inside the window.
pub const MR12A: usize = 0x03;

pub const CSRA: usize = 0x07;

pub const CRA: usize = 0x0b;

pub const THRA: usize = 0x0f;

pub const RHRA: usize = 0x0f;

pub const IPCR_ACR: usize = 0x13;

pub const ISR_MASK: usize = 0x17;

pub const MR12B: usize = 0x23;

pub const CSRB: usize = 0x27;

pub const CRB: usize = 0x2b;

pub const THRB: usize = 0x2f;

pub const RHRB: usize = 0x2f;

pub const IP_OPCR: usize = 0x37;

pub const OPBITS_SET: usize = 0x3b;

pub const OPBITS_RESET: usize = 0x3f;

// Port configuration bits.
pub const CNF_ETX: u8 = 0x01;

pub const CNF_ERX: u8 = 0x02;

// Status bits of a port.
pub const STS_RXR: u8 = 0x01;

pub const STS_FFL: u8 = 0x02;

pub const STS_TXR: u8 = 0x04;

pub const STS_TXE: u8 = 0x08;

pub const STS_OER: u8 = 0x10;

pub const STS_PER: u8 = 0x20;

pub const STS_FER: u8 = 0x40;

pub const STS_RXB: u8 = 0x80;

// Command register bits.
pub const CMD_ERX: u8 = 0x01;

pub const CMD_DRX: u8 = 0x02;

pub const CMD_ETX: u8 = 0x04;

pub const CMD_DTX: u8 = 0x08;

// Auxiliary commands, in bits 6:4 of the command register.
pub const CR_RST_MR: u8 = 0x01;

pub const CR_RST_RX: u8 = 0x02;

pub const CR_RST_TX: u8 = 0x03;

pub const CR_RST_ERR: u8 = 0x04;

pub const CR_RST_BRK: u8 = 0x05;

pub const CR_START_BRK: u8 = 0x06;

pub const CR_STOP_BRK: u8 = 0x07;

// Interrupt status bits.
pub const ISTS_TAI: u8 = 0x01;

pub const ISTS_RAI: u8 = 0x02;

pub const ISTS_DBA: u8 = 0x04;

pub const ISTS_TBI: u8 = 0x10;

pub const ISTS_RBI: u8 = 0x20;

pub const ISTS_DBB: u8 = 0x40;

pub const ISTS_IPC: u8 = 0x80;

// Bits of the interrupt vector that the processor polls.
pub const KEYBOARD_INT: u8 = 0x04;

pub const MOUSE_BLANK_INT: u8 = 0x02;

pub const TX_INT: u8 = 0x10;

pub const RX_INT: u8 = 0x20;

/// The number of characters that a receive FIFO holds.
pub const RX_FIFO_LEN: usize = 3;

/// The baud rate that a clock-select value picks: bits 7:4 of the value
/// index one of two tables, chosen by bit 7 of the auxiliary control
/// register. Zero where the index names no rate.
pub open spec fn baud_rate(csr_bits: u8, acr_bits: u8) -> u32 {
    let index = (csr_bits >> 4) & 0xf;
    if acr_bits & 0x80 == 0 {
        if index == 0 {
            50
        } else if index == 1 {
            110
        } else if index == 2 {
            135
        } else if index == 3 {
            200
        } else if index == 4 {
            300
        } else if index == 5 {
            600
        } else if index == 6 {
            1200
        } else if index == 7 {
            1050
        } else if index == 8 {
            2400
        } else if index == 9 {
            4800
        } else if index == 10 {
            7200
        } else if index == 11 {
            9600
        } else if index == 12 {
            38400
        } else {
            0
        }
    } else {
        if index == 0 {
            75
        } else if index == 1 {
            110
        } else if index == 2 {
            135
        } else if index == 3 {
            150
        } else if index == 4 {
            300
        } else if index == 5 {
            600
        } else if index == 6 {
            1200
        } else if index == 7 {
            2000
        } else if index == 8 {
            2400
        } else if index == 9 {
            4800
        } else if index == 10 {
            1800
        } else if index == 11 {
            9600
        } else if index == 12 {
            19200
        } else {
            0
        }
    }
}

/// The time that one character of ten bits takes at a baud rate, in
/// nanoseconds.
pub open spec fn char_time(baud: u32) -> u64
    recommends
        baud >= 10,
{
    (1_000_000_000u32 / (baud / 10)) as u64
}

/// The moment `delay` nanoseconds after `now`, held at the end of time
/// where the count would run over.
pub open spec fn later(now: u64, delay: u64) -> u64 {
    if now + delay > u64::MAX {
        u64::MAX
    } else {
        (now + delay) as u64
    }
}

/// One serial port.
pub struct PortState {
    /// The two mode registers.
    pub mode: Seq<u8>,
    /// Which mode register the next access reaches (0 or 1).
    pub mode_ptr: usize,
    /// The status register.
    pub stat: u8,
    /// The configuration: transmitter and receiver enabled.
    pub conf: u8,
    /// The characters ready to be read, oldest first.
    pub rx_fifo: Seq<u8>,
    /// The character that arrived while the FIFO was full.
    pub rx_shift_reg: Option<u8>,
    /// The character written by the processor and not yet on its way.
    pub tx_holding_reg: Option<u8>,
    /// The character that is being sent.
    pub tx_shift_reg: Option<u8>,
    /// The characters that the host has handed in and the port has not
    /// yet received, oldest first.
    pub rx_queue: Seq<u8>,
    /// The characters that the port has sent and the host has not yet
    /// taken, oldest first.
    pub tx_queue: Seq<u8>,
    /// The time that one character takes.
    pub char_delay: u64,
    /// When the transmitter is next due.
    pub next_tx_service: u64,
    /// When the receiver is next due.
    pub next_rx_service: u64,
}

impl PortState {
    /// Two mode registers, a pointer to one of them, and at most three
    /// characters in the FIFO.
    pub open spec fn wf(self) -> bool {
        &&& self.mode.len() == 2
        &&& self.mode_ptr < 2
        &&& self.rx_fifo.len() <= 3
    }

    /// A port after power-up.
    pub open spec fn initial() -> PortState {
        PortState {
            mode: seq![0u8, 0u8],
            mode_ptr: 0,
            stat: 0,
            conf: 0,
            rx_fifo: Seq::empty(),
            rx_shift_reg: None,
            tx_holding_reg: None,
            tx_shift_reg: None,
            rx_queue: Seq::empty(),
            tx_queue: Seq::empty(),
            char_delay: DEFAULT_CHAR_DELAY,
            next_tx_service: 0,
            next_rx_service: 0,
        }
    }

    /// Local loopback: bits 7:6 of the second mode register are 10.
    pub open spec fn loopback(self) -> bool {
        (self.mode[1] & 0xc0) == 0x80
    }

    /// Whether the receiver is enabled.
    pub open spec fn rx_enabled(self) -> bool {
        (self.conf & CNF_ERX) != 0
    }

    /// A read of the receive holding register. With the receiver
    /// enabled, the oldest character of the FIFO comes out, FIFO-full
    /// drops, a character waiting in the shift register moves into the
    /// FIFO (asserting RxRDY, and FIFO-full once three are held), RxRDY
    /// drops if the FIFO is then empty, and parity error and received
    /// break are cleared. With the receiver disabled nothing happens.
    pub open spec fn rx_read_char(self) -> (PortState, Option<u8>) {
        if self.rx_enabled() {
            let val = if self.rx_fifo.len() > 0 {
                Some(self.rx_fifo[0])
            } else {
                None
            };
            let drained = if self.rx_fifo.len() > 0 {
                self.rx_fifo.drop_first()
            } else {
                self.rx_fifo
            };
            let stat1 = self.stat & !STS_FFL;
            let refilled = match self.rx_shift_reg {
                Some(c) => drained.push(c),
                None => drained,
            };
            let stat2 = match self.rx_shift_reg {
                Some(c) => if refilled.len() >= 3 {
                    (stat1 | STS_RXR) | STS_FFL
                } else {
                    stat1 | STS_RXR
                },
                None => stat1,
            };
            let stat3 = if refilled.len() == 0 {
                stat2 & !STS_RXR
            } else {
                stat2
            };
            (
                PortState {
                    rx_fifo: refilled,
                    rx_shift_reg: None,
                    stat: stat3 & !(STS_PER | STS_RXB),
                    ..self
                },
                val,
            )
        } else {
            (self, None)
        }
    }

    /// The arrival of a character. It enters the FIFO if fewer than three
    /// are held, asserting FIFO-full when it is the third; else it is
    /// latched in the shift register, with an overrun if that was taken.
    /// Either way RxRDY is asserted.
    pub open spec fn rx_char(self, c: u8) -> PortState {
        if self.rx_fifo.len() < 3 {
            let fifo = self.rx_fifo.push(c);
            let stat = if fifo.len() >= 3 {
                self.stat | STS_FFL
            } else {
                self.stat
            };
            PortState { rx_fifo: fifo, stat: stat | STS_RXR, ..self }
        } else {
            let stat = if self.rx_shift_reg is Some {
                self.stat | STS_OER
            } else {
                self.stat
            };
            PortState { rx_shift_reg: Some(c), stat: stat | STS_RXR, ..self }
        }
    }

    /// Whether the receiver has work to do at `now`.
    pub open spec fn rx_due(self, now: u64) -> bool {
        self.rx_enabled() && self.rx_queue.len() > 0 && now >= self.next_rx_service
    }

    /// One tick of the receiver. When it is due, the oldest character
    /// of the host's queue arrives (unless the port is looped back) and
    /// the next tick is set one character delay later.
    pub open spec fn rx_service(self, now: u64) -> PortState {
        if !self.rx_due(now) {
            self
        } else {
            let p = if !self.loopback() {
                PortState { rx_queue: self.rx_queue.drop_first(), ..self }.rx_char(self.rx_queue[0])
            } else {
                self
            };
            PortState { next_rx_service: later(now, self.char_delay), ..p }
        }
    }

    /// The delivery of the character `c` that has left the shift
    /// register: into the port's own receiver when looped back, else
    /// onto the host's queue. The keyboard port forwards only characters
    /// with bit 3 set and swallows the others, and flags a parity error
    /// on the character 0x02.
    pub open spec fn deliver(self, c: u8, keyboard: bool) -> PortState {
        if self.loopback() {
            self.rx_char(c)
        } else {
            let stat = if keyboard && c == 0x02 {
                self.stat | STS_PER
            } else {
                self.stat
            };
            let queue = if !keyboard || c & 0x08 != 0 {
                self.tx_queue.push(c)
            } else {
                self.tx_queue
            };
            PortState { stat, tx_queue: queue, ..self }
        }
    }

    /// Whether the transmitter has work to do at `now`.
    pub open spec fn tx_due(self, now: u64) -> bool {
        (self.tx_holding_reg is Some || self.tx_shift_reg is Some) && now >= self.next_tx_service
    }

    /// One tick of the transmitter. When it is due, the character in the
    /// shift register is delivered and the register emptied, asserting
    /// TxRDY and TxEMT if the holding register is empty too; then a
    /// character in the holding register moves into the shift register
    /// and the next tick is set one character delay later.
    pub open spec fn tx_service(self, now: u64, keyboard: bool) -> PortState {
        if !self.tx_due(now) {
            self
        } else {
            let sent = match self.tx_shift_reg {
                Some(c) => {
                    let p = self.deliver(c, keyboard);
                    let stat = if p.tx_holding_reg is None {
                        (p.stat | STS_TXR) | STS_TXE
                    } else {
                        p.stat
                    };
                    PortState { tx_shift_reg: None, stat, ..p }
                },
                None => self,
            };
            match sent.tx_holding_reg {
                Some(c) => PortState {
                    tx_shift_reg: Some(c),
                    tx_holding_reg: None,
                    next_tx_service: later(now, sent.char_delay),
                    ..sent
                },
                None => sent,
            }
        }
    }

    /// The transmitter enabled: TxRDY and TxEMT show what the holding
    /// and shift registers hold.
    pub open spec fn enable_tx(self) -> PortState {
        let stat1 = if self.tx_holding_reg is None {
            self.stat | STS_TXR
        } else {
            self.stat
        };
        let stat2 = if self.tx_shift_reg is None {
            stat1 | STS_TXE
        } else {
            stat1
        };
        PortState { conf: self.conf | CNF_ETX, stat: stat2, ..self }
    }

    /// The transmitter disabled: neither TxRDY nor TxEMT.
    pub open spec fn disable_tx(self) -> PortState {
        PortState { conf: self.conf & !CNF_ETX, stat: self.stat & !(STS_TXR | STS_TXE), ..self }
    }

    /// The receiver enabled, with RxRDY clear.
    pub open spec fn enable_rx(self) -> PortState {
        PortState { conf: self.conf | CNF_ERX, stat: self.stat & !STS_RXR, ..self }
    }

    /// The receiver disabled, with RxRDY clear.
    pub open spec fn disable_rx(self) -> PortState {
        PortState { conf: self.conf & !CNF_ERX, stat: self.stat & !STS_RXR, ..self }
    }

    /// A read of the mode register: the one that the pointer names, and
    /// the pointer moves to the other.
    pub open spec fn read_mode(self) -> (PortState, u8) {
        (
            PortState { mode_ptr: ((self.mode_ptr + 1) % 2) as usize, ..self },
            self.mode[self.mode_ptr as int],
        )
    }

    /// A write of the mode register: into the one that the pointer
    /// names, and the pointer moves to the other.
    pub open spec fn write_mode(self, val: u8) -> PortState {
        PortState {
            mode: self.mode.update(self.mode_ptr as int, val),
            mode_ptr: ((self.mode_ptr + 1) % 2) as usize,
            ..self
        }
    }

    /// A write of the transmit holding register: the character waits
    /// there, and TxRDY and TxEMT drop.
    pub open spec fn write_thr(self, val: u8) -> PortState {
        PortState { tx_holding_reg: Some(val), stat: self.stat & !(STS_TXR | STS_TXE), ..self }
    }

    /// A write of the clock-select register: the character delay follows
    /// the baud rate picked; a value that picks none leaves it.
    pub open spec fn select_clock(self, csr_bits: u8, acr_bits: u8) -> PortState {
        if baud_rate(csr_bits, acr_bits) >= 10 {
            PortState { char_delay: char_time(baud_rate(csr_bits, acr_bits)), ..self }
        } else {
            self
        }
    }

    /// The receiver as after a hardware reset: disabled and flushed.
    pub open spec fn reset_rx(self) -> PortState {
        PortState {
            stat: self.stat & !STS_RXR,
            conf: self.conf & !CNF_ERX,
            rx_fifo: Seq::empty(),
            rx_shift_reg: None,
            ..self
        }
    }

    /// The transmitter as after a hardware reset: disabled and emptied.
    pub open spec fn reset_tx(self) -> PortState {
        PortState {
            stat: self.stat & !(STS_TXR | STS_TXE),
            conf: self.conf & !CNF_ETX,
            tx_holding_reg: None,
            tx_shift_reg: None,
            ..self
        }
    }
}

/// The whole DUART.
pub struct DuartState {
    /// The two ports: RS-232, then keyboard.
    pub ports: Seq<PortState>,
    /// The auxiliary control register.
    pub acr: u8,
    /// The input port change register.
    pub ipcr: u8,
    /// The input port.
    pub inprt: u8,
    /// The output port latch. Reads of the port give its complement.
    pub outprt: u8,
    /// The interrupt status register.
    pub isr: u8,
    /// The interrupt mask register.
    pub imr: u8,
    /// The pending interrupts that the processor polls.
    pub ivec: u8,
    /// When the next vertical blank is due.
    pub next_vblank: u64,
}

impl DuartState {
    /// Two well-formed ports.
    pub open spec fn wf(self) -> bool {
        &&& self.ports.len() == 2
        &&& self.ports[0].wf()
        &&& self.ports[1].wf()
    }

    /// The DUART after power-up, with its clock at zero.
    pub open spec fn initial() -> DuartState {
        DuartState {
            ports: seq![PortState::initial(), PortState::initial()],
            acr: 0,
            ipcr: 0x40,
            inprt: 0xb,
            outprt: 0,
            isr: 0,
            imr: 0,
            ivec: 0,
            next_vblank: VERTICAL_BLANK_DELAY,
        }
    }

    /// The DUART with one port replaced.
    pub open spec fn with_port(self, port_no: int, p: PortState) -> DuartState {
        DuartState { ports: self.ports.update(port_no, p), ..self }
    }

    /// A vertical blank: it raises the mouse-and-blank interrupt and
    /// flags a change of the input port.
    pub open spec fn vertical_blank(self) -> DuartState {
        DuartState {
            ivec: self.ivec | MOUSE_BLANK_INT,
            ipcr: self.ipcr | 0x40,
            isr: self.isr | ISTS_IPC,
            inprt: if self.inprt & 0x04 == 0 {
                self.inprt
            } else {
                self.inprt & !0x04
            },
            ..self
        }
    }

    /// The DUART after the vertical blank that is due at `now`, if one
    /// is: the next one is then set one blank delay after `now`.
    pub open spec fn blank_if_due(self, now: u64) -> DuartState {
        if now > self.next_vblank {
            DuartState { next_vblank: later(now, VERTICAL_BLANK_DELAY), ..self }.vertical_blank()
        } else {
            self
        }
    }

    /// The interrupt poll at `now`: after a vertical blank that is due,
    /// RxRDY of either port and TxRDY of the RS-232 port are folded into
    /// the vector and the status register.
    pub open spec fn poll(self, now: u64) -> DuartState {
        let d = self.blank_if_due(now);
        let rx_a = (d.ports[0].stat & STS_RXR) != 0;
        let rx_b = (d.ports[1].stat & STS_RXR) != 0;
        let tx_a = (d.ports[0].stat & STS_TXR) != 0;
        let ivec1 = if rx_a {
            d.ivec | RX_INT
        } else {
            d.ivec
        };
        let isr1 = if rx_a {
            d.isr | ISTS_RAI
        } else {
            d.isr
        };
        let ivec2 = if rx_b {
            ivec1 | KEYBOARD_INT
        } else {
            ivec1
        };
        let isr2 = if rx_b {
            isr1 | ISTS_RBI
        } else {
            isr1
        };
        let ivec3 = if tx_a {
            ivec2 | TX_INT
        } else {
            ivec2
        };
        let isr3 = if tx_a {
            isr2 | ISTS_TAI
        } else {
            isr2
        };
        DuartState { ivec: ivec3, isr: isr3, ..d }
    }

    /// What the interrupt poll at `now` reports: the vector, unless it
    /// is zero.
    pub open spec fn pending(self, now: u64) -> Option<u8> {
        if self.poll(now).ivec == 0 {
            None
        } else {
            Some(self.poll(now).ivec)
        }
    }

    /// One tick of both ports: transmitter, then receiver, of the RS-232
    /// port and then of the keyboard port.
    pub open spec fn service(self, now: u64) -> DuartState {
        self.with_port(0, self.ports[0].tx_service(now, false).rx_service(now)).with_port(
            1,
            self.ports[1].tx_service(now, true).rx_service(now),
        )
    }

    /// The host hands a character to a port's receiver.
    pub open spec fn host_rx(self, port_no: int, c: u8) -> DuartState {
        self.with_port(
            port_no,
            PortState { rx_queue: self.ports[port_no].rx_queue.push(c), ..self.ports[port_no] },
        )
    }

    /// The host takes the oldest character that a port has sent.
    pub open spec fn host_tx(self, port_no: int) -> (DuartState, Option<u8>) {
        if self.ports[port_no].tx_queue.len() > 0 {
            (
                self.with_port(
                    port_no,
                    PortState {
                        tx_queue: self.ports[port_no].tx_queue.drop_first(),
                        ..self.ports[port_no]
                    },
                ),
                Some(self.ports[port_no].tx_queue[0]),
            )
        } else {
            (self, None)
        }
    }

    /// The change bit of the input port change register that a mouse
    /// button sets.
    pub open spec fn button_change(button: u8) -> u8 {
        if button == 0 {
            0x80
        } else if button == 1 {
            0x20
        } else if button == 2 {
            0x10
        } else {
            0
        }
    }

    /// The line of the input port that a mouse button pulls low.
    pub open spec fn button_line(button: u8) -> u8 {
        if button == 0 {
            0x08
        } else if button == 1 {
            0x02
        } else if button == 2 {
            0x01
        } else {
            0
        }
    }

    /// A mouse button goes down: its change bit shows alone in the
    /// change register, its line of the input port goes low, and the
    /// mouse-and-blank interrupt is raised.
    pub open spec fn mouse_down(self, button: u8) -> DuartState {
        DuartState {
            ipcr: Self::button_change(button),
            inprt: (self.inprt | 0xb) & !Self::button_line(button),
            isr: self.isr | ISTS_IPC,
            ivec: self.ivec | MOUSE_BLANK_INT,
            ..self
        }
    }

    /// A mouse button comes up: its change bit shows alone in the change
    /// register, the button lines of the input port go high, and the
    /// mouse-and-blank interrupt is raised.
    pub open spec fn mouse_up(self, button: u8) -> DuartState {
        DuartState {
            ipcr: Self::button_change(button),
            inprt: self.inprt | 0xb,
            isr: self.isr | ISTS_IPC,
            ivec: self.ivec | MOUSE_BLANK_INT,
            ..self
        }
    }

    /// The transmitter-ready bit of a port in the interrupt status
    /// register.
    pub open spec fn tx_status_bit(port_no: usize) -> u8 {
        if port_no == PORT_0 {
            ISTS_TAI
        } else {
            ISTS_TBI
        }
    }

    /// The receiver-ready bit of a port in the interrupt status
    /// register.
    pub open spec fn rx_status_bit(port_no: usize) -> u8 {
        if port_no == PORT_0 {
            ISTS_RAI
        } else {
            ISTS_RBI
        }
    }

    /// The delta-break bit of a port in the interrupt status register.
    pub open spec fn break_status_bit(port_no: usize) -> u8 {
        if port_no == PORT_0 {
            ISTS_DBA
        } else {
            ISTS_DBB
        }
    }

    /// The bit that a port's receiver raises in the pending vector.
    pub open spec fn rx_vector_bit(port_no: usize) -> u8 {
        if port_no == PORT_0 {
            RX_INT
        } else {
            KEYBOARD_INT
        }
    }

    /// The transmitter bits of a command: disable wins over enable.
    pub open spec fn command_tx(self, cmd: u8, port_no: usize) -> DuartState {
        let port = self.ports[port_no as int];
        if cmd & CMD_DTX != 0 {
            DuartState {
                ivec: self.ivec & !TX_INT,
                isr: self.isr & !Self::tx_status_bit(port_no),
                ..self.with_port(port_no as int, port.disable_tx())
            }
        } else if cmd & CMD_ETX != 0 {
            DuartState {
                ivec: self.ivec | TX_INT,
                isr: self.isr | Self::tx_status_bit(port_no),
                ..self.with_port(port_no as int, port.enable_tx())
            }
        } else {
            self
        }
    }

    /// The receiver bits of a command: disable wins over enable.
    pub open spec fn command_rx(self, cmd: u8, port_no: usize) -> DuartState {
        let port = self.ports[port_no as int];
        if cmd & CMD_DRX != 0 {
            DuartState {
                ivec: self.ivec & !Self::rx_vector_bit(port_no),
                isr: self.isr & !Self::rx_status_bit(port_no),
                ..self.with_port(port_no as int, port.disable_rx())
            }
        } else if cmd & CMD_ERX != 0 {
            self.with_port(port_no as int, port.enable_rx())
        } else {
            self
        }
    }

    /// The auxiliary command in bits 6:4 of a command.
    pub open spec fn command_aux(self, cmd: u8, port_no: usize) -> DuartState {
        let port = self.ports[port_no as int];
        let aux = (cmd >> 4) & 7;
        if aux == CR_RST_MR {
            self.with_port(port_no as int, PortState { mode_ptr: 0, ..port })
        } else if aux == CR_RST_RX {
            self.with_port(port_no as int, port.reset_rx())
        } else if aux == CR_RST_TX {
            self.with_port(port_no as int, port.reset_tx())
        } else if aux == CR_RST_ERR {
            self.with_port(
                port_no as int,
                PortState { stat: port.stat & !(STS_RXB | STS_FER | STS_PER | STS_OER), ..port },
            )
        } else if aux == CR_RST_BRK {
            DuartState { isr: self.isr & !Self::break_status_bit(port_no), ..self }
        } else if aux == CR_START_BRK {
            if port.loopback() {
                DuartState {
                    isr: self.isr | Self::break_status_bit(port_no),
                    ..self.with_port(
                        port_no as int,
                        PortState { stat: port.stat | (STS_RXB | STS_PER), ..port },
                    )
                }
            } else {
                self
            }
        } else if aux == CR_STOP_BRK {
            if port.loopback() {
                DuartState { isr: self.isr | Self::break_status_bit(port_no), ..self }
            } else {
                self
            }
        } else {
            self
        }
    }

    /// A write of a port's command register: the transmitter bits, then
    /// the receiver bits, then the auxiliary command.
    pub open spec fn handle_command(self, cmd: u8, port_no: usize) -> DuartState {
        self.command_tx(cmd, port_no).command_rx(cmd, port_no).command_aux(cmd, port_no)
    }

    /// A read of a port's receive holding register.
    pub open spec fn read_rhr(self, port_no: usize) -> (DuartState, u8) {
        let d = DuartState {
            isr: self.isr & !ISTS_RAI,
            ivec: self.ivec & !Self::rx_vector_bit(port_no),
            ..self
        };
        let (port, val) = d.ports[port_no as int].rx_read_char();
        (
            d.with_port(port_no as int, port),
            match val {
                Some(c) => c,
                None => 0,
            },
        )
    }

    /// The port that a register offset belongs to.
    pub open spec fn port_of(offset: int) -> usize {
        if offset < 0x20 {
            PORT_0
        } else {
            PORT_1
        }
    }

    /// A byte read at an absolute address. The registers are at the
    /// offsets of the window that the constants of this module name;
    /// anywhere else there is no device.
    pub open spec fn read_byte(self, address: usize) -> (DuartState, Result<u8, BusError>) {
        let offset = address - START_ADDR;
        let port_no = Self::port_of(offset);
        if offset == MR12A || offset == MR12B {
            let (port, val) = self.ports[port_no as int].read_mode();
            (self.with_port(port_no as int, port), Ok(val))
        } else if offset == CSRA || offset == CSRB {
            (self, Ok(self.ports[port_no as int].stat))
        } else if offset == RHRA || offset == RHRB {
            (self.read_rhr(port_no).0, Ok(self.read_rhr(port_no).1))
        } else if offset == IPCR_ACR {
            (
                DuartState { ipcr: self.ipcr & !0x0f, ivec: 0, isr: self.isr & !ISTS_IPC, ..self },
                Ok(self.ipcr),
            )
        } else if offset == ISR_MASK {
            (self, Ok(self.isr))
        } else if offset == IP_OPCR {
            (self, Ok(self.inprt))
        } else {
            (self, Err(BusError::NoDevice(address)))
        }
    }

    /// A half-word read: the register two bytes further on.
    pub open spec fn read_half(self, address: usize) -> (DuartState, Result<u16, BusError>) {
        if address > usize::MAX - 2 {
            (self, Err(BusError::NoDevice(address)))
        } else {
            let (d, r) = self.read_byte((address + 2) as usize);
            (
                d,
                match r {
                    Ok(b) => Ok(b as u16),
                    Err(e) => Err(e),
                },
            )
        }
    }

    /// A word read: the register three bytes further on.
    pub open spec fn read_word(self, address: usize) -> (DuartState, Result<u32, BusError>) {
        if address > usize::MAX - 3 {
            (self, Err(BusError::NoDevice(address)))
        } else {
            let (d, r) = self.read_byte((address + 3) as usize);
            (
                d,
                match r {
                    Ok(b) => Ok(b as u32),
                    Err(e) => Err(e),
                },
            )
        }
    }

    /// A byte write at an absolute address. A write that reaches no
    /// register is accepted and does nothing.
    pub open spec fn write_byte(self, address: usize, val: u8) -> DuartState {
        let offset = address - START_ADDR;
        let port_no = Self::port_of(offset);
        let port = self.ports[port_no as int];
        if offset == MR12A || offset == MR12B {
            self.with_port(port_no as int, port.write_mode(val))
        } else if offset == CSRA || offset == CSRB {
            self.with_port(port_no as int, port.select_clock(val, self.acr))
        } else if offset == CRA || offset == CRB {
            self.handle_command(val, port_no)
        } else if offset == THRA || offset == THRB {
            DuartState {
                isr: self.isr & !Self::tx_status_bit(port_no),
                ..self.with_port(port_no as int, port.write_thr(val))
            }
        } else if offset == IPCR_ACR {
            DuartState { acr: val, ..self }
        } else if offset == ISR_MASK {
            DuartState { imr: val, ..self }
        } else if offset == OPBITS_SET {
            DuartState { outprt: self.outprt | val, ..self }
        } else if offset == OPBITS_RESET {
            DuartState { outprt: self.outprt & !val, ..self }
        } else {
            self
        }
    }

    /// A half-word write: its low byte, at the register two bytes on.
    pub open spec fn write_half(self, address: usize, val: u16) -> DuartState {
        if address > usize::MAX - 2 {
            self
        } else {
            self.write_byte((address + 2) as usize, val as u8)
        }
    }

    /// A word write: its low byte, at the register three bytes on.
    pub open spec fn write_word(self, address: usize, val: u32) -> DuartState {
        if address > usize::MAX - 3 {
            self
        } else {
            self.write_byte((address + 3) as usize, val as u8)
        }
    }
}

/// Loopback. With the RS-232 port looped back, its receiver enabled
/// and idle and its transmitter idle, a character written to the
/// transmit holding register is read back from the receive holding
/// register after two service ticks: a first one when the transmitter
/// is due, and a second one at least one character delay later. That
/// read leaves RxRDY clear, and nothing goes out to the host.
pub proof fn lemma_loopback(d: DuartState, c: u8, t1: u64, t2: u64)
    requires
        d.wf(),
        d.ports[0].loopback(),
        d.ports[0].rx_enabled(),
        d.ports[0].rx_fifo.len() == 0,
        d.ports[0].rx_shift_reg is None,
        d.ports[0].tx_shift_reg is None,
        t1 >= d.ports[0].next_tx_service,
        t2 >= later(t1, d.ports[0].char_delay),
    ensures
        ({
            let sent = d.write_byte((START_ADDR + THRA) as usize, c).service(t1).service(t2);
            let (after, r) = sent.read_byte((START_ADDR + RHRA) as usize);
            &&& r == Ok::<u8, BusError>(c)
            &&& sent.ports[0].stat & STS_RXR != 0
            &&& after.ports[0].stat & STS_RXR == 0
            &&& sent.ports[0].tx_queue == d.ports[0].tx_queue
        }),
{
    let stage0 = d.ports[0];
    let d0 = d.write_byte((START_ADDR + THRA) as usize, c);
    assert(d0.ports[0] == stage0.write_thr(c));
    let stage1 = d0.ports[0].tx_service(t1, false);
    assert(stage1.tx_shift_reg == Some(c));
    assert(stage1.tx_holding_reg is None);
    assert(stage1.next_tx_service == later(t1, stage0.char_delay));
    let stage2 = stage1.rx_service(t1);
    assert(stage2.rx_fifo.len() == 0);
    let d1 = d0.service(t1);
    assert(d1.ports[0] == stage2);
    let stage3 = stage2.tx_service(t2, false);
    assert(stage3.rx_fifo == seq![c]);
    let stage4 = stage3.rx_service(t2);
    assert(stage4.rx_fifo == seq![c]);
    let d2 = d1.service(t2);
    assert(d2.ports[0] == stage4);
    assert(stage4.rx_shift_reg is None);
    assert(stage4.rx_fifo.drop_first().len() == 0);
    assert(forall|x: u8| (x | 0x01) & 0x01 != 0) by (bit_vector);
    assert(forall|x: u8| ((x | 0x01) | 0x04) & 0x01 != 0 && (((x | 0x01) | 0x04) | 0x08) & 0x01
        != 0) by (bit_vector);
    assert(forall|x: u8| ((x & !0x01u8) & !(0x20u8 | 0x80u8)) & 0x01 == 0) by (bit_vector);
}

/// The depth of one port's receiver: what [`lemma_fifo_depth`] says of
/// the RS-232 port, said of a port by itself.
pub proof fn lemma_port_fifo_depth(p: PortState, a: u8, b: u8, c: u8, e: u8, t: Seq<u64>)
    requires
        p.wf(),
        p.rx_enabled(),
        !p.loopback(),
        p.rx_fifo.len() == 0,
        p.rx_shift_reg is None,
        p.rx_queue.len() == 0,
        p.stat & STS_FFL == 0,
        p.stat & STS_OER == 0,
        t.len() == 4,
        t[0] >= p.next_rx_service,
        t[1] >= later(t[0], p.char_delay),
        t[2] >= later(t[1], p.char_delay),
        t[3] >= later(t[2], p.char_delay),
    ensures
        ({
            let queued = PortState { rx_queue: seq![a, b, c, e], ..p };
            let s1 = queued.rx_service(t[0]);
            let s2 = s1.rx_service(t[1]);
            let s3 = s2.rx_service(t[2]);
            let s4 = s3.rx_service(t[3]);
            let (r1, v1) = s4.rx_read_char();
            let (r2, v2) = r1.rx_read_char();
            let (r3, v3) = r2.rx_read_char();
            let (r4, v4) = r3.rx_read_char();
            &&& s1.stat & STS_FFL == 0
            &&& s2.stat & STS_FFL == 0
            &&& s3.stat & STS_FFL != 0
            &&& s3.rx_fifo == seq![a, b, c]
            &&& s4.rx_fifo == seq![a, b, c]
            &&& s4.rx_shift_reg == Some(e)
            &&& s4.stat & STS_OER == 0
            &&& v1 == Some(a)
            &&& r1.rx_fifo == seq![b, c, e]
            &&& r1.rx_shift_reg is None
            &&& v2 == Some(b)
            &&& v3 == Some(c)
            &&& v4 == Some(e)
            &&& r4.rx_fifo.len() == 0
            &&& r4.stat & STS_RXR == 0
        }),
{
    let queued = PortState { rx_queue: seq![a, b, c, e], ..p };
    let s1 = queued.rx_service(t[0]);
    assert(queued.rx_queue.drop_first() =~= seq![b, c, e]);
    assert(s1.rx_fifo =~= seq![a]);
    assert(s1.rx_queue == seq![b, c, e]);
    let s2 = s1.rx_service(t[1]);
    assert(s1.rx_queue.drop_first() =~= seq![c, e]);
    assert(s2.rx_fifo =~= seq![a, b]);
    let s3 = s2.rx_service(t[2]);
    assert(s2.rx_queue.drop_first() =~= seq![e]);
    assert(s3.rx_fifo =~= seq![a, b, c]);
    let s4 = s3.rx_service(t[3]);
    assert(s3.rx_queue.drop_first() =~= Seq::<u8>::empty());
    assert(s4.rx_fifo == seq![a, b, c]);
    assert(s4.rx_shift_reg == Some(e));
    let (r1, v1) = s4.rx_read_char();
    assert(s4.rx_fifo.drop_first().push(e) =~= seq![b, c, e]);
    let (r2, v2) = r1.rx_read_char();
    assert(r1.rx_fifo.drop_first() =~= seq![c, e]);
    let (r3, v3) = r2.rx_read_char();
    assert(r2.rx_fifo.drop_first() =~= seq![e]);
    let (r4, v4) = r3.rx_read_char();
    assert(r3.rx_fifo.drop_first() =~= Seq::<u8>::empty());
    assert(forall|x: u8| ((x & !0x01u8) & !(0x20u8 | 0x80u8)) & 0x01 == 0) by (bit_vector);
    assert(forall|x: u8| x & 0x02 == 0 ==> (x | 0x01) & 0x02 == 0) by (bit_vector);
    assert(forall|x: u8| ((x | 0x02) | 0x01) & 0x02 != 0) by (bit_vector);
    assert(forall|x: u8| x & 0x10 == 0 ==> (x | 0x01) & 0x10 == 0 && (x | 0x02) & 0x10 == 0)
        by (bit_vector);
    assert(forall|x: u8| (x | 0x01) & 0x01 != 0) by (bit_vector);
}

/// FIFO depth. The RS-232 port, its receiver enabled, not looped back
/// and idle and its transmitter idle, receives four characters that the
/// host has queued, one on each of four service ticks that are a
/// character delay apart. The first three go into the FIFO, and
/// FIFO-full is asserted with the third and not before; the fourth
/// waits in the shift register without an overrun. Four reads of the
/// receive holding register give the four characters in order; the
/// first of them lets the fourth into the FIFO, and the last leaves the
/// receiver empty, with RxRDY clear.
pub proof fn lemma_fifo_depth(d: DuartState, a: u8, b: u8, c: u8, e: u8, t: Seq<u64>)
    requires
        d.wf(),
        d.ports[0].rx_enabled(),
        !d.ports[0].loopback(),
        d.ports[0].rx_fifo.len() == 0,
        d.ports[0].rx_shift_reg is None,
        d.ports[0].rx_queue.len() == 0,
        d.ports[0].tx_holding_reg is None,
        d.ports[0].tx_shift_reg is None,
        d.ports[0].stat & STS_FFL == 0,
        d.ports[0].stat & STS_OER == 0,
        t.len() == 4,
        t[0] >= d.ports[0].next_rx_service,
        t[1] >= later(t[0], d.ports[0].char_delay),
        t[2] >= later(t[1], d.ports[0].char_delay),
        t[3] >= later(t[2], d.ports[0].char_delay),
    ensures
        ({
            let queued = d.host_rx(0, a).host_rx(0, b).host_rx(0, c).host_rx(0, e);
            let s1 = queued.service(t[0]);
            let s2 = s1.service(t[1]);
            let s3 = s2.service(t[2]);
            let s4 = s3.service(t[3]);
            let rhr = (START_ADDR + RHRA) as usize;
            let (r1, v1) = s4.read_byte(rhr);
            let (r2, v2) = r1.read_byte(rhr);
            let (r3, v3) = r2.read_byte(rhr);
            let (r4, v4) = r3.read_byte(rhr);
            &&& s1.ports[0].stat & STS_FFL == 0
            &&& s2.ports[0].stat & STS_FFL == 0
            &&& s3.ports[0].stat & STS_FFL != 0
            &&& s4.ports[0].rx_fifo == seq![a, b, c]
            &&& s4.ports[0].rx_shift_reg == Some(e)
            &&& s4.ports[0].stat & STS_OER == 0
            &&& v1 == Ok::<u8, BusError>(a)
            &&& r1.ports[0].rx_fifo == seq![b, c, e]
            &&& v2 == Ok::<u8, BusError>(b)
            &&& v3 == Ok::<u8, BusError>(c)
            &&& v4 == Ok::<u8, BusError>(e)
            &&& r4.ports[0].rx_fifo.len() == 0
            &&& r4.ports[0].stat & STS_RXR == 0
        }),
{
    let p = d.ports[0];
    lemma_port_fifo_depth(p, a, b, c, e, t);
    let queued = d.host_rx(0, a).host_rx(0, b).host_rx(0, c).host_rx(0, e);
    let first = PortState { rx_queue: seq![a, b, c, e], ..p };
    assert(p.rx_queue.push(a).push(b).push(c).push(e) =~= seq![a, b, c, e]);
    assert(queued.ports[0] == first);
    let q1 = first.rx_service(t[0]);
    let s1 = queued.service(t[0]);
    assert(s1.ports[0] == q1);
    let q2 = q1.rx_service(t[1]);
    let s2 = s1.service(t[1]);
    assert(s2.ports[0] == q2);
    let q3 = q2.rx_service(t[2]);
    let s3 = s2.service(t[2]);
    assert(s3.ports[0] == q3);
    let q4 = q3.rx_service(t[3]);
    let s4 = s3.service(t[3]);
    assert(s4.ports[0] == q4);
    let rhr = (START_ADDR + RHRA) as usize;
    let (r1, v1) = s4.read_byte(rhr);
    assert(r1.ports[0] == q4.rx_read_char().0);
    let (r2, v2) = r1.read_byte(rhr);
    assert(r2.ports[0] == r1.ports[0].rx_read_char().0);
    let (r3, v3) = r2.read_byte(rhr);
    assert(r3.ports[0] == r2.ports[0].rx_read_char().0);
    let (r4, v4) = r3.read_byte(rhr);
    assert(r4.ports[0] == r3.ports[0].rx_read_char().0);
}

} // verus!
