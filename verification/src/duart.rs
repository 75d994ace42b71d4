//! The 2681 DUART as the bus sees it and as the host drives it.
//!
//! Every operation is verified against the model of
//! [`crate::duart_model`]. The operations that depend on the time come
//! in two forms: one that takes the time as an argument, and one that
//! reads the clock and hands the reading on.

use crate::clock::{clock_elapsed, clock_start};
use crate::device::{AccessCode, Device};
use crate::duart_model::{
    baud_rate, char_time, later, DuartState, PortState, CMD_DRX, CMD_DTX, CMD_ERX, CMD_ETX,
    CNF_ERX, CNF_ETX, CRA, CRB, CR_RST_BRK, CR_RST_ERR, CR_RST_MR, CR_RST_RX, CR_RST_TX,
    CR_START_BRK, CR_STOP_BRK, CSRA, CSRB, DEFAULT_CHAR_DELAY, END_ADDR, IPCR_ACR, IP_OPCR,
    ISR_MASK, ISTS_DBA, ISTS_DBB, ISTS_IPC, ISTS_RAI, ISTS_RBI, ISTS_TAI, ISTS_TBI, KEYBOARD_INT,
    MOUSE_BLANK_INT, MR12A, MR12B, OPBITS_RESET, OPBITS_SET, PORT_0, PORT_1, RHRA, RHRB,
    RX_FIFO_LEN, RX_INT, START_ADDR, STS_FER, STS_FFL, STS_OER, STS_PER, STS_RXB, STS_RXR,
    STS_TXE, STS_TXR, THRA, THRB, TX_INT, VERTICAL_BLANK_DELAY,
};
use crate::err::BusError;
use crate::ring::{ring_clear, ring_dequeue, ring_items, ring_len, ring_new, ring_push, ring_written};
use ringbuffer::ConstGenericRingBuffer;
use std::collections::VecDeque;
use std::ops::Range;
use std::time::Instant;
use vstd::prelude::*;

verus! {

/// The character delay that a clock-select value picks, in nanoseconds:
/// a second's worth of nanoseconds divided by the characters per second
/// at ten bits each.
pub fn delay_rate(csr_bits: u8, acr_bits: u8) -> (delay: u64)
    requires
        (csr_bits >> 4) & 0xf <= 12,
    ensures
        baud_rate(csr_bits, acr_bits) >= 50,
        delay == char_time(baud_rate(csr_bits, acr_bits)),
{
    let baud_rate: u32 = table_rate(csr_bits, acr_bits);
    (1_000_000_000u32 / (baud_rate / 10)) as u64
}

/// The baud rate that a clock-select value picks, zero where it picks
/// none.
fn table_rate(csr_bits: u8, acr_bits: u8) -> (rate: u32)
    ensures
        rate == baud_rate(csr_bits, acr_bits),
        (csr_bits >> 4) & 0xf <= 12 ==> rate >= 50,
        rate == 0 || rate >= 50,
{
    let index: u8 = (csr_bits >> 4) & 0xf;
    if acr_bits & 0x80 == 0 {
        if index == 0 {
            50
        } else if index == 1 {
            110
        } else if index == 2 {
            135
        } else if index == 3 {
            200
        } else if index == 4 {
            300
        } else if index == 5 {
            600
        } else if index == 6 {
            1200
        } else if index == 7 {
            1050
        } else if index == 8 {
            2400
        } else if index == 9 {
            4800
        } else if index == 10 {
            7200
        } else if index == 11 {
            9600
        } else if index == 12 {
            38400
        } else {
            0
        }
    } else {
        if index == 0 {
            75
        } else if index == 1 {
            110
        } else if index == 2 {
            135
        } else if index == 3 {
            150
        } else if index == 4 {
            300
        } else if index == 5 {
            600
        } else if index == 6 {
            1200
        } else if index == 7 {
            2000
        } else if index == 8 {
            2400
        } else if index == 9 {
            4800
        } else if index == 10 {
            1800
        } else if index == 11 {
            9600
        } else if index == 12 {
            19200
        } else {
            0
        }
    }
}

/// The moment `delay` nanoseconds after `now`.
fn time_after(now: u64, delay: u64) -> (t: u64)
    ensures
        t == later(now, delay),
{
    if delay > u64::MAX - now {
        u64::MAX
    } else {
        now + delay
    }
}

/// One serial port of the DUART.
pub struct Port {
    mode: [u8; 2],
    mode_ptr: usize,
    stat: u8,
    conf: u8,
    rx_fifo: ConstGenericRingBuffer<u8, 4>,
    /// The write position of `rx_fifo`.
    rx_written: usize,
    rx_shift_reg: Option<u8>,
    tx_holding_reg: Option<u8>,
    tx_shift_reg: Option<u8>,
    rx_deque: VecDeque<u8>,
    tx_deque: VecDeque<u8>,
    char_delay: u64,
    next_tx_service: u64,
    next_rx_service: u64,
}

impl View for Port {
    type V = PortState;

    closed spec fn view(&self) -> PortState {
        PortState {
            mode: self.mode@,
            mode_ptr: self.mode_ptr,
            stat: self.stat,
            conf: self.conf,
            rx_fifo: ring_items(self.rx_fifo),
            rx_shift_reg: self.rx_shift_reg,
            tx_holding_reg: self.tx_holding_reg,
            tx_shift_reg: self.tx_shift_reg,
            rx_queue: self.rx_deque@,
            tx_queue: self.tx_deque@,
            char_delay: self.char_delay,
            next_tx_service: self.next_tx_service,
            next_rx_service: self.next_rx_service,
        }
    }
}

impl Port {
    /// The model is well formed and the write position is known.
    pub closed spec fn inv(&self) -> bool {
        &&& self@.wf()
        &&& self.rx_written == ring_written(self.rx_fifo)
    }

    fn new() -> (p: Port)
        ensures
            p.inv(),
            p@ == PortState::initial(),
    {
        let p = Port {
            mode: [0; 2],
            mode_ptr: 0,
            stat: 0,
            conf: 0,
            rx_fifo: ring_new(),
            rx_written: 0,
            rx_shift_reg: None,
            tx_holding_reg: None,
            tx_shift_reg: None,
            rx_deque: VecDeque::new(),
            tx_deque: VecDeque::new(),
            char_delay: DEFAULT_CHAR_DELAY,
            next_tx_service: 0,
            next_rx_service: 0,
        };
        assert(p@.mode =~= seq![0u8, 0u8]);
        p
    }

    /// Moves the FIFO's characters into a fresh buffer, whose write
    /// position starts again from zero.
    fn renew_fifo(&mut self)
        requires
            old(self).inv(),
        ensures
            final(self).inv(),
            final(self)@ == old(self)@,
            final(self).rx_written <= 3,
    {
        let mut fresh: ConstGenericRingBuffer<u8, 4> = ring_new();
        let mut moved: usize = 0;
        while ring_len(&self.rx_fifo) > 0
            invariant
                ring_items(fresh) + ring_items(self.rx_fifo) == old(self)@.rx_fifo,
                old(self)@.rx_fifo.len() <= 3,
                ring_written(fresh) == moved,
                ring_items(fresh).len() == moved,
                *self == (Port { rx_fifo: self.rx_fifo, ..*old(self) }),
            decreases ring_items(self.rx_fifo).len(),
        {
            let ghost before = ring_items(self.rx_fifo);
            let ghost done = ring_items(fresh);
            match ring_dequeue(&mut self.rx_fifo) {
                Some(c) => {
                    ring_push(&mut fresh, c);
                    moved += 1;
                },
                None => {},
            }
            assert(ring_items(fresh) + ring_items(self.rx_fifo) =~= done + before);
        }
        assert(ring_items(fresh) =~= ring_items(fresh) + ring_items(self.rx_fifo));
        self.rx_fifo = fresh;
        self.rx_written = moved;
    }

    /// Appends a character to a FIFO that holds fewer than three.
    fn fifo_push(&mut self, c: u8)
        requires
            old(self).inv(),
            old(self)@.rx_fifo.len() < 3,
        ensures
            final(self).inv(),
            final(self)@ == (PortState { rx_fifo: old(self)@.rx_fifo.push(c), ..old(self)@ }),
    {
        if self.rx_written == usize::MAX {
            self.renew_fifo();
        }
        ring_push(&mut self.rx_fifo, c);
        self.rx_written += 1;
    }

    /// Reads a character out of the receiver.
    fn rx_read_char(&mut self) -> (r: Option<u8>)
        requires
            old(self).inv(),
        ensures
            final(self).inv(),
            (final(self)@, r) == old(self)@.rx_read_char(),
    {
        if self.rx_enabled() {
            let val: Option<u8> = ring_dequeue(&mut self.rx_fifo);
            self.stat &= !STS_FFL;
            match self.rx_shift_reg {
                Some(c) => {
                    self.fifo_push(c);
                    self.rx_shift_reg = None;
                    self.stat |= STS_RXR;
                    if ring_len(&self.rx_fifo) >= RX_FIFO_LEN {
                        self.stat |= STS_FFL;
                    }
                },
                None => {},
            }
            if ring_len(&self.rx_fifo) == 0 {
                self.stat &= !STS_RXR;
            }
            self.stat &= !(STS_PER | STS_RXB);
            val
        } else {
            None
        }
    }

    /// Receives a character.
    fn rx_char(&mut self, c: u8)
        requires
            old(self).inv(),
        ensures
            final(self).inv(),
            final(self)@ == old(self)@.rx_char(c),
    {
        if ring_len(&self.rx_fifo) < RX_FIFO_LEN {
            self.fifo_push(c);
            if ring_len(&self.rx_fifo) >= RX_FIFO_LEN {
                self.stat |= STS_FFL;
            }
        } else {
            if self.rx_shift_reg.is_some() {
                self.stat |= STS_OER;
            }
            self.rx_shift_reg = Some(c);
        }
        self.stat |= STS_RXR;
    }

    /// Moves the receiver on at the time `now`.
    fn rx_service(&mut self, now: u64)
        requires
            old(self).inv(),
        ensures
            final(self).inv(),
            final(self)@ == old(self)@.rx_service(now),
    {
        let needed: bool = self.rx_enabled() && self.rx_deque.len() > 0 && now
            >= self.next_rx_service;
        if !needed {
            return ;
        }
        if !self.loopback() {
            match self.rx_deque.pop_front() {
                Some(c) => {
                    assert(self.rx_deque@ =~= old(self).rx_deque@.drop_first());
                    self.rx_char(c);
                },
                None => {},
            }
        }
        self.next_rx_service = time_after(now, self.char_delay);
    }

    /// Hands on a character that has left the shift register.
    fn deliver(&mut self, c: u8, keyboard: bool)
        requires
            old(self).inv(),
        ensures
            final(self).inv(),
            final(self)@ == old(self)@.deliver(c, keyboard),
    {
        if self.loopback() {
            self.rx_char(c);
        } else {
            if keyboard && c == 0x02 {
                self.stat |= STS_PER;
            }
            if !keyboard || c & 0x08 != 0 {
                self.tx_deque.push_back(c);
            }
        }
    }

    /// Moves the transmitter on at the time `now`.
    fn tx_service(&mut self, now: u64, keyboard: bool)
        requires
            old(self).inv(),
        ensures
            final(self).inv(),
            final(self)@ == old(self)@.tx_service(now, keyboard),
    {
        if self.tx_holding_reg.is_none() && self.tx_shift_reg.is_none() {
            return ;
        }
        if now >= self.next_tx_service {
            match self.tx_shift_reg {
                Some(c) => {
                    self.deliver(c, keyboard);
                    self.tx_shift_reg = None;
                    if self.tx_holding_reg.is_none() {
                        self.stat |= STS_TXR;
                        self.stat |= STS_TXE;
                    }
                },
                None => {},
            }
            match self.tx_holding_reg {
                Some(c) => {
                    self.tx_shift_reg = Some(c);
                    self.tx_holding_reg = None;
                    self.next_tx_service = time_after(now, self.char_delay);
                },
                None => {},
            }
        }
    }

    fn loopback(&self) -> (r: bool)
        requires
            self.inv(),
        ensures
            r == self@.loopback(),
    {
        (self.mode[1] & 0xc0) == 0x80
    }

    fn rx_enabled(&self) -> (r: bool)
        ensures
            r == self@.rx_enabled(),
    {
        (self.conf & CNF_ERX) != 0
    }

    fn enable_tx(&mut self)
        requires
            old(self).inv(),
        ensures
            final(self).inv(),
            final(self)@ == old(self)@.enable_tx(),
    {
        self.conf |= CNF_ETX;
        if self.tx_holding_reg.is_none() {
            self.stat |= STS_TXR;
        }
        if self.tx_shift_reg.is_none() {
            self.stat |= STS_TXE;
        }
    }

    fn disable_tx(&mut self)
        requires
            old(self).inv(),
        ensures
            final(self).inv(),
            final(self)@ == old(self)@.disable_tx(),
    {
        self.conf &= !CNF_ETX;
        self.stat &= !(STS_TXR | STS_TXE);
    }

    fn enable_rx(&mut self)
        requires
            old(self).inv(),
        ensures
            final(self).inv(),
            final(self)@ == old(self)@.enable_rx(),
    {
        self.conf |= CNF_ERX;
        self.stat &= !STS_RXR;
    }

    fn disable_rx(&mut self)
        requires
            old(self).inv(),
        ensures
            final(self).inv(),
            final(self)@ == old(self)@.disable_rx(),
    {
        self.conf &= !CNF_ERX;
        self.stat &= !STS_RXR;
    }

    fn read_mode(&mut self) -> (val: u8)
        requires
            old(self).inv(),
        ensures
            final(self).inv(),
            (final(self)@, val) == old(self)@.read_mode(),
    {
        let val: u8 = self.mode[self.mode_ptr];
        self.mode_ptr = (self.mode_ptr + 1) % 2;
        val
    }

    fn write_mode(&mut self, val: u8)
        requires
            old(self).inv(),
        ensures
            final(self).inv(),
            final(self)@ == old(self)@.write_mode(val),
    {
        self.mode[self.mode_ptr] = val;
        self.mode_ptr = (self.mode_ptr + 1) % 2;
    }

    fn write_thr(&mut self, val: u8)
        requires
            old(self).inv(),
        ensures
            final(self).inv(),
            final(self)@ == old(self)@.write_thr(val),
    {
        self.tx_holding_reg = Some(val);
        self.stat &= !(STS_TXR | STS_TXE);
    }

    fn select_clock(&mut self, csr_bits: u8, acr_bits: u8)
        requires
            old(self).inv(),
        ensures
            final(self).inv(),
            final(self)@ == old(self)@.select_clock(csr_bits, acr_bits),
    {
        let rate: u32 = table_rate(csr_bits, acr_bits);
        if rate >= 10 {
            self.char_delay = (1_000_000_000u32 / (rate / 10)) as u64;
        }
    }

    fn reset_rx(&mut self)
        requires
            old(self).inv(),
        ensures
            final(self).inv(),
            final(self)@ == old(self)@.reset_rx(),
    {
        self.stat &= !STS_RXR;
        self.conf &= !CNF_ERX;
        ring_clear(&mut self.rx_fifo);
        self.rx_written = 0;
        self.rx_shift_reg = None;
    }

    fn reset_tx(&mut self)
        requires
            old(self).inv(),
        ensures
            final(self).inv(),
            final(self)@ == old(self)@.reset_tx(),
    {
        self.stat &= !(STS_TXR | STS_TXE);
        self.conf &= !CNF_ETX;
        self.tx_holding_reg = None;
        self.tx_shift_reg = None;
    }
}

/// The 2681 DUART.
pub struct Duart {
    ports: [Port; 2],
    acr: u8,
    ipcr: u8,
    inprt: u8,
    outprt: u8,
    isr: u8,
    imr: u8,
    ivec: u8,
    next_vblank: u64,
    /// The moment from which this DUART counts its time.
    epoch: Instant,
}

impl View for Duart {
    type V = DuartState;

    closed spec fn view(&self) -> DuartState {
        DuartState {
            ports: seq![self.ports[0]@, self.ports[1]@],
            acr: self.acr,
            ipcr: self.ipcr,
            inprt: self.inprt,
            outprt: self.outprt,
            isr: self.isr,
            imr: self.imr,
            ivec: self.ivec,
            next_vblank: self.next_vblank,
        }
    }
}

impl Duart {
    /// Both ports keep their invariant.
    pub closed spec fn inv(&self) -> bool {
        self.ports[0].inv() && self.ports[1].inv()
    }

    /// A DUART after power-up, whose clock starts now.
    pub fn new() -> (d: Duart)
        ensures
            d.inv(),
            d@ == DuartState::initial(),
    {
        let d = Duart {
            ports: [Port::new(), Port::new()],
            acr: 0,
            ipcr: 0x40,
            inprt: 0xb,
            outprt: 0,
            isr: 0,
            imr: 0,
            ivec: 0,
            next_vblank: VERTICAL_BLANK_DELAY,
            epoch: clock_start(),
        };
        assert(d@.ports =~= DuartState::initial().ports);
        d
    }

    /// The time on this DUART's clock, in nanoseconds.
    pub fn now(&self) -> (ns: u64) {
        clock_elapsed(&self.epoch)
    }

    /// Polls for interrupts at the time `now`.
    pub fn get_interrupt_at(&mut self, now: u64) -> (r: Option<u8>)
        requires
            old(self).inv(),
        ensures
            final(self).inv(),
            final(self)@ == old(self)@.poll(now),
            r == old(self)@.pending(now),
    {
        if now > self.next_vblank {
            self.next_vblank = time_after(now, VERTICAL_BLANK_DELAY);
            self.vertical_blank();
        }
        if (self.ports[PORT_0].stat & STS_RXR) != 0 {
            self.ivec |= RX_INT;
            self.isr |= ISTS_RAI;
        }
        if (self.ports[PORT_1].stat & STS_RXR) != 0 {
            self.ivec |= KEYBOARD_INT;
            self.isr |= ISTS_RBI;
        }
        if (self.ports[PORT_0].stat & STS_TXR) != 0 {
            self.ivec |= TX_INT;
            self.isr |= ISTS_TAI;
        }
        let val: u8 = self.ivec;
        assert(final(self)@.ports =~= old(self)@.poll(now).ports);
        if val == 0 {
            None
        } else {
            Some(val)
        }
    }

    /// Polls for interrupts at the time that the clock shows.
    pub fn get_interrupt(&mut self) -> (r: Option<u8>)
        requires
            old(self).inv(),
        ensures
            final(self).inv(),
            exists|now: u64|
                final(self)@ == #[trigger] old(self)@.poll(now) && r == old(self)@.pending(now),
    {
        let now: u64 = self.now();
        self.get_interrupt_at(now)
    }

    /// Moves both ports on at the time `now`.
    pub fn service_at(&mut self, now: u64)
        requires
            old(self).inv(),
        ensures
            final(self).inv(),
            final(self)@ == old(self)@.service(now),
    {
        self.ports[PORT_0].tx_service(now, false);
        self.ports[PORT_0].rx_service(now);
        self.ports[PORT_1].tx_service(now, true);
        self.ports[PORT_1].rx_service(now);
        assert(final(self)@.ports =~= old(self)@.service(now).ports);
    }

    /// Moves both ports on at the time that the clock shows.
    pub fn service(&mut self)
        requires
            old(self).inv(),
        ensures
            final(self).inv(),
            exists|now: u64| final(self)@ == #[trigger] old(self)@.service(now),
    {
        let now: u64 = self.now();
        self.service_at(now);
    }

    /// Signals a vertical blank.
    pub fn vertical_blank(&mut self)
        ensures
            final(self).inv() == old(self).inv(),
            final(self)@ == old(self)@.vertical_blank(),
    {
        self.ivec |= MOUSE_BLANK_INT;
        self.ipcr |= 0x40;
        self.isr |= ISTS_IPC;
        if self.inprt & 0x04 != 0 {
            self.inprt &= !0x04;
        }
    }

    /// The output port as it reads: the complement of the latch.
    pub fn output_port(&self) -> (r: u8)
        ensures
            r == !self@.outprt,
    {
        !self.outprt
    }

    /// Queues a character from the host for the RS-232 port.
    pub fn rs232_rx(&mut self, c: u8)
        requires
            old(self).inv(),
        ensures
            final(self).inv(),
            final(self)@ == old(self)@.host_rx(0, c),
    {
        self.ports[PORT_0].rx_deque.push_back(c);
        assert(final(self)@.ports =~= old(self)@.host_rx(0, c).ports);
    }

    /// Queues a character from the host for the keyboard port.
    pub fn keyboard_rx(&mut self, c: u8)
        requires
            old(self).inv(),
        ensures
            final(self).inv(),
            final(self)@ == old(self)@.host_rx(1, c),
    {
        self.ports[PORT_1].rx_deque.push_back(c);
        assert(final(self)@.ports =~= old(self)@.host_rx(1, c).ports);
    }

    /// Hands the host the oldest character that the RS-232 port has sent.
    pub fn rs232_tx(&mut self) -> (r: Option<u8>)
        requires
            old(self).inv(),
        ensures
            final(self).inv(),
            (final(self)@, r) == old(self)@.host_tx(0),
    {
        let r: Option<u8> = self.ports[PORT_0].tx_deque.pop_front();
        assert(r is Some ==> final(self).ports[0]@.tx_queue =~= old(
            self,
        ).ports[0]@.tx_queue.drop_first());
        assert(final(self)@.ports =~= old(self)@.host_tx(0).0.ports);
        r
    }

    /// Hands the host the oldest character that the keyboard port has
    /// sent.
    pub fn keyboard_tx(&mut self) -> (r: Option<u8>)
        requires
            old(self).inv(),
        ensures
            final(self).inv(),
            (final(self)@, r) == old(self)@.host_tx(1),
    {
        let r: Option<u8> = self.ports[PORT_1].tx_deque.pop_front();
        assert(r is Some ==> final(self).ports[1]@.tx_queue =~= old(
            self,
        ).ports[1]@.tx_queue.drop_first());
        assert(final(self)@.ports =~= old(self)@.host_tx(1).0.ports);
        r
    }

    /// A mouse button goes down.
    pub fn mouse_down(&mut self, button: u8)
        ensures
            final(self).inv() == old(self).inv(),
            final(self)@ == old(self)@.mouse_down(button),
    {
        let change: u8 = if button == 0 {
            0x80
        } else if button == 1 {
            0x20
        } else if button == 2 {
            0x10
        } else {
            0
        };
        let line: u8 = if button == 0 {
            0x08
        } else if button == 1 {
            0x02
        } else if button == 2 {
            0x01
        } else {
            0
        };
        self.ipcr = change;
        self.inprt = (self.inprt | 0xb) & !line;
        self.isr |= ISTS_IPC;
        self.ivec |= MOUSE_BLANK_INT;
    }

    /// A mouse button comes up.
    pub fn mouse_up(&mut self, button: u8)
        ensures
            final(self).inv() == old(self).inv(),
            final(self)@ == old(self)@.mouse_up(button),
    {
        let change: u8 = if button == 0 {
            0x80
        } else if button == 1 {
            0x20
        } else if button == 2 {
            0x10
        } else {
            0
        };
        self.ipcr = change;
        self.inprt |= 0xb;
        self.isr |= ISTS_IPC;
        self.ivec |= MOUSE_BLANK_INT;
    }

    fn command_tx(&mut self, cmd: u8, port_no: usize)
        requires
            old(self).inv(),
            port_no < 2,
        ensures
            final(self).inv(),
            final(self)@ == old(self)@.command_tx(cmd, port_no),
    {
        let tx_ists: u8 = if port_no == PORT_0 {
            ISTS_TAI
        } else {
            ISTS_TBI
        };
        if cmd & CMD_DTX != 0 {
            self.ports[port_no].disable_tx();
            self.ivec &= !TX_INT;
            self.isr &= !tx_ists;
        } else if cmd & CMD_ETX != 0 {
            self.ports[port_no].enable_tx();
            self.ivec |= TX_INT;
            self.isr |= tx_ists;
        }
        assert(final(self)@.ports =~= old(self)@.command_tx(cmd, port_no).ports);
    }

    fn command_rx(&mut self, cmd: u8, port_no: usize)
        requires
            old(self).inv(),
            port_no < 2,
        ensures
            final(self).inv(),
            final(self)@ == old(self)@.command_rx(cmd, port_no),
    {
        let rx_ists: u8 = if port_no == PORT_0 {
            ISTS_RAI
        } else {
            ISTS_RBI
        };
        let rx_int: u8 = if port_no == PORT_0 {
            RX_INT
        } else {
            KEYBOARD_INT
        };
        if cmd & CMD_DRX != 0 {
            self.ports[port_no].disable_rx();
            self.isr &= !rx_ists;
            self.ivec &= !rx_int;
        } else if cmd & CMD_ERX != 0 {
            self.ports[port_no].enable_rx();
        }
        assert(final(self)@.ports =~= old(self)@.command_rx(cmd, port_no).ports);
    }

    fn command_aux(&mut self, cmd: u8, port_no: usize)
        requires
            old(self).inv(),
            port_no < 2,
        ensures
            final(self).inv(),
            final(self)@ == old(self)@.command_aux(cmd, port_no),
    {
        let dbk_ists: u8 = if port_no == PORT_0 {
            ISTS_DBA
        } else {
            ISTS_DBB
        };
        let aux: u8 = (cmd >> 4) & 7;
        if aux == CR_RST_MR {
            self.ports[port_no].mode_ptr = 0;
        } else if aux == CR_RST_RX {
            self.ports[port_no].reset_rx();
        } else if aux == CR_RST_TX {
            self.ports[port_no].reset_tx();
        } else if aux == CR_RST_ERR {
            self.ports[port_no].stat &= !(STS_RXB | STS_FER | STS_PER | STS_OER);
        } else if aux == CR_RST_BRK {
            self.isr &= !dbk_ists;
        } else if aux == CR_START_BRK {
            if self.ports[port_no].loopback() {
                self.ports[port_no].stat |= STS_RXB | STS_PER;
                self.isr |= dbk_ists;
            }
        } else if aux == CR_STOP_BRK {
            if self.ports[port_no].loopback() {
                self.isr |= dbk_ists;
            }
        }
        assert(final(self)@.ports =~= old(self)@.command_aux(cmd, port_no).ports);
    }

    /// Carries out a write of a port's command register.
    fn handle_command(&mut self, cmd: u8, port_no: usize)
        requires
            old(self).inv(),
            port_no < 2,
        ensures
            final(self).inv(),
            final(self)@ == old(self)@.handle_command(cmd, port_no),
    {
        self.command_tx(cmd, port_no);
        self.command_rx(cmd, port_no);
        self.command_aux(cmd, port_no);
    }

    fn read_rhr(&mut self, port_no: usize) -> (val: u8)
        requires
            old(self).inv(),
            port_no < 2,
        ensures
            final(self).inv(),
            (final(self)@, val) == old(self)@.read_rhr(port_no),
    {
        let rx_int: u8 = if port_no == PORT_0 {
            RX_INT
        } else {
            KEYBOARD_INT
        };
        self.isr &= !ISTS_RAI;
        self.ivec &= !rx_int;
        let val: u8 = match self.ports[port_no].rx_read_char() {
            Some(c) => c,
            None => 0,
        };
        assert(final(self)@.ports =~= old(self)@.read_rhr(port_no).0.ports);
        val
    }
}

impl Default for Duart {
    fn default() -> (d: Duart)
        ensures
            d.inv(),
            d@ == DuartState::initial(),
    {
        Duart::new()
    }
}

impl Device for Duart {
    open spec fn wf(&self) -> bool {
        self.inv()
    }

    fn address_range(&self) -> (r: Range<usize>)
        ensures
            r.start == START_ADDR,
            r.end == END_ADDR,
    {
        START_ADDR..END_ADDR
    }

    fn name(&self) -> (r: &'static str)
        ensures
            r@ == "ACIA"@,
    {
        "ACIA"
    }

    fn is_read_only(&self) -> (r: bool)
        ensures
            !r,
    {
        false
    }

    fn read_byte(&mut self, address: usize, access: AccessCode) -> (r: Result<u8, BusError>)
        ensures
            (final(self)@, r) == old(self)@.read_byte(address),
    {
        if address < START_ADDR {
            return Err(BusError::NoDevice(address));
        }
        let offset: usize = address - START_ADDR;
        let port_no: usize = if offset < 0x20 {
            PORT_0
        } else {
            PORT_1
        };
        if offset == MR12A || offset == MR12B {
            let val: u8 = self.ports[port_no].read_mode();
            assert(final(self)@.ports =~= old(self)@.read_byte(address).0.ports);
            Ok(val)
        } else if offset == CSRA || offset == CSRB {
            assert(final(self)@.ports =~= old(self)@.read_byte(address).0.ports);
            Ok(self.ports[port_no].stat)
        } else if offset == RHRA || offset == RHRB {
            let val: u8 = self.read_rhr(port_no);
            Ok(val)
        } else if offset == IPCR_ACR {
            let val: u8 = self.ipcr;
            self.ipcr &= !0x0f;
            self.ivec = 0;
            self.isr &= !ISTS_IPC;
            Ok(val)
        } else if offset == ISR_MASK {
            Ok(self.isr)
        } else if offset == IP_OPCR {
            Ok(self.inprt)
        } else {
            Err(BusError::NoDevice(address))
        }
    }

    fn read_half(&mut self, address: usize, access: AccessCode) -> (r: Result<u16, BusError>)
        ensures
            (final(self)@, r) == old(self)@.read_half(address),
    {
        if address > usize::MAX - 2 {
            return Err(BusError::NoDevice(address));
        }
        match self.read_byte(address + 2, access) {
            Ok(b) => Ok(b as u16),
            Err(e) => Err(e),
        }
    }

    fn read_word(&mut self, address: usize, access: AccessCode) -> (r: Result<u32, BusError>)
        ensures
            (final(self)@, r) == old(self)@.read_word(address),
    {
        if address > usize::MAX - 3 {
            return Err(BusError::NoDevice(address));
        }
        match self.read_byte(address + 3, access) {
            Ok(b) => Ok(b as u32),
            Err(e) => Err(e),
        }
    }

    fn write_byte(&mut self, address: usize, val: u8, access: AccessCode) -> (r: Result<
        (),
        BusError,
    >)
        ensures
            r == Ok::<(), BusError>(()),
            final(self)@ == old(self)@.write_byte(address, val),
    {
        if address < START_ADDR {
            return Ok(());
        }
        let offset: usize = address - START_ADDR;
        let port_no: usize = if offset < 0x20 {
            PORT_0
        } else {
            PORT_1
        };
        if offset == MR12A || offset == MR12B {
            self.ports[port_no].write_mode(val);
            assert(final(self)@.ports =~= old(self)@.write_byte(address, val).ports);
        } else if offset == CSRA || offset == CSRB {
            let acr: u8 = self.acr;
            self.ports[port_no].select_clock(val, acr);
            assert(final(self)@.ports =~= old(self)@.write_byte(address, val).ports);
        } else if offset == CRA || offset == CRB {
            self.handle_command(val, port_no);
        } else if offset == THRA || offset == THRB {
            let tx_ists: u8 = if port_no == PORT_0 {
                ISTS_TAI
            } else {
                ISTS_TBI
            };
            self.ports[port_no].write_thr(val);
            self.isr &= !tx_ists;
            assert(final(self)@.ports =~= old(self)@.write_byte(address, val).ports);
        } else if offset == IPCR_ACR {
            self.acr = val;
        } else if offset == ISR_MASK {
            self.imr = val;
        } else if offset == OPBITS_SET {
            self.outprt |= val;
        } else if offset == OPBITS_RESET {
            self.outprt &= !val;
        }
        Ok(())
    }

    fn write_half(&mut self, address: usize, val: u16, access: AccessCode) -> (r: Result<
        (),
        BusError,
    >)
        ensures
            r == Ok::<(), BusError>(()),
            final(self)@ == old(self)@.write_half(address, val),
    {
        if address > usize::MAX - 2 {
            return Ok(());
        }
        self.write_byte(address + 2, val as u8, access)
    }

    fn write_word(&mut self, address: usize, val: u32, access: AccessCode) -> (r: Result<
        (),
        BusError,
    >)
        ensures
            r == Ok::<(), BusError>(()),
            final(self)@ == old(self)@.write_word(address, val),
    {
        if address > usize::MAX - 3 {
            return Ok(());
        }
        self.write_byte(address + 3, val as u8, access)
    }

    /// Nothing can be loaded into the DUART.
    fn load(&mut self, address: usize, data: &[u8]) -> (r: Result<(), BusError>)
        ensures
            *final(self) == *old(self),
            r == Err::<(), BusError>(BusError::NoDevice(address)),
    {
        Err(BusError::NoDevice(address))
    }
}

} // verus!
