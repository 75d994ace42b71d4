use dmd_core::device::{AccessCode, Device};
use dmd_core::duart::{delay_rate, Duart};
use dmd_core::duart_model::{
    CRA, CRB, CSRA, CSRB, IPCR_ACR, IP_OPCR, ISR_MASK, MR12A, MR12B, OPBITS_RESET, OPBITS_SET,
    RHRA, RHRB, START_ADDR, STS_FFL, STS_OER, STS_PER, STS_RXB, STS_RXR, STS_TXE, STS_TXR, THRA,
    THRB,
};
use dmd_core::err::BusError;

fn write(duart: &mut Duart, offset: usize, val: u8) {
    assert_eq!(Ok(()), duart.write_byte(START_ADDR + offset, val, AccessCode::Write));
}

fn read(duart: &mut Duart, offset: usize) -> u8 {
    duart.read_byte(START_ADDR + offset, AccessCode::AddressFetch).unwrap()
}

/// A DUART whose RS-232 port is looped back, with transmitter and
/// receiver enabled.
fn looped_back() -> Duart {
    let mut duart = Duart::new();
    write(&mut duart, MR12A, 0x00);
    write(&mut duart, MR12A, 0x80);
    write(&mut duart, CRA, 0x05);
    duart
}

#[test]
fn loopback_returns_what_was_sent() {
    let mut duart = looped_back();
    write(&mut duart, THRA, 0x41);
    assert_eq!(0, read(&mut duart, CSRA) & (STS_TXR | STS_TXE));
    // The first tick moves the character into the shift register, the
    // second one, a character delay later, delivers it.
    duart.service_at(0);
    assert_eq!(0, read(&mut duart, CSRA) & STS_RXR);
    duart.service_at(1_000_000);
    assert_eq!(STS_RXR, read(&mut duart, CSRA) & STS_RXR);
    assert_eq!(0x41, read(&mut duart, RHRA));
    assert_eq!(0, read(&mut duart, CSRA) & STS_RXR);
    // Nothing went out to the host.
    assert_eq!(None, duart.rs232_tx());
}

#[test]
fn loopback_waits_for_the_character_delay() {
    let mut duart = looped_back();
    write(&mut duart, THRA, 0x41);
    duart.service_at(10);
    duart.service_at(1_000_009);
    assert_eq!(0, read(&mut duart, CSRA) & STS_RXR);
    assert_eq!(0, read(&mut duart, RHRA));
    duart.service_at(1_000_010);
    assert_eq!(0x41, read(&mut duart, RHRA));
}

#[test]
fn fifo_holds_three_characters_and_one_more_in_the_shift_register() {
    let mut duart = Duart::new();
    write(&mut duart, CRA, 0x01);
    for c in [b'a', b'b', b'c', b'd'] {
        duart.rs232_rx(c);
    }
    duart.service_at(0);
    assert_eq!(STS_RXR, read(&mut duart, CSRA) & (STS_RXR | STS_FFL));
    duart.service_at(1_000_000);
    assert_eq!(STS_RXR, read(&mut duart, CSRA) & (STS_RXR | STS_FFL));
    duart.service_at(2_000_000);
    assert_eq!(STS_RXR | STS_FFL, read(&mut duart, CSRA) & (STS_RXR | STS_FFL));
    duart.service_at(3_000_000);
    assert_eq!(0, read(&mut duart, CSRA) & STS_OER);
    assert_eq!(b'a', read(&mut duart, RHRA));
    assert_eq!(b'b', read(&mut duart, RHRA));
    assert_eq!(b'c', read(&mut duart, RHRA));
    assert_eq!(STS_RXR, read(&mut duart, CSRA) & STS_RXR);
    assert_eq!(b'd', read(&mut duart, RHRA));
    // The receiver is empty again.
    assert_eq!(0, read(&mut duart, CSRA) & (STS_RXR | STS_FFL));
    assert_eq!(0, read(&mut duart, RHRA));
}

#[test]
fn fifth_character_overruns() {
    let mut duart = Duart::new();
    write(&mut duart, CRA, 0x01);
    for c in [1u8, 2, 3, 4, 5] {
        duart.rs232_rx(c);
    }
    for tick in 0..5u64 {
        duart.service_at(tick * 1_000_000);
    }
    assert_eq!(STS_OER, read(&mut duart, CSRA) & STS_OER);
    assert_eq!(1, read(&mut duart, RHRA));
    // An error reset clears the overrun.
    write(&mut duart, CRA, 0x40);
    assert_eq!(0, read(&mut duart, CSRA) & STS_OER);
}

#[test]
fn receiver_must_be_enabled() {
    let mut duart = Duart::new();
    duart.rs232_rx(7);
    duart.service_at(0);
    assert_eq!(0, read(&mut duart, CSRA));
    assert_eq!(0, read(&mut duart, RHRA));
    write(&mut duart, CRA, 0x01);
    duart.service_at(0);
    assert_eq!(7, read(&mut duart, RHRA));
    // Disable wins over enable.
    write(&mut duart, CRA, 0x03);
    duart.rs232_rx(8);
    duart.service_at(5_000_000);
    assert_eq!(0, read(&mut duart, RHRA));
}

#[test]
fn transmitted_characters_reach_the_host() {
    let mut duart = Duart::new();
    write(&mut duart, CRA, 0x04);
    assert_eq!(STS_TXR | STS_TXE, read(&mut duart, CSRA));
    write(&mut duart, THRA, b'x');
    assert_eq!(0, read(&mut duart, CSRA));
    duart.service_at(0);
    assert_eq!(None, duart.rs232_tx());
    duart.service_at(1_000_000);
    assert_eq!(STS_TXR | STS_TXE, read(&mut duart, CSRA));
    assert_eq!(Some(b'x'), duart.rs232_tx());
    assert_eq!(None, duart.rs232_tx());
}

#[test]
fn host_takes_transmitted_characters_in_order() {
    let mut duart = Duart::new();
    write(&mut duart, CRA, 0x04);
    let mut now: u64 = 0;
    for c in [b'o', b'n', b'e'] {
        write(&mut duart, THRA, c);
        duart.service_at(now);
        now += 1_000_000;
        duart.service_at(now);
    }
    assert_eq!(Some(b'o'), duart.rs232_tx());
    assert_eq!(Some(b'n'), duart.rs232_tx());
    assert_eq!(Some(b'e'), duart.rs232_tx());
}

#[test]
fn keyboard_port_forwards_only_characters_with_bit_three() {
    let mut duart = Duart::new();
    write(&mut duart, CRB, 0x04);
    write(&mut duart, THRB, 0x08);
    duart.service_at(0);
    duart.service_at(1_000_000);
    assert_eq!(Some(0x08), duart.keyboard_tx());
    write(&mut duart, THRB, 0x02);
    duart.service_at(2_000_000);
    duart.service_at(3_000_000);
    assert_eq!(None, duart.keyboard_tx());
    assert_eq!(STS_PER, read(&mut duart, CSRB) & STS_PER);
    // The RS-232 port forwards everything.
    write(&mut duart, CRA, 0x04);
    write(&mut duart, THRA, 0x02);
    duart.service_at(4_000_000);
    duart.service_at(5_000_000);
    assert_eq!(Some(0x02), duart.rs232_tx());
}

#[test]
fn keyboard_characters_are_received() {
    let mut duart = Duart::new();
    write(&mut duart, CRB, 0x01);
    duart.keyboard_rx(0x2a);
    duart.service_at(0);
    assert_eq!(Some(0x04), duart.get_interrupt_at(0));
    assert_eq!(0x20, read(&mut duart, ISR_MASK) & 0x20);
    assert_eq!(0x2a, read(&mut duart, RHRB));
}

#[test]
fn mode_registers_alternate() {
    let mut duart = Duart::new();
    write(&mut duart, MR12B, 0x13);
    write(&mut duart, MR12B, 0x27);
    assert_eq!(0x13, read(&mut duart, MR12B));
    assert_eq!(0x27, read(&mut duart, MR12B));
    assert_eq!(0x13, read(&mut duart, MR12B));
    // The command resets the pointer.
    write(&mut duart, CRB, 0x10);
    assert_eq!(0x13, read(&mut duart, MR12B));
}

#[test]
fn mouse_button_shows_in_the_input_port_change_register() {
    let mut duart = Duart::new();
    duart.mouse_down(0);
    assert_eq!(Some(0x02), duart.get_interrupt_at(0));
    assert_eq!(0x03, read(&mut duart, IP_OPCR));
    assert_eq!(0x80, read(&mut duart, ISR_MASK) & 0x80);
    assert_eq!(0x80, read(&mut duart, IPCR_ACR));
    // The read clears the low nibble, the change interrupt and the
    // pending vector; the change bit itself stays.
    assert_eq!(0x80, read(&mut duart, IPCR_ACR));
    assert_eq!(0, read(&mut duart, ISR_MASK) & 0x80);
    assert_eq!(None, duart.get_interrupt_at(0));
    duart.mouse_up(0);
    assert_eq!(0x0b, read(&mut duart, IP_OPCR));
    assert_eq!(0x80, read(&mut duart, IPCR_ACR));
    duart.mouse_down(1);
    assert_eq!(0x20, read(&mut duart, IPCR_ACR));
    assert_eq!(0x09, read(&mut duart, IP_OPCR));
    duart.mouse_down(2);
    assert_eq!(0x10, read(&mut duart, IPCR_ACR));
    assert_eq!(0x0a, read(&mut duart, IP_OPCR));
    duart.mouse_down(9);
    assert_eq!(0x00, read(&mut duart, IPCR_ACR));
}

#[test]
fn vertical_blank_comes_at_sixty_hertz() {
    let mut duart = Duart::new();
    assert_eq!(None, duart.get_interrupt_at(16_666_666));
    assert_eq!(Some(0x02), duart.get_interrupt_at(16_666_667));
    assert_eq!(0x40, read(&mut duart, IPCR_ACR));
    assert_eq!(None, duart.get_interrupt_at(33_333_333));
    assert_eq!(Some(0x02), duart.get_interrupt_at(33_333_334));
}

#[test]
fn output_port_reads_complemented() {
    let mut duart = Duart::new();
    assert_eq!(0xff, duart.output_port());
    write(&mut duart, OPBITS_SET, 0x0f);
    assert_eq!(0xf0, duart.output_port());
    write(&mut duart, OPBITS_RESET, 0x03);
    assert_eq!(0xf3, duart.output_port());
}

#[test]
fn clock_select_sets_the_character_delay() {
    assert_eq!(200_000_000, delay_rate(0x00, 0x00));
    assert_eq!(1_041_666, delay_rate(0xb0, 0x00));
    assert_eq!(260_416, delay_rate(0xc0, 0x00));
    assert_eq!(142_857_142, delay_rate(0x00, 0x80));
    assert_eq!(520_833, delay_rate(0xc0, 0x80));

    let mut duart = looped_back();
    // 9600 baud: a character takes 1041666 ns.
    write(&mut duart, CSRA, 0xbb);
    write(&mut duart, THRA, 0x55);
    duart.service_at(0);
    duart.service_at(1_041_665);
    assert_eq!(0, read(&mut duart, CSRA) & STS_RXR);
    duart.service_at(1_041_666);
    assert_eq!(0x55, read(&mut duart, RHRA));
    // A value that picks no rate changes nothing.
    write(&mut duart, CSRA, 0xf0);
    write(&mut duart, THRA, 0x56);
    duart.service_at(2_000_000);
    duart.service_at(3_041_666);
    assert_eq!(0x56, read(&mut duart, RHRA));
}

#[test]
fn break_in_loopback() {
    let mut duart = looped_back();
    write(&mut duart, CRA, 0x60);
    assert_eq!(STS_RXB | STS_PER, read(&mut duart, CSRA) & (STS_RXB | STS_PER));
    assert_eq!(0x04, read(&mut duart, ISR_MASK) & 0x04);
    write(&mut duart, CRA, 0x50);
    assert_eq!(0, read(&mut duart, ISR_MASK) & 0x04);
    write(&mut duart, CRA, 0x70);
    assert_eq!(0x04, read(&mut duart, ISR_MASK) & 0x04);
}

#[test]
fn resets_of_receiver_and_transmitter() {
    let mut duart = Duart::new();
    write(&mut duart, CRA, 0x05);
    duart.rs232_rx(1);
    duart.service_at(0);
    write(&mut duart, THRA, 9);
    write(&mut duart, CRA, 0x20);
    assert_eq!(0, read(&mut duart, CSRA) & STS_RXR);
    assert_eq!(0, read(&mut duart, RHRA));
    write(&mut duart, CRA, 0x30);
    duart.service_at(5_000_000);
    duart.service_at(9_000_000);
    assert_eq!(None, duart.rs232_tx());
    // A transmitter that is disabled shows neither ready nor empty.
    write(&mut duart, CRA, 0x08);
    assert_eq!(0, read(&mut duart, CSRA) & (STS_TXR | STS_TXE));
}

#[test]
fn half_and_word_accesses_reach_the_byte_registers() {
    let mut duart = Duart::new();
    assert_eq!(Ok(()), duart.write_half(START_ADDR + MR12A - 2, 0x1234, AccessCode::Write));
    assert_eq!(Ok(()), duart.write_word(START_ADDR + MR12A - 3, 0x12345678, AccessCode::Write));
    assert_eq!(Ok(0x34), duart.read_half(START_ADDR + MR12A - 2, AccessCode::AddressFetch));
    assert_eq!(Ok(0x78), duart.read_word(START_ADDR + MR12A - 3, AccessCode::AddressFetch));
}

#[test]
fn registers_that_do_not_exist() {
    let mut duart = Duart::new();
    assert_eq!(
        Err(BusError::NoDevice(START_ADDR)),
        duart.read_byte(START_ADDR, AccessCode::AddressFetch)
    );
    assert_eq!(
        Err(BusError::NoDevice(START_ADDR + CRA)),
        duart.read_byte(START_ADDR + CRA, AccessCode::AddressFetch)
    );
    assert_eq!(Ok(()), duart.write_byte(START_ADDR, 1, AccessCode::Write));
    assert_eq!(Err(BusError::NoDevice(START_ADDR)), duart.load(START_ADDR, &[1]));
    assert_eq!("ACIA", duart.name());
    assert!(!duart.is_read_only());
    assert_eq!(0x200000..0x200040, duart.address_range());
}

#[test]
fn service_by_the_clock_moves_the_ports() {
    let mut duart = Duart::new();
    write(&mut duart, CRA, 0x01);
    duart.rs232_rx(0x31);
    duart.service();
    let _ = duart.get_interrupt();
    assert_eq!(STS_RXR, read(&mut duart, CSRA) & STS_RXR);
    assert_eq!(0x31, read(&mut duart, RHRA));
    let later = duart.now();
    assert!(duart.now() >= later);
}

#[test]
fn receive_fifo_survives_many_characters() {
    let mut duart = Duart::new();
    write(&mut duart, CRA, 0x01);
    let mut now: u64 = 0;
    for round in 0..2000u32 {
        let c = (round % 251) as u8;
        duart.rs232_rx(c);
        duart.service_at(now);
        now += 1_000_000;
        assert_eq!(c, read(&mut duart, RHRA));
    }
}
