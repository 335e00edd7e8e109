use m48_robo_rust::dev::{ddrb, portb, GpioBRegisters, PINB};
use m48_robo_rust::mmio::bitopts::Field;
use m48_robo_rust::mmio::registers::{ReadOnly, ReadWrite};

// An 8-bit register with field FLAG at bit 3 (width 1) and field MODE at
// bits 4-5 (width 2).
fn flag() -> Field<u8, ()> {
    Field::new(0b1, 3)
}

fn mode() -> Field<u8, ()> {
    Field::new(0b11, 4)
}

#[test]
fn scenario_write_forces_other_bits_to_zero() {
    let fragment = flag().val(1).combine(mode().val(0b10));
    for prior in [0x00u8, 0xff, 0xa5, 0x13] {
        let mut reg = ReadWrite::<u8, ()>::new(prior);
        reg.write(fragment);
        assert_eq!(reg.get(), 0b0010_1000);
    }
}

#[test]
fn scenario_modify_keeps_bits_outside_both_fields() {
    let fragment = flag().val(1).combine(mode().val(0b10));
    let mut reg = ReadWrite::<u8, ()>::new(0xff);
    reg.modify(fragment);
    // Bits 0-2 and 6-7 unchanged (still 1), bit 3 set to 1, bits 4-5 set
    // to 10.
    assert_eq!(reg.get(), 0b1110_1111);
    assert_eq!(reg.read(flag()), 1);
    assert_eq!(reg.read(mode()), 0b10);
}

#[test]
fn scenario_modify_from_zero_sets_only_both_fields() {
    let fragment = flag().val(1).combine(mode().val(0b10));
    let mut reg = ReadWrite::<u8, ()>::new(0);
    reg.modify(fragment);
    assert_eq!(reg.get(), 0b0010_1000);
}

#[test]
fn gpio_block_drives_pin_b0() {
    let mut gpio = GpioBRegisters {
        pinb: ReadOnly::<u8, PINB>::new(0),
        ddrb: ReadWrite::new(0),
        portb: ReadWrite::new(0),
    };
    gpio.ddrb.modify(ddrb::ddb0_set());
    assert_eq!(gpio.ddrb.get(), 0b1);
    gpio.portb.modify(portb::portb0_set());
    assert_eq!(gpio.portb.get(), 0b1);
    gpio.portb.modify(portb::portb0_clear());
    assert_eq!(gpio.portb.get(), 0b0);
    gpio.ddrb.modify(ddrb::ddb0_clear());
    assert_eq!(gpio.ddrb.get(), 0b0);
    assert_eq!(gpio.pinb.get(), 0);
}

#[test]
fn gpio_fragments_are_bit_zero() {
    assert_eq!(ddrb::ddb0_set().mask(), 1);
    assert_eq!(ddrb::ddb0_set().value, 1);
    assert_eq!(ddrb::ddb0_clear().value, 0);
    assert_eq!(portb::portb0_set().value, 1);
    assert_eq!(portb::portb0_clear().value, 0);
}
