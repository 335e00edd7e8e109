use m48_robo_rust::mmio::bitopts::Field;
use m48_robo_rust::mmio::registers::{LocalRegisterCopy, ReadWrite};
use m48_robo_rust::mmio::TryFromValue;

#[derive(Debug, PartialEq, Eq, Clone, Copy)]
enum Mode {
    Idle,
    Running,
    Fault,
}

impl TryFromValue<u8> for Mode {
    type EnumType = Mode;

    fn try_from(v: u8) -> Option<Mode> {
        match v {
            0 => Some(Mode::Idle),
            1 => Some(Mode::Running),
            2 => Some(Mode::Fault),
            _ => None,
        }
    }
}

#[test]
fn read_as_enum_decodes_known_values() {
    let field = Field::<u8, ()>::new(0b11, 4);
    assert_eq!(field.read_as_enum::<Mode>(0b0000_0000), Some(Mode::Idle));
    assert_eq!(field.read_as_enum::<Mode>(0b0001_0000), Some(Mode::Running));
    assert_eq!(field.read_as_enum::<Mode>(0b0010_1001), Some(Mode::Fault));
}

#[test]
fn read_as_enum_miss_is_none() {
    let field = Field::<u8, ()>::new(0b11, 4);
    // The raw field value 0b11 has no enumerated member.
    assert_eq!(field.read_as_enum::<Mode>(0b0011_0000), None);
}

#[test]
fn register_read_as_enum() {
    let field = Field::<u8, ()>::new(0b11, 4);
    let reg = ReadWrite::<u8, ()>::new(0b0001_0000);
    assert_eq!(reg.read_as_enum::<Mode>(field), Some(Mode::Running));
    let copy = LocalRegisterCopy::<u8, ()>::new(0b0011_0000);
    assert_eq!(copy.read_as_enum::<Mode>(field), None);
}
