use m48_robo_rust::mmio::bitopts::{Field, FieldValue};
use m48_robo_rust::mmio::registers::{
    Aliased, InMemoryRegister, LocalRegisterCopy, ReadOnly, ReadWrite, WriteOnly,
};

#[test]
fn read_write_get_set() {
    let mut reg = ReadWrite::<u8, ()>::new(0);
    assert_eq!(reg.get(), 0);
    reg.set(0xa5);
    assert_eq!(reg.get(), 0xa5);
}

#[test]
fn write_is_destructive() {
    let fv = FieldValue::<u8, ()>::new(0b11, 4, 0b10);
    for prior in [0x00u8, 0xff, 0xa5, 0x28] {
        let mut reg = ReadWrite::<u8, ()>::new(prior);
        reg.write(fv);
        assert_eq!(reg.get(), fv.value);
    }
}

#[test]
fn modify_keeps_other_fields() {
    let fv = FieldValue::<u8, ()>::new(0b11, 4, 0b10);
    let mut reg = ReadWrite::<u8, ()>::new(0b1000_0001);
    reg.modify(fv);
    assert_eq!(reg.get(), 0b1010_0001);
}

#[test]
fn modify_no_read_uses_snapshot() {
    let fv = FieldValue::<u8, ()>::new(0b11, 4, 0b01);
    let mut reg = ReadWrite::<u8, ()>::new(0);
    let snapshot = LocalRegisterCopy::<u8, ()>::new(0b1000_0001);
    reg.modify_no_read(snapshot, fv);
    assert_eq!(reg.get(), 0b1001_0001);
}

#[test]
fn read_write_field_queries() {
    let field = Field::<u8, ()>::new(0b11, 4);
    let fv = field.val(0b10);
    let reg = ReadWrite::<u8, ()>::new(0b0010_0001);
    assert_eq!(reg.read(field), 0b10);
    assert!(reg.is_set(field));
    assert!(reg.matches_any(fv));
    assert!(reg.matches_all(fv));
}

#[test]
fn extract_snapshots_current_value() {
    let reg = ReadWrite::<u8, ()>::new(0x5a);
    let copy = reg.extract();
    assert_eq!(copy.get(), 0x5a);
}

#[test]
fn snapshot_answers_like_live_register() {
    let field = Field::<u8, ()>::new(0b111, 2);
    let fv = field.val(0b101);
    for value in 0u8..=255 {
        let reg = ReadWrite::<u8, ()>::new(value);
        let copy = reg.extract();
        assert_eq!(copy.get(), reg.get());
        assert_eq!(copy.read(field), reg.read(field));
        assert_eq!(copy.is_set(field), reg.is_set(field));
        assert_eq!(copy.matches_any(fv), reg.matches_any(fv));
        assert_eq!(copy.matches_all(fv), reg.matches_all(fv));
    }
}

#[test]
fn local_copy_queries() {
    let field = Field::<u8, ()>::new(0b11, 4);
    let fv = field.val(0b10);
    let copy = LocalRegisterCopy::<u8, ()>::new(0b0010_0001);
    assert_eq!(copy.get(), 0b0010_0001);
    assert_eq!(copy.read(field), 0b10);
    assert!(copy.is_set(field));
    assert!(copy.matches_any(fv));
    assert!(copy.matches_all(fv));
}

#[test]
fn local_copy_bitand() {
    let copy = LocalRegisterCopy::<u8, ()>::new(0b1010_1010);
    let masked = copy.bitand(0b1100_1100);
    assert_eq!(masked.get(), 0b1000_1000);
}

#[test]
fn read_only_queries() {
    let field = Field::<u8, ()>::new(0b11, 4);
    let fv = field.val(0b10);
    let reg = ReadOnly::<u8, ()>::new(0b0010_0001);
    assert_eq!(reg.get(), 0b0010_0001);
    assert_eq!(reg.read(field), 0b10);
    assert!(reg.is_set(field));
    assert!(reg.matches_any(fv));
    assert!(reg.matches_all(fv));
    assert_eq!(reg.extract().get(), 0b0010_0001);
}

#[test]
fn write_only_write_is_destructive() {
    let fv = FieldValue::<u8, ()>::new(0b11, 4, 0b10);
    let mut reg = WriteOnly::<u8, ()>::new(0xff);
    reg.write(fv);
    reg.set(0x11);
    reg.write(fv);
}

#[test]
fn aliased_read_and_write_sides() {
    let field = Field::<u8, ()>::new(0b11, 4);
    let fv = FieldValue::<u8, ()>::new(0b1, 0, 1);
    let mut reg = Aliased::<u8, (), ()>::new(0b0010_0000);
    assert_eq!(reg.read(field), 0b10);
    assert!(reg.is_set(field));
    reg.write(fv);
    assert_eq!(reg.get(), 1);
    assert_eq!(reg.extract().get(), 1);
    assert!(reg.matches_any(fv));
    assert!(reg.matches_all(fv));
}

#[test]
fn in_memory_register_full_surface() {
    let field = Field::<u8, ()>::new(0b11, 4);
    let fv = field.val(0b10);
    let mut reg = InMemoryRegister::<u8, ()>::new(0b1000_0001);
    assert_eq!(reg.get(), 0b1000_0001);
    reg.modify(fv);
    assert_eq!(reg.get(), 0b1010_0001);
    assert_eq!(reg.read(field), 0b10);
    assert!(reg.is_set(field));
    assert!(reg.matches_any(fv));
    assert!(reg.matches_all(fv));
    let snapshot = reg.extract();
    reg.write(fv);
    assert_eq!(reg.get(), fv.value);
    reg.modify_no_read(snapshot, field.val(0b01));
    assert_eq!(reg.get(), 0b1001_0001);
    reg.set(0);
    assert_eq!(reg.get(), 0);
}

#[test]
fn wider_words_round_trip_through_registers() {
    let wide16 = Field::<u16, ()>::new(0xff, 8);
    let mut r16 = ReadWrite::<u16, ()>::new(0x1234);
    r16.modify(wide16.val(0xab));
    assert_eq!(r16.get(), 0xab34);

    let wide32 = Field::<u32, ()>::new(0xffff, 16);
    let mut r32 = InMemoryRegister::<u32, ()>::new(0xdead_beef);
    r32.modify(wide32.val(0x1234));
    assert_eq!(r32.get(), 0x1234_beef);

    let wide64 = Field::<u64, ()>::new(0xff, 56);
    let mut r64 = ReadWrite::<u64, ()>::new(0);
    r64.write(wide64.val(0x5a));
    assert_eq!(r64.get(), 0x5a00_0000_0000_0000);
}
