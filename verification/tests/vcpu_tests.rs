use vestigium::registers::{RegisterName, RegisterValue, SegmentRegister};
use vestigium::vcpu::{setup_long_mode, INTERCEPTED_EXITS};

#[test]
fn long_mode_register_values() {
    let writes = setup_long_mode(0x200000);
    assert_eq!(writes.len(), 13);
    assert_eq!(writes[0].name, RegisterName::Cr3);
    assert_eq!(writes[0].value, RegisterValue::Reg64(0x200000));
    assert_eq!(writes[1].value, RegisterValue::Reg64(0x620));
    assert_eq!(writes[2].value, RegisterValue::Reg64(0x500));
    assert_eq!(writes[3].value, RegisterValue::Reg64(0x80000031));
    assert_eq!(
        writes[4].value,
        RegisterValue::Segment(SegmentRegister {
            base: 0,
            limit: 0xFFFFFFFF,
            selector: 0x08,
            attributes: 0xA09B
        })
    );
    for i in 5..10 {
        assert_eq!(
            writes[i].value,
            RegisterValue::Segment(SegmentRegister {
                base: 0,
                limit: 0xFFFFFFFF,
                selector: 0x10,
                attributes: 0xC093
            })
        );
    }
    assert_eq!(writes[10].name, RegisterName::Tr);
    assert_eq!(writes[11].name, RegisterName::Ldtr);
    assert_eq!(writes[12].name, RegisterName::Rflags);
    assert_eq!(writes[12].value, RegisterValue::Reg64(2));
}

#[test]
fn intercepted_exit_bits() {
    assert_eq!(INTERCEPTED_EXITS, (1 << 0) | (1 << 2) | (1 << 3));
}
