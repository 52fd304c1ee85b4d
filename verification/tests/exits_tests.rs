use vestigium::layout::{GuestLayout, IMAGE_BASE_GPA, STACK_SIZE};
use vestigium::exits::{instruction_length, RawExit, VmExit};
use vestigium::registers::{advance_rip, RegisterValue, SegmentRegister};

fn raw(reason: i32) -> RawExit {
    RawExit {
        reason,
        vp_bitfield: 0x32,
        instruction_count: 77,
        gpa: 0xABC000,
        thread_register: 9,
        exception_type: 6,
        opcode0: 0x0F,
        opcode1: 0x05,
    }
}

#[test]
fn decode_exit_reasons() {
    assert_eq!(VmExit::from_raw(&raw(1)), VmExit::MemoryAccess { gpa: 0xABC000 });
    assert_eq!(VmExit::from_raw(&raw(8)), VmExit::Halt);
    assert_eq!(
        VmExit::from_raw(&raw(4)),
        VmExit::Callout { thread_register: 9, instruction_count: 77 }
    );
    assert_eq!(
        VmExit::from_raw(&raw(4097)),
        VmExit::Cpuid { instruction_length: 2, instruction_count: 77 }
    );
    let mut r = raw(4099);
    r.vp_bitfield = 0xF2;
    assert_eq!(VmExit::from_raw(&r), VmExit::Rdtsc { instruction_length: 2, instruction_count: 77 });
    assert_eq!(VmExit::from_raw(&raw(4098)), VmExit::Syscall { instruction_count: 77 });
    assert_eq!(VmExit::from_raw(&raw(2)), VmExit::Unhandled { reason: 2 });
    assert_eq!(VmExit::from_raw(&raw(-1)), VmExit::Unhandled { reason: -1 });
}

#[test]
fn other_exceptions_are_unhandled() {
    let mut r = raw(4098);
    r.exception_type = 13;
    assert_eq!(VmExit::from_raw(&r), VmExit::Unhandled { reason: 4098 });
    let mut r = raw(4098);
    r.opcode1 = 0x0B;
    assert_eq!(VmExit::from_raw(&r), VmExit::Unhandled { reason: 4098 });
}

#[test]
fn instruction_length_is_low_nibble() {
    assert_eq!(instruction_length(0x00), 0);
    assert_eq!(instruction_length(0xA3), 3);
    assert_eq!(instruction_length(0xFF), 15);
}

#[test]
fn rip_advances_by_length() {
    assert_eq!(advance_rip(0x1000, 2), 0x1002);
    assert_eq!(advance_rip(u64::MAX - 3, 3), u64::MAX);
}

#[test]
fn reg64_is_low_half() {
    assert_eq!(RegisterValue::Reg64(5).reg64(), 5);
    assert_eq!(RegisterValue::Raw { low: 6, high: 7 }.reg64(), 6);
    let s = SegmentRegister { base: 0x10, limit: 1, selector: 2, attributes: 3 };
    assert_eq!(RegisterValue::Segment(s).reg64(), 0x10);
}

#[test]
fn guest_layout_places_stack_after_image() {
    let l = GuestLayout::new(0x3000, 0x1000);
    assert_eq!(l.image_gpa, IMAGE_BASE_GPA);
    assert_eq!(l.stack_base_gpa, 0x103000);
    assert_eq!(l.stack_top_gpa, 0x103000 + STACK_SIZE);
    assert_eq!(l.entry_gpa, 0x101000);
    let l = GuestLayout::new(0x3001, 0);
    assert_eq!(l.stack_base_gpa, 0x104000);
    let l = GuestLayout::new(0, 0);
    assert_eq!(l.stack_base_gpa, IMAGE_BASE_GPA);
}
