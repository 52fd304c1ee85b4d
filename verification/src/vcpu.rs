//! The configuration the engine gives the partition and its virtual CPUs.
use vstd::prelude::*;
use crate::registers::{reg_write, write_reg64, RegisterName, RegisterValue, RegisterWrite, SegmentRegister};

verus! {

/// Architectural MSR of the instructions-retired counter.
pub const MSR_IA32_FIXED_CTR0: u32 = 0x309;
/// Architectural MSR of the fixed counter control.
pub const MSR_IA32_FIXED_CTR_CTRL: u32 = 0x38D;

/// Number of virtual processors a partition is set up with, for thread
/// interleaving scenarios.
pub const PROCESSOR_COUNT: u32 = 4;
/// The extended VM exits a partition intercepts: CPUID (bit 0), exceptions
/// (bit 2) and RDTSC (bit 3).
pub const INTERCEPTED_EXITS: u64 = 0b1101;

/// The exceptions that exit to the engine: the invalid-opcode exception
/// (vector 6), which a guest SYSCALL raises while system calls are disabled
/// in EFER.
pub const EXCEPTION_EXIT_BITMAP: u64 = 0x40;

/// CR4 in long mode: PAE and OSFXSR.
pub const LONG_MODE_CR4: u64 = 0x0000_0620;
/// EFER in long mode: LME and LMA (system calls left disabled).
pub const LONG_MODE_EFER: u64 = 0x0000_0500;
/// CR0 in long mode: PG, PE and NE.
pub const LONG_MODE_CR0: u64 = 0x8000_0031;
/// RFLAGS with only the reserved bit 1 set.
pub const INITIAL_RFLAGS: u64 = 0x0000_0002;

/// The 64-bit code segment.
pub open spec fn code_segment() -> SegmentRegister {
    SegmentRegister { base: 0, limit: 0xFFFF_FFFF, selector: 0x08, attributes: 0xA09B }
}

/// The 64-bit data segment.
pub open spec fn data_segment() -> SegmentRegister {
    SegmentRegister { base: 0, limit: 0xFFFF_FFFF, selector: 0x10, attributes: 0xC093 }
}

/// The task state segment.
pub open spec fn task_segment() -> SegmentRegister {
    SegmentRegister { base: 0, limit: 0xFFFF, selector: 0x18, attributes: 0x008B }
}

/// The (empty) local descriptor table.
pub open spec fn ldt_segment() -> SegmentRegister {
    SegmentRegister { base: 0, limit: 0, selector: 0, attributes: 0 }
}

/// A write of a segment register.
pub open spec fn seg_write(name: RegisterName, s: SegmentRegister) -> RegisterWrite {
    RegisterWrite { name, value: RegisterValue::Segment(s) }
}

/// The register writes that put a virtual CPU in x86_64 long mode with the
/// page tables at `pml4_gpa`, in the order they are made.
pub open spec fn long_mode_writes(pml4_gpa: u64) -> Seq<RegisterWrite> {
    seq![
        reg_write(RegisterName::Cr3, pml4_gpa),
        reg_write(RegisterName::Cr4, LONG_MODE_CR4),
        reg_write(RegisterName::Efer, LONG_MODE_EFER),
        reg_write(RegisterName::Cr0, LONG_MODE_CR0),
        seg_write(RegisterName::Cs, code_segment()),
        seg_write(RegisterName::Ds, data_segment()),
        seg_write(RegisterName::Es, data_segment()),
        seg_write(RegisterName::Fs, data_segment()),
        seg_write(RegisterName::Gs, data_segment()),
        seg_write(RegisterName::Ss, data_segment()),
        seg_write(RegisterName::Tr, task_segment()),
        seg_write(RegisterName::Ldtr, ldt_segment()),
        reg_write(RegisterName::Rflags, INITIAL_RFLAGS),
    ]
}

/// The register writes that move a virtual CPU into x86_64 long mode: CR3
/// at the PML4, paging and PAE on, flat 64-bit code and data segments.
pub fn setup_long_mode(pml4_gpa: u64) -> (writes: Vec<RegisterWrite>)
    ensures
        writes@ == long_mode_writes(pml4_gpa),
{
    let cs = SegmentRegister { base: 0, limit: 0xFFFF_FFFF, selector: 0x08, attributes: 0xA09B };
    let ds = SegmentRegister { base: 0, limit: 0xFFFF_FFFF, selector: 0x10, attributes: 0xC093 };
    let tr = SegmentRegister { base: 0, limit: 0xFFFF, selector: 0x18, attributes: 0x008B };
    let ldtr = SegmentRegister { base: 0, limit: 0, selector: 0, attributes: 0 };
    let writes = vec![
        write_reg64(RegisterName::Cr3, pml4_gpa),
        write_reg64(RegisterName::Cr4, LONG_MODE_CR4),
        write_reg64(RegisterName::Efer, LONG_MODE_EFER),
        write_reg64(RegisterName::Cr0, LONG_MODE_CR0),
        RegisterWrite { name: RegisterName::Cs, value: RegisterValue::Segment(cs) },
        RegisterWrite { name: RegisterName::Ds, value: RegisterValue::Segment(ds) },
        RegisterWrite { name: RegisterName::Es, value: RegisterValue::Segment(ds) },
        RegisterWrite { name: RegisterName::Fs, value: RegisterValue::Segment(ds) },
        RegisterWrite { name: RegisterName::Gs, value: RegisterValue::Segment(ds) },
        RegisterWrite { name: RegisterName::Ss, value: RegisterValue::Segment(ds) },
        RegisterWrite { name: RegisterName::Tr, value: RegisterValue::Segment(tr) },
        RegisterWrite { name: RegisterName::Ldtr, value: RegisterValue::Segment(ldtr) },
        write_reg64(RegisterName::Rflags, INITIAL_RFLAGS),
    ];
    assert(writes@ =~= long_mode_writes(pml4_gpa));
    writes
}

} // verus!
