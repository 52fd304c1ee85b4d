//! Classification of the exits of the virtual CPU.
use vstd::prelude::*;

verus! {

/// Exit reason code: an access to unmapped guest memory.
pub const EXIT_MEMORY_ACCESS: i32 = 1;
/// Exit reason code: a VMCALL, used by the guest for cooperative thread switches.
pub const EXIT_CALLOUT: i32 = 4;
/// Exit reason code: the guest halted.
pub const EXIT_HALT: i32 = 8;
/// Exit reason code: the guest executed CPUID.
pub const EXIT_CPUID: i32 = 4097;
/// Exit reason code: the guest raised an intercepted exception.
pub const EXIT_EXCEPTION: i32 = 4098;
/// Exit reason code: the guest executed RDTSC.
pub const EXIT_RDTSC: i32 = 4099;

/// Vector of the invalid-opcode exception (#UD). With system calls disabled
/// in EFER, a guest SYSCALL raises it, which is how system calls reach the engine.
pub const INVALID_OPCODE_VECTOR: u8 = 6;
/// First opcode byte of SYSCALL.
pub const SYSCALL_OPCODE_0: u8 = 0x0F;
/// Second opcode byte of SYSCALL.
pub const SYSCALL_OPCODE_1: u8 = 0x05;

/// Length in bytes of the VMCALL instruction.
pub const VMCALL_LENGTH: u8 = 3;
/// Length in bytes of the SYSCALL instruction.
pub const SYSCALL_LENGTH: u8 = 2;

/// What the hypervisor reports of an exit, and the values read from the
/// virtual CPU at it.
#[derive(Clone, Copy, Debug, PartialEq, Eq, Structural)]
pub struct RawExit {
    /// The exit reason code.
    pub reason: i32,
    /// The byte of the exit context whose low four bits hold the instruction length.
    pub vp_bitfield: u8,
    /// The number of guest instructions retired before the exit, as the
    /// performance counter reports it.
    pub instruction_count: u64,
    /// For a memory-access exit, the guest physical address accessed.
    pub gpa: u64,
    /// For a VMCALL, the value of RCX.
    pub thread_register: u64,
    /// For an exception exit, the exception vector.
    pub exception_type: u8,
    /// For an exception exit, the first byte of the faulting instruction.
    pub opcode0: u8,
    /// For an exception exit, the second byte of the faulting instruction.
    pub opcode1: u8,
}

/// An exit of the virtual CPU, with the values the engine needs to handle it.
/// The exits the engine intercepts carry the retired-instruction count at
/// which they happened.
#[derive(Clone, Copy, Debug, PartialEq, Eq, Structural)]
pub enum VmExit {
    /// Access to unmapped guest physical memory at `gpa`.
    MemoryAccess { gpa: u64 },
    /// The guest halted.
    Halt,
    /// A VMCALL; `thread_register` is the value of RCX at the exit.
    Callout { thread_register: u64, instruction_count: u64 },
    /// CPUID, with the length of the instruction.
    Cpuid { instruction_length: u8, instruction_count: u64 },
    /// RDTSC, with the length of the instruction.
    Rdtsc { instruction_length: u8, instruction_count: u64 },
    /// A system call made with SYSCALL.
    Syscall { instruction_count: u64 },
    /// Any other exit reason.
    Unhandled { reason: i32 },
}

/// Whether an exception exit is a guest SYSCALL.
pub open spec fn is_syscall_exit(raw: RawExit) -> bool {
    &&& raw.reason == EXIT_EXCEPTION
    &&& raw.exception_type == INVALID_OPCODE_VECTOR
    &&& raw.opcode0 == SYSCALL_OPCODE_0
    &&& raw.opcode1 == SYSCALL_OPCODE_1
}

/// The exit described by a raw exit.
pub open spec fn spec_exit_from_raw(raw: RawExit) -> VmExit {
    let count = raw.instruction_count;
    if raw.reason == EXIT_MEMORY_ACCESS {
        VmExit::MemoryAccess { gpa: raw.gpa }
    } else if raw.reason == EXIT_HALT {
        VmExit::Halt
    } else if raw.reason == EXIT_CALLOUT {
        VmExit::Callout { thread_register: raw.thread_register, instruction_count: count }
    } else if raw.reason == EXIT_CPUID {
        VmExit::Cpuid { instruction_length: (raw.vp_bitfield % 16) as u8, instruction_count: count }
    } else if raw.reason == EXIT_RDTSC {
        VmExit::Rdtsc { instruction_length: (raw.vp_bitfield % 16) as u8, instruction_count: count }
    } else if is_syscall_exit(raw) {
        VmExit::Syscall { instruction_count: count }
    } else {
        VmExit::Unhandled { reason: raw.reason }
    }
}

/// The instruction length stored in the low four bits of the exit context.
pub fn instruction_length(vp_bitfield: u8) -> (len: u8)
    ensures
        len == vp_bitfield % 16,
{
    let len = vp_bitfield & 0x0F;
    assert(vp_bitfield & 0x0F == vp_bitfield % 16) by (bit_vector);
    len
}

impl VmExit {
    /// Decodes a raw exit of the virtual CPU.
    pub fn from_raw(raw: &RawExit) -> (exit: VmExit)
        ensures
            exit == spec_exit_from_raw(*raw),
    {
        let count = raw.instruction_count;
        if raw.reason == EXIT_MEMORY_ACCESS {
            VmExit::MemoryAccess { gpa: raw.gpa }
        } else if raw.reason == EXIT_HALT {
            VmExit::Halt
        } else if raw.reason == EXIT_CALLOUT {
            VmExit::Callout { thread_register: raw.thread_register, instruction_count: count }
        } else if raw.reason == EXIT_CPUID {
            VmExit::Cpuid {
                instruction_length: instruction_length(raw.vp_bitfield),
                instruction_count: count,
            }
        } else if raw.reason == EXIT_RDTSC {
            VmExit::Rdtsc {
                instruction_length: instruction_length(raw.vp_bitfield),
                instruction_count: count,
            }
        } else if raw.reason == EXIT_EXCEPTION && raw.exception_type == INVALID_OPCODE_VECTOR
            && raw.opcode0 == SYSCALL_OPCODE_0 && raw.opcode1
            == SYSCALL_OPCODE_1 {
            VmExit::Syscall { instruction_count: count }
        } else {
            VmExit::Unhandled { reason: raw.reason }
        }
    }
}

} // verus!
