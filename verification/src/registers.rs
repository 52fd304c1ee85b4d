//! Architectural registers of the virtual CPU, as plain values.
use vstd::prelude::*;

verus! {

/// The registers of the virtual CPU that the engine reads or writes.
#[derive(Clone, Copy, Debug, PartialEq, Eq, Hash, Structural)]
pub enum RegisterName {
    Rax,
    Rbx,
    Rcx,
    Rdx,
    Rsp,
    Rip,
    Rflags,
    Cr0,
    Cr3,
    Cr4,
    Efer,
    Cs,
    Ds,
    Es,
    Fs,
    Gs,
    Ss,
    Tr,
    Ldtr,
}

/// A segment register as the hypervisor describes it.
#[derive(Clone, Copy, Debug, PartialEq, Eq, Structural)]
pub struct SegmentRegister {
    pub base: u64,
    pub limit: u32,
    pub selector: u16,
    pub attributes: u16,
}

/// The 128-bit slot that holds the value of one register.
///
/// `Reg64` is a general-purpose or control register, `Segment` a segment
/// register, and `Raw` the two 64-bit halves of a slot read back from the
/// hypervisor, low half first.
#[derive(Clone, Copy, Debug, PartialEq, Eq, Structural)]
pub enum RegisterValue {
    Reg64(u64),
    Segment(SegmentRegister),
    Raw { low: u64, high: u64 },
}

/// The 64-bit view of a register slot: its low eight bytes.
pub open spec fn spec_reg64(v: RegisterValue) -> u64 {
    match v {
        RegisterValue::Reg64(x) => x,
        RegisterValue::Segment(s) => s.base,
        RegisterValue::Raw { low, .. } => low,
    }
}

impl RegisterValue {
    /// The low 64 bits of the slot (the segment base for a segment register,
    /// which the hypervisor stores first).
    pub fn reg64(&self) -> (r: u64)
        ensures
            r == spec_reg64(*self),
    {
        match self {
            RegisterValue::Reg64(x) => *x,
            RegisterValue::Segment(s) => s.base,
            RegisterValue::Raw { low, .. } => *low,
        }
    }
}

/// One register assignment made on the virtual CPU.
#[derive(Clone, Copy, Debug, PartialEq, Eq, Structural)]
pub struct RegisterWrite {
    pub name: RegisterName,
    pub value: RegisterValue,
}

/// A write of a 64-bit value to a register.
pub open spec fn reg_write(name: RegisterName, value: u64) -> RegisterWrite {
    RegisterWrite { name, value: RegisterValue::Reg64(value) }
}

/// Builds a write of a 64-bit value to a register.
pub fn write_reg64(name: RegisterName, value: u64) -> (w: RegisterWrite)
    ensures
        w == reg_write(name, value),
{
    RegisterWrite { name, value: RegisterValue::Reg64(value) }
}

/// The instruction pointer after skipping an intercepted instruction of
/// `instruction_length` bytes.
pub fn advance_rip(rip: u64, instruction_length: u8) -> (next: u64)
    requires
        rip + instruction_length <= u64::MAX,
    ensures
        next == rip + instruction_length,
{
    rip + instruction_length as u64
}

} // verus!
