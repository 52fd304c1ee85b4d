//! The events of an execution trace.
use vstd::prelude::*;
use crate::registers::{reg_write, RegisterName, RegisterWrite};

verus! {

/// A non-deterministic event intercepted during execution.
#[derive(Clone, Debug, PartialEq, Eq)]
pub enum EventType {
    /// The result of a system call and the guest memory it modified.
    Syscall { rax: u64, memory_writes: Vec<(u64, Vec<u8>)> },
    /// The cycle count returned by RDTSC.
    Rdtsc { rax: u64, rdx: u64 },
    /// The architectural state returned by CPUID.
    Cpuid { eax: u32, ebx: u32, ecx: u32, edx: u32 },
    /// A switch to another guest thread.
    ContextSwitch { next_thread_id: u32 },
}

/// One recorded event, placed on the execution timeline by the number of
/// guest instructions retired before it.
#[derive(Clone, Debug, PartialEq, Eq)]
pub struct TraceEvent {
    pub instruction_count: u64,
    pub event: EventType,
}

/// The register writes that put the virtual CPU in the state an event
/// recorded: `Syscall` sets RAX, `Rdtsc` sets RAX and RDX, `Cpuid` sets RAX,
/// RBX, RCX and RDX (each widened to 64 bits), and a context switch writes
/// nothing.
pub open spec fn event_register_writes(e: EventType) -> Seq<RegisterWrite> {
    match e {
        EventType::Syscall { rax, .. } => seq![reg_write(RegisterName::Rax, rax)],
        EventType::Rdtsc { rax, rdx } => seq![
            reg_write(RegisterName::Rax, rax),
            reg_write(RegisterName::Rdx, rdx),
        ],
        EventType::Cpuid { eax, ebx, ecx, edx } => seq![
            reg_write(RegisterName::Rax, eax as u64),
            reg_write(RegisterName::Rbx, ebx as u64),
            reg_write(RegisterName::Rcx, ecx as u64),
            reg_write(RegisterName::Rdx, edx as u64),
        ],
        EventType::ContextSwitch { .. } => seq![],
    }
}

/// The guest memory writes that re-create the state an event recorded: the
/// buffers a system call modified, in order (a later write to the same
/// bytes wins); no other event writes memory.
pub open spec fn event_memory_writes(e: EventType) -> Seq<(u64, Vec<u8>)> {
    match e {
        EventType::Syscall { memory_writes, .. } => memory_writes@,
        _ => seq![],
    }
}

impl EventType {
    /// The guest memory writes that re-create the state the event recorded.
    pub fn memory_writes(&self) -> (w: &[(u64, Vec<u8>)])
        ensures
            w@ == event_memory_writes(*self),
    {
        match self {
            EventType::Syscall { memory_writes, .. } => memory_writes.as_slice(),
            _ => &[],
        }
    }
}

} // verus!
