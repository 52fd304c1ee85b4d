//! Recording: the trace logger and the decisions of the record engine.
use vstd::prelude::*;
use crate::exits::{VmExit, SYSCALL_LENGTH, VMCALL_LENGTH};
use crate::registers::{write_reg64, RegisterName, RegisterWrite};
use crate::trace::{event_register_writes, EventType, TraceEvent};

verus! {

/// Sequentially records trace events.
pub struct TraceLogger {
    events: Vec<TraceEvent>,
}

impl View for TraceLogger {
    type V = Seq<TraceEvent>;

    closed spec fn view(&self) -> Seq<TraceEvent> {
        self.events@
    }
}

impl Default for TraceLogger {
    fn default() -> (r: Self)
        ensures
            r@ == Seq::<TraceEvent>::empty(),
    {
        Self::new()
    }
}

impl TraceLogger {
    /// An empty logger.
    pub fn new() -> (r: Self)
        ensures
            r@ == Seq::<TraceEvent>::empty(),
    {
        TraceLogger { events: Vec::new() }
    }

    /// Appends an event at the end of the log.
    pub fn log_event(&mut self, event: TraceEvent)
        ensures
            final(self)@ == old(self)@.push(event),
    {
        self.events.push(event);
    }

    /// All logged events, in the order they were logged.
    pub fn events(&self) -> (r: &[TraceEvent])
        ensures
            r@ == self@,
    {
        self.events.as_slice()
    }

    /// Gives up the logger and hands back its events.
    pub fn into_events(self) -> (r: Vec<TraceEvent>)
        ensures
            r@ == self@,
    {
        self.events
    }
}

/// The value of EAX that recording presents to the guest for CPUID.
pub const SIM_CPUID_EAX: u32 = 0xAAAA_AAAA;
/// The value of EBX that recording presents to the guest for CPUID.
pub const SIM_CPUID_EBX: u32 = 0xBBBB_BBBB;
/// The value of ECX that recording presents to the guest for CPUID.
pub const SIM_CPUID_ECX: u32 = 0xCCCC_CCCC;
/// The value of EDX that recording presents to the guest for CPUID.
pub const SIM_CPUID_EDX: u32 = 0xDDDD_DDDD;
/// The value of RAX that recording presents to the guest for RDTSC.
pub const SIM_RDTSC_RAX: u64 = 0x1000;
/// The value of RDX that recording presents to the guest for RDTSC.
pub const SIM_RDTSC_RDX: u64 = 0x0;

/// What the caller does with the virtual CPU after an exit while recording.
#[derive(Debug)]
pub enum RecordAction {
    /// Fatal access to unmapped guest memory at `gpa`: stop.
    Fatal { gpa: u64 },
    /// The guest halted: report RAX and stop.
    Halted,
    /// The guest made a system call: service it and hand the outcome to
    /// `RecordEngine::on_syscall_serviced`.
    ServiceSyscall,
    /// Perform `writes` in order and the event's guest memory writes; once
    /// they succeeded, commit `event` to the trace, then advance RIP by
    /// `advance` bytes and run on.
    Resume { writes: Vec<RegisterWrite>, advance: u8, event: TraceEvent },
    /// An exit the engine does not handle: stop.
    Stop { reason: i32 },
}

/// The event that recording logs for an exit it answers on its own.
pub open spec fn recorded_event(exit: VmExit) -> Option<EventType> {
    match exit {
        VmExit::Cpuid { .. } => Some(
            EventType::Cpuid {
                eax: SIM_CPUID_EAX,
                ebx: SIM_CPUID_EBX,
                ecx: SIM_CPUID_ECX,
                edx: SIM_CPUID_EDX,
            },
        ),
        VmExit::Rdtsc { .. } => Some(EventType::Rdtsc { rax: SIM_RDTSC_RAX, rdx: SIM_RDTSC_RDX }),
        VmExit::Callout { thread_register, .. } => Some(
            EventType::ContextSwitch { next_thread_id: thread_register as u32 },
        ),
        _ => None,
    }
}

/// The retired-instruction count an intercepted exit carries (0 for the others).
pub open spec fn exit_instruction_count(exit: VmExit) -> u64 {
    match exit {
        VmExit::Callout { instruction_count, .. } => instruction_count,
        VmExit::Cpuid { instruction_count, .. } => instruction_count,
        VmExit::Rdtsc { instruction_count, .. } => instruction_count,
        VmExit::Syscall { instruction_count } => instruction_count,
        _ => 0,
    }
}

/// How far RIP moves after an exit on which the guest runs on.
pub open spec fn resume_advance(exit: VmExit) -> u8 {
    match exit {
        VmExit::Cpuid { instruction_length, .. } => instruction_length,
        VmExit::Rdtsc { instruction_length, .. } => instruction_length,
        VmExit::Syscall { .. } => SYSCALL_LENGTH,
        _ => VMCALL_LENGTH,
    }
}

/// Whether `action` lets the guest run on after `exit` with the event `ev`
/// logged at the exit's retired-instruction count, and with the register
/// writes that put the guest in the state `ev` records.
pub open spec fn record_resumes(exit: VmExit, ev: EventType, action: RecordAction) -> bool {
    &&& action matches RecordAction::Resume { writes, advance, event }
    &&& writes@ == event_register_writes(ev)
    &&& advance == resume_advance(exit)
    &&& event == TraceEvent { instruction_count: exit_instruction_count(exit), event: ev }
}

/// Whether `action` is the stop that recording makes on an exit it does not answer.
pub open spec fn is_record_stop(exit: VmExit, action: RecordAction) -> bool {
    match exit {
        VmExit::MemoryAccess { gpa } => action == RecordAction::Fatal { gpa },
        VmExit::Halt => action == RecordAction::Halted,
        VmExit::Unhandled { reason } => action == RecordAction::Stop { reason },
        _ => false,
    }
}

/// The record engine: the trace committed so far.
pub struct RecordEngine {
    logger: TraceLogger,
}

impl View for RecordEngine {
    type V = Seq<TraceEvent>;

    closed spec fn view(&self) -> Seq<TraceEvent> {
        self.logger@
    }
}

impl RecordEngine {
    /// A record engine that has logged nothing.
    pub fn new() -> (r: Self)
        ensures
            r@ == Seq::<TraceEvent>::empty(),
    {
        RecordEngine { logger: TraceLogger::new() }
    }

    /// Decides what to do on an exit of the virtual CPU while recording.
    /// CPUID and RDTSC are answered with fixed values and a VMCALL is taken
    /// as a switch to the thread named by the low 32 bits of RCX; the event
    /// is handed out with the exit's retired-instruction count, to be
    /// committed once its register writes are made. A system call is handed
    /// to the caller's service. Memory faults, halts and other exits stop
    /// recording. Nothing is logged here.
    pub fn on_exit(&self, exit: &VmExit) -> (action: RecordAction)
        ensures
            match recorded_event(*exit) {
                Some(ev) => record_resumes(*exit, ev, action),
                None => if exit is Syscall {
                    action == RecordAction::ServiceSyscall
                } else {
                    is_record_stop(*exit, action)
                },
            },
    {
        match exit {
            VmExit::MemoryAccess { gpa } => RecordAction::Fatal { gpa: *gpa },
            VmExit::Halt => RecordAction::Halted,
            VmExit::Unhandled { reason } => RecordAction::Stop { reason: *reason },
            VmExit::Syscall { .. } => RecordAction::ServiceSyscall,
            VmExit::Cpuid { instruction_length, instruction_count } => {
                let writes = vec![
                    write_reg64(RegisterName::Rax, SIM_CPUID_EAX as u64),
                    write_reg64(RegisterName::Rbx, SIM_CPUID_EBX as u64),
                    write_reg64(RegisterName::Rcx, SIM_CPUID_ECX as u64),
                    write_reg64(RegisterName::Rdx, SIM_CPUID_EDX as u64),
                ];
                let event = TraceEvent {
                    instruction_count: *instruction_count,
                    event: EventType::Cpuid {
                        eax: SIM_CPUID_EAX,
                        ebx: SIM_CPUID_EBX,
                        ecx: SIM_CPUID_ECX,
                        edx: SIM_CPUID_EDX,
                    },
                };
                RecordAction::Resume { writes, advance: *instruction_length, event }
            },
            VmExit::Rdtsc { instruction_length, instruction_count } => {
                let writes = vec![
                    write_reg64(RegisterName::Rax, SIM_RDTSC_RAX),
                    write_reg64(RegisterName::Rdx, SIM_RDTSC_RDX),
                ];
                let event = TraceEvent {
                    instruction_count: *instruction_count,
                    event: EventType::Rdtsc { rax: SIM_RDTSC_RAX, rdx: SIM_RDTSC_RDX },
                };
                RecordAction::Resume { writes, advance: *instruction_length, event }
            },
            VmExit::Callout { thread_register, instruction_count } => {
                let event = TraceEvent {
                    instruction_count: *instruction_count,
                    event: EventType::ContextSwitch { next_thread_id: *thread_register as u32 },
                };
                RecordAction::Resume { writes: Vec::new(), advance: VMCALL_LENGTH, event }
            },
        }
    }

    /// Decides how the guest runs on after its system call at `exit` was
    /// serviced with return code `result` and the guest memory buffers
    /// `memory_writes`: RAX takes the return code, the buffers are written,
    /// and the Syscall event is handed out at the exit's count.
    pub fn on_syscall_serviced(
        &self,
        exit: &VmExit,
        result: u64,
        memory_writes: Vec<(u64, Vec<u8>)>,
    ) -> (action: RecordAction)
        requires
            exit is Syscall,
        ensures
            record_resumes(*exit, EventType::Syscall { rax: result, memory_writes }, action),
    {
        let count = match exit {
            VmExit::Syscall { instruction_count } => *instruction_count,
            _ => 0,
        };
        let writes = vec![write_reg64(RegisterName::Rax, result)];
        assert(writes@ =~= event_register_writes(EventType::Syscall { rax: result, memory_writes }));
        let event = TraceEvent {
            instruction_count: count,
            event: EventType::Syscall { rax: result, memory_writes },
        };
        RecordAction::Resume { writes, advance: SYSCALL_LENGTH, event }
    }

    /// Commits an event to the trace, after the writes it stands for were made.
    pub fn commit(&mut self, event: TraceEvent)
        ensures
            final(self)@ == old(self)@.push(event),
    {
        self.logger.log_event(event);
    }

    /// Gives up the engine and hands back the committed events, in commit order.
    pub fn finalize(self) -> (events: Vec<TraceEvent>)
        ensures
            events@ == self@,
    {
        self.logger.into_events()
    }
}

} // verus!
