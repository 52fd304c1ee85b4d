//! Replay: the replay engine's bookkeeping and its decisions.
use vstd::prelude::*;
use std::collections::HashMap;
use crate::exits::{VmExit, EXIT_EXCEPTION, SYSCALL_LENGTH, VMCALL_LENGTH};
use crate::record::{exit_instruction_count, resume_advance};
use crate::registers::{write_reg64, RegisterName, RegisterValue, RegisterWrite};
use crate::snapshot::{ascending, strictly_ascending, Snapshot};
use crate::trace::{event_memory_writes, event_register_writes, EventType, TraceEvent};

verus! {

/// What the caller does with the virtual CPU after an exit while replaying
/// one recorded event.
#[allow(inconsistent_fields)]
#[derive(Debug)]
pub enum ReplayAction {
    /// The guest halted (or touched unmapped memory): report RAX; the event is done.
    Halted,
    /// The exit is the recorded one: perform `writes` in order and the
    /// event's guest memory writes, advance RIP by `advance` bytes; the event
    /// is done.
    Inject { writes: Vec<RegisterWrite>, advance: u8 },
    /// The exit does not belong to the recorded event: run the guest again.
    Continue,
    /// The exit is of the recorded kind but at another retired-instruction
    /// count than the recorded one; the event is done.
    CountMismatch { expected: u64, actual: u64 },
    /// The guest switched to another thread than the recorded one; the event is done.
    ThreadMismatch { expected: u32, actual: u32 },
    /// The guest switched threads where the trace holds another event; the event is done.
    UnexpectedCallout,
    /// An exit replay does not handle; the event is done.
    Stop { reason: i32 },
}

/// Whether an exit is of the kind that an event records.
pub open spec fn same_kind(exit: VmExit, ev: EventType) -> bool {
    match exit {
        VmExit::Cpuid { .. } => ev is Cpuid,
        VmExit::Rdtsc { .. } => ev is Rdtsc,
        VmExit::Syscall { .. } => ev is Syscall,
        VmExit::Callout { .. } => ev is ContextSwitch,
        _ => false,
    }
}

/// Whether `action` injects `event` at `exit`.
pub open spec fn injects(exit: VmExit, event: TraceEvent, action: ReplayAction) -> bool {
    &&& action matches ReplayAction::Inject { writes, advance }
    &&& writes@ == event_register_writes(event.event)
    &&& advance == resume_advance(exit)
}

/// The decision replay makes on `exit` while `event` is the next recorded
/// event: an exit of the recorded kind is injected only at the recorded
/// retired-instruction count (and, for a thread switch, to the recorded
/// thread); a CPUID or RDTSC exit of another kind is run past; a system call
/// where the trace holds another event is an unhandled exception exit.
pub open spec fn replay_decision(exit: VmExit, event: TraceEvent, action: ReplayAction) -> bool {
    match exit {
        VmExit::MemoryAccess { .. } => action == ReplayAction::Halted,
        VmExit::Halt => action == ReplayAction::Halted,
        VmExit::Unhandled { reason } => action == ReplayAction::Stop { reason },
        VmExit::Callout { thread_register, instruction_count } => match event.event {
            EventType::ContextSwitch { next_thread_id } => if instruction_count
                != event.instruction_count {
                action == ReplayAction::CountMismatch {
                    expected: event.instruction_count,
                    actual: instruction_count,
                }
            } else if thread_register as u32 == next_thread_id {
                injects(exit, event, action)
            } else {
                action == ReplayAction::ThreadMismatch {
                    expected: next_thread_id,
                    actual: thread_register as u32,
                }
            },
            _ => action == ReplayAction::UnexpectedCallout,
        },
        VmExit::Syscall { .. } if !(event.event is Syscall) => action == ReplayAction::Stop {
            reason: EXIT_EXCEPTION,
        },
        _ => if !same_kind(exit, event.event) {
            action == ReplayAction::Continue
        } else if exit_instruction_count(exit) != event.instruction_count {
            action == ReplayAction::CountMismatch {
                expected: event.instruction_count,
                actual: exit_instruction_count(exit),
            }
        } else {
            injects(exit, event, action)
        },
    }
}

/// The state an event re-creates on the active virtual CPU.
#[derive(Debug)]
pub struct Injection<'b> {
    /// The register writes, in order.
    pub writes: Vec<RegisterWrite>,
    /// The guest memory writes, in order.
    pub memory_writes: &'b [(u64, Vec<u8>)],
}

/// Access flags for mapping snapshot memory into the guest: read, write, execute.
pub const GUEST_MAP_FLAGS: u32 = 0x7;

/// How a snapshot is restored into the guest.
#[derive(Debug)]
pub struct RestorePlan {
    /// The guest physical addresses of the regions to map, each with
    /// `GUEST_MAP_FLAGS`.
    pub regions: Vec<u64>,
    /// The virtual CPU whose registers are written, if any are.
    pub vcpu_index: Option<u32>,
    /// The register writes to make on that virtual CPU, in order.
    pub register_writes: Vec<RegisterWrite>,
}

/// The writes that put each captured register value back under its name.
pub open spec fn paired_writes(names: Seq<RegisterName>, values: Seq<RegisterValue>) -> Seq<RegisterWrite> {
    Seq::new(values.len(), |i: int| RegisterWrite { name: names[i], value: values[i] })
}

/// The register writes that re-create the state an event recorded.
fn event_writes(event: &EventType) -> (writes: Vec<RegisterWrite>)
    ensures
        writes@ == event_register_writes(*event),
{
    match event {
        EventType::Syscall { rax, .. } => vec![write_reg64(RegisterName::Rax, *rax)],
        EventType::Rdtsc { rax, rdx } => vec![
            write_reg64(RegisterName::Rax, *rax),
            write_reg64(RegisterName::Rdx, *rdx),
        ],
        EventType::Cpuid { eax, ebx, ecx, edx } => vec![
            write_reg64(RegisterName::Rax, *eax as u64),
            write_reg64(RegisterName::Rbx, *ebx as u64),
            write_reg64(RegisterName::Rcx, *ecx as u64),
            write_reg64(RegisterName::Rdx, *edx as u64),
        ],
        EventType::ContextSwitch { .. } => Vec::new(),
    }
}

/// Replays a recorded trace on registered virtual CPUs. Threads are
/// scheduled cooperatively on one virtual CPU: a recorded context switch
/// never changes the active one.
pub struct ReplayEngine {
    vcpus: HashMap<u32, u32>,
    active_vcpu_id: u32,
}

impl View for ReplayEngine {
    /// The registered virtual CPUs (by id, the index of each), and the active id.
    type V = (Map<u32, u32>, u32);

    closed spec fn view(&self) -> (Map<u32, u32>, u32) {
        (self.vcpus@, self.active_vcpu_id)
    }
}

impl ReplayEngine {
    /// An engine with no registered virtual CPU, whose active id is `initial_vcpu_id`.
    pub fn new(initial_vcpu_id: u32) -> (r: Self)
        ensures
            r@ == (Map::<u32, u32>::empty(), initial_vcpu_id),
    {
        ReplayEngine { vcpus: HashMap::new(), active_vcpu_id: initial_vcpu_id }
    }

    /// Registers the virtual CPU of index `vcpu_index` under `id`, replacing
    /// any earlier registration of that id.
    pub fn register_vcpu(&mut self, id: u32, vcpu_index: u32)
        ensures
            final(self)@ == (old(self)@.0.insert(id, vcpu_index), old(self)@.1),
    {
        self.vcpus.insert(id, vcpu_index);
    }

    /// Whether a virtual CPU is registered under `id`.
    pub fn is_registered(&self, id: u32) -> (r: bool)
        ensures
            r == self@.0.contains_key(id),
    {
        self.vcpus.contains_key(&id)
    }

    /// The index of the active virtual CPU.
    pub fn active_vcpu(&self) -> (index: u32)
        requires
            self@.0.contains_key(self@.1),
        ensures
            index == self@.0[self@.1],
    {
        *self.vcpus.get(&self.active_vcpu_id).unwrap()
    }

    /// The id of the active virtual CPU.
    pub fn active_vcpu_id(&self) -> (id: u32)
        ensures
            id == self@.1,
    {
        self.active_vcpu_id
    }

    /// How to restore `snapshot`: map every captured memory region (in
    /// ascending order of address), then, if registers were captured, write
    /// them under `register_names` on the active virtual CPU.
    pub fn restore_snapshot(&self, snapshot: &Snapshot, register_names: &[RegisterName]) -> (plan: RestorePlan)
        requires
            snapshot@.registers.len() > 0 ==> {
                &&& self@.0.contains_key(self@.1)
                &&& register_names@.len() == snapshot@.registers.len()
            },
        ensures
            plan.regions@ == ascending(snapshot@.regions.dom()),
            plan.regions@.to_set() == snapshot@.regions.dom(),
            strictly_ascending(plan.regions@),
            snapshot@.registers.len() == 0 ==> plan.vcpu_index is None && plan.register_writes@.len() == 0,
            snapshot@.registers.len() > 0 ==> {
                &&& plan.vcpu_index == Some(self@.0[self@.1])
                &&& plan.register_writes@ == paired_writes(register_names@, snapshot@.registers)
            },
    {
        let regions = snapshot.region_gpas();
        if snapshot.registers.len() == 0 {
            return RestorePlan { regions, vcpu_index: None, register_writes: Vec::new() };
        }
        let vcpu = self.active_vcpu();
        let mut writes: Vec<RegisterWrite> = Vec::new();
        let mut i: usize = 0;
        while i < snapshot.registers.len()
            invariant
                i <= snapshot@.registers.len(),
                register_names@.len() == snapshot@.registers.len(),
                writes@ == paired_writes(register_names@, snapshot@.registers).take(i as int),
            decreases snapshot.registers.len() - i,
        {
            writes.push(RegisterWrite { name: register_names[i], value: snapshot.registers[i] });
            i = i + 1;
            assert(writes@ =~= paired_writes(register_names@, snapshot@.registers).take(i as int));
        }
        assert(writes@ =~= paired_writes(register_names@, snapshot@.registers));
        RestorePlan { regions, vcpu_index: Some(vcpu), register_writes: writes }
    }

    /// The register and guest memory writes that put the active virtual
    /// CPU in the state `event` recorded. Replay keeps one active virtual
    /// CPU, so a context switch writes nothing and changes nothing.
    pub fn inject_event<'b>(&mut self, event: &'b TraceEvent) -> (inj: Injection<'b>)
        ensures
            final(self)@ == old(self)@,
            inj.writes@ == event_register_writes(event.event),
            inj.memory_writes@ == event_memory_writes(event.event),
    {
        Injection { writes: event_writes(&event.event), memory_writes: event.event.memory_writes() }
    }

    /// Decides what to do on `exit` while `event` is the next recorded event:
    /// the exit of the recorded kind at the recorded retired-instruction count
    /// gets the event's registers injected and RIP advanced; the same kind at
    /// another count, a thread switch to another thread, a halt, a memory
    /// fault or an unhandled exit ends the event, as does a system call where
    /// the trace holds another event; a CPUID or RDTSC of another kind is run past.
    pub fn replay_event(&mut self, exit: &VmExit, event: &TraceEvent) -> (action: ReplayAction)
        ensures
            final(self)@ == old(self)@,
            replay_decision(*exit, *event, action),
    {
        match exit {
            VmExit::MemoryAccess { .. } => ReplayAction::Halted,
            VmExit::Halt => ReplayAction::Halted,
            VmExit::Unhandled { reason } => ReplayAction::Stop { reason: *reason },
            VmExit::Callout { thread_register, instruction_count } => {
                if let EventType::ContextSwitch { next_thread_id } = &event.event {
                    let current_thread_id = *thread_register as u32;
                    if *instruction_count != event.instruction_count {
                        ReplayAction::CountMismatch {
                            expected: event.instruction_count,
                            actual: *instruction_count,
                        }
                    } else if current_thread_id == *next_thread_id {
                        ReplayAction::Inject { writes: event_writes(&event.event), advance: VMCALL_LENGTH }
                    } else {
                        ReplayAction::ThreadMismatch {
                            expected: *next_thread_id,
                            actual: current_thread_id,
                        }
                    }
                } else {
                    ReplayAction::UnexpectedCallout
                }
            },
            VmExit::Cpuid { instruction_length, instruction_count } => {
                if matches!(event.event, EventType::Cpuid { .. }) {
                    Self::inject_at(*instruction_count, *instruction_length, event)
                } else {
                    ReplayAction::Continue
                }
            },
            VmExit::Rdtsc { instruction_length, instruction_count } => {
                if matches!(event.event, EventType::Rdtsc { .. }) {
                    Self::inject_at(*instruction_count, *instruction_length, event)
                } else {
                    ReplayAction::Continue
                }
            },
            VmExit::Syscall { instruction_count } => {
                if matches!(event.event, EventType::Syscall { .. }) {
                    Self::inject_at(*instruction_count, SYSCALL_LENGTH, event)
                } else {
                    ReplayAction::Stop { reason: EXIT_EXCEPTION }
                }
            },
        }
    }

    /// Injects `event` if the exit came at its recorded count.
    fn inject_at(count: u64, advance: u8, event: &TraceEvent) -> (action: ReplayAction)
        ensures
            count != event.instruction_count ==> action == (ReplayAction::CountMismatch {
                expected: event.instruction_count,
                actual: count,
            }),
            count == event.instruction_count ==> (action matches ReplayAction::Inject {
                writes,
                advance: adv,
            } && writes@ == event_register_writes(event.event) && adv == advance),
    {
        if count != event.instruction_count {
            ReplayAction::CountMismatch { expected: event.instruction_count, actual: count }
        } else {
            ReplayAction::Inject { writes: event_writes(&event.event), advance }
        }
    }
}

} // verus!
