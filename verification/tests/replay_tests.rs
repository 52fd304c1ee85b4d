use std::collections::HashMap;
use vestigium::exits::VmExit;
use vestigium::paging::PageTable;
use vestigium::record::{RecordAction, RecordEngine, TraceLogger};
use vestigium::registers::{advance_rip, RegisterName, RegisterValue, RegisterWrite};
use vestigium::replay::{ReplayAction, ReplayEngine};
use vestigium::snapshot::Snapshot;
use vestigium::trace::{EventType, TraceEvent};

fn w(name: RegisterName, v: u64) -> RegisterWrite {
    RegisterWrite { name, value: RegisterValue::Reg64(v) }
}

#[test]
fn test_phase3_replay_engine_injection() {
    // Verify register state injection during replay.
    let mut replay = ReplayEngine::new(0);
    replay.register_vcpu(0, 0);

    let event = TraceEvent {
        instruction_count: 0,
        event: EventType::Syscall { rax: 0xDEADBEEF, memory_writes: vec![] },
    };

    let injection = replay.inject_event(&event);
    assert_eq!(injection.writes, vec![w(RegisterName::Rax, 0xDEADBEEF)]);
    assert!(injection.memory_writes.is_empty());
}

#[test]
fn test_phase3_replay_engine_interleaving() {
    // Ensure context switches do not alter the underlying hardware vCPU in cooperative mode.
    let mut replay = ReplayEngine::new(0);
    replay.register_vcpu(0, 0);

    assert_eq!(replay.active_vcpu_id(), 0);

    let event = TraceEvent {
        instruction_count: 500,
        event: EventType::ContextSwitch { next_thread_id: 1 },
    };

    let injection = replay.inject_event(&event);
    assert!(injection.writes.is_empty());

    // Hardware vCPU ID remains 0 in cooperative scheduling.
    assert_eq!(replay.active_vcpu_id(), 0);
}

/// A minimal stand-in for a virtual CPU: its registers, and the exits its
/// guest program produces in turn.
struct SimVcpu {
    regs: HashMap<RegisterName, u64>,
    exits: Vec<VmExit>,
    next: usize,
}

impl SimVcpu {
    fn apply(&mut self, writes: &[RegisterWrite]) {
        for wr in writes {
            self.regs.insert(wr.name, wr.value.reg64());
        }
    }
    fn run(&mut self) -> VmExit {
        let e = self.exits[self.next];
        self.next += 1;
        e
    }
    fn advance(&mut self, len: u8) {
        let rip = *self.regs.get(&RegisterName::Rip).unwrap_or(&0);
        self.regs.insert(RegisterName::Rip, advance_rip(rip, len));
    }
}

#[test]
fn test_phase4_e2e_record_replay_pipeline() {
    // End-to-end validation of the record and replay pipeline.
    // RECORD PHASE
    let mut snapshot = Snapshot::new();
    let mut host_memory = vec![0u8; 4096];
    // Write basic x64 instructions: RDTSC, HLT
    host_memory[0] = 0x0F;
    host_memory[1] = 0x31;
    host_memory[2] = 0xF4;
    snapshot.capture_region(0x1000, &host_memory);

    // Map page tables for 64-bit long mode execution.
    let pt_gpa = 0x2000;
    let page_table = PageTable::create_identity_mapping(pt_gpa);
    snapshot.capture_region(pt_gpa, &page_table.to_bytes());

    let mut logger = TraceLogger::new();
    logger.log_event(TraceEvent {
        instruction_count: 0,
        event: EventType::Rdtsc { rax: 0x1111, rdx: 0x0 },
    });
    logger.log_event(TraceEvent {
        instruction_count: 0,
        event: EventType::ContextSwitch { next_thread_id: 1 },
    });
    let recorded_events = logger.events().to_vec();

    // REPLAY PHASE: the guest executes RDTSC at 0x1000, then HLT.
    let mut vcpu0 = SimVcpu {
        regs: HashMap::new(),
        exits: vec![VmExit::Rdtsc { instruction_length: 2, instruction_count: 0 }, VmExit::Halt],
        next: 0,
    };
    vcpu0.regs.insert(RegisterName::Rip, 0x1000);

    let mut replay = ReplayEngine::new(0);
    replay.register_vcpu(0, 0);

    let plan = replay.restore_snapshot(&snapshot, &[]);
    assert_eq!(plan.regions, vec![0x1000, 0x2000]);
    assert!(plan.vcpu_index.is_none());

    for event in &recorded_events {
        loop {
            let exit = vcpu0.run();
            match replay.replay_event(&exit, event) {
                ReplayAction::Inject { writes, advance } => {
                    vcpu0.apply(&writes);
                    vcpu0.advance(advance);
                    break;
                }
                ReplayAction::Continue => continue,
                _ => break,
            }
        }
    }

    // VERIFICATION
    assert_eq!(vcpu0.regs[&RegisterName::Rax], 0x1111);
    assert_eq!(vcpu0.regs[&RegisterName::Rip], 0x1002);

    // Verify that hardware vCPU remains 0.
    assert_eq!(replay.active_vcpu_id(), 0);
}

#[test]
fn replay_decisions() {
    let mut replay = ReplayEngine::new(3);
    let cpuid = TraceEvent {
        instruction_count: 4,
        event: EventType::Cpuid { eax: 1, ebx: 2, ecx: 3, edx: 4 },
    };
    let rdtsc = TraceEvent { instruction_count: 5, event: EventType::Rdtsc { rax: 9, rdx: 8 } };
    let switch = TraceEvent {
        instruction_count: 6,
        event: EventType::ContextSwitch { next_thread_id: 2 },
    };
    let syscall = TraceEvent {
        instruction_count: 7,
        event: EventType::Syscall { rax: 0x55, memory_writes: vec![(0x10, vec![1])] },
    };
    match replay.replay_event(&VmExit::Cpuid { instruction_length: 2, instruction_count: 4 }, &cpuid) {
        ReplayAction::Inject { writes, advance } => {
            assert_eq!(advance, 2);
            assert_eq!(
                writes,
                vec![
                    w(RegisterName::Rax, 1),
                    w(RegisterName::Rbx, 2),
                    w(RegisterName::Rcx, 3),
                    w(RegisterName::Rdx, 4),
                ]
            );
        }
        other => panic!("unexpected {:?}", other),
    }
    assert!(matches!(
        replay.replay_event(&VmExit::Cpuid { instruction_length: 2, instruction_count: 3 }, &cpuid),
        ReplayAction::CountMismatch { expected: 4, actual: 3 }
    ));
    assert!(matches!(
        replay.replay_event(&VmExit::Cpuid { instruction_length: 2, instruction_count: 5 }, &rdtsc),
        ReplayAction::Continue
    ));
    assert!(matches!(
        replay.replay_event(&VmExit::Rdtsc { instruction_length: 2, instruction_count: 4 }, &cpuid),
        ReplayAction::Continue
    ));
    match replay.replay_event(&VmExit::Rdtsc { instruction_length: 3, instruction_count: 5 }, &rdtsc) {
        ReplayAction::Inject { writes, advance } => {
            assert_eq!(advance, 3);
            assert_eq!(writes, vec![w(RegisterName::Rax, 9), w(RegisterName::Rdx, 8)]);
        }
        other => panic!("unexpected {:?}", other),
    }
    match replay.replay_event(
        &VmExit::Callout { thread_register: 0xFFFF_FFFF_0000_0002, instruction_count: 6 },
        &switch,
    ) {
        ReplayAction::Inject { writes, advance } => {
            assert!(writes.is_empty());
            assert_eq!(advance, 3);
        }
        other => panic!("unexpected {:?}", other),
    }
    assert!(matches!(
        replay.replay_event(&VmExit::Callout { thread_register: 5, instruction_count: 6 }, &switch),
        ReplayAction::ThreadMismatch { expected: 2, actual: 5 }
    ));
    assert!(matches!(
        replay.replay_event(&VmExit::Callout { thread_register: 2, instruction_count: 9 }, &switch),
        ReplayAction::CountMismatch { expected: 6, actual: 9 }
    ));
    assert!(matches!(
        replay.replay_event(&VmExit::Callout { thread_register: 2, instruction_count: 4 }, &cpuid),
        ReplayAction::UnexpectedCallout
    ));
    match replay.replay_event(&VmExit::Syscall { instruction_count: 7 }, &syscall) {
        ReplayAction::Inject { writes, advance } => {
            assert_eq!(writes, vec![w(RegisterName::Rax, 0x55)]);
            assert_eq!(advance, 2);
        }
        other => panic!("unexpected {:?}", other),
    }
    assert!(matches!(
        replay.replay_event(&VmExit::Syscall { instruction_count: 4 }, &cpuid),
        ReplayAction::Stop { reason: 4098 }
    ));
    let injection = replay.inject_event(&syscall);
    assert_eq!(injection.memory_writes, &[(0x10, vec![1])]);
    assert!(matches!(replay.replay_event(&VmExit::Halt, &cpuid), ReplayAction::Halted));
    assert!(matches!(
        replay.replay_event(&VmExit::MemoryAccess { gpa: 0 }, &cpuid),
        ReplayAction::Halted
    ));
    assert!(matches!(
        replay.replay_event(&VmExit::Unhandled { reason: 2 }, &cpuid),
        ReplayAction::Stop { reason: 2 }
    ));
    assert_eq!(replay.active_vcpu_id(), 3);
}

#[test]
fn replay_engine_registration() {
    let mut replay = ReplayEngine::new(1);
    assert!(!replay.is_registered(1));
    replay.register_vcpu(0, 10);
    replay.register_vcpu(1, 11);
    assert!(replay.is_registered(1));
    assert_eq!(replay.active_vcpu(), 11);
    replay.register_vcpu(1, 12);
    assert_eq!(replay.active_vcpu(), 12);
    assert_eq!(replay.active_vcpu_id(), 1);
}

#[test]
fn restore_plan_pairs_registers() {
    let mut replay = ReplayEngine::new(0);
    replay.register_vcpu(0, 4);
    let mut snapshot = Snapshot::new();
    snapshot.capture_region(0x3000, &[1, 2]);
    snapshot.capture_region(0x1000, &[3]);
    snapshot.capture_registers(vec![
        RegisterValue::Raw { low: 0x1000, high: 0 },
        RegisterValue::Raw { low: 0x8000, high: 1 },
    ]);
    let plan = replay.restore_snapshot(&snapshot, &[RegisterName::Rip, RegisterName::Rsp]);
    assert_eq!(plan.regions, vec![0x1000, 0x3000]);
    assert_eq!(plan.vcpu_index, Some(4));
    assert_eq!(
        plan.register_writes,
        vec![
            RegisterWrite { name: RegisterName::Rip, value: RegisterValue::Raw { low: 0x1000, high: 0 } },
            RegisterWrite { name: RegisterName::Rsp, value: RegisterValue::Raw { low: 0x8000, high: 1 } },
        ]
    );
}

#[test]
fn replaying_recorded_trace_reproduces_registers() {
    // Record the guest's exits, then replay them against the same exits.
    let exits = vec![
        VmExit::Cpuid { instruction_length: 2, instruction_count: 3 },
        VmExit::Rdtsc { instruction_length: 2, instruction_count: 9 },
        VmExit::Callout { thread_register: 1, instruction_count: 12 },
        VmExit::Rdtsc { instruction_length: 2, instruction_count: 40 },
    ];
    let mut recorder = RecordEngine::new();
    let mut recorded_writes = Vec::new();
    for e in &exits {
        match recorder.on_exit(e) {
            RecordAction::Resume { writes, advance, event } => {
                recorded_writes.push((writes, advance));
                recorder.commit(event);
            }
            other => panic!("unexpected {:?}", other),
        }
    }
    let events = recorder.finalize();
    let mut replay = ReplayEngine::new(0);
    for (i, (e, ev)) in exits.iter().zip(events.iter()).enumerate() {
        match replay.replay_event(e, ev) {
            ReplayAction::Inject { writes, advance } => {
                assert_eq!(writes, recorded_writes[i].0);
                assert_eq!(advance, recorded_writes[i].1);
            }
            other => panic!("unexpected {:?}", other),
        }
    }
}
