use vestigium::exits::VmExit;
use vestigium::record::{
    RecordAction, RecordEngine, TraceLogger, SIM_CPUID_EAX, SIM_CPUID_EBX, SIM_CPUID_ECX,
    SIM_CPUID_EDX, SIM_RDTSC_RAX, SIM_RDTSC_RDX,
};
use vestigium::registers::{RegisterName, RegisterValue, RegisterWrite};
use vestigium::snapshot::Snapshot;
use vestigium::trace::{EventType, TraceEvent};

#[test]
fn test_phase2_record_engine() {
    // Validate basic memory snapshot capture and event logging.
    let mut snapshot = Snapshot::new();
    let dummy_memory = [0x90, 0x90, 0xCC];

    snapshot.capture_region(0x1000, &dummy_memory);
    assert_eq!(snapshot.memory_regions.get(&0x1000).unwrap().len(), 3);

    let mut logger = TraceLogger::new();

    logger.log_event(TraceEvent {
        instruction_count: 150,
        event: EventType::Syscall {
            rax: 0,
            memory_writes: vec![(0x2000, vec![0xAA, 0xBB])],
        },
    });

    let events = logger.events();
    assert_eq!(events.len(), 1);
    assert_eq!(events[0].instruction_count, 150);
}

fn w(name: RegisterName, v: u64) -> RegisterWrite {
    RegisterWrite { name, value: RegisterValue::Reg64(v) }
}

/// Handles an exit as a caller does: performs nothing, commits the event.
fn step(engine: &mut RecordEngine, exit: &VmExit) -> RecordAction {
    let action = engine.on_exit(exit);
    if let RecordAction::Resume { event, .. } = &action {
        engine.commit(event.clone());
    }
    action
}

#[test]
fn logger_keeps_events_in_order() {
    let mut logger = TraceLogger::default();
    assert!(logger.events().is_empty());
    for i in 0..5u32 {
        logger.log_event(TraceEvent {
            instruction_count: 10 - i as u64,
            event: EventType::ContextSwitch { next_thread_id: i },
        });
    }
    assert_eq!(logger.events(), logger.events());
    let events = logger.into_events();
    assert_eq!(events.len(), 5);
    for (i, e) in events.iter().enumerate() {
        assert_eq!(e.event, EventType::ContextSwitch { next_thread_id: i as u32 });
        assert_eq!(e.instruction_count, 10 - i as u64);
    }
}

#[test]
fn record_cpuid_hands_out_event_without_logging() {
    let engine = RecordEngine::new();
    let action = engine.on_exit(&VmExit::Cpuid { instruction_length: 2, instruction_count: 1234 });
    match action {
        RecordAction::Resume { writes, advance, event } => {
            assert_eq!(advance, 2);
            assert_eq!(
                writes,
                vec![
                    w(RegisterName::Rax, 0xAAAA_AAAA),
                    w(RegisterName::Rbx, 0xBBBB_BBBB),
                    w(RegisterName::Rcx, 0xCCCC_CCCC),
                    w(RegisterName::Rdx, 0xDDDD_DDDD),
                ]
            );
            assert_eq!(
                event,
                TraceEvent {
                    instruction_count: 1234,
                    event: EventType::Cpuid {
                        eax: SIM_CPUID_EAX,
                        ebx: SIM_CPUID_EBX,
                        ecx: SIM_CPUID_ECX,
                        edx: SIM_CPUID_EDX,
                    },
                }
            );
        }
        other => panic!("unexpected action {:?}", other),
    }
    // Nothing is logged until the caller commits.
    assert!(engine.finalize().is_empty());
}

#[test]
fn record_rdtsc_and_callout() {
    let mut engine = RecordEngine::new();
    match step(&mut engine, &VmExit::Rdtsc { instruction_length: 2, instruction_count: 10 }) {
        RecordAction::Resume { writes, advance, .. } => {
            assert_eq!(advance, 2);
            assert_eq!(writes, vec![w(RegisterName::Rax, 0x1000), w(RegisterName::Rdx, 0)]);
        }
        other => panic!("unexpected action {:?}", other),
    }
    // The thread id is the low 32 bits of RCX.
    match step(&mut engine, &VmExit::Callout { thread_register: 0x1_0000_0007, instruction_count: 25 }) {
        RecordAction::Resume { writes, advance, .. } => {
            assert_eq!(advance, 3);
            assert!(writes.is_empty());
        }
        other => panic!("unexpected action {:?}", other),
    }
    let events = engine.finalize();
    assert_eq!(events.len(), 2);
    assert_eq!(events[0].instruction_count, 10);
    assert_eq!(events[0].event, EventType::Rdtsc { rax: SIM_RDTSC_RAX, rdx: SIM_RDTSC_RDX });
    assert_eq!(events[1].instruction_count, 25);
    assert_eq!(events[1].event, EventType::ContextSwitch { next_thread_id: 7 });
}

#[test]
fn record_syscall_after_service() {
    let mut engine = RecordEngine::new();
    let exit = VmExit::Syscall { instruction_count: 42 };
    assert!(matches!(engine.on_exit(&exit), RecordAction::ServiceSyscall));
    let action = engine.on_syscall_serviced(&exit, 0x100, vec![(0x5000, vec![0xDE, 0xAD])]);
    match action {
        RecordAction::Resume { writes, advance, event } => {
            assert_eq!(writes, vec![w(RegisterName::Rax, 0x100)]);
            assert_eq!(advance, 2);
            assert_eq!(
                event,
                TraceEvent {
                    instruction_count: 42,
                    event: EventType::Syscall {
                        rax: 0x100,
                        memory_writes: vec![(0x5000, vec![0xDE, 0xAD])]
                    },
                }
            );
            assert_eq!(event.event.memory_writes(), &[(0x5000, vec![0xDE, 0xAD])]);
            engine.commit(event);
        }
        other => panic!("unexpected action {:?}", other),
    }
    assert_eq!(engine.finalize().len(), 1);
}

#[test]
fn record_stops_without_logging() {
    let mut engine = RecordEngine::new();
    assert!(matches!(
        step(&mut engine, &VmExit::MemoryAccess { gpa: 0xDEAD000 }),
        RecordAction::Fatal { gpa: 0xDEAD000 }
    ));
    assert!(matches!(step(&mut engine, &VmExit::Halt), RecordAction::Halted));
    assert!(matches!(
        step(&mut engine, &VmExit::Unhandled { reason: 2 }),
        RecordAction::Stop { reason: 2 }
    ));
    assert!(engine.finalize().is_empty());
}

#[test]
fn successive_runs_concatenate() {
    let mut engine = RecordEngine::new();
    step(&mut engine, &VmExit::Rdtsc { instruction_length: 2, instruction_count: 5 });
    step(&mut engine, &VmExit::Halt);
    step(&mut engine, &VmExit::Cpuid { instruction_length: 2, instruction_count: 3 });
    step(&mut engine, &VmExit::Callout { thread_register: 1, instruction_count: 8 });
    let events = engine.finalize();
    let counts: Vec<u64> = events.iter().map(|e| e.instruction_count).collect();
    assert_eq!(counts, vec![5, 3, 8]);
}
