//! Properties that relate several operations of the library.
use vstd::prelude::*;
use crate::exits::VmExit;
use crate::record::{
    exit_instruction_count, record_resumes, recorded_event, RecordAction, SIM_CPUID_EAX,
    SIM_CPUID_EBX, SIM_CPUID_ECX, SIM_CPUID_EDX, SIM_RDTSC_RAX, SIM_RDTSC_RDX,
};
use crate::replay::{replay_decision, ReplayAction};
use crate::snapshot::{
    ascending, region_hash_writes, state_hash, state_hash_writes, strictly_ascending,
    usize_bytes, SnapshotView,
};
use crate::memory::le_bytes;
use crate::registers::spec_reg64;
use vstd::relations::{is_maximal, total_ordering};
use crate::trace::{event_memory_writes, EventType, TraceEvent};
use crate::registers::{RegisterName, RegisterValue, RegisterWrite};
use crate::replay::paired_writes;
use crate::vcpu::long_mode_writes;
use crate::loader::{
    has_raw_data, image_size, load_sections, loaded_image, sections_fit, PeHeadersView,
    SectionHeader,
};
use crate::memory::zeros;

verus! {

/// Replay reproduces recording: on an exit that recording answered with
/// event `ev` (CPUID, RDTSC, a thread switch, or a serviced system call),
/// replaying the event recording handed out, against the same exit, injects
/// exactly the register writes that recording made and moves RIP by the same
/// amount.
pub proof fn lemma_replay_reproduces_record(
    exit: VmExit,
    ev: EventType,
    recorded: RecordAction,
    replayed: ReplayAction,
)
    requires
        recorded_event(exit) == Some(ev) || (exit is Syscall && ev is Syscall),
        record_resumes(exit, ev, recorded),
        replay_decision(exit, recorded->event, replayed),
    ensures
        recorded matches RecordAction::Resume { writes: rec_writes, advance: rec_advance, .. }
            && replayed matches ReplayAction::Inject { writes, advance }
            && writes@ == rec_writes@ && advance == rec_advance,
{
}

/// The events recording hands out for a run whose exits are `exits`, up to
/// the first exit it does not answer on its own (a stop, or a system call
/// that needs servicing).
pub open spec fn logged_by(exits: Seq<VmExit>) -> Seq<TraceEvent>
    decreases exits.len(),
{
    if exits.len() == 0 {
        seq![]
    } else {
        match recorded_event(exits[0]) {
            Some(ev) => seq![TraceEvent { instruction_count: exit_instruction_count(exits[0]), event: ev }]
                + logged_by(exits.drop_first()),
            None => seq![],
        }
    }
}

/// What recording observes of an exit: the event it answers with and the
/// retired-instruction count.
pub open spec fn same_observation(a: VmExit, b: VmExit) -> bool {
    recorded_event(a) == recorded_event(b) && exit_instruction_count(a) == exit_instruction_count(b)
}

/// A run logs at most one event per exit.
proof fn lemma_logged_by_len(exits: Seq<VmExit>)
    ensures
        logged_by(exits).len() <= exits.len(),
    decreases exits.len(),
{
    if exits.len() > 0 {
        lemma_logged_by_len(exits.drop_first());
    }
}

/// The events `logged_by` lists are exactly those the record engine hands
/// out, exit by exit.
pub proof fn lemma_logged_by_is_handed_out(exits: Seq<VmExit>, i: int, action: RecordAction)
    requires
        0 <= i < logged_by(exits).len(),
        record_resumes(exits[i], recorded_event(exits[i])->0, action),
    ensures
        action->event == logged_by(exits)[i],
    decreases exits.len(),
{
    lemma_logged_by_len(exits);
    if i > 0 {
        assert(exits.drop_first()[i - 1] == exits[i]);
        lemma_logged_by_is_handed_out(exits.drop_first(), i - 1, action);
    }
}

/// Recorded CPUID and RDTSC events always hold the fixed values the engine
/// presents to the guest, whatever the host's own values.
pub proof fn lemma_recorded_values_fixed(exits: Seq<VmExit>, i: int)
    requires
        0 <= i < logged_by(exits).len(),
    ensures
        logged_by(exits)[i].event is Cpuid ==> logged_by(exits)[i].event == (EventType::Cpuid {
            eax: SIM_CPUID_EAX,
            ebx: SIM_CPUID_EBX,
            ecx: SIM_CPUID_ECX,
            edx: SIM_CPUID_EDX,
        }),
        logged_by(exits)[i].event is Rdtsc ==> logged_by(exits)[i].event == (EventType::Rdtsc {
            rax: SIM_RDTSC_RAX,
            rdx: SIM_RDTSC_RDX,
        }),
    decreases exits.len(),
{
    lemma_logged_by_len(exits);
    if i > 0 {
        lemma_recorded_values_fixed(exits.drop_first(), i - 1);
    }
}

/// Two runs whose exits are observed alike, exit by exit, log the same trace.
pub proof fn lemma_same_observations_same_trace(a: Seq<VmExit>, b: Seq<VmExit>)
    requires
        a.len() == b.len(),
        forall|i: int| 0 <= i < a.len() ==> same_observation(#[trigger] a[i], b[i]),
    ensures
        logged_by(a) == logged_by(b),
    decreases a.len(),
{
    if a.len() > 0 {
        assert(same_observation(a[0], b[0]));
        lemma_same_observations_same_trace(a.drop_first(), b.drop_first());
    }
}

/// The log after committing (or logging) `evs` in turn onto `log`.
pub open spec fn commit_all(log: Seq<TraceEvent>, evs: Seq<TraceEvent>) -> Seq<TraceEvent>
    decreases evs.len(),
{
    if evs.len() == 0 {
        log
    } else {
        commit_all(log.push(evs[0]), evs.drop_first())
    }
}

/// Logging keeps order: committing events one by one onto a log (each
/// `RecordEngine::commit` or `TraceLogger::log_event` appends one) leaves
/// the log followed by those events in committing order.
pub proof fn lemma_commits_append(log: Seq<TraceEvent>, evs: Seq<TraceEvent>)
    ensures
        commit_all(log, evs) == log + evs,
    decreases evs.len(),
{
    if evs.len() > 0 {
        lemma_commits_append(log.push(evs[0]), evs.drop_first());
        assert(log.push(evs[0]) + evs.drop_first() =~= log + evs);
    }
}

/// The trace of successive runs on one record engine is the concatenation
/// of their traces in run order; with no run it is empty.
pub proof fn lemma_runs_concatenate(runs: Seq<Seq<TraceEvent>>)
    ensures
        runs.fold_left(Seq::<TraceEvent>::empty(), |log: Seq<TraceEvent>, run: Seq<TraceEvent>| commit_all(log, run))
            == runs.fold_left(Seq::<TraceEvent>::empty(), |log: Seq<TraceEvent>, run: Seq<TraceEvent>| log + run),
    decreases runs.len(),
{
    let f = |log: Seq<TraceEvent>, run: Seq<TraceEvent>| commit_all(log, run);
    let g = |log: Seq<TraceEvent>, run: Seq<TraceEvent>| log + run;
    if runs.len() > 0 {
        lemma_runs_concatenate(runs.drop_last());
        lemma_commits_append(runs.drop_last().fold_left(Seq::<TraceEvent>::empty(), f), runs.last());
    }
}

/// The state hash does not depend on the order in which regions were
/// captured: capturing two regions at different addresses in either order
/// gives snapshots with the same hash.
pub proof fn lemma_hash_ignores_capture_order(
    v: SnapshotView,
    gpa1: u64,
    data1: Seq<u8>,
    gpa2: u64,
    data2: Seq<u8>,
)
    requires
        gpa1 != gpa2,
    ensures
        state_hash(
            SnapshotView {
                regions: v.regions.insert(gpa1, data1).insert(gpa2, data2),
                registers: v.registers,
            },
        ) == state_hash(
            SnapshotView {
                regions: v.regions.insert(gpa2, data2).insert(gpa1, data1),
                registers: v.registers,
            },
        ),
{
    assert(v.regions.insert(gpa1, data1).insert(gpa2, data2) =~= v.regions.insert(
        gpa2,
        data2,
    ).insert(gpa1, data1));
}

/// Long mode is entered with the architectural control values: every write
/// to CR0 sets PG, NE and PE (0x8000_0031), every write to CR4 sets PAE and
/// OSFXSR (0x620), every write to EFER sets LME and LMA (0x500), CR3 points
/// at the PML4, and each of these registers is written.
pub proof fn lemma_long_mode_control_registers(pml4_gpa: u64)
    ensures
        forall|i: int| #![trigger long_mode_writes(pml4_gpa)[i]]
            0 <= i < long_mode_writes(pml4_gpa).len() ==> {
                let w = long_mode_writes(pml4_gpa)[i];
                &&& w.name == RegisterName::Cr0 ==> w.value == RegisterValue::Reg64(0x8000_0031)
                &&& w.name == RegisterName::Cr4 ==> w.value == RegisterValue::Reg64(0x620)
                &&& w.name == RegisterName::Efer ==> w.value == RegisterValue::Reg64(0x500)
                &&& w.name == RegisterName::Cr3 ==> w.value == RegisterValue::Reg64(pml4_gpa)
            },
        long_mode_writes(pml4_gpa).contains(
            RegisterWrite { name: RegisterName::Cr0, value: RegisterValue::Reg64(0x8000_0031) },
        ),
        long_mode_writes(pml4_gpa).contains(
            RegisterWrite { name: RegisterName::Cr4, value: RegisterValue::Reg64(0x620) },
        ),
        long_mode_writes(pml4_gpa).contains(
            RegisterWrite { name: RegisterName::Efer, value: RegisterValue::Reg64(0x500) },
        ),
        long_mode_writes(pml4_gpa).contains(
            RegisterWrite { name: RegisterName::Cr3, value: RegisterValue::Reg64(pml4_gpa) },
        ),
{
    let w = long_mode_writes(pml4_gpa);
    assert(w[0] == RegisterWrite { name: RegisterName::Cr3, value: RegisterValue::Reg64(pml4_gpa) });
    assert(w[1] == RegisterWrite { name: RegisterName::Cr4, value: RegisterValue::Reg64(0x620) });
    assert(w[2] == RegisterWrite { name: RegisterName::Efer, value: RegisterValue::Reg64(0x500) });
    assert(w[3] == RegisterWrite { name: RegisterName::Cr0, value: RegisterValue::Reg64(0x8000_0031) });
}

/// A replayed system call writes back every buffer it recorded, all of them
/// and in recorded order; other events write no guest memory.
pub proof fn lemma_syscall_writes_every_buffer(event: EventType)
    ensures
        event matches EventType::Syscall { memory_writes, .. } ==> event_memory_writes(event)
            == memory_writes@,
        !(event is Syscall) ==> event_memory_writes(event).len() == 0,
{
}

/// Restoring a snapshot writes back every captured register, each under the
/// name given at its position, whatever its value.
pub proof fn lemma_restore_writes_every_register(
    names: Seq<RegisterName>,
    values: Seq<RegisterValue>,
)
    requires
        names.len() == values.len(),
    ensures
        paired_writes(names, values).len() == values.len(),
        forall|i: int| 0 <= i < values.len() ==> #[trigger] paired_writes(names, values)[i]
            == (RegisterWrite { name: names[i], value: values[i] }),
{
}

/// Whether section `s` has file data that lands on image byte `a`.
pub open spec fn section_covers(s: SectionHeader, a: int) -> bool {
    has_raw_data(s) && s.virtual_address <= a < s.virtual_address + s.size_of_raw_data
}

/// Loading sections never changes the image's length.
proof fn lemma_load_sections_len(img: Seq<u8>, secs: Seq<SectionHeader>, raw: Seq<u8>, k: nat)
    requires
        k <= secs.len(),
    ensures
        load_sections(img, secs, raw, k).len() == img.len(),
    decreases k,
{
    if k > 0 {
        lemma_load_sections_len(img, secs, raw, (k - 1) as nat);
    }
}

/// An image byte that no section among the first `k` covers keeps its value.
proof fn lemma_load_sections_untouched(
    img: Seq<u8>,
    secs: Seq<SectionHeader>,
    raw: Seq<u8>,
    k: nat,
    a: int,
)
    requires
        k <= secs.len(),
        0 <= a < img.len(),
        forall|j: int| 0 <= j < k ==> !section_covers(#[trigger] secs[j], a),
        forall|j: int|
            0 <= j < k && has_raw_data(#[trigger] secs[j]) ==> secs[j].pointer_to_raw_data
                + secs[j].size_of_raw_data <= raw.len(),
    ensures
        load_sections(img, secs, raw, k)[a] == img[a],
    decreases k,
{
    if k > 0 {
        lemma_load_sections_untouched(img, secs, raw, (k - 1) as nat, a);
        lemma_load_sections_len(img, secs, raw, (k - 1) as nat);
        assert(!section_covers(secs[k - 1], a));
    }
}

/// After the first `k > i` sections, a byte of section `i` that no later
/// section among them covers holds the section's file data.
proof fn lemma_load_sections_keeps(
    h: PeHeadersView,
    raw: Seq<u8>,
    k: nat,
    i: int,
    t: int,
)
    requires
        sections_fit(h, raw),
        0 <= i < k <= h.sections.len(),
        has_raw_data(h.sections[i]),
        0 <= t < h.sections[i].size_of_raw_data,
        forall|j: int|
            i < j < k ==> !section_covers(
                #[trigger] h.sections[j],
                h.sections[i].virtual_address + t,
            ),
    ensures
        load_sections(zeros(image_size(h)), h.sections, raw, k)[h.sections[i].virtual_address + t]
            == raw[h.sections[i].pointer_to_raw_data + t],
    decreases k,
{
    let secs = h.sections;
    let img = zeros(image_size(h));
    let a = secs[i].virtual_address + t;
    lemma_load_sections_len(img, secs, raw, (k - 1) as nat);
    if k - 1 == i {
        assert(secs[i].pointer_to_raw_data + secs[i].size_of_raw_data <= raw.len());
        assert(secs[i].virtual_address + secs[i].size_of_raw_data <= image_size(h));
    } else {
        lemma_load_sections_keeps(h, raw, (k - 1) as nat, i, t);
        assert(!section_covers(secs[k - 1], a));
    }
}

/// Every section is loaded: each byte of a section's file data lands at its
/// place in the image, unless a later section of the table writes over it.
pub proof fn lemma_every_section_loaded(h: PeHeadersView, raw: Seq<u8>, i: int, t: int)
    requires
        sections_fit(h, raw),
        0 <= i < h.sections.len(),
        has_raw_data(h.sections[i]),
        0 <= t < h.sections[i].size_of_raw_data,
        forall|j: int|
            i < j < h.sections.len() ==> !section_covers(
                #[trigger] h.sections[j],
                h.sections[i].virtual_address + t,
            ),
    ensures
        loaded_image(h, raw)[h.sections[i].virtual_address + t] == raw[h.sections[i].pointer_to_raw_data
            + t],
{
    lemma_load_sections_keeps(h, raw, h.sections.len(), i, t);
}

/// The loaded image has the rounded image size, and every byte that no
/// section's file data covers is zero.
pub proof fn lemma_image_zero_elsewhere(h: PeHeadersView, raw: Seq<u8>, a: int)
    requires
        sections_fit(h, raw),
        0 <= a < image_size(h),
        forall|j: int| 0 <= j < h.sections.len() ==> !section_covers(#[trigger] h.sections[j], a),
    ensures
        loaded_image(h, raw).len() == image_size(h),
        loaded_image(h, raw)[a] == 0,
{
    lemma_load_sections_len(zeros(image_size(h)), h.sections, raw, h.sections.len());
    lemma_load_sections_untouched(zeros(image_size(h)), h.sections, raw, h.sections.len(), a);
}

/// Every finite set of addresses has an ascending enumeration.
proof fn lemma_ascending_exists(keys: Set<u64>)
    requires
        keys.finite(),
    ensures
        strictly_ascending(ascending(keys)),
        ascending(keys).to_set() == keys,
    decreases keys.len(),
{
    if keys.len() == 0 {
        let q = Seq::<u64>::empty();
        assert(q.to_set() =~= keys);
        assert(strictly_ascending(q) && q.to_set() == keys);
    } else {
        let leq = |a: u64, b: u64| a <= b;
        assert(total_ordering(leq));
        keys.find_unique_maximal_ensures(leq);
        let m = keys.find_unique_maximal(leq);
        let rest = keys.remove(m);
        lemma_ascending_exists(rest);
        let r = ascending(rest);
        let q = r.push(m);
        assert(is_maximal(leq, m, keys));
        assert forall|x: u64| rest.contains(x) implies x < m by {
            assert(keys.contains(x));
            assert(x != m);
            if m <= x {
                assert(leq(m, x));
                assert(leq(x, m));
            }
        }
        assert(strictly_ascending(q)) by {
            assert forall|i: int, j: int| 0 <= i < j < q.len() implies q[i] < q[j] by {
                if j == q.len() - 1 {
                    assert(r.to_set().contains(r[i]));
                } else {
                    assert(q[i] == r[i] && q[j] == r[j]);
                }
            }
        }
        assert(q.to_set() =~= keys) by {
            r.lemma_push_to_set_commute(m);
        }
        assert(strictly_ascending(q) && q.to_set() == keys);
    }
}

/// What hashing the regions at `gpas` writes: address, length and every
/// byte of each region, region after region.
proof fn lemma_region_hash_layout(gpas: Seq<u64>, regions: Map<u64, Seq<u8>>)
    ensures
        region_hash_writes(gpas, regions).len() == 3 * gpas.len(),
        forall|j: int| #![trigger gpas[j]]
            0 <= j < gpas.len() ==> {
                &&& region_hash_writes(gpas, regions)[3 * j] == le_bytes(gpas[j], 8)
                &&& region_hash_writes(gpas, regions)[3 * j + 1] == le_bytes(
                    regions[gpas[j]].len() as u64,
                    usize_bytes(),
                )
                &&& region_hash_writes(gpas, regions)[3 * j + 2] == regions[gpas[j]]
            },
    decreases gpas.len(),
{
    if gpas.len() > 0 {
        let init = gpas.drop_last();
        lemma_region_hash_layout(init, regions);
        assert forall|j: int| #![trigger gpas[j]] 0 <= j < gpas.len() implies {
            &&& region_hash_writes(gpas, regions)[3 * j] == le_bytes(gpas[j], 8)
            &&& region_hash_writes(gpas, regions)[3 * j + 1] == le_bytes(
                regions[gpas[j]].len() as u64,
                usize_bytes(),
            )
            &&& region_hash_writes(gpas, regions)[3 * j + 2] == regions[gpas[j]]
        } by {
            if j < gpas.len() - 1 {
                assert(init[j] == gpas[j]);
            }
        }
    }
}

/// The state hash reads the whole snapshot: the low 64 bits of each captured
/// register in capture order, then for each region in ascending order of
/// address its address, its length and all of its bytes.
pub proof fn lemma_hash_writes_layout(v: SnapshotView)
    requires
        v.regions.dom().finite(),
    ensures
        ({
            let g = ascending(v.regions.dom());
            let r = v.registers.len();
            let w = state_hash_writes(v);
            &&& strictly_ascending(g)
            &&& g.to_set() == v.regions.dom()
            &&& w.len() == r + 3 * g.len()
            &&& forall|i: int| 0 <= i < r ==> #[trigger] w[i] == le_bytes(spec_reg64(v.registers[i]), 8)
            &&& forall|j: int| #![trigger g[j]]
                0 <= j < g.len() ==> {
                    &&& w[r + 3 * j] == le_bytes(g[j], 8)
                    &&& w[r + 3 * j + 1] == le_bytes(v.regions[g[j]].len() as u64, usize_bytes())
                    &&& w[r + 3 * j + 2] == v.regions[g[j]]
                }
        }),
{
    let g = ascending(v.regions.dom());
    lemma_ascending_exists(v.regions.dom());
    lemma_region_hash_layout(g, v.regions);
    let r = v.registers.len();
    let w = state_hash_writes(v);
    assert forall|j: int| #![trigger g[j]] 0 <= j < g.len() implies {
        &&& w[r + 3 * j] == le_bytes(g[j], 8)
        &&& w[r + 3 * j + 1] == le_bytes(v.regions[g[j]].len() as u64, usize_bytes())
        &&& w[r + 3 * j + 2] == v.regions[g[j]]
    } by {
        assert(w[r + 3 * j] == region_hash_writes(g, v.regions)[3 * j]);
        assert(w[r + 3 * j + 1] == region_hash_writes(g, v.regions)[3 * j + 1]);
        assert(w[r + 3 * j + 2] == region_hash_writes(g, v.regions)[3 * j + 2]);
    }
}

/// The hash covers every byte: two snapshots with the same registers and
/// regions at the same addresses with the same lengths, whose contents
/// differ at any one offset of any region, feed the hasher different input.
pub proof fn lemma_hash_covers_every_byte(v1: SnapshotView, v2: SnapshotView, gpa: u64, k: int)
    requires
        v1.regions.dom().finite(),
        v1.registers == v2.registers,
        v1.regions.dom() == v2.regions.dom(),
        v1.regions.contains_key(gpa),
        v1.regions[gpa].len() == v2.regions[gpa].len(),
        0 <= k < v1.regions[gpa].len(),
        v1.regions[gpa][k] != v2.regions[gpa][k],
    ensures
        state_hash_writes(v1) != state_hash_writes(v2),
{
    lemma_hash_writes_layout(v1);
    lemma_hash_writes_layout(v2);
    let g = ascending(v1.regions.dom());
    assert(g.to_set().contains(gpa));
    let j = choose|j: int| 0 <= j < g.len() && g[j] == gpa;
    let r = v1.registers.len();
    assert(state_hash_writes(v1)[r + 3 * j + 2] == v1.regions[gpa]);
    assert(state_hash_writes(v2)[r + 3 * j + 2] == v2.regions[gpa]);
    assert(v1.regions[gpa] != v2.regions[gpa]);
}

} // verus!
