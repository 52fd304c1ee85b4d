//! Point-in-time snapshots of the guest state, and their deterministic hash.
use vstd::prelude::*;
use std::collections::HashMap;
use std::collections::hash_map::DefaultHasher;
use std::hash::Hasher;
use vstd::std_specs::hash::DefaultHasherAdditionalSpecFns;
use vstd::std_specs::iter::IteratorSpec;
use crate::memory::{le_bytes, le_bytes_of, AlignedMemory};
use crate::registers::{spec_reg64, RegisterValue};

verus! {

/// The contents of a snapshot: guest memory regions keyed by guest physical
/// address, and the captured register values in capture order.
pub struct SnapshotView {
    pub regions: Map<u64, Seq<u8>>,
    pub registers: Seq<RegisterValue>,
}

/// A point-in-time snapshot of the guest state.
pub struct Snapshot {
    pub memory_regions: HashMap<u64, AlignedMemory>,
    pub registers: Vec<RegisterValue>,
}

impl View for Snapshot {
    type V = SnapshotView;

    open spec fn view(&self) -> SnapshotView {
        SnapshotView {
            regions: self.memory_regions@.map_values(|m: AlignedMemory| m@),
            registers: self.registers@,
        }
    }
}

/// A sequence of addresses in strictly ascending order.
pub open spec fn strictly_ascending(s: Seq<u64>) -> bool {
    forall|i: int, j: int| 0 <= i < j < s.len() ==> s[i] < s[j]
}

/// The members of a finite set of addresses, in ascending order.
pub open spec fn ascending(keys: Set<u64>) -> Seq<u64> {
    choose|s: Seq<u64>| strictly_ascending(s) && s.to_set() == keys
}

/// Two ascending sequences of the same members are the same sequence.
proof fn lemma_ascending_unique(a: Seq<u64>, b: Seq<u64>)
    requires
        strictly_ascending(a),
        strictly_ascending(b),
        a.to_set() == b.to_set(),
    ensures
        a == b,
    decreases a.len(),
{
    if a.len() == 0 {
        if b.len() > 0 {
            assert(b.to_set().contains(b[0]));
        }
        assert(a =~= b);
    } else {
        assert(a.to_set().contains(a[0]));
        assert(b.len() > 0);
        assert(b.to_set().contains(b[0]));
        let ja = choose|j: int| 0 <= j < b.len() && b[j] == a[0];
        let jb = choose|j: int| 0 <= j < a.len() && a[j] == b[0];
        assert(b[0] <= a[0]) by {
            if ja > 0 {
                assert(b[0] < b[ja]);
            }
        }
        assert(a[0] <= b[0]) by {
            if jb > 0 {
                assert(a[0] < a[jb]);
            }
        }
        let ra = a.drop_first();
        let rb = b.drop_first();
        assert(ra.to_set() =~= rb.to_set()) by {
            assert forall|x: u64| ra.to_set().contains(x) implies rb.to_set().contains(x) by {
                let i = choose|i: int| 0 <= i < ra.len() && ra[i] == x;
                assert(a[i + 1] == x);
                assert(a.to_set().contains(x));
                let k = choose|k: int| 0 <= k < b.len() && b[k] == x;
                assert(k != 0);
                assert(rb[k - 1] == x);
            }
            assert forall|x: u64| rb.to_set().contains(x) implies ra.to_set().contains(x) by {
                let i = choose|i: int| 0 <= i < rb.len() && rb[i] == x;
                assert(b[i + 1] == x);
                assert(b.to_set().contains(x));
                let k = choose|k: int| 0 <= k < a.len() && a[k] == x;
                assert(k != 0);
                assert(ra[k - 1] == x);
            }
        }
        lemma_ascending_unique(ra, rb);
        assert(a =~= b) by {
            assert forall|i: int| 0 <= i < a.len() implies a[i] == b[i] by {
                if i > 0 {
                    assert(a[i] == ra[i - 1]);
                }
            }
        }
    }
}

/// A strictly ascending sequence of the members of `keys` is `ascending(keys)`.
proof fn lemma_is_ascending(s: Seq<u64>, keys: Set<u64>)
    requires
        strictly_ascending(s),
        s.to_set() == keys,
    ensures
        ascending(keys) == s,
{
    let t = ascending(keys);
    assert(strictly_ascending(t) && t.to_set() == keys);
    lemma_ascending_unique(s, t);
}

/// Inserts `k`, which `sorted` does not hold, at its place in `sorted`.
fn insert_ascending(sorted: &mut Vec<u64>, k: u64)
    requires
        strictly_ascending(old(sorted)@),
        !old(sorted)@.contains(k),
    ensures
        strictly_ascending(final(sorted)@),
        final(sorted)@.to_set() == old(sorted)@.to_set().insert(k),
{
    let mut pos: usize = 0;
    while pos < sorted.len() && sorted[pos] < k
        invariant
            pos <= sorted@.len(),
            forall|i: int| 0 <= i < pos ==> sorted@[i] < k,
        decreases sorted.len() - pos,
    {
        pos = pos + 1;
    }
    let ghost before = sorted@;
    assert(forall|i: int| pos <= i < before.len() ==> before[i] > k) by {
        assert forall|i: int| pos <= i < before.len() implies before[i] > k by {
            assert(before[pos as int] >= k);
            assert(before[pos as int] != k);
            if i > pos {
                assert(before[pos as int] < before[i]);
            }
        }
    }
    sorted.insert(pos, k);
    assert(sorted@ =~= before.insert(pos as int, k));
    assert(sorted@.to_set() =~= before.to_set().insert(k)) by {
        assert forall|x: u64| sorted@.to_set().contains(x) implies before.to_set().insert(k).contains(x) by {
            let i = choose|i: int| 0 <= i < sorted@.len() && sorted@[i] == x;
            if i < pos {
                assert(before[i] == x);
            } else if i > pos {
                assert(before[i - 1] == x);
            }
        }
        assert forall|x: u64| before.to_set().insert(k).contains(x) implies sorted@.to_set().contains(x) by {
            if x == k {
                assert(sorted@[pos as int] == k);
            } else {
                let i = choose|i: int| 0 <= i < before.len() && before[i] == x;
                if i < pos {
                    assert(sorted@[i] == x);
                } else {
                    assert(sorted@[i + 1] == x);
                }
            }
        }
    }
}

/// Whether the region captured at `base` holds the `len` bytes at `gpa`.
pub open spec fn covers(regions: Map<u64, Seq<u8>>, base: u64, gpa: u64, len: int) -> bool {
    regions.contains_key(base) && base <= gpa && gpa - base + len <= regions[base].len()
}

/// The width of `usize` in bytes.
pub open spec fn usize_bytes() -> nat {
    (usize::BITS / 8) as nat
}

/// What hashing the captured registers writes into the hasher: the low
/// 64 bits of each register, in capture order.
pub open spec fn register_hash_writes(regs: Seq<RegisterValue>) -> Seq<Seq<u8>> {
    Seq::new(regs.len(), |i: int| le_bytes(spec_reg64(regs[i]), 8))
}

/// What hashing the regions at `gpas` writes into the hasher: for each
/// address in turn, the address, then the region's length and bytes as a
/// byte slice is hashed.
pub open spec fn region_hash_writes(gpas: Seq<u64>, regions: Map<u64, Seq<u8>>) -> Seq<Seq<u8>>
    decreases gpas.len(),
{
    if gpas.len() == 0 {
        seq![]
    } else {
        let g = gpas.last();
        region_hash_writes(gpas.drop_last(), regions) + seq![
            le_bytes(g, 8),
            le_bytes(regions[g].len() as u64, usize_bytes()),
            regions[g],
        ]
    }
}

/// Everything hashing a snapshot writes into the hasher: the registers,
/// then the memory regions in ascending order of address.
pub open spec fn state_hash_writes(v: SnapshotView) -> Seq<Seq<u8>> {
    register_hash_writes(v.registers) + region_hash_writes(ascending(v.regions.dom()), v.regions)
}

/// The hash of a snapshot's contents.
pub open spec fn state_hash(v: SnapshotView) -> u64 {
    DefaultHasher::spec_finish(state_hash_writes(v))
}

impl Default for Snapshot {
    fn default() -> (s: Self)
        ensures
            s@.regions == Map::<u64, Seq<u8>>::empty(),
            s@.registers == Seq::<RegisterValue>::empty(),
    {
        Self::new()
    }
}

impl Snapshot {
    /// An empty snapshot.
    pub fn new() -> (s: Self)
        ensures
            s@.regions == Map::<u64, Seq<u8>>::empty(),
            s@.registers == Seq::<RegisterValue>::empty(),
    {
        let s = Snapshot { memory_regions: HashMap::new(), registers: Vec::new() };
        assert(s@.regions =~= Map::<u64, Seq<u8>>::empty());
        s
    }

    /// Captures a copy of the guest memory region at `gpa`, replacing any
    /// region captured earlier at the same address.
    pub fn capture_region(&mut self, gpa: u64, data: &[u8])
        ensures
            final(self)@.regions == old(self)@.regions.insert(gpa, data@),
            final(self)@.registers == old(self)@.registers,
    {
        let buffer = AlignedMemory::copy_of(data);
        self.memory_regions.insert(gpa, buffer);
        assert(self@.regions =~= old(self)@.regions.insert(gpa, data@));
    }

    /// Replaces the captured registers by `values`, read from the virtual CPU.
    pub fn capture_registers(&mut self, values: Vec<RegisterValue>)
        ensures
            final(self)@.regions == old(self)@.regions,
            final(self)@.registers == values@,
    {
        self.registers = values;
    }

    /// The captured region that holds the `len` bytes at `gpa`, as its
    /// address and the offset of `gpa` in it: the one at the lowest address
    /// if several do, `None` if none does.
    pub fn locate(&self, gpa: u64, len: usize) -> (r: Option<(u64, usize)>)
        ensures
            match r {
                Some((base, offset)) => {
                    &&& covers(self@.regions, base, gpa, len as int)
                    &&& offset == gpa - base
                    &&& forall|b: u64| #[trigger] covers(self@.regions, b, gpa, len as int) ==> base <= b
                },
                None => forall|b: u64| !#[trigger] covers(self@.regions, b, gpa, len as int),
            },
    {
        let gpas = self.region_gpas();
        let ghost regions = self@.regions;
        let mut i: usize = 0;
        while i < gpas.len()
            invariant
                i <= gpas@.len(),
                regions == self@.regions,
                strictly_ascending(gpas@),
                gpas@.to_set() == regions.dom(),
                forall|j: int| 0 <= j < i ==> !covers(regions, #[trigger] gpas@[j], gpa, len as int),
            decreases gpas.len() - i,
        {
            let base = gpas[i];
            assert(gpas@.to_set().contains(base));
            let mem = self.memory_regions.get(&base).unwrap();
            if base <= gpa && (gpa - base) as u128 + len as u128 <= mem.len() as u128 {
                proof {
                    assert forall|b: u64| #[trigger] covers(regions, b, gpa, len as int) implies base <= b by {
                        assert(regions.dom().contains(b));
                        assert(gpas@.to_set().contains(b));
                        let k = choose|k: int| 0 <= k < gpas@.len() && gpas@[k] == b;
                        if k < i {
                        } else if k > i {
                            assert(gpas@[i as int] < gpas@[k]);
                        }
                    }
                }
                return Some((base, (gpa - base) as usize));
            }
            i = i + 1;
        }
        proof {
            assert forall|b: u64| !#[trigger] covers(regions, b, gpa, len as int) by {
                if covers(regions, b, gpa, len as int) {
                    assert(gpas@.to_set().contains(b));
                    let k = choose|k: int| 0 <= k < gpas@.len() && gpas@[k] == b;
                    assert(!covers(regions, gpas@[k], gpa, len as int));
                }
            }
        }
        None
    }

    /// A deterministic hash of the captured state: the registers in capture
    /// order, then each memory region in ascending order of address. It
    /// depends on the snapshot's contents only, not on the order in which
    /// the regions are stored.
    pub fn hash_state(&self) -> (h: u64)
        ensures
            h == state_hash(self@),
    {
        let mut hasher = DefaultHasher::new();
        let ghost rw = register_hash_writes(self@.registers);
        let mut i: usize = 0;
        while i < self.registers.len()
            invariant
                i <= self.registers@.len(),
                rw == register_hash_writes(self@.registers),
                hasher@ == rw.take(i as int),
            decreases self.registers.len() - i,
        {
            let b = le_bytes_of(self.registers[i].reg64(), 8);
            hasher.write(b.as_slice());
            i = i + 1;
            assert(hasher@ =~= rw.take(i as int));
        }
        assert(rw.take(i as int) =~= rw);
        let gpas = self.region_gpas();
        let width = (usize::BITS / 8) as usize;
        let ghost regions = self@.regions;
        let mut j: usize = 0;
        while j < gpas.len()
            invariant
                j <= gpas@.len(),
                regions == self@.regions,
                gpas@.to_set() == regions.dom(),
                width == usize_bytes(),
                width <= 8,
                hasher@ == rw + region_hash_writes(gpas@.take(j as int), regions),
            decreases gpas.len() - j,
        {
            let gpa = gpas[j];
            assert(gpas@.to_set().contains(gpa));
            let mem = self.memory_regions.get(&gpa).unwrap();
            assert(mem@ == regions[gpa]);
            let gb = le_bytes_of(gpa, 8);
            hasher.write(gb.as_slice());
            let lb = le_bytes_of(mem.len() as u64, width);
            hasher.write(lb.as_slice());
            hasher.write(mem.as_ptr());
            proof {
                let t = gpas@.take(j + 1);
                assert(t.drop_last() =~= gpas@.take(j as int));
                assert(t.last() == gpa);
            }
            j = j + 1;
            assert(hasher@ =~= rw + region_hash_writes(gpas@.take(j as int), regions));
        }
        assert(gpas@.take(j as int) =~= gpas@);
        hasher.finish()
    }
    /// The guest physical addresses of the captured regions, in ascending order.
    pub fn region_gpas(&self) -> (gpas: Vec<u64>)
        ensures
            gpas@ == ascending(self@.regions.dom()),
            strictly_ascending(gpas@),
            gpas@.to_set() == self@.regions.dom(),
    {
        let mut sorted: Vec<u64> = Vec::new();
        let ghost keys = vstd::std_specs::hash::spec_keys_iter(&self.memory_regions).remaining();
        assert(keys.unref().no_duplicates()) by {
            assert forall|i: int, j: int| 0 <= i < keys.unref().len() && 0 <= j < keys.unref().len() && i != j
                implies keys.unref()[i] != keys.unref()[j] by {
                assert(keys[i] != keys[j]);
            }
        }
        for k in it: self.memory_regions.keys()
            invariant
                keys == vstd::std_specs::hash::spec_keys_iter(&self.memory_regions).remaining(),
                keys.unref().no_duplicates(),
                strictly_ascending(sorted@),
                sorted@.to_set() == keys.unref().take(it.index()).to_set(),
        {
            let ghost i = it.index();
            let ghost s = keys.unref();
            assert(it.seq() == keys);
            assert(s[i] == *k);
            assert(!sorted@.contains(*k)) by {
                if sorted@.contains(*k) {
                    assert(sorted@.to_set().contains(*k));
                    let j = choose|j: int| 0 <= j < s.take(i).len() && s.take(i)[j] == *k;
                    assert(s[j] == s[i]);
                }
            }
            insert_ascending(&mut sorted, *k);
            assert(s.take(i + 1).to_set() =~= s.take(i).to_set().insert(s[i])) by {
                assert(s.take(i + 1) =~= s.take(i).push(s[i]));
                s.take(i).lemma_push_to_set_commute(s[i]);
            }
        }
        proof {
            let s = keys.unref();
            assert(s.take(s.len() as int) =~= s);
            assert(s.to_set() == self.memory_regions@.dom());
            assert(self@.regions.dom() =~= self.memory_regions@.dom());
            lemma_is_ascending(sorted@, self@.regions.dom());
        }
        sorted
    }
}

} // verus!
