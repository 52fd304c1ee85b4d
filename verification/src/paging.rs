//! Identity-mapped page tables for x86_64 long mode.
use vstd::prelude::*;
use crate::memory::{le_bytes, le_bytes_of};

verus! {

/// Number of entries in one page-table page.
pub const ENTRIES_PER_TABLE: usize = 512;
/// Size in bytes of the three page-table pages (PML4, PDPT, PD).
pub const TABLES_SIZE: usize = 4096 * 3;
/// Present and writable.
pub const TABLE_FLAGS: u64 = 0x3;
/// Present, writable, and a 2 MiB page.
pub const LARGE_PAGE_FLAGS: u64 = 0x83;
/// Size of a 2 MiB page.
pub const LARGE_PAGE_SIZE: u64 = 0x200000;

/// Bits 12..51 of an entry: the physical address of the next table or of a 4 KiB frame.
pub const ADDRESS_MASK: u64 = 0x000F_FFFF_FFFF_F000;
/// Bits 21..51 of an entry: the physical address of a 2 MiB frame.
pub const LARGE_FRAME_MASK: u64 = 0x000F_FFFF_FFE0_0000;
/// Bits 30..51 of an entry: the physical address of a 1 GiB frame.
pub const HUGE_FRAME_MASK: u64 = 0x000F_FFFF_C000_0000;
/// The present bit.
pub const PRESENT: u64 = 0x1;
/// The page-size bit.
pub const PAGE_SIZE_BIT: u64 = 0x80;

/// The 3 * 512 entries of identity-mapping tables placed at `base`: the
/// PML4 (entries 0..512) points to the PDPT at `base + 4096`, the PDPT
/// (entries 512..1024) to the PD at `base + 8192`, and the PD (entries
/// 1024..1536) maps 512 pages of 2 MiB onto themselves.
pub open spec fn identity_tables(base: u64) -> Seq<u64> {
    Seq::new(
        (3 * ENTRIES_PER_TABLE) as nat,
        |k: int|
            if k == 0 {
                ((base + 4096) as u64) | TABLE_FLAGS
            } else if k == 512 {
                ((base + 8192) as u64) | TABLE_FLAGS
            } else if 1024 <= k {
                (((k - 1024) * 0x200000) as u64) | LARGE_PAGE_FLAGS
            } else {
                0u64
            },
    )
}

/// The 64-bit word at guest physical address `addr` when guest memory
/// holds `words` from `base` on, if `addr` is a word of it.
pub open spec fn read_word(words: Seq<u64>, base: u64, addr: int) -> Option<u64> {
    if base <= addr < base + 8 * words.len() && (addr - base) % 8 == 0 {
        Some(words[(addr - base) / 8])
    } else {
        None
    }
}

/// Index of `va` in a table of the given level (4 for the PML4 .. 1 for a PT).
pub open spec fn table_index(va: u64, level: u64) -> u64 {
    (va >> (12 + 9 * (level - 1)) as u64) & 0x1FF
}

/// The entry of the next lower level's table that `va` selects, given an
/// entry that points to that table.
pub open spec fn next_entry(words: Seq<u64>, base: u64, entry: u64, va: u64, level: u64) -> Option<u64> {
    read_word(words, base, (entry & ADDRESS_MASK) + 8 * table_index(va, level))
}

/// Whether an entry is present.
pub open spec fn present(e: u64) -> bool {
    e & PRESENT == PRESENT
}

/// Whether an entry maps a page rather than a table.
pub open spec fn maps_page(e: u64) -> bool {
    e & PAGE_SIZE_BIT == PAGE_SIZE_BIT
}

/// Whether a linear address is canonical under 4-level paging: bits 47..63
/// all equal.
pub open spec fn canonical(va: u64) -> bool {
    va < 0x0000_8000_0000_0000 || va >= 0xFFFF_8000_0000_0000
}

/// The guest physical address that the x86_64 4-level page walk gives for
/// the linear address `va`, with CR3 = `cr3` and guest memory holding
/// `words` from `base` on; `None` for a non-canonical address, a page fault
/// or a walk that leaves `words`.
pub open spec fn translate(words: Seq<u64>, base: u64, cr3: u64, va: u64) -> Option<u64> {
    if !canonical(va) {
        None
    } else {
        translate_canonical(words, base, cr3, va)
    }
}

/// The 4-level page walk for a canonical linear address.
pub open spec fn translate_canonical(words: Seq<u64>, base: u64, cr3: u64, va: u64) -> Option<u64> {
    match read_word(words, base, (cr3 & ADDRESS_MASK) + 8 * table_index(va, 4)) {
        Some(e4) if present(e4) => match next_entry(words, base, e4, va, 3) {
            Some(e3) if present(e3) && maps_page(e3) => Some(
                (e3 & HUGE_FRAME_MASK) | (va & 0x3FFF_FFFF),
            ),
            Some(e3) if present(e3) => match next_entry(words, base, e3, va, 2) {
                Some(e2) if present(e2) && maps_page(e2) => Some(
                    (e2 & LARGE_FRAME_MASK) | (va & 0x1F_FFFF),
                ),
                Some(e2) if present(e2) => match next_entry(words, base, e2, va, 1) {
                    Some(e1) if present(e1) => Some((e1 & ADDRESS_MASK) | (va & 0xFFF)),
                    _ => None,
                },
                _ => None,
            },
            _ => None,
        },
        _ => None,
    }
}

/// The little-endian bytes of a sequence of 64-bit words.
pub open spec fn words_le_bytes(words: Seq<u64>) -> Seq<u8> {
    Seq::new(8 * words.len(), |k: int| le_bytes(words[k / 8], 8)[k % 8])
}

/// Identity-mapped page tables for x86_64 long mode.
pub struct PageTable {
    /// Guest physical address of the PML4, where the tables are placed.
    pub pml4_gpa: u64,
    /// The entries of the PML4, the PDPT and the PD, one page each.
    pub entries: Vec<u64>,
    /// Size in bytes of the tables.
    pub size: usize,
}

impl PageTable {
    /// Creates tables that map the first 1 GiB of guest memory onto itself
    /// with 2 MiB pages, to be placed at `base_gpa`.
    pub fn create_identity_mapping(base_gpa: u64) -> (pt: Self)
        requires
            base_gpa + 8192 <= u64::MAX,
        ensures
            pt.pml4_gpa == base_gpa,
            pt.size == TABLES_SIZE,
            pt.entries@ == identity_tables(base_gpa),
    {
        let size = TABLES_SIZE;
        let mut entries = vec![0u64; 3 * ENTRIES_PER_TABLE];
        entries.set(0, (base_gpa + 4096) | TABLE_FLAGS);
        entries.set(512, (base_gpa + 8192) | TABLE_FLAGS);
        let mut i: usize = 0;
        while i < ENTRIES_PER_TABLE
            invariant
                i <= ENTRIES_PER_TABLE,
                entries@.len() == 3 * ENTRIES_PER_TABLE,
                forall|k: int|
                    0 <= k < 1024 + i ==> #[trigger] entries@[k] == identity_tables(base_gpa)[k],
                forall|k: int| 1024 + i <= k < 1536 ==> #[trigger] entries@[k] == 0u64,
            decreases ENTRIES_PER_TABLE - i,
        {
            entries.set(1024 + i, ((i as u64) * LARGE_PAGE_SIZE) | LARGE_PAGE_FLAGS);
            i = i + 1;
        }
        assert(entries@ =~= identity_tables(base_gpa));
        PageTable { pml4_gpa: base_gpa, entries, size }
    }

    /// The tables as guest memory holds them: each entry in little-endian order.
    pub fn to_bytes(&self) -> (b: Vec<u8>)
        requires
            8 * self.entries@.len() <= usize::MAX,
        ensures
            b@ == words_le_bytes(self.entries@),
    {
        let mut b: Vec<u8> = Vec::new();
        let mut i: usize = 0;
        while i < self.entries.len()
            invariant
                i <= self.entries@.len(),
                8 * self.entries@.len() <= usize::MAX,
                b@ == words_le_bytes(self.entries@.take(i as int)),
            decreases self.entries.len() - i,
        {
            let w = le_bytes_of(self.entries[i], 8);
            let ghost before = b@;
            let mut j: usize = 0;
            while j < 8
                invariant
                    j <= 8,
                    w@ == le_bytes(self.entries@[i as int], 8),
                    i < self.entries@.len(),
                    b@ == before + w@.take(j as int),
                decreases 8 - j,
            {
                b.push(w[j]);
                j = j + 1;
                assert(b@ =~= before + w@.take(j as int));
            }
            i = i + 1;
            assert(b@ =~= words_le_bytes(self.entries@.take(i as int))) by {
                let s = self.entries@.take(i as int);
                assert forall|k: int| 0 <= k < b@.len() implies b@[k] == words_le_bytes(s)[k] by {
                    if k < before.len() {
                        assert(before == words_le_bytes(self.entries@.take(i - 1)));
                        assert(s[k / 8] == self.entries@.take(i - 1)[k / 8]);
                    } else {
                        assert(k / 8 == i - 1);
                    }
                }
            }
        }
        assert(self.entries@.take(i as int) =~= self.entries@);
        b
    }
}

/// Guest physical addresses are at most 52 bits wide.
pub const PHYS_ADDR_LIMIT: u64 = 0x10_0000_0000_0000;
/// One GiB, the extent of the identity mapping.
pub const IDENTITY_LIMIT: u64 = 0x4000_0000;

proof fn lemma_table_entry(t: u64)
    by (bit_vector)
    requires
        t % 4096 == 0,
        t < 0x10_0000_0000_0000,
    ensures
        (t | 0x3) & 0x1 == 0x1,
        (t | 0x3) & 0x80 == 0,
        (t | 0x3) & 0x000F_FFFF_FFFF_F000 == t,
        t & 0x000F_FFFF_FFFF_F000 == t,
{
}

proof fn lemma_large_entry(va: u64)
    by (bit_vector)
    requires
        va < 0x4000_0000,
    ensures
        (va >> 39u64) & 0x1FF == 0,
        (va >> 30u64) & 0x1FF == 0,
        (va >> 21u64) & 0x1FF < 512,
        ((((va >> 21u64) & 0x1FF) * 0x200000) as u64 | 0x83) & 0x1 == 0x1,
        ((((va >> 21u64) & 0x1FF) * 0x200000) as u64 | 0x83) & 0x80 == 0x80,
        (((((va >> 21u64) & 0x1FF) * 0x200000) as u64 | 0x83) & 0x000F_FFFF_FFE0_0000) | (va
            & 0x1F_FFFF) == va,
{
}

proof fn lemma_upper_indices(va: u64)
    by (bit_vector)
    requires
        0x4000_0000 <= va,
        va < 0x0000_8000_0000_0000 || va >= 0xFFFF_8000_0000_0000,
    ensures
        (va >> 39u64) & 0x1FF == 0 ==> (va >> 30u64) & 0x1FF != 0,
{
}

/// The identity tables, placed at a page-aligned `base` within the 52-bit
/// physical address space, map every linear address of the first GiB onto
/// the same guest physical address.
pub proof fn lemma_identity_mapping(base: u64, va: u64)
    requires
        base % 4096 == 0,
        base + TABLES_SIZE <= PHYS_ADDR_LIMIT,
        va < IDENTITY_LIMIT,
    ensures
        translate(identity_tables(base), base, base, va) == Some(va),
{
    let w = identity_tables(base);
    let pdpt = (base + 4096) as u64;
    let pd = (base + 8192) as u64;
    lemma_table_entry(base);
    lemma_table_entry(pdpt);
    lemma_table_entry(pd);
    lemma_large_entry(va);
    let p = (va >> 21u64) & 0x1FF;
    assert(table_index(va, 4) == (va >> 39u64) & 0x1FF);
    assert(table_index(va, 3) == (va >> 30u64) & 0x1FF);
    assert(table_index(va, 2) == p);
    assert(read_word(w, base, (base & ADDRESS_MASK) + 8 * table_index(va, 4)) == Some(pdpt | TABLE_FLAGS));
    let e4 = pdpt | TABLE_FLAGS;
    assert(next_entry(w, base, e4, va, 3) == Some(pd | TABLE_FLAGS)) by {
        assert((base + 4096 - base) / 8 == 512);
    }
    let e3 = pd | TABLE_FLAGS;
    let e2 = ((p * 0x200000) as u64) | LARGE_PAGE_FLAGS;
    assert(next_entry(w, base, e3, va, 2) == Some(e2)) by {
        assert((base + 8192 + 8 * p - base) / 8 == 1024 + p);
        assert(w[1024 + p] == e2);
    }
}

/// Outside the first GiB the identity tables map nothing: every other
/// linear address faults (the non-canonical ones by their form, the
/// canonical ones at an empty PML4 or PDPT entry).
pub proof fn lemma_identity_mapping_bounded(base: u64, va: u64)
    requires
        base % 4096 == 0,
        base + TABLES_SIZE <= PHYS_ADDR_LIMIT,
        IDENTITY_LIMIT <= va,
    ensures
        translate(identity_tables(base), base, base, va) is None,
{
    if canonical(va) {
        let w = identity_tables(base);
        let pdpt = (base + 4096) as u64;
        lemma_table_entry(base);
        lemma_table_entry(pdpt);
        lemma_upper_indices(va);
        let i4 = table_index(va, 4);
        let i3 = table_index(va, 3);
        assert(i4 == (va >> 39u64) & 0x1FF);
        assert(i3 == (va >> 30u64) & 0x1FF);
        assert(i4 < 512 && i3 < 512) by (bit_vector)
            requires
                i4 == (va >> 39u64) & 0x1FF,
                i3 == (va >> 30u64) & 0x1FF,
        ;
        if i4 != 0 {
            assert((base + 8 * i4 - base) / 8 == i4);
            assert(w[i4 as int] == 0);
            assert(0u64 & 0x1 == 0) by (bit_vector);
        } else {
            assert((base + 4096 + 8 * i3 - base) / 8 == 512 + i3);
            assert(w[512 + i3] == 0);
            assert(0u64 & 0x1 == 0) by (bit_vector);
        }
    }
}

} // verus!
