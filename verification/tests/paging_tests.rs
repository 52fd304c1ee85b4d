use vestigium::paging::{PageTable, TABLES_SIZE};

/// The x86_64 4-level walk over guest memory that holds `words` at `base`.
fn walk(words: &[u64], base: u64, cr3: u64, va: u64) -> Option<u64> {
    let read = |addr: u64| -> Option<u64> {
        if addr < base || (addr - base) % 8 != 0 || (addr - base) / 8 >= words.len() as u64 {
            None
        } else {
            Some(words[((addr - base) / 8) as usize])
        }
    };
    if !(va < 0x0000_8000_0000_0000 || va >= 0xFFFF_8000_0000_0000) {
        return None;
    }
    let mask = 0x000F_FFFF_FFFF_F000u64;
    let e4 = read((cr3 & mask) + 8 * ((va >> 39) & 0x1FF))?;
    if e4 & 1 == 0 {
        return None;
    }
    let e3 = read((e4 & mask) + 8 * ((va >> 30) & 0x1FF))?;
    if e3 & 1 == 0 {
        return None;
    }
    if e3 & 0x80 != 0 {
        return Some((e3 & 0x000F_FFFF_C000_0000) | (va & 0x3FFF_FFFF));
    }
    let e2 = read((e3 & mask) + 8 * ((va >> 21) & 0x1FF))?;
    if e2 & 1 == 0 {
        return None;
    }
    if e2 & 0x80 != 0 {
        return Some((e2 & 0x000F_FFFF_FFE0_0000) | (va & 0x1F_FFFF));
    }
    let e1 = read((e2 & mask) + 8 * ((va >> 12) & 0x1FF))?;
    if e1 & 1 == 0 {
        return None;
    }
    Some((e1 & mask) | (va & 0xFFF))
}

#[test]
fn identity_tables_layout() {
    let pt = PageTable::create_identity_mapping(0x200000);
    assert_eq!(pt.pml4_gpa, 0x200000);
    assert_eq!(pt.size, 12288);
    assert_eq!(pt.size, TABLES_SIZE);
    assert_eq!(pt.entries.len(), 1536);
    assert_eq!(pt.entries[0], 0x201003);
    assert_eq!(pt.entries[512], 0x202003);
    assert_eq!(pt.entries[1024], 0x83);
    assert_eq!(pt.entries[1025], 0x200083);
    assert_eq!(pt.entries[1535], 511 * 0x200000 + 0x83);
    assert!(pt.entries[1..512].iter().all(|&e| e == 0));
    assert!(pt.entries[513..1024].iter().all(|&e| e == 0));
}

#[test]
fn unaligned_base_is_ored_not_added() {
    let pt = PageTable::create_identity_mapping(0x2001);
    assert_eq!(pt.entries[0], (0x2001 + 4096) | 3);
    assert_eq!(pt.entries[0], 0x3003);
}

#[test]
fn identity_mapping_translates_first_gib() {
    let base = 0x2000;
    let pt = PageTable::create_identity_mapping(base);
    for &va in &[0u64, 1, 0x1000, 0x1F_FFFF, 0x20_0000, 0x1234_5678, 0x3FFF_FFFF] {
        assert_eq!(walk(&pt.entries, base, base, va), Some(va));
    }
    for &va in &[
        0x4000_0000u64,
        0x8000_0000,
        0x80_0000_0000,
        0xFFFF_FFFF_FFFF,
        0x1_0000_0000_0000,
        0xFFFF_8000_0000_0000,
        0xFFFF_FFFF_FFFF_FFFF,
    ] {
        assert_eq!(walk(&pt.entries, base, base, va), None);
    }
}

#[test]
fn table_bytes_are_little_endian() {
    let pt = PageTable::create_identity_mapping(0x2000);
    let bytes = pt.to_bytes();
    assert_eq!(bytes.len(), 12288);
    assert_eq!(&bytes[0..8], &[0x03, 0x30, 0, 0, 0, 0, 0, 0]);
    assert_eq!(&bytes[4096..4104], &[0x03, 0x40, 0, 0, 0, 0, 0, 0]);
    assert_eq!(&bytes[8200..8208], &[0x83, 0, 0x20, 0, 0, 0, 0, 0]);
    for (i, e) in pt.entries.iter().enumerate() {
        assert_eq!(&bytes[8 * i..8 * i + 8], &e.to_le_bytes());
    }
}
