use vestigium::loader::{LoadError, PeLoader};

fn put16(b: &mut [u8], at: usize, v: u16) {
    b[at..at + 2].copy_from_slice(&v.to_le_bytes());
}

fn put32(b: &mut [u8], at: usize, v: u32) {
    b[at..at + 4].copy_from_slice(&v.to_le_bytes());
}

/// A minimal PE32+ file with one section whose 0x200 bytes of data sit at
/// file offset 0x200 and load at 0x1000.
fn tiny_pe(size_of_image: u32, section_size: u32) -> Vec<u8> {
    let mut b = vec![0u8; 0x400];
    b[0] = b'M';
    b[1] = b'Z';
    put32(&mut b, 0x3C, 0x40);
    b[0x40..0x44].copy_from_slice(b"PE\0\0");
    let coff = 0x44;
    put16(&mut b, coff, 0x8664);
    put16(&mut b, coff + 2, 1);
    put16(&mut b, coff + 16, 0xF0);
    put16(&mut b, coff + 18, 0x22);
    let opt = 0x58;
    put16(&mut b, opt, 0x20B);
    put32(&mut b, opt + 16, 0x1000);
    put32(&mut b, opt + 20, 0x1000);
    b[opt + 24..opt + 32].copy_from_slice(&0x1_4000_0000u64.to_le_bytes());
    put32(&mut b, opt + 32, 0x1000);
    put32(&mut b, opt + 36, 0x200);
    put16(&mut b, opt + 48, 6);
    put32(&mut b, opt + 56, size_of_image);
    put32(&mut b, opt + 60, 0x200);
    put16(&mut b, opt + 68, 3);
    put32(&mut b, opt + 108, 16);
    let sec = opt + 0xF0;
    b[sec..sec + 5].copy_from_slice(b".text");
    put32(&mut b, sec + 8, 0x10);
    put32(&mut b, sec + 12, 0x1000);
    put32(&mut b, sec + 16, section_size);
    put32(&mut b, sec + 20, 0x200);
    put32(&mut b, sec + 36, 0x6000_0020);
    for i in 0..0x200 {
        b[0x200 + i] = (i % 251) as u8 + 1;
    }
    b
}

#[test]
fn test_pe_parser_invalid_format() {
    // Validate that malformed binaries are rejected.
    let invalid_binary = [0x00, 0x11, 0x22, 0x33];
    let result = PeLoader::parse(&invalid_binary);
    assert!(result.is_err());
}

#[test]
fn rejects_missing_signature_and_truncated_files() {
    assert!(matches!(PeLoader::parse(&[]), Err(LoadError::Malformed(_))));
    assert!(matches!(PeLoader::parse(b"MZ"), Err(LoadError::Malformed(_))));
    let mut pe = tiny_pe(0x2000, 0x200);
    pe[1] = b'X';
    match PeLoader::parse(&pe) {
        Err(LoadError::Malformed(e)) => {
            assert!(format!("{:?}", e).contains("DOS header is malformed"));
        }
        _ => panic!("expected the parser's error"),
    }
}

#[test]
fn parses_entry_point() {
    let pe = tiny_pe(0x2000, 0x200);
    let loader = PeLoader::parse(&pe).expect("valid image");
    assert_eq!(loader.entry_point(), 0x1000);
}

#[test]
fn maps_sections_into_rounded_image() {
    let pe = tiny_pe(0x1801, 0x200);
    let loader = PeLoader::parse(&pe).expect("valid image");
    assert!(loader.fits_in_memory());
    let (mem, size) = loader.map_into_memory();
    assert_eq!(size, 0x2000);
    assert_eq!(mem.len(), 0x2000);
    let img = mem.as_ptr();
    assert!(img[..0x1000].iter().all(|&b| b == 0));
    assert_eq!(&img[0x1000..0x1200], &pe[0x200..0x400]);
    assert!(img[0x1200..].iter().all(|&b| b == 0));
}

#[test]
fn section_beyond_file_does_not_fit() {
    let pe = tiny_pe(0x4000, 0x400);
    let loader = PeLoader::parse(&pe).expect("valid image");
    assert!(!loader.fits_in_memory());
}

#[test]
fn section_beyond_image_does_not_fit() {
    let pe = tiny_pe(0x1000, 0x200);
    let loader = PeLoader::parse(&pe).expect("valid image");
    assert!(!loader.fits_in_memory());
}
