//! Loading a PE (Portable Executable) image into guest memory.
use vstd::prelude::*;
use crate::layout::round_up_4k;
use crate::memory::{zeros, AlignedMemory};

verus! {

/// The error type of the PE parser, declared so that its errors can be
/// handed on in `LoadError`; nothing is assumed of its values.
#[verifier::external_type_specification]
#[verifier::external_body]
pub struct ExGoblinError(goblin::error::Error);

/// The placement of one section of a PE image.
#[derive(Clone, Copy, Debug, PartialEq, Eq, Structural)]
pub struct SectionHeader {
    /// Offset of the section in the loaded image.
    pub virtual_address: u32,
    /// Offset of the section's data in the file.
    pub pointer_to_raw_data: u32,
    /// Size of the section's data in the file.
    pub size_of_raw_data: u32,
}

/// What the loader reads of a parsed PE image.
#[derive(Debug)]
pub struct PeHeaders {
    /// Relative virtual address of the entry point.
    pub entry: u32,
    /// Size of the loaded image, from the optional header when there is one.
    pub size_of_image: Option<u32>,
    /// The section table.
    pub sections: Vec<SectionHeader>,
}

/// The contents of `PeHeaders`.
pub struct PeHeadersView {
    pub entry: u32,
    pub size_of_image: Option<u32>,
    pub sections: Seq<SectionHeader>,
}

impl View for PeHeaders {
    type V = PeHeadersView;

    open spec fn view(&self) -> PeHeadersView {
        PeHeadersView {
            entry: self.entry,
            size_of_image: self.size_of_image,
            sections: self.sections@,
        }
    }
}

/// What the PE parser reads from a file: the headers, or `None` where it
/// rejects the file.
pub uninterp spec fn pe_headers(bytes: Seq<u8>) -> Option<PeHeadersView>;

/// Whether a file starts with the DOS signature "MZ".
pub open spec fn has_dos_signature(bytes: Seq<u8>) -> bool {
    bytes.len() >= 2 && bytes[0] == 0x4D && bytes[1] == 0x5A
}

/// Calls `goblin::pe::PE::parse` and keeps the entry point, the image size
/// and the section placements. The parser is deterministic, so its outcome
/// is named as a function of the file's bytes; it rejects every file that
/// does not start with the DOS signature.
#[verifier::external_body]
fn parse_pe_headers(bytes: &[u8]) -> (r: Result<PeHeaders, goblin::error::Error>)
    ensures
        match r {
            Ok(h) => pe_headers(bytes@) == Some(h@),
            Err(_) => pe_headers(bytes@) is None,
        },
        r is Ok ==> has_dos_signature(bytes@),
{
    goblin::pe::PE::parse(bytes).map(|pe| PeHeaders {
        entry: pe.entry,
        size_of_image: pe.header.optional_header.map(|h| h.windows_fields.size_of_image),
        sections: pe.sections.iter().map(|s| SectionHeader {
            virtual_address: s.virtual_address,
            pointer_to_raw_data: s.pointer_to_raw_data,
            size_of_raw_data: s.size_of_raw_data,
        }).collect(),
    })
}

/// Why a PE image cannot be loaded.
#[derive(Debug)]
pub enum LoadError {
    /// The parser rejected the file, with the parser's own error.
    Malformed(goblin::error::Error),
}

/// The size of the loaded image: the image size of the optional header (0
/// without one), rounded up to whole pages.
pub open spec fn image_size(h: PeHeadersView) -> nat {
    round_up_4k(
        match h.size_of_image {
            Some(s) => s as int,
            None => 0,
        },
    ) as nat
}

/// `img` with `data` written over it from offset `at` on.
pub open spec fn overlay(img: Seq<u8>, at: int, data: Seq<u8>) -> Seq<u8> {
    Seq::new(img.len(), |t: int| if at <= t < at + data.len() { data[t - at] } else { img[t] })
}

/// Whether a section has data in the file to copy.
pub open spec fn has_raw_data(s: SectionHeader) -> bool {
    s.pointer_to_raw_data > 0 && s.size_of_raw_data > 0
}

/// `img` with the file data of section `s` copied to the section's place.
pub open spec fn load_section(img: Seq<u8>, s: SectionHeader, raw: Seq<u8>) -> Seq<u8> {
    if has_raw_data(s) {
        overlay(
            img,
            s.virtual_address as int,
            raw.subrange(
                s.pointer_to_raw_data as int,
                s.pointer_to_raw_data + s.size_of_raw_data,
            ),
        )
    } else {
        img
    }
}

/// `img` with the first `k` sections copied in, in section-table order.
pub open spec fn load_sections(img: Seq<u8>, secs: Seq<SectionHeader>, raw: Seq<u8>, k: nat) -> Seq<u8>
    decreases k,
{
    if k == 0 {
        img
    } else {
        load_section(load_sections(img, secs, raw, (k - 1) as nat), secs[k - 1], raw)
    }
}

/// The loaded image: zeroed pages with every section's file data copied in.
pub open spec fn loaded_image(h: PeHeadersView, raw: Seq<u8>) -> Seq<u8> {
    load_sections(zeros(image_size(h)), h.sections, raw, h.sections.len())
}

/// Whether the image can be laid out in memory: its rounded size fits in
/// `usize`, and the data of every section lies within the file and its
/// destination within the image.
pub open spec fn sections_fit(h: PeHeadersView, raw: Seq<u8>) -> bool {
    &&& (match h.size_of_image {
        Some(s) => s + 4095 <= usize::MAX,
        None => true,
    })
    &&& forall|i: int|
        0 <= i < h.sections.len() && has_raw_data(#[trigger] h.sections[i]) ==> {
            &&& h.sections[i].pointer_to_raw_data + h.sections[i].size_of_raw_data <= raw.len()
            &&& h.sections[i].virtual_address + h.sections[i].size_of_raw_data <= image_size(h)
        }
}

/// Parses PE files and lays them out in guest memory.
pub struct PeLoader<'a> {
    headers: PeHeaders,
    raw_bytes: &'a [u8],
}

impl<'a> PeLoader<'a> {
    /// The headers the parser read.
    pub closed spec fn headers(&self) -> PeHeadersView {
        self.headers@
    }

    /// The file the image was parsed from.
    pub closed spec fn raw(&self) -> Seq<u8> {
        self.raw_bytes@
    }

    /// Parses the raw PE file `bytes`.
    pub fn parse(bytes: &'a [u8]) -> (r: Result<Self, LoadError>)
        ensures
            match r {
                Ok(loader) => {
                    &&& pe_headers(bytes@) == Some(loader.headers())
                    &&& loader.raw() == bytes@
                    &&& has_dos_signature(bytes@)
                },
                Err(e) => pe_headers(bytes@) is None && e is Malformed,
            },
    {
        match parse_pe_headers(bytes) {
            Ok(headers) => Ok(PeLoader { headers, raw_bytes: bytes }),
            Err(err) => Err(LoadError::Malformed(err)),
        }
    }

    /// The relative virtual address of the entry point.
    pub fn entry_point(&self) -> (rva: usize)
        ensures
            rva == self.headers().entry,
    {
        self.headers.entry as usize
    }

    /// Whether the image can be laid out by `map_into_memory`.
    pub fn fits_in_memory(&self) -> (b: bool)
        ensures
            b == sections_fit(self.headers(), self.raw()),
    {
        let size_ok = match self.headers.size_of_image {
            Some(s) => s as usize <= usize::MAX - 4095,
            None => true,
        };
        if !size_ok {
            return false;
        }
        let limit = self.aligned_size();
        let mut i: usize = 0;
        while i < self.headers.sections.len()
            invariant
                i <= self.headers@.sections.len(),
                limit == image_size(self.headers()),
                forall|j: int|
                    0 <= j < i && has_raw_data(#[trigger] self.headers@.sections[j]) ==> {
                        &&& self.headers@.sections[j].pointer_to_raw_data
                            + self.headers@.sections[j].size_of_raw_data <= self.raw_bytes@.len()
                        &&& self.headers@.sections[j].virtual_address
                            + self.headers@.sections[j].size_of_raw_data <= limit
                    },
            decreases self.headers.sections.len() - i,
        {
            let s = self.headers.sections[i];
            if s.pointer_to_raw_data > 0 && s.size_of_raw_data > 0 {
                let end = s.pointer_to_raw_data as u64 + s.size_of_raw_data as u64;
                let dest = s.virtual_address as u64 + s.size_of_raw_data as u64;
                if end > self.raw_bytes.len() as u64 || dest > limit as u64 {
                    return false;
                }
            }
            i = i + 1;
        }
        true
    }

    /// The image size rounded up to whole pages.
    fn aligned_size(&self) -> (n: usize)
        requires
            match self.headers().size_of_image {
                Some(s) => s + 4095 <= usize::MAX,
                None => true,
            },
        ensures
            n == image_size(self.headers()),
    {
        let size_of_image: usize = match self.headers.size_of_image {
            Some(s) => s as usize,
            None => 0,
        };
        let x = size_of_image + 4095;
        let n = x & !4095usize;
        assert(x & !4095usize == x - x % 4096) by (bit_vector);
        n
    }

    /// Lays the image out in zeroed memory, each section's file data copied
    /// to its virtual address, and returns it with its size, the image size
    /// rounded up to whole pages.
    pub fn map_into_memory(&self) -> (r: (AlignedMemory, usize))
        requires
            sections_fit(self.headers(), self.raw()),
        ensures
            r.1 == image_size(self.headers()),
            r.0@ == loaded_image(self.headers(), self.raw()),
    {
        let aligned_size = self.aligned_size();
        let mut img = vec![0u8; aligned_size];
        assert(img@ =~= zeros(aligned_size as nat));
        let ghost h = self.headers();
        let ghost raw = self.raw();
        let mut i: usize = 0;
        while i < self.headers.sections.len()
            invariant
                h == self.headers(),
                raw == self.raw_bytes@,
                sections_fit(h, raw),
                aligned_size == image_size(h),
                i <= h.sections.len(),
                h.sections == self.headers.sections@,
                img@ == load_sections(zeros(image_size(h)), h.sections, raw, i as nat),
                img@.len() == image_size(h),
            decreases self.headers.sections.len() - i,
        {
            let s = self.headers.sections[i];
            let ghost pre = img@;
            if s.pointer_to_raw_data > 0 && s.size_of_raw_data > 0 {
                assert(has_raw_data(h.sections[i as int]));
                let va = s.virtual_address as usize;
                let ptr = s.pointer_to_raw_data as usize;
                let size = s.size_of_raw_data as usize;
                let ghost data = raw.subrange(ptr as int, ptr + size);
                let mut j: usize = 0;
                assert(img@ =~= overlay(pre, va as int, data.take(0)));
                while j < size
                    invariant
                        j <= size,
                        ptr + size <= raw.len(),
                        va + size <= pre.len(),
                        img@.len() == pre.len(),
                        pre.len() == aligned_size,
                        raw == self.raw_bytes@,
                        data == raw.subrange(ptr as int, ptr + size),
                        img@ == overlay(pre, va as int, data.take(j as int)),
                    decreases size - j,
                {
                    assert(self.raw_bytes@.len() == self.raw_bytes.len());
                    img.set(va + j, self.raw_bytes[ptr + j]);
                    j = j + 1;
                    assert(img@ =~= overlay(pre, va as int, data.take(j as int)));
                }
                assert(data.take(size as int) =~= data);
            }
            i = i + 1;
        }
        (AlignedMemory::from_vec(img), aligned_size)
    }
}

} // verus!
