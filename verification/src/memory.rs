//! Zero-initialised guest memory buffers.
use vstd::prelude::*;

verus! {

/// Size of a guest page in bytes.
pub const PAGE_SIZE: usize = 4096;

/// A zero-initialised buffer of guest memory.
pub struct AlignedMemory {
    bytes: Vec<u8>,
}

impl View for AlignedMemory {
    type V = Seq<u8>;

    closed spec fn view(&self) -> Seq<u8> {
        self.bytes@
    }
}

/// `n` zero bytes.
pub open spec fn zeros(n: nat) -> Seq<u8> {
    Seq::new(n, |i: int| 0u8)
}

impl AlignedMemory {
    /// A buffer of `size` zero bytes.
    pub fn new(size: usize) -> (m: Self)
        ensures
            m@ == zeros(size as nat),
    {
        let bytes = vec![0u8; size];
        assert(bytes@ == zeros(size as nat));
        AlignedMemory { bytes }
    }

    /// The contents of the buffer.
    pub fn as_ptr(&self) -> (s: &[u8])
        ensures
            s@ == self@,
    {
        self.bytes.as_slice()
    }

    /// The contents of the buffer, for writing in place; the length of the
    /// buffer does not change.
    pub fn as_mut_ptr(&mut self) -> (s: &mut [u8])
        ensures
            s@ == old(self)@,
            final(self)@ == final(s)@,
    {
        self.bytes.as_mut_slice()
    }

    /// The size of the buffer in bytes.
    pub fn len(&self) -> (n: usize)
        ensures
            n == self@.len(),
    {
        self.bytes.len()
    }

    /// Whether the buffer holds no byte.
    pub fn is_empty(&self) -> (b: bool)
        ensures
            b == (self@.len() == 0),
    {
        self.bytes.len() == 0
    }

    /// A buffer holding `bytes`.
    pub(crate) fn from_vec(bytes: Vec<u8>) -> (m: Self)
        ensures
            m@ == bytes@,
    {
        AlignedMemory { bytes }
    }

    /// A buffer holding a copy of `data`.
    pub(crate) fn copy_of(data: &[u8]) -> (m: Self)
        ensures
            m@ == data@,
    {
        let mut m = AlignedMemory::new(data.len());
        let mut i: usize = 0;
        while i < data.len()
            invariant
                i <= data@.len(),
                m@.len() == data@.len(),
                forall|j: int| 0 <= j < i ==> m@[j] == data@[j],
            decreases data.len() - i,
        {
            m.bytes.set(i, data[i]);
            i = i + 1;
        }
        assert(m@ =~= data@);
        m
    }
}

/// The first `n` bytes of `x` in little-endian order.
pub open spec fn le_bytes(x: u64, n: nat) -> Seq<u8> {
    Seq::new(n, |i: int| (x >> ((8 * i) as u64)) as u8)
}

/// The first `n` bytes of `x` in little-endian order.
pub(crate) fn le_bytes_of(x: u64, n: usize) -> (b: Vec<u8>)
    requires
        n <= 8,
    ensures
        b@ == le_bytes(x, n as nat),
{
    let mut b: Vec<u8> = Vec::new();
    let mut i: usize = 0;
    while i < n
        invariant
            i <= n <= 8,
            b@ == le_bytes(x, i as nat),
        decreases n - i,
    {
        b.push((x >> (8 * i as u64)) as u8);
        i = i + 1;
        assert(b@ =~= le_bytes(x, i as nat));
    }
    b
}

} // verus!
