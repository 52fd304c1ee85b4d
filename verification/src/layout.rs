//! Where the engine places the target program in guest physical memory.
use vstd::prelude::*;

verus! {

/// Guest physical address at which the target image is mapped.
pub const IMAGE_BASE_GPA: u64 = 0x100000;
/// Size of the guest stack.
pub const STACK_SIZE: u64 = 0x10000;
/// Size of the page mapped at guest physical address 0 to catch null dereferences.
pub const NULL_PAGE_SIZE: u64 = 0x1000;
/// Guest physical address of the identity page tables.
pub const PAGE_TABLE_GPA: u64 = 0x200000;

/// `n` rounded up to a multiple of 4 KiB.
pub open spec fn round_up_4k(n: int) -> int {
    (n + 4095) / 4096 * 4096
}

/// The guest placement of an image of `image_size` bytes.
#[derive(Clone, Copy, Debug, PartialEq, Eq, Structural)]
pub struct GuestLayout {
    /// Where the image is mapped.
    pub image_gpa: u64,
    /// Where the stack is mapped: the first page boundary after the image.
    pub stack_base_gpa: u64,
    /// The initial stack pointer: the end of the stack.
    pub stack_top_gpa: u64,
    /// The initial instruction pointer: the image's entry point.
    pub entry_gpa: u64,
}

impl GuestLayout {
    /// Places an image of `image_size` bytes whose entry point is at
    /// `entry_rva` at `IMAGE_BASE_GPA`, followed by the stack.
    pub fn new(image_size: u64, entry_rva: u64) -> (l: Self)
        requires
            IMAGE_BASE_GPA + round_up_4k(image_size as int) + STACK_SIZE <= u64::MAX,
            IMAGE_BASE_GPA + entry_rva <= u64::MAX,
        ensures
            l.image_gpa == IMAGE_BASE_GPA,
            l.stack_base_gpa == IMAGE_BASE_GPA + round_up_4k(image_size as int),
            l.stack_top_gpa == l.stack_base_gpa + STACK_SIZE,
            l.entry_gpa == IMAGE_BASE_GPA + entry_rva,
    {
        let x = image_size + 0xFFF;
        let rounded = x & !0xFFFu64;
        assert(x & !0xFFFu64 == x - x % 4096) by (bit_vector);
        let stack_base_gpa = IMAGE_BASE_GPA + rounded;
        GuestLayout {
            image_gpa: IMAGE_BASE_GPA,
            stack_base_gpa,
            stack_top_gpa: stack_base_gpa + STACK_SIZE,
            entry_gpa: IMAGE_BASE_GPA + entry_rva,
        }
    }
}

} // verus!
