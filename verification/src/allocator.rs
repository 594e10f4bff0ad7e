//! A bump allocator: memory is handed out upwards from the end of the kernel
//! image and never given back.
use vstd::prelude::*;

verus! {

/// The state of the bump allocator: the first address that has not been
/// handed out yet.
pub struct BumpAllocator {
    pub end: u32,
}

/// The start address of the block that `kmalloc(size, align)` hands out
/// when the allocator ends at `end`: `end` rounded down by the mask
/// `!(align - 1)`, plus one `align`.
pub open spec fn block_start(end: u32, align: u32) -> int {
    (end & !((align - 1) as u32)) + align
}

/// The allocator end after `kmalloc(size, align)`: the block start plus
/// `size + align`.
pub open spec fn end_after(end: u32, size: int, align: u32) -> int {
    block_start(end, align) + size + align
}

/// The inputs on which `kmalloc` computes without overflow on a 32-bit
/// machine.
pub open spec fn kmalloc_fits(end: u32, size: usize, align: usize) -> bool {
    &&& align >= 1
    &&& size + align <= u32::MAX
    &&& end_after(end, size as int, align as u32) <= u32::MAX
}

/// Starts the allocator at `kernel_end`, the first address after the
/// kernel image (the address of the linker symbol `end`).
pub fn init(kernel_end: u32) -> (a: BumpAllocator)
    ensures
        a.end == kernel_end,
{
    BumpAllocator { end: kernel_end }
}

proof fn lemma_mask_bounds(end: u32, m: u32)
    ensures
        end & !m <= end,
        end - (end & !m) <= m,
{
    assert(end & !m <= end) by (bit_vector);
    assert(end - (end & !m) <= m) by (bit_vector);
}

impl BumpAllocator {
    /// Hands out a block of `size` bytes aligned by `align`: the address is
    /// the end rounded down by `!(align - 1)` plus `align`, and the end moves
    /// `size + align` bytes past it.
    pub fn kmalloc(&mut self, size: usize, align: usize) -> (ptr: u32)
        requires
            kmalloc_fits(old(self).end, size, align),
        ensures
            ptr == block_start(old(self).end, align as u32),
            final(self).end == end_after(old(self).end, size as int, align as u32),
            old(self).end < ptr,
            ptr + size <= final(self).end,
    {
        let a: u32 = align as u32;
        let aligned_size: u32 = (size + align) as u32;
        proof {
            lemma_mask_bounds(self.end, (a - 1) as u32);
        }
        let ret: u32 = (self.end & !(a - 1)) + a;
        self.end = ret + aligned_size;
        ret
    }

    /// Gives a block back: this allocator never reuses memory, so nothing
    /// changes.
    pub fn kfree(&mut self, ptr: u32, old_size: usize, align: usize)
        ensures
            final(self).end == old(self).end,
    {
    }
}

/// A block handed out with a power-of-two alignment `1 << k` starts at a
/// multiple of that alignment.
pub proof fn lemma_block_start_aligned(end: u32, k: u32)
    requires
        k < 32,
    ensures
        block_start(end, 1u32 << k) % ((1u32 << k) as int) == 0,
{
    let a: u32 = 1u32 << k;
    assert((end & !((a - 1) as u32)) % a == 0) by (bit_vector)
        requires
            a == 1u32 << k,
            k < 32,
    ;
    assert(a > 0) by (bit_vector)
        requires
            a == 1u32 << k,
            k < 32,
    ;
    let low: u32 = end & !((a - 1) as u32);
    assert((low + a) % (a as int) == 0) by (nonlinear_arith)
        requires
            low % a == 0,
            a > 0,
    ;
}

/// Two blocks handed out one after the other never overlap: the second
/// starts strictly after the first one ends.
pub proof fn lemma_successive_blocks_disjoint(end: u32, size1: usize, align1: usize, size2: usize, align2: usize)
    requires
        kmalloc_fits(end, size1, align1),
        kmalloc_fits(end_after(end, size1 as int, align1 as u32) as u32, size2, align2),
    ensures
        block_start(end, align1 as u32) + size1
            < block_start(end_after(end, size1 as int, align1 as u32) as u32, align2 as u32),
{
    let end1 = end_after(end, size1 as int, align1 as u32) as u32;
    lemma_mask_bounds(end1, ((align2 as u32) - 1) as u32);
}

} // verus!
