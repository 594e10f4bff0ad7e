//! The logic of a small 32-bit x86 kernel, with its contracts: a bump
//! allocator, interrupt dispatch, the timer tick, the VGA text console and
//! the descriptor tables and PIC programming of the processor setup.
use vstd::prelude::*;

pub mod allocator;
pub mod interrupt;
pub mod timer;
pub mod x86;
pub mod x86_tables;
pub mod vga;

verus! {

} // verus!
