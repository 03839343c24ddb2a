//! A verified core for reading 64-bit little-endian ELF executables and
//! planning how to place their loadable segments in memory.
//!
//! The crate decodes the fixed ELF header and the program-header table into a
//! structured [`elf::File`], with every validation step stated in contracts,
//! and computes page-aligned placements, zero-filled segment images and
//! protection summaries for a minimal userspace loader.  The process-level
//! work that cannot be verified (reserving address space, changing page
//! protections, jumping to the entry point) is left to the surrounding
//! program, which consumes the plans this library produces.

use vstd::prelude::*;

pub mod addr;
pub mod codes;
pub mod elf;
pub mod hex;
pub mod loader;
pub mod parse;

verus! {

/// Hook for a freestanding caller's panic handler.  The verified functions of
/// this crate never panic, so there is nothing to report here; a caller that
/// installs a handler is expected to halt on its own after this returns.
pub fn my_panic() {
}

} // verus!
