//! The parsed shape of a 64-bit ELF executable: the file header fields the
//! loader needs and the program-header table, each entry carrying its own
//! copy of the segment's file-resident bytes.

use vstd::prelude::*;

use crate::addr::Addr;
use crate::addr::AddrRange;
use crate::codes::Machine;
use crate::codes::SegmentFlags;
use crate::codes::SegmentType;
use crate::codes::Type;

verus! {

/// One entry of the program-header table.
///
/// `data` is an owned copy of the `filesz` bytes that the segment occupies in
/// the file, taken from `offset` in the whole-file buffer; bytes between
/// `filesz` and `memsz` are implied zero and not materialized here.
#[derive(Debug)]
pub struct ProgramHeader {
    pub typ: SegmentType,
    pub flags: SegmentFlags,
    pub offset: Addr,
    pub vaddr: Addr,
    pub paddr: Addr,
    pub filesz: Addr,
    pub memsz: Addr,
    pub align: Addr,
    pub data: Vec<u8>,
}

impl ProgramHeader {
    /// Internal consistency of one entry: the file size never exceeds the
    /// memory size, both ranges fit in 64 bits, and the stored bytes are
    /// exactly the file-resident part of the segment.
    pub open spec fn wf(self) -> bool {
        &&& self.filesz.0 <= self.memsz.0
        &&& self.vaddr.0 + self.memsz.0 <= u64::MAX
        &&& self.offset.0 + self.filesz.0 <= u64::MAX
        &&& self.data@.len() == self.filesz.0
    }

    /// The file range `[offset, offset + filesz)` the segment is stored in.
    pub open spec fn spec_file_range(self) -> AddrRange {
        AddrRange { start: self.offset, end: Addr((self.offset.0 + self.filesz.0) as u64) }
    }

    /// The file range `[offset, offset + filesz)` the segment is stored in.
    pub fn file_range(&self) -> (r: AddrRange)
        requires
            self.offset.0 + self.filesz.0 <= u64::MAX,
        ensures
            r == self.spec_file_range(),
    {
        AddrRange { start: self.offset, end: self.offset.plus(self.filesz) }
    }

    /// The memory range `[vaddr, vaddr + memsz)` the segment is mapped at.
    pub open spec fn spec_mem_range(self) -> AddrRange {
        AddrRange { start: self.vaddr, end: Addr((self.vaddr.0 + self.memsz.0) as u64) }
    }

    /// The memory range `[vaddr, vaddr + memsz)` the segment is mapped at.
    pub fn mem_range(&self) -> (r: AddrRange)
        requires
            self.vaddr.0 + self.memsz.0 <= u64::MAX,
        ensures
            r == self.spec_mem_range(),
    {
        AddrRange { start: self.vaddr, end: self.vaddr.plus(self.memsz) }
    }

    /// Whether the loader has to place this segment: a `Load` segment whose
    /// memory range is not empty.
    pub open spec fn spec_loadable(self) -> bool {
        self.typ == SegmentType::Load && self.memsz.0 > 0
    }

    /// Whether the loader has to place this segment.
    pub fn loadable(&self) -> (r: bool)
        ensures
            r == self.spec_loadable(),
    {
        matches!(self.typ, SegmentType::Load) && self.memsz.0 > 0
    }

    /// Whether this segment is a `Load` segment whose memory range holds
    /// address `a`.  Stated without overflow, so it needs no premise.
    pub open spec fn spec_covers(self, a: Addr) -> bool {
        &&& self.typ == SegmentType::Load
        &&& self.vaddr.0 <= a.0
        &&& a.0 - self.vaddr.0 < self.memsz.0
    }

    /// Whether this segment is a `Load` segment whose memory range holds `a`.
    pub fn covers(&self, a: Addr) -> (r: bool)
        ensures
            r == self.spec_covers(a),
    {
        matches!(self.typ, SegmentType::Load) && self.vaddr.0 <= a.0 && a.0 - self.vaddr.0
            < self.memsz.0
    }
}

/// A fully parsed executable: its kind, target machine, entry point and
/// program headers, in table order.
#[derive(Debug)]
pub struct File {
    pub typ: Type,
    pub machine: Machine,
    pub entry_point: Addr,
    pub program_headers: Vec<ProgramHeader>,
}

impl File {
    /// Every program header is internally consistent.
    pub open spec fn wf(self) -> bool {
        forall|i: int|
            0 <= i < self.program_headers@.len() ==> (#[trigger] self.program_headers@[i]).wf()
    }

    /// The index of the first `Load` segment whose memory range holds the
    /// entry point, if any.  A file without one cannot be run.
    pub fn find_entry_segment(&self) -> (r: Option<usize>)
        ensures
            match r {
                Some(i) => {
                    &&& i < self.program_headers@.len()
                    &&& self.program_headers@[i as int].spec_covers(self.entry_point)
                    &&& forall|j: int|
                        0 <= j < i ==> !(#[trigger] self.program_headers@[j]).spec_covers(
                            self.entry_point,
                        )
                },
                None => forall|j: int|
                    0 <= j < self.program_headers@.len() ==> !(
                    #[trigger] self.program_headers@[j]).spec_covers(self.entry_point),
            },
    {
        let n = self.program_headers.len();
        let mut i: usize = 0;
        while i < n
            invariant
                n == self.program_headers@.len(),
                i <= n,
                forall|j: int|
                    0 <= j < i ==> !(#[trigger] self.program_headers@[j]).spec_covers(
                        self.entry_point,
                    ),
            decreases n - i,
        {
            if self.program_headers[i].covers(self.entry_point) {
                return Some(i);
            }
            i = i + 1;
        }
        None
    }
}

} // verus!
