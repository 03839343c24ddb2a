//! The segment loader's planning logic: where each `Load` segment goes in
//! memory, page alignment and padding, the zero-filled image of a segment,
//! and the runtime entry address.
//!
//! The placement policy is fixed-base relocation: every segment is placed at
//! `base + vaddr`, rounded down to a page boundary, with the round-off
//! recorded as padding so the segment's bytes still land at `base + vaddr`.
//! The process-level steps (reserving the region, copying, changing the
//! protection, jumping) are left to the caller, which executes exactly what
//! a [`Placement`] describes.

use vstd::prelude::*;

use crate::codes::SegmentFlags;
use crate::elf::File;
use crate::elf::ProgramHeader;

verus! {

/// The host's page size, the granularity of every reservation.
pub const PAGE_SIZE: u64 = 4096;

/// `x` rounded down to the nearest page boundary.
pub open spec fn spec_align_lo(x: u64) -> u64 {
    x & !0xFFF
}

/// Rounding down to a page boundary never moves an address up, lands on a
/// page boundary, and discards less than one page.
pub proof fn lemma_align_lo(x: u64)
    ensures
        spec_align_lo(x) <= x,
        spec_align_lo(x) % PAGE_SIZE == 0,
        x - spec_align_lo(x) < PAGE_SIZE,
{
    assert((x & !0xFFF) <= x && (x & !0xFFF) % 4096 == 0 && x - (x & !0xFFF) < 4096)
        by (bit_vector);
}

/// Truncate an address to the left-adjacent (low) page boundary.
pub fn align_lo(x: usize) -> (r: usize)
    ensures
        r == spec_align_lo(x as u64),
        r <= x,
        r % 4096 == 0,
        x - r < 4096,
{
    proof {
        lemma_align_lo(x as u64);
        assert((x as u64 & !0xFFF) == ((x & !0xFFF) as u64)) by (bit_vector);
    }
    x & !0xFFF
}

/// One planned memory reservation: which segment it serves, where it starts,
/// how much page-alignment padding precedes the segment's bytes, how long
/// the reservation is, and which protection it ends with.
#[derive(Clone, Copy, PartialEq, Eq, Structural, Debug)]
pub struct Placement {
    /// Index of the program header this reservation serves.
    pub index: usize,
    /// The requested start address, `base + vaddr`.
    pub start: u64,
    /// `start` rounded down to a page boundary: where the reservation begins.
    pub aligned_start: u64,
    /// `start - aligned_start`: the segment's bytes go this far into the
    /// reservation.
    pub padding: u64,
    /// `padding + memsz`: the reservation's length.
    pub total_len: u64,
    /// The protection to apply once the bytes are in place.
    pub flags: SegmentFlags,
}

/// The placement of program header `i` under relocation base `base`.
pub open spec fn spec_placement(ph: ProgramHeader, base: u64, i: int) -> Placement
    recommends
        base + ph.vaddr.0 + ph.memsz.0 <= u64::MAX,
{
    let start = (base + ph.vaddr.0) as u64;
    let aligned = spec_align_lo(start);
    Placement {
        index: i as usize,
        start,
        aligned_start: aligned,
        padding: (start - aligned) as u64,
        total_len: ((start - aligned) + ph.memsz.0) as u64,
        flags: ph.flags,
    }
}

/// The reservations for every loadable segment of `phs`, in table order.
pub open spec fn spec_plan(phs: Seq<ProgramHeader>, base: u64) -> Seq<Placement>
    decreases phs.len(),
{
    if phs.len() == 0 {
        Seq::empty()
    } else if phs.last().spec_loadable() {
        spec_plan(phs.drop_last(), base).push(
            spec_placement(phs.last(), base, phs.len() - 1),
        )
    } else {
        spec_plan(phs.drop_last(), base)
    }
}

/// Whether every loadable segment's relocated memory range fits the 64-bit
/// address space under base `base`.
pub open spec fn spec_plan_fits(phs: Seq<ProgramHeader>, base: u64) -> bool {
    forall|i: int|
        0 <= i < phs.len() && (#[trigger] phs[i]).spec_loadable() ==> base + phs[i].vaddr.0
            + phs[i].memsz.0 <= u64::MAX
}

/// Why a load cannot proceed.
#[derive(Clone, Copy, PartialEq, Eq, Structural, Debug)]
pub enum LoadError {
    /// A segment's relocated memory range does not fit the address space.
    AddressOverflow,
    /// No `Load` segment's memory range holds the entry point.
    NoEntrySegment,
}

/// Plan one reservation per loadable segment of `file`, in program-header
/// order, under relocation base `base`.
///
/// Succeeds exactly when every loadable segment's relocated range fits the
/// address space; segments that are not loadable (not `Load`, or with an
/// empty memory range) get no reservation.
pub fn plan_load(file: &File, base: u64) -> (r: Result<Vec<Placement>, LoadError>)
    ensures
        match r {
            Ok(v) => {
                &&& spec_plan_fits(file.program_headers@, base)
                &&& v@ == spec_plan(file.program_headers@, base)
            },
            Err(e) => {
                &&& e == LoadError::AddressOverflow
                &&& !spec_plan_fits(file.program_headers@, base)
            },
        },
{
    let phs = &file.program_headers;
    let n = phs.len();
    let mut out: Vec<Placement> = Vec::new();
    let mut i: usize = 0;
    while i < n
        invariant
            n == phs@.len(),
            phs@ == file.program_headers@,
            i <= n,
            out@ == spec_plan(phs@.subrange(0, i as int), base),
            forall|j: int|
                0 <= j < i && (#[trigger] phs@[j]).spec_loadable() ==> base + phs@[j].vaddr.0
                    + phs@[j].memsz.0 <= u64::MAX,
        decreases n - i,
    {
        let ph = &file.program_headers[i];
        if ph.loadable() {
            if ph.vaddr.0 > u64::MAX - base || ph.memsz.0 > u64::MAX - base - ph.vaddr.0 {
                assert(!spec_plan_fits(phs@, base));
                return Err(LoadError::AddressOverflow);
            }
            let start = base + ph.vaddr.0;
            let aligned = start & !0xFFF;
            proof {
                lemma_align_lo(start);
            }
            let padding = start - aligned;
            let total_len = padding + ph.memsz.0;
            out.push(
                Placement {
                    index: i,
                    start,
                    aligned_start: aligned,
                    padding,
                    total_len,
                    flags: ph.flags,
                },
            );
        }
        proof {
            assert(phs@.subrange(0, i + 1).drop_last() =~= phs@.subrange(0, i as int));
            assert(phs@.subrange(0, i + 1).last() == phs@[i as int]);
        }
        i = i + 1;
    }
    proof {
        assert(phs@.subrange(0, n as int) =~= phs@);
    }
    Ok(out)
}

/// What holds of one planned reservation against the table it was planned
/// from: it starts on a page boundary at or below the requested address,
/// keeps less than one page of padding, and is exactly long enough that the
/// segment's `memsz` bytes end where the relocated segment ends.
pub open spec fn spec_placement_aligned(p: Placement, phs: Seq<ProgramHeader>, base: u64) -> bool {
    &&& p.aligned_start <= p.start
    &&& p.aligned_start % PAGE_SIZE == 0
    &&& p.padding == p.start - p.aligned_start
    &&& p.padding < PAGE_SIZE
    &&& 0 <= p.index < phs.len()
    &&& p.aligned_start + p.total_len == p.start + phs[p.index as int].memsz.0
    &&& p.start == base + phs[p.index as int].vaddr.0
    &&& p.flags == phs[p.index as int].flags
}

/// Every reservation of a plan that fits is aligned as
/// [`spec_placement_aligned`] states.
pub proof fn lemma_plan_aligned(phs: Seq<ProgramHeader>, base: u64)
    requires
        spec_plan_fits(phs, base),
        phs.len() <= usize::MAX,
    ensures
        forall|k: int|
            0 <= k < spec_plan(phs, base).len() ==> spec_placement_aligned(
                #[trigger] spec_plan(phs, base)[k],
                phs,
                base,
            ),
    decreases phs.len(),
{
    if phs.len() > 0 {
        let pre = phs.drop_last();
        assert(forall|i: int| 0 <= i < pre.len() ==> #[trigger] pre[i] == phs[i]);
        assert(spec_plan_fits(pre, base));
        lemma_plan_aligned(pre, base);
        let prefix = spec_plan(pre, base);
        let plan = spec_plan(phs, base);
        assert forall|k: int| 0 <= k < plan.len() implies spec_placement_aligned(
            plan[k],
            phs,
            base,
        ) by {
            if k < prefix.len() {
                assert(plan[k] == prefix[k]);
                assert(spec_placement_aligned(prefix[k], pre, base));
                assert(pre[prefix[k].index as int] == phs[prefix[k].index as int]);
            } else {
                assert(phs.last().spec_loadable());
                let p = spec_placement(phs.last(), base, phs.len() - 1);
                assert(plan[k] == p);
                lemma_align_lo((base + phs.last().vaddr.0) as u64);
                assert(phs[p.index as int] == phs.last());
            }
        }
    }
}

/// The full in-memory image of one segment: its file-resident bytes,
/// followed by zero fill from `filesz` up to `memsz`.
pub fn segment_image(ph: &ProgramHeader) -> (r: Vec<u8>)
    requires
        ph.wf(),
        ph.memsz.0 <= usize::MAX,
    ensures
        r@.len() == ph.memsz.0,
        r@.subrange(0, ph.filesz.0 as int) == ph.data@,
        forall|k: int| ph.filesz.0 <= k < ph.memsz.0 ==> r@[k] == 0,
{
    let mut v: Vec<u8> = Vec::new();
    let data_len = ph.data.len();
    let mut i: usize = 0;
    while i < data_len
        invariant
            data_len == ph.data@.len(),
            i <= data_len,
            v@ == ph.data@.subrange(0, i as int),
        decreases data_len - i,
    {
        v.push(ph.data[i]);
        proof {
            assert(v@ =~= ph.data@.subrange(0, i + 1));
        }
        i = i + 1;
    }
    proof {
        assert(v@ =~= ph.data@);
    }
    let memsz = ph.memsz.0 as usize;
    while v.len() < memsz
        invariant
            ph.data@.len() <= v@.len() <= memsz,
            memsz == ph.memsz.0,
            v@.subrange(0, ph.data@.len() as int) == ph.data@,
            forall|k: int| ph.data@.len() <= k < v@.len() ==> v@[k] == 0,
        decreases memsz - v.len(),
    {
        v.push(0);
    }
    v
}

/// The runtime address control is transferred to: `base + entry_point`,
/// available exactly when some `Load` segment's memory range holds the entry
/// point and the relocated address fits the address space.
pub fn entry_address(file: &File, base: u64) -> (r: Result<u64, LoadError>)
    ensures
        match r {
            Ok(a) => {
                &&& exists|i: int|
                    0 <= i < file.program_headers@.len() && (
                    #[trigger] file.program_headers@[i]).spec_covers(file.entry_point)
                &&& base + file.entry_point.0 <= u64::MAX
                &&& a == base + file.entry_point.0
            },
            Err(e) => match e {
                LoadError::NoEntrySegment => forall|i: int|
                    0 <= i < file.program_headers@.len() ==> !(
                    #[trigger] file.program_headers@[i]).spec_covers(file.entry_point),
                LoadError::AddressOverflow => {
                    &&& exists|i: int|
                        0 <= i < file.program_headers@.len() && (
                        #[trigger] file.program_headers@[i]).spec_covers(file.entry_point)
                    &&& base + file.entry_point.0 > u64::MAX
                },
            },
        },
{
    match file.find_entry_segment() {
        Some(_) => {
            if file.entry_point.0 > u64::MAX - base {
                Err(LoadError::AddressOverflow)
            } else {
                Ok(base + file.entry_point.0)
            }
        },
        None => Err(LoadError::NoEntrySegment),
    }
}

} // verus!
