//! The ELF64 format parser: strict, offset-addressed decoding of the fixed
//! file header and the program-header table out of an untrusted byte buffer.
//!
//! Validation is a fixed sequence of named checks; the first one to fail
//! aborts parsing and is reported together with the byte offset of the field
//! at fault, so a caller can point at the exact place in the input.  A buffer
//! that passes every check yields a [`File`] whose every field is pinned to
//! the bytes it was decoded from; the parser never builds a partially valid
//! result and never panics.

use vstd::prelude::*;

use crate::addr::Addr;
use crate::codes::Machine;
use crate::codes::SegmentFlags;
use crate::codes::SegmentType;
use crate::codes::Type;
use crate::elf::File;
use crate::elf::ProgramHeader;

verus! {

broadcast use vstd::slice::group_slice_axioms;

/// The 16-bit little-endian integer stored at `s[i], s[i + 1]`.
pub open spec fn le_u16_at(s: Seq<u8>, i: int) -> u16
    recommends
        0 <= i,
        i + 2 <= s.len(),
{
    (s[i] + s[i + 1] * 0x100) as u16
}

/// The 32-bit little-endian integer stored at `s[i] .. s[i + 4]`.
pub open spec fn le_u32_at(s: Seq<u8>, i: int) -> u32
    recommends
        0 <= i,
        i + 4 <= s.len(),
{
    (s[i] + s[i + 1] * 0x100 + s[i + 2] * 0x1_0000 + s[i + 3] * 0x100_0000) as u32
}

/// The 64-bit little-endian integer stored at `s[i] .. s[i + 8]`.
pub open spec fn le_u64_at(s: Seq<u8>, i: int) -> u64
    recommends
        0 <= i,
        i + 8 <= s.len(),
{
    (s[i] + s[i + 1] * 0x100 + s[i + 2] * 0x1_0000 + s[i + 3] * 0x100_0000 + s[i + 4]
        * 0x1_0000_0000 + s[i + 5] * 0x100_0000_0000 + s[i + 6] * 0x1_0000_0000_0000 + s[i + 7]
        * 0x100_0000_0000_0000) as u64
}

/// Read the 16-bit little-endian integer at offset `i`.
pub fn read_u16(buf: &[u8], i: usize) -> (r: u16)
    requires
        i + 2 <= buf@.len(),
    ensures
        r == le_u16_at(buf@, i as int),
{
    let _n: usize = buf.len();
    let b0 = *vstd::slice::slice_index_get(buf, i) as u16;
    let b1 = *vstd::slice::slice_index_get(buf, i + 1) as u16;
    b0 + b1 * 0x100
}

/// Read the 32-bit little-endian integer at offset `i`.
pub fn read_u32(buf: &[u8], i: usize) -> (r: u32)
    requires
        i + 4 <= buf@.len(),
    ensures
        r == le_u32_at(buf@, i as int),
{
    let _n: usize = buf.len();
    let b0 = *vstd::slice::slice_index_get(buf, i) as u32;
    let b1 = *vstd::slice::slice_index_get(buf, i + 1) as u32;
    let b2 = *vstd::slice::slice_index_get(buf, i + 2) as u32;
    let b3 = *vstd::slice::slice_index_get(buf, i + 3) as u32;
    b0 + b1 * 0x100 + b2 * 0x1_0000 + b3 * 0x100_0000
}

/// Read the 64-bit little-endian integer at offset `i`.
pub fn read_u64(buf: &[u8], i: usize) -> (r: u64)
    requires
        i + 8 <= buf@.len(),
    ensures
        r == le_u64_at(buf@, i as int),
{
    let _n: usize = buf.len();
    let b0 = *vstd::slice::slice_index_get(buf, i) as u64;
    let b1 = *vstd::slice::slice_index_get(buf, i + 1) as u64;
    let b2 = *vstd::slice::slice_index_get(buf, i + 2) as u64;
    let b3 = *vstd::slice::slice_index_get(buf, i + 3) as u64;
    let b4 = *vstd::slice::slice_index_get(buf, i + 4) as u64;
    let b5 = *vstd::slice::slice_index_get(buf, i + 5) as u64;
    let b6 = *vstd::slice::slice_index_get(buf, i + 6) as u64;
    let b7 = *vstd::slice::slice_index_get(buf, i + 7) as u64;
    b0 + b1 * 0x100 + b2 * 0x1_0000 + b3 * 0x100_0000 + b4 * 0x1_0000_0000 + b5 * 0x100_0000_0000
        + b6 * 0x1_0000_0000_0000 + b7 * 0x100_0000_0000_0000
}

/// Which named validation step rejected the input.  The enumeration and
/// flag variants carry the exact numeric value that was rejected.
#[derive(Clone, Copy, PartialEq, Eq, Structural, Debug)]
pub enum ParseErrorKind {
    /// The four magic bytes are wrong or missing.
    Magic,
    /// The class byte does not say 64-bit.
    Class,
    /// The data byte does not say little-endian.
    Endianness,
    /// The identification version byte is not 1.
    Version,
    /// The OS/ABI byte is outside the accepted set.
    OsAbi,
    /// The 16-bit file type is not a defined value.
    FileType(u16),
    /// The 16-bit machine is not a defined value.
    Machine(u16),
    /// The secondary 32-bit version field is not 1.
    VersionBis,
    /// A fixed-width field runs past the end of the buffer.
    Truncated,
    /// The 32-bit segment type of an entry is not a defined value.
    SegmentType(u32),
    /// The 32-bit flag word of an entry sets undefined bits.
    SegmentFlags(u32),
    /// A segment's file or memory range does not fit: its file bytes run
    /// past the end of the buffer, or its memory range past the address
    /// space.
    SegmentBounds,
    /// A segment declares a memory size smaller than its file size.
    SegmentSizes,
}

/// A rejected input: the check that failed and the byte offset of the field
/// at fault in the original buffer (clamped to the buffer length where the
/// field itself lies beyond it).
#[derive(Clone, Copy, PartialEq, Eq, Structural, Debug)]
pub struct ParseError {
    pub kind: ParseErrorKind,
    pub offset: u64,
}

/// An error value, with the offset narrowed to its stored width.
pub open spec fn fault(kind: ParseErrorKind, offset: int) -> ParseError
    recommends
        0 <= offset <= u64::MAX,
{
    ParseError { kind, offset: offset as u64 }
}

/// The first header check that fails on `s`, in validation order, or `None`
/// when the fixed 64-byte file header is fully valid.
pub open spec fn spec_header_err(s: Seq<u8>) -> Option<ParseError> {
    if !(s.len() >= 4 && s[0] == 0x7f && s[1] == 0x45 && s[2] == 0x4c && s[3] == 0x46) {
        Some(fault(ParseErrorKind::Magic, 0))
    } else if !(s.len() >= 5 && s[4] == 2) {
        Some(fault(ParseErrorKind::Class, 4))
    } else if !(s.len() >= 6 && s[5] == 1) {
        Some(fault(ParseErrorKind::Endianness, 5))
    } else if !(s.len() >= 7 && s[6] == 1) {
        Some(fault(ParseErrorKind::Version, 6))
    } else if !(s.len() >= 8 && (s[7] == 0 || s[7] == 3)) {
        Some(fault(ParseErrorKind::OsAbi, 7))
    } else if s.len() < 16 {
        Some(fault(ParseErrorKind::Truncated, 8))
    } else if s.len() < 18 {
        Some(fault(ParseErrorKind::Truncated, 16))
    } else if Type::spec_from_u16(le_u16_at(s, 16)) is None {
        Some(fault(ParseErrorKind::FileType(le_u16_at(s, 16)), 16))
    } else if s.len() < 20 {
        Some(fault(ParseErrorKind::Truncated, 18))
    } else if Machine::spec_from_u16(le_u16_at(s, 18)) is None {
        Some(fault(ParseErrorKind::Machine(le_u16_at(s, 18)), 18))
    } else if s.len() < 24 {
        Some(fault(ParseErrorKind::Truncated, 20))
    } else if le_u32_at(s, 20) != 1 {
        Some(fault(ParseErrorKind::VersionBis, 20))
    } else if s.len() < 32 {
        Some(fault(ParseErrorKind::Truncated, 24))
    } else if s.len() < 40 {
        Some(fault(ParseErrorKind::Truncated, 32))
    } else if s.len() < 48 {
        Some(fault(ParseErrorKind::Truncated, 40))
    } else if s.len() < 52 {
        Some(fault(ParseErrorKind::Truncated, 48))
    } else if s.len() < 54 {
        Some(fault(ParseErrorKind::Truncated, 52))
    } else if s.len() < 56 {
        Some(fault(ParseErrorKind::Truncated, 54))
    } else if s.len() < 58 {
        Some(fault(ParseErrorKind::Truncated, 56))
    } else if s.len() < 60 {
        Some(fault(ParseErrorKind::Truncated, 58))
    } else if s.len() < 62 {
        Some(fault(ParseErrorKind::Truncated, 60))
    } else if s.len() < 64 {
        Some(fault(ParseErrorKind::Truncated, 62))
    } else {
        None
    }
}

/// The entry-point address stored in a valid header.
pub open spec fn spec_entry_point(s: Seq<u8>) -> u64
    recommends
        s.len() >= 64,
{
    le_u64_at(s, 24)
}

/// The file offset of the program-header table.
pub open spec fn spec_ph_off(s: Seq<u8>) -> u64
    recommends
        s.len() >= 64,
{
    le_u64_at(s, 32)
}

/// The declared size of one program-header table entry.
pub open spec fn spec_ph_entsize(s: Seq<u8>) -> u16
    recommends
        s.len() >= 64,
{
    le_u16_at(s, 54)
}

/// The declared number of program-header table entries.
pub open spec fn spec_ph_count(s: Seq<u8>) -> u16
    recommends
        s.len() >= 64,
{
    le_u16_at(s, 56)
}

/// The file offset at which table entry `i` begins.
pub open spec fn spec_entry_start(s: Seq<u8>, i: int) -> int
    recommends
        s.len() >= 64,
{
    spec_ph_off(s) + i * spec_ph_entsize(s)
}

/// The first check that fails on the table entry at offset `start`, in
/// decode order, or `None` when the entry is valid.  The fixed fields of an
/// entry take 56 bytes; a declared entry size beyond that is tolerated and
/// the excess ignored.
pub open spec fn spec_entry_err(s: Seq<u8>, start: int) -> Option<ParseError>
    recommends
        0 <= start,
        start + 56 <= s.len(),
{
    let st = le_u32_at(s, start);
    let fl = le_u32_at(s, start + 4);
    let off = le_u64_at(s, start + 8);
    let va = le_u64_at(s, start + 16);
    let fsz = le_u64_at(s, start + 32);
    let msz = le_u64_at(s, start + 40);
    if SegmentType::spec_from_u32(st) is None {
        Some(fault(ParseErrorKind::SegmentType(st), start))
    } else if !SegmentFlags::spec_valid_bits(fl) {
        Some(fault(ParseErrorKind::SegmentFlags(fl), start + 4))
    } else if off + fsz > s.len() {
        Some(fault(ParseErrorKind::SegmentBounds, start + 8))
    } else if msz < fsz {
        Some(fault(ParseErrorKind::SegmentSizes, start + 40))
    } else if va + msz > u64::MAX {
        Some(fault(ParseErrorKind::SegmentBounds, start + 16))
    } else {
        None
    }
}

/// The first check that fails on table entries `i, i + 1, ...`, or `None`
/// when they are all valid.  An entry that does not lie fully inside the
/// buffer, or a declared entry size under the 56 fixed bytes, is a
/// truncation fault at the entry's (clamped) start offset.
pub open spec fn spec_table_err_from(s: Seq<u8>, i: int) -> Option<ParseError>
    recommends
        s.len() >= 64,
        0 <= i,
    decreases spec_ph_count(s) - i,
{
    if i < 0 || i >= spec_ph_count(s) {
        None
    } else {
        let start = spec_entry_start(s, i);
        if !(spec_ph_entsize(s) >= 56 && start + 56 <= s.len()) {
            Some(
                fault(
                    ParseErrorKind::Truncated,
                    if start <= s.len() {
                        start
                    } else {
                        s.len() as int
                    },
                ),
            )
        } else if spec_entry_err(s, start) is Some {
            spec_entry_err(s, start)
        } else {
            spec_table_err_from(s, i + 1)
        }
    }
}

/// The first check that fails anywhere on `s`, or `None` when the buffer is
/// a fully valid ELF64 image.
pub open spec fn spec_parse_err(s: Seq<u8>) -> Option<ParseError> {
    if spec_header_err(s) is Some {
        spec_header_err(s)
    } else {
        spec_table_err_from(s, 0)
    }
}

/// Whether `s` passes every validation step of the parser.
pub open spec fn spec_wf(s: Seq<u8>) -> bool {
    spec_parse_err(s) is None
}

/// The four magic bytes every ELF file begins with.
pub open spec fn spec_magic() -> Seq<u8> {
    seq![0x7fu8, 0x45u8, 0x4cu8, 0x46u8]
}

/// Corrupting any single one of the four magic bytes (or cutting the buffer
/// short of them) is reported as a `Magic` fault at offset zero.
pub proof fn lemma_magic_corruption(s: Seq<u8>, i: int)
    requires
        0 <= i < 4,
        s.len() <= i || s[i] != spec_magic()[i],
    ensures
        spec_parse_err(s) == Some(fault(ParseErrorKind::Magic, 0)),
{
}

/// Whether `ph` holds exactly what the valid table entry at offset `start`
/// of buffer `s` stores, with its data bytes copied from the whole-file
/// buffer at `[offset, offset + filesz)`.
pub open spec fn spec_ph_matches(ph: ProgramHeader, s: Seq<u8>, start: int) -> bool {
    &&& SegmentType::spec_from_u32(le_u32_at(s, start)) == Some(ph.typ)
    &&& ph.flags.spec_bits() == le_u32_at(s, start + 4)
    &&& ph.offset.0 == le_u64_at(s, start + 8)
    &&& ph.vaddr.0 == le_u64_at(s, start + 16)
    &&& ph.paddr.0 == le_u64_at(s, start + 24)
    &&& ph.filesz.0 == le_u64_at(s, start + 32)
    &&& ph.memsz.0 == le_u64_at(s, start + 40)
    &&& ph.align.0 == le_u64_at(s, start + 48)
    &&& ph.data@ == s.subrange(
        le_u64_at(s, start + 8) as int,
        le_u64_at(s, start + 8) + le_u64_at(s, start + 32),
    )
}

/// Whether `f` holds exactly what the valid buffer `s` stores: the decoded
/// header fields and one matching program header per table entry.
pub open spec fn spec_file_matches(f: File, s: Seq<u8>) -> bool {
    &&& Type::spec_from_u16(le_u16_at(s, 16)) == Some(f.typ)
    &&& Machine::spec_from_u16(le_u16_at(s, 18)) == Some(f.machine)
    &&& f.entry_point.0 == spec_entry_point(s)
    &&& f.program_headers@.len() == spec_ph_count(s)
    &&& forall|i: int|
        0 <= i < spec_ph_count(s) ==> spec_ph_matches(
            #[trigger] f.program_headers@[i],
            s,
            spec_entry_start(s, i),
        )
}

impl ProgramHeader {
    /// Decode the table entry whose fixed 56 bytes begin at `start`.
    ///
    /// Succeeds exactly when the entry passes every per-entry check, and
    /// then returns the header that mirrors the entry's bytes; the first
    /// failing check is reported otherwise.
    pub fn parse(buf: &[u8], start: usize) -> (r: Result<ProgramHeader, ParseError>)
        requires
            start + 56 <= buf@.len(),
        ensures
            match r {
                Ok(ph) => {
                    &&& spec_entry_err(buf@, start as int) is None
                    &&& spec_ph_matches(ph, buf@, start as int)
                    &&& ph.wf()
                },
                Err(e) => spec_entry_err(buf@, start as int) == Some(e),
            },
    {
        let n = buf.len();
        let n64 = n as u64;
        let st_raw = read_u32(buf, start);
        let typ = match SegmentType::try_from_u32(st_raw) {
            Ok(t) => t,
            Err(v) => {
                return Err(
                    ParseError { kind: ParseErrorKind::SegmentType(v), offset: start as u64 },
                );
            },
        };
        let fl_raw = read_u32(buf, start + 4);
        let flags = match SegmentFlags::from_bits(fl_raw) {
            Ok(f) => f,
            Err(v) => {
                return Err(
                    ParseError {
                        kind: ParseErrorKind::SegmentFlags(v),
                        offset: (start + 4) as u64,
                    },
                );
            },
        };
        let off = read_u64(buf, start + 8);
        let vaddr = read_u64(buf, start + 16);
        let paddr = read_u64(buf, start + 24);
        let filesz = read_u64(buf, start + 32);
        let memsz = read_u64(buf, start + 40);
        let align = read_u64(buf, start + 48);
        if off > n64 || filesz > n64 - off {
            return Err(ParseError { kind: ParseErrorKind::SegmentBounds, offset: (start + 8) as u64 });
        }
        if memsz < filesz {
            return Err(ParseError { kind: ParseErrorKind::SegmentSizes, offset: (start + 40) as u64 });
        }
        if vaddr > u64::MAX - memsz {
            return Err(ParseError { kind: ParseErrorKind::SegmentBounds, offset: (start + 16) as u64 });
        }
        let data_start = off as usize;
        let data_end = (off + filesz) as usize;
        let data = vstd::slice::slice_to_vec(vstd::slice::slice_subrange(buf, data_start, data_end));
        Ok(
            ProgramHeader {
                typ,
                flags,
                offset: Addr(off),
                vaddr: Addr(vaddr),
                paddr: Addr(paddr),
                filesz: Addr(filesz),
                memsz: Addr(memsz),
                align: Addr(align),
                data,
            },
        )
    }
}

impl File {
    /// Decode a whole ELF64 image.
    ///
    /// Succeeds exactly when the buffer passes every validation step, and
    /// then returns the file that mirrors the buffer's bytes, every program
    /// header internally consistent.  Otherwise the first failing check is
    /// reported with its byte offset, and nothing is returned: the parser
    /// never hands out a partially valid file.
    #[verifier::rlimit(50)]
    pub fn parse(buf: &[u8]) -> (r: Result<File, ParseError>)
        ensures
            match r {
                Ok(f) => {
                    &&& spec_wf(buf@)
                    &&& spec_file_matches(f, buf@)
                    &&& f.wf()
                },
                Err(e) => spec_parse_err(buf@) == Some(e),
            },
    {
        let n = buf.len();
        if n < 4 || *vstd::slice::slice_index_get(buf, 0) != 0x7f || *vstd::slice::slice_index_get(
            buf,
            1,
        ) != 0x45 || *vstd::slice::slice_index_get(buf, 2) != 0x4c || *vstd::slice::slice_index_get(
            buf,
            3,
        ) != 0x46 {
            return Err(ParseError { kind: ParseErrorKind::Magic, offset: 0 });
        }
        if n < 5 || *vstd::slice::slice_index_get(buf, 4) != 2 {
            return Err(ParseError { kind: ParseErrorKind::Class, offset: 4 });
        }
        if n < 6 || *vstd::slice::slice_index_get(buf, 5) != 1 {
            return Err(ParseError { kind: ParseErrorKind::Endianness, offset: 5 });
        }
        if n < 7 || *vstd::slice::slice_index_get(buf, 6) != 1 {
            return Err(ParseError { kind: ParseErrorKind::Version, offset: 6 });
        }
        if n < 8 || !(*vstd::slice::slice_index_get(buf, 7) == 0 || *vstd::slice::slice_index_get(
            buf,
            7,
        ) == 3) {
            return Err(ParseError { kind: ParseErrorKind::OsAbi, offset: 7 });
        }
        if n < 16 {
            return Err(ParseError { kind: ParseErrorKind::Truncated, offset: 8 });
        }
        if n < 18 {
            return Err(ParseError { kind: ParseErrorKind::Truncated, offset: 16 });
        }
        let typ = match Type::try_from_u16(read_u16(buf, 16)) {
            Ok(t) => t,
            Err(v) => {
                return Err(ParseError { kind: ParseErrorKind::FileType(v), offset: 16 });
            },
        };
        if n < 20 {
            return Err(ParseError { kind: ParseErrorKind::Truncated, offset: 18 });
        }
        let machine = match Machine::try_from_u16(read_u16(buf, 18)) {
            Ok(m) => m,
            Err(v) => {
                return Err(ParseError { kind: ParseErrorKind::Machine(v), offset: 18 });
            },
        };
        if n < 24 {
            return Err(ParseError { kind: ParseErrorKind::Truncated, offset: 20 });
        }
        if read_u32(buf, 20) != 1 {
            return Err(ParseError { kind: ParseErrorKind::VersionBis, offset: 20 });
        }
        if n < 32 {
            return Err(ParseError { kind: ParseErrorKind::Truncated, offset: 24 });
        }
        let entry_point = read_u64(buf, 24);
        if n < 40 {
            return Err(ParseError { kind: ParseErrorKind::Truncated, offset: 32 });
        }
        let ph_off = read_u64(buf, 32);
        if n < 48 {
            return Err(ParseError { kind: ParseErrorKind::Truncated, offset: 40 });
        }
        if n < 52 {
            return Err(ParseError { kind: ParseErrorKind::Truncated, offset: 48 });
        }
        if n < 54 {
            return Err(ParseError { kind: ParseErrorKind::Truncated, offset: 52 });
        }
        if n < 56 {
            return Err(ParseError { kind: ParseErrorKind::Truncated, offset: 54 });
        }
        let ph_entsize = read_u16(buf, 54) as usize;
        if n < 58 {
            return Err(ParseError { kind: ParseErrorKind::Truncated, offset: 56 });
        }
        let ph_count = read_u16(buf, 56) as usize;
        if n < 60 {
            return Err(ParseError { kind: ParseErrorKind::Truncated, offset: 58 });
        }
        if n < 62 {
            return Err(ParseError { kind: ParseErrorKind::Truncated, offset: 60 });
        }
        if n < 64 {
            return Err(ParseError { kind: ParseErrorKind::Truncated, offset: 62 });
        }
        assert(spec_header_err(buf@) is None);

        let n64 = n as u64;
        let mut program_headers: Vec<ProgramHeader> = Vec::new();
        let mut i: usize = 0;
        while i < ph_count
            invariant
                buf@.len() == n,
                n >= 64,
                n64 == n as u64,
                spec_header_err(buf@) is None,
                ph_entsize == spec_ph_entsize(buf@),
                ph_count == spec_ph_count(buf@),
                ph_off == spec_ph_off(buf@),
                i <= ph_count,
                program_headers@.len() == i,
                forall|j: int|
                    0 <= j < i ==> spec_ph_matches(
                        #[trigger] program_headers@[j],
                        buf@,
                        spec_entry_start(buf@, j),
                    ) && program_headers@[j].wf(),
                spec_table_err_from(buf@, 0) == spec_table_err_from(buf@, i as int),
            decreases ph_count - i,
        {
            proof {
                assert(i * ph_entsize <= 0xFFFF * 0xFFFF) by (nonlinear_arith)
                    requires
                        0 <= i <= 0xFFFF,
                        0 <= ph_entsize <= 0xFFFF,
                ;
            }
            let idx = (i as u64) * (ph_entsize as u64);
            let fits = ph_entsize >= 56 && ph_off <= n64 && idx <= n64 - ph_off && 56 <= n64
                - ph_off - idx;
            if !fits {
                let at = if ph_off <= n64 && idx <= n64 - ph_off {
                    ph_off + idx
                } else {
                    n64
                };
                return Err(ParseError { kind: ParseErrorKind::Truncated, offset: at });
            }
            let start = (ph_off + idx) as usize;
            assert(start as int == spec_entry_start(buf@, i as int));
            let ph = match ProgramHeader::parse(buf, start) {
                Ok(ph) => ph,
                Err(e) => {
                    return Err(e);
                },
            };
            program_headers.push(ph);
            i = i + 1;
        }
        let f = File { typ, machine, entry_point: Addr(entry_point), program_headers };
        Ok(f)
    }
}

} // verus!
