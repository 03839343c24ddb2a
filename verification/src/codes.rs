//! Closed enumerations decoded from fixed-width integers, and the
//! read/write/execute permission bit-set of a segment.
//!
//! Decoding is strict: a numeric value outside the defined set is rejected
//! and handed back unchanged, never mapped to a default variant, and a flag
//! word with bits outside the three defined permission bits is rejected the
//! same way.

use vstd::prelude::*;

verus! {

/// The kind of ELF file, decoded from the 16-bit field at offset 16.
#[derive(Clone, Copy, PartialEq, Eq, Structural, Debug, Hash)]
pub enum Type {
    Null,
    Rel,
    Exec,
    Dyn,
    Core,
}

impl Type {
    /// The numeric value this variant is stored as on disk.
    pub open spec fn code(self) -> u16 {
        match self {
            Type::Null => 0x0,
            Type::Rel => 0x1,
            Type::Exec => 0x2,
            Type::Dyn => 0x3,
            Type::Core => 0x4,
        }
    }

    /// The variant stored as `x`, if `x` is a defined file type.
    pub open spec fn spec_from_u16(x: u16) -> Option<Type> {
        if x == 0x0 {
            Some(Type::Null)
        } else if x == 0x1 {
            Some(Type::Rel)
        } else if x == 0x2 {
            Some(Type::Exec)
        } else if x == 0x3 {
            Some(Type::Dyn)
        } else if x == 0x4 {
            Some(Type::Core)
        } else {
            None
        }
    }

    /// Encode the file type as its on-disk numeric value.
    pub fn to_u16(self) -> (r: u16)
        ensures
            r == self.code(),
    {
        match self {
            Type::Null => 0x0,
            Type::Rel => 0x1,
            Type::Exec => 0x2,
            Type::Dyn => 0x3,
            Type::Core => 0x4,
        }
    }

    /// Decode a file type; an undefined value is handed back unchanged.
    pub fn try_from_u16(x: u16) -> (r: Result<Type, u16>)
        ensures
            match r {
                Ok(t) => Type::spec_from_u16(x) == Some(t),
                Err(v) => v == x && Type::spec_from_u16(x) is None,
            },
    {
        if x == 0x0 {
            Ok(Type::Null)
        } else if x == 0x1 {
            Ok(Type::Rel)
        } else if x == 0x2 {
            Ok(Type::Exec)
        } else if x == 0x3 {
            Ok(Type::Dyn)
        } else if x == 0x4 {
            Ok(Type::Core)
        } else {
            Err(x)
        }
    }
}

/// Decoding a defined file-type value and re-encoding it yields the value
/// back, and encoding any variant decodes to that variant.
pub proof fn lemma_type_round_trip(x: u16, t: Type)
    ensures
        Type::spec_from_u16(x) matches Some(u) ==> u.code() == x,
        Type::spec_from_u16(t.code()) == Some(t),
{
}

/// The machine architecture, decoded from the 16-bit field at offset 18.
#[derive(Clone, Copy, PartialEq, Eq, Structural, Debug, Hash)]
pub enum Machine {
    X86,
    Arm,
    X86_64,
    AArch64,
}

impl Machine {
    /// The numeric value this variant is stored as on disk.
    pub open spec fn code(self) -> u16 {
        match self {
            Machine::X86 => 0x03,
            Machine::Arm => 0x28,
            Machine::X86_64 => 0x3e,
            Machine::AArch64 => 0xb7,
        }
    }

    /// The variant stored as `x`, if `x` is a defined machine.
    pub open spec fn spec_from_u16(x: u16) -> Option<Machine> {
        if x == 0x03 {
            Some(Machine::X86)
        } else if x == 0x28 {
            Some(Machine::Arm)
        } else if x == 0x3e {
            Some(Machine::X86_64)
        } else if x == 0xb7 {
            Some(Machine::AArch64)
        } else {
            None
        }
    }

    /// Encode the machine as its on-disk numeric value.
    pub fn to_u16(self) -> (r: u16)
        ensures
            r == self.code(),
    {
        match self {
            Machine::X86 => 0x03,
            Machine::Arm => 0x28,
            Machine::X86_64 => 0x3e,
            Machine::AArch64 => 0xb7,
        }
    }

    /// Decode a machine; an undefined value is handed back unchanged.
    pub fn try_from_u16(x: u16) -> (r: Result<Machine, u16>)
        ensures
            match r {
                Ok(m) => Machine::spec_from_u16(x) == Some(m),
                Err(v) => v == x && Machine::spec_from_u16(x) is None,
            },
    {
        if x == 0x03 {
            Ok(Machine::X86)
        } else if x == 0x28 {
            Ok(Machine::Arm)
        } else if x == 0x3e {
            Ok(Machine::X86_64)
        } else if x == 0xb7 {
            Ok(Machine::AArch64)
        } else {
            Err(x)
        }
    }
}

/// Decoding a defined machine value and re-encoding it yields the value
/// back, and encoding any variant decodes to that variant.
pub proof fn lemma_machine_round_trip(x: u16, m: Machine)
    ensures
        Machine::spec_from_u16(x) matches Some(u) ==> u.code() == x,
        Machine::spec_from_u16(m.code()) == Some(m),
{
}

/// The kind of a program-header entry, decoded from its first 32-bit field.
#[derive(Clone, Copy, PartialEq, Eq, Structural, Debug, Hash)]
pub enum SegmentType {
    Null,
    Load,
    Dynamic,
    Interp,
    Note,
    ShLib,
    PHdr,
    TLS,
    LoOS,
    HiOS,
    LoProc,
    HiProc,
    GnuEhFrame,
    GnuStack,
    GnuRelRo,
    GnuProperty,
}

impl SegmentType {
    /// The numeric value this variant is stored as on disk.
    pub open spec fn code(self) -> u32 {
        match self {
            SegmentType::Null => 0x0,
            SegmentType::Load => 0x1,
            SegmentType::Dynamic => 0x2,
            SegmentType::Interp => 0x3,
            SegmentType::Note => 0x4,
            SegmentType::ShLib => 0x5,
            SegmentType::PHdr => 0x6,
            SegmentType::TLS => 0x7,
            SegmentType::LoOS => 0x6000_0000,
            SegmentType::HiOS => 0x6FFF_FFFF,
            SegmentType::LoProc => 0x7000_0000,
            SegmentType::HiProc => 0x7FFF_FFFF,
            SegmentType::GnuEhFrame => 0x6474_E550,
            SegmentType::GnuStack => 0x6474_E551,
            SegmentType::GnuRelRo => 0x6474_E552,
            SegmentType::GnuProperty => 0x6474_E553,
        }
    }

    /// The variant stored as `x`, if `x` is a defined segment type.
    pub open spec fn spec_from_u32(x: u32) -> Option<SegmentType> {
        if x == 0x0 {
            Some(SegmentType::Null)
        } else if x == 0x1 {
            Some(SegmentType::Load)
        } else if x == 0x2 {
            Some(SegmentType::Dynamic)
        } else if x == 0x3 {
            Some(SegmentType::Interp)
        } else if x == 0x4 {
            Some(SegmentType::Note)
        } else if x == 0x5 {
            Some(SegmentType::ShLib)
        } else if x == 0x6 {
            Some(SegmentType::PHdr)
        } else if x == 0x7 {
            Some(SegmentType::TLS)
        } else if x == 0x6000_0000 {
            Some(SegmentType::LoOS)
        } else if x == 0x6FFF_FFFF {
            Some(SegmentType::HiOS)
        } else if x == 0x7000_0000 {
            Some(SegmentType::LoProc)
        } else if x == 0x7FFF_FFFF {
            Some(SegmentType::HiProc)
        } else if x == 0x6474_E550 {
            Some(SegmentType::GnuEhFrame)
        } else if x == 0x6474_E551 {
            Some(SegmentType::GnuStack)
        } else if x == 0x6474_E552 {
            Some(SegmentType::GnuRelRo)
        } else if x == 0x6474_E553 {
            Some(SegmentType::GnuProperty)
        } else {
            None
        }
    }

    /// Encode the segment type as its on-disk numeric value.
    pub fn to_u32(self) -> (r: u32)
        ensures
            r == self.code(),
    {
        match self {
            SegmentType::Null => 0x0,
            SegmentType::Load => 0x1,
            SegmentType::Dynamic => 0x2,
            SegmentType::Interp => 0x3,
            SegmentType::Note => 0x4,
            SegmentType::ShLib => 0x5,
            SegmentType::PHdr => 0x6,
            SegmentType::TLS => 0x7,
            SegmentType::LoOS => 0x6000_0000,
            SegmentType::HiOS => 0x6FFF_FFFF,
            SegmentType::LoProc => 0x7000_0000,
            SegmentType::HiProc => 0x7FFF_FFFF,
            SegmentType::GnuEhFrame => 0x6474_E550,
            SegmentType::GnuStack => 0x6474_E551,
            SegmentType::GnuRelRo => 0x6474_E552,
            SegmentType::GnuProperty => 0x6474_E553,
        }
    }

    /// Decode a segment type; an undefined value is handed back unchanged.
    pub fn try_from_u32(x: u32) -> (r: Result<SegmentType, u32>)
        ensures
            match r {
                Ok(t) => SegmentType::spec_from_u32(x) == Some(t),
                Err(v) => v == x && SegmentType::spec_from_u32(x) is None,
            },
    {
        if x == 0x0 {
            Ok(SegmentType::Null)
        } else if x == 0x1 {
            Ok(SegmentType::Load)
        } else if x == 0x2 {
            Ok(SegmentType::Dynamic)
        } else if x == 0x3 {
            Ok(SegmentType::Interp)
        } else if x == 0x4 {
            Ok(SegmentType::Note)
        } else if x == 0x5 {
            Ok(SegmentType::ShLib)
        } else if x == 0x6 {
            Ok(SegmentType::PHdr)
        } else if x == 0x7 {
            Ok(SegmentType::TLS)
        } else if x == 0x6000_0000 {
            Ok(SegmentType::LoOS)
        } else if x == 0x6FFF_FFFF {
            Ok(SegmentType::HiOS)
        } else if x == 0x7000_0000 {
            Ok(SegmentType::LoProc)
        } else if x == 0x7FFF_FFFF {
            Ok(SegmentType::HiProc)
        } else if x == 0x6474_E550 {
            Ok(SegmentType::GnuEhFrame)
        } else if x == 0x6474_E551 {
            Ok(SegmentType::GnuStack)
        } else if x == 0x6474_E552 {
            Ok(SegmentType::GnuRelRo)
        } else if x == 0x6474_E553 {
            Ok(SegmentType::GnuProperty)
        } else {
            Err(x)
        }
    }
}

/// Decoding a defined segment-type value and re-encoding it yields the value
/// back, and encoding any variant decodes to that variant.
pub proof fn lemma_segment_type_round_trip(x: u32, t: SegmentType)
    ensures
        SegmentType::spec_from_u32(x) matches Some(u) ==> u.code() == x,
        SegmentType::spec_from_u32(t.code()) == Some(t),
{
}

/// One permission of a segment.  On disk, `Execute` is bit 0, `Write` bit 1
/// and `Read` bit 2 of the 32-bit flag field.
#[derive(Clone, Copy, PartialEq, Eq, Structural, Debug, Hash)]
pub enum SegmentFlag {
    Execute,
    Write,
    Read,
}

/// The permission bit-set of a segment: which of read, write and execute are
/// granted.  Only the three defined bits may be set in the on-disk word.
#[derive(Clone, Copy, PartialEq, Eq, Structural, Debug, Hash)]
pub struct SegmentFlags {
    pub read: bool,
    pub write: bool,
    pub execute: bool,
}

impl SegmentFlags {
    /// The on-disk 32-bit word that stores exactly this set.
    pub open spec fn spec_bits(self) -> u32 {
        ((if self.execute {
            1u32
        } else {
            0u32
        }) + (if self.write {
            2u32
        } else {
            0u32
        }) + (if self.read {
            4u32
        } else {
            0u32
        })) as u32
    }

    /// Whether a 32-bit word sets no bits outside the three defined ones.
    pub open spec fn spec_valid_bits(x: u32) -> bool {
        x < 8
    }

    /// The empty permission set.
    pub fn none() -> (r: SegmentFlags)
        ensures
            r == (SegmentFlags { read: false, write: false, execute: false }),
    {
        SegmentFlags { read: false, write: false, execute: false }
    }

    /// Decode a raw flag word.  Succeeds exactly when no undefined bit is
    /// set; a rejected word is handed back unchanged.
    pub fn from_bits(x: u32) -> (r: Result<SegmentFlags, u32>)
        ensures
            match r {
                Ok(f) => SegmentFlags::spec_valid_bits(x) && f.spec_bits() == x,
                Err(v) => v == x && !SegmentFlags::spec_valid_bits(x),
            },
    {
        if x >= 8 {
            Err(x)
        } else {
            let f = SegmentFlags {
                read: x & 4 == 4,
                write: x & 2 == 2,
                execute: x & 1 == 1,
            };
            proof {
                assert(x < 8 ==> ((if x & 1 == 1 {
                    1u32
                } else {
                    0u32
                }) + (if x & 2 == 2 {
                    2u32
                } else {
                    0u32
                }) + (if x & 4 == 4 {
                    4u32
                } else {
                    0u32
                })) as u32 == x) by (bit_vector);
            }
            Ok(f)
        }
    }

    /// Encode the set as its on-disk 32-bit word.
    pub fn bits(&self) -> (r: u32)
        ensures
            r == self.spec_bits(),
    {
        (if self.execute {
            1u32
        } else {
            0u32
        }) + (if self.write {
            2u32
        } else {
            0u32
        }) + (if self.read {
            4u32
        } else {
            0u32
        })
    }

    /// The three-character permission summary, as ASCII bytes: `R`, `W` and
    /// `X` in that order, each replaced by a dot when the permission is
    /// absent.
    pub open spec fn spec_summary(self) -> Seq<u8> {
        seq![
            if self.read {
                0x52u8
            } else {
                0x2eu8
            },
            if self.write {
                0x57u8
            } else {
                0x2eu8
            },
            if self.execute {
                0x58u8
            } else {
                0x2eu8
            },
        ]
    }

    /// Render the three-character permission summary as ASCII bytes.
    pub fn summary(&self) -> (r: Vec<u8>)
        ensures
            r@ == self.spec_summary(),
    {
        let mut out: Vec<u8> = Vec::new();
        out.push(if self.read {
            0x52
        } else {
            0x2e
        });
        out.push(if self.write {
            0x57
        } else {
            0x2e
        });
        out.push(if self.execute {
            0x58
        } else {
            0x2e
        });
        proof {
            assert(out@ =~= self.spec_summary());
        }
        out
    }

    /// Whether one permission is in the set.
    pub fn contains(&self, flag: SegmentFlag) -> (r: bool)
        ensures
            r == match flag {
                SegmentFlag::Read => self.read,
                SegmentFlag::Write => self.write,
                SegmentFlag::Execute => self.execute,
            },
    {
        match flag {
            SegmentFlag::Read => self.read,
            SegmentFlag::Write => self.write,
            SegmentFlag::Execute => self.execute,
        }
    }
}

/// Decoding a valid flag word and re-encoding it yields the word back, and
/// every permission set encodes to a valid word that decodes to the set.
pub proof fn lemma_flags_round_trip(x: u32, f: SegmentFlags)
    ensures
        SegmentFlags::spec_valid_bits(x) ==> exists|g: SegmentFlags| #[trigger] g.spec_bits() == x,
        SegmentFlags::spec_valid_bits(f.spec_bits()),
        forall|g: SegmentFlags| g.spec_bits() == f.spec_bits() ==> g == f,
{
    if SegmentFlags::spec_valid_bits(x) {
        let g = SegmentFlags { read: x & 4 == 4, write: x & 2 == 2, execute: x & 1 == 1 };
        assert(x < 8 ==> ((if x & 1 == 1 {
            1u32
        } else {
            0u32
        }) + (if x & 2 == 2 {
            2u32
        } else {
            0u32
        }) + (if x & 4 == 4 {
            4u32
        } else {
            0u32
        })) as u32 == x) by (bit_vector);
        assert(g.spec_bits() == x);
    }
}

} // verus!
