//! Typed 64-bit addresses and address ranges.

use vstd::prelude::*;

verus! {

/// A 64-bit address or offset, inside an ELF file or inside the process
/// image.  An immutable value type with checked arithmetic and a total order.
#[derive(Clone, Copy, PartialEq, Eq, Structural, Debug, Hash)]
pub struct Addr(pub u64);

impl Addr {
    /// The sum of two addresses.
    pub fn plus(self, other: Addr) -> (r: Addr)
        requires
            self.0 + other.0 <= u64::MAX,
        ensures
            r.0 == self.0 + other.0,
    {
        Addr(self.0 + other.0)
    }

    /// The difference of two addresses.
    pub fn minus(self, other: Addr) -> (r: Addr)
        requires
            other.0 <= self.0,
        ensures
            r.0 == self.0 - other.0,
    {
        Addr(self.0 - other.0)
    }

    /// The address as a host-native index.
    pub fn to_usize(self) -> (r: usize)
        requires
            self.0 <= usize::MAX,
        ensures
            r == self.0,
    {
        self.0 as usize
    }
}

impl From<u64> for Addr {
    fn from(x: u64) -> (r: Addr)
        ensures
            r.0 == x,
    {
        Addr(x)
    }
}

impl vstd::std_specs::convert::FromSpecImpl<u64> for Addr {
    open spec fn obeys_from_spec() -> bool {
        true
    }

    open spec fn from_spec(x: u64) -> Addr {
        Addr(x)
    }
}

impl PartialOrd for Addr {
    fn partial_cmp(&self, other: &Addr) -> (r: Option<core::cmp::Ordering>) {
        if self.0 < other.0 {
            Some(core::cmp::Ordering::Less)
        } else if self.0 == other.0 {
            Some(core::cmp::Ordering::Equal)
        } else {
            Some(core::cmp::Ordering::Greater)
        }
    }
}

impl vstd::std_specs::cmp::PartialOrdSpecImpl for Addr {
    open spec fn obeys_partial_cmp_spec() -> bool {
        true
    }

    open spec fn partial_cmp_spec(&self, other: &Addr) -> Option<core::cmp::Ordering> {
        if self.0 < other.0 {
            Some(core::cmp::Ordering::Less)
        } else if self.0 == other.0 {
            Some(core::cmp::Ordering::Equal)
        } else {
            Some(core::cmp::Ordering::Greater)
        }
    }
}

/// A half-open range `[start, end)` of addresses.
#[derive(Clone, Copy, PartialEq, Eq, Structural, Debug)]
pub struct AddrRange {
    pub start: Addr,
    pub end: Addr,
}

impl AddrRange {
    /// Whether `a` lies inside the range.
    pub open spec fn spec_contains(self, a: Addr) -> bool {
        self.start.0 <= a.0 < self.end.0
    }

    /// Whether `a` lies inside the range.
    pub fn contains(&self, a: Addr) -> (r: bool)
        ensures
            r == self.spec_contains(a),
    {
        self.start.0 <= a.0 && a.0 < self.end.0
    }

    /// Whether the range holds no address at all.
    pub open spec fn spec_is_empty(self) -> bool {
        self.end.0 <= self.start.0
    }

    /// Whether the range holds no address at all.
    pub fn is_empty(&self) -> (r: bool)
        ensures
            r == self.spec_is_empty(),
    {
        self.end.0 <= self.start.0
    }
}

} // verus!
