//! Diagnostics rendering: hexadecimal dumps of raw bytes and the fixed-width
//! hexadecimal form of an address, produced as ASCII bytes so a caller can
//! print them verbatim.

use vstd::prelude::*;

use crate::addr::Addr;

verus! {

/// How many bytes of a buffer a dump shows at most.
pub const DUMP_LIMIT: usize = 32;

/// The lowercase ASCII hexadecimal digit for a value below 16.
pub open spec fn spec_hex_digit(n: int) -> u8
    recommends
        0 <= n < 16,
{
    if n < 10 {
        (0x30 + n) as u8
    } else {
        (0x57 + n) as u8
    }
}

/// The lowercase ASCII hexadecimal digit for a nibble.
pub fn hex_digit(n: u8) -> (r: u8)
    requires
        n < 16,
    ensures
        r == spec_hex_digit(n as int),
{
    if n < 10 {
        0x30 + n
    } else {
        0x57 + n
    }
}

/// A borrowed byte buffer whose prefix can be rendered as a hex dump.
pub struct HexDump<'a>(pub &'a [u8]);

impl<'a> HexDump<'a> {
    /// How many bytes of the buffer the dump covers.
    pub open spec fn spec_shown(self) -> int {
        if self.0@.len() < DUMP_LIMIT {
            self.0@.len() as int
        } else {
            DUMP_LIMIT as int
        }
    }

    /// Render up to the first 32 bytes, each as two lowercase hexadecimal
    /// digits followed by one space, as ASCII bytes.
    pub fn render(&self) -> (r: Vec<u8>)
        ensures
            r@.len() == 3 * self.spec_shown(),
            forall|k: int|
                0 <= k < self.spec_shown() ==> {
                    &&& r@[3 * k] == spec_hex_digit(self.0@[k] as int / 16)
                    &&& r@[3 * k + 1] == spec_hex_digit(self.0@[k] as int % 16)
                    &&& r@[3 * k + 2] == 0x20
                },
    {
        let n = self.0.len();
        let shown = if n < DUMP_LIMIT {
            n
        } else {
            DUMP_LIMIT
        };
        let mut out: Vec<u8> = Vec::new();
        let mut i: usize = 0;
        while i < shown
            invariant
                shown == self.spec_shown(),
                shown <= self.0@.len(),
                i <= shown,
                out@.len() == 3 * i,
                forall|k: int|
                    0 <= k < i ==> {
                        &&& out@[3 * k] == spec_hex_digit(self.0@[k] as int / 16)
                        &&& out@[3 * k + 1] == spec_hex_digit(self.0@[k] as int % 16)
                        &&& out@[3 * k + 2] == 0x20
                    },
            decreases shown - i,
        {
            let b = *vstd::slice::slice_index_get(self.0, i);
            out.push(hex_digit(b / 16));
            out.push(hex_digit(b % 16));
            out.push(0x20);
            i = i + 1;
        }
        out
    }
}

impl Addr {
    /// The fixed eight-digit lowercase hexadecimal form of the address's low
    /// 32 bits, as ASCII bytes.
    pub open spec fn spec_hex(self) -> Seq<u8> {
        let y = self.0 as int % 0x1_0000_0000;
        seq![
            spec_hex_digit(y / 0x1000_0000 % 16),
            spec_hex_digit(y / 0x100_0000 % 16),
            spec_hex_digit(y / 0x10_0000 % 16),
            spec_hex_digit(y / 0x1_0000 % 16),
            spec_hex_digit(y / 0x1000 % 16),
            spec_hex_digit(y / 0x100 % 16),
            spec_hex_digit(y / 0x10 % 16),
            spec_hex_digit(y % 16),
        ]
    }

    /// Render the address as its fixed eight-digit lowercase hexadecimal
    /// form (the low 32 bits, zero-padded), as ASCII bytes.
    pub fn hex(self) -> (r: Vec<u8>)
        ensures
            r@ == self.spec_hex(),
    {
        let y = (self.0 % 0x1_0000_0000) as u32;
        let mut out: Vec<u8> = Vec::new();
        out.push(hex_digit((y / 0x1000_0000 % 16) as u8));
        out.push(hex_digit((y / 0x100_0000 % 16) as u8));
        out.push(hex_digit((y / 0x10_0000 % 16) as u8));
        out.push(hex_digit((y / 0x1_0000 % 16) as u8));
        out.push(hex_digit((y / 0x1000 % 16) as u8));
        out.push(hex_digit((y / 0x100 % 16) as u8));
        out.push(hex_digit((y / 0x10 % 16) as u8));
        out.push(hex_digit((y % 16) as u8));
        proof {
            assert(out@ =~= self.spec_hex());
        }
        out
    }
}

} // verus!
