//! The XCR0 extended-control-register flags and the pure part of their
//! update rule; the actual `xgetbv`/`xsetbv` instructions stay outside
//! the library.

use vstd::prelude::*;

verus! {

/// The XCR0 register (XFEATURE_ENABLED_MASK).
#[derive(Clone, Copy, Debug)]
pub struct XCr0;

/// x87 FPU state management; must always be enabled.
pub const XCR0_X87: u64 = 1;

/// 128-bit SSE state management.
pub const XCR0_SSE: u64 = 2;

/// 256-bit AVX state management; requires SSE.
pub const XCR0_YMM: u64 = 4;

/// A set of XCR0 feature flags.
#[derive(Clone, Copy, Debug, PartialEq, Eq, Structural)]
pub struct XCr0Flags {
    /// The raw flag bits, only the known ones.
    pub bits: u64,
}

impl XCr0Flags {
    /// Keeps only the known flag bits of a raw register value.
    pub fn from_bits_truncate(raw: u64) -> (r: XCr0Flags)
        ensures
            r.bits == raw & (XCR0_X87 | XCR0_SSE | XCR0_YMM),
    {
        XCr0Flags { bits: raw & (XCR0_X87 | XCR0_SSE | XCR0_YMM) }
    }

    /// Whether every flag of `other` is set.
    pub fn contains(&self, other: u64) -> (r: bool)
        ensures
            r == (self.bits & other == other),
    {
        self.bits & other == other
    }
}

impl XCr0 {
    /// The raw value to write back for `flags`, given the raw value read:
    /// reserved bits are preserved, x87 is forced on, and SSE is forced
    /// on whenever YMM is requested.
    pub fn write_value(old_raw: u64, flags: XCr0Flags) -> (r: u64)
        ensures
            r == (old_raw & !(XCR0_X87 | XCR0_SSE | XCR0_YMM)) | XCR0_X87 | flags.bits | (if flags.bits
                & XCR0_YMM == XCR0_YMM {
                XCR0_SSE
            } else {
                0
            }),
    {
        let reserved = old_raw & !(XCR0_X87 | XCR0_SSE | XCR0_YMM) | XCR0_X87;
        let extra = if flags.bits & XCR0_YMM == XCR0_YMM {
            XCR0_SSE
        } else {
            0
        };
        reserved | flags.bits | extra
    }
}

} // verus!
