//! The hypervisor-side error type: a kind plus an optional source-location
//! context, propagated up to `main` so the host process fails cleanly.

use vstd::prelude::*;

verus! {

/// What went wrong while building or running the VM.
#[derive(Clone, Copy, Debug, PartialEq, Eq)]
pub enum ErrorKind {
    /// A userspace memory region overlapping an existing one was added.
    OverlappingUserspaceMemRegionExists,
    /// A userspace memory region reused an existing slot.
    MemRegionWithSlotAlreadyExists,
    /// No userspace memory region holds the requested slot.
    NoMemRegionWithSlotFound,
    /// No physical memory is free.
    NoMemFree,
    /// The host `mmap` failed.
    MmapFailed,
    /// The host `madvise` failed.
    MadviseFailed,
    /// The requested virtualization mode is not supported.
    VMModeUnsupported,
    /// No mapping backs the requested address.
    NoMappingForVirtualAddress,
    /// No virtual address range of the requested size is available.
    NoVirtualAddressAvailable,
    /// The guest entry point was not found in the image.
    GuestCodeNotFound,
    /// The image is not a loadable 64-bit ELF.
    ElfHeaderInvalid,
    /// The image asks for an interpreter or another unsupported feature.
    ElfUnsupported,
    /// A loadable segment's arithmetic does not fit the image or the
    /// address space.
    ElfSegmentBounds,
    /// A segment's frames collide with memory already claimed.
    RegionConflict,
    /// An input/output error from the host.
    Io,
    /// A plain message.
    Str(&'static str),
    /// An otherwise undescribed error.
    Generic,
}

/// An error with optional source-location context.
#[derive(Clone, Copy, Debug)]
pub struct Error(pub ErrorKind, pub Option<&'static str>);

impl Error {
    /// Wraps a kind without context.
    pub fn new(kind: ErrorKind) -> (r: Error)
        ensures
            r.0 == kind,
            r.1 is None,
    {
        Error(kind, None)
    }

    /// The kind of this error.
    pub fn kind(&self) -> (r: &ErrorKind)
        ensures
            *r == self.0,
    {
        &self.0
    }
}

} // verus!
