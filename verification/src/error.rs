//! The failure kinds surfaced from core API operations. All errors are
//! returned to the caller as values; none are retried or logged.

use vstd::prelude::*;

verus! {

#[derive(Clone, Copy, Debug, PartialEq, Eq, Structural, Hash)]
pub enum RetroRsError {
    /// The framebuffer was queried before the first video refresh.
    NoFramebufferError,
    /// An external image encoder rejected the buffer.
    ImageBufferError,
    /// An integer cast for image dimensions overflowed.
    TryFromIntError,
    /// The caller-provided destination is shorter than the requested length.
    RAMCopyDestTooSmallError,
    /// The requested address precedes the region start.
    RAMCopySrcOutOfBoundsError,
    /// The descriptor index is stale with respect to the current map.
    RAMMapOutOfRangeError,
    /// The requested length exits the matched region.
    RAMCopyCrossedRegionError,
    /// No descriptor matches the address.
    RAMCopyNotMappedIntoMemoryRegionError,
}

impl RetroRsError {
    /// The human-readable description of each failure kind.
    pub open spec fn message_spec(self) -> Seq<char> {
        match self {
            RetroRsError::NoFramebufferError => "This emulator does not have a framebuffer yet."@,
            RetroRsError::ImageBufferError => "Failure in creating image buffer"@,
            RetroRsError::TryFromIntError => "out of range integral type conversion attempted"@,
            RetroRsError::RAMCopyDestTooSmallError => "Destination for RAM copy too small"@,
            RetroRsError::RAMCopySrcOutOfBoundsError => "Source address range for RAM copy out of bounds"@,
            RetroRsError::RAMMapOutOfRangeError => "Given memory map is not valid for this core"@,
            RetroRsError::RAMCopyCrossedRegionError => "RAM copy crossed over memory region boundaries"@,
            RetroRsError::RAMCopyNotMappedIntoMemoryRegionError => "RAM copy doesn't start within a memory region"@,
        }
    }

    pub fn message(&self) -> (r: &'static str)
        ensures
            r@ == self.message_spec(),
    {
        match self {
            RetroRsError::NoFramebufferError => "This emulator does not have a framebuffer yet.",
            RetroRsError::ImageBufferError => "Failure in creating image buffer",
            RetroRsError::TryFromIntError => "out of range integral type conversion attempted",
            RetroRsError::RAMCopyDestTooSmallError => "Destination for RAM copy too small",
            RetroRsError::RAMCopySrcOutOfBoundsError => "Source address range for RAM copy out of bounds",
            RetroRsError::RAMMapOutOfRangeError => "Given memory map is not valid for this core",
            RetroRsError::RAMCopyCrossedRegionError => "RAM copy crossed over memory region boundaries",
            RetroRsError::RAMCopyNotMappedIntoMemoryRegionError => "RAM copy doesn't start within a memory region",
        }
    }
}

} // verus!
