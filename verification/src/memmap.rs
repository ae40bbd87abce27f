//! The libretro memory-descriptor scheme: the core registers a table of
//! descriptors mapping emulated addresses onto host buffers through select,
//! disconnect and offset masks. Scanning order matters — descriptors may
//! intentionally alias, and the first match wins.
//!
//! The host pointer of each descriptor never enters this module: the table
//! here carries everything else, and a resolved address comes back as a pair
//! of descriptor index and local byte offset, which the unverified shell turns
//! into a slice of the host buffer at that index.

use vstd::prelude::*;

use crate::error::RetroRsError;

verus! {

/// One memory descriptor as the core registers it, minus the host pointer.
/// The table entry at index `i` describes the host buffer at the same index.
#[derive(Clone, Debug, PartialEq, Eq, Hash)]
pub struct MemoryDescriptor {
    pub flags: u64,
    /// Offset into the host buffer at which this mapping begins.
    pub offset: usize,
    /// Base address of the mapping in the emulated address space.
    pub start: usize,
    /// If non-zero, an address matches only if `addr & select != 0`.
    pub select: usize,
    /// Bits of the local offset that are wired to nothing and masked away.
    pub disconnect: usize,
    /// Length of the mapping in bytes.
    pub len: usize,
    /// The address-space name, or empty if the core gave none.
    pub name: String,
}

/// A friendlier wrapper over one memory descriptor, handed to embedders by
/// `memory_regions`. It is valid only as long as the descriptor table it was
/// derived from is the current one.
#[derive(Clone, Debug, PartialEq, Eq, Hash)]
pub struct MemoryRegion {
    /// The index of the descriptor this region was derived from.
    pub which: usize,
    pub flags: u64,
    pub len: usize,
    pub start: usize,
    pub offset: usize,
    pub name: String,
    pub select: usize,
    pub disconnect: usize,
}

/// The local byte offset of `addr` within a descriptor: the distance from the
/// mapping's base, with the disconnected bits masked away.
pub open spec fn local_offset(d: MemoryDescriptor, addr: usize) -> usize
    recommends
        d.start <= addr,
{
    ((addr - d.start) as usize) & !d.disconnect
}

/// The in-order scan of the descriptor table from index `i`: skip a
/// descriptor whose select mask rejects the address, accept the first whose
/// range contains it, fail once a descriptor's range lies wholly above it.
pub open spec fn scan_spec(descs: Seq<MemoryDescriptor>, addr: usize, i: int) -> Result<
    (usize, usize),
    RetroRsError,
>
    recommends
        0 <= i,
    decreases descs.len() - i,
{
    if i < 0 || i >= descs.len() {
        Err(RetroRsError::RAMCopyNotMappedIntoMemoryRegionError)
    } else {
        let d = descs[i];
        if d.select != 0 && addr & d.select == 0 {
            scan_spec(descs, addr, i + 1)
        } else if d.start <= addr && addr - d.start < d.len {
            Ok((i as usize, local_offset(d, addr)))
        } else if addr < d.start {
            Err(RetroRsError::RAMCopySrcOutOfBoundsError)
        } else {
            scan_spec(descs, addr, i + 1)
        }
    }
}

/// What a successful scan means: the returned index is a real in-order match
/// for the address, and the local offset is the masked distance from that
/// descriptor's base, which never exceeds the unmasked distance.
pub proof fn lemma_scan_ok_bounds(
    descs: Seq<MemoryDescriptor>,
    addr: usize,
    i: int,
    which: usize,
    local: usize,
)
    requires
        0 <= i,
        descs.len() <= usize::MAX,
        scan_spec(descs, addr, i) == Ok::<(usize, usize), RetroRsError>((which, local)),
    ensures
        i <= which < descs.len(),
        descs[which as int].start <= addr,
        addr - descs[which as int].start < descs[which as int].len,
        descs[which as int].select == 0 || addr & descs[which as int].select != 0,
        local == local_offset(descs[which as int], addr),
        local <= addr - descs[which as int].start,
    decreases descs.len() - i,
{
    let d = descs[i];
    if d.select != 0 && addr & d.select == 0 {
        lemma_scan_ok_bounds(descs, addr, i + 1, which, local);
    } else if d.start <= addr && addr - d.start < d.len {
        let dist = (addr - d.start) as usize;
        let disc = d.disconnect;
        assert(dist & !disc <= dist) by (bit_vector);
    } else if addr < d.start {
    } else {
        lemma_scan_ok_bounds(descs, addr, i + 1, which, local);
    }
}

/// A descriptor that maps the address space identically — base zero, no
/// disconnected bits — resolves every address it matches to itself: the byte
/// the returned slice starts at is the very byte the host buffer exposes at
/// `addr` past its offset.
pub proof fn lemma_scan_identity_descriptor(
    descs: Seq<MemoryDescriptor>,
    addr: usize,
    which: usize,
    local: usize,
)
    requires
        descs.len() <= usize::MAX,
        scan_spec(descs, addr, 0) == Ok::<(usize, usize), RetroRsError>((which, local)),
        descs[which as int].start == 0,
        descs[which as int].disconnect == 0,
    ensures
        which < descs.len(),
        addr < descs[which as int].len,
        local == addr,
{
    lemma_scan_ok_bounds(descs, addr, 0, which, local);
    assert(addr & !0usize == addr) by (bit_vector);
}

/// Walk the descriptor table for an absolute address, first match wins.
/// `Ok((which, local))` means the byte lives in the host buffer of descriptor
/// `which`, `local` bytes past that descriptor's offset; the remaining length
/// of the match is `len - local`, which never underflows.
pub fn scan_descriptors(descs: &Vec<MemoryDescriptor>, addr: usize) -> (r: Result<
    (usize, usize),
    RetroRsError,
>)
    ensures
        r == scan_spec(descs@, addr, 0),
        r matches Ok((which, local)) ==> which < descs@.len() && local < descs@[
            which as int
        ].len,
{
    let n = descs.len();
    let mut i: usize = 0;
    while i < n
        invariant
            n == descs@.len(),
            i <= n,
            scan_spec(descs@, addr, 0) == scan_spec(descs@, addr, i as int),
        decreases n - i,
    {
        let d = &descs[i];
        if d.select != 0 && (addr & d.select) == 0 {
            // rejected by the select mask; keep scanning
        } else if d.start <= addr && addr - d.start < d.len {
            let local = (addr - d.start) & !d.disconnect;
            proof {
                lemma_scan_ok_bounds(descs@, addr, i as int, i, local);
            }
            return Ok((i, local));
        } else if addr < d.start {
            return Err(RetroRsError::RAMCopySrcOutOfBoundsError);
        }
        i += 1;
    }
    Err(RetroRsError::RAMCopyNotMappedIntoMemoryRegionError)
}

/// Build the public region views of the whole descriptor table, in table
/// order, each remembering the index it was derived from.
pub fn memory_regions_of(descs: &Vec<MemoryDescriptor>) -> (regions: Vec<MemoryRegion>)
    ensures
        regions@.len() == descs@.len(),
        forall|i: int|
            0 <= i < descs@.len() ==> {
                let r = #[trigger] regions@[i];
                let d = descs@[i];
                &&& r.which == i
                &&& r.flags == d.flags
                &&& r.len == d.len
                &&& r.start == d.start
                &&& r.offset == d.offset
                &&& r.select == d.select
                &&& r.disconnect == d.disconnect
                &&& r.name@ == d.name@
            },
{
    let n = descs.len();
    let mut regions: Vec<MemoryRegion> = Vec::new();
    let mut i: usize = 0;
    while i < n
        invariant
            n == descs@.len(),
            i <= n,
            regions@.len() == i,
            forall|j: int|
                0 <= j < i ==> {
                    let r = #[trigger] regions@[j];
                    let d = descs@[j];
                    &&& r.which == j
                    &&& r.flags == d.flags
                    &&& r.len == d.len
                    &&& r.start == d.start
                    &&& r.offset == d.offset
                    &&& r.select == d.select
                    &&& r.disconnect == d.disconnect
                    &&& r.name@ == d.name@
                },
        decreases n - i,
    {
        let d = &descs[i];
        regions.push(
            MemoryRegion {
                which: i,
                flags: d.flags,
                len: d.len,
                start: d.start,
                offset: d.offset,
                name: d.name.clone(),
                select: d.select,
                disconnect: d.disconnect,
            },
        );
        i += 1;
    }
    regions
}

/// Resolve an absolute address within a region the embedder obtained earlier
/// from `memory_regions_of`. A stale index — the table was replaced by a
/// shorter one since — is reported, as is an address below the region's base;
/// otherwise the local offset is computed from the region's own masks exactly
/// as the in-order scan would.
pub fn resolve_in_region(
    descs: &Vec<MemoryDescriptor>,
    region: &MemoryRegion,
    addr: usize,
) -> (r: Result<(usize, usize), RetroRsError>)
    ensures
        region.which >= descs@.len() ==> r == Err::<(usize, usize), RetroRsError>(
            RetroRsError::RAMMapOutOfRangeError,
        ),
        region.which < descs@.len() && addr < region.start ==> r == Err::<
            (usize, usize),
            RetroRsError,
        >(RetroRsError::RAMCopySrcOutOfBoundsError),
        region.which < descs@.len() && addr >= region.start ==> r == Ok::<
            (usize, usize),
            RetroRsError,
        >((region.which, ((addr - region.start) as usize) & !region.disconnect)),
{
    let which = region.which;
    if which >= descs.len() {
        return Err(RetroRsError::RAMMapOutOfRangeError);
    }
    if addr < region.start {
        return Err(RetroRsError::RAMCopySrcOutOfBoundsError);
    }
    let local = (addr - region.start) & !region.disconnect;
    Ok((which, local))
}

} // verus!
