use retro_rs::MemoryDescriptor;
use retro_rs::RetroRsError;
use retro_rs::memmap::memory_regions_of;
use retro_rs::memmap::resolve_in_region;
use retro_rs::memmap::scan_descriptors;

fn desc(start: usize, len: usize, select: usize, disconnect: usize, offset: usize) -> MemoryDescriptor {
    MemoryDescriptor {
        flags: 0,
        offset,
        start,
        select,
        disconnect,
        len,
        name: String::new(),
    }
}

#[test]
fn identity_descriptor_resolves_to_same_byte() {
    // A system-RAM style descriptor: start 0, no select, no disconnect.
    let table = vec![desc(0, 0x800, 0, 0, 0)];
    assert_eq!(scan_descriptors(&table, 0x770), Ok((0, 0x770)));
    assert_eq!(scan_descriptors(&table, 0), Ok((0, 0)));
    assert_eq!(scan_descriptors(&table, 0x7FF), Ok((0, 0x7FF)));
}

#[test]
fn first_match_wins_and_select_skips() {
    let table = vec![
        desc(0x0000, 0x100, 0x8000, 0, 0),
        desc(0x0000, 0x800, 0, 0, 0x40),
        desc(0x0000, 0x800, 0, 0, 0x80),
    ];
    // 0x50 & 0x8000 == 0: the first descriptor is skipped, the second matches
    // even though the third would too.
    assert_eq!(scan_descriptors(&table, 0x50), Ok((1, 0x50)));
    // An address the mask selects is tried against the first descriptor's
    // range; above it and above every later range, it ends up unmapped.
    assert_eq!(
        scan_descriptors(&table, 0x8050),
        Err(RetroRsError::RAMCopyNotMappedIntoMemoryRegionError)
    );
}

#[test]
fn disconnect_masks_local_offset() {
    let table = vec![desc(0x8000, 0x2000, 0, 0x1000, 0)];
    // local = (0x9234 - 0x8000) & !0x1000 = 0x1234 & !0x1000 = 0x0234.
    assert_eq!(scan_descriptors(&table, 0x9234), Ok((0, 0x0234)));
}

#[test]
fn unmatched_address_errors() {
    let table = vec![desc(0x100, 0x100, 0, 0, 0)];
    // Below every descriptor's range: out of bounds at the first candidate.
    assert_eq!(scan_descriptors(&table, 0x50), Err(RetroRsError::RAMCopySrcOutOfBoundsError));
    // Above every descriptor's range: not mapped at all.
    assert_eq!(scan_descriptors(&table, 0x300), Err(RetroRsError::RAMCopyNotMappedIntoMemoryRegionError));
    // An empty table maps nothing.
    let empty: Vec<MemoryDescriptor> = Vec::new();
    assert_eq!(scan_descriptors(&empty, 0), Err(RetroRsError::RAMCopyNotMappedIntoMemoryRegionError));
}

#[test]
fn regions_mirror_descriptors() {
    let table = vec![desc(0x0, 0x800, 0, 0, 0), desc(0x8000, 0x2000, 0x8000, 0x1000, 0x40)];
    let regions = memory_regions_of(&table);
    assert_eq!(regions.len(), 2);
    assert_eq!(regions[0].which, 0);
    assert_eq!(regions[0].start, 0x0);
    assert_eq!(regions[0].len, 0x800);
    assert_eq!(regions[1].which, 1);
    assert_eq!(regions[1].start, 0x8000);
    assert_eq!(regions[1].len, 0x2000);
    assert_eq!(regions[1].select, 0x8000);
    assert_eq!(regions[1].disconnect, 0x1000);
    assert_eq!(regions[1].offset, 0x40);
}

#[test]
fn resolve_in_region_checks_staleness_and_bounds() {
    let table = vec![desc(0x8000, 0x2000, 0, 0x1000, 0)];
    let regions = memory_regions_of(&table);
    assert_eq!(resolve_in_region(&table, &regions[0], 0x9234), Ok((0, 0x0234)));
    assert_eq!(
        resolve_in_region(&table, &regions[0], 0x100),
        Err(RetroRsError::RAMCopySrcOutOfBoundsError)
    );
    // A region whose index outlived its table is stale.
    let shorter: Vec<MemoryDescriptor> = Vec::new();
    assert_eq!(
        resolve_in_region(&shorter, &regions[0], 0x9234),
        Err(RetroRsError::RAMMapOutOfRangeError)
    );
}

#[test]
fn error_messages_name_their_kind() {
    assert_eq!(
        RetroRsError::NoFramebufferError.message(),
        "This emulator does not have a framebuffer yet."
    );
    assert_eq!(RetroRsError::RAMCopyDestTooSmallError.message(), "Destination for RAM copy too small");
    assert_eq!(
        RetroRsError::RAMCopySrcOutOfBoundsError.message(),
        "Source address range for RAM copy out of bounds"
    );
    assert_eq!(RetroRsError::RAMMapOutOfRangeError.message(), "Given memory map is not valid for this core");
    assert_eq!(
        RetroRsError::RAMCopyNotMappedIntoMemoryRegionError.message(),
        "RAM copy doesn't start within a memory region"
    );
    assert_eq!(
        RetroRsError::RAMCopyCrossedRegionError.message(),
        "RAM copy crossed over memory region boundaries"
    );
    assert_eq!(RetroRsError::ImageBufferError.message(), "Failure in creating image buffer");
}
