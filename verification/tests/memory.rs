use astra_os::memory::{frame_containing, BootInfoFrameAllocator, EmptyFrameAllocator};
use bootloader::bootinfo::{FrameRange, MemoryMap, MemoryRegion, MemoryRegionType};

fn leaked_map(regions: &[(u64, u64, MemoryRegionType)]) -> &'static MemoryMap {
    let mut map = MemoryMap::new();
    for &(start, end, region_type) in regions {
        map.add_region(MemoryRegion {
            range: FrameRange { start_frame_number: start, end_frame_number: end },
            region_type,
        });
    }
    Box::leak(Box::new(map))
}

fn allocator(regions: &[(u64, u64, MemoryRegionType)]) -> BootInfoFrameAllocator {
    BootInfoFrameAllocator::init(leaked_map(regions)).expect("the map is valid")
}

#[test]
fn frames_are_counted_through_the_usable_regions() {
    let frames = allocator(&[
        (0, 1, MemoryRegionType::Reserved),
        (1, 3, MemoryRegionType::Usable),
        (3, 16, MemoryRegionType::InUse),
        (16, 18, MemoryRegionType::Usable),
    ]);
    assert_eq!(frames.usable_frame(0), Some(0x1000));
    assert_eq!(frames.usable_frame(1), Some(0x2000));
    assert_eq!(frames.usable_frame(2), Some(0x10000));
    assert_eq!(frames.usable_frame(3), Some(0x11000));
    assert_eq!(frames.usable_frame(4), None);
    assert_eq!(frames.usable_frame(usize::MAX), None);
}

#[test]
fn only_regions_of_type_usable_offer_frames() {
    let frames = allocator(&[
        (1, 2, MemoryRegionType::InUse),
        (2, 3, MemoryRegionType::Reserved),
        (3, 4, MemoryRegionType::AcpiReclaimable),
        (4, 5, MemoryRegionType::AcpiNvs),
        (5, 6, MemoryRegionType::BadMemory),
        (6, 7, MemoryRegionType::Kernel),
        (7, 8, MemoryRegionType::KernelStack),
        (8, 9, MemoryRegionType::PageTable),
        (9, 10, MemoryRegionType::Bootloader),
        (10, 11, MemoryRegionType::BootInfo),
        (11, 12, MemoryRegionType::Package),
        (12, 13, MemoryRegionType::Usable),
    ]);
    assert_eq!(frames.usable_frame(0), Some(0xc000));
    assert_eq!(frames.usable_frame(1), None);
}

#[test]
fn last_frame_of_the_address_space_can_be_handed_out() {
    let limit: u64 = 1 << 40;
    let frames = allocator(&[(limit - 1, limit, MemoryRegionType::Usable)]);
    assert_eq!(frames.usable_frame(0), Some(0x000f_ffff_ffff_f000));
    assert_eq!(frames.usable_frame(1), None);
}

#[test]
fn allocator_hands_out_each_usable_frame_once() {
    let map = leaked_map(&[
        (0, 1, MemoryRegionType::FrameZero),
        (1, 3, MemoryRegionType::Usable),
        (3, 8, MemoryRegionType::Kernel),
        (8, 9, MemoryRegionType::Usable),
        (9, 12, MemoryRegionType::Reserved),
    ]);
    let mut allocator = BootInfoFrameAllocator::init(map).expect("the map is valid");
    assert_eq!(allocator.usable_frame(2), Some(0x8000));
    assert_eq!(allocator.allocate_frame(), Some(0x1000));
    assert_eq!(allocator.allocate_frame(), Some(0x2000));
    assert_eq!(allocator.allocate_frame(), Some(0x8000));
    assert_eq!(allocator.allocate_frame(), None);
    assert_eq!(allocator.allocate_frame(), None);
    assert_eq!(allocator.usable_frame(0), Some(0x1000));
}

#[test]
fn allocator_over_an_empty_map_has_nothing() {
    let map = leaked_map(&[]);
    let mut allocator = BootInfoFrameAllocator::init(map).expect("the map is valid");
    assert_eq!(allocator.allocate_frame(), None);
}

#[test]
fn usable_region_beyond_physical_addresses_is_refused() {
    let limit: u64 = 1 << 40;
    let map = leaked_map(&[(1, 2, MemoryRegionType::Usable), (limit, limit + 1, MemoryRegionType::Usable)]);
    assert!(BootInfoFrameAllocator::init(map).is_none());
    let map = leaked_map(&[(1, 2, MemoryRegionType::Usable), (limit, limit + 1, MemoryRegionType::Reserved)]);
    assert!(BootInfoFrameAllocator::init(map).is_some());
}

#[test]
fn empty_allocator_never_gives_a_frame() {
    let mut allocator = EmptyFrameAllocator;
    assert_eq!(allocator.allocate_frame(), None);
    assert_eq!(allocator.allocate_frame(), None);
}

#[test]
fn frame_of_an_address_starts_at_a_multiple_of_the_frame_size() {
    assert_eq!(frame_containing(0xb8000), Some(0xb8000));
    assert_eq!(frame_containing(0xb8123), Some(0xb8000));
    assert_eq!(frame_containing(0xb8fff), Some(0xb8000));
    assert_eq!(frame_containing(0xfff), Some(0));
    assert_eq!(frame_containing(0x000f_ffff_ffff_ffff), Some(0x000f_ffff_ffff_f000));
}

#[test]
fn address_beyond_52_bits_lies_in_no_frame() {
    assert_eq!(frame_containing(0x0010_0000_0000_0000), None);
    assert_eq!(frame_containing(u64::MAX), None);
}
