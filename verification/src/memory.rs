//! Frame allocation over the memory map that the boot loader hands over.

use bootloader::bootinfo::{MemoryMap, MemoryRegion, MemoryRegionType};
use vstd::prelude::*;
use x86_64::structures::paging::{PhysFrame, Size4KiB};
use x86_64::PhysAddr;

verus! {

/// Size of a frame in bytes.
pub const FRAME_SIZE: u64 = 4096;

/// Frame numbers below this bound give physical addresses that fit in 52 bits.
pub const FRAME_NUMBER_LIMIT: u64 = 0x100_0000_0000;

/// The boot loader's memory map. Verus sees nothing inside it; what it holds
/// is named by `memory_map_regions`.
#[verifier::external_type_specification]
#[verifier::external_body]
pub struct ExMemoryMap(MemoryMap);

/// An entry of the boot loader's memory map, as that crate holds it.
#[verifier::external_type_specification]
#[verifier::external_body]
pub struct ExMemoryRegion(MemoryRegion);

/// One region of the memory map: the frames from `start_frame_number` up to,
/// not including, `end_frame_number`, and whether the kernel may use them.
#[derive(Debug, Clone, Copy, PartialEq, Eq, Structural)]
pub struct Region {
    pub start_frame_number: u64,
    pub end_frame_number: u64,
    pub usable: bool,
}

/// The regions that a memory map holds, in the order in which it hands them
/// out.
pub uninterp spec fn memory_map_regions(map: &MemoryMap) -> Seq<Region>;

impl Region {
    /// Number of frames that the region offers to the allocator.
    pub open spec fn frames(self) -> nat {
        if self.usable && self.start_frame_number < self.end_frame_number {
            (self.end_frame_number - self.start_frame_number) as nat
        } else {
            0
        }
    }

    /// A usable region lies below the limit of physical addresses.
    pub open spec fn valid(self) -> bool {
        self.usable ==> self.end_frame_number <= FRAME_NUMBER_LIMIT
    }
}

/// Every region of the map is valid.
pub open spec fn valid_regions(regions: Seq<Region>) -> bool {
    forall|i: int| 0 <= i < regions.len() ==> (#[trigger] regions[i]).valid()
}

/// Start address of the `n`-th frame that the usable regions offer, counted
/// from zero through the regions in their order; `None` where they offer no
/// more than `n` frames.
pub open spec fn nth_usable_frame(regions: Seq<Region>, n: nat) -> Option<u64>
    decreases regions.len(),
{
    if regions.len() == 0 {
        None
    } else if n < regions.first().frames() {
        Some(((regions.first().start_frame_number + n) * FRAME_SIZE) as u64)
    } else {
        nth_usable_frame(regions.drop_first(), (n - regions.first().frames()) as nat)
    }
}

/// Number of frames that the usable regions offer together.
pub open spec fn usable_frame_count(regions: Seq<Region>) -> nat
    decreases regions.len(),
{
    if regions.len() == 0 {
        0
    } else {
        regions.first().frames() + usable_frame_count(regions.drop_first())
    }
}

/// Reads the number of regions of a `MemoryMap` through its view as a slice.
#[verifier::external_body]
fn region_count(map: &MemoryMap) -> (count: usize)
    ensures
        count == memory_map_regions(map).len(),
{
    map.len()
}

/// Reads one region of a `MemoryMap` through its view as a slice and copies
/// its frame numbers out. The region counts as usable where its type is
/// `Usable`.
#[verifier::external_body]
fn region_at(map: &MemoryMap, index: usize) -> (region: Region)
    requires
        index < memory_map_regions(map).len(),
    ensures
        region == memory_map_regions(map)[index as int],
{
    Region {
        start_frame_number: map[index].range.start_frame_number,
        end_frame_number: map[index].range.end_frame_number,
        usable: matches!(map[index].region_type, MemoryRegionType::Usable),
    }
}

/// Calls `PhysAddr::new` and `PhysFrame::containing_address`, and hands back
/// the frame's start address. `PhysAddr::new` panics on an address with a bit
/// from 52 upwards set; `containing_address` clears the low twelve bits.
#[verifier::external_body]
fn frame_start(addr: u64) -> (start: u64)
    requires
        addr < FRAME_NUMBER_LIMIT * FRAME_SIZE,
    ensures
        start == (addr / FRAME_SIZE) * FRAME_SIZE,
{
    PhysFrame::<Size4KiB>::containing_address(PhysAddr::new(addr)).start_address().as_u64()
}

/// Start address of the frame that holds the physical address `addr`, or
/// `None` where `addr` has a bit from 52 upwards set and is no physical
/// address.
pub fn frame_containing(addr: u64) -> (start: Option<u64>)
    ensures
        start == if addr < FRAME_NUMBER_LIMIT * FRAME_SIZE {
            Some(((addr / FRAME_SIZE) * FRAME_SIZE) as u64)
        } else {
            None
        },
{
    if addr < FRAME_NUMBER_LIMIT * FRAME_SIZE {
        Some(frame_start(addr))
    } else {
        None
    }
}

/// Hands out the frames of the usable regions of a memory map, one after the
/// other and each once.
pub struct BootInfoFrameAllocator {
    memory_map: &'static MemoryMap,
    next: usize,
}

impl BootInfoFrameAllocator {
    /// The regions from which this allocator takes its frames.
    pub closed spec fn regions(&self) -> Seq<Region> {
        memory_map_regions(self.memory_map)
    }

    /// Number of frames handed out so far.
    pub closed spec fn allocated(&self) -> nat {
        self.next as nat
    }

    /// The allocator's map holds valid regions only.
    pub closed spec fn wf(&self) -> bool {
        valid_regions(self.regions())
    }

    /// An allocator over `memory_map` that has handed out nothing yet.
    ///
    /// The caller vouches that the frames of the usable regions are in fact
    /// unused. A map with a usable region beyond the physical address space is
    /// refused.
    pub fn init(memory_map: &'static MemoryMap) -> (allocator: Option<BootInfoFrameAllocator>)
        ensures
            allocator is Some <==> valid_regions(memory_map_regions(memory_map)),
            allocator is Some ==> {
                &&& allocator.unwrap().wf()
                &&& allocator.unwrap().regions() == memory_map_regions(memory_map)
                &&& allocator.unwrap().allocated() == 0
            },
    {
        let count = region_count(memory_map);
        let mut i: usize = 0;
        while i < count
            invariant
                i <= count,
                count == memory_map_regions(memory_map).len(),
                forall|k: int| 0 <= k < i ==> (#[trigger] memory_map_regions(memory_map)[k]).valid(),
            decreases count - i,
        {
            let region = region_at(memory_map, i);
            if region.usable && region.end_frame_number > FRAME_NUMBER_LIMIT {
                return None;
            }
            i += 1;
        }
        Some(BootInfoFrameAllocator { memory_map, next: 0 })
    }

    /// Start address of the `n`-th frame that the usable regions of the map
    /// offer, counted from zero.
    pub fn usable_frame(&self, n: usize) -> (frame: Option<u64>)
        requires
            self.wf(),
        ensures
            frame == nth_usable_frame(self.regions(), n as nat),
    {
        let ghost regions = self.regions();
        let count = region_count(self.memory_map);
        let mut remaining: u64 = n as u64;
        let mut i: usize = 0;
        proof {
            assert(regions.skip(0) =~= regions);
        }
        while i < count
            invariant
                i <= count,
                count == regions.len(),
                regions == memory_map_regions(self.memory_map),
                valid_regions(regions),
                nth_usable_frame(regions, n as nat) == nth_usable_frame(
                    regions.skip(i as int),
                    remaining as nat,
                ),
            decreases count - i,
        {
            let region = region_at(self.memory_map, i);
            proof {
                assert(regions.skip(i as int).first() == region);
                assert(regions.skip(i as int).drop_first() =~= regions.skip(i + 1));
            }
            if region.usable && region.start_frame_number < region.end_frame_number {
                let frames: u64 = region.end_frame_number - region.start_frame_number;
                if remaining < frames {
                    let addr: u64 = (region.start_frame_number + remaining) * FRAME_SIZE;
                    let start = frame_start(addr);
                    assert(start == addr) by (nonlinear_arith)
                        requires
                            start == (addr / FRAME_SIZE) * FRAME_SIZE,
                            addr == (region.start_frame_number + remaining) * FRAME_SIZE,
                            FRAME_SIZE == 4096,
                    ;
                    return Some(start);
                }
                remaining -= frames;
            }
            i += 1;
        }
        None
    }

    /// Hands out the next frame, by its start address, or `None` when the
    /// usable regions are used up.
    pub fn allocate_frame(&mut self) -> (frame: Option<u64>)
        requires
            old(self).wf(),
        ensures
            final(self).wf(),
            final(self).regions() == old(self).regions(),
            frame == nth_usable_frame(old(self).regions(), old(self).allocated()),
            frame is Some <==> old(self).allocated() < usable_frame_count(old(self).regions()),
            final(self).allocated() == if old(self).allocated() < usize::MAX {
                old(self).allocated() + 1
            } else {
                old(self).allocated()
            },
    {
        let frame = self.usable_frame(self.next);
        proof {
            lemma_frame_exists_below_count(self.regions(), self.next as nat);
        }
        if self.next < usize::MAX {
            self.next += 1;
        }
        frame
    }
}

/// An allocator that has no frame to give.
pub struct EmptyFrameAllocator;

impl EmptyFrameAllocator {
    /// Always `None`.
    pub fn allocate_frame(&mut self) -> (frame: Option<u64>)
        ensures
            frame is None,
    {
        None
    }
}

/// The usable regions offer a frame at every index below their count, and
/// none from the count on.
proof fn lemma_frame_exists_below_count(regions: Seq<Region>, n: nat)
    ensures
        nth_usable_frame(regions, n) is Some <==> n < usable_frame_count(regions),
    decreases regions.len(),
{
    if regions.len() > 0 && n >= regions.first().frames() {
        lemma_frame_exists_below_count(
            regions.drop_first(),
            (n - regions.first().frames()) as nat,
        );
    }
}

} // verus!
