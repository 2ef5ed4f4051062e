//! Guest RAM: how a requested size is laid out around the 32-bit reserved
//! area, and the region list that the boot writer checks against.

use crate::error::Error;
use crate::layout::{MEM_32BIT_DEVICES_SIZE, MEM_32BIT_RESERVED_SIZE, MEM_32BIT_RESERVED_START, RAM_64BIT_START};
use vstd::prelude::*;

verus! {

/// What a region of the guest-physical address space is for.
#[derive(Clone, Copy, Debug, PartialEq, Eq, Structural)]
pub enum RegionType {
    /// Backed by guest RAM.
    Ram,
    /// A window of the reserved area handed out to devices.
    SubRegion,
    /// Reserved, never backed by RAM.
    Reserved,
}

/// First address after the 32-bit device window.
pub const RESERVED_MEMORY_GAP_START: u64 = 0xe800_0000;

/// The two regions of the 32-bit reserved area, in address order.
pub open spec fn reserved_regions() -> Seq<(u64, u64, RegionType)> {
    seq![
        (MEM_32BIT_RESERVED_START, MEM_32BIT_DEVICES_SIZE, RegionType::SubRegion),
        (RESERVED_MEMORY_GAP_START, (MEM_32BIT_RESERVED_SIZE - MEM_32BIT_DEVICES_SIZE) as u64, RegionType::Reserved),
    ]
}

/// RAM of `size` bytes: all of it from address 0 where it fits below the
/// reserved area, else split into the part below it and the rest from
/// 4 GiB; then the two reserved regions.
pub open spec fn memory_regions(size: u64) -> Seq<(u64, u64, RegionType)> {
    if size <= MEM_32BIT_RESERVED_START {
        seq![(0u64, size, RegionType::Ram)] + reserved_regions()
    } else {
        seq![
            (0u64, MEM_32BIT_RESERVED_START, RegionType::Ram),
            (RAM_64BIT_START, (size - MEM_32BIT_RESERVED_START) as u64, RegionType::Ram),
        ] + reserved_regions()
    }
}

/// The regions of the guest-physical address space for `size` bytes of RAM.
pub fn arch_memory_regions(size: u64) -> (r: Vec<(u64, u64, RegionType)>)
    ensures
        r@ == memory_regions(size),
{
    let reserved_memory_gap_start = RESERVED_MEMORY_GAP_START;
    let mut regions: Vec<(u64, u64, RegionType)> = Vec::new();

    // case1: guest memory fits before the gap
    if size <= MEM_32BIT_RESERVED_START {
        regions.push((0, size, RegionType::Ram));
    // case2: guest memory extends beyond the gap
    } else {
        // push memory before the gap
        regions.push((0, MEM_32BIT_RESERVED_START, RegionType::Ram));
        regions.push(
            (RAM_64BIT_START, (size - MEM_32BIT_RESERVED_START), RegionType::Ram),
        );
    }

    // Add the 32-bit device memory hole as a sub region.
    regions.push(
        (MEM_32BIT_RESERVED_START, MEM_32BIT_DEVICES_SIZE, RegionType::SubRegion),
    );

    // Add the 32-bit reserved memory hole as a sub region.
    regions.push(
        (
            reserved_memory_gap_start,
            (MEM_32BIT_RESERVED_SIZE - MEM_32BIT_DEVICES_SIZE),
            RegionType::Reserved,
        ),
    );
    assert(regions@ =~= memory_regions(size));
    regions
}

/// A size that fits below the reserved area gives one RAM region of exactly
/// that size at address 0, followed by the two reserved regions.
pub proof fn lemma_regions_below_gap(size: u64)
    requires
        size <= MEM_32BIT_RESERVED_START,
    ensures
        memory_regions(size).len() == 3,
        memory_regions(size)[0] == (0u64, size, RegionType::Ram),
        memory_regions(size)[1].2 == RegionType::SubRegion,
        memory_regions(size)[2].2 == RegionType::Reserved,
{
}

/// A size past the reserved area gives two RAM regions, one at 0 and one at
/// 4 GiB, whose sizes add up to the requested size, followed by the two
/// reserved regions.
pub proof fn lemma_regions_above_gap(size: u64)
    requires
        size > MEM_32BIT_RESERVED_START,
    ensures
        memory_regions(size).len() == 4,
        memory_regions(size)[0].0 == 0,
        memory_regions(size)[0].2 == RegionType::Ram,
        memory_regions(size)[1].0 == RAM_64BIT_START,
        memory_regions(size)[1].2 == RegionType::Ram,
        memory_regions(size)[0].1 + memory_regions(size)[1].1 == size,
        memory_regions(size)[2].2 == RegionType::SubRegion,
        memory_regions(size)[3].2 == RegionType::Reserved,
{
}

/// The RAM of a guest: its regions as (start, length), in address order.
pub struct GuestRam {
    regions: Vec<(u64, u64)>,
}

/// Whether some region holds address `a`.
pub open spec fn ram_contains(regions: Seq<(u64, u64)>, a: int) -> bool {
    exists|i: int| 0 <= i < regions.len() && regions[i].0 <= a < regions[i].0 + (#[trigger] regions[i]).1
}

/// Whether every address of `[base, base + len)` is backed by a region.
pub open spec fn ram_covers(regions: Seq<(u64, u64)>, base: int, len: int) -> bool {
    forall|a: int| base <= a < base + len ==> #[trigger] ram_contains(regions, a)
}

/// Regions that are not empty, do not wrap, and follow one another without overlap.
pub open spec fn regions_well_formed(regions: Seq<(u64, u64)>) -> bool {
    &&& regions.len() > 0
    &&& forall|i: int| 0 <= i < regions.len() ==> (#[trigger] regions[i]).1 > 0 && regions[i].0 + regions[i].1 <= u64::MAX + 1
    &&& forall|i: int| 0 <= i < regions.len() - 1 ==> (#[trigger] regions[i]).0 + regions[i].1 <= regions[i + 1].0
}

/// In well-formed regions, every region ends before any later one starts.
proof fn lemma_regions_ordered(regions: Seq<(u64, u64)>, j: int, i: int)
    requires
        regions_well_formed(regions),
        0 <= j < i < regions.len(),
    ensures
        regions[j].0 + regions[j].1 <= regions[i].0,
    decreases i - j,
{
    assert(regions[j].0 + regions[j].1 <= regions[j + 1].0);
    if j + 1 < i {
        lemma_regions_ordered(regions, j + 1, i);
        assert(regions[j + 1].1 > 0);
    }
}

/// The highest address of the last region.
pub open spec fn last_addr_of(regions: Seq<(u64, u64)>) -> int {
    regions.last().0 + regions.last().1 - 1
}

impl View for GuestRam {
    type V = Seq<(u64, u64)>;

    closed spec fn view(&self) -> Seq<(u64, u64)> {
        self.regions@
    }
}

impl GuestRam {
    pub open spec fn wf(&self) -> bool {
        regions_well_formed(self@)
    }

    /// The RAM made of `ranges`, or `None` where one is empty, runs past the
    /// end of the address space, or does not start after the one before it.
    pub fn from_ranges(ranges: Vec<(u64, u64)>) -> (r: Option<GuestRam>)
        ensures
            match r {
                Some(g) => g.wf() && g@ == ranges@,
                None => !regions_well_formed(ranges@),
            },
    {
        let n = ranges.len();
        if n == 0 {
            return None;
        }
        let mut i: usize = 0;
        while i < n
            invariant
                n == ranges@.len(),
                i <= n,
                forall|j: int| 0 <= j < i ==> (#[trigger] ranges@[j]).1 > 0 && ranges@[j].0 + ranges@[j].1 <= u64::MAX + 1,
                forall|j: int| 0 <= j < i - 1 ==> (#[trigger] ranges@[j]).0 + ranges@[j].1 <= ranges@[j + 1].0,
            decreases n - i,
        {
            let (start, len) = ranges[i];
            if len == 0 || start > u64::MAX - (len - 1) {
                return None;
            }
            if i > 0 {
                let (prev_start, prev_len) = ranges[i - 1];
                if prev_start + (prev_len - 1) >= start {
                    assert(!regions_well_formed(ranges@)) by {
                        assert(ranges@[i - 1].0 + ranges@[i - 1].1 > ranges@[(i - 1) + 1].0);
                    }
                    return None;
                }
            }
            i += 1;
        }
        Some(GuestRam { regions: ranges })
    }

    /// The highest address of guest RAM.
    pub fn last_addr(&self) -> (r: u64)
        requires
            self.wf(),
        ensures
            r == last_addr_of(self@),
    {
        let (start, len) = self.regions[self.regions.len() - 1];
        start + (len - 1)
    }

    /// Whether address `a` is backed by guest RAM.
    pub fn address_in_range(&self, a: u64) -> (r: bool)
        requires
            self.wf(),
        ensures
            r == ram_contains(self@, a as int),
    {
        let n = self.regions.len();
        let mut i: usize = 0;
        while i < n
            invariant
                n == self@.len(),
                self.wf(),
                i <= n,
                forall|j: int| 0 <= j < i ==> !(self@[j].0 <= a < self@[j].0 + (#[trigger] self@[j]).1),
            decreases n - i,
        {
            let (start, len) = self.regions[i];
            proof {
                assert(self@[i as int] == self.regions@[i as int]);
            }
            if start <= a && a - start < len {
                return true;
            }
            i += 1;
        }
        false
    }

    /// Whether every address of `[base, base + len)` is backed by guest RAM;
    /// the range may run over from one region into the next.
    pub fn range_in_ram(&self, base: u64, len: u64) -> (r: bool)
        requires
            self.wf(),
            base + len <= u64::MAX,
        ensures
            r == ram_covers(self@, base as int, len as int),
    {
        let end = base + len;
        let n = self.regions.len();
        let mut cur = base;
        let mut i: usize = 0;
        while i < n
            invariant
                n == self@.len(),
                self.wf(),
                i <= n,
                base <= cur <= end,
                end == base + len,
                forall|a: int| base <= a < cur ==> #[trigger] ram_contains(self@, a),
                cur < end ==> forall|j: int| 0 <= j < i ==> !(self@[j].0 <= cur < self@[j].0 + (#[trigger] self@[j]).1),
            decreases n - i,
        {
            let (start, rlen) = self.regions[i];
            proof {
                assert(self@[i as int] == self.regions@[i as int]);
            }
            if start <= cur && cur - start < rlen {
                let ghost old_cur = cur;
                if end - start <= rlen {
                    cur = end;
                } else {
                    cur = start + rlen;
                }
                assert forall|a: int| base <= a < cur implies #[trigger] ram_contains(self@, a) by {
                    if a >= old_cur {
                        assert(self@[i as int].0 <= a < self@[i as int].0 + self@[i as int].1);
                    }
                }
                proof {
                    if cur < end {
                        assert forall|j: int| 0 <= j < i + 1 implies !(self@[j].0 <= cur < self@[j].0 + (
                        #[trigger] self@[j]).1) by {
                            if j < i {
                                lemma_regions_ordered(self@, j, i as int);
                            }
                        }
                    }
                }
            } else {
                proof {
                    if cur < end {
                        assert forall|j: int| 0 <= j < i + 1 implies !(self@[j].0 <= cur < self@[j].0 + (
                        #[trigger] self@[j]).1) by {}
                    }
                }
            }
            i += 1;
        }
        if cur < end {
            assert(!ram_contains(self@, cur as int));
            false
        } else {
            true
        }
    }

    /// `base + offset`, where that address is backed by guest RAM.
    pub fn checked_offset(&self, base: u64, offset: u64) -> (r: Option<u64>)
        requires
            self.wf(),
        ensures
            r == (if base + offset <= u64::MAX && ram_contains(self@, base + offset) {
                Some((base + offset) as u64)
            } else {
                None
            }),
    {
        if base > u64::MAX - offset {
            return None;
        }
        let a = base + offset;
        if self.address_in_range(a) {
            Some(a)
        } else {
            None
        }
    }

    /// The length of the region that holds address `a`, if one does.
    pub fn region_len_at(&self, a: u64) -> (r: Option<u64>)
        requires
            self.wf(),
        ensures
            match r {
                Some(len) => exists|i: int|
                    0 <= i < self@.len() && (#[trigger] self@[i]).1 == len && self@[i].0 <= a < self@[i].0 + self@[i].1,
                None => !ram_contains(self@, a as int),
            },
    {
        let n = self.regions.len();
        let mut i: usize = 0;
        while i < n
            invariant
                n == self@.len(),
                self.wf(),
                i <= n,
                forall|j: int| 0 <= j < i ==> !(self@[j].0 <= a < self@[j].0 + (#[trigger] self@[j]).1),
            decreases n - i,
        {
            let (start, len) = self.regions[i];
            proof {
                assert(self@[i as int] == self.regions@[i as int]);
            }
            if start <= a && a - start < len {
                return Some(len);
            }
            i += 1;
        }
        None
    }
}

/// Where an initramfs of `initramfs_size` bytes is loaded: as high in the
/// region that holds address 0 as it fits, aligned down to `page_size`
/// (a power of two).
pub open spec fn initramfs_addr(lowmem_size: u64, initramfs_size: usize, page_size: usize) -> u64 {
    ((lowmem_size - initramfs_size) as u64) & !((page_size - 1) as u64)
}

/// Returns the memory address where the initramfs could be loaded: an error
/// where no region holds address 0 or that region is smaller than the initramfs.
pub fn initramfs_load_addr(guest_mem: &GuestRam, initramfs_size: usize, page_size: usize) -> (r: Result<u64, Error>)
    requires
        guest_mem.wf(),
        page_size > 0,
    ensures
        !ram_contains(guest_mem@, 0) ==> r == Err::<u64, Error>(Error::InitramfsAddress),
        ram_contains(guest_mem@, 0) ==> guest_mem@[0].0 == 0 && r == (if guest_mem@[0].1 < initramfs_size {
            Err(Error::InitramfsAddress)
        } else {
            Ok(initramfs_addr(guest_mem@[0].1, initramfs_size, page_size))
        }),
{
    let first = guest_mem.region_len_at(0);
    proof {
        if ram_contains(guest_mem@, 0) {
            lemma_only_first_region_holds_zero(guest_mem@);
        }
    }
    let lowmem_size = match first {
        Some(len) => len,
        None => {
            return Err(Error::InitramfsAddress);
        },
    };
    let initramfs_size = initramfs_size as u64;
    if lowmem_size < initramfs_size {
        return Err(Error::InitramfsAddress);
    }
    let aligned_addr: u64 = (lowmem_size - initramfs_size) & !(page_size as u64 - 1);
    Ok(aligned_addr)
}

/// Regions in address order: address 0 can only lie in the first one.
proof fn lemma_only_first_region_holds_zero(regions: Seq<(u64, u64)>)
    requires
        regions_well_formed(regions),
    ensures
        forall|i: int| 0 <= i < regions.len() && regions[i].0 <= 0 < regions[i].0 + (#[trigger] regions[i]).1 ==> i == 0,
        ram_contains(regions, 0) ==> regions[0].0 == 0,
{
    assert forall|i: int| 0 <= i < regions.len() && regions[i].0 <= 0 < regions[i].0 + (#[trigger] regions[i]).1 implies i == 0 by {
        if i > 0 {
            assert(regions[i - 1].0 + regions[i - 1].1 <= regions[(i - 1) + 1].0);
            assert(regions[i - 1].1 > 0);
        }
    }
}

} // verus!
