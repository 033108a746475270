//! Translation of the frontend's virtual addresses into guest physical addresses.

use vstd::prelude::*;

use super::message::{Error, VhostUserMemoryRegion};

verus! {

/// Keeps a mapping from the vmm's virtual addresses to guest addresses.
/// Used to translate messages from the vmm to guest offsets.
#[derive(Debug, Clone, Copy, PartialEq, Eq)]
pub struct MappingInfo {
    pub vmm_addr: u64,
    pub guest_phys: u64,
    pub size: u64,
}

impl MappingInfo {
    /// Whether the mapping holds an address of the vmm.
    pub open spec fn covers(self, vmm_va: u64) -> bool {
        self.vmm_addr <= vmm_va < self.vmm_addr + self.size
    }

    /// The guest address of an address of the vmm.
    pub open spec fn translated(self, vmm_va: u64) -> int {
        vmm_va - self.vmm_addr + self.guest_phys
    }

    /// The end of the mapping, and the guest address, can be counted in 64 bits, as far as they
    /// are needed for an address of the vmm.
    pub open spec fn countable(self, vmm_va: u64) -> bool {
        &&& vmm_va >= self.vmm_addr ==> self.vmm_addr + self.size <= u64::MAX
        &&& self.covers(vmm_va) ==> self.translated(vmm_va) <= u64::MAX
    }
}

/// The guest address of an address of the vmm, by the first mapping that holds it.
pub open spec fn guest_address(maps: Seq<MappingInfo>, vmm_va: u64) -> Option<u64>
    decreases maps.len(),
{
    if maps.len() == 0 {
        None
    } else if maps[0].covers(vmm_va) {
        Some(maps[0].translated(vmm_va) as u64)
    } else {
        guest_address(maps.skip(1), vmm_va)
    }
}

/// The mappings up to the first that holds an address of the vmm can be counted with.
pub open spec fn searchable(maps: Seq<MappingInfo>, vmm_va: u64) -> bool
    decreases maps.len(),
{
    maps.len() > 0 ==> {
        &&& maps[0].countable(vmm_va)
        &&& maps[0].covers(vmm_va) || searchable(maps.skip(1), vmm_va)
    }
}

/// Whether the mappings can be searched for an address of the vmm.
pub fn is_searchable(maps: &Vec<MappingInfo>, vmm_va: u64) -> (r: bool)
    ensures
        r == searchable(maps@, vmm_va),
{
    let mut i: usize = 0;
    assert(maps@.skip(0) =~= maps@);
    while i < maps.len()
        invariant
            i <= maps.len(),
            searchable(maps@.skip(i as int), vmm_va) == searchable(maps@, vmm_va),
        decreases maps.len() - i,
    {
        let map = &maps[i];
        assert(maps@.skip(i as int)[0] == map);
        assert(maps@.skip(i as int).skip(1) =~= maps@.skip(i + 1));
        if vmm_va >= map.vmm_addr {
            match map.vmm_addr.checked_add(map.size) {
                None => {
                    return false;
                },
                Some(end) => {
                    if vmm_va < end {
                        return (vmm_va - map.vmm_addr).checked_add(map.guest_phys).is_some();
                    }
                },
            }
        }
        i = i + 1;
    }
    true
}

/// The guest address of an address of the vmm, if a mapping holds it.
fn find_address(maps: &Vec<MappingInfo>, vmm_va: u64) -> (r: Option<u64>)
    requires
        searchable(maps@, vmm_va),
    ensures
        r == guest_address(maps@, vmm_va),
{
    let mut i: usize = 0;
    assert(maps@.skip(0) =~= maps@);
    while i < maps.len()
        invariant
            i <= maps.len(),
            searchable(maps@.skip(i as int), vmm_va),
            guest_address(maps@.skip(i as int), vmm_va) == guest_address(maps@, vmm_va),
        decreases maps.len() - i,
    {
        let map = &maps[i];
        assert(maps@.skip(i as int)[0] == map);
        assert(maps@.skip(i as int).skip(1) =~= maps@.skip(i + 1));
        if vmm_va >= map.vmm_addr && vmm_va < map.vmm_addr + map.size {
            return Some(vmm_va - map.vmm_addr + map.guest_phys);
        }
        i = i + 1;
    }
    None
}

/// Translates an address of the vmm into a guest address.
pub fn vmm_va_to_gpa(maps: &Vec<MappingInfo>, vmm_va: u64) -> (r: Result<u64, Error>)
    requires
        searchable(maps@, vmm_va),
    ensures
        r == (match guest_address(maps@, vmm_va) {
            Some(gpa) => Ok::<u64, Error>(gpa),
            None => Err(Error::InvalidMessage),
        }),
{
    match find_address(maps, vmm_va) {
        Some(gpa) => Ok(gpa),
        None => Err(Error::InvalidMessage),
    }
}

/// The mapping of a memory region.
pub open spec fn region_mapping(region: VhostUserMemoryRegion) -> MappingInfo {
    MappingInfo {
        vmm_addr: region.user_addr,
        guest_phys: region.guest_phys_addr,
        size: region.memory_size,
    }
}

/// The mappings of memory regions.
pub open spec fn region_mappings(regions: Seq<VhostUserMemoryRegion>) -> Seq<MappingInfo> {
    regions.map_values(|region: VhostUserMemoryRegion| region_mapping(region))
}

/// The mappings of the first `n` memory regions.
pub fn mappings_of(regions: &[VhostUserMemoryRegion], n: usize) -> (r: Vec<MappingInfo>)
    requires
        n <= regions@.len(),
    ensures
        r@ == region_mappings(regions@.take(n as int)),
{
    let mut maps: Vec<MappingInfo> = Vec::new();
    let mut i: usize = 0;
    while i < n
        invariant
            i <= n <= regions@.len(),
            maps@.len() == i,
            forall|k: int| 0 <= k < i ==> maps@[k] == region_mapping(#[trigger] regions@[k]),
        decreases n - i,
    {
        let region = &regions[i];
        maps.push(
            MappingInfo {
                vmm_addr: region.user_addr,
                guest_phys: region.guest_phys_addr,
                size: region.memory_size,
            },
        );
        i = i + 1;
    }
    assert(maps@ =~= region_mappings(regions@.take(n as int)));
    maps
}

/// A part of the guest's memory that is to be mapped from a file.
#[derive(Debug, Clone, Copy, PartialEq, Eq)]
pub struct RegionFile {
    pub size: u64,
    pub guest_addr: u64,
    pub offset: u64,
    pub fd: i32,
}

/// The part of the guest's memory that a region and its file descriptor stand for.
pub open spec fn region_file(region: VhostUserMemoryRegion, fd: i32) -> RegionFile {
    RegionFile {
        size: region.memory_size,
        guest_addr: region.guest_phys_addr,
        offset: region.mmap_offset,
        fd,
    }
}

/// Pairs regions with their file descriptors, in order, as far as there are enough of both.
pub fn pair_regions(regions: &[VhostUserMemoryRegion], fds: &[i32]) -> (r: Vec<RegionFile>)
    ensures
        r@.len() == if regions@.len() <= fds@.len() {
            regions@.len()
        } else {
            fds@.len()
        },
        forall|i: int| 0 <= i < r@.len() ==> #[trigger] r@[i] == region_file(regions@[i], fds@[i]),
{
    let mut files: Vec<RegionFile> = Vec::new();
    let mut i: usize = 0;
    while i < regions.len() && i < fds.len()
        invariant
            i <= regions@.len(),
            i <= fds@.len(),
            files@.len() == i,
            forall|k: int|
                0 <= k < i ==> #[trigger] files@[k] == region_file(regions@[k], fds@[k]),
        decreases regions@.len() - i,
    {
        let region = &regions[i];
        files.push(
            RegionFile {
                size: region.memory_size,
                guest_addr: region.guest_phys_addr,
                offset: region.mmap_offset,
                fd: fds[i],
            },
        );
        i = i + 1;
    }
    files
}

/// An address is translated by the first mapping that holds it, at the same distance from its
/// start; an address that no mapping holds is not translated.
pub proof fn law_first_mapping_translates(maps: Seq<MappingInfo>, vmm_va: u64, k: int)
    requires
        searchable(maps, vmm_va),
        0 <= k <= maps.len(),
        forall|j: int| 0 <= j < k ==> !(#[trigger] maps[j]).covers(vmm_va),
        k < maps.len() ==> maps[k].covers(vmm_va),
    ensures
        k == maps.len() ==> guest_address(maps, vmm_va) is None,
        k < maps.len() ==> guest_address(maps, vmm_va) is Some && guest_address(maps, vmm_va)->0
            - maps[k].guest_phys == vmm_va - maps[k].vmm_addr,
    decreases maps.len(),
{
    if k > 0 {
        assert forall|j: int| 0 <= j < k - 1 implies !(#[trigger] maps.skip(1)[j]).covers(
            vmm_va,
        ) by {
            assert(maps.skip(1)[j] == maps[j + 1]);
        }
        law_first_mapping_translates(maps.skip(1), vmm_va, k - 1);
    }
}

/// An address of the vmm is translated by the first region that holds it, to the guest address at
/// the same distance from the region's start; where no region holds it, it is not translated.
pub proof fn law_addresses_keep_their_distance(
    regions: Seq<VhostUserMemoryRegion>,
    vmm_va: u64,
    k: int,
)
    requires
        0 <= k <= regions.len(),
        forall|j: int|
            0 <= j < k ==> !((#[trigger] regions[j]).user_addr <= vmm_va < regions[j].user_addr
                + regions[j].memory_size),
        k < regions.len() ==> regions[k].user_addr <= vmm_va < regions[k].user_addr
            + regions[k].memory_size,
        k < regions.len() ==> vmm_va - regions[k].user_addr + regions[k].guest_phys_addr
            <= u64::MAX,
    ensures
        k == regions.len() ==> guest_address(region_mappings(regions), vmm_va) is None,
        k < regions.len() ==> guest_address(region_mappings(regions), vmm_va) == Some(
            (vmm_va - regions[k].user_addr + regions[k].guest_phys_addr) as u64,
        ),
    decreases regions.len(),
{
    let maps = region_mappings(regions);
    if regions.len() > 0 {
        let rest = regions.skip(1);
        assert(maps[0] == region_mapping(regions[0]));
        assert(maps.skip(1) =~= region_mappings(rest));
        if k > 0 {
            assert forall|j: int| 0 <= j < k - 1 implies !((#[trigger] rest[j]).user_addr <= vmm_va
                < rest[j].user_addr + rest[j].memory_size) by {
                assert(rest[j] == regions[j + 1]);
            }
            if k < regions.len() {
                assert(rest[k - 1] == regions[k]);
            }
            law_addresses_keep_their_distance(rest, vmm_va, k - 1);
        }
    }
}

/// Regions whose ends can be counted, here and in the guest, can be searched for any address.
pub proof fn law_countable_regions_can_be_searched(
    regions: Seq<VhostUserMemoryRegion>,
    vmm_va: u64,
)
    requires
        forall|j: int|
            0 <= j < regions.len() ==> (#[trigger] regions[j]).user_addr + regions[j].memory_size
                <= u64::MAX && regions[j].guest_phys_addr + regions[j].memory_size <= u64::MAX,
    ensures
        searchable(region_mappings(regions), vmm_va),
    decreases regions.len(),
{
    let maps = region_mappings(regions);
    if regions.len() > 0 {
        let rest = regions.skip(1);
        assert(maps[0] == region_mapping(regions[0]));
        assert(maps.skip(1) =~= region_mappings(rest));
        assert forall|j: int| 0 <= j < rest.len() implies (#[trigger] rest[j]).user_addr
            + rest[j].memory_size <= u64::MAX && rest[j].guest_phys_addr + rest[j].memory_size
            <= u64::MAX by {
            assert(rest[j] == regions[j + 1]);
        }
        law_countable_regions_can_be_searched(rest, vmm_va);
    }
}

/// A search fails exactly if a region before the one that holds the address, or that one itself,
/// can't be counted with.
pub proof fn law_search_fails_at_the_first_uncountable(
    maps: Seq<MappingInfo>,
    vmm_va: u64,
    k: int,
)
    requires
        0 <= k < maps.len(),
        forall|j: int|
            0 <= j < k ==> (#[trigger] maps[j]).vmm_addr > vmm_va || maps[j].vmm_addr + maps[j].size
                <= u64::MAX && maps[j].vmm_addr + maps[j].size <= vmm_va,
        maps[k].vmm_addr <= vmm_va,
        maps[k].vmm_addr + maps[k].size > u64::MAX || vmm_va < maps[k].vmm_addr + maps[k].size
            && vmm_va - maps[k].vmm_addr + maps[k].guest_phys > u64::MAX,
    ensures
        !searchable(maps, vmm_va),
    decreases maps.len(),
{
    if k > 0 {
        let rest = maps.skip(1);
        assert forall|j: int| 0 <= j < k - 1 implies (#[trigger] rest[j]).vmm_addr > vmm_va
            || rest[j].vmm_addr + rest[j].size <= u64::MAX && rest[j].vmm_addr + rest[j].size
            <= vmm_va by {
            assert(rest[j] == maps[j + 1]);
        }
        assert(rest[k - 1] == maps[k]);
        assert(maps[0].vmm_addr > vmm_va || maps[0].vmm_addr + maps[0].size <= vmm_va);
        law_search_fails_at_the_first_uncountable(rest, vmm_va, k - 1);
    }
}

/// A region is mapped at its guest address, with its size, from its offset in its file; and the
/// mapping of addresses is that of the same region.
pub proof fn law_regions_keep_their_numbers(
    regions: Seq<VhostUserMemoryRegion>,
    fd: i32,
    i: int,
)
    requires
        0 <= i < regions.len(),
    ensures
        region_file(regions[i], fd).size == regions[i].memory_size,
        region_file(regions[i], fd).guest_addr == regions[i].guest_phys_addr,
        region_file(regions[i], fd).offset == regions[i].mmap_offset,
        region_file(regions[i], fd).fd == fd,
        region_mappings(regions).len() == regions.len(),
        region_mappings(regions)[i].vmm_addr == regions[i].user_addr,
        region_mappings(regions)[i].guest_phys == regions[i].guest_phys_addr,
        region_mappings(regions)[i].size == regions[i].memory_size,
{
}

} // verus!
