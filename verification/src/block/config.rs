//! The configuration space of a block device.

use vstd::prelude::*;

use super::request::SECTOR_SHIFT;
use crate::le::push_le;

verus! {

use crate::le::{le_bytes, lemma_le_bytes_len};

/// How many queues the device has.
pub const NUM_QUEUES: u16 = 16;

/// The largest number of sectors in a segment to discard.
pub const MAX_DISCARD_SECTORS: u32 = 0xffff_ffff;

/// The largest number of sectors in a segment to fill with zeroes.
pub const MAX_WRITE_ZEROES_SECTORS: u32 = 0xffff_ffff;

/// Arbitrary limit for number of discard segments.
pub const MAX_DISCARD_SEG: u32 = 32;

/// Arbitrary limit for number of write zeroes segments.
pub const MAX_WRITE_ZEROES_SEG: u32 = 32;

/// Hard-coded to 64 KiB (in 512-byte sectors) for now,
/// but this should probably be based on cluster size for qcow.
pub const DISCARD_SECTOR_ALIGNMENT: u32 = 128;

/// The geometry of a disk.
#[derive(Debug, Clone, Copy, PartialEq, Eq)]
pub struct VirtioBlkGeometry {
    pub cylinders: u16,
    pub heads: u8,
    pub sectors: u8,
}

/// The topology of a disk.
#[derive(Debug, Clone, Copy, PartialEq, Eq)]
pub struct VirtioBlkTopology {
    pub physical_block_exp: u8,
    pub alignment_offset: u8,
    pub min_io_size: u16,
    pub opt_io_size: u32,
}

/// What the driver is told of the device.
#[derive(Debug, Clone, Copy, PartialEq, Eq)]
pub struct VirtioBlkConfig {
    /// The size of the disk in sectors.
    pub capacity: u64,
    pub size_max: u32,
    pub seg_max: u32,
    pub geometry: VirtioBlkGeometry,
    pub blk_size: u32,
    pub topology: VirtioBlkTopology,
    pub writeback: u8,
    pub unused0: u8,
    pub num_queues: u16,
    pub max_discard_sectors: u32,
    pub max_discard_seg: u32,
    pub discard_sector_alignment: u32,
    pub max_write_zeroes_sectors: u32,
    pub max_write_zeroes_seg: u32,
    pub write_zeroes_may_unmap: u8,
    pub unused1: [u8; 3],
}

/// The size of the configuration space in bytes.
pub const CONFIG_SIZE: usize = 60;

impl View for VirtioBlkConfig {
    type V = Seq<u8>;

    /// The configuration space as the driver sees it: the fields in order, without padding.
    open spec fn view(&self) -> Seq<u8> {
        le_bytes(self.capacity as nat, 8) + le_bytes(self.size_max as nat, 4) + le_bytes(
            self.seg_max as nat,
            4,
        ) + le_bytes(self.geometry.cylinders as nat, 2) + seq![
            self.geometry.heads,
            self.geometry.sectors,
        ] + le_bytes(self.blk_size as nat, 4) + seq![
            self.topology.physical_block_exp,
            self.topology.alignment_offset,
        ] + le_bytes(self.topology.min_io_size as nat, 2) + le_bytes(
            self.topology.opt_io_size as nat,
            4,
        ) + seq![self.writeback, self.unused0] + le_bytes(self.num_queues as nat, 2) + le_bytes(
            self.max_discard_sectors as nat,
            4,
        ) + le_bytes(self.max_discard_seg as nat, 4) + le_bytes(
            self.discard_sector_alignment as nat,
            4,
        ) + le_bytes(self.max_write_zeroes_sectors as nat, 4) + le_bytes(
            self.max_write_zeroes_seg as nat,
            4,
        ) + seq![self.write_zeroes_may_unmap] + self.unused1@
    }
}

impl VirtioBlkConfig {
    /// The configuration space as the driver sees it.
    pub fn as_slice(&self) -> (r: Vec<u8>)
        ensures
            r@ == self@,
    {
        let mut out: Vec<u8> = Vec::new();
        push_le(&mut out, self.capacity, 8);
        push_le(&mut out, self.size_max as u64, 4);
        push_le(&mut out, self.seg_max as u64, 4);
        push_le(&mut out, self.geometry.cylinders as u64, 2);
        out.push(self.geometry.heads);
        out.push(self.geometry.sectors);
        push_le(&mut out, self.blk_size as u64, 4);
        out.push(self.topology.physical_block_exp);
        out.push(self.topology.alignment_offset);
        push_le(&mut out, self.topology.min_io_size as u64, 2);
        push_le(&mut out, self.topology.opt_io_size as u64, 4);
        out.push(self.writeback);
        out.push(self.unused0);
        push_le(&mut out, self.num_queues as u64, 2);
        push_le(&mut out, self.max_discard_sectors as u64, 4);
        push_le(&mut out, self.max_discard_seg as u64, 4);
        push_le(&mut out, self.discard_sector_alignment as u64, 4);
        push_le(&mut out, self.max_write_zeroes_sectors as u64, 4);
        push_le(&mut out, self.max_write_zeroes_seg as u64, 4);
        out.push(self.write_zeroes_may_unmap);
        out.push(self.unused1[0]);
        out.push(self.unused1[1]);
        out.push(self.unused1[2]);
        assert(out@ =~= self@);
        out
    }
}

/// What the driver is told of a device with a disk of the given size in bytes.
pub open spec fn config_space(disk_size: u64, seg_max: u32, block_size: u32) -> VirtioBlkConfig {
    VirtioBlkConfig {
        capacity: (disk_size / 512) as u64,
        size_max: 0,
        seg_max,
        geometry: VirtioBlkGeometry { cylinders: 0, heads: 0, sectors: 0 },
        blk_size: block_size,
        topology: VirtioBlkTopology {
            physical_block_exp: 0,
            alignment_offset: 0,
            min_io_size: 0,
            opt_io_size: 0,
        },
        writeback: 0,
        unused0: 0,
        num_queues: NUM_QUEUES,
        max_discard_sectors: MAX_DISCARD_SECTORS,
        max_discard_seg: MAX_DISCARD_SEG,
        discard_sector_alignment: DISCARD_SECTOR_ALIGNMENT,
        max_write_zeroes_sectors: MAX_WRITE_ZEROES_SECTORS,
        max_write_zeroes_seg: MAX_WRITE_ZEROES_SEG,
        write_zeroes_may_unmap: 1,
        unused1: [0, 0, 0],
    }
}

/// Builds the configuration space of a device with a disk of the given size in bytes.
pub fn build_config_space(disk_size: u64, seg_max: u32, block_size: u32) -> (r: VirtioBlkConfig)
    ensures
        r == config_space(disk_size, seg_max, block_size),
{
    assert(disk_size >> 9u64 == disk_size / 512) by (bit_vector);
    VirtioBlkConfig {
        // If the image is not a multiple of the sector size, the tail bits are not exposed.
        capacity: disk_size >> (SECTOR_SHIFT as u64),
        size_max: 0,
        seg_max,
        geometry: VirtioBlkGeometry { cylinders: 0, heads: 0, sectors: 0 },
        blk_size: block_size,
        topology: VirtioBlkTopology {
            physical_block_exp: 0,
            alignment_offset: 0,
            min_io_size: 0,
            opt_io_size: 0,
        },
        writeback: 0,
        unused0: 0,
        num_queues: NUM_QUEUES,
        max_discard_sectors: MAX_DISCARD_SECTORS,
        max_discard_seg: MAX_DISCARD_SEG,
        discard_sector_alignment: DISCARD_SECTOR_ALIGNMENT,
        max_write_zeroes_sectors: MAX_WRITE_ZEROES_SECTORS,
        max_write_zeroes_seg: MAX_WRITE_ZEROES_SEG,
        write_zeroes_may_unmap: 1,
        unused1: [0, 0, 0],
    }
}

/// What becomes of `dst` when it is filled from `src`: from `dst_offset` on it holds what `src`
/// holds from `src_offset` on, as far as both of them go.
pub open spec fn config_copied(
    dst: Seq<u8>,
    dst_offset: int,
    src: Seq<u8>,
    src_offset: int,
) -> Seq<u8> {
    Seq::new(
        dst.len(),
        |i: int|
            if dst_offset <= i && i - dst_offset + src_offset < src.len() {
                src[i - dst_offset + src_offset]
            } else {
                dst[i]
            },
    )
}

/// Copy virtio device configuration data from a part of `src` to a part of `dst`. As much is copied
/// as fits into the common part of the two; an offset that is out of bounds leaves `dst` as it is.
pub fn copy_config(dst: &mut [u8], dst_offset: u64, src: &[u8], src_offset: u64)
    ensures
        final(dst)@ == config_copied(old(dst)@, dst_offset as int, src@, src_offset as int),
{
    let dst_len: usize = dst.len();
    let src_len: usize = src.len();
    if dst_offset >= dst_len as u64 || src_offset >= src_len as u64 {
        assert(dst@ =~= config_copied(old(dst)@, dst_offset as int, src@, src_offset as int));
        return;
    }
    let dst_start: usize = dst_offset as usize;
    let src_start: usize = src_offset as usize;
    let mut i: usize = 0;
    while i < dst_len - dst_start && i < src_len - src_start
        invariant
            dst_start < dst_len,
            src_start < src_len == src@.len(),
            dst@.len() == dst_len == old(dst)@.len(),
            i <= dst_len - dst_start,
            i <= src_len - src_start,
            forall|k: int| 0 <= k < i ==> dst@[dst_start + k] == #[trigger] src@[src_start + k],
            forall|k: int|
                0 <= k < dst_len && !(dst_start <= k < dst_start + i) ==> #[trigger] dst@[k] == old(
                    dst,
                )@[k],
        decreases dst_len - dst_start - i,
    {
        dst[dst_start + i] = src[src_start + i];
        i = i + 1;
    }
    assert forall|k: int| 0 <= k < dst_len implies #[trigger] dst@[k] == config_copied(
        old(dst)@,
        dst_offset as int,
        src@,
        src_offset as int,
    )[k] by {
        if dst_start <= k < dst_start + i {
            let j = k - dst_start;
            assert(dst@[dst_start + j] == src@[src_start + j]);
        }
    }
    assert(dst@ =~= config_copied(old(dst)@, dst_offset as int, src@, src_offset as int));
}

/// Where the fields stand that describe the disk: its size at the start, the number of segments,
/// the block size and the number of queues behind it.
pub proof fn law_config_layout(config: VirtioBlkConfig)
    ensures
        config@.len() == CONFIG_SIZE,
        config@.subrange(0, 8) == le_bytes(config.capacity as nat, 8),
        config@.subrange(12, 16) == le_bytes(config.seg_max as nat, 4),
        config@.subrange(20, 24) == le_bytes(config.blk_size as nat, 4),
        config@.subrange(34, 36) == le_bytes(config.num_queues as nat, 2),
        config@.subrange(36, 40) == le_bytes(config.max_discard_sectors as nat, 4),
        config@.subrange(40, 44) == le_bytes(config.max_discard_seg as nat, 4),
        config@.subrange(44, 48) == le_bytes(config.discard_sector_alignment as nat, 4),
        config@.subrange(48, 52) == le_bytes(config.max_write_zeroes_sectors as nat, 4),
        config@.subrange(52, 56) == le_bytes(config.max_write_zeroes_seg as nat, 4),
        config@[56] == config.write_zeroes_may_unmap,
{
    lemma_le_bytes_len(config.capacity as nat, 8);
    lemma_le_bytes_len(config.size_max as nat, 4);
    lemma_le_bytes_len(config.seg_max as nat, 4);
    lemma_le_bytes_len(config.geometry.cylinders as nat, 2);
    lemma_le_bytes_len(config.blk_size as nat, 4);
    lemma_le_bytes_len(config.topology.min_io_size as nat, 2);
    lemma_le_bytes_len(config.topology.opt_io_size as nat, 4);
    lemma_le_bytes_len(config.num_queues as nat, 2);
    lemma_le_bytes_len(config.max_discard_sectors as nat, 4);
    lemma_le_bytes_len(config.max_discard_seg as nat, 4);
    lemma_le_bytes_len(config.discard_sector_alignment as nat, 4);
    lemma_le_bytes_len(config.max_write_zeroes_sectors as nat, 4);
    lemma_le_bytes_len(config.max_write_zeroes_seg as nat, 4);
}

/// The disk that the driver sees is the largest whole number of sectors that the image holds.
pub proof fn law_capacity_is_whole_sectors(disk_size: u64, seg_max: u32, block_size: u32)
    ensures
        config_space(disk_size, seg_max, block_size).capacity * 512 <= disk_size,
        disk_size < (config_space(disk_size, seg_max, block_size).capacity + 1) * 512,
{
}

/// A read of the configuration in two parts gives the same as one in a single go.
pub proof fn law_config_reads_join(first: Seq<u8>, second: Seq<u8>, src: Seq<u8>, offset: int)
    requires
        offset >= 0,
    ensures
        config_copied(first, 0, src, offset) + config_copied(
            second,
            0,
            src,
            offset + first.len(),
        ) == config_copied(first + second, 0, src, offset),
{
    assert(config_copied(first, 0, src, offset) + config_copied(
        second,
        0,
        src,
        offset + first.len(),
    ) =~= config_copied(first + second, 0, src, offset));
}

/// What the driver is told besides the size: the numbers that the device was made with, 16 queues,
/// segments to discard or to fill of any size, 32 of them at most, aligned to 128 sectors, and that
/// filling with zeroes may deallocate. All else is zero.
pub proof fn law_config_tells_the_limits(disk_size: u64, seg_max: u32, block_size: u32)
    ensures
        ({
            let c = config_space(disk_size, seg_max, block_size);
            &&& c.seg_max == seg_max
            &&& c.blk_size == block_size
            &&& c.num_queues == 16
            &&& c.max_discard_sectors == 0xffff_ffff
            &&& c.max_write_zeroes_sectors == 0xffff_ffff
            &&& c.max_discard_seg == 32
            &&& c.max_write_zeroes_seg == 32
            &&& c.discard_sector_alignment == 128
            &&& c.write_zeroes_may_unmap == 1
            &&& c.size_max == 0
            &&& c.geometry.cylinders == 0 && c.geometry.heads == 0 && c.geometry.sectors == 0
            &&& c.topology.physical_block_exp == 0 && c.topology.alignment_offset == 0
            &&& c.topology.min_io_size == 0 && c.topology.opt_io_size == 0
            &&& c.writeback == 0 && c.unused0 == 0
            &&& c.unused1@ == seq![0u8, 0u8, 0u8]
        }),
{
    let c = config_space(disk_size, seg_max, block_size);
    assert(c.unused1@ =~= seq![0u8, 0u8, 0u8]);
}

/// Where the other fields stand.
pub proof fn law_config_layout_of_the_rest(config: VirtioBlkConfig)
    ensures
        config@.subrange(8, 12) == le_bytes(config.size_max as nat, 4),
        config@.subrange(16, 18) == le_bytes(config.geometry.cylinders as nat, 2),
        config@[18] == config.geometry.heads,
        config@[19] == config.geometry.sectors,
        config@[24] == config.topology.physical_block_exp,
        config@[25] == config.topology.alignment_offset,
        config@.subrange(26, 28) == le_bytes(config.topology.min_io_size as nat, 2),
        config@.subrange(28, 32) == le_bytes(config.topology.opt_io_size as nat, 4),
        config@[32] == config.writeback,
        config@[33] == config.unused0,
        config@.subrange(57, 60) == config.unused1@,
{
    lemma_le_bytes_len(config.capacity as nat, 8);
    lemma_le_bytes_len(config.size_max as nat, 4);
    lemma_le_bytes_len(config.seg_max as nat, 4);
    lemma_le_bytes_len(config.geometry.cylinders as nat, 2);
    lemma_le_bytes_len(config.blk_size as nat, 4);
    lemma_le_bytes_len(config.topology.min_io_size as nat, 2);
    lemma_le_bytes_len(config.topology.opt_io_size as nat, 4);
    lemma_le_bytes_len(config.num_queues as nat, 2);
    lemma_le_bytes_len(config.max_discard_sectors as nat, 4);
    lemma_le_bytes_len(config.max_discard_seg as nat, 4);
    lemma_le_bytes_len(config.discard_sector_alignment as nat, 4);
    lemma_le_bytes_len(config.max_write_zeroes_sectors as nat, 4);
    lemma_le_bytes_len(config.max_write_zeroes_seg as nat, 4);
}

/// A copy of the configuration brings byte for byte what lies in both parts, and touches nothing
/// else.
pub proof fn law_config_copy_is_exact(
    dst: Seq<u8>,
    dst_offset: int,
    src: Seq<u8>,
    src_offset: int,
    i: int,
)
    requires
        0 <= dst_offset,
        0 <= src_offset,
        0 <= i < dst.len(),
    ensures
        config_copied(dst, dst_offset, src, src_offset).len() == dst.len(),
        i < dst_offset ==> config_copied(dst, dst_offset, src, src_offset)[i] == dst[i],
        i >= dst_offset && src_offset + (i - dst_offset) < src.len() ==> config_copied(
            dst,
            dst_offset,
            src,
            src_offset,
        )[i] == src[src_offset + (i - dst_offset)],
        i >= dst_offset && src_offset + (i - dst_offset) >= src.len() ==> config_copied(
            dst,
            dst_offset,
            src,
            src_offset,
        )[i] == dst[i],
{
}

} // verus!
