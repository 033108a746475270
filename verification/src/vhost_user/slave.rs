//! A vhost-user block device that only keeps the state of the protocol.

use vstd::prelude::*;

use vhost::vhost_user::SlaveFsCacheReq;

use super::handler::{check_config_write, MAX_QUEUE_NUM, MAX_VRING_NUM};
use super::memory::{
    is_searchable, mappings_of, pair_regions, vmm_va_to_gpa, MappingInfo, RegionFile,
};
use super::message::{
    supported_protocol_features, user_config_size, virtio_protocol_features, Error,
    VhostUserMemoryRegion, VhostUserVringState,
};
use crate::block::config::{build_config_space, CONFIG_SIZE};
use crate::block::device::host_seg_max;

verus! {

use super::handler::config_write;
use super::memory::{guest_address, region_file, region_mappings, searchable};
use super::message::{config_end, device_protocol_features, protocol_features_bit};
use crate::block::config::{config_space, law_config_layout};
use crate::block::device::host_segments;

/// The features that the device offers.
pub const VIRTIO_FEATURES: u64 = 0x4000_0003;

/// The size of the disk in bytes.
pub const DISK_SIZE: u64 = 0x4000_0000;

/// The size of a block of the disk in bytes.
pub const BLOCK_SIZE: u32 = 1024;

/// Where the guest has put the rings of a queue.
#[derive(Debug, Clone, Copy, PartialEq, Eq)]
pub struct QueueInfo {
    pub descriptor_table: u64,
    pub avail_ring: u64,
    pub used_ring: u64,
}

/// Handles the requests of the frontend. `M` stands for a mapped part of the guest's memory.
pub struct BlockSlaveReqHandler<M> {
    pub owned: bool,
    pub features_acked: bool,
    pub acked_features: u64,
    pub acked_protocol_features: u64,
    pub queue_num: usize,
    pub vring_num: [u32; 2],
    pub vring_base: [u32; 2],
    queue_info: [QueueInfo; 2],
    pub call_fd: [Option<i32>; 2],
    pub kick_fd: [Option<i32>; 2],
    pub err_fd: [Option<i32>; 2],
    pub vring_started: [bool; 2],
    pub vring_enabled: [bool; 2],
    vu_req: Option<SlaveFsCacheReq>,
    mem_tables: Option<Vec<M>>,
    memory: Option<Vec<MappingInfo>>,
}

/// What a handler holds.
#[verifier::ext_equal]
pub struct SlaveView<M> {
    pub owned: bool,
    pub features_acked: bool,
    pub acked_features: u64,
    pub acked_protocol_features: u64,
    pub queue_num: usize,
    pub vring_num: Seq<u32>,
    pub vring_base: Seq<u32>,
    pub queue_info: Seq<QueueInfo>,
    pub call_fd: Seq<Option<i32>>,
    pub kick_fd: Seq<Option<i32>>,
    pub err_fd: Seq<Option<i32>>,
    pub vring_started: Seq<bool>,
    pub vring_enabled: Seq<bool>,
    pub vu_req: Option<SlaveFsCacheReq>,
    pub mem_tables: Option<Seq<M>>,
    pub memory: Option<Seq<MappingInfo>>,
}

impl<M> View for BlockSlaveReqHandler<M> {
    type V = SlaveView<M>;

    closed spec fn view(&self) -> SlaveView<M> {
        SlaveView {
            owned: self.owned,
            features_acked: self.features_acked,
            acked_features: self.acked_features,
            acked_protocol_features: self.acked_protocol_features,
            queue_num: self.queue_num,
            vring_num: self.vring_num@,
            vring_base: self.vring_base@,
            queue_info: self.queue_info@,
            call_fd: self.call_fd@,
            kick_fd: self.kick_fd@,
            err_fd: self.err_fd@,
            vring_started: self.vring_started@,
            vring_enabled: self.vring_enabled@,
            vu_req: self.vu_req,
            mem_tables: match self.mem_tables {
                Some(tables) => Some(tables@),
                None => None,
            },
            memory: match self.memory {
                Some(maps) => Some(maps@),
                None => None,
            },
        }
    }
}

impl<M> SlaveView<M> {
    /// The handler knows only queues that there are.
    pub open spec fn wf(self) -> bool {
        &&& self.queue_num <= MAX_QUEUE_NUM
        &&& self.vring_num.len() == MAX_QUEUE_NUM
        &&& self.vring_base.len() == MAX_QUEUE_NUM
        &&& self.queue_info.len() == MAX_QUEUE_NUM
        &&& self.call_fd.len() == MAX_QUEUE_NUM
        &&& self.kick_fd.len() == MAX_QUEUE_NUM
        &&& self.err_fd.len() == MAX_QUEUE_NUM
        &&& self.vring_started.len() == MAX_QUEUE_NUM
        &&& self.vring_enabled.len() == MAX_QUEUE_NUM
    }

    /// A handler that no frontend has taken yet.
    pub open spec fn fresh() -> Self {
        let queue = QueueInfo { descriptor_table: 0, avail_ring: 0, used_ring: 0 };
        SlaveView {
            owned: false,
            features_acked: false,
            acked_features: 0,
            acked_protocol_features: 0,
            queue_num: MAX_QUEUE_NUM,
            vring_num: seq![0, 0],
            vring_base: seq![0, 0],
            queue_info: seq![queue, queue],
            call_fd: seq![None, None],
            kick_fd: seq![None, None],
            err_fd: seq![None, None],
            vring_started: seq![false, false],
            vring_enabled: seq![false, false],
            vu_req: None,
            mem_tables: None,
            memory: None,
        }
    }

    /// A frontend takes the device, unless one has it already.
    pub open spec fn taken(self) -> (Result<(), Error>, Self) {
        if self.owned {
            (Err(Error::InvalidOperation), self)
        } else {
            (Ok(()), SlaveView { owned: true, ..self })
        }
    }

    /// The frontend gives the device up.
    pub open spec fn given_up(self) -> Self {
        SlaveView {
            owned: false,
            features_acked: false,
            acked_features: 0,
            acked_protocol_features: 0,
            ..self
        }
    }

    /// Features are acknowledged.
    pub open spec fn features_set(self, features: u64) -> (Result<(), Error>, Self) {
        let enabled = features & protocol_features_bit() == 0;
        if !self.owned {
            (Err(Error::InvalidOperation), self)
        } else if features & !VIRTIO_FEATURES != 0 {
            (Err(Error::InvalidParam), self)
        } else {
            (
                Ok(()),
                SlaveView {
                    acked_features: features,
                    features_acked: true,
                    vring_enabled: seq![enabled, enabled],
                    ..self
                },
            )
        }
    }

    /// Protocol features are acknowledged.
    pub open spec fn protocol_set(self, features: u64) -> Self {
        SlaveView { acked_protocol_features: features, ..self }
    }

    /// The handler with the mapped parts of the guest's memory, one for each of the first regions.
    pub open spec fn with_tables(
        self,
        regions: Seq<VhostUserMemoryRegion>,
        mem_tables: Seq<M>,
    ) -> Self {
        SlaveView {
            mem_tables: Some(mem_tables),
            memory: Some(region_mappings(regions.take(mem_tables.len() as int))),
            ..self
        }
    }

    /// The number of descriptors of a vring is set.
    pub open spec fn num_set(self, index: u32, num: u32) -> (Result<(), Error>, Self) {
        if index >= self.queue_num || num == 0 || num > MAX_VRING_NUM {
            (Err(Error::InvalidParam), self)
        } else {
            (Ok(()), SlaveView { vring_num: self.vring_num.update(index as int, num), ..self })
        }
    }

    /// The guest address of an address of the vmm, if it is known.
    pub open spec fn address(self, vmm_va: u64) -> Option<u64> {
        match self.memory {
            Some(maps) => guest_address(maps, vmm_va),
            None => None,
        }
    }

    /// The mappings can be searched for an address of the vmm.
    pub open spec fn searchable(self, vmm_va: u64) -> bool {
        self.memory is Some ==> searchable(self.memory->0, vmm_va)
    }

    /// The mappings can be searched for the addresses of a vring, one after another, up to the
    /// first that is not known.
    pub open spec fn addr_searchable(self, descriptor: u64, used: u64, available: u64) -> bool {
        &&& self.searchable(descriptor)
        &&& self.address(descriptor) is Some ==> {
            &&& self.searchable(available)
            &&& self.address(available) is Some ==> self.searchable(used)
        }
    }

    /// The handler with other addresses of the rings of a queue.
    pub open spec fn with_queue(self, index: int, queue: QueueInfo) -> Self {
        SlaveView { queue_info: self.queue_info.update(index, queue), ..self }
    }

    /// The addresses of a vring are set, one after another, up to the first that is not known.
    pub open spec fn addr_set(
        self,
        index: u32,
        descriptor: u64,
        used: u64,
        available: u64,
    ) -> (Result<(), Error>, Self) {
        let i = index as int;
        let queue = self.queue_info[i];
        let missing = Err(Error::MissingMemoryMapping);
        if index >= self.queue_num {
            (Err(Error::InvalidParam), self)
        } else {
            match (self.address(descriptor), self.address(available), self.address(used)) {
                (None, _, _) => (missing, self),
                (Some(descriptor_table), None, _) => (
                    missing,
                    self.with_queue(i, QueueInfo { descriptor_table, ..queue }),
                ),
                (Some(descriptor_table), Some(avail_ring), None) => (
                    missing,
                    self.with_queue(i, QueueInfo { descriptor_table, avail_ring, ..queue }),
                ),
                (Some(descriptor_table), Some(avail_ring), Some(used_ring)) => (
                    Ok(()),
                    self.with_queue(i, QueueInfo { descriptor_table, avail_ring, used_ring }),
                ),
            }
        }
    }

    /// The index of the next descriptor of a vring is set.
    pub open spec fn base_set(self, index: u32, base: u32) -> (Result<(), Error>, Self) {
        if index >= self.queue_num || base >= MAX_VRING_NUM {
            (Err(Error::InvalidParam), self)
        } else {
            (Ok(()), SlaveView { vring_base: self.vring_base.update(index as int, base), ..self })
        }
    }

    /// A vring is stopped, and the index of its next descriptor is told.
    pub open spec fn base_got(self, index: u32) -> (Result<VhostUserVringState, Error>, Self) {
        if index >= self.queue_num {
            (Err(Error::InvalidParam), self)
        } else {
            (
                Ok(VhostUserVringState { index, num: self.vring_base[index as int] }),
                SlaveView {
                    vring_started: self.vring_started.update(index as int, false),
                    ..self
                },
            )
        }
    }

    /// The event by which the driver kicks a vring is set, which starts the vring. The event that
    /// it had before is told.
    pub open spec fn kick_set(self, index: u8, fd: Option<i32>) -> (
        Result<Option<i32>, Error>,
        Self,
    ) {
        let i = index as int;
        if index >= self.queue_num {
            (Err(Error::InvalidParam), self)
        } else {
            (
                Ok(self.kick_fd[i]),
                SlaveView {
                    kick_fd: self.kick_fd.update(i, fd),
                    vring_started: self.vring_started.update(i, true),
                    ..self
                },
            )
        }
    }

    /// The event by which a vring interrupts the driver is set. The event that it had before is
    /// told.
    pub open spec fn call_set(self, index: u8, fd: Option<i32>) -> (
        Result<Option<i32>, Error>,
        Self,
    ) {
        let i = index as int;
        if index >= self.queue_num {
            (Err(Error::InvalidParam), self)
        } else {
            (Ok(self.call_fd[i]), SlaveView { call_fd: self.call_fd.update(i, fd), ..self })
        }
    }

    /// The event by which a vring tells of errors is set. The event that it had before is told.
    pub open spec fn err_set(self, index: u8, fd: Option<i32>) -> (
        Result<Option<i32>, Error>,
        Self,
    ) {
        let i = index as int;
        if index >= self.queue_num {
            (Err(Error::InvalidParam), self)
        } else {
            (Ok(self.err_fd[i]), SlaveView { err_fd: self.err_fd.update(i, fd), ..self })
        }
    }

    /// A vring is enabled or disabled.
    pub open spec fn enable_set(self, index: u32, enable: bool) -> (Result<(), Error>, Self) {
        if self.acked_features & protocol_features_bit() == 0 {
            (Err(Error::InvalidOperation), self)
        } else if index >= self.queue_num {
            (Err(Error::InvalidParam), self)
        } else {
            (
                Ok(()),
                SlaveView {
                    vring_enabled: self.vring_enabled.update(index as int, enable),
                    ..self
                },
            )
        }
    }
}

/// What a read of the configuration gives.
pub open spec fn slave_config(offset: u32, size: u32, iov_max: usize) -> Result<Seq<u8>, Error> {
    if offset >= config_end() || offset + size > config_end() {
        Err(Error::InvalidParam)
    } else {
        Ok(config_space(DISK_SIZE, host_segments(iov_max), BLOCK_SIZE)@.take(size as int))
    }
}

impl<M> BlockSlaveReqHandler<M> {
    /// Makes a handler that no frontend has taken yet.
    pub fn new() -> (r: Self)
        ensures
            r@.wf(),
            r@ == SlaveView::<M>::fresh(),
    {
        let queue = QueueInfo { descriptor_table: 0, avail_ring: 0, used_ring: 0 };
        BlockSlaveReqHandler {
            owned: false,
            features_acked: false,
            acked_features: 0,
            acked_protocol_features: 0,
            queue_num: MAX_QUEUE_NUM,
            vring_num: [0, 0],
            vring_base: [0, 0],
            queue_info: [queue, queue],
            call_fd: [None, None],
            kick_fd: [None, None],
            err_fd: [None, None],
            vring_started: [false, false],
            vring_enabled: [false, false],
            vu_req: None,
            mem_tables: None,
            memory: None,
        }
    }

    /// Where the guest has put the rings of the queues.
    pub fn queue_info(&self) -> (r: &[QueueInfo; 2])
        ensures
            r@ == self@.queue_info,
    {
        &self.queue_info
    }

    /// The mapped parts of the guest's memory, if they are known.
    pub fn mem_tables(&self) -> (r: Option<&Vec<M>>)
        ensures
            match r {
                Some(tables) => self@.mem_tables == Some(tables@),
                None => self@.mem_tables is None,
            },
    {
        match &self.mem_tables {
            Some(tables) => Some(tables),
            None => None,
        }
    }

    /// Where the vmm has the guest's memory, if it is known.
    pub fn memory(&self) -> (r: Option<&Vec<MappingInfo>>)
        ensures
            match r {
                Some(maps) => self@.memory == Some(maps@),
                None => self@.memory is None,
            },
    {
        match &self.memory {
            Some(maps) => Some(maps),
            None => None,
        }
    }

    /// Translates an address of the vmm into a guest address.
    fn vmm_va_to_gpa(&self, vmm_va: u64) -> (r: Result<u64, Error>)
        requires
            self@.searchable(vmm_va),
        ensures
            r == (match self@.address(vmm_va) {
                Some(gpa) => Ok::<u64, Error>(gpa),
                None => Err(Error::MissingMemoryMapping),
            }),
    {
        match &self.memory {
            Some(maps) => match vmm_va_to_gpa(maps, vmm_va) {
                Ok(gpa) => Ok(gpa),
                Err(_) => Err(Error::MissingMemoryMapping),
            },
            None => Err(Error::MissingMemoryMapping),
        }
    }

    /// Takes the device for a frontend.
    pub fn set_owner(&mut self) -> (r: Result<(), Error>)
        ensures
            (r, final(self)@) == old(self)@.taken(),
    {
        if self.owned {
            return Err(Error::InvalidOperation);
        }
        self.owned = true;
        Ok(())
    }

    /// Gives the device up.
    pub fn reset_owner(&mut self) -> (r: Result<(), Error>)
        ensures
            r == Ok::<(), Error>(()),
            final(self)@ == old(self)@.given_up(),
    {
        self.owned = false;
        self.features_acked = false;
        self.acked_features = 0;
        self.acked_protocol_features = 0;
        Ok(())
    }

    /// The features that the device offers.
    pub fn get_features(&mut self) -> (r: Result<u64, Error>)
        ensures
            final(self)@ == old(self)@,
            r == Ok::<u64, Error>(VIRTIO_FEATURES),
    {
        Ok(VIRTIO_FEATURES)
    }

    /// Acknowledges features that the driver has picked.
    pub fn set_features(&mut self, features: u64) -> (r: Result<(), Error>)
        ensures
            (r, final(self)@) == old(self)@.features_set(features),
    {
        if !self.owned {
            return Err(Error::InvalidOperation);
        } else if (features & !VIRTIO_FEATURES) != 0 {
            return Err(Error::InvalidParam);
        }
        self.acked_features = features;
        self.features_acked = true;

        // If VHOST_USER_F_PROTOCOL_FEATURES has not been negotiated,
        // the ring is initialized in an enabled state.
        // If VHOST_USER_F_PROTOCOL_FEATURES has been negotiated,
        // the ring is initialized in a disabled state. Client must not
        // pass data to/from the backend until ring is enabled by
        // VHOST_USER_SET_VRING_ENABLE with parameter 1, or after it has
        // been disabled by VHOST_USER_SET_VRING_ENABLE with parameter 0.
        let vring_enabled: bool = self.acked_features & virtio_protocol_features() == 0;
        self.vring_enabled = [vring_enabled, vring_enabled];
        assert(self.vring_enabled@ =~= seq![vring_enabled, vring_enabled]);
        Ok(())
    }

    /// The protocol features that the device offers.
    pub fn get_protocol_features(&mut self) -> (r: Result<u64, Error>)
        ensures
            final(self)@ == old(self)@,
            r == Ok::<u64, Error>(device_protocol_features()),
    {
        Ok(supported_protocol_features())
    }

    /// Acknowledges protocol features that the frontend has picked.
    pub fn set_protocol_features(&mut self, features: u64) -> (r: Result<(), Error>)
        ensures
            r == Ok::<(), Error>(()),
            final(self)@ == old(self)@.protocol_set(features),
    {
        // Note: slave that reported VHOST_USER_F_PROTOCOL_FEATURES must
        // support this message even before VHOST_USER_SET_FEATURES was
        // called.
        // What happens if the master calls set_features() with
        // VHOST_USER_F_PROTOCOL_FEATURES cleared after calling this
        // interface?
        self.acked_protocol_features = features;
        Ok(())
    }

    /// The parts of the guest's memory that a memory table asks to be mapped: the regions that
    /// come with a file descriptor. The caller maps them, and hands them to `set_mem_table`.
    pub fn mem_table_files(contexts: &[VhostUserMemoryRegion], fds: &[i32]) -> (r: Vec<RegionFile>)
        ensures
            r@.len() == if contexts@.len() <= fds@.len() {
                contexts@.len()
            } else {
                fds@.len()
            },
            forall|i: int|
                0 <= i < r@.len() ==> #[trigger] r@[i] == region_file(contexts@[i], fds@[i]),
    {
        pair_regions(contexts, fds)
    }

    /// Takes the parts of the guest's memory that were mapped, one for each of the first regions.
    pub fn set_mem_table(
        &mut self,
        contexts: &[VhostUserMemoryRegion],
        mem_tables: Vec<M>,
    ) -> (r: Result<(), Error>)
        requires
            mem_tables@.len() <= contexts@.len(),
        ensures
            r == Ok::<(), Error>(()),
            final(self)@ == old(self)@.with_tables(contexts@, mem_tables@),
    {
        let maps = mappings_of(contexts, mem_tables.len());
        self.memory = Some(maps);
        self.mem_tables = Some(mem_tables);
        Ok(())
    }

    /// The number of queues that the device has.
    pub fn get_queue_num(&mut self) -> (r: Result<u64, Error>)
        ensures
            final(self)@ == old(self)@,
            r == Ok::<u64, Error>(MAX_QUEUE_NUM as u64),
    {
        Ok(MAX_QUEUE_NUM as u64)
    }

    /// Sets the number of descriptors of a vring.
    pub fn set_vring_num(&mut self, index: u32, num: u32) -> (r: Result<(), Error>)
        requires
            old(self)@.wf(),
        ensures
            (r, final(self)@) == old(self)@.num_set(index, num),
    {
        if index as usize >= self.queue_num || num == 0 || num as usize > MAX_VRING_NUM {
            return Err(Error::InvalidParam);
        }
        self.vring_num[index as usize] = num;
        Ok(())
    }

    /// Sets the addresses of a vring, which the frontend gives as addresses of its own.
    pub fn set_vring_addr(
        &mut self,
        index: u32,
        flags: u32,
        descriptor: u64,
        used: u64,
        available: u64,
        log: u64,
    ) -> (r: Result<(), Error>)
        requires
            old(self)@.wf(),
            index < old(self)@.queue_num ==> old(self)@.addr_searchable(
                descriptor,
                used,
                available,
            ),
        ensures
            (r, final(self)@) == old(self)@.addr_set(index, descriptor, used, available),
    {
        if index as usize >= self.queue_num {
            return Err(Error::InvalidParam);
        }
        let mut queue = self.queue_info[index as usize];
        match self.vmm_va_to_gpa(descriptor) {
            Ok(gpa) => {
                queue.descriptor_table = gpa;
            },
            Err(e) => {
                return Err(e);
            },
        }
        match self.vmm_va_to_gpa(available) {
            Ok(gpa) => {
                queue.avail_ring = gpa;
            },
            Err(e) => {
                self.queue_info[index as usize] = queue;
                return Err(e);
            },
        }
        match self.vmm_va_to_gpa(used) {
            Ok(gpa) => {
                queue.used_ring = gpa;
            },
            Err(e) => {
                self.queue_info[index as usize] = queue;
                return Err(e);
            },
        }
        self.queue_info[index as usize] = queue;
        Ok(())
    }

    /// Whether the mappings can be searched for an address of the vmm.
    fn can_search(&self, vmm_va: u64) -> (r: bool)
        ensures
            r == self@.searchable(vmm_va),
    {
        match &self.memory {
            Some(maps) => is_searchable(maps, vmm_va),
            None => true,
        }
    }

    /// Sets the addresses of a vring, as `set_vring_addr` does, if all that is looked up can be
    /// counted in 64 bits; `None` tells that it can't, and nothing has changed.
    pub fn try_set_vring_addr(
        &mut self,
        index: u32,
        flags: u32,
        descriptor: u64,
        used: u64,
        available: u64,
        log: u64,
    ) -> (r: Option<Result<(), Error>>)
        requires
            old(self)@.wf(),
        ensures
            if index < old(self)@.queue_num && !old(self)@.addr_searchable(
                descriptor,
                used,
                available,
            ) {
                r is None && final(self)@ == old(self)@
            } else {
                &&& r is Some
                &&& (r->0, final(self)@) == old(self)@.addr_set(index, descriptor, used, available)
            },
    {
        if (index as usize) < self.queue_num {
            if !self.can_search(descriptor) {
                return None;
            }
            if self.vmm_va_to_gpa(descriptor).is_ok() {
                if !self.can_search(available) {
                    return None;
                }
                if self.vmm_va_to_gpa(available).is_ok() && !self.can_search(used) {
                    return None;
                }
            }
        }
        Some(self.set_vring_addr(index, flags, descriptor, used, available, log))
    }

    /// Sets the index of the next descriptor of a vring.
    pub fn set_vring_base(&mut self, index: u32, base: u32) -> (r: Result<(), Error>)
        requires
            old(self)@.wf(),
        ensures
            (r, final(self)@) == old(self)@.base_set(index, base),
    {
        if index as usize >= self.queue_num || base as usize >= MAX_VRING_NUM {
            return Err(Error::InvalidParam);
        }
        self.vring_base[index as usize] = base;
        Ok(())
    }

    /// Stops a vring, and tells the index of its next descriptor.
    pub fn get_vring_base(&mut self, index: u32) -> (r: Result<VhostUserVringState, Error>)
        requires
            old(self)@.wf(),
        ensures
            (r, final(self)@) == old(self)@.base_got(index),
    {
        if index as usize >= self.queue_num {
            return Err(Error::InvalidParam);
        }
        // Client must start ring upon receiving a kick (that is, detecting
        // that file descriptor is readable) on the descriptor specified by
        // VHOST_USER_SET_VRING_KICK, and stop ring upon receiving
        // VHOST_USER_GET_VRING_BASE.
        self.vring_started[index as usize] = false;
        Ok(VhostUserVringState { index, num: self.vring_base[index as usize] })
    }

    /// Sets the event by which the driver kicks a vring, and starts the vring. Gives the file
    /// descriptor set by previous operations, which is to be closed.
    pub fn set_vring_kick(&mut self, index: u8, fd: Option<i32>) -> (r: Result<Option<i32>, Error>)
        requires
            old(self)@.wf(),
        ensures
            (r, final(self)@) == old(self)@.kick_set(index, fd),
    {
        if index as usize >= self.queue_num {
            return Err(Error::InvalidParam);
        }
        let previous = self.kick_fd[index as usize];
        self.kick_fd[index as usize] = fd;

        // Client must start ring upon receiving a kick (that is, detecting
        // that file descriptor is readable) on the descriptor specified by
        // VHOST_USER_SET_VRING_KICK, and stop ring upon receiving
        // VHOST_USER_GET_VRING_BASE.
        //
        // So we should add fd to event monitor(select, poll, epoll) here.
        self.vring_started[index as usize] = true;
        Ok(previous)
    }

    /// Sets the event by which a vring interrupts the driver. Gives the file descriptor set by
    /// previous operations, which is to be closed.
    pub fn set_vring_call(&mut self, index: u8, fd: Option<i32>) -> (r: Result<Option<i32>, Error>)
        requires
            old(self)@.wf(),
        ensures
            (r, final(self)@) == old(self)@.call_set(index, fd),
    {
        if index as usize >= self.queue_num {
            return Err(Error::InvalidParam);
        }
        let previous = self.call_fd[index as usize];
        self.call_fd[index as usize] = fd;
        Ok(previous)
    }

    /// Sets the event by which a vring tells of errors. Gives the file descriptor set by previous
    /// operations, which is to be closed.
    pub fn set_vring_err(&mut self, index: u8, fd: Option<i32>) -> (r: Result<Option<i32>, Error>)
        requires
            old(self)@.wf(),
        ensures
            (r, final(self)@) == old(self)@.err_set(index, fd),
    {
        if index as usize >= self.queue_num {
            return Err(Error::InvalidParam);
        }
        let previous = self.err_fd[index as usize];
        self.err_fd[index as usize] = fd;
        Ok(previous)
    }

    /// Enables or disables a vring. This request should be handled only when
    /// VHOST_USER_F_PROTOCOL_FEATURES has been negotiated.
    pub fn set_vring_enable(&mut self, index: u32, enable: bool) -> (r: Result<(), Error>)
        requires
            old(self)@.wf(),
        ensures
            (r, final(self)@) == old(self)@.enable_set(index, enable),
    {
        if self.acked_features & virtio_protocol_features() == 0 {
            return Err(Error::InvalidOperation);
        } else if index as usize >= self.queue_num {
            return Err(Error::InvalidParam);
        }
        // Slave must not pass data to/from the backend until ring is
        // enabled by VHOST_USER_SET_VRING_ENABLE with parameter 1,
        // or after it has been disabled by VHOST_USER_SET_VRING_ENABLE
        // with parameter 0.
        self.vring_enabled[index as usize] = enable;
        Ok(())
    }

    /// Reads the first `size` bytes of the configuration, which is not larger than it is. `iov_max`
    /// is the number of buffers that the host takes at once.
    pub fn get_config(&mut self, offset: u32, size: u32, flags: u32, iov_max: usize) -> (r: Result<
        Vec<u8>,
        Error,
    >)
        requires
            offset < config_end() ==> offset + size <= u32::MAX,
            offset < config_end() && offset + size <= config_end() ==> size <= CONFIG_SIZE,
        ensures
            final(self)@ == old(self)@,
            match slave_config(offset, size, iov_max) {
                Ok(data) => r is Ok && r->Ok_0@ == data,
                Err(e) => r == Err::<Vec<u8>, Error>(e),
            },
    {
        if offset >= user_config_size() || size + offset > user_config_size() {
            return Err(Error::InvalidParam);
        }
        let config = build_config_space(DISK_SIZE, host_seg_max(iov_max), BLOCK_SIZE);
        proof {
            law_config_layout(config);
        }
        let mut data = config.as_slice();
        data.truncate(size as usize);
        assert(data@ =~= config@.take(size as int));
        Ok(data)
    }

    /// Takes a change of the configuration, which has no effect. The length of what is written
    /// counts in 32 bits.
    pub fn set_config(&mut self, offset: u32, buf: &[u8], flags: u32) -> (r: Result<(), Error>)
        ensures
            final(self)@ == old(self)@,
            r == config_write(offset, buf@.len()),
    {
        check_config_write(offset, buf)
    }

    /// Takes a channel for requests to the frontend.
    pub fn set_slave_req_fd(&mut self, vu_req: SlaveFsCacheReq)
        ensures
            final(self)@ == (SlaveView { vu_req: Some(vu_req), ..old(self)@ }),
    {
        self.vu_req = Some(vu_req);
    }
}

/// One frontend at a time has the device: it can be taken only once, and again after it is given
/// up.
pub proof fn law_slave_has_one_owner<M>(handler: SlaveView<M>)
    ensures
        handler.taken().1.taken() == (
            Err::<(), Error>(Error::InvalidOperation),
            handler.taken().1,
        ),
        handler.given_up().taken().0 == Ok::<(), Error>(()),
{
}

/// A frontend that has the device may acknowledge any part of what the device offers, and nothing
/// else.
pub proof fn law_slave_accepts_offered_features<M>(handler: SlaveView<M>, features: u64)
    ensures
        handler.features_set(features).0 is Ok <==> handler.owned && features & VIRTIO_FEATURES
            == features,
        handler.features_set(features).0 is Err ==> handler.features_set(features).1 == handler,
{
    assert(features & !0x4000_0003u64 == 0 <==> features & 0x4000_0003u64 == features)
        by (bit_vector);
}

/// Acknowledged features leave the vrings disabled if they hold the negotiation of protocol
/// features, and enabled if they do not. Only in the first case the frontend may enable them.
pub proof fn law_slave_rings_wait_for_protocol_features<M>(
    handler: SlaveView<M>,
    features: u64,
    index: u32,
    enable: bool,
)
    requires
        handler.wf(),
        handler.features_set(features).0 is Ok,
        index < handler.queue_num,
    ensures
        ({
            let after = handler.features_set(features).1;
            let negotiated = features & protocol_features_bit() != 0;
            &&& after.vring_enabled[index as int] == !negotiated
            &&& after.enable_set(index, enable).0 is Ok <==> negotiated
            &&& negotiated ==> after.enable_set(index, enable).1.vring_enabled[index as int]
                == enable
        }),
{
}

/// The index of the next descriptor that is set for a vring is the one that is told, which stops
/// the vring.
pub proof fn law_slave_vring_base_reads_back<M>(handler: SlaveView<M>, index: u32, base: u32)
    requires
        handler.wf(),
        index < handler.queue_num,
        base < MAX_VRING_NUM,
    ensures
        handler.base_set(index, base).0 == Ok::<(), Error>(()),
        handler.base_set(index, base).1.base_got(index).0 == Ok::<VhostUserVringState, Error>(
            VhostUserVringState { index, num: base },
        ),
        !handler.base_set(index, base).1.base_got(index).1.vring_started[index as int],
{
}

/// A file descriptor that is set is given back, to be closed, when another takes its place.
pub proof fn law_slave_replaced_fd_is_given_back<M>(
    handler: SlaveView<M>,
    index: u8,
    fd: Option<i32>,
    next: Option<i32>,
)
    requires
        handler.wf(),
        index < handler.queue_num,
    ensures
        handler.kick_set(index, fd).1.kick_set(index, next).0 == Ok::<Option<i32>, Error>(fd),
        handler.call_set(index, fd).1.call_set(index, next).0 == Ok::<Option<i32>, Error>(fd),
        handler.err_set(index, fd).1.err_set(index, next).0 == Ok::<Option<i32>, Error>(fd),
{
}

/// A request that is refused changes nothing. Addresses are set one after another: those before one
/// that is not known stay set.
pub proof fn law_slave_refusal_changes_nothing<M>(
    handler: SlaveView<M>,
    index: u32,
    ring: u8,
    value: u32,
    features: u64,
    fd: Option<i32>,
    enable: bool,
    descriptor: u64,
    used: u64,
    available: u64,
)
    ensures
        handler.taken().0 is Err ==> handler.taken().1 == handler,
        handler.features_set(features).0 is Err ==> handler.features_set(features).1 == handler,
        handler.num_set(index, value).0 is Err ==> handler.num_set(index, value).1 == handler,
        handler.base_set(index, value).0 is Err ==> handler.base_set(index, value).1 == handler,
        handler.base_got(index).0 is Err ==> handler.base_got(index).1 == handler,
        handler.kick_set(ring, fd).0 is Err ==> handler.kick_set(ring, fd).1 == handler,
        handler.call_set(ring, fd).0 is Err ==> handler.call_set(ring, fd).1 == handler,
        handler.err_set(ring, fd).0 is Err ==> handler.err_set(ring, fd).1 == handler,
        handler.enable_set(index, enable).0 is Err ==> handler.enable_set(index, enable).1
            == handler,
        handler.addr_set(index, descriptor, used, available).0 == Err::<(), Error>(
            Error::InvalidParam,
        ) ==> handler.addr_set(index, descriptor, used, available).1 == handler,
{
}

/// The numbers of the device.
pub proof fn law_slave_numbers()
    ensures
        VIRTIO_FEATURES == 0x4000_0003,
        DISK_SIZE == 0x4000_0000,
        BLOCK_SIZE == 1024,
{
}

/// Only the two queues that there are may be known: this is all that a handler has to hold to.
pub proof fn law_slave_invariant<M>(handler: SlaveView<M>)
    ensures
        handler.wf() <==> handler.queue_num <= 2 && handler.vring_num.len() == 2
            && handler.vring_base.len() == 2 && handler.queue_info.len() == 2
            && handler.call_fd.len() == 2 && handler.kick_fd.len() == 2 && handler.err_fd.len() == 2
            && handler.vring_started.len() == 2 && handler.vring_enabled.len() == 2,
{
}

/// A handler that is new knows two queues, and nothing else.
pub proof fn law_fresh_slave<M>(i: int)
    requires
        0 <= i < 2,
    ensures
        ({
            let h = SlaveView::<M>::fresh();
            &&& h.wf()
            &&& h.queue_num == 2
            &&& !h.owned && !h.features_acked
            &&& h.acked_features == 0 && h.acked_protocol_features == 0
            &&& h.vring_num[i] == 0 && h.vring_base[i] == 0
            &&& h.queue_info[i].descriptor_table == 0 && h.queue_info[i].avail_ring == 0
                && h.queue_info[i].used_ring == 0
            &&& h.call_fd[i] is None && h.kick_fd[i] is None && h.err_fd[i] is None
            &&& !h.vring_started[i] && !h.vring_enabled[i]
            &&& h.vu_req is None && h.mem_tables is None && h.memory is None
        }),
{
}

/// Taking the device changes nothing but the owner; giving it up forgets what was acknowledged, and
/// changes nothing else.
pub proof fn law_slave_ownership_changes_little_else<M>(handler: SlaveView<M>)
    ensures
        handler.owned ==> handler.taken() == (Err::<(), Error>(Error::InvalidOperation), handler),
        !handler.owned ==> handler.taken() == (
            Ok::<(), Error>(()),
            SlaveView { owned: true, ..handler },
        ),
        ({
            let freed = handler.given_up();
            &&& !freed.owned && !freed.features_acked
            &&& freed.acked_features == 0 && freed.acked_protocol_features == 0
            &&& freed == (SlaveView {
                owned: false,
                features_acked: false,
                acked_features: 0,
                acked_protocol_features: 0,
                ..handler
            })
        }),
{
}

/// What the driver acknowledges is what is kept; both vrings are enabled or disabled by whether
/// bit 30 is among it, and nothing else changes. Refusals tell their reason.
pub proof fn law_slave_keeps_acknowledged_features<M>(handler: SlaveView<M>, features: u64)
    ensures
        !handler.owned <==> handler.features_set(features).0 == Err::<(), Error>(
            Error::InvalidOperation,
        ),
        handler.owned && features & !0x4000_0003u64 != 0 <==> handler.features_set(features).0
            == Err::<(), Error>(Error::InvalidParam),
        handler.features_set(features).0 is Ok ==> {
            let after = handler.features_set(features).1;
            &&& after.acked_features == features
            &&& after.features_acked
            &&& after.vring_enabled.len() == 2
            &&& after.vring_enabled[0] == (features & 0x4000_0000 == 0)
            &&& after.vring_enabled[1] == (features & 0x4000_0000 == 0)
            &&& after == (SlaveView {
                acked_features: features,
                features_acked: true,
                vring_enabled: after.vring_enabled,
                ..handler
            })
        },
{
}

/// The number of descriptors and the index of the next are kept for a queue that there is, within
/// their bounds, and for nothing else; the index is told for any queue that there is, which stops
/// its vring alone.
pub proof fn law_slave_vring_numbers_are_exact<M>(handler: SlaveView<M>, index: u32, value: u32)
    requires
        handler.wf(),
    ensures
        handler.num_set(index, value).0 is Ok <==> index < handler.queue_num && 1 <= value <= 256,
        handler.num_set(index, value).0 is Err ==> handler.num_set(index, value).0 == Err::<
            (),
            Error,
        >(Error::InvalidParam),
        handler.num_set(index, value).0 is Ok ==> handler.num_set(index, value).1 == (SlaveView {
            vring_num: handler.vring_num.update(index as int, value),
            ..handler
        }),
        handler.base_set(index, value).0 is Ok <==> index < handler.queue_num && value < 256,
        handler.base_set(index, value).0 is Err ==> handler.base_set(index, value).0 == Err::<
            (),
            Error,
        >(Error::InvalidParam),
        handler.base_set(index, value).0 is Ok ==> handler.base_set(index, value).1 == (SlaveView {
            vring_base: handler.vring_base.update(index as int, value),
            ..handler
        }),
        handler.base_got(index).0 is Ok <==> index < handler.queue_num,
        handler.base_got(index).0 is Err ==> handler.base_got(index).0 == Err::<
            VhostUserVringState,
            Error,
        >(Error::InvalidParam),
        handler.base_got(index).0 is Ok ==> handler.base_got(index) == (
            Ok::<VhostUserVringState, Error>(
                VhostUserVringState { index, num: handler.vring_base[index as int] },
            ),
            SlaveView {
                vring_started: handler.vring_started.update(index as int, false),
                ..handler
            },
        ),
{
}

/// A file descriptor goes to its own vring, and the one that was there is given back; a kick starts
/// the vring. Nothing else changes.
pub proof fn law_slave_events_go_to_their_vring<M>(
    handler: SlaveView<M>,
    index: u8,
    fd: Option<i32>,
)
    requires
        handler.wf(),
    ensures
        index >= handler.queue_num ==> {
            let refused = (Err::<Option<i32>, Error>(Error::InvalidParam), handler);
            &&& handler.kick_set(index, fd) == refused
            &&& handler.call_set(index, fd) == refused
            &&& handler.err_set(index, fd) == refused
        },
        index < handler.queue_num ==> {
            let i = index as int;
            &&& handler.kick_set(index, fd) == (
                Ok::<Option<i32>, Error>(handler.kick_fd[i]),
                SlaveView {
                    kick_fd: handler.kick_fd.update(i, fd),
                    vring_started: handler.vring_started.update(i, true),
                    ..handler
                },
            )
            &&& handler.call_set(index, fd) == (
                Ok::<Option<i32>, Error>(handler.call_fd[i]),
                SlaveView { call_fd: handler.call_fd.update(i, fd), ..handler },
            )
            &&& handler.err_set(index, fd) == (
                Ok::<Option<i32>, Error>(handler.err_fd[i]),
                SlaveView { err_fd: handler.err_fd.update(i, fd), ..handler },
            )
        },
{
}

/// A vring is enabled or disabled only if bit 30 was acknowledged, and only if there is such a
/// vring; nothing else changes.
pub proof fn law_slave_enables_one_vring<M>(handler: SlaveView<M>, index: u32, enable: bool)
    requires
        handler.wf(),
    ensures
        handler.acked_features & 0x4000_0000 == 0 ==> handler.enable_set(index, enable) == (
            Err::<(), Error>(Error::InvalidOperation),
            handler,
        ),
        handler.acked_features & 0x4000_0000 != 0 && index >= handler.queue_num
            ==> handler.enable_set(index, enable) == (
            Err::<(), Error>(Error::InvalidParam),
            handler,
        ),
        handler.acked_features & 0x4000_0000 != 0 && index < handler.queue_num
            ==> handler.enable_set(index, enable) == (
            Ok::<(), Error>(()),
            SlaveView {
                vring_enabled: handler.vring_enabled.update(index as int, enable),
                ..handler
            },
        ),
{
}

/// The addresses of a vring are set to those of the guest, in the order of descriptor table,
/// available ring and used ring, up to the first that is not known; all of them exactly if all are
/// known. Nothing else changes.
pub proof fn law_slave_vring_addresses_are_translated<M>(
    handler: SlaveView<M>,
    index: u32,
    descriptor: u64,
    used: u64,
    available: u64,
)
    requires
        handler.wf(),
    ensures
        handler.memory is None ==> handler.address(descriptor) is None,
        handler.memory is Some ==> handler.address(descriptor) == guest_address(
            handler.memory->0,
            descriptor,
        ),
        handler.searchable(descriptor) <==> handler.memory is None || searchable(
            handler.memory->0,
            descriptor,
        ),
        ({
            let (r, after) = handler.addr_set(index, descriptor, used, available);
            let (d, a, u) = (
                handler.address(descriptor),
                handler.address(available),
                handler.address(used),
            );
            let (old, new) = (
                handler.queue_info[index as int],
                after.queue_info[index as int],
            );
            if index >= handler.queue_num {
                r == Err::<(), Error>(Error::InvalidParam) && after == handler
            } else {
                &&& r == Ok::<(), Error>(()) <==> d is Some && a is Some && u is Some
                &&& r is Err ==> r == Err::<(), Error>(Error::MissingMemoryMapping)
                &&& new.descriptor_table == match d {
                    Some(gpa) => gpa,
                    None => old.descriptor_table,
                }
                &&& new.avail_ring == match (d, a) {
                    (Some(_), Some(gpa)) => gpa,
                    _ => old.avail_ring,
                }
                &&& new.used_ring == match (d, a, u) {
                    (Some(_), Some(_), Some(gpa)) => gpa,
                    _ => old.used_ring,
                }
                &&& after == (SlaveView {
                    queue_info: handler.queue_info.update(index as int, new),
                    ..handler
                })
            }
        }),
        handler.addr_searchable(descriptor, used, available) <==> handler.searchable(descriptor)
            && (handler.address(descriptor) is None || handler.searchable(available)
            && (handler.address(available) is None || handler.searchable(used))),
{
    let (r, after) = handler.addr_set(index, descriptor, used, available);
    if index < handler.queue_num {
        let new = after.queue_info[index as int];
        assert(after.queue_info =~= handler.queue_info.update(index as int, new));
        assert(after =~= (SlaveView {
            queue_info: handler.queue_info.update(index as int, new),
            ..handler
        }));
    }
}

/// Protocol features are kept as they are acknowledged, and the mapped memory as it is given, with
/// the mappings of the regions that were mapped; nothing else changes.
pub proof fn law_slave_keeps_what_it_is_given<M>(
    handler: SlaveView<M>,
    features: u64,
    regions: Seq<VhostUserMemoryRegion>,
    mem_tables: Seq<M>,
    i: int,
)
    requires
        mem_tables.len() <= regions.len(),
    ensures
        handler.protocol_set(features) == (SlaveView {
            acked_protocol_features: features,
            ..handler
        }),
        ({
            let after = handler.with_tables(regions, mem_tables);
            &&& after.mem_tables == Some(mem_tables)
            &&& after.memory is Some
            &&& after.memory->0.len() == mem_tables.len()
            &&& 0 <= i < mem_tables.len() ==> after.memory->0[i].vmm_addr == regions[i].user_addr
                && after.memory->0[i].guest_phys == regions[i].guest_phys_addr
                && after.memory->0[i].size == regions[i].memory_size
            &&& after == (SlaveView {
                mem_tables: after.mem_tables,
                memory: after.memory,
                ..handler
            })
        }),
{
}

/// A read of the configuration that stays below 0x1000 gives its first bytes, wherever it begins:
/// those of a disk of 0x20_0000 sectors, in blocks of 1024 bytes. Any other is refused.
pub proof fn law_slave_config_is_that_of_its_disk(offset: u32, size: u32, iov_max: usize)
    requires
        size <= 60,
    ensures
        offset + size > 0x1000 || offset >= 0x1000 <==> slave_config(offset, size, iov_max)
            == Err::<Seq<u8>, Error>(Error::InvalidParam),
        slave_config(offset, size, iov_max) is Ok ==> {
            let data = slave_config(offset, size, iov_max)->Ok_0;
            let config = config_space(DISK_SIZE, host_segments(iov_max), BLOCK_SIZE);
            &&& data.len() == size
            &&& forall|i: int| 0 <= i < size ==> #[trigger] data[i] == config@[i]
            &&& config.capacity == 0x20_0000
            &&& config.blk_size == 1024
            &&& config.seg_max == host_segments(iov_max)
        },
{
    law_config_layout(config_space(DISK_SIZE, host_segments(iov_max), BLOCK_SIZE));
}

} // verus!
