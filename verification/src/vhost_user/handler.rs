//! The request handler of a vhost-user device.

use vstd::prelude::*;

use vhost::vhost_user::SlaveFsCacheReq;

use super::backend::{CallEvent, VhostUserBackend};
use super::memory::{
    is_searchable, mappings_of, pair_regions, vmm_va_to_gpa, MappingInfo, RegionFile,
};
use super::message::{
    user_config_offset, user_config_size, virtio_protocol_features, Error, VhostUserMemoryRegion,
    VhostUserVringState,
};
use crate::queue::Queue;

verus! {

use super::backend::{backend_acks, backend_activates, VirtioDevice};
use super::memory::{guest_address, region_file, region_mappings, searchable};
use super::message::{config_end, config_start, protocol_features_bit};

/// How many queues the device has.
pub const MAX_QUEUE_NUM: usize = 2;

/// How many descriptors a queue may have.
pub const MAX_VRING_NUM: usize = 256;

/// The features that the handler offers besides those of the device: the protocol features, and
/// version 1 of virtio.
pub const VIRTIO_TRANSPORT_FEATURES: u64 = 0x1_4000_0000;

/// The guest's memory, and where the vmm has it.
pub struct MemInfo<M> {
    pub guest_mem: M,
    pub vmm_maps: Vec<MappingInfo>,
}

/// What a `MemInfo` holds.
#[verifier::ext_equal]
pub struct MemView<M> {
    pub guest_mem: M,
    pub vmm_maps: Seq<MappingInfo>,
}

impl<M> View for MemInfo<M> {
    type V = MemView<M>;

    open spec fn view(&self) -> MemView<M> {
        MemView { guest_mem: self.guest_mem, vmm_maps: self.vmm_maps@ }
    }
}

/// A vring, with the events of its driver. A device that is activated with it is given its queue as
/// it was then; what becomes of the queue later is seen here.
pub struct Vring<E> {
    pub queue: Queue,
    pub call_fd: Option<E>,
    pub kick_fd: Option<E>,
    pub enabled: bool,
    /// Whether a backend is activated with the queue.
    pub activated: bool,
}

impl<E> Vring<E> {
    /// A vring that is not configured yet.
    pub open spec fn fresh(max_size: u16) -> Self {
        Vring {
            queue: Queue::fresh(max_size),
            call_fd: None,
            kick_fd: None,
            enabled: false,
            activated: false,
        }
    }

    /// Both events are there, and the driver has enabled the vring.
    pub open spec fn ready(self) -> bool {
        self.call_fd is Some && self.kick_fd is Some && self.enabled
    }

    /// Makes a vring whose queue has up to `max_size` descriptors.
    pub fn new(max_size: u16) -> (r: Self)
        ensures
            r == Vring::<E>::fresh(max_size),
    {
        Vring {
            queue: Queue::new(max_size),
            call_fd: None,
            kick_fd: None,
            enabled: false,
            activated: false,
        }
    }

    /// Resets the vring to the state in which it was made.
    pub fn reset(&mut self)
        ensures
            *final(self) == Vring::<E>::fresh(old(self).queue.max_size),
    {
        self.queue.reset();
        self.call_fd = None;
        self.kick_fd = None;
        self.enabled = false;
        self.activated = false;
    }
}

/// Handles the requests of the frontend to a vhost-user device.
pub struct VhostUserDeviceReqHandler<B: VhostUserBackend> {
    pub owned: bool,
    pub features_acked: bool,
    pub queue_num: usize,
    pub vring_num: [u32; 2],
    pub vring_base: [u32; 2],
    pub err_fd: [Option<B::Event>; 2],
    vu_req: Option<SlaveFsCacheReq>,
    mem: Option<MemInfo<B::GuestMemory>>,
    vrings: Vec<Vring<B::Event>>,
    backend: B,
}

/// What a handler holds.
#[verifier::ext_equal]
pub struct HandlerView<B: VhostUserBackend> {
    pub owned: bool,
    pub features_acked: bool,
    pub queue_num: usize,
    pub vring_num: Seq<u32>,
    pub vring_base: Seq<u32>,
    pub err_fd: Seq<Option<B::Event>>,
    pub vu_req: Option<SlaveFsCacheReq>,
    pub mem: Option<MemView<B::GuestMemory>>,
    pub vrings: Seq<Vring<B::Event>>,
    pub backend: B,
}

impl<B: VhostUserBackend> View for VhostUserDeviceReqHandler<B> {
    type V = HandlerView<B>;

    closed spec fn view(&self) -> HandlerView<B> {
        HandlerView {
            owned: self.owned,
            features_acked: self.features_acked,
            queue_num: self.queue_num,
            vring_num: self.vring_num@,
            vring_base: self.vring_base@,
            err_fd: self.err_fd@,
            vu_req: self.vu_req,
            mem: match self.mem {
                Some(mem) => Some(mem@),
                None => None,
            },
            vrings: self.vrings@,
            backend: self.backend,
        }
    }
}

/// The first group of queues that holds the queue at `index`.
pub open spec fn first_group(groups: Seq<Seq<usize>>, index: usize) -> Option<Seq<usize>>
    decreases groups.len(),
{
    if groups.len() == 0 {
        None
    } else if groups[0].contains(index) {
        Some(groups[0])
    } else {
        first_group(groups.skip(1), index)
    }
}

/// Which of the vrings are ready.
pub open spec fn readiness<E>(vrings: Seq<Vring<E>>) -> Seq<bool> {
    vrings.map_values(|v: Vring<E>| v.ready())
}

/// The queues of a group are ready.
pub open spec fn group_ready(ready: Seq<bool>, group: Seq<usize>) -> bool {
    forall|k: int|
        0 <= k < group.len() ==> #[trigger] group[k] < ready.len() && ready[group[k] as int]
}

/// The queues of a group exist, up to the first that is not ready.
pub open spec fn group_exists(ready: Seq<bool>, group: Seq<usize>) -> bool
    decreases group.len(),
{
    group.len() > 0 ==> {
        &&& group[0] < ready.len()
        &&& ready[group[0] as int] ==> group_exists(ready, group.skip(1))
    }
}

/// All is there that is looked for in order to start a device with a group of queues, of which some
/// are ready: the queues exist, none is named twice, and the guest's memory is known.
pub open spec fn group_startable(ready: Seq<bool>, group: Seq<usize>, has_memory: bool) -> bool {
    &&& group_exists(ready, group)
    &&& group_ready(ready, group) ==> group.no_duplicates() && has_memory
}

/// The vrings of a group are handed to the device; the others stay as they are.
pub open spec fn group_activated<E>(vrings: Seq<Vring<E>>, group: Seq<usize>) -> Seq<Vring<E>> {
    vrings.map(
        |i: int, v: Vring<E>|
            if group.contains(i as usize) {
                Vring { call_fd: None, kick_fd: None, activated: true, ..v }
            } else {
                v
            },
    )
}

/// The interrupts that the device is handed for a group.
pub open spec fn group_interrupts<E>(vrings: Seq<Vring<E>>, group: Seq<usize>) -> Seq<
    CallEvent<E>,
> {
    group.map_values(|i: usize| CallEvent(vrings[i as int].call_fd->0))
}

/// The queues that the device is handed for a group, each with its index.
pub open spec fn group_queues<E>(vrings: Seq<Vring<E>>, group: Seq<usize>) -> Seq<(usize, Queue)> {
    group.map_values(|i: usize| (i, vrings[i as int].queue))
}

/// The kick events that the device is handed for a group.
pub open spec fn group_kicks<E>(vrings: Seq<Vring<E>>, group: Seq<usize>) -> Seq<E> {
    group.map_values(|i: usize| vrings[i as int].kick_fd->0)
}

impl<B: VhostUserBackend> HandlerView<B> {
    /// The handler knows only queues that there are.
    pub open spec fn wf(self) -> bool {
        &&& self.queue_num <= MAX_QUEUE_NUM
        &&& self.vring_num.len() == MAX_QUEUE_NUM
        &&& self.vring_base.len() == MAX_QUEUE_NUM
        &&& self.err_fd.len() == MAX_QUEUE_NUM
        &&& self.vrings.len() == MAX_QUEUE_NUM
    }

    /// The group of queues that is activated along with the queue at `index`.
    pub open spec fn group_of(self, index: int) -> Option<Seq<usize>> {
        first_group(self.backend.device_state().worker_queues(), index as usize)
    }

    /// Whether the device is activated with the queue at `index`, and the others of its group.
    pub open spec fn starts(self, index: int) -> bool {
        &&& !self.vrings[index].activated
        &&& self.group_of(index) is Some
        &&& group_ready(readiness(self.vrings), self.group_of(index)->0)
    }

    /// All is there that is looked for in order to start the device with the queue at `index`.
    pub open spec fn startable(self, index: int) -> bool {
        self.startable_if(index, readiness(self.vrings))
    }

    /// All would be there that is looked for in order to start the device with the queue at
    /// `index`, if the vrings were ready as given.
    pub open spec fn startable_if(self, index: int, ready: Seq<bool>) -> bool {
        !self.vrings[index].activated && self.group_of(index) is Some ==> group_startable(
            ready,
            self.group_of(index)->0,
            self.mem is Some,
        )
    }

    /// The handler has become `after` as the device was started with the queue at `index`, if all
    /// is ready for it.
    pub open spec fn started(self, index: int, after: Self) -> bool {
        if self.starts(index) {
            let group = self.group_of(index)->0;
            &&& backend_activates(
                self.backend,
                self.mem->0.guest_mem,
                group_interrupts(self.vrings, group),
                group_queues(self.vrings, group),
                group_kicks(self.vrings, group),
                after.backend,
            )
            &&& after == (HandlerView {
                vrings: group_activated(self.vrings, group),
                backend: after.backend,
                ..self
            })
        } else {
            after == self
        }
    }

    /// The handler with another vring at `index`.
    pub open spec fn with_vring(self, index: int, vring: Vring<B::Event>) -> Self {
        HandlerView { vrings: self.vrings.update(index, vring), ..self }
    }

    /// Whether the frontend has acknowledged the negotiation of protocol features.
    pub open spec fn protocol_negotiated(self) -> bool {
        self.backend.device_state().acked() & protocol_features_bit() != 0
    }

    /// The features that the handler offers.
    pub open spec fn features(self) -> u64 {
        self.backend.device_state().offered() | VIRTIO_TRANSPORT_FEATURES
    }

    /// The addresses of the vmm lie in the guest's memory.
    pub open spec fn maps(self, vmm_va: u64) -> bool {
        &&& searchable(self.mem->0.vmm_maps, vmm_va)
        &&& guest_address(self.mem->0.vmm_maps, vmm_va) is Some
    }

    /// The guest address of an address of the vmm.
    pub open spec fn address(self, vmm_va: u64) -> u64 {
        guest_address(self.mem->0.vmm_maps, vmm_va)->0
    }
}

/// The vrings, enabled or disabled.
pub open spec fn rings_enabled<E>(vrings: Seq<Vring<E>>, enabled: bool) -> Seq<Vring<E>> {
    vrings.map_values(|v: Vring<E>| Vring { enabled, ..v })
}

/// The vrings, as they were made.
pub open spec fn rings_reset<E>(vrings: Seq<Vring<E>>) -> Seq<Vring<E>> {
    vrings.map_values(|v: Vring<E>| Vring::<E>::fresh(v.queue.max_size))
}

impl<B: VhostUserBackend> HandlerView<B> {
    /// A frontend takes the device, unless one has it already.
    pub open spec fn taken(self) -> (Result<(), Error>, Self) {
        if self.owned {
            (Err(Error::InvalidOperation), self)
        } else {
            (Ok(()), HandlerView { owned: true, ..self })
        }
    }

    /// The handler has become `after` as the frontend gave the device up.
    pub open spec fn given_up(self, after: Self) -> bool {
        &&& self.backend.resets(after.backend)
        &&& after == (HandlerView {
            owned: false,
            features_acked: false,
            backend: after.backend,
            ..self
        })
    }

    /// The handler has become `after` by an attempt to acknowledge features, with the result `r`.
    pub open spec fn features_set(self, features: u64, r: Result<(), Error>, after: Self) -> bool {
        if !self.owned {
            r == Err::<(), Error>(Error::InvalidOperation) && after == self
        } else if features & !self.features() != 0 {
            r == Err::<(), Error>(Error::InvalidParam) && after == self
        } else {
            &&& r == Ok::<(), Error>(())
            &&& backend_acks(self.backend, features, after.backend)
            &&& after == (HandlerView {
                features_acked: true,
                vrings: rings_enabled(self.vrings, !after.protocol_negotiated()),
                backend: after.backend,
                ..self
            })
        }
    }

    /// A handler that no frontend has taken yet.
    pub open spec fn fresh(backend: B) -> Self {
        HandlerView {
            owned: false,
            features_acked: false,
            queue_num: MAX_QUEUE_NUM,
            vring_num: seq![0u32, 0u32],
            vring_base: seq![0u32, 0u32],
            err_fd: seq![None::<B::Event>, None],
            vu_req: None,
            mem: None,
            vrings: seq![
                Vring::<B::Event>::fresh(MAX_VRING_NUM as u16),
                Vring::<B::Event>::fresh(MAX_VRING_NUM as u16),
            ],
            backend,
        }
    }

    /// The handler has become `after` by an acknowledgement of protocol features.
    pub open spec fn protocol_set(self, features: u64, after: Self) -> bool {
        &&& self.backend.acks_protocol(features, after.backend)
        &&& after == (HandlerView { backend: after.backend, ..self })
    }

    /// The handler with the guest's memory, made of the given regions.
    pub open spec fn with_memory(
        self,
        regions: Seq<VhostUserMemoryRegion>,
        guest_mem: B::GuestMemory,
    ) -> Self {
        HandlerView {
            mem: Some(MemView { guest_mem, vmm_maps: region_mappings(regions) }),
            ..self
        }
    }

    /// The number of descriptors of a vring is set.
    pub open spec fn num_set(self, index: u32, num: u32) -> (Result<(), Error>, Self) {
        if index >= self.queue_num || num == 0 || num > MAX_VRING_NUM {
            (Err(Error::InvalidParam), self)
        } else {
            (Ok(()), HandlerView { vring_num: self.vring_num.update(index as int, num), ..self })
        }
    }

    /// The addresses of a vring are set.
    pub open spec fn addr_set(self, index: u32, descriptor: u64, used: u64, available: u64) -> (
        Result<(), Error>,
        Self,
    ) {
        if index >= self.queue_num || self.mem is None {
            (Err(Error::InvalidParam), self)
        } else {
            (Ok(()), self.with_addresses(index as int, descriptor, used, available))
        }
    }

    /// The event by which a vring tells of errors is set.
    pub open spec fn err_set(self, index: u8, fd: Option<B::Event>) -> (Result<(), Error>, Self) {
        if index >= self.queue_num {
            (Err(Error::InvalidParam), self)
        } else {
            (Ok(()), HandlerView { err_fd: self.err_fd.update(index as int, fd), ..self })
        }
    }

    /// The handler has become `after` by an attempt to set the event by which the driver kicks a
    /// vring, with the result `r`.
    pub open spec fn kick_set(
        self,
        index: u8,
        fd: Option<B::Event>,
        r: Result<(), Error>,
        after: Self,
    ) -> bool {
        if index >= self.queue_num {
            r == Err::<(), Error>(Error::InvalidParam) && after == self
        } else {
            r == Ok::<(), Error>(()) && self.kicked(index as int, fd).started(index as int, after)
        }
    }

    /// The handler has become `after` by an attempt to set the event by which a vring interrupts
    /// the driver, with the result `r`.
    pub open spec fn call_set(
        self,
        index: u8,
        fd: Option<B::Event>,
        r: Result<(), Error>,
        after: Self,
    ) -> bool {
        if index >= self.queue_num {
            r == Err::<(), Error>(Error::InvalidParam) && after == self
        } else {
            r == Ok::<(), Error>(()) && self.called(index as int, fd).started(index as int, after)
        }
    }

    /// The handler has become `after` by an attempt to enable or disable a vring, with the result
    /// `r`.
    pub open spec fn enable_set(
        self,
        index: u32,
        enable: bool,
        r: Result<(), Error>,
        after: Self,
    ) -> bool {
        if !self.protocol_negotiated() {
            r == Err::<(), Error>(Error::InvalidOperation) && after == self
        } else if index >= self.queue_num {
            r == Err::<(), Error>(Error::InvalidParam) && after == self
        } else {
            r == Ok::<(), Error>(()) && self.enabling(index as int, enable).started(
                index as int,
                after,
            )
        }
    }

    /// A read of the configuration has given `r`.
    pub open spec fn config_got(self, offset: u32, size: u32, r: Result<Seq<u8>, Error>) -> bool {
        if offset >= config_end() || offset + size > config_end() {
            r == Err::<Seq<u8>, Error>(Error::InvalidParam)
        } else {
            &&& r is Ok
            &&& r->Ok_0.len() == size
            &&& self.backend.device_state().config_read(
                offset as u64,
                Seq::new(size as nat, |i: int| 0u8),
                r->Ok_0,
            )
        }
    }

    /// The index of the next descriptor of a vring is set.
    pub open spec fn base_set(self, index: u32, base: u32) -> (Result<(), Error>, Self) {
        if index >= self.queue_num || base >= MAX_VRING_NUM {
            (Err(Error::InvalidParam), self)
        } else {
            (
                Ok(()),
                HandlerView { vring_base: self.vring_base.update(index as int, base), ..self },
            )
        }
    }

    /// The vrings are stopped, and the index of the next descriptor of one of them is told.
    pub open spec fn base_got(self, index: u32) -> (Result<VhostUserVringState, Error>, Self) {
        if index >= self.queue_num {
            (Err(Error::InvalidParam), self)
        } else {
            (
                Ok(VhostUserVringState { index, num: self.vring_base[index as int] }),
                HandlerView { vrings: rings_reset(self.vrings), ..self },
            )
        }
    }

    /// The handler with the addresses of the vring at `index`, which are given as those of the vmm.
    pub open spec fn with_addresses(
        self,
        index: int,
        descriptor: u64,
        used: u64,
        available: u64,
    ) -> Self {
        let vring = self.vrings[index];
        let queue = Queue {
            desc_table: self.address(descriptor),
            avail_ring: self.address(available),
            used_ring: self.address(used),
            ..vring.queue
        };
        self.with_vring(index, Vring { queue, ..vring })
    }

    /// The handler with another kick event of the vring at `index`, whose queue is ready now.
    pub open spec fn kicked(self, index: int, fd: Option<B::Event>) -> Self {
        let vring = self.vrings[index];
        let queue = Queue { ready: true, ..vring.queue };
        self.with_vring(index, Vring { kick_fd: fd, queue, ..vring })
    }

    /// The handler with another call event of the vring at `index`.
    pub open spec fn called(self, index: int, fd: Option<B::Event>) -> Self {
        self.with_vring(index, Vring { call_fd: fd, ..self.vrings[index] })
    }

    /// The handler with the vring at `index` enabled or disabled.
    pub open spec fn enabling(self, index: int, enable: bool) -> Self {
        self.with_vring(index, Vring { enabled: enable, ..self.vrings[index] })
    }
}

/// The parts of the guest's memory that a memory table asks to be mapped.
pub open spec fn table_files(contexts: Seq<VhostUserMemoryRegion>, fds: Seq<i32>) -> Result<
    Seq<RegionFile>,
    Error,
> {
    if fds.len() != contexts.len() {
        Err(Error::InvalidParam)
    } else {
        Ok(contexts.map(|i: int, region: VhostUserMemoryRegion| region_file(region, fds[i])))
    }
}

/// Whether `queues` holds `index`.
fn holds_queue(queues: &Vec<usize>, index: usize) -> (r: bool)
    ensures
        r == queues@.contains(index),
{
    let mut i: usize = 0;
    while i < queues.len()
        invariant
            i <= queues.len(),
            forall|k: int| 0 <= k < i ==> queues@[k] != index,
        decreases queues.len() - i,
    {
        if queues[i] == index {
            return true;
        }
        i = i + 1;
    }
    false
}

/// The place of the first group that holds the queue at `index`, or the number of groups.
fn find_group(groups: &Vec<Vec<usize>>, index: usize) -> (r: usize)
    ensures
        r <= groups.len(),
        first_group(groups@.map_values(|queues: Vec<usize>| queues@), index) == (if r
            < groups.len() {
            Some(groups@[r as int]@)
        } else {
            None
        }),
{
    let ghost views = groups@.map_values(|queues: Vec<usize>| queues@);
    let mut i: usize = 0;
    assert(views.skip(0) =~= views);
    while i < groups.len()
        invariant
            i <= groups.len(),
            views == groups@.map_values(|queues: Vec<usize>| queues@),
            first_group(views.skip(i as int), index) == first_group(views, index),
        decreases groups.len() - i,
    {
        assert(views.skip(i as int)[0] == groups@[i as int]@);
        assert(views.skip(i as int).skip(1) =~= views.skip(i + 1));
        if holds_queue(&groups[i], index) {
            return i;
        }
        i = i + 1;
    }
    i
}

impl<B: VhostUserBackend> VhostUserDeviceReqHandler<B> {
    /// Makes the handler of a backend that no frontend has taken yet.
    pub fn new(backend: B) -> (r: Self)
        ensures
            r@.wf(),
            r@ == HandlerView::fresh(backend),
    {
        let mut vrings: Vec<Vring<B::Event>> = Vec::with_capacity(MAX_QUEUE_NUM);
        vrings.push(Vring::new(MAX_VRING_NUM as u16));
        vrings.push(Vring::new(MAX_VRING_NUM as u16));
        VhostUserDeviceReqHandler {
            owned: false,
            features_acked: false,
            queue_num: MAX_QUEUE_NUM,
            vring_num: [0, 0],
            vring_base: [0, 0],
            err_fd: [None, None],
            vu_req: None,
            mem: None,
            vrings,
            backend,
        }
    }

    /// The vrings of the device.
    pub fn vrings(&self) -> (r: &Vec<Vring<B::Event>>)
        ensures
            r@ == self@.vrings,
    {
        &self.vrings
    }

    /// The guest's memory, if it is known.
    pub fn mem(&self) -> (r: Option<&MemInfo<B::GuestMemory>>)
        ensures
            match r {
                Some(mem) => self@.mem == Some(mem@),
                None => self@.mem is None,
            },
    {
        match &self.mem {
            Some(mem) => Some(mem),
            None => None,
        }
    }

    /// The backend that speaks for the device.
    pub fn backend(&self) -> (r: &B)
        ensures
            *r == self@.backend,
    {
        &self.backend
    }

    /// Starts the device with the queue at `index`, if all is ready for it.
    fn potentially_start_dev(&mut self, index: usize)
        requires
            old(self)@.wf(),
            index < MAX_QUEUE_NUM,
            old(self)@.startable(index as int),
        ensures
            final(self)@.wf(),
            old(self)@.started(index as int, final(self)@),
    {
        if self.vrings[index].activated {
            return;
        }
        let groups = self.backend.queues_per_worker();
        let place: usize = find_group(&groups, index);
        if place >= groups.len() {
            return;
        }
        let queues = &groups[place];
        let mut i: usize = 0;
        assert(queues@.skip(0) =~= queues@);
        while i < queues.len()
            invariant
                i <= queues.len(),
                *self == *old(self),
                self@.wf(),
                self@.group_of(index as int) == Some(queues@),
                group_exists(readiness(self.vrings@), queues@.skip(i as int)),
                forall|k: int|
                    0 <= k < i ==> #[trigger] queues@[k] < self.vrings@.len()
                        && self.vrings@[queues@[k] as int].ready(),
            ensures
                *self == *old(self),
                group_ready(readiness(self.vrings@), queues@),
            decreases queues.len() - i,
        {
            assert(queues@.skip(i as int)[0] == queues@[i as int]);
            assert(queues@.skip(i as int).skip(1) =~= queues@.skip(i + 1));
            let q_index: usize = queues[i];
            if self.vrings[q_index].call_fd.is_none() || self.vrings[q_index].kick_fd.is_none()
                || !self.vrings[q_index].enabled {
                assert(queues@[i as int] == q_index);
                assert(!group_ready(readiness(self.vrings@), queues@));
                return;
            }
            i = i + 1;
        }
        self.activate(queues);
    }

    /// Activates the device with a group of queues that are ready.
    fn activate(&mut self, queue_indexes: &Vec<usize>)
        requires
            old(self)@.wf(),
            old(self)@.mem is Some,
            group_ready(readiness(old(self)@.vrings), queue_indexes@),
            queue_indexes@.no_duplicates(),
        ensures
            final(self)@.wf(),
            backend_activates(
                old(self)@.backend,
                old(self)@.mem->0.guest_mem,
                group_interrupts(old(self)@.vrings, queue_indexes@),
                group_queues(old(self)@.vrings, queue_indexes@),
                group_kicks(old(self)@.vrings, queue_indexes@),
                final(self)@.backend,
            ),
            final(self)@ == (HandlerView {
                vrings: group_activated(old(self)@.vrings, queue_indexes@),
                backend: final(self)@.backend,
                ..old(self)@
            }),
    {
        let ghost before = self.vrings@;
        let ghost group = queue_indexes@;
        let mut call_events: Vec<CallEvent<B::Event>> = Vec::new();
        let mut kick_fds: Vec<B::Event> = Vec::new();
        let mut queues: Vec<(usize, Queue)> = Vec::new();
        let mut i: usize = 0;
        assert(group.take(0) =~= Seq::<usize>::empty());
        assert(self.vrings@ =~= group_activated(before, group.take(0)));
        while i < queue_indexes.len()
            invariant
                i <= queue_indexes.len(),
                group == queue_indexes@,
                group.no_duplicates(),
                before == old(self).vrings@,
                before.len() == MAX_QUEUE_NUM,
                group_ready(readiness(before), group),
                self@ == (HandlerView { vrings: self.vrings@, ..old(self)@ }),
                self.vrings@ == group_activated(before, group.take(i as int)),
                call_events@ == group_interrupts(before, group.take(i as int)),
                queues@ == group_queues(before, group.take(i as int)),
                kick_fds@ == group_kicks(before, group.take(i as int)),
            decreases queue_indexes.len() - i,
        {
            let index: usize = queue_indexes[i];
            proof {
                assert(group[i as int] < before.len());
                assert(before[index as int].ready());
                assert(group.take(i + 1) =~= group.take(i as int).push(index));
                assert(!group.take(i as int).contains(index));
                assert(self.vrings@[index as int] == before[index as int]);
            }
            let vring = &mut self.vrings[index];
            let call_fd = vring.call_fd.take();
            let kick_fd = vring.kick_fd.take();
            let queue = vring.queue;
            vring.activated = true;
            match call_fd {
                Some(call_fd) => call_events.push(CallEvent(call_fd)),
                None => {},
            }
            match kick_fd {
                Some(kick_fd) => kick_fds.push(kick_fd),
                None => {},
            }
            queues.push((index, queue));
            proof {
                let part = group.take(i as int);
                let more = group.take(i + 1);
                assert forall|k: usize| more.contains(k) <==> part.contains(k) || k == index by {
                    if part.contains(k) {
                        let j = choose|j: int| 0 <= j < part.len() && part[j] == k;
                        assert(more[j] == k);
                    }
                    assert(more[i as int] == index);
                    if more.contains(k) && k != index {
                        let j = choose|j: int| 0 <= j < more.len() && more[j] == k;
                        assert(part[j] == k);
                    }
                }
                assert(self.vrings@ =~= group_activated(before, more));
                assert(call_events@ =~= group_interrupts(before, more));
                assert(kick_fds@ =~= group_kicks(before, more));
                assert(queues@ =~= group_queues(before, more));
            }
            i = i + 1;
        }
        assert(group.take(i as int) =~= group);
        match &self.mem {
            Some(mem) => {
                self.backend.activate_vhost(&mem.guest_mem, call_events, queues, kick_fds);
            },
            None => {},
        }
    }
}

impl<B: VhostUserBackend> VhostUserDeviceReqHandler<B> {
    /// Takes the device for a frontend.
    pub fn set_owner(&mut self) -> (r: Result<(), Error>)
        requires
            old(self)@.wf(),
        ensures
            final(self)@.wf(),
            (r, final(self)@) == old(self)@.taken(),
    {
        if self.owned {
            return Err(Error::InvalidOperation);
        }
        self.owned = true;
        Ok(())
    }

    /// Gives the device up, and resets it.
    pub fn reset_owner(&mut self) -> (r: Result<(), Error>)
        requires
            old(self)@.wf(),
        ensures
            final(self)@.wf(),
            r == Ok::<(), Error>(()),
            old(self)@.given_up(final(self)@),
    {
        self.owned = false;
        self.features_acked = false;
        self.backend.reset();
        Ok(())
    }

    /// The features that the device offers.
    pub fn get_features(&mut self) -> (r: Result<u64, Error>)
        ensures
            final(self)@ == old(self)@,
            r == Ok::<u64, Error>(old(self)@.features()),
    {
        let features: u64 = self.backend.features() | VIRTIO_TRANSPORT_FEATURES;
        Ok(features)
    }

    /// Acknowledges features that the driver has picked.
    pub fn set_features(&mut self, features: u64) -> (r: Result<(), Error>)
        requires
            old(self)@.wf(),
        ensures
            final(self)@.wf(),
            old(self)@.features_set(features, r, final(self)@),
    {
        if !self.owned {
            return Err(Error::InvalidOperation);
        } else if (features & !(self.backend.features() | VIRTIO_TRANSPORT_FEATURES)) != 0 {
            return Err(Error::InvalidParam);
        }
        self.backend.ack_features(features);
        self.features_acked = true;

        // If VHOST_USER_F_PROTOCOL_FEATURES has not been negotiated,
        // the ring is initialized in an enabled state.
        // If VHOST_USER_F_PROTOCOL_FEATURES has been negotiated,
        // the ring is initialized in a disabled state. Client must not
        // pass data to/from the backend until ring is enabled by
        // VHOST_USER_SET_VRING_ENABLE with parameter 1, or after it has
        // been disabled by VHOST_USER_SET_VRING_ENABLE with parameter 0.
        let vring_enabled: bool = self.backend.acked_features() & virtio_protocol_features() == 0;
        let ghost acked = self@;
        let mut i: usize = 0;
        assert(self.vrings@ =~= rings_enabled(acked.vrings.take(0), vring_enabled)
            + acked.vrings.skip(0));
        while i < self.vrings.len()
            invariant
                i <= self.vrings@.len() == acked.vrings.len(),
                self@ == (HandlerView { vrings: self.vrings@, ..acked }),
                self.vrings@ == rings_enabled(acked.vrings.take(i as int), vring_enabled)
                    + acked.vrings.skip(i as int),
            decreases self.vrings@.len() - i,
        {
            let vring = &mut self.vrings[i];
            vring.enabled = vring_enabled;
            i = i + 1;
            assert(self.vrings@ =~= rings_enabled(acked.vrings.take(i as int), vring_enabled)
                + acked.vrings.skip(i as int));
        }
        assert(self.vrings@ =~= rings_enabled(acked.vrings, vring_enabled));
        Ok(())
    }

    /// The protocol features that the device offers.
    pub fn get_protocol_features(&mut self) -> (r: Result<u64, Error>)
        ensures
            final(self)@ == old(self)@,
            r == Ok::<u64, Error>(old(self)@.backend.offered_protocol()),
    {
        Ok(self.backend.protocol_features())
    }

    /// Acknowledges protocol features that the frontend has picked.
    pub fn set_protocol_features(&mut self, features: u64) -> (r: Result<(), Error>)
        requires
            old(self)@.wf(),
        ensures
            final(self)@.wf(),
            r == Ok::<(), Error>(()),
            old(self)@.protocol_set(features, final(self)@),
    {
        self.backend.ack_protocol_features(features);
        Ok(())
    }

    /// The parts of the guest's memory that a memory table asks to be mapped. Each region comes
    /// with a file descriptor. The caller maps them, and hands the memory to `set_mem_table`.
    pub fn mem_table_files(contexts: &[VhostUserMemoryRegion], fds: &[i32]) -> (r: Result<
        Vec<RegionFile>,
        Error,
    >)
        ensures
            match table_files(contexts@, fds@) {
                Ok(files) => r is Ok && r->Ok_0@ == files,
                Err(e) => r == Err::<Vec<RegionFile>, Error>(e),
            },
    {
        if fds.len() != contexts.len() {
            return Err(Error::InvalidParam);
        }
        let files = pair_regions(contexts, fds);
        assert(files@ =~= contexts@.map(
            |i: int, region: VhostUserMemoryRegion| region_file(region, fds@[i]),
        ));
        Ok(files)
    }

    /// Takes the guest's memory, made of the given regions.
    pub fn set_mem_table(
        &mut self,
        contexts: &[VhostUserMemoryRegion],
        guest_mem: B::GuestMemory,
    ) -> (r: Result<(), Error>)
        requires
            old(self)@.wf(),
        ensures
            final(self)@.wf(),
            r == Ok::<(), Error>(()),
            final(self)@ == old(self)@.with_memory(contexts@, guest_mem),
    {
        let vmm_maps = mappings_of(contexts, contexts.len());
        assert(contexts@.take(contexts@.len() as int) =~= contexts@);
        self.mem = Some(MemInfo { guest_mem, vmm_maps });
        Ok(())
    }

    /// The number of queues that the device has.
    pub fn get_queue_num(&mut self) -> (r: Result<u64, Error>)
        ensures
            final(self)@ == old(self)@,
            r == Ok::<u64, Error>(MAX_QUEUE_NUM as u64),
    {
        Ok(MAX_QUEUE_NUM as u64)
    }

    /// Sets the number of descriptors of a vring.
    pub fn set_vring_num(&mut self, index: u32, num: u32) -> (r: Result<(), Error>)
        requires
            old(self)@.wf(),
        ensures
            final(self)@.wf(),
            (r, final(self)@) == old(self)@.num_set(index, num),
    {
        if index as usize >= self.queue_num || num == 0 || num as usize > MAX_VRING_NUM {
            return Err(Error::InvalidParam);
        }
        self.vring_num[index as usize] = num;
        Ok(())
    }

    /// Sets the addresses of a vring, which the frontend gives as addresses of its own. They lie in
    /// the guest's memory, if it is known.
    pub fn set_vring_addr(
        &mut self,
        index: u32,
        flags: u32,
        descriptor: u64,
        used: u64,
        available: u64,
        log: u64,
    ) -> (r: Result<(), Error>)
        requires
            old(self)@.wf(),
            index < old(self)@.queue_num && old(self)@.mem is Some ==> {
                &&& old(self)@.maps(descriptor)
                &&& old(self)@.maps(available)
                &&& old(self)@.maps(used)
            },
        ensures
            final(self)@.wf(),
            (r, final(self)@) == old(self)@.addr_set(index, descriptor, used, available),
    {
        if index as usize >= self.queue_num {
            return Err(Error::InvalidParam);
        }
        match &self.mem {
            Some(mem) => {
                let desc_table = vmm_va_to_gpa(&mem.vmm_maps, descriptor);
                let avail_ring = vmm_va_to_gpa(&mem.vmm_maps, available);
                let used_ring = vmm_va_to_gpa(&mem.vmm_maps, used);
                let vring = &mut self.vrings[index as usize];
                vring.queue.desc_table = desc_table.unwrap();
                vring.queue.avail_ring = avail_ring.unwrap();
                vring.queue.used_ring = used_ring.unwrap();
                Ok(())
            },
            None => Err(Error::InvalidParam),
        }
    }

    /// Sets the index of the next descriptor of a vring.
    pub fn set_vring_base(&mut self, index: u32, base: u32) -> (r: Result<(), Error>)
        requires
            old(self)@.wf(),
        ensures
            final(self)@.wf(),
            (r, final(self)@) == old(self)@.base_set(index, base),
    {
        if index as usize >= self.queue_num || base as usize >= MAX_VRING_NUM {
            return Err(Error::InvalidParam);
        }
        self.vring_base[index as usize] = base;
        Ok(())
    }

    /// Stops the vrings, and tells the index of the next descriptor of one of them.
    pub fn get_vring_base(&mut self, index: u32) -> (r: Result<VhostUserVringState, Error>)
        requires
            old(self)@.wf(),
        ensures
            final(self)@.wf(),
            (r, final(self)@) == old(self)@.base_got(index),
    {
        if index as usize >= self.queue_num {
            return Err(Error::InvalidParam);
        }
        // Client must start ring upon receiving a kick (that is, detecting
        // that file descriptor is readable) on the descriptor specified by
        // VHOST_USER_SET_VRING_KICK, and stop ring upon receiving
        // VHOST_USER_GET_VRING_BASE.
        let ghost before = self@;
        let mut i: usize = 0;
        assert(self.vrings@ =~= rings_reset(before.vrings.take(0)) + before.vrings.skip(0));
        while i < self.vrings.len()
            invariant
                i <= self.vrings@.len() == before.vrings.len(),
                self@ == (HandlerView { vrings: self.vrings@, ..before }),
                self.vrings@ == rings_reset(before.vrings.take(i as int)) + before.vrings.skip(
                    i as int,
                ),
            decreases self.vrings@.len() - i,
        {
            self.vrings[i].reset();
            i = i + 1;
            assert(self.vrings@ =~= rings_reset(before.vrings.take(i as int)) + before.vrings.skip(
                i as int,
            ));
        }
        assert(self.vrings@ =~= rings_reset(before.vrings));
        Ok(VhostUserVringState { index, num: self.vring_base[index as usize] })
    }

    /// Sets the event by which the driver kicks a vring, and starts the device if all is ready.
    pub fn set_vring_kick(&mut self, index: u8, fd: Option<B::Event>) -> (r: Result<(), Error>)
        requires
            old(self)@.wf(),
            index < old(self)@.queue_num ==> old(self)@.kicked(index as int, fd).startable(
                index as int,
            ),
        ensures
            final(self)@.wf(),
            old(self)@.kick_set(index, fd, r, final(self)@),
    {
        if index as usize >= self.queue_num {
            return Err(Error::InvalidParam);
        }
        let ghost before = self@;
        let vring = &mut self.vrings[index as usize];
        vring.kick_fd = fd;

        // Client must start ring upon receiving a kick (that is, detecting
        // that file descriptor is readable) on the descriptor specified by
        // VHOST_USER_SET_VRING_KICK, and stop ring upon receiving
        // VHOST_USER_GET_VRING_BASE.
        vring.queue.ready = true;
        assert(self@ =~= before.kicked(index as int, fd));
        self.potentially_start_dev(index as usize);
        Ok(())
    }

    /// Sets the event by which a vring interrupts the driver, and starts the device if all is
    /// ready.
    pub fn set_vring_call(&mut self, index: u8, fd: Option<B::Event>) -> (r: Result<(), Error>)
        requires
            old(self)@.wf(),
            index < old(self)@.queue_num ==> old(self)@.called(index as int, fd).startable(
                index as int,
            ),
        ensures
            final(self)@.wf(),
            old(self)@.call_set(index, fd, r, final(self)@),
    {
        if index as usize >= self.queue_num {
            return Err(Error::InvalidParam);
        }
        let ghost before = self@;
        let vring = &mut self.vrings[index as usize];
        vring.call_fd = fd;
        assert(self@ =~= before.called(index as int, fd));
        self.potentially_start_dev(index as usize);
        Ok(())
    }

    /// Sets the event by which a vring tells of errors.
    pub fn set_vring_err(&mut self, index: u8, fd: Option<B::Event>) -> (r: Result<(), Error>)
        requires
            old(self)@.wf(),
        ensures
            final(self)@.wf(),
            (r, final(self)@) == old(self)@.err_set(index, fd),
    {
        if index as usize >= self.queue_num {
            return Err(Error::InvalidParam);
        }
        self.err_fd[index as usize] = fd;
        Ok(())
    }

    /// Enables or disables a vring, and starts the device if all is ready. This request should be
    /// handled only when VHOST_USER_F_PROTOCOL_FEATURES has been negotiated.
    pub fn set_vring_enable(&mut self, index: u32, enable: bool) -> (r: Result<(), Error>)
        requires
            old(self)@.wf(),
            old(self)@.protocol_negotiated() && index < old(self)@.queue_num ==> old(
                self,
            )@.enabling(index as int, enable).startable(index as int),
        ensures
            final(self)@.wf(),
            old(self)@.enable_set(index, enable, r, final(self)@),
    {
        if self.backend.acked_features() & virtio_protocol_features() == 0 {
            return Err(Error::InvalidOperation);
        } else if index as usize >= self.queue_num {
            return Err(Error::InvalidParam);
        }
        // Slave must not pass data to/from the backend until ring is
        // enabled by VHOST_USER_SET_VRING_ENABLE with parameter 1,
        // or after it has been disabled by VHOST_USER_SET_VRING_ENABLE
        // with parameter 0.
        let ghost before = self@;
        let vring = &mut self.vrings[index as usize];
        vring.enabled = enable;
        assert(self@ =~= before.enabling(index as int, enable));
        self.potentially_start_dev(index as usize);
        Ok(())
    }

    /// Reads `size` bytes of the configuration from `offset` on. The end of a read that begins in
    /// the configuration can be counted in 32 bits.
    pub fn get_config(&mut self, offset: u32, size: u32, flags: u32) -> (r: Result<Vec<u8>, Error>)
        requires
            offset < config_end() ==> offset + size <= u32::MAX,
        ensures
            final(self)@ == old(self)@,
            old(self)@.config_got(
                offset,
                size,
                match r {
                    Ok(data) => Ok(data@),
                    Err(e) => Err(e),
                },
            ),
    {
        if offset >= user_config_size() || size + offset > user_config_size() {
            return Err(Error::InvalidParam);
        }
        let mut data: Vec<u8> = vec![0; size as usize];
        assert(data@ =~= Seq::new(size as nat, |i: int| 0u8));
        self.backend.read_config(offset as u64, data.as_mut_slice());
        Ok(data)
    }

    /// Takes a change of the configuration, which has no effect. The length of what is written
    /// counts in 32 bits.
    pub fn set_config(&mut self, offset: u32, buf: &[u8], flags: u32) -> (r: Result<(), Error>)
        ensures
            final(self)@ == old(self)@,
            r == config_write(offset, buf@.len()),
    {
        check_config_write(offset, buf)
    }

    /// Takes a channel for requests to the frontend.
    pub fn set_slave_req_fd(&mut self, vu_req: SlaveFsCacheReq)
        requires
            old(self)@.wf(),
        ensures
            final(self)@.wf(),
            final(self)@ == (HandlerView { vu_req: Some(vu_req), ..old(self)@ }),
    {
        self.vu_req = Some(vu_req);
    }

    /// The number of memory regions that can be added one by one: none.
    pub fn get_max_mem_slots(&mut self) -> (r: Result<u64, Error>)
        ensures
            final(self)@ == old(self)@,
            r == Ok::<u64, Error>(0),
    {
        Ok(0)
    }

    /// Adds a memory region, which has no effect.
    pub fn add_mem_region(&mut self, region: &VhostUserMemoryRegion, fd: i32) -> (r: Result<
        (),
        Error,
    >)
        ensures
            final(self)@ == old(self)@,
            r == Ok::<(), Error>(()),
    {
        Ok(())
    }

    /// Removes a memory region, which has no effect.
    pub fn remove_mem_region(&mut self, region: &VhostUserMemoryRegion) -> (r: Result<(), Error>)
        ensures
            final(self)@ == old(self)@,
            r == Ok::<(), Error>(()),
    {
        Ok(())
    }
}

/// Whether no queue is named twice.
fn names_no_queue_twice(queues: &Vec<usize>) -> (r: bool)
    ensures
        r == queues@.no_duplicates(),
{
    let mut i: usize = 0;
    while i < queues.len()
        invariant
            i <= queues.len(),
            forall|a: int, b: int| 0 <= a < b < i ==> queues@[a] != queues@[b],
        decreases queues.len() - i,
    {
        let mut k: usize = 0;
        while k < i
            invariant
                k <= i < queues.len(),
                forall|a: int| 0 <= a < k ==> queues@[a] != queues@[i as int],
            decreases i - k,
        {
            if queues[k] == queues[i] {
                return false;
            }
            k = k + 1;
        }
        i = i + 1;
    }
    true
}

/// Whether all is there that is looked for in order to start a device with a group of queues.
fn can_start_group(ready: &Vec<bool>, group: &Vec<usize>, has_memory: bool) -> (r: bool)
    ensures
        r == group_startable(ready@, group@, has_memory),
{
    let mut i: usize = 0;
    assert(group@.skip(0) =~= group@);
    while i < group.len()
        invariant
            i <= group.len(),
            group_exists(ready@, group@) == group_exists(ready@, group@.skip(i as int)),
            forall|k: int|
                0 <= k < i ==> #[trigger] group@[k] < ready@.len() && ready@[group@[k] as int],
        decreases group.len() - i,
    {
        assert(group@.skip(i as int)[0] == group@[i as int]);
        assert(group@.skip(i as int).skip(1) =~= group@.skip(i + 1));
        if group[i] >= ready.len() {
            return false;
        }
        if !ready[group[i]] {
            assert(!group_ready(ready@, group@));
            return true;
        }
        i = i + 1;
    }
    assert(group_exists(ready@, group@.skip(i as int)));
    has_memory && names_no_queue_twice(group)
}

impl<B: VhostUserBackend> VhostUserDeviceReqHandler<B> {
    /// Whether all would be there that is looked for in order to start the device with the queue
    /// at `index`, if its vring were ready or not as given.
    fn can_start(&self, index: usize, ready: bool) -> (r: bool)
        requires
            self@.wf(),
            index < MAX_QUEUE_NUM,
        ensures
            r == self@.startable_if(
                index as int,
                readiness(self@.vrings).update(index as int, ready),
            ),
    {
        if self.vrings[index].activated {
            return true;
        }
        let groups = self.backend.queues_per_worker();
        let place: usize = find_group(&groups, index);
        if place >= groups.len() {
            return true;
        }
        let mut all: Vec<bool> = Vec::new();
        let mut i: usize = 0;
        while i < self.vrings.len()
            invariant
                i <= self.vrings.len(),
                all@.len() == i,
                forall|k: int|
                    0 <= k < i ==> #[trigger] all@[k] == (if k == index {
                        ready
                    } else {
                        self.vrings@[k].ready()
                    }),
            decreases self.vrings.len() - i,
        {
            let vring = &self.vrings[i];
            all.push(
                if i == index {
                    ready
                } else {
                    vring.call_fd.is_some() && vring.kick_fd.is_some() && vring.enabled
                },
            );
            i = i + 1;
        }
        assert(all@ =~= readiness(self@.vrings).update(index as int, ready));
        can_start_group(&all, &groups[place], self.mem.is_some())
    }

    /// Sets the event by which the driver kicks a vring, as `set_vring_kick` does, if the device
    /// can be started then; `None` tells that it can't, and nothing has changed.
    pub fn try_set_vring_kick(&mut self, index: u8, fd: Option<B::Event>) -> (r: Option<
        Result<(), Error>,
    >)
        requires
            old(self)@.wf(),
        ensures
            final(self)@.wf(),
            r is None <==> index < old(self)@.queue_num && !old(self)@.kicked(
                index as int,
                fd,
            ).startable(index as int),
            r is None ==> final(self)@ == old(self)@,
            r is Some ==> old(self)@.kick_set(index, fd, r->0, final(self)@),
    {
        if (index as usize) < self.queue_num {
            let vring = &self.vrings[index as usize];
            let ready: bool = vring.call_fd.is_some() && fd.is_some() && vring.enabled;
            proof {
                let after = self@.kicked(index as int, fd);
                assert(readiness(after.vrings) =~= readiness(self@.vrings).update(
                    index as int,
                    ready,
                ));
            }
            if !self.can_start(index as usize, ready) {
                return None;
            }
        }
        Some(self.set_vring_kick(index, fd))
    }

    /// Sets the event by which a vring interrupts the driver, as `set_vring_call` does, if the
    /// device can be started then; `None` tells that it can't, and nothing has changed.
    pub fn try_set_vring_call(&mut self, index: u8, fd: Option<B::Event>) -> (r: Option<
        Result<(), Error>,
    >)
        requires
            old(self)@.wf(),
        ensures
            final(self)@.wf(),
            r is None <==> index < old(self)@.queue_num && !old(self)@.called(
                index as int,
                fd,
            ).startable(index as int),
            r is None ==> final(self)@ == old(self)@,
            r is Some ==> old(self)@.call_set(index, fd, r->0, final(self)@),
    {
        if (index as usize) < self.queue_num {
            let vring = &self.vrings[index as usize];
            let ready: bool = fd.is_some() && vring.kick_fd.is_some() && vring.enabled;
            proof {
                let after = self@.called(index as int, fd);
                assert(readiness(after.vrings) =~= readiness(self@.vrings).update(
                    index as int,
                    ready,
                ));
            }
            if !self.can_start(index as usize, ready) {
                return None;
            }
        }
        Some(self.set_vring_call(index, fd))
    }

    /// Enables or disables a vring, as `set_vring_enable` does, if the device can be started then;
    /// `None` tells that it can't, and nothing has changed.
    pub fn try_set_vring_enable(&mut self, index: u32, enable: bool) -> (r: Option<
        Result<(), Error>,
    >)
        requires
            old(self)@.wf(),
        ensures
            final(self)@.wf(),
            r is None <==> old(self)@.protocol_negotiated() && index < old(self)@.queue_num && !old(
                self,
            )@.enabling(index as int, enable).startable(index as int),
            r is None ==> final(self)@ == old(self)@,
            r is Some ==> old(self)@.enable_set(index, enable, r->0, final(self)@),
    {
        if self.backend.acked_features() & virtio_protocol_features() != 0 && (index as usize)
            < self.queue_num {
            let vring = &self.vrings[index as usize];
            let ready: bool = vring.call_fd.is_some() && vring.kick_fd.is_some() && enable;
            proof {
                let after = self@.enabling(index as int, enable);
                assert(readiness(after.vrings) =~= readiness(self@.vrings).update(
                    index as int,
                    ready,
                ));
            }
            if !self.can_start(index as usize, ready) {
                return None;
            }
        }
        Some(self.set_vring_enable(index, enable))
    }

    /// Whether an address of the vmm lies in the guest's memory, which is known.
    fn is_mapped(&self, vmm_va: u64) -> (r: bool)
        requires
            self@.mem is Some,
        ensures
            r == self@.maps(vmm_va),
    {
        match &self.mem {
            Some(mem) => is_searchable(&mem.vmm_maps, vmm_va) && vmm_va_to_gpa(
                &mem.vmm_maps,
                vmm_va,
            ).is_ok(),
            None => false,
        }
    }

    /// Sets the addresses of a vring, as `set_vring_addr` does, if they lie in the guest's memory;
    /// `None` tells that one does not, and nothing has changed.
    pub fn try_set_vring_addr(
        &mut self,
        index: u32,
        flags: u32,
        descriptor: u64,
        used: u64,
        available: u64,
        log: u64,
    ) -> (r: Option<Result<(), Error>>)
        requires
            old(self)@.wf(),
        ensures
            final(self)@.wf(),
            r is None <==> index < old(self)@.queue_num && old(self)@.mem is Some && !(old(
                self,
            )@.maps(descriptor) && old(self)@.maps(available) && old(self)@.maps(used)),
            r is None ==> final(self)@ == old(self)@,
            r is Some ==> (r->0, final(self)@) == old(self)@.addr_set(
                index,
                descriptor,
                used,
                available,
            ),
    {
        if (index as usize) < self.queue_num && self.mem.is_some() {
            if !self.is_mapped(descriptor) || !self.is_mapped(available) || !self.is_mapped(used) {
                return None;
            }
        }
        Some(self.set_vring_addr(index, flags, descriptor, used, available, log))
    }
}

/// Whether a write of `len` bytes into the configuration from `offset` on is accepted. The length
/// counts in 32 bits.
pub open spec fn config_write(offset: u32, len: nat) -> Result<(), Error> {
    let size = len % 0x1_0000_0000;
    if config_start() <= offset && offset + size <= config_end() && offset < config_end() {
        Ok(())
    } else {
        Err(Error::InvalidParam)
    }
}

/// Whether a write of the configuration from `offset` on is accepted.
pub fn check_config_write(offset: u32, buf: &[u8]) -> (r: Result<(), Error>)
    ensures
        r == config_write(offset, buf@.len()),
{
    let len: u64 = buf.len() as u64;
    let size: u32 = (len % 0x1_0000_0000) as u32;
    if offset < user_config_offset() || offset >= user_config_size() || size > user_config_size()
        - user_config_offset() || size + offset > user_config_size() {
        return Err(Error::InvalidParam);
    }
    Ok(())
}

} // verus!
