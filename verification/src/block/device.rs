//! The block device: what it offers to the driver, and the life of its worker.

use vstd::prelude::*;

use super::config::{build_config_space, copy_config, NUM_QUEUES};
use super::request::{DiskState, SECTOR_SIZE};

verus! {

use super::config::{config_copied, config_space, law_config_layout};
use crate::le::le_bytes;

/// The type of a block device.
pub const TYPE_BLOCK: u32 = 2;

/// How many descriptors each queue has.
pub const QUEUE_SIZE: u16 = 256;

pub const VIRTIO_BLK_F_SEG_MAX: u32 = 2;

pub const VIRTIO_BLK_F_RO: u32 = 5;

pub const VIRTIO_BLK_F_BLK_SIZE: u32 = 6;

pub const VIRTIO_BLK_F_FLUSH: u32 = 9;

pub const VIRTIO_BLK_F_MQ: u32 = 12;

pub const VIRTIO_BLK_F_DISCARD: u32 = 13;

pub const VIRTIO_BLK_F_WRITE_ZEROES: u32 = 14;

/// The error number of an invalid argument.
pub open spec fn invalid_argument() -> i32 {
    22
}

/// `EINVAL` of the libc crate, which is 22.
#[verifier::external_body]
fn einval() -> (r: i32)
    ensures
        r == invalid_argument(),
{
    libc::EINVAL
}

/// The feature bit of the given number.
pub open spec fn feature_bit(n: u32) -> u64 {
    1u64 << n
}

/// The features that a block device offers besides those of every virtio device.
pub open spec fn block_features(read_only: bool, sparse: bool) -> u64 {
    feature_bit(VIRTIO_BLK_F_FLUSH) | feature_bit(VIRTIO_BLK_F_SEG_MAX) | feature_bit(
        VIRTIO_BLK_F_BLK_SIZE,
    ) | feature_bit(VIRTIO_BLK_F_MQ) | (if read_only {
        feature_bit(VIRTIO_BLK_F_RO)
    } else if sparse {
        feature_bit(VIRTIO_BLK_F_DISCARD) | feature_bit(VIRTIO_BLK_F_WRITE_ZEROES)
    } else {
        feature_bit(VIRTIO_BLK_F_WRITE_ZEROES)
    })
}

/// The most segments that a request may have where the host takes `iov_max` buffers at once.
///
/// Since indirect descriptors are not supported, the maximum number of segments must be smaller
/// than the queue size. In addition, the request header and status each consume a descriptor.
pub open spec fn max_segments(iov_max: usize) -> u32 {
    if iov_max == 0 {
        1
    } else if iov_max < QUEUE_SIZE - 2 {
        iov_max as u32
    } else {
        (QUEUE_SIZE - 2) as u32
    }
}

/// The number of buffers that the host takes at once, as far as the configuration can tell of it.
pub open spec fn host_segments(iov_max: usize) -> u32 {
    if iov_max == 0 {
        1
    } else if iov_max < u32::MAX {
        iov_max as u32
    } else {
        u32::MAX
    }
}

/// The number of buffers that the host takes at once, at least one.
pub fn host_seg_max(iov_max: usize) -> (r: u32)
    ensures
        r == host_segments(iov_max),
{
    if iov_max == 0 {
        1
    } else if iov_max < u32::MAX as usize {
        iov_max as u32
    } else {
        u32::MAX
    }
}

/// What a block device holds.
pub struct BlockState<K, W, D, C> {
    pub kill_evt: Option<K>,
    pub worker_thread: Option<W>,
    pub disk_image: Option<D>,
    pub disk_size: u64,
    pub avail_features: u64,
    pub read_only: bool,
    pub sparse: bool,
    pub seg_max: u32,
    pub block_size: u32,
    pub control_socket: Option<C>,
}

/// Virtio device for exposing block level read/write operations on a host file.
///
/// `K` stands for the event that kills the worker, `W` for the worker's thread, `D` for the disk
/// image and `C` for the socket over which the disk is controlled.
pub struct BlockAsync<K, W, D, C> {
    kill_evt: Option<K>,
    worker_thread: Option<W>,
    disk_image: Option<D>,
    disk_size: u64,
    avail_features: u64,
    read_only: bool,
    sparse: bool,
    seg_max: u32,
    block_size: u32,
    control_socket: Option<C>,
}

/// What the worker of a device works with.
pub struct Worker<K, D, C> {
    pub disk_image: D,
    pub control_socket: Option<C>,
    pub kill_evt: K,
    pub disk: DiskState,
}

/// What is to be done next to reset a device.
pub enum ResetAction<K, W> {
    /// Write to the kill event.
    WriteKill(K),
    /// Wait for the worker to end.
    Join(W),
    /// Nothing: this tells whether the device is reset.
    Done(bool),
}

/// What came of an action. `D` and `C` are what the worker gives back.
pub enum ResetEvent<D, C> {
    /// Whether the kill event could be written to.
    KillWritten(bool),
    /// What the worker gave back, unless it failed.
    Joined(Option<(D, Option<C>)>),
}

impl<K, W, D, C> BlockState<K, W, D, C> {
    /// A device that is made on a disk image, or the number of the error that prevents it.
    pub open spec fn made(
        base_features: u64,
        disk_image: D,
        disk_len: Result<u64, i32>,
        read_only: bool,
        sparse: bool,
        block_size: u32,
        control_socket: Option<C>,
        iov_max: usize,
    ) -> Result<Self, i32> {
        if block_size % 512 != 0 {
            Err(invalid_argument())
        } else {
            match disk_len {
                Err(errno) => Err(errno),
                Ok(disk_size) => Ok(
                    BlockState {
                        kill_evt: None,
                        worker_thread: None,
                        disk_image: Some(disk_image),
                        disk_size,
                        avail_features: base_features | block_features(read_only, sparse),
                        read_only,
                        sparse,
                        seg_max: max_segments(iov_max),
                        block_size,
                        control_socket,
                    },
                ),
            }
        }
    }

    /// The file descriptors that the device uses.
    pub open spec fn kept_rds(self, disk_rds: Seq<i32>, control_rd: i32) -> Seq<i32> {
        (if self.disk_image is Some {
            disk_rds
        } else {
            Seq::empty()
        }) + (if self.control_socket is Some {
            seq![control_rd]
        } else {
            Seq::empty()
        })
    }

    /// What becomes of `data` when the configuration is read into it from `offset` on.
    pub open spec fn config_read(self, offset: u64, data: Seq<u8>) -> Seq<u8> {
        config_copied(
            data,
            0,
            config_space(self.disk_size, self.seg_max, self.block_size)@,
            offset as int,
        )
    }

    /// The device and its worker after the device is activated with two ends of a kill event.
    pub open spec fn activated(self, device_end: K, worker_end: K) -> (
        Self,
        Option<Worker<K, D, C>>,
    ) {
        match self.disk_image {
            None => (BlockState { kill_evt: Some(device_end), ..self }, None),
            Some(disk_image) => (
                BlockState {
                    kill_evt: Some(device_end),
                    disk_image: None,
                    control_socket: None,
                    ..self
                },
                Some(
                    Worker {
                        disk_image,
                        control_socket: self.control_socket,
                        kill_evt: worker_end,
                        disk: DiskState {
                            disk_size: self.disk_size,
                            read_only: self.read_only,
                            sparse: self.sparse,
                        },
                    },
                ),
            ),
        }
    }

    /// The device after its worker is started.
    pub open spec fn started(self, worker: W) -> Self {
        BlockState { worker_thread: Some(worker), ..self }
    }

    /// The worker is waited for, if there is one.
    pub open spec fn joining(self) -> (Self, ResetAction<K, W>) {
        match self.worker_thread {
            Some(worker) => (
                BlockState { worker_thread: None, ..self },
                ResetAction::Join(worker),
            ),
            None => (self, ResetAction::Done(false)),
        }
    }

    /// How the device begins to be reset.
    pub open spec fn resetting(self) -> (Self, ResetAction<K, W>) {
        match self.kill_evt {
            Some(kill_evt) => (
                BlockState { kill_evt: None, ..self },
                ResetAction::WriteKill(kill_evt),
            ),
            None => self.joining(),
        }
    }

    /// How the device goes on to be reset.
    pub open spec fn reset_after(self, event: ResetEvent<D, C>) -> (Self, ResetAction<K, W>) {
        match event {
            ResetEvent::KillWritten(written) => if written {
                self.joining()
            } else {
                (self, ResetAction::Done(false))
            },
            ResetEvent::Joined(None) => (self, ResetAction::Done(false)),
            ResetEvent::Joined(Some((disk_image, control_socket))) => (
                BlockState { disk_image: Some(disk_image), control_socket, ..self },
                ResetAction::Done(true),
            ),
        }
    }
}

impl<K, W, D, C> View for BlockAsync<K, W, D, C> {
    type V = BlockState<K, W, D, C>;

    closed spec fn view(&self) -> BlockState<K, W, D, C> {
        BlockState {
            kill_evt: self.kill_evt,
            worker_thread: self.worker_thread,
            disk_image: self.disk_image,
            disk_size: self.disk_size,
            avail_features: self.avail_features,
            read_only: self.read_only,
            sparse: self.sparse,
            seg_max: self.seg_max,
            block_size: self.block_size,
            control_socket: self.control_socket,
        }
    }
}

impl<K, W, D, C> BlockAsync<K, W, D, C> {
    /// Create a new virtio block device that operates on the given disk image.
    ///
    /// `disk_len` is the size of the image in bytes, or the error number of the failure to learn
    /// it. `iov_max` is the number of buffers that the host takes at once. The block size is a
    /// multiple of the sector size, and not zero.
    pub fn new(
        base_features: u64,
        disk_image: D,
        disk_len: Result<u64, i32>,
        read_only: bool,
        sparse: bool,
        block_size: u32,
        control_socket: Option<C>,
        iov_max: usize,
    ) -> (r: Result<BlockAsync<K, W, D, C>, i32>)
        requires
            block_size != 0 || disk_len is Err,
        ensures
            match BlockState::<K, W, D, C>::made(
                base_features,
                disk_image,
                disk_len,
                read_only,
                sparse,
                block_size,
                control_socket,
                iov_max,
            ) {
                Ok(state) => r is Ok && r->Ok_0@ == state,
                Err(errno) => r is Err && r->Err_0 == errno,
            },
    {
        if block_size % SECTOR_SIZE as u32 != 0 {
            return Err(einval());
        }
        let disk_size: u64 = match disk_len {
            Ok(len) => len,
            Err(errno) => {
                return Err(errno);
            },
        };
        let mut avail_features: u64 = base_features;
        avail_features = avail_features | (1u64 << VIRTIO_BLK_F_FLUSH);
        if read_only {
            avail_features = avail_features | (1u64 << VIRTIO_BLK_F_RO);
        } else {
            if sparse {
                avail_features = avail_features | (1u64 << VIRTIO_BLK_F_DISCARD);
            }
            avail_features = avail_features | (1u64 << VIRTIO_BLK_F_WRITE_ZEROES);
        }
        avail_features = avail_features | (1u64 << VIRTIO_BLK_F_SEG_MAX);
        avail_features = avail_features | (1u64 << VIRTIO_BLK_F_BLK_SIZE);
        avail_features = avail_features | (1u64 << VIRTIO_BLK_F_MQ);
        proof {
            lemma_feature_order(base_features, read_only, sparse);
        }
        let host: u32 = host_seg_max(iov_max);
        let limit: u32 = QUEUE_SIZE as u32 - 2;
        let seg_max: u32 = if host < limit {
            host
        } else {
            limit
        };
        Ok(
            BlockAsync {
                kill_evt: None,
                worker_thread: None,
                disk_image: Some(disk_image),
                disk_size,
                avail_features,
                read_only,
                sparse,
                seg_max,
                block_size,
                control_socket,
            },
        )
    }

    /// The file descriptors that the device uses: those of the disk image, if the device has it,
    /// and that of the control socket, if the device has one.
    pub fn keep_rds(&self, disk_rds: Vec<i32>, control_rd: i32) -> (r: Vec<i32>)
        ensures
            r@ == self@.kept_rds(disk_rds@, control_rd),
    {
        let mut keep_rds: Vec<i32> = match &self.disk_image {
            Some(_) => disk_rds,
            None => Vec::new(),
        };
        match &self.control_socket {
            Some(_) => keep_rds.push(control_rd),
            None => {},
        }
        keep_rds
    }

    /// The features that the device offers.
    pub fn features(&self) -> (r: u64)
        ensures
            r == self@.avail_features,
    {
        self.avail_features
    }

    /// The type of the device.
    pub fn device_type(&self) -> (r: u32)
        ensures
            r == TYPE_BLOCK,
    {
        TYPE_BLOCK
    }

    /// How many descriptors each queue may have.
    pub fn queue_max_sizes(&self) -> (r: [u16; 16])
        ensures
            r@ == Seq::new(NUM_QUEUES as nat, |i: int| QUEUE_SIZE),
    {
        let sizes = [QUEUE_SIZE; 16];
        assert(sizes@ =~= Seq::new(NUM_QUEUES as nat, |i: int| QUEUE_SIZE));
        sizes
    }

    /// Reads the configuration space from `offset` on. What lies behind its end is left as it is.
    pub fn read_config(&self, offset: u64, data: &mut [u8])
        ensures
            final(data)@ == self@.config_read(offset, old(data)@),
    {
        let config = build_config_space(self.disk_size, self.seg_max, self.block_size);
        let bytes = config.as_slice();
        copy_config(data, 0, bytes.as_slice(), offset);
    }

    /// Activates the device in the guest's own process, which is not supported: nothing happens.
    pub fn activate(&mut self)
        ensures
            final(self)@ == old(self)@,
    {
    }

    /// Activates the device for a vhost-user frontend. `kill_evts` are two ends of a new kill
    /// event, or the text of the failure to create it.
    ///
    /// Gives what the worker works with, if there is to be one; the caller starts its thread, and
    /// tells of it by `worker_started`. A thread that can't be started takes it all along.
    pub fn activate_vhost(&mut self, kill_evts: Result<(K, K), String>) -> (r: Option<
        Worker<K, D, C>,
    >)
        ensures
            match kill_evts {
                Err(_) => r is None && final(self)@ == old(self)@,
                Ok((device_end, worker_end)) => (final(self)@, r) == old(self)@.activated(
                    device_end,
                    worker_end,
                ),
            },
    {
        let (self_kill_evt, kill_evt) = match kill_evts {
            Ok(ends) => ends,
            Err(_) => {
                return None;
            },
        };
        self.kill_evt = Some(self_kill_evt);
        let disk = DiskState {
            disk_size: self.disk_size,
            read_only: self.read_only,
            sparse: self.sparse,
        };
        match self.disk_image.take() {
            Some(disk_image) => {
                let control_socket = self.control_socket.take();
                Some(Worker { disk_image, control_socket, kill_evt, disk })
            },
            None => None,
        }
    }

    /// Takes the thread of the worker.
    pub fn worker_started(&mut self, worker: W)
        ensures
            final(self)@ == old(self)@.started(worker),
    {
        self.worker_thread = Some(worker);
    }

    /// Goes on to wait for the worker, if there is one.
    fn join_worker(&mut self) -> (r: ResetAction<K, W>)
        ensures
            (final(self)@, r) == old(self)@.joining(),
    {
        match self.worker_thread.take() {
            Some(worker) => ResetAction::Join(worker),
            None => ResetAction::Done(false),
        }
    }

    /// Begins to reset the device.
    pub fn reset(&mut self) -> (r: ResetAction<K, W>)
        ensures
            (final(self)@, r) == old(self)@.resetting(),
    {
        match self.kill_evt.take() {
            Some(kill_evt) => ResetAction::WriteKill(kill_evt),
            None => self.join_worker(),
        }
    }

    /// Takes what came of the last action, and goes on to reset the device.
    pub fn reset_step(&mut self, event: ResetEvent<D, C>) -> (r: ResetAction<K, W>)
        ensures
            (final(self)@, r) == old(self)@.reset_after(event),
    {
        match event {
            ResetEvent::KillWritten(written) => {
                if written {
                    self.join_worker()
                } else {
                    ResetAction::Done(false)
                }
            },
            ResetEvent::Joined(None) => ResetAction::Done(false),
            ResetEvent::Joined(Some((disk_image, control_socket))) => {
                self.disk_image = Some(disk_image);
                self.control_socket = control_socket;
                ResetAction::Done(true)
            },
        }
    }

    /// Gives up the kill event, to be written to, and then the worker, to be waited for. This is
    /// for a device that is about to be dropped: it does not matter whether either fails.
    pub fn shut_down(&mut self) -> (r: (Option<K>, Option<W>))
        ensures
            r == (old(self)@.kill_evt, old(self)@.worker_thread),
            final(self)@ == (BlockState { kill_evt: None, worker_thread: None, ..old(self)@ }),
    {
        (self.kill_evt.take(), self.worker_thread.take())
    }
}

/// The order in which features are added does not matter.
proof fn lemma_feature_order(base: u64, read_only: bool, sparse: bool)
    ensures
        ({
            let flush = base | feature_bit(VIRTIO_BLK_F_FLUSH);
            let kind = if read_only {
                flush | feature_bit(VIRTIO_BLK_F_RO)
            } else if sparse {
                flush | feature_bit(VIRTIO_BLK_F_DISCARD) | feature_bit(VIRTIO_BLK_F_WRITE_ZEROES)
            } else {
                flush | feature_bit(VIRTIO_BLK_F_WRITE_ZEROES)
            };
            kind | feature_bit(VIRTIO_BLK_F_SEG_MAX) | feature_bit(VIRTIO_BLK_F_BLK_SIZE)
                | feature_bit(VIRTIO_BLK_F_MQ)
        }) == base | block_features(read_only, sparse),
{
    let f = feature_bit(VIRTIO_BLK_F_FLUSH);
    let s = feature_bit(VIRTIO_BLK_F_SEG_MAX);
    let b = feature_bit(VIRTIO_BLK_F_BLK_SIZE);
    let m = feature_bit(VIRTIO_BLK_F_MQ);
    let r = feature_bit(VIRTIO_BLK_F_RO);
    let d = feature_bit(VIRTIO_BLK_F_DISCARD);
    let w = feature_bit(VIRTIO_BLK_F_WRITE_ZEROES);
    assert(base | f | r | s | b | m == base | (f | s | b | m | r)) by (bit_vector);
    assert(base | f | w | s | b | m == base | (f | s | b | m | w)) by (bit_vector);
    assert(base | f | d | w | s | b | m == base | (f | s | b | m | (d | w))) by (bit_vector);
}

/// The features of a writable disk that is sparse are flushing, discard, write-zeroes, segments,
/// the block size and several queues; without discard where it is not sparse; and with the mark of
/// a read-only disk in place of discard and write-zeroes where it may not be written to.
pub proof fn law_block_features_are_exact(sparse: bool)
    ensures
        block_features(false, true) == 0x7244,
        block_features(false, false) == 0x5244,
        block_features(true, sparse) == 0x1264,
{
    assert((1u64 << 9u32) | (1u64 << 2u32) | (1u64 << 6u32) | (1u64 << 12u32) | ((1u64 << 13u32)
        | (1u64 << 14u32)) == 0x7244) by (bit_vector);
    assert((1u64 << 9u32) | (1u64 << 2u32) | (1u64 << 6u32) | (1u64 << 12u32) | (1u64 << 14u32)
        == 0x5244) by (bit_vector);
    assert((1u64 << 9u32) | (1u64 << 2u32) | (1u64 << 6u32) | (1u64 << 12u32) | (1u64 << 5u32)
        == 0x1264) by (bit_vector);
}

/// A read-only disk is offered as such, and never with the features that change its contents; a
/// writable disk is never offered as read-only.
pub proof fn law_read_only_is_offered(sparse: bool)
    ensures
        block_features(true, sparse) & feature_bit(VIRTIO_BLK_F_RO) != 0,
        block_features(true, sparse) & feature_bit(VIRTIO_BLK_F_DISCARD) == 0,
        block_features(true, sparse) & feature_bit(VIRTIO_BLK_F_WRITE_ZEROES) == 0,
        block_features(false, sparse) & feature_bit(VIRTIO_BLK_F_RO) == 0,
{
    law_block_features_are_exact(sparse);
    assert(0x1264u64 & (1u64 << 5u32) != 0) by (bit_vector);
    assert(0x1264u64 & (1u64 << 13u32) == 0) by (bit_vector);
    assert(0x1264u64 & (1u64 << 14u32) == 0) by (bit_vector);
    assert(0x7244u64 & (1u64 << 5u32) == 0) by (bit_vector);
    assert(0x5244u64 & (1u64 << 5u32) == 0) by (bit_vector);
}

/// A device that is activated and then reset has its disk image and its control socket again, once
/// its worker has given them back.
pub proof fn law_reset_undoes_activation<K, W, D, C>(
    device: BlockState<K, W, D, C>,
    device_end: K,
    worker_end: K,
    thread: W,
)
    requires
        device.kill_evt is None,
        device.worker_thread is None,
        device.disk_image is Some,
    ensures
        ({
            let (active, worker) = device.activated(device_end, worker_end);
            let (notified, notify) = active.started(thread).resetting();
            let (joining, join) = notified.reset_after(ResetEvent::KillWritten(true));
            let worker = worker->0;
            let (idle, outcome) = joining.reset_after(
                ResetEvent::Joined(Some((worker.disk_image, worker.control_socket))),
            );
            &&& notify == ResetAction::<K, W>::WriteKill(device_end)
            &&& join == ResetAction::<K, W>::Join(thread)
            &&& outcome == ResetAction::<K, W>::Done(true)
            &&& idle == device
        }),
{
}

/// The numbers by which the driver knows the device and its features.
pub proof fn law_device_numbers()
    ensures
        TYPE_BLOCK == 2,
        QUEUE_SIZE == 256,
        VIRTIO_BLK_F_SEG_MAX == 2,
        VIRTIO_BLK_F_RO == 5,
        VIRTIO_BLK_F_BLK_SIZE == 6,
        VIRTIO_BLK_F_FLUSH == 9,
        VIRTIO_BLK_F_MQ == 12,
        VIRTIO_BLK_F_DISCARD == 13,
        VIRTIO_BLK_F_WRITE_ZEROES == 14,
        invalid_argument() == 22,
{
}

/// The number of segments is what the host takes, but one at least, and 254 at most.
pub proof fn law_segments_fit_into_a_queue(iov_max: usize)
    ensures
        iov_max == 0 ==> max_segments(iov_max) == 1 && host_segments(iov_max) == 1,
        1 <= iov_max <= 254 ==> max_segments(iov_max) == iov_max,
        iov_max > 254 ==> max_segments(iov_max) == 254,
        1 <= iov_max <= 0xffff_ffff ==> host_segments(iov_max) == iov_max,
        iov_max > 0xffff_ffff ==> host_segments(iov_max) == 0xffff_ffff,
{
}

/// A worker works on the disk that the device has, with the device's own size, and may write to it
/// exactly if the device was made writable, which is what the driver was told. `base_features` are
/// those that the device was made with.
pub proof fn law_worker_gets_the_disk<K, W, D, C>(
    device: BlockState<K, W, D, C>,
    base_features: u64,
    device_end: K,
    worker_end: K,
)
    requires
        device.disk_image is Some,
    ensures
        ({
            let (active, worker) = device.activated(device_end, worker_end);
            &&& worker is Some
            &&& worker->0.disk_image == device.disk_image->0
            &&& worker->0.control_socket == device.control_socket
            &&& worker->0.kill_evt == worker_end
            &&& worker->0.disk.disk_size == device.disk_size
            &&& worker->0.disk.read_only == device.read_only
            &&& worker->0.disk.sparse == device.sparse
            &&& base_features & 0x20 == 0 && device.avail_features == base_features
                | block_features(device.read_only, device.sparse) ==> (worker->0.disk.read_only
                <==> device.avail_features & 0x20 != 0)
            &&& active.kill_evt == Some(device_end)
            &&& active.disk_image is None
            &&& active.control_socket is None
            &&& same_device(device, active)
            &&& active.worker_thread == device.worker_thread
        }),
{
    law_block_features_are_exact(device.sparse);
    let f = block_features(device.read_only, device.sparse);
    assert((base_features | 0x1264u64) & 0x20 != 0) by (bit_vector);
    assert(base_features & 0x20 == 0 ==> (base_features | 0x7244u64) & 0x20 == 0) by (bit_vector);
    assert(base_features & 0x20 == 0 ==> (base_features | 0x5244u64) & 0x20 == 0) by (bit_vector);
}

/// What a device was made with has not changed.
pub open spec fn same_device<K, W, D, C>(
    before: BlockState<K, W, D, C>,
    after: BlockState<K, W, D, C>,
) -> bool {
    &&& after.disk_size == before.disk_size
    &&& after.avail_features == before.avail_features
    &&& after.read_only == before.read_only
    &&& after.sparse == before.sparse
    &&& after.seg_max == before.seg_max
    &&& after.block_size == before.block_size
}

/// A device that does not have its disk image starts no worker, and only keeps the kill event.
pub proof fn law_no_worker_without_a_disk<K, W, D, C>(
    device: BlockState<K, W, D, C>,
    device_end: K,
    worker_end: K,
)
    requires
        device.disk_image is None,
    ensures
        ({
            let (active, worker) = device.activated(device_end, worker_end);
            &&& worker is None
            &&& active.kill_evt == Some(device_end)
            &&& active.disk_image is None
            &&& active.control_socket == device.control_socket
            &&& active.worker_thread == device.worker_thread
            &&& same_device(device, active)
        }),
{
}

/// A started worker is kept, and nothing else changes.
pub proof fn law_started_worker_is_kept<K, W, D, C>(device: BlockState<K, W, D, C>, worker: W)
    ensures
        device.started(worker).worker_thread == Some(worker),
        device.started(worker).kill_evt == device.kill_evt,
        device.started(worker).disk_image == device.disk_image,
        device.started(worker).control_socket == device.control_socket,
        same_device(device, device.started(worker)),
{
}

/// A reset notifies the kill event first, if there is one, and then waits for the worker, if there
/// is one; each is given up. Without a worker to wait for, the device is not reset.
pub proof fn law_reset_kills_and_waits<K, W, D, C>(device: BlockState<K, W, D, C>)
    ensures
        ({
            let (after, action) = device.resetting();
            &&& same_device(device, after)
            &&& after.kill_evt is None
            &&& after.disk_image == device.disk_image
            &&& after.control_socket == device.control_socket
            &&& match (device.kill_evt, device.worker_thread) {
                (Some(kill), _) => action == ResetAction::<K, W>::WriteKill(kill)
                    && after.worker_thread == device.worker_thread,
                (None, Some(worker)) => action == ResetAction::<K, W>::Join(worker)
                    && after.worker_thread is None,
                (None, None) => action == ResetAction::<K, W>::Done(false) && after.worker_thread
                    is None,
            }
        }),
        ({
            let (after, action) = device.reset_after(ResetEvent::KillWritten(true));
            &&& same_device(device, after)
            &&& after.kill_evt == device.kill_evt
            &&& after.disk_image == device.disk_image
            &&& after.control_socket == device.control_socket
            &&& after.worker_thread is None
            &&& match device.worker_thread {
                Some(worker) => action == ResetAction::<K, W>::Join(worker),
                None => action == ResetAction::<K, W>::Done(false),
            }
        }),
{
}

/// A kill event that can't be notified, and a worker that failed, leave the device as it is, and
/// not reset; what a worker gives back is the device's again, which is reset by that.
pub proof fn law_reset_needs_the_worker<K, W, D, C>(
    device: BlockState<K, W, D, C>,
    disk_image: D,
    control_socket: Option<C>,
)
    ensures
        device.reset_after(ResetEvent::KillWritten(false)) == (
            device,
            ResetAction::<K, W>::Done(false),
        ),
        device.reset_after(ResetEvent::Joined(None)) == (device, ResetAction::<K, W>::Done(false)),
        ({
            let (after, action) = device.reset_after(
                ResetEvent::Joined(Some((disk_image, control_socket))),
            );
            &&& action == ResetAction::<K, W>::Done(true)
            &&& after.disk_image == Some(disk_image)
            &&& after.control_socket == control_socket
            &&& after.kill_evt == device.kill_evt
            &&& after.worker_thread == device.worker_thread
            &&& same_device(device, after)
        }),
{
}

/// A device is made exactly if its block size is a whole number of sectors and the size of the disk
/// is known; it then has what it was made with, is not active, and offers the features of a device
/// of its kind besides those of every device.
pub proof fn law_device_is_what_it_was_made_with<K, W, D, C>(
    base_features: u64,
    disk_image: D,
    disk_len: Result<u64, i32>,
    read_only: bool,
    sparse: bool,
    block_size: u32,
    control_socket: Option<C>,
    iov_max: usize,
)
    ensures
        ({
            let made = BlockState::<K, W, D, C>::made(
                base_features,
                disk_image,
                disk_len,
                read_only,
                sparse,
                block_size,
                control_socket,
                iov_max,
            );
            &&& block_size % 512 != 0 ==> made == Err::<BlockState<K, W, D, C>, i32>(22)
            &&& block_size % 512 == 0 && disk_len is Err ==> made == Err::<
                BlockState<K, W, D, C>,
                i32,
            >(disk_len->Err_0)
            &&& block_size % 512 == 0 && disk_len is Ok ==> {
                let device = made->Ok_0;
                &&& made is Ok
                &&& device.kill_evt is None && device.worker_thread is None
                &&& device.disk_image == Some(disk_image)
                &&& device.control_socket == control_socket
                &&& device.disk_size == disk_len->Ok_0
                &&& device.read_only == read_only
                &&& device.sparse == sparse
                &&& device.block_size == block_size
                &&& device.seg_max == max_segments(iov_max)
                &&& device.avail_features == base_features | (if read_only {
                    0x1264u64
                } else if sparse {
                    0x7244u64
                } else {
                    0x5244u64
                })
            }
        }),
{
    law_block_features_are_exact(sparse);
}

/// The descriptors of the disk image are kept if the device has it, and behind them that of the
/// control socket if the device has one.
pub proof fn law_descriptors_of_what_is_there_are_kept<K, W, D, C>(
    device: BlockState<K, W, D, C>,
    disk_rds: Seq<i32>,
    control_rd: i32,
)
    ensures
        device.disk_image is Some && device.control_socket is Some ==> device.kept_rds(
            disk_rds,
            control_rd,
        ) == disk_rds.push(control_rd),
        device.disk_image is Some && device.control_socket is None ==> device.kept_rds(
            disk_rds,
            control_rd,
        ) == disk_rds,
        device.disk_image is None && device.control_socket is Some ==> device.kept_rds(
            disk_rds,
            control_rd,
        ) == seq![control_rd],
        device.disk_image is None && device.control_socket is None ==> device.kept_rds(
            disk_rds,
            control_rd,
        ).len() == 0,
{
    let kept = device.kept_rds(disk_rds, control_rd);
    assert(device.disk_image is Some && device.control_socket is Some ==> kept =~= disk_rds.push(
        control_rd,
    ));
    assert(device.disk_image is Some && device.control_socket is None ==> kept =~= disk_rds);
    assert(device.disk_image is None && device.control_socket is Some ==> kept =~= seq![
        control_rd,
    ]);
}

/// The driver reads from the configuration the size of the disk in whole sectors, the number of
/// segments and the block size of the device, and beyond the 60 bytes of it nothing.
pub proof fn law_driver_reads_the_device<K, W, D, C>(
    device: BlockState<K, W, D, C>,
    offset: u64,
    data: Seq<u8>,
    i: int,
)
    requires
        0 <= i < data.len(),
    ensures
        device.config_read(offset, data).len() == data.len(),
        offset + i >= 60 ==> device.config_read(offset, data)[i] == data[i],
        offset + i < 60 ==> {
            let config = config_space(device.disk_size, device.seg_max, device.block_size);
            &&& device.config_read(offset, data)[i] == config@[offset + i]
            &&& config@.subrange(0, 8) == le_bytes(device.disk_size as nat / 512, 8)
            &&& config@.subrange(12, 16) == le_bytes(device.seg_max as nat, 4)
            &&& config@.subrange(20, 24) == le_bytes(device.block_size as nat, 4)
        },
{
    law_config_layout(config_space(device.disk_size, device.seg_max, device.block_size));
}

} // verus!
