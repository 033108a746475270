//! Execution of a single block device request.
//!
//! The disk, the guest memory and the flush timer are the caller's. A [`Request`] says what to do
//! with them, one action at a time, and is told what came of it.

use vstd::prelude::*;

use super::error::ExecuteError;
use crate::le::{read_le32, read_le64};

verus! {

use crate::le::{law_le_value_is_positional, le_value};

/// log2 of the size of a sector.
pub const SECTOR_SHIFT: u8 = 9;

/// The size of a sector in bytes.
pub const SECTOR_SIZE: u64 = 0x200;

/// Read from the disk.
pub const VIRTIO_BLK_T_IN: u32 = 0;

/// Write to the disk.
pub const VIRTIO_BLK_T_OUT: u32 = 1;

/// Commit what was written to the disk.
pub const VIRTIO_BLK_T_FLUSH: u32 = 4;

/// Give up the contents of ranges of the disk.
pub const VIRTIO_BLK_T_DISCARD: u32 = 11;

/// Write zeroes to ranges of the disk.
pub const VIRTIO_BLK_T_WRITE_ZEROES: u32 = 13;

/// The range may be deallocated.
pub const VIRTIO_BLK_DISCARD_WRITE_ZEROES_FLAG_UNMAP: u32 = 1;

/// The size of a request's header, and of a segment, in bytes.
pub const HEADER_SIZE: usize = 16;

/// What requests need to know of the disk.
#[derive(Debug, Clone, Copy, PartialEq, Eq)]
pub struct DiskState {
    /// The size of the disk in bytes. It does not change while a request is executed.
    pub disk_size: u64,
    pub read_only: bool,
    pub sparse: bool,
}

/// The header of a request.
#[derive(Debug, Clone, Copy, PartialEq, Eq)]
pub struct VirtioBlkReqHeader {
    pub req_type: u32,
    pub reserved: u32,
    pub sector: u64,
}

/// The header that stands in the first bytes of a request.
pub open spec fn header_of(bytes: Seq<u8>) -> VirtioBlkReqHeader {
    VirtioBlkReqHeader {
        req_type: le_value(bytes.subrange(0, 4)) as u32,
        reserved: le_value(bytes.subrange(4, 8)) as u32,
        sector: le_value(bytes.subrange(8, 16)) as u64,
    }
}

/// A range of sectors to discard or to fill with zeroes.
#[derive(Debug, Clone, Copy, PartialEq, Eq)]
pub struct VirtioBlkDiscardWriteZeroes {
    pub sector: u64,
    pub num_sectors: u32,
    pub flags: u32,
}

/// The segment that stands in the given bytes.
pub open spec fn segment_of(bytes: Seq<u8>) -> VirtioBlkDiscardWriteZeroes {
    VirtioBlkDiscardWriteZeroes {
        sector: le_value(bytes.subrange(0, 8)) as u64,
        num_sectors: le_value(bytes.subrange(8, 12)) as u32,
        flags: le_value(bytes.subrange(12, 16)) as u32,
    }
}

impl VirtioBlkReqHeader {
    /// Reads a header.
    pub fn from_bytes(bytes: &[u8; 16]) -> (r: Self)
        ensures
            r == header_of(bytes@),
    {
        VirtioBlkReqHeader {
            req_type: read_le32(bytes, 0),
            reserved: read_le32(bytes, 4),
            sector: read_le64(bytes, 8),
        }
    }
}

impl VirtioBlkDiscardWriteZeroes {
    /// Reads a segment.
    pub fn from_bytes(bytes: &[u8; 16]) -> (r: Self)
        ensures
            r == segment_of(bytes@),
    {
        VirtioBlkDiscardWriteZeroes {
            sector: read_le64(bytes, 0),
            num_sectors: read_le32(bytes, 8),
            flags: read_le32(bytes, 12),
        }
    }
}

/// The byte at which a sector begins, if 64 bits can count it.
pub open spec fn sector_offset(sector: u64) -> Option<u64> {
    if sector * SECTOR_SIZE <= u64::MAX {
        Some((sector * SECTOR_SIZE) as u64)
    } else {
        None
    }
}

/// The byte at which a sector begins. One that 64 bits can't count lies on no disk.
fn sector_to_offset(sector: u64) -> (r: Result<u64, ExecuteError>)
    ensures
        r == (match sector_offset(sector) {
            Some(offset) => Ok::<u64, ExecuteError>(offset),
            None => Err(ExecuteError::OutOfRange),
        }),
{
    match sector.checked_mul(SECTOR_SIZE) {
        Some(offset) => Ok(offset),
        None => Err(ExecuteError::OutOfRange),
    }
}

/// The first byte of the range of `io_length` bytes that begins with a sector, if the range lies on
/// a disk of the given size.
pub open spec fn range_start(sector: u64, io_length: u64, disk_size: u64) -> Option<u64> {
    match sector_offset(sector) {
        Some(offset) => if offset + io_length <= disk_size {
            Some(offset)
        } else {
            None
        },
        None => None,
    }
}

/// The number of bytes in a number of sectors.
pub open spec fn sectors_len(num_sectors: u32) -> u64 {
    (num_sectors * SECTOR_SIZE) as u64
}

/// Check that a request accesses only data within the disk's current size.
/// All parameters are in units of bytes.
pub fn check_range(io_start: u64, io_length: u64, disk_size: u64) -> (r: Result<(), ExecuteError>)
    ensures
        r == (if io_start + io_length <= disk_size {
            Ok::<(), ExecuteError>(())
        } else {
            Err(ExecuteError::OutOfRange)
        }),
{
    match io_start.checked_add(io_length) {
        None => Err(ExecuteError::OutOfRange),
        Some(io_end) => if io_end > disk_size {
            Err(ExecuteError::OutOfRange)
        } else {
            Ok(())
        },
    }
}

/// Finds the first byte of the range of `io_length` bytes that begins with a sector, and checks
/// that the range lies on a disk of the given size.
fn locate(sector: u64, io_length: u64, disk_size: u64) -> (r: Result<u64, ExecuteError>)
    ensures
        r == (match range_start(sector, io_length, disk_size) {
            Some(offset) => Ok::<u64, ExecuteError>(offset),
            None => Err(ExecuteError::OutOfRange),
        }),
{
    let offset: u64 = match sector_to_offset(sector) {
        Ok(offset) => offset,
        Err(e) => {
            return Err(e);
        },
    };
    match check_range(offset, io_length, disk_size) {
        Ok(()) => Ok(offset),
        Err(e) => Err(e),
    }
}

/// How far a request has come.
#[derive(Debug, Clone, Copy, PartialEq, Eq)]
pub enum RequestPhase {
    /// Data is read from the disk into guest memory.
    Reading { length: usize, sector: u64 },
    /// Data is written from guest memory to the disk.
    Writing { length: usize, sector: u64 },
    /// The task that flushes the disk after a while is queued.
    QueueingFlush,
    /// A segment is read, of `left` bytes that are left.
    ReadingSegment { left: usize },
    /// A segment is discarded.
    Punching { left: usize },
    /// A segment is filled with zeroes.
    Zeroing { left: usize, segment: VirtioBlkDiscardWriteZeroes },
    /// The disk is flushed.
    Flushing,
    /// Nothing is left to do.
    Finished,
}

/// What is to be done next.
#[derive(Debug, PartialEq, Eq)]
pub enum RequestAction {
    /// Read `data_len` bytes of the disk from `offset` on into the guest's buffers.
    ReadDisk { data_len: usize, offset: u64 },
    /// Write `data_len` bytes of the guest's buffers to the disk from `offset` on.
    WriteDisk { data_len: usize, offset: u64 },
    /// Queue a task that flushes the disk after a while, and tell of it before any other request of
    /// the disk goes on.
    QueueFlushTimer,
    /// Read the next segment out of the guest's buffers.
    ReadSegment,
    /// Deallocate a range of the disk.
    PunchHole { offset: u64, length: u64 },
    /// Fill a range of the disk with zeroes.
    WriteZeroes { offset: u64, length: u64 },
    /// Commit what was written to the disk.
    Fsync,
    /// Nothing: this is the outcome.
    Done(Result<(), ExecuteError>),
}

/// What came of an action.
#[derive(Debug, PartialEq, Eq)]
pub enum RequestEvent {
    /// The data is read, or the text of the failure.
    DiskRead(Result<(), String>),
    /// The data is written, or the text of the failure.
    DiskWritten(Result<(), String>),
    /// Whether the task could be queued.
    FlushTimerQueued(bool),
    /// The next segment, or the text of the failure.
    SegmentRead(Result<[u8; 16], String>),
    /// The range is deallocated, or the text of the failure.
    HolePunched(Result<(), String>),
    /// The range is filled with zeroes, or the text of the failure.
    ZeroesWritten(Result<(), String>),
    /// What was written is committed, or the text of the failure.
    Fsynced(Result<(), String>),
}

/// Where the execution of a request stands.
#[derive(Debug, Clone, Copy, PartialEq, Eq)]
pub struct RequestState {
    pub req_type: u32,
    pub disk_size: u64,
    pub phase: RequestPhase,
}

impl RequestState {
    /// The request is over, with this outcome.
    pub open spec fn done(self, outcome: Result<(), ExecuteError>) -> (
        RequestState,
        RequestAction,
    ) {
        (RequestState { phase: RequestPhase::Finished, ..self }, RequestAction::Done(outcome))
    }

    /// The request goes on with another action.
    pub open spec fn goes_on(self, phase: RequestPhase, action: RequestAction) -> (
        RequestState,
        RequestAction,
    ) {
        (RequestState { phase, ..self }, action)
    }

    /// The next segment is read where `left` bytes hold another.
    pub open spec fn next_segment(self, left: usize) -> (RequestState, RequestAction) {
        if left >= HEADER_SIZE {
            self.goes_on(
                RequestPhase::ReadingSegment { left },
                RequestAction::ReadSegment,
            )
        } else {
            self.done(Ok(()))
        }
    }

    /// The flags that a segment of this request may have.
    pub open spec fn flags_valid(self, flags: u32) -> bool {
        flags == 0 || self.req_type == VIRTIO_BLK_T_WRITE_ZEROES && flags
            == VIRTIO_BLK_DISCARD_WRITE_ZEROES_FLAG_UNMAP
    }

    /// A segment is read, and `left` bytes are left behind it.
    pub open spec fn segment_read(
        self,
        segment: VirtioBlkDiscardWriteZeroes,
        left: usize,
    ) -> (RequestState, RequestAction) {
        let length = sectors_len(segment.num_sectors);
        if !self.flags_valid(segment.flags) {
            self.done(
                Err(
                    ExecuteError::DiscardWriteZeroes {
                        ioerr: None,
                        sector: segment.sector,
                        num_sectors: segment.num_sectors,
                        flags: segment.flags,
                    },
                ),
            )
        } else {
            match range_start(segment.sector, length, self.disk_size) {
                None => self.done(Err(ExecuteError::OutOfRange)),
                Some(offset) => if self.req_type == VIRTIO_BLK_T_DISCARD {
                    self.goes_on(
                        RequestPhase::Punching { left },
                        RequestAction::PunchHole { offset, length },
                    )
                } else {
                    self.goes_on(
                        RequestPhase::Zeroing { left, segment },
                        RequestAction::WriteZeroes { offset, length },
                    )
                },
            }
        }
    }

    /// Whether an event is one that comes of the action of the present phase.
    pub open spec fn accepts(self, event: RequestEvent) -> bool {
        match self.phase {
            RequestPhase::Reading { .. } => event is DiskRead,
            RequestPhase::Writing { .. } => event is DiskWritten,
            RequestPhase::QueueingFlush => event is FlushTimerQueued,
            RequestPhase::ReadingSegment { left } => event is SegmentRead && left >= HEADER_SIZE,
            RequestPhase::Punching { .. } => event is HolePunched,
            RequestPhase::Zeroing { .. } => event is ZeroesWritten,
            RequestPhase::Flushing => event is Fsynced,
            RequestPhase::Finished => false,
        }
    }

    /// What follows when `event`, which the present phase accepts, comes of its action. `armed`
    /// tells whether the flush timer is armed.
    pub open spec fn after(self, armed: bool, event: RequestEvent) -> (
        RequestState,
        RequestAction,
    ) {
        match (self.phase, event) {
            (RequestPhase::Reading { length, sector }, RequestEvent::DiskRead(r)) => match r {
                Ok(_) => self.done(Ok(())),
                Err(desc_error) => self.done(
                    Err(ExecuteError::ReadIo { length, sector, desc_error }),
                ),
            },
            (RequestPhase::Writing { length, sector }, RequestEvent::DiskWritten(r)) => match r {
                Ok(_) => if armed {
                    self.done(Ok(()))
                } else {
                    self.goes_on(
                        RequestPhase::QueueingFlush,
                        RequestAction::QueueFlushTimer,
                    )
                },
                Err(desc_error) => self.done(
                    Err(ExecuteError::WriteIo { length, sector, desc_error }),
                ),
            },
            (RequestPhase::QueueingFlush, RequestEvent::FlushTimerQueued(_)) => {
                self.done(Ok(()))
            },
            (RequestPhase::ReadingSegment { left }, RequestEvent::SegmentRead(r)) => match r {
                Ok(bytes) => self.segment_read(
                    segment_of(bytes@),
                    (left - HEADER_SIZE) as usize,
                ),
                Err(e) => self.done(Err(ExecuteError::Read(e))),
            },
            (RequestPhase::Punching { left }, RequestEvent::HolePunched(_)) => {
                self.next_segment(left)
            },
            (RequestPhase::Zeroing { left, segment }, RequestEvent::ZeroesWritten(r)) => match r {
                Ok(_) => self.next_segment(left),
                Err(e) => self.done(
                    Err(
                        ExecuteError::DiscardWriteZeroes {
                            ioerr: Some(e),
                            sector: segment.sector,
                            num_sectors: segment.num_sectors,
                            flags: segment.flags,
                        },
                    ),
                ),
            },
            (RequestPhase::Flushing, RequestEvent::Fsynced(r)) => match r {
                Ok(_) => self.done(Ok(())),
                Err(e) => self.done(Err(ExecuteError::Flush(e))),
            },
            _ => arbitrary(),
        }
    }
}

/// How the execution of a request begins.
///
/// `readable` bytes of the request are left behind its header, and it has `writable` bytes of
/// buffers for data.
pub open spec fn begin(
    header: Result<[u8; 16], String>,
    readable: usize,
    writable: usize,
    disk: DiskState,
) -> (RequestState, RequestAction) {
    match header {
        Err(e) => {
            let request = RequestState {
                req_type: 0,
                disk_size: disk.disk_size,
                phase: RequestPhase::Finished,
            };
            request.done(Err(ExecuteError::Read(e)))
        },
        Ok(bytes) => begin_header(header_of(bytes@), readable, writable, disk),
    }
}

/// How the execution of a request with the given header begins.
pub open spec fn begin_header(
    header: VirtioBlkReqHeader,
    readable: usize,
    writable: usize,
    disk: DiskState,
) -> (RequestState, RequestAction) {
    let sector = header.sector;
    let request = RequestState {
        req_type: header.req_type,
        disk_size: disk.disk_size,
        phase: RequestPhase::Finished,
    };
    if disk.read_only && header.req_type != VIRTIO_BLK_T_IN {
        request.done(Err(ExecuteError::ReadOnly { request_type: header.req_type }))
    } else if header.req_type == VIRTIO_BLK_T_IN {
        if writable == 0 {
            request.done(Ok(()))
        } else {
            match range_start(sector, writable as u64, disk.disk_size) {
                None => request.done(Err(ExecuteError::OutOfRange)),
                Some(offset) => request.goes_on(
                    RequestPhase::Reading { length: writable, sector },
                    RequestAction::ReadDisk { data_len: writable, offset },
                ),
            }
        }
    } else if header.req_type == VIRTIO_BLK_T_OUT {
        if readable == 0 {
            request.done(Ok(()))
        } else {
            match range_start(sector, readable as u64, disk.disk_size) {
                None => request.done(Err(ExecuteError::OutOfRange)),
                Some(offset) => request.goes_on(
                    RequestPhase::Writing { length: readable, sector },
                    RequestAction::WriteDisk { data_len: readable, offset },
                ),
            }
        }
    } else if header.req_type == VIRTIO_BLK_T_DISCARD {
        if disk.sparse {
            request.next_segment(readable)
        } else {
            request.done(Ok(()))
        }
    } else if header.req_type == VIRTIO_BLK_T_WRITE_ZEROES {
        request.next_segment(readable)
    } else if header.req_type == VIRTIO_BLK_T_FLUSH {
        request.goes_on(RequestPhase::Flushing, RequestAction::Fsync)
    } else {
        request.done(Err(ExecuteError::Unsupported(header.req_type)))
    }
}

/// Whether the flush timer is armed after an event: one that is queued is.
pub open spec fn armed_after(armed: bool, event: RequestEvent) -> bool {
    armed || event == RequestEvent::FlushTimerQueued(true)
}

impl RequestState {
    fn finish(&mut self, outcome: Result<(), ExecuteError>) -> (action: RequestAction)
        ensures
            (*final(self), action) == old(self).done(outcome),
    {
        self.phase = RequestPhase::Finished;
        RequestAction::Done(outcome)
    }

    /// Goes on with the next segment, if `left` bytes hold another.
    fn continue_segments(&mut self, left: usize) -> (action: RequestAction)
        ensures
            (*final(self), action) == old(self).next_segment(left),
    {
        if left >= HEADER_SIZE {
            self.phase = RequestPhase::ReadingSegment { left };
            RequestAction::ReadSegment
        } else {
            self.finish(Ok(()))
        }
    }

    /// Goes on with a segment that was read.
    fn handle_segment(&mut self, segment: VirtioBlkDiscardWriteZeroes, left: usize) -> (action:
        RequestAction)
        ensures
            (*final(self), action) == old(self).segment_read(segment, left),
    {
        let flags: u32 = segment.flags;
        let valid_flags: u32 = if self.req_type == VIRTIO_BLK_T_WRITE_ZEROES {
            VIRTIO_BLK_DISCARD_WRITE_ZEROES_FLAG_UNMAP
        } else {
            0
        };
        assert((flags & !0u32) != 0 <==> flags != 0) by (bit_vector);
        assert((flags & !1u32) != 0 <==> flags != 0 && flags != 1) by (bit_vector);
        if (flags & !valid_flags) != 0 {
            return self.finish(
                Err(
                    ExecuteError::DiscardWriteZeroes {
                        ioerr: None,
                        sector: segment.sector,
                        num_sectors: segment.num_sectors,
                        flags,
                    },
                ),
            );
        }
        let length: u64 = segment.num_sectors as u64 * SECTOR_SIZE;
        let offset: u64 = match locate(segment.sector, length, self.disk_size) {
            Err(e) => {
                return self.finish(Err(e));
            },
            Ok(offset) => offset,
        };
        if self.req_type == VIRTIO_BLK_T_DISCARD {
            self.phase = RequestPhase::Punching { left };
            RequestAction::PunchHole { offset, length }
        } else {
            self.phase = RequestPhase::Zeroing { left, segment };
            RequestAction::WriteZeroes { offset, length }
        }
    }

    /// Begins the execution of a request.
    pub(crate) fn begin_request(
        header: Result<[u8; 16], String>,
        readable: usize,
        writable: usize,
        disk: &DiskState,
    ) -> (r: (RequestState, RequestAction))
        ensures
            r == begin(header, readable, writable, *disk),
    {
        let mut request = RequestState {
            req_type: 0,
            disk_size: disk.disk_size,
            phase: RequestPhase::Finished,
        };
        let header = match header {
            Err(e) => {
                let action = request.finish(Err(ExecuteError::Read(e)));
                return (request, action);
            },
            Ok(bytes) => VirtioBlkReqHeader::from_bytes(&bytes),
        };
        let sector: u64 = header.sector;
        request.req_type = header.req_type;
        if disk.read_only && header.req_type != VIRTIO_BLK_T_IN {
            let action = request.finish(
                Err(ExecuteError::ReadOnly { request_type: header.req_type }),
            );
            return (request, action);
        }
        let action = match header.req_type {
            VIRTIO_BLK_T_IN => {
                if writable == 0 {
                    request.finish(Ok(()))
                } else {
                    match locate(sector, writable as u64, disk.disk_size) {
                        Err(e) => request.finish(Err(e)),
                        Ok(offset) => {
                            request.phase = RequestPhase::Reading { length: writable, sector };
                            RequestAction::ReadDisk { data_len: writable, offset }
                        },
                    }
                }
            },
            VIRTIO_BLK_T_OUT => {
                if readable == 0 {
                    request.finish(Ok(()))
                } else {
                    match locate(sector, readable as u64, disk.disk_size) {
                        Err(e) => request.finish(Err(e)),
                        Ok(offset) => {
                            request.phase = RequestPhase::Writing { length: readable, sector };
                            RequestAction::WriteDisk { data_len: readable, offset }
                        },
                    }
                }
            },
            VIRTIO_BLK_T_DISCARD => {
                // Discard is a hint; if this is a non-sparse disk, just ignore it.
                if disk.sparse {
                    request.continue_segments(readable)
                } else {
                    request.finish(Ok(()))
                }
            },
            VIRTIO_BLK_T_WRITE_ZEROES => request.continue_segments(readable),
            VIRTIO_BLK_T_FLUSH => {
                request.phase = RequestPhase::Flushing;
                RequestAction::Fsync
            },
            t => request.finish(Err(ExecuteError::Unsupported(t))),
        };
        (request, action)
    }

    /// Goes on with the execution of a request.
    pub(crate) fn advance(&mut self, event: RequestEvent, flush_timer_armed: &mut bool) -> (action:
        RequestAction)
        requires
            old(self).accepts(event),
        ensures
            (*final(self), action) == old(self).after(*old(flush_timer_armed), event),
            *final(flush_timer_armed) == armed_after(*old(flush_timer_armed), event),
    {
        match (self.phase, event) {
            (RequestPhase::Reading { length, sector }, RequestEvent::DiskRead(r)) => match r {
                Ok(()) => self.finish(Ok(())),
                Err(desc_error) => self.finish(
                    Err(ExecuteError::ReadIo { length, sector, desc_error }),
                ),
            },
            (RequestPhase::Writing { length, sector }, RequestEvent::DiskWritten(r)) => match r {
                Ok(()) => if *flush_timer_armed {
                    self.finish(Ok(()))
                } else {
                    self.phase = RequestPhase::QueueingFlush;
                    RequestAction::QueueFlushTimer
                },
                Err(desc_error) => self.finish(
                    Err(ExecuteError::WriteIo { length, sector, desc_error }),
                ),
            },
            // A task that can't be queued isn't the client's fault and isn't fatal to disk ops.
            (RequestPhase::QueueingFlush, RequestEvent::FlushTimerQueued(queued)) => {
                if queued {
                    *flush_timer_armed = true;
                }
                self.finish(Ok(()))
            },
            (RequestPhase::ReadingSegment { left }, RequestEvent::SegmentRead(r)) => match r {
                Ok(bytes) => {
                    let segment = VirtioBlkDiscardWriteZeroes::from_bytes(&bytes);
                    self.handle_segment(segment, left - HEADER_SIZE)
                },
                Err(e) => self.finish(Err(ExecuteError::Read(e))),
            },
            // Since Discard is just a hint and some filesystems may not implement
            // FALLOC_FL_PUNCH_HOLE, ignore punch_hole errors.
            (RequestPhase::Punching { left }, RequestEvent::HolePunched(_)) => {
                self.continue_segments(left)
            },
            (RequestPhase::Zeroing { left, segment }, RequestEvent::ZeroesWritten(r)) => match r {
                Ok(()) => self.continue_segments(left),
                Err(e) => self.finish(
                    Err(
                        ExecuteError::DiscardWriteZeroes {
                            ioerr: Some(e),
                            sector: segment.sector,
                            num_sectors: segment.num_sectors,
                            flags: segment.flags,
                        },
                    ),
                ),
            },
            (_, RequestEvent::Fsynced(Err(e))) => self.finish(Err(ExecuteError::Flush(e))),
            _ => self.finish(Ok(())),
        }
    }
}

/// A request that is being executed.
#[derive(Debug, PartialEq, Eq)]
pub struct Request {
    state: RequestState,
}

impl View for Request {
    type V = RequestState;

    closed spec fn view(&self) -> RequestState {
        self.state
    }
}

impl Request {
    /// Begins to execute a single block device request.
    ///
    /// `readable` bytes of the request are left behind its header, and it has `writable` bytes of
    /// buffers for data; the status byte is not included. It is up to the caller to convert the
    /// outcome into a status byte and write it to the expected location in guest memory.
    pub fn execute_request(
        header: Result<[u8; 16], String>,
        readable: usize,
        writable: usize,
        disk: &DiskState,
    ) -> (r: (Request, RequestAction))
        ensures
            (r.0@, r.1) == begin(header, readable, writable, *disk),
    {
        let (state, action) = RequestState::begin_request(header, readable, writable, disk);
        (Request { state }, action)
    }

    /// Takes what came of the last action, and gives the next. `flush_timer_armed` is the flag of
    /// the disk that tells whether its flush timer is armed.
    pub fn step(&mut self, event: RequestEvent, flush_timer_armed: &mut bool) -> (action:
        RequestAction)
        requires
            old(self)@.accepts(event),
        ensures
            (final(self)@, action) == old(self)@.after(*old(flush_timer_armed), event),
            *final(flush_timer_armed) == armed_after(*old(flush_timer_armed), event),
    {
        self.state.advance(event, flush_timer_armed)
    }
}

/// The numbers by which the driver and the device know the types of requests, and their sizes.
pub proof fn law_request_numbers()
    ensures
        VIRTIO_BLK_T_IN == 0,
        VIRTIO_BLK_T_OUT == 1,
        VIRTIO_BLK_T_FLUSH == 4,
        VIRTIO_BLK_T_DISCARD == 11,
        VIRTIO_BLK_T_WRITE_ZEROES == 13,
        VIRTIO_BLK_DISCARD_WRITE_ZEROES_FLAG_UNMAP == 1,
        SECTOR_SHIFT == 9,
        SECTOR_SIZE == 512,
        HEADER_SIZE == 16,
{
}

/// The fields of a header are little-endian numbers that stand one after another, and so are those
/// of a segment.
pub proof fn law_records_are_little_endian(b: Seq<u8>)
    requires
        b.len() == 16,
    ensures
        header_of(b).req_type == b[0] + 0x100 * b[1] + 0x1_0000 * b[2] + 0x100_0000 * b[3],
        header_of(b).reserved == b[4] + 0x100 * b[5] + 0x1_0000 * b[6] + 0x100_0000 * b[7],
        header_of(b).sector == b[8] + 0x100 * b[9] + 0x1_0000 * b[10] + 0x100_0000 * b[11]
            + 0x1_0000_0000 * b[12] + 0x100_0000_0000 * b[13] + 0x1_0000_0000_0000 * b[14]
            + 0x100_0000_0000_0000 * b[15],
        segment_of(b).sector == b[0] + 0x100 * b[1] + 0x1_0000 * b[2] + 0x100_0000 * b[3]
            + 0x1_0000_0000 * b[4] + 0x100_0000_0000 * b[5] + 0x1_0000_0000_0000 * b[6]
            + 0x100_0000_0000_0000 * b[7],
        segment_of(b).num_sectors == b[8] + 0x100 * b[9] + 0x1_0000 * b[10] + 0x100_0000 * b[11],
        segment_of(b).flags == b[12] + 0x100 * b[13] + 0x1_0000 * b[14] + 0x100_0000 * b[15],
{
    law_le_value_is_positional(b.subrange(0, 4));
    law_le_value_is_positional(b.subrange(4, 8));
    law_le_value_is_positional(b.subrange(8, 16));
    law_le_value_is_positional(b.subrange(0, 8));
    law_le_value_is_positional(b.subrange(8, 12));
    law_le_value_is_positional(b.subrange(12, 16));
}

/// A range of the disk begins at 512 times its sector, and lies on the disk exactly if its end
/// does.
pub proof fn law_ranges_lie_on_the_disk(sector: u64, num_sectors: u32, length: u64, disk_size: u64)
    ensures
        sectors_len(num_sectors) == num_sectors * 512,
        match range_start(sector, length, disk_size) {
            Some(offset) => offset == sector * 512 && sector * 512 + length <= disk_size,
            None => sector * 512 + length > disk_size,
        },
{
}

/// The flush timer is armed by a task that could be queued, and by nothing else.
pub proof fn law_queued_task_arms(armed: bool, event: RequestEvent)
    ensures
        armed ==> armed_after(armed, event),
        !armed ==> (armed_after(armed, event) <==> event == RequestEvent::FlushTimerQueued(true)),
{
}

} // verus!
