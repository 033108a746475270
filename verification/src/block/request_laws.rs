//! What holds of every execution of a block device request.

use vstd::prelude::*;

use super::error::ExecuteError;
use super::request::{
    DiskState, RequestState, RequestAction, RequestEvent, RequestPhase, HEADER_SIZE,
    SECTOR_SIZE,
    VIRTIO_BLK_T_DISCARD, VIRTIO_BLK_T_FLUSH, VIRTIO_BLK_T_IN, VIRTIO_BLK_T_OUT,
    VIRTIO_BLK_T_WRITE_ZEROES,
};

verus! {

use super::request::{armed_after, begin, header_of, sectors_len, segment_of};

/// An execution of a request, as far as it has come: the states that the request went through and
/// the actions that it took, the first of each at the start; what came of the actions; and whether
/// the flush timer was armed at each of these events.
pub struct Execution {
    pub header: Result<[u8; 16], String>,
    pub readable: usize,
    pub writable: usize,
    pub disk: DiskState,
    pub requests: Seq<RequestState>,
    pub actions: Seq<RequestAction>,
    pub events: Seq<RequestEvent>,
    pub armed: Seq<bool>,
}

impl Execution {
    /// Each state and action follows from what came before it.
    pub open spec fn valid(self) -> bool {
        &&& self.requests.len() == self.events.len() + 1
        &&& self.actions.len() == self.events.len() + 1
        &&& (self.requests[0], self.actions[0]) == begin(
            self.header,
            self.readable,
            self.writable,
            self.disk,
        )
        &&& forall|i: int| #[trigger] self.step_valid(i)
    }

    /// The state and the action behind the event at `i` follow from it.
    pub open spec fn step_valid(self, i: int) -> bool {
        0 <= i < self.events.len() ==> {
            &&& self.requests[i].accepts(self.events[i])
            &&& (self.requests[i + 1], self.actions[i + 1]) == self.requests[i].after(
                self.armed[i],
                self.events[i],
            )
        }
    }

    /// The type of the request.
    pub open spec fn req_type(self) -> u32 {
        header_of(self.header->Ok_0@).req_type
    }

    /// Whether the request consists of segments that are gone through.
    pub open spec fn has_segments(self) -> bool {
        &&& self.header is Ok
        &&& !self.disk.read_only
        &&& {
            ||| self.req_type() == VIRTIO_BLK_T_WRITE_ZEROES
            ||| self.req_type() == VIRTIO_BLK_T_DISCARD && self.disk.sparse
        }
    }

    /// How many segments the request has.
    pub open spec fn segments(self) -> int {
        self.readable as int / HEADER_SIZE as int
    }
}

/// The bytes of the disk that an action reads or changes: the first of them, and how many.
pub open spec fn accessed(action: RequestAction) -> Option<(int, int)> {
    match action {
        RequestAction::ReadDisk { data_len, offset } => Some((offset as int, data_len as int)),
        RequestAction::WriteDisk { data_len, offset } => Some((offset as int, data_len as int)),
        RequestAction::PunchHole { offset, length } => Some((offset as int, length as int)),
        RequestAction::WriteZeroes { offset, length } => Some((offset as int, length as int)),
        _ => None,
    }
}

/// Whether an action changes what the disk holds.
pub open spec fn modifies(action: RequestAction) -> bool {
    action is WriteDisk || action is PunchHole || action is WriteZeroes
}

/// Where an execution stands behind `i` events.
spec fn progress(e: Execution, i: int) -> bool {
    let request = e.requests[i];
    let action = e.actions[i];
    &&& request.disk_size == e.disk.disk_size
    &&& e.header is Ok ==> request.req_type == e.req_type()
    &&& action is Done <==> request.phase is Finished
    &&& match request.phase {
        RequestPhase::Reading { .. } => {
            i == 0 && e.header is Ok && e.req_type() == VIRTIO_BLK_T_IN && action is ReadDisk
        },
        RequestPhase::Writing { .. } => {
            i == 0 && e.header is Ok && e.req_type() == VIRTIO_BLK_T_OUT && !e.disk.read_only
        },
        RequestPhase::QueueingFlush => {
            i == 1 && e.header is Ok && e.req_type() == VIRTIO_BLK_T_OUT && !e.disk.read_only
        },
        RequestPhase::ReadingSegment { left } => {
            &&& e.has_segments()
            &&& i % 2 == 0
            &&& left == e.readable - HEADER_SIZE * (i / 2)
            &&& left >= HEADER_SIZE
            &&& action is ReadSegment
        },
        RequestPhase::Punching { left } => {
            &&& e.has_segments()
            &&& e.req_type() == VIRTIO_BLK_T_DISCARD
            &&& i % 2 == 1
            &&& left == e.readable - HEADER_SIZE * (i / 2 + 1)
        },
        RequestPhase::Zeroing { left, .. } => {
            &&& e.has_segments()
            &&& e.req_type() == VIRTIO_BLK_T_WRITE_ZEROES
            &&& i % 2 == 1
            &&& left == e.readable - HEADER_SIZE * (i / 2 + 1)
        },
        RequestPhase::Flushing => {
            i == 0 && e.header is Ok && e.req_type() == VIRTIO_BLK_T_FLUSH && !e.disk.read_only
        },
        RequestPhase::Finished => {
            &&& i <= 2 * e.segments() + 2
            &&& e.has_segments() && action->Done_0 is Ok ==> i == 2 * e.segments()
        },
    }
}

proof fn lemma_progress(e: Execution, i: int)
    requires
        e.valid(),
        0 <= i < e.requests.len(),
    ensures
        progress(e, i),
    decreases i,
{
    if i > 0 {
        lemma_progress(e, i - 1);
        assert(e.step_valid(i - 1));
        let k = (i - 1) / 2;
        match e.requests[i - 1].phase {
            RequestPhase::ReadingSegment { left } => {
                assert(i / 2 == k);
            },
            RequestPhase::Punching { left } => {
                assert(i / 2 == k + 1);
            },
            RequestPhase::Zeroing { left, .. } => {
                assert(i / 2 == k + 1);
            },
            _ => {},
        }
    }
}

/// A request accesses only data within the size of the disk.
pub proof fn law_accesses_stay_on_the_disk(e: Execution, i: int)
    requires
        e.valid(),
        0 <= i < e.actions.len(),
    ensures
        accessed(e.actions[i]) matches Some((offset, length)) ==> 0 <= offset && 0 <= length
            && offset + length <= e.disk.disk_size,
{
    lemma_progress(e, i);
    if i > 0 {
        lemma_progress(e, i - 1);
        assert(e.step_valid(i - 1));
    }
}

/// A request never changes a disk that is read-only. One that is not a read is refused at once.
pub proof fn law_read_only_disk_is_left_alone(e: Execution, i: int)
    requires
        e.valid(),
        e.disk.read_only,
        0 <= i < e.actions.len(),
    ensures
        !modifies(e.actions[i]),
        e.actions[i] !is Fsync,
        e.header is Ok && e.req_type() != VIRTIO_BLK_T_IN ==> e.actions == seq![
            RequestAction::Done(Err(ExecuteError::ReadOnly { request_type: e.req_type() })),
        ],
{
    lemma_progress(e, i);
    lemma_progress(e, 0);
    if i > 0 {
        lemma_progress(e, i - 1);
        assert(e.step_valid(i - 1));
    }
    if e.events.len() > 0 {
        assert(e.step_valid(0));
    }
}

/// Every request comes to an end: with each segment it takes two actions, and two besides.
pub proof fn law_request_ends(e: Execution)
    requires
        e.valid(),
    ensures
        e.events.len() <= 2 * e.segments() + 2,
{
    lemma_progress(e, e.events.len() as int);
}

/// A request that has its outcome takes no further action.
pub proof fn law_outcome_is_last(e: Execution, i: int)
    requires
        e.valid(),
        0 <= i < e.actions.len(),
        e.actions[i] is Done,
    ensures
        i == e.actions.len() - 1,
{
    lemma_progress(e, i);
    if i < e.events.len() {
        assert(e.step_valid(i));
    }
}

/// What was done for the segment at `k`: it was read, and its range was discarded or filled with
/// zeroes. Zeroes were written without failure; a range that could not be discarded stays as it
/// is.
pub open spec fn segment_done(e: Execution, k: int) -> bool {
    let segment = segment_of(e.events[2 * k]->SegmentRead_0->Ok_0@);
    let offset = (segment.sector * SECTOR_SIZE) as u64;
    let length = sectors_len(segment.num_sectors);
    &&& segment.sector * SECTOR_SIZE <= u64::MAX
    &&& e.actions[2 * k] is ReadSegment
    &&& e.events[2 * k] matches RequestEvent::SegmentRead(read)
    &&& read is Ok
    &&& if e.req_type() == VIRTIO_BLK_T_DISCARD {
        &&& e.actions[2 * k + 1] == (RequestAction::PunchHole { offset, length })
        &&& e.events[2 * k + 1] is HolePunched
    } else {
        &&& e.actions[2 * k + 1] == (RequestAction::WriteZeroes { offset, length })
        &&& e.events[2 * k + 1] matches RequestEvent::ZeroesWritten(written)
        &&& written is Ok
    }
}

/// A discard or write-zeroes request that is executed has gone through all of its segments, one
/// by one.
pub proof fn law_all_segments_are_done(e: Execution)
    requires
        e.valid(),
        e.has_segments(),
        e.actions.last() == RequestAction::Done(Ok(())),
    ensures
        e.events.len() == 2 * e.segments(),
        forall|k: int| 0 <= k < e.segments() ==> #[trigger] segment_done(e, k),
{
    let n = e.events.len() as int;
    lemma_progress(e, n);
    assert(e.segments() >= 0);
    assert forall|k: int| 0 <= k < e.segments() implies #[trigger] segment_done(e, k) by {
        let i = 2 * k;
        lemma_progress(e, i);
        lemma_progress(e, i + 1);
        lemma_progress(e, i + 2);
        assert(e.step_valid(i));
        assert(e.step_valid(i + 1));
        if e.actions[i] is Done {
            law_outcome_is_last(e, i);
        }
        if e.actions[i + 1] is Done {
            law_outcome_is_last(e, i + 1);
        }
        if e.actions[i + 2] is Done {
            law_outcome_is_last(e, i + 2);
        }
    }
}

/// Discard is a hint: on a disk that is not sparse it is ignored.
pub proof fn law_discard_of_dense_disk_is_ignored(e: Execution)
    requires
        e.valid(),
        e.header is Ok,
        e.req_type() == VIRTIO_BLK_T_DISCARD,
        !e.disk.read_only,
        !e.disk.sparse,
    ensures
        e.actions == seq![RequestAction::Done(Ok(()))],
{
    lemma_progress(e, 0);
    if e.events.len() > 0 {
        assert(e.step_valid(0));
    }
}

/// A failure to discard is no failure of the request.
pub proof fn law_discard_failure_is_ignored(
    request: RequestState,
    armed: bool,
    failure: String,
)
    requires
        request.phase is Punching,
    ensures
        request.after(armed, RequestEvent::HolePunched(Err(failure))) == request.after(
            armed,
            RequestEvent::HolePunched(Ok(())),
        ),
{
}

/// A read or write of data moves all of the data in one go, from or to the byte at which the
/// sector begins; one that goes beyond the end of the disk is refused.
pub proof fn law_data_request_is_exact(
    bytes: [u8; 16],
    readable: usize,
    writable: usize,
    disk: DiskState,
)
    requires
        header_of(bytes@).req_type == VIRTIO_BLK_T_IN || header_of(bytes@).req_type
            == VIRTIO_BLK_T_OUT && !disk.read_only,
    ensures
        ({
            let header = header_of(bytes@);
            let action = begin(Ok(bytes), readable, writable, disk).1;
            let start = header.sector * 512;
            let length = if header.req_type == VIRTIO_BLK_T_IN {
                writable
            } else {
                readable
            };
            if length == 0 {
                action == RequestAction::Done(Ok(()))
            } else if start + length > disk.disk_size {
                action == RequestAction::Done(Err(ExecuteError::OutOfRange))
            } else if header.req_type == VIRTIO_BLK_T_IN {
                action == (RequestAction::ReadDisk { data_len: length, offset: start as u64 })
            } else {
                action == (RequestAction::WriteDisk { data_len: length, offset: start as u64 })
            }
        }),
{
}

/// A write that is executed leaves the flush timer armed, unless the task that waits for it could
/// not be queued.
pub proof fn law_write_arms_the_flush_timer(e: Execution)
    requires
        e.valid(),
        e.armed.len() == e.events.len(),
        e.header is Ok,
        e.req_type() == VIRTIO_BLK_T_OUT,
        !e.disk.read_only,
        e.readable > 0,
        e.actions.last() == RequestAction::Done(Ok(())),
    ensures
        armed_after(e.armed.last(), e.events.last()) || e.events.last()
            == RequestEvent::FlushTimerQueued(false),
{
    let n = e.events.len() as int;
    lemma_progress(e, 0);
    lemma_progress(e, n);
    if n > 0 {
        assert(e.step_valid(0));
        assert(e.step_valid(n - 1));
        lemma_progress(e, n - 1);
    }
}

/// The driver is told that a request is not supported only where the disk may be written to and
/// the type of the request is none of those that the device knows.
pub proof fn law_unsupported_means_unknown_type(e: Execution, i: int, t: u32)
    requires
        e.valid(),
        0 <= i < e.actions.len(),
        e.actions[i] == RequestAction::Done(Err(ExecuteError::Unsupported(t))),
    ensures
        i == 0,
        e.header is Ok,
        t == e.req_type(),
        !e.disk.read_only,
        ![
            VIRTIO_BLK_T_IN,
            VIRTIO_BLK_T_OUT,
            VIRTIO_BLK_T_FLUSH,
            VIRTIO_BLK_T_DISCARD,
            VIRTIO_BLK_T_WRITE_ZEROES,
        ]@.contains(t),
{
    if i > 0 {
        lemma_progress(e, i - 1);
        assert(e.step_valid(i - 1));
    }
}

/// What a disk holds after bytes are written to it from `offset` on.
pub open spec fn overwritten(contents: Seq<u8>, offset: int, data: Seq<u8>) -> Seq<u8> {
    Seq::new(
        contents.len(),
        |i: int|
            if offset <= i < offset + data.len() {
                data[i - offset]
            } else {
                contents[i]
            },
    )
}

/// What a disk holds after an action of a request that brings `data` along, if it went well. What a
/// discarded range holds is left open: this speaks of the other actions.
pub open spec fn disk_after(
    contents: Seq<u8>,
    data: Seq<u8>,
    action: RequestAction,
    event: RequestEvent,
) -> Seq<u8> {
    match (action, event) {
        (RequestAction::WriteDisk { offset, .. }, RequestEvent::DiskWritten(Ok(_))) => {
            overwritten(contents, offset as int, data)
        },
        (RequestAction::WriteZeroes { offset, length }, RequestEvent::ZeroesWritten(Ok(_))) => {
            overwritten(contents, offset as int, Seq::new(length as nat, |i: int| 0u8))
        },
        _ => contents,
    }
}

/// What an action that reads from the disk puts into the guest's buffers.
pub open spec fn data_read(contents: Seq<u8>, action: RequestAction) -> Seq<u8> {
    match action {
        RequestAction::ReadDisk { data_len, offset } => {
            contents.subrange(offset as int, offset + data_len)
        },
        _ => Seq::empty(),
    }
}

impl Execution {
    /// The sector of the request.
    pub open spec fn sector(self) -> u64 {
        header_of(self.header->Ok_0@).sector
    }

    /// What the disk holds after `n` actions of a request that brings `data` along.
    pub open spec fn contents_at(self, contents: Seq<u8>, data: Seq<u8>, n: int) -> Seq<u8>
        decreases n,
    {
        if n <= 0 {
            contents
        } else {
            disk_after(
                self.contents_at(contents, data, n - 1),
                data,
                self.actions[n - 1],
                self.events[n - 1],
            )
        }
    }

    /// What the disk holds after what has been done for a request that brings `data` along.
    pub open spec fn contents_after(self, contents: Seq<u8>, data: Seq<u8>) -> Seq<u8> {
        self.contents_at(contents, data, self.events.len() as int)
    }
}

/// What a write request has written, a read request of the same length at the same sector gives
/// back; and no other byte of the disk has changed.
pub proof fn law_read_gives_back_what_was_written(
    write: Execution,
    read: Execution,
    contents: Seq<u8>,
    data: Seq<u8>,
)
    requires
        write.valid(),
        write.header is Ok,
        write.req_type() == VIRTIO_BLK_T_OUT,
        write.readable == data.len(),
        write.actions.last() == RequestAction::Done(Ok(())),
        !write.disk.read_only,
        read.valid(),
        read.header is Ok,
        read.req_type() == VIRTIO_BLK_T_IN,
        read.writable == data.len(),
        read.sector() == write.sector(),
        read.disk == write.disk,
        contents.len() == write.disk.disk_size,
        data.len() > 0,
    ensures
        read.actions[0] is ReadDisk,
        data_read(write.contents_after(contents, data), read.actions[0]) == data,
        write.contents_after(contents, data).len() == contents.len(),
        forall|i: int|
            0 <= i < contents.len() && !(write.sector() * 512 <= i < write.sector() * 512
                + data.len()) ==> #[trigger] write.contents_after(contents, data)[i] == contents[i],
{
    let n = write.events.len() as int;
    lemma_progress(write, n);
    lemma_progress(write, 0);
    if n > 0 {
        assert(write.step_valid(0));
        lemma_progress(write, 1);
    }
    if n > 1 {
        assert(write.step_valid(1));
        lemma_progress(write, 2);
    }
    if n > 2 {
        assert(write.step_valid(2));
    }
    let start = (write.sector() * SECTOR_SIZE) as int;
    let written = overwritten(contents, start, data);
    assert(write.contents_at(contents, data, 0) == contents);
    assert(write.contents_at(contents, data, 1) == written);
    assert(n == 2 ==> write.contents_at(contents, data, 2) == written);
    assert(data_read(written, read.actions[0]) =~= data);
}

/// A request that is no write, discard or write-zeroes leaves the disk as it is.
pub proof fn law_other_requests_change_nothing(
    e: Execution,
    contents: Seq<u8>,
    data: Seq<u8>,
    n: int,
)
    requires
        e.valid(),
        e.header is Ok ==> ![
            VIRTIO_BLK_T_OUT,
            VIRTIO_BLK_T_DISCARD,
            VIRTIO_BLK_T_WRITE_ZEROES,
        ]@.contains(e.req_type()),
        0 <= n <= e.events.len(),
    ensures
        e.contents_at(contents, data, n) == contents,
    decreases n,
{
    let types = [VIRTIO_BLK_T_OUT, VIRTIO_BLK_T_DISCARD, VIRTIO_BLK_T_WRITE_ZEROES]@;
    assert(types[0] == VIRTIO_BLK_T_OUT && types[1] == VIRTIO_BLK_T_DISCARD && types[2]
        == VIRTIO_BLK_T_WRITE_ZEROES);
    if n > 0 {
        law_other_requests_change_nothing(e, contents, data, n - 1);
        lemma_progress(e, n - 1);
        if n > 1 {
            lemma_progress(e, n - 2);
            assert(e.step_valid(n - 2));
        }
    }
}

/// Whether the range of the segment at `k` holds the byte at `i`.
pub open spec fn segment_covers(e: Execution, k: int, i: int) -> bool {
    let segment = segment_of(e.events[2 * k]->SegmentRead_0->Ok_0@);
    segment.sector * 512 <= i < segment.sector * 512 + segment.num_sectors * 512
}

/// Whether the range of one of the first `m` segments holds the byte at `i`.
pub open spec fn covered(e: Execution, m: int, i: int) -> bool {
    exists|k: int| 0 <= k < m && #[trigger] segment_covers(e, k, i)
}

proof fn lemma_zeroed(e: Execution, contents: Seq<u8>, data: Seq<u8>, m: int, i: int)
    requires
        e.valid(),
        e.has_segments(),
        e.req_type() == VIRTIO_BLK_T_WRITE_ZEROES,
        e.actions.last() == RequestAction::Done(Ok(())),
        0 <= m <= e.segments(),
        0 <= i < contents.len(),
    ensures
        e.contents_at(contents, data, 2 * m).len() == contents.len(),
        e.contents_at(contents, data, 2 * m)[i] == (if covered(e, m, i) {
            0
        } else {
            contents[i]
        }),
    decreases m,
{
    law_all_segments_are_done(e);
    if m > 0 {
        let k = m - 1;
        lemma_zeroed(e, contents, data, k, i);
        assert(segment_done(e, k));
        let before = e.contents_at(contents, data, 2 * k);
        assert(e.contents_at(contents, data, 2 * k + 1) == before);
        assert(e.contents_at(contents, data, 2 * m) == disk_after(
            before,
            data,
            e.actions[2 * k + 1],
            e.events[2 * k + 1],
        ));
        if segment_covers(e, k, i) {
            assert(covered(e, m, i));
        }
        if covered(e, k, i) {
            let j = choose|j: int| 0 <= j < k && #[trigger] segment_covers(e, j, i);
            assert(segment_covers(e, j, i));
        }
        if covered(e, m, i) && !segment_covers(e, k, i) {
            let j = choose|j: int| 0 <= j < m && #[trigger] segment_covers(e, j, i);
            assert(segment_covers(e, j, i));
        }
    }
}

/// A write-zeroes request that is executed has filled the ranges of its segments with zeroes, and
/// changed no other byte of the disk.
pub proof fn law_zeroed_ranges_hold_zeroes(e: Execution, contents: Seq<u8>, data: Seq<u8>, i: int)
    requires
        e.valid(),
        e.has_segments(),
        e.req_type() == VIRTIO_BLK_T_WRITE_ZEROES,
        e.actions.last() == RequestAction::Done(Ok(())),
        0 <= i < contents.len(),
    ensures
        e.contents_after(contents, data).len() == contents.len(),
        e.contents_after(contents, data)[i] == (if covered(e, e.segments(), i) {
            0
        } else {
            contents[i]
        }),
{
    law_all_segments_are_done(e);
    assert(e.segments() >= 0);
    lemma_zeroed(e, contents, data, e.segments(), i);
}

/// A request whose header can't be read does nothing but fail.
pub proof fn law_unreadable_header_fails(e: Execution)
    requires
        e.valid(),
        e.header is Err,
    ensures
        e.actions == seq![RequestAction::Done(Err(ExecuteError::Read(e.header->Err_0)))],
{
    lemma_progress(e, 0);
    assert(e.step_valid(0));
}

/// A flush commits the disk before all else, and succeeds only by that.
pub proof fn law_flush_commits_the_disk(e: Execution)
    requires
        e.valid(),
        e.header is Ok,
        e.req_type() == 4,
        !e.disk.read_only,
    ensures
        e.actions[0] is Fsync,
        e.events.len() <= 1,
        e.actions.last() == RequestAction::Done(Ok(())) ==> e.events.len() == 1 && (e.events[0]
            matches RequestEvent::Fsynced(r) && r is Ok),
        e.events.len() == 1 ==> match e.events[0] {
            RequestEvent::Fsynced(Ok(_)) => e.actions[1] == RequestAction::Done(Ok(())),
            RequestEvent::Fsynced(Err(x)) => e.actions[1] == RequestAction::Done(
                Err(ExecuteError::Flush(x)),
            ),
            _ => false,
        },
{
    lemma_progress(e, 0);
    assert(e.step_valid(0));
    assert(e.step_valid(1));
    if e.events.len() > 0 {
        lemma_progress(e, 1);
    }
}

/// A read brings all the data that there is room for, from the byte at which its sector begins, and
/// succeeds only by that; one that goes beyond the end of the disk is refused, and one without room
/// for data does nothing.
pub proof fn law_read_request(e: Execution)
    requires
        e.valid(),
        e.header is Ok,
        e.req_type() == 0,
    ensures
        e.writable == 0 ==> e.actions == seq![RequestAction::Done(Ok(()))],
        e.writable > 0 && e.sector() * 512 + e.writable > e.disk.disk_size ==> e.actions == seq![
            RequestAction::Done(Err(ExecuteError::OutOfRange)),
        ],
        e.writable > 0 && e.sector() * 512 + e.writable <= e.disk.disk_size ==> {
            &&& e.actions[0] == (RequestAction::ReadDisk {
                data_len: e.writable,
                offset: (e.sector() * 512) as u64,
            })
            &&& e.events.len() <= 1
            &&& e.events.len() == 1 ==> match e.events[0] {
                RequestEvent::DiskRead(Ok(_)) => e.actions[1] == RequestAction::Done(Ok(())),
                RequestEvent::DiskRead(Err(desc_error)) => e.actions[1] == RequestAction::Done(
                    Err(
                        ExecuteError::ReadIo {
                            length: e.writable,
                            sector: e.sector(),
                            desc_error,
                        },
                    ),
                ),
                _ => false,
            }
        },
{
    lemma_progress(e, 0);
    assert(e.step_valid(0));
    assert(e.step_valid(1));
    if e.events.len() > 0 {
        lemma_progress(e, 1);
    }
}

/// A write takes all the data that the request brings to the byte at which its sector begins, and
/// succeeds only by that; one that goes beyond the end of the disk is refused, and one without data
/// does nothing. Behind it a flush is queued, unless one is waiting already; whether that works out
/// does not matter.
pub proof fn law_write_request(e: Execution)
    requires
        e.valid(),
        e.header is Ok,
        e.req_type() == 1,
        !e.disk.read_only,
    ensures
        e.readable == 0 ==> e.actions == seq![RequestAction::Done(Ok(()))],
        e.readable > 0 && e.sector() * 512 + e.readable > e.disk.disk_size ==> e.actions == seq![
            RequestAction::Done(Err(ExecuteError::OutOfRange)),
        ],
        e.readable > 0 && e.sector() * 512 + e.readable <= e.disk.disk_size ==> {
            &&& e.actions[0] == (RequestAction::WriteDisk {
                data_len: e.readable,
                offset: (e.sector() * 512) as u64,
            })
            &&& e.events.len() >= 1 ==> match e.events[0] {
                RequestEvent::DiskWritten(Ok(_)) => if e.armed[0] {
                    e.actions[1] == RequestAction::Done(Ok(()))
                } else {
                    e.actions[1] is QueueFlushTimer
                },
                RequestEvent::DiskWritten(Err(desc_error)) => e.actions[1] == RequestAction::Done(
                    Err(
                        ExecuteError::WriteIo {
                            length: e.readable,
                            sector: e.sector(),
                            desc_error,
                        },
                    ),
                ),
                _ => false,
            }
            &&& e.events.len() >= 2 ==> {
                &&& e.events.len() == 2
                &&& e.actions[1] is QueueFlushTimer
                &&& e.events[1] is FlushTimerQueued
                &&& e.actions[2] == RequestAction::Done(Ok(()))
            }
        },
{
    lemma_progress(e, 0);
    assert(e.step_valid(0));
    assert(e.step_valid(1));
    assert(e.step_valid(2));
    if e.events.len() > 0 {
        lemma_progress(e, 1);
    }
    if e.events.len() > 1 {
        lemma_progress(e, 2);
    }
}

/// A request of a type that the device does not know is refused by its type.
pub proof fn law_unknown_types_are_refused(e: Execution)
    requires
        e.valid(),
        e.header is Ok,
        !e.disk.read_only,
        e.req_type() != 0 && e.req_type() != 1 && e.req_type() != 4 && e.req_type() != 11
            && e.req_type() != 13,
    ensures
        e.actions == seq![RequestAction::Done(Err(ExecuteError::Unsupported(e.req_type())))],
{
    lemma_progress(e, 0);
    assert(e.step_valid(0));
}

/// A discard of a sparse disk, and a write-zeroes, read a segment and do it, and then the next;
/// where fewer than 16 bytes are left they succeed.
pub proof fn law_segments_are_read_one_by_one(e: Execution, i: int)
    requires
        e.valid(),
        e.header is Ok,
        !e.disk.read_only,
        e.req_type() == 13 || e.req_type() == 11 && e.disk.sparse,
        0 <= i < e.events.len(),
    ensures
        i % 2 == 0 ==> e.actions[i] is ReadSegment && e.events[i] is SegmentRead,
        i % 2 == 1 && e.req_type() == 11 ==> e.actions[i] is PunchHole && e.events[i]
            is HolePunched,
        i % 2 == 1 && e.req_type() == 13 ==> e.actions[i] is WriteZeroes && e.events[i]
            is ZeroesWritten,
        i % 2 == 1 && (e.events[i] is HolePunched || (e.events[i] matches
            RequestEvent::ZeroesWritten(r) && r is Ok)) ==> if e.readable >= 8 * (i + 1) + 16 {
            e.actions[i + 1] is ReadSegment
        } else {
            e.actions[i + 1] == RequestAction::Done(Ok(()))
        },
{
    lemma_progress(e, 0);
    lemma_progress(e, i);
    lemma_progress(e, i + 1);
    assert(e.step_valid(i));
    if i > 0 {
        lemma_progress(e, i - 1);
        assert(e.step_valid(i - 1));
    }
    if i % 2 == 1 {
        assert(16 * (i / 2 + 1) == 8 * (i + 1));
    }
}

/// A discard or write-zeroes that brings no whole segment is over at once.
pub proof fn law_short_segment_list_is_done(e: Execution)
    requires
        e.valid(),
        e.header is Ok,
        !e.disk.read_only,
        e.req_type() == 13 || e.req_type() == 11,
        e.readable < 16,
    ensures
        e.actions == seq![RequestAction::Done(Ok(()))],
{
    lemma_progress(e, 0);
    assert(e.step_valid(0));
}

/// A discard of a sparse disk, and a write-zeroes, begin with their first segment.
pub proof fn law_first_segment_is_read(e: Execution)
    requires
        e.valid(),
        e.header is Ok,
        !e.disk.read_only,
        e.req_type() == 13 || e.req_type() == 11 && e.disk.sparse,
        e.readable >= 16,
    ensures
        e.actions[0] is ReadSegment,
{
    lemma_progress(e, 0);
}

/// What becomes of a segment that was read: one with flags that its request does not know, and one
/// that goes beyond the end of the disk, are refused; the range of any other, from 512 times its
/// first sector on and 512 times as long as it has sectors, is discarded or filled with zeroes. The
/// only flag that there is goes with write-zeroes.
pub proof fn law_segment_is_exact(e: Execution, i: int, bytes: [u8; 16])
    requires
        e.valid(),
        e.header is Ok,
        0 <= i < e.events.len(),
        e.events[i] == RequestEvent::SegmentRead(Ok(bytes)),
    ensures
        ({
            let segment = segment_of(bytes@);
            let (sector, num_sectors, flags) = (
                segment.sector,
                segment.num_sectors,
                segment.flags,
            );
            let next = e.actions[i + 1];
            if flags > 1 || flags == 1 && e.req_type() != 13 {
                next == RequestAction::Done(
                    Err(
                        ExecuteError::DiscardWriteZeroes {
                            ioerr: None,
                            sector,
                            num_sectors,
                            flags,
                        },
                    ),
                )
            } else if sector * 512 + num_sectors * 512 > e.disk.disk_size {
                next == RequestAction::Done(Err(ExecuteError::OutOfRange))
            } else if e.req_type() == 11 {
                next == (RequestAction::PunchHole {
                    offset: (sector * 512) as u64,
                    length: (num_sectors * 512) as u64,
                })
            } else {
                next == (RequestAction::WriteZeroes {
                    offset: (sector * 512) as u64,
                    length: (num_sectors * 512) as u64,
                })
            }
        }),
{
    lemma_progress(e, i);
    assert(e.step_valid(i));
}

/// A segment that can't be read, and one that can't be filled with zeroes, end the request with an
/// error that tells which it was and why.
pub proof fn law_segment_failures_are_told(e: Execution, i: int)
    requires
        e.valid(),
        e.header is Ok,
        0 <= i < e.events.len(),
    ensures
        e.events[i] matches RequestEvent::SegmentRead(Err(x)) ==> e.actions[i + 1]
            == RequestAction::Done(Err(ExecuteError::Read(x))),
        e.events[i] matches RequestEvent::ZeroesWritten(Err(x)) ==> i > 0 && (e.events[i - 1]
            matches RequestEvent::SegmentRead(Ok(bytes)) && e.actions[i + 1] == RequestAction::Done(
            Err(
                ExecuteError::DiscardWriteZeroes {
                    ioerr: Some(x),
                    sector: segment_of(bytes@).sector,
                    num_sectors: segment_of(bytes@).num_sectors,
                    flags: segment_of(bytes@).flags,
                },
            ),
        )),
{
    lemma_progress(e, i);
    assert(e.step_valid(i));
    if i > 0 {
        lemma_progress(e, i - 1);
        assert(e.step_valid(i - 1));
    }
}

/// Whatever comes of the last action of a request, the request can be told.
pub proof fn law_every_outcome_can_be_told(e: Execution, event: RequestEvent)
    requires
        e.valid(),
    ensures
        e.requests.last().accepts(event) <==> match e.actions.last() {
            RequestAction::ReadDisk { .. } => event is DiskRead,
            RequestAction::WriteDisk { .. } => event is DiskWritten,
            RequestAction::QueueFlushTimer => event is FlushTimerQueued,
            RequestAction::ReadSegment => event is SegmentRead,
            RequestAction::PunchHole { .. } => event is HolePunched,
            RequestAction::WriteZeroes { .. } => event is ZeroesWritten,
            RequestAction::Fsync => event is Fsynced,
            RequestAction::Done(_) => false,
        },
{
    let n = e.events.len() as int;
    lemma_progress(e, n);
    if n > 0 {
        lemma_progress(e, n - 1);
        assert(e.step_valid(n - 1));
    }
}

} // verus!
