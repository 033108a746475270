//! Processing of one descriptor chain: a request, and the status byte that tells of its outcome.

use vstd::prelude::*;

use super::error::{ExecuteError, VIRTIO_BLK_S_OK, VIRTIO_BLK_S_UNSUPP};
use super::request::{DiskState, RequestState, RequestAction, RequestEvent, HEADER_SIZE};

verus! {

use super::error::error_status;
use super::request::{armed_after, begin};
use super::request_laws::{
    accessed, law_accesses_stay_on_the_disk, law_read_only_disk_is_left_alone, modifies, Execution,
};

/// How far a chain has been processed.
#[derive(Debug, Clone, Copy, PartialEq, Eq)]
pub enum ProcessPhase {
    /// The header of the request is read.
    ReadingHeader,
    /// The request is executed.
    Executing(RequestState),
    /// The status byte is written.
    WritingStatus,
    /// Nothing is left to do.
    Finished,
}

/// What is to be done next.
#[derive(Debug, PartialEq, Eq)]
pub enum ProcessAction {
    /// Read the header of the request.
    ReadHeader,
    /// Execute the request.
    Execute(RequestAction),
    /// Write a status byte into the buffers that the device may write to, at this offset.
    WriteStatus { offset: usize, status: u8 },
    /// Nothing: this is the outcome, the number of bytes that the device may write to.
    Done(Result<usize, ExecuteError>),
}

/// What came of an action.
#[derive(Debug, PartialEq, Eq)]
pub enum ProcessEvent {
    /// The header of the request, or the text of the failure.
    HeaderRead(Result<[u8; 16], String>),
    /// What came of the action for the request.
    Executed(RequestEvent),
    /// The status byte is written, or the text of the failure.
    StatusWritten(Result<(), String>),
}

/// Where the processing of a descriptor chain stands.
#[derive(Debug, Clone, Copy, PartialEq, Eq)]
pub struct ProcessState {
    /// How many bytes the device may read.
    pub readable: usize,
    /// How many bytes the device may write to. The last of them is the status byte.
    pub available: usize,
    pub disk: DiskState,
    pub phase: ProcessPhase,
}

/// The status byte for the outcome of a request.
pub open spec fn status_of(outcome: Result<(), ExecuteError>) -> u8 {
    match outcome {
        Ok(_) => VIRTIO_BLK_S_OK,
        Err(e) => error_status(e),
    }
}

/// The status byte for the outcome of a request.
pub fn request_status(outcome: &Result<(), ExecuteError>) -> (r: u8)
    ensures
        r == status_of(*outcome),
{
    match outcome {
        Ok(()) => VIRTIO_BLK_S_OK,
        Err(e) => e.status(),
    }
}

/// How the processing of a chain begins, given how many bytes the device may read and write to.
pub open spec fn begin_process(
    reader: Result<usize, String>,
    writer: Result<usize, String>,
    disk: DiskState,
) -> Result<ProcessState, ExecuteError> {
    match (reader, writer) {
        (Err(e), _) => Err(ExecuteError::Descriptor(e)),
        (_, Err(e)) => Err(ExecuteError::Descriptor(e)),
        (Ok(readable), Ok(available)) => if available == 0 {
            Err(ExecuteError::MissingStatus)
        } else {
            Ok(ProcessState { readable, available, disk, phase: ProcessPhase::ReadingHeader })
        },
    }
}

impl ProcessState {
    /// There is room for a status byte.
    pub open spec fn wf(self) -> bool {
        self.available >= 1
    }

    /// The request has come to this point.
    pub open spec fn request_at(self, request: RequestState, action: RequestAction) -> (
        ProcessState,
        ProcessAction,
    ) {
        match action {
            RequestAction::Done(outcome) => (
                ProcessState { phase: ProcessPhase::WritingStatus, ..self },
                ProcessAction::WriteStatus {
                    offset: (self.available - 1) as usize,
                    status: status_of(outcome),
                },
            ),
            action => (
                ProcessState { phase: ProcessPhase::Executing(request), ..self },
                ProcessAction::Execute(action),
            ),
        }
    }

    /// Whether an event is one that comes of the action of the present phase.
    pub open spec fn accepts(self, event: ProcessEvent) -> bool {
        match (self.phase, event) {
            (ProcessPhase::ReadingHeader, ProcessEvent::HeaderRead(r)) => {
                r is Ok ==> self.readable >= HEADER_SIZE
            },
            (ProcessPhase::Executing(request), ProcessEvent::Executed(event)) => {
                request.accepts(event)
            },
            (ProcessPhase::WritingStatus, ProcessEvent::StatusWritten(_)) => true,
            _ => false,
        }
    }

    /// What follows when `event`, which the present phase accepts, comes of its action. `armed`
    /// tells whether the flush timer is armed.
    pub open spec fn after(self, armed: bool, event: ProcessEvent) -> (
        ProcessState,
        ProcessAction,
    ) {
        match (self.phase, event) {
            (ProcessPhase::ReadingHeader, ProcessEvent::HeaderRead(header)) => {
                let (request, action) = begin(
                    header,
                    (self.readable - HEADER_SIZE) as usize,
                    (self.available - 1) as usize,
                    self.disk,
                );
                self.request_at(request, action)
            },
            (ProcessPhase::Executing(request), ProcessEvent::Executed(event)) => {
                let (request, action) = request.after(armed, event);
                self.request_at(request, action)
            },
            (ProcessPhase::WritingStatus, ProcessEvent::StatusWritten(r)) => (
                ProcessState { phase: ProcessPhase::Finished, ..self },
                ProcessAction::Done(
                    match r {
                        Ok(_) => Ok(self.available),
                        Err(e) => Err(ExecuteError::WriteStatus(e)),
                    },
                ),
            ),
            _ => arbitrary(),
        }
    }

    /// Begins the processing of a chain.
    fn begin_chain(
        reader: Result<usize, String>,
        writer: Result<usize, String>,
        disk: &DiskState,
    ) -> (r: (Option<ProcessState>, ProcessAction))
        ensures
            match begin_process(reader, writer, *disk) {
                Ok(process) => {
                    &&& r == (Some(process), ProcessAction::ReadHeader)
                    &&& process.wf()
                },
                Err(e) => r == (None::<ProcessState>, ProcessAction::Done(Err(e))),
            },
    {
        let readable: usize = match reader {
            Ok(n) => n,
            Err(e) => {
                return (None, ProcessAction::Done(Err(ExecuteError::Descriptor(e))));
            },
        };
        let available: usize = match writer {
            Ok(n) => n,
            Err(e) => {
                return (None, ProcessAction::Done(Err(ExecuteError::Descriptor(e))));
            },
        };
        if available == 0 {
            return (None, ProcessAction::Done(Err(ExecuteError::MissingStatus)));
        }
        let process = ProcessState {
            readable,
            available,
            disk: *disk,
            phase: ProcessPhase::ReadingHeader,
        };
        (Some(process), ProcessAction::ReadHeader)
    }

    /// Turns the outcome of the request into the status byte.
    fn follow_request(&mut self, request: RequestState, action: RequestAction) -> (r: ProcessAction)
        requires
            old(self).wf(),
        ensures
            (*final(self), r) == old(self).request_at(request, action),
    {
        match action {
            RequestAction::Done(outcome) => {
                self.phase = ProcessPhase::WritingStatus;
                // The last byte of the buffer is virtio_blk_req::status.
                ProcessAction::WriteStatus {
                    offset: self.available - 1,
                    status: request_status(&outcome),
                }
            },
            action => {
                self.phase = ProcessPhase::Executing(request);
                ProcessAction::Execute(action)
            },
        }
    }

    /// Goes on with the processing of a chain.
    fn advance(&mut self, event: ProcessEvent, flush_timer_armed: &mut bool) -> (action:
        ProcessAction)
        requires
            old(self).wf(),
            old(self).accepts(event),
        ensures
            final(self).wf(),
            (*final(self), action) == old(self).after(*old(flush_timer_armed), event),
            *final(flush_timer_armed) == match event {
                ProcessEvent::Executed(event) => armed_after(*old(flush_timer_armed), event),
                _ => *old(flush_timer_armed),
            },
    {
        match event {
            ProcessEvent::HeaderRead(header) => {
                let left: usize = if self.readable >= HEADER_SIZE {
                    self.readable - HEADER_SIZE
                } else {
                    0
                };
                let (request, action) = RequestState::begin_request(
                    header,
                    left,
                    self.available - 1,
                    &self.disk,
                );
                self.follow_request(request, action)
            },
            ProcessEvent::Executed(event) => match self.phase {
                ProcessPhase::Executing(request) => {
                    let mut request = request;
                    let action = request.advance(event, flush_timer_armed);
                    self.follow_request(request, action)
                },
                _ => ProcessAction::ReadHeader,
            },
            ProcessEvent::StatusWritten(r) => {
                self.phase = ProcessPhase::Finished;
                match r {
                    Ok(()) => ProcessAction::Done(Ok(self.available)),
                    Err(e) => ProcessAction::Done(Err(ExecuteError::WriteStatus(e))),
                }
            },
        }
    }
}

/// A descriptor chain that is being processed.
#[derive(Debug, PartialEq, Eq)]
pub struct Process {
    state: ProcessState,
}

impl View for Process {
    type V = ProcessState;

    closed spec fn view(&self) -> ProcessState {
        self.state
    }
}

impl Process {
    /// Begins to process a descriptor chain. The reader and the writer of the chain tell how many
    /// bytes the device may read and write to, or fail with the given text.
    pub fn process_one_request(
        reader: Result<usize, String>,
        writer: Result<usize, String>,
        disk: &DiskState,
    ) -> (r: (Option<Process>, ProcessAction))
        ensures
            match begin_process(reader, writer, *disk) {
                Ok(state) => {
                    &&& r.0 matches Some(process)
                    &&& process@ == state
                    &&& state.wf()
                    &&& r.1 == ProcessAction::ReadHeader
                },
                Err(e) => r.0 is None && r.1 == ProcessAction::Done(Err(e)),
            },
    {
        match ProcessState::begin_chain(reader, writer, disk) {
            (Some(state), action) => (Some(Process { state }), action),
            (None, action) => (None, action),
        }
    }

    /// Takes what came of the last action, and gives the next. `flush_timer_armed` is the flag of
    /// the disk that tells whether its flush timer is armed.
    pub fn step(&mut self, event: ProcessEvent, flush_timer_armed: &mut bool) -> (action:
        ProcessAction)
        requires
            old(self)@.wf(),
            old(self)@.accepts(event),
        ensures
            final(self)@.wf(),
            (final(self)@, action) == old(self)@.after(*old(flush_timer_armed), event),
            *final(flush_timer_armed) == match event {
                ProcessEvent::Executed(event) => armed_after(*old(flush_timer_armed), event),
                _ => *old(flush_timer_armed),
            },
    {
        self.state.advance(event, flush_timer_armed)
    }
}

/// The number of bytes that the used ring tells of, for the outcome of a chain.
pub open spec fn used_len(outcome: Result<usize, ExecuteError>) -> u32 {
    match outcome {
        Ok(len) => (len as int % 0x1_0000_0000) as u32,
        Err(_) => 0,
    }
}

/// The number of bytes to put into the used ring, for the outcome of a chain: all that the device
/// may write to, or nothing where the chain could not be processed.
pub fn used_length(outcome: &Result<usize, ExecuteError>) -> (r: u32)
    ensures
        r == used_len(*outcome),
{
    match outcome {
        Ok(len) => {
            let len: u64 = *len as u64;
            (len % 0x1_0000_0000) as u32
        },
        Err(_) => 0,
    }
}

/// The way of a chain that is processed: the states and the actions, the first of each at the
/// start, and what came of the actions.
pub struct Processing {
    pub states: Seq<ProcessState>,
    pub actions: Seq<ProcessAction>,
    pub events: Seq<ProcessEvent>,
    pub armed: Seq<bool>,
}

impl Processing {
    /// Each state and action follows from what came before it, from the given beginning.
    pub open spec fn valid(self, start: ProcessState) -> bool {
        &&& self.states.len() == self.events.len() + 1
        &&& self.actions.len() == self.events.len() + 1
        &&& self.states[0] == start
        &&& start.phase is ReadingHeader
        &&& self.actions[0] == ProcessAction::ReadHeader
        &&& forall|i: int| #[trigger] self.step_valid(i)
    }

    /// The state and the action behind the event at `i` follow from it.
    pub open spec fn step_valid(self, i: int) -> bool {
        0 <= i < self.events.len() ==> {
            &&& self.states[i].accepts(self.events[i])
            &&& (self.states[i + 1], self.actions[i + 1]) == self.states[i].after(
                self.armed[i],
                self.events[i],
            )
        }
    }
}

/// The phase of a chain goes with its last action.
proof fn lemma_processing(p: Processing, start: ProcessState, i: int)
    requires
        start.wf(),
        p.valid(start),
        0 <= i < p.states.len(),
    ensures
        p.states[i].available == start.available,
        match p.actions[i] {
            ProcessAction::ReadHeader => p.states[i].phase is ReadingHeader && i == 0,
            ProcessAction::Execute(_) => p.states[i].phase is Executing && i > 0,
            ProcessAction::WriteStatus { offset, .. } => {
                p.states[i].phase is WritingStatus && offset == start.available - 1 && i > 0
            },
            ProcessAction::Done(_) => {
                p.states[i].phase is Finished && i > 0 && p.actions[i - 1] is WriteStatus
            },
        },
    decreases i,
{
    if i > 0 {
        lemma_processing(p, start, i - 1);
        assert(p.step_valid(i - 1));
    }
}

/// A chain with room for a status byte is answered exactly once: its status byte, which is the last
/// byte that the device may write to, is written right before the chain is done, and never else.
pub proof fn law_status_is_written_once(p: Processing, start: ProcessState, i: int)
    requires
        start.wf(),
        p.valid(start),
        0 <= i < p.actions.len(),
    ensures
        p.actions[i] is Done ==> i == p.actions.len() - 1 && p.actions[i - 1] is WriteStatus,
        p.actions[i] is WriteStatus ==> {
            &&& p.actions[i]->offset == start.available - 1
            &&& i >= p.actions.len() - 2
            &&& i + 1 < p.actions.len() ==> p.actions[i + 1] is Done
        },
{
    lemma_processing(p, start, i);
    assert(p.step_valid(i));
    assert(p.step_valid(i + 1));
}

/// The status byte tells whether the request was executed, and sets apart those that the device
/// does not know.
pub proof fn law_status_tells_the_outcome(outcome: Result<(), ExecuteError>)
    ensures
        status_of(outcome) == VIRTIO_BLK_S_OK <==> outcome is Ok,
        status_of(outcome) == VIRTIO_BLK_S_UNSUPP <==> outcome is Err && outcome->Err_0
            is Unsupported,
{
}

/// The execution of the request of a chain, as far as it has come with the action at `i`.
pub open spec fn execution_at(p: Processing, start: ProcessState, i: int) -> Execution {
    Execution {
        header: p.events[0]->HeaderRead_0,
        readable: (start.readable - HEADER_SIZE) as usize,
        writable: (start.available - 1) as usize,
        disk: start.disk,
        requests: Seq::new(i as nat, |k: int| p.states[k + 1].phase->Executing_0),
        actions: Seq::new(i as nat, |k: int| p.actions[k + 1]->Execute_0),
        events: Seq::new((i - 1) as nat, |k: int| p.events[k + 1]->Executed_0),
        armed: Seq::new((i - 1) as nat, |k: int| p.armed[k + 1]),
    }
}

/// A chain that executes its request has done nothing else since it read the header.
proof fn lemma_executing(p: Processing, start: ProcessState, i: int, k: int)
    requires
        start.wf(),
        p.valid(start),
        1 <= k <= i < p.states.len(),
        p.actions[i] is Execute,
    ensures
        p.actions[k] is Execute,
        p.states[k].phase is Executing,
        p.states[k].disk == start.disk,
        p.states[k].readable == start.readable,
    decreases i - k,
{
    lemma_processing(p, start, k);
    lemma_disk(p, start, k);
    if k < i {
        lemma_executing(p, start, i, k + 1);
        assert(p.step_valid(k));
    }
}

/// The disk and the size of the request stay what they were.
proof fn lemma_disk(p: Processing, start: ProcessState, i: int)
    requires
        start.wf(),
        p.valid(start),
        0 <= i < p.states.len(),
    ensures
        p.states[i].disk == start.disk,
        p.states[i].readable == start.readable,
    decreases i,
{
    if i > 0 {
        lemma_processing(p, start, i - 1);
        lemma_disk(p, start, i - 1);
        assert(p.step_valid(i - 1));
    }
}

/// What is done for the request of a chain is an execution of the request: what holds of every
/// execution holds of every chain that is processed.
pub proof fn law_chain_executes_its_request(p: Processing, start: ProcessState, i: int)
    requires
        start.wf(),
        p.valid(start),
        0 <= i < p.actions.len(),
        p.actions[i] is Execute,
    ensures
        i >= 1,
        execution_at(p, start, i).valid(),
        execution_at(p, start, i).actions.last() == p.actions[i]->Execute_0,
{
    lemma_processing(p, start, i);
    let e = execution_at(p, start, i);
    lemma_processing(p, start, 0);
    lemma_executing(p, start, i, 1);
    assert(p.step_valid(0));
    assert forall|k: int| #[trigger] e.step_valid(k) by {
        if 0 <= k < e.events.len() {
            lemma_executing(p, start, i, k + 1);
            lemma_executing(p, start, i, k + 2);
            assert(p.step_valid(k + 1));
        }
    }
}

/// No chain changes a disk that is read-only, and none reaches beyond the end of the disk.
pub proof fn law_chain_respects_the_disk(p: Processing, start: ProcessState, i: int)
    requires
        start.wf(),
        p.valid(start),
        0 <= i < p.actions.len(),
        p.actions[i] is Execute,
    ensures
        start.disk.read_only ==> !modifies(p.actions[i]->Execute_0),
        accessed(p.actions[i]->Execute_0) matches Some((offset, length)) ==> 0 <= offset && 0
            <= length && offset + length <= start.disk.disk_size,
{
    law_chain_executes_its_request(p, start, i);
    let e = execution_at(p, start, i);
    law_accesses_stay_on_the_disk(e, i - 1);
    if start.disk.read_only {
        law_read_only_disk_is_left_alone(e, i - 1);
    }
}

/// A chain is processed exactly if its buffers can be read and written to, and there is room for a
/// status byte; else it is refused for the first of these that fails.
pub proof fn law_chain_needs_room_for_a_status(
    reader: Result<usize, String>,
    writer: Result<usize, String>,
    disk: DiskState,
)
    ensures
        reader is Err ==> begin_process(reader, writer, disk) == Err::<ProcessState, ExecuteError>(
            ExecuteError::Descriptor(reader->Err_0),
        ),
        reader is Ok && writer is Err ==> begin_process(reader, writer, disk) == Err::<
            ProcessState,
            ExecuteError,
        >(ExecuteError::Descriptor(writer->Err_0)),
        reader is Ok && writer is Ok && writer->Ok_0 == 0 ==> begin_process(reader, writer, disk)
            == Err::<ProcessState, ExecuteError>(ExecuteError::MissingStatus),
        reader is Ok && writer is Ok && writer->Ok_0 > 0 ==> {
            &&& begin_process(reader, writer, disk) is Ok
            &&& begin_process(reader, writer, disk)->Ok_0.readable == reader->Ok_0
            &&& begin_process(reader, writer, disk)->Ok_0.available == writer->Ok_0
            &&& begin_process(reader, writer, disk)->Ok_0.disk == disk
            &&& begin_process(reader, writer, disk)->Ok_0.phase is ReadingHeader
            &&& begin_process(reader, writer, disk)->Ok_0.wf()
        },
{
}

/// How the request of a chain stands behind the event before the action at `i`.
pub open spec fn request_before(p: Processing, start: ProcessState, i: int) -> (
    RequestState,
    RequestAction,
) {
    if i == 1 {
        begin(
            p.events[0]->HeaderRead_0,
            (start.readable - 16) as usize,
            (start.available - 1) as usize,
            start.disk,
        )
    } else {
        p.states[i - 1].phase->Executing_0.after(p.armed[i - 1], p.events[i - 1]->Executed_0)
    }
}

/// The whole execution of the request of a chain that is answered by the action at `i`.
pub open spec fn whole_execution(p: Processing, start: ProcessState, i: int) -> Execution {
    let before = request_before(p, start, i);
    Execution {
        header: p.events[0]->HeaderRead_0,
        readable: (start.readable - 16) as usize,
        writable: (start.available - 1) as usize,
        disk: start.disk,
        requests: Seq::new(
            i as nat,
            |k: int|
                if k == i - 1 {
                    before.0
                } else {
                    p.states[k + 1].phase->Executing_0
                },
        ),
        actions: Seq::new(
            i as nat,
            |k: int|
                if k == i - 1 {
                    before.1
                } else {
                    p.actions[k + 1]->Execute_0
                },
        ),
        events: Seq::new((i - 1) as nat, |k: int| p.events[k + 1]->Executed_0),
        armed: Seq::new((i - 1) as nat, |k: int| p.armed[k + 1]),
    }
}

/// The status byte of a chain tells how the execution of its request came out: 0 exactly if it went
/// well, 2 exactly if its type is not supported, and 1 for any other failure.
pub proof fn law_status_is_that_of_the_execution(p: Processing, start: ProcessState, i: int)
    requires
        start.wf(),
        p.valid(start),
        0 <= i < p.actions.len(),
        p.actions[i] is WriteStatus,
    ensures
        i >= 1,
        whole_execution(p, start, i).valid(),
        ({
            let outcome = whole_execution(p, start, i).actions.last()->Done_0;
            let status = p.actions[i]->status;
            &&& whole_execution(p, start, i).actions.last() is Done
            &&& status == 0 <==> outcome is Ok
            &&& status == 2 <==> outcome is Err && outcome->Err_0 is Unsupported
            &&& status == 1 <==> outcome is Err && !(outcome->Err_0 is Unsupported)
        }),
{
    lemma_processing(p, start, i);
    lemma_processing(p, start, i - 1);
    lemma_disk(p, start, i - 1);
    assert(p.step_valid(i - 1));
    assert(p.step_valid(0));
    lemma_processing(p, start, 0);
    lemma_disk(p, start, 0);
    let e = whole_execution(p, start, i);
    if i > 1 {
        lemma_executing(p, start, i - 1, 1);
    }
    assert forall|k: int| #[trigger] e.step_valid(k) by {
        if 0 <= k < e.events.len() {
            lemma_executing(p, start, i - 1, k + 1);
            assert(p.step_valid(k + 1));
            if k + 2 < i {
                lemma_executing(p, start, i - 1, k + 2);
            }
        }
    }
}

/// The outcome of a request is never handed out to be executed: it is answered.
pub proof fn law_outcome_is_answered(p: Processing, start: ProcessState, i: int)
    requires
        start.wf(),
        p.valid(start),
        0 <= i < p.actions.len(),
        p.actions[i] is Execute,
    ensures
        !(p.actions[i]->Execute_0 is Done),
{
    lemma_processing(p, start, i);
    if i > 0 {
        lemma_processing(p, start, i - 1);
        assert(p.step_valid(i - 1));
    }
}

/// A chain whose status byte is written is done with all that the device may write to, and one
/// whose status byte can't be written fails by that.
pub proof fn law_answered_chain_is_done(p: Processing, start: ProcessState, i: int)
    requires
        start.wf(),
        p.valid(start),
        0 <= i < p.actions.len(),
        p.actions[i] is Done,
    ensures
        i >= 1,
        match p.events[i - 1] {
            ProcessEvent::StatusWritten(Ok(_)) => p.actions[i] == ProcessAction::Done(
                Ok(start.available),
            ),
            ProcessEvent::StatusWritten(Err(x)) => p.actions[i] == ProcessAction::Done(
                Err(ExecuteError::WriteStatus(x)),
            ),
            _ => false,
        },
{
    lemma_processing(p, start, i);
    lemma_processing(p, start, i - 1);
    assert(p.step_valid(i - 1));
}

/// Whatever comes of the last action of a chain, the chain can be told: a header of 16 bytes only
/// if there are as many to read.
pub proof fn law_every_outcome_of_a_chain_can_be_told(
    p: Processing,
    start: ProcessState,
    event: ProcessEvent,
)
    requires
        start.wf(),
        p.valid(start),
    ensures
        p.states.last().accepts(event) <==> match p.actions.last() {
            ProcessAction::ReadHeader => event matches ProcessEvent::HeaderRead(r) && (r is Err
                || start.readable >= 16),
            ProcessAction::Execute(_) => event matches ProcessEvent::Executed(x)
                && p.states.last().phase->Executing_0.accepts(x),
            ProcessAction::WriteStatus { .. } => event is StatusWritten,
            ProcessAction::Done(_) => false,
        },
{
    lemma_processing(p, start, p.events.len() as int);
    lemma_disk(p, start, p.events.len() as int);
}

/// A chain that was processed is used up with the number of bytes that the device may write to, as
/// far as 32 bits count; one that failed with none.
pub proof fn law_used_length(outcome: Result<usize, ExecuteError>)
    ensures
        outcome is Err ==> used_len(outcome) == 0,
        outcome is Ok && outcome->Ok_0 < 0x1_0000_0000 ==> used_len(outcome) == outcome->Ok_0,
        outcome is Ok ==> (outcome->Ok_0 - used_len(outcome)) % 0x1_0000_0000 == 0,
{
}

} // verus!
