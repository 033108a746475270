//! The tasks of the worker that serves the queues of a block device.
//!
//! The worker runs one task for each queue in use, one for each descriptor chain that it pops, and
//! one for the flush timer. What they wait for is the caller's; each task is told what came and
//! says what to do.

use vstd::prelude::*;

use super::error::{ExecuteError, OtherError};
use super::process::used_length;
use super::request::{RequestState, RequestAction, RequestEvent};
use crate::queue::Queue;

verus! {

use super::process::used_len;
use super::request::armed_after;

/// What is done to a queue when a chain of it is processed.
#[derive(Debug, Clone, Copy, PartialEq, Eq)]
pub enum CompletionAction {
    /// Put a chain into the used ring, with the number of bytes that the device may have written.
    AddUsed { index: u16, len: u32 },
    /// Interrupt the driver if it wants to know of used chains.
    TriggerInterrupt,
    /// Find out whether the driver wants an interrupt next time.
    UpdateIntRequired,
}

/// What is done to a queue, in order, when the chain at `descriptor_index` has been processed.
pub open spec fn completion(descriptor_index: u16, outcome: Result<usize, ExecuteError>) -> Seq<
    CompletionAction,
> {
    seq![
        CompletionAction::AddUsed { index: descriptor_index, len: used_len(outcome) },
        CompletionAction::TriggerInterrupt,
        CompletionAction::UpdateIntRequired,
    ]
}

/// What a task does to its queue, in order, when the chain at `descriptor_index` has been processed
/// with the given outcome. A chain that failed is used up as well.
pub fn process_one_request_task(
    descriptor_index: u16,
    outcome: &Result<usize, ExecuteError>,
) -> (r: [CompletionAction; 3])
    ensures
        r@ == completion(descriptor_index, *outcome),
{
    let len: u32 = used_length(outcome);
    let r = [
        CompletionAction::AddUsed { index: descriptor_index, len },
        CompletionAction::TriggerInterrupt,
        CompletionAction::UpdateIntRequired,
    ];
    assert(r@ =~= completion(descriptor_index, *outcome));
    r
}

/// What happened to the task of a queue. `D` stands for a descriptor chain.
#[derive(Debug, PartialEq, Eq)]
pub enum QueueEvent<D> {
    /// The task was started.
    Started,
    /// The queue gave its next chain, or had none.
    Popped(Option<D>),
    /// The driver kicked the queue, or reading the kick failed with the given text.
    Kicked(Result<u64, String>),
    /// A task for a chain was queued, or could not be with the given text.
    Queued(Result<(), String>),
}

/// What the task of a queue does next.
#[derive(Debug, PartialEq, Eq)]
pub enum QueueAction<D> {
    /// Pop the next chain of the queue.
    Pop,
    /// Wait until the driver kicks the queue.
    WaitKick,
    /// Queue a task that processes this chain.
    QueueTask(D),
    /// End. The inability to run tasks can't be recovered from.
    Stop,
}

/// What the task of a queue does next.
pub open spec fn queue_step<D>(event: QueueEvent<D>) -> QueueAction<D> {
    match event {
        QueueEvent::Started => QueueAction::<D>::Pop,
        QueueEvent::Popped(Some(chain)) => QueueAction::QueueTask(chain),
        QueueEvent::Popped(None) => QueueAction::WaitKick,
        QueueEvent::Kicked(_) => QueueAction::Pop,
        QueueEvent::Queued(Ok(_)) => QueueAction::Pop,
        QueueEvent::Queued(Err(_)) => QueueAction::Stop,
    }
}

/// There is one task running `handle_queue` per virtio queue in use.
/// It takes chains from the guest and queues a task to process each of them.
pub fn handle_queue<D>(event: QueueEvent<D>) -> (r: QueueAction<D>)
    ensures
        r == queue_step(event),
{
    match event {
        QueueEvent::Started => QueueAction::Pop,
        QueueEvent::Popped(Some(chain)) => QueueAction::QueueTask(chain),
        QueueEvent::Popped(None) => QueueAction::WaitKick,
        QueueEvent::Kicked(_) => QueueAction::Pop,
        QueueEvent::Queued(Ok(())) => QueueAction::Pop,
        QueueEvent::Queued(Err(_)) => QueueAction::Stop,
    }
}

/// Delay after a write when the file is auto-flushed, in seconds.
pub const FLUSH_DELAY_SECS: u64 = 60;

/// How far the flush timer's task has come.
#[derive(Debug, Clone, Copy, PartialEq, Eq)]
pub enum FlushTimer {
    /// The timer is created.
    Creating,
    /// The timer is started.
    Starting,
    /// The timer is made one that can be waited for.
    Converting,
    /// The timer is waited for.
    Waiting,
    /// The disk is flushed.
    Flushing,
    /// Nothing is left to do.
    Finished,
}

/// What the flush timer's task does next.
#[derive(Debug, PartialEq, Eq)]
pub enum FlushTimerAction {
    /// Create a timer.
    CreateTimer,
    /// Start the timer to fire once, after this many seconds.
    ResetTimer(u64),
    /// Make the timer one that can be waited for.
    ConvertTimer,
    /// Wait for the timer.
    Wait,
    /// Commit what was written to the disk.
    Fsync,
    /// Nothing: this is the outcome.
    Done(Result<(), OtherError>),
}

/// What came of an action. Failures are given by their text.
#[derive(Debug, PartialEq, Eq)]
pub enum FlushTimerEvent {
    Created(Result<(), String>),
    Started(Result<(), String>),
    Converted(Result<(), String>),
    /// The timer fired, or could not be waited for.
    Fired(Result<u64, String>),
    Fsynced(Result<(), String>),
}

/// Whether the flush timer is armed after an event of its task.
pub open spec fn armed_after_timer(armed: bool, event: FlushTimerEvent) -> bool {
    armed && !(FlushTimer::after(event).1 is Done)
}

impl FlushTimer {
    /// Whether an event is one that comes of the action of the present phase.
    pub open spec fn accepts(self, event: FlushTimerEvent) -> bool {
        match self {
            FlushTimer::Creating => event is Created,
            FlushTimer::Starting => event is Started,
            FlushTimer::Converting => event is Converted,
            FlushTimer::Waiting => event is Fired,
            FlushTimer::Flushing => event is Fsynced,
            FlushTimer::Finished => false,
        }
    }

    /// What follows when an event comes of the last action. It does not matter why the wait for
    /// the timer ended.
    pub open spec fn after(event: FlushTimerEvent) -> (FlushTimer, FlushTimerAction) {
        match event {
            FlushTimerEvent::Created(Ok(_)) => (
                FlushTimer::Starting,
                FlushTimerAction::ResetTimer(FLUSH_DELAY_SECS),
            ),
            FlushTimerEvent::Created(Err(e)) => (
                FlushTimer::Finished,
                FlushTimerAction::Done(Err(OtherError::TimerCreate(e))),
            ),
            FlushTimerEvent::Started(Ok(_)) => (
                FlushTimer::Converting,
                FlushTimerAction::ConvertTimer,
            ),
            FlushTimerEvent::Started(Err(e)) => (
                FlushTimer::Finished,
                FlushTimerAction::Done(Err(OtherError::TimerReset(e))),
            ),
            FlushTimerEvent::Converted(Ok(_)) => (FlushTimer::Waiting, FlushTimerAction::Wait),
            FlushTimerEvent::Converted(Err(e)) => (
                FlushTimer::Finished,
                FlushTimerAction::Done(Err(OtherError::AsyncTimerCreate(e))),
            ),
            FlushTimerEvent::Fired(_) => (FlushTimer::Flushing, FlushTimerAction::Fsync),
            FlushTimerEvent::Fsynced(Ok(_)) => (
                FlushTimer::Finished,
                FlushTimerAction::Done(Ok(())),
            ),
            FlushTimerEvent::Fsynced(Err(e)) => (
                FlushTimer::Finished,
                FlushTimerAction::Done(Err(OtherError::FsyncDisk(e))),
            ),
        }
    }

    /// Starts the task.
    pub fn flush_timer() -> (r: (FlushTimer, FlushTimerAction))
        ensures
            r == (FlushTimer::Creating, FlushTimerAction::CreateTimer),
    {
        (FlushTimer::Creating, FlushTimerAction::CreateTimer)
    }

    /// Takes what came of the last action, and gives the next. However the task ends, the timer is
    /// no longer armed.
    pub fn flush_timer_task(&mut self, event: FlushTimerEvent, timer_armed: &mut bool) -> (action:
        FlushTimerAction)
        requires
            old(self).accepts(event),
        ensures
            (*final(self), action) == FlushTimer::after(event),
            *final(timer_armed) == armed_after_timer(*old(timer_armed), event),
    {
        let (next, action) = match event {
            FlushTimerEvent::Created(Ok(())) => (
                FlushTimer::Starting,
                FlushTimerAction::ResetTimer(FLUSH_DELAY_SECS),
            ),
            FlushTimerEvent::Created(Err(e)) => (
                FlushTimer::Finished,
                FlushTimerAction::Done(Err(OtherError::TimerCreate(e))),
            ),
            FlushTimerEvent::Started(Ok(())) => (
                FlushTimer::Converting,
                FlushTimerAction::ConvertTimer,
            ),
            FlushTimerEvent::Started(Err(e)) => (
                FlushTimer::Finished,
                FlushTimerAction::Done(Err(OtherError::TimerReset(e))),
            ),
            FlushTimerEvent::Converted(Ok(())) => (FlushTimer::Waiting, FlushTimerAction::Wait),
            FlushTimerEvent::Converted(Err(e)) => (
                FlushTimer::Finished,
                FlushTimerAction::Done(Err(OtherError::AsyncTimerCreate(e))),
            ),
            FlushTimerEvent::Fired(_) => (FlushTimer::Flushing, FlushTimerAction::Fsync),
            FlushTimerEvent::Fsynced(Ok(())) => (
                FlushTimer::Finished,
                FlushTimerAction::Done(Ok(())),
            ),
            FlushTimerEvent::Fsynced(Err(e)) => (
                FlushTimer::Finished,
                FlushTimerAction::Done(Err(OtherError::FsyncDisk(e))),
            ),
        };
        match next {
            FlushTimer::Finished => {
                *timer_armed = false;
            },
            _ => {},
        }
        *self = next;
        action
    }
}

/// How many flush timer tasks there are, going by the flag that tells whether the timer is armed.
pub open spec fn flush_tasks(armed: bool) -> nat {
    if armed {
        1
    } else {
        0
    }
}

/// There is at most one flush timer task for a disk, and the timer is armed exactly while there is
/// one: a write queues a task only if there is none, and a task that ends disarms the timer.
pub proof fn law_one_flush_task(
    request: RequestState,
    armed: bool,
    queued: bool,
    event: FlushTimerEvent,
)
    requires
        request.phase is Writing,
    ensures
        ({
            let written = RequestEvent::DiskWritten(Ok(()));
            let told = RequestEvent::FlushTimerQueued(queued);
            let (waiting, action) = request.after(armed, written);
            let tasks = flush_tasks(armed);
            &&& armed_after(armed, written) == armed
            &&& if action is QueueFlushTimer {
                &&& tasks == 0
                &&& waiting.accepts(told)
                &&& flush_tasks(armed_after(armed, told)) == if queued {
                    tasks + 1
                } else {
                    tasks
                }
            } else {
                tasks == 1 && action == RequestAction::Done(Ok(()))
            }
        }),
        FlushTimer::after(event).1 is Done <==> FlushTimer::after(event).0 is Finished,
        FlushTimer::after(event).1 is Done ==> flush_tasks(
            armed_after_timer(armed, event),
        ) == 0,
        !(FlushTimer::after(event).1 is Done) ==> armed_after_timer(armed, event) == armed,
{
}

/// A run of the flush timer's task, as far as it has come: the phases that it went through and the
/// actions that it took, the first of each at the start, and what came of the actions.
pub struct FlushRun {
    pub phases: Seq<FlushTimer>,
    pub actions: Seq<FlushTimerAction>,
    pub events: Seq<FlushTimerEvent>,
}

impl FlushRun {
    /// Each phase and action follows from what came before it.
    pub open spec fn valid(self) -> bool {
        &&& self.phases.len() == self.events.len() + 1
        &&& self.actions.len() == self.events.len() + 1
        &&& self.phases[0] == FlushTimer::Creating
        &&& self.actions[0] == FlushTimerAction::CreateTimer
        &&& forall|i: int| #[trigger] self.step_valid(i)
    }

    /// The phase and the action behind the event at `i` follow from it.
    pub open spec fn step_valid(self, i: int) -> bool {
        0 <= i < self.events.len() ==> {
            &&& self.phases[i].accepts(self.events[i])
            &&& (self.phases[i + 1], self.actions[i + 1]) == FlushTimer::after(self.events[i])
        }
    }
}

/// The phases come one after another.
proof fn lemma_flush_phase(run: FlushRun, i: int)
    requires
        run.valid(),
        0 <= i < run.phases.len(),
    ensures
        match run.phases[i] {
            FlushTimer::Creating => i == 0 && run.actions[i] is CreateTimer,
            FlushTimer::Starting => i == 1 && run.actions[i] == FlushTimerAction::ResetTimer(
                FLUSH_DELAY_SECS,
            ),
            FlushTimer::Converting => i == 2 && run.actions[i] is ConvertTimer,
            FlushTimer::Waiting => i == 3 && run.actions[i] is Wait,
            FlushTimer::Flushing => i == 4 && run.actions[i] is Fsync,
            FlushTimer::Finished => 1 <= i <= 5 && run.actions[i] is Done,
        },
    decreases i,
{
    if i > 0 {
        lemma_flush_phase(run, i - 1);
        assert(run.step_valid(i - 1));
    }
}

/// The disk is flushed only after the timer was started, to fire after a minute, and waited for;
/// and it is flushed once at most.
pub proof fn law_flush_waits_for_the_timer(run: FlushRun, i: int, j: int)
    requires
        run.valid(),
        0 <= i < run.actions.len(),
        0 <= j < run.actions.len(),
        run.actions[i] is Fsync,
    ensures
        run.actions[j] is Fsync ==> j == i,
        i == 4,
        run.actions[1] == FlushTimerAction::ResetTimer(60),
        run.events[1] matches FlushTimerEvent::Started(r) && r is Ok,
        run.actions[3] is Wait,
        run.events[3] is Fired,
{
    lemma_flush_phase(run, i);
    lemma_flush_phase(run, j);
    lemma_flush_phase(run, 1);
    lemma_flush_phase(run, 2);
    lemma_flush_phase(run, 3);
    assert(run.step_valid(0));
    assert(run.step_valid(1));
    assert(run.step_valid(2));
    assert(run.step_valid(3));
}

/// A run of the flush timer's task comes to an end, which leaves the timer disarmed, however it
/// ends; before that the flag is not touched. All went well only if the disk was flushed.
pub proof fn law_flush_run_ends(run: FlushRun, i: int, armed: bool)
    requires
        run.valid(),
        1 <= i < run.actions.len(),
    ensures
        run.events.len() <= 5,
        run.actions[i] is Done ==> i == run.actions.len() - 1 && !armed_after_timer(
            armed,
            run.events[i - 1],
        ),
        !(run.actions[i] is Done) ==> armed_after_timer(armed, run.events[i - 1]) == armed,
        run.actions[i] == FlushTimerAction::Done(Ok(())) ==> run.actions[i - 1] is Fsync
            && (run.events[i - 1] matches FlushTimerEvent::Fsynced(r) && r is Ok),
{
    lemma_flush_phase(run, run.events.len() as int);
    lemma_flush_phase(run, i);
    lemma_flush_phase(run, i - 1);
    assert(run.step_valid(i - 1));
    assert(run.step_valid(i));
}

/// What happened to the task that waits for the worker to be killed.
#[derive(Debug, PartialEq, Eq)]
pub enum KillEvent {
    /// The kill event was made one that can be waited for, or could not be with the given text.
    Converted(Result<(), String>),
    /// The kill event is readable, or could not be waited for.
    Fired(Result<u64, String>),
}

/// What the task that waits for the worker to be killed does next.
#[derive(Debug, PartialEq, Eq)]
pub enum KillAction {
    /// Wait for the kill event.
    Wait,
    /// End with this outcome, which ends the worker.
    Done(Result<(), OtherError>),
}

/// What the task that waits for the worker to be killed does next.
pub open spec fn kill_step(event: KillEvent) -> KillAction {
    match event {
        KillEvent::Converted(Ok(_)) => KillAction::Wait,
        KillEvent::Converted(Err(e)) => KillAction::Done(Err(OtherError::AsyncKillCreate(e))),
        KillEvent::Fired(_) => KillAction::Done(Ok(())),
    }
}

/// Waits for the kill event. Once this event is readable, the task ends, which will cause the main
/// loop to break and the device process to exit.
pub fn wait_kill(event: KillEvent) -> (r: KillAction)
    ensures
        r == kill_step(event),
{
    match event {
        KillEvent::Converted(Ok(())) => KillAction::Wait,
        KillEvent::Converted(Err(e)) => KillAction::Done(Err(OtherError::AsyncKillCreate(e))),
        KillEvent::Fired(_) => KillAction::Done(Ok(())),
    }
}

/// The queues that are ready to be used.
pub open spec fn ready_queues(queues: Seq<Queue>) -> Seq<Queue> {
    queues.filter(|q: Queue| q.ready)
}

/// The places of the queues that are ready to be used.
pub open spec fn ready_places(queues: Seq<Queue>) -> Seq<usize>
    decreases queues.len(),
{
    if queues.len() == 0 {
        Seq::empty()
    } else if queues.last().ready {
        ready_places(queues.drop_last()).push((queues.len() - 1) as usize)
    } else {
        ready_places(queues.drop_last())
    }
}

/// What the task of one queue works with: the queue and its place among all queues, the event by
/// which the driver kicks it, and the interrupt of the driver.
#[derive(Debug, PartialEq, Eq)]
pub struct QueueHandler<E, I> {
    pub place: usize,
    pub queue: Queue,
    pub event: E,
    pub interrupt: I,
}

/// What the tasks of a worker begin with.
#[derive(Debug, PartialEq, Eq)]
pub struct WorkerTasks<E, I> {
    /// One for each task of a queue.
    pub handlers: Vec<QueueHandler<E, I>>,
    /// Whether the flush timer is armed. One flush timer per disk: all tasks share this flag.
    pub flush_timer_armed: bool,
}

/// Deals out to the tasks of the worker what they work with. The queues that are ready get the
/// events and the interrupts in order, as far as there are enough of each. The flush timer is not
/// armed yet. The worker runs until `worker_ends`.
pub fn run_worker<E, I>(interrupts: Vec<I>, queues: Vec<Queue>, queue_evts: Vec<E>) -> (r:
    WorkerTasks<E, I>)
    ensures
        !r.flush_timer_armed,
        r.handlers@.len() == min3(
            ready_queues(queues@).len(),
            queue_evts@.len(),
            interrupts@.len(),
        ),
        forall|i: int|
            0 <= i < r.handlers@.len() ==> {
                &&& (#[trigger] r.handlers@[i]).queue == ready_queues(queues@)[i]
                &&& r.handlers@[i].place == ready_places(queues@)[i]
                &&& r.handlers@[i].event == queue_evts@[i]
                &&& r.handlers@[i].interrupt == interrupts@[i]
            },
{
    let mut ready: Vec<Queue> = Vec::new();
    let mut places: Vec<usize> = Vec::new();
    let mut i: usize = 0;
    assert(queues@.take(0) =~= Seq::<Queue>::empty());
    reveal(Seq::filter);
    while i < queues.len()
        invariant
            i <= queues.len(),
            ready@ == ready_queues(queues@.take(i as int)),
            places@ == ready_places(queues@.take(i as int)),
            places@.len() == ready@.len(),
        decreases queues.len() - i,
    {
        assert(queues@.take(i + 1).drop_last() =~= queues@.take(i as int));
        reveal(Seq::filter);
        if queues[i].ready {
            ready.push(queues[i]);
            places.push(i);
        }
        i = i + 1;
    }
    assert(queues@.take(i as int) =~= queues@);

    let mut events = queue_evts;
    let mut interrupts_left = interrupts;
    let mut handlers: Vec<QueueHandler<E, I>> = Vec::new();
    let mut k: usize = 0;
    while k < ready.len() && events.len() > 0 && interrupts_left.len() > 0
        invariant
            ready@ == ready_queues(queues@),
            places@ == ready_places(queues@),
            places@.len() == ready@.len(),
            k <= ready.len(),
            k <= queue_evts@.len(),
            k <= interrupts@.len(),
            handlers.len() == k,
            events@ == queue_evts@.skip(k as int),
            interrupts_left@ == interrupts@.skip(k as int),
            forall|i: int|
                0 <= i < k ==> {
                    &&& (#[trigger] handlers@[i]).queue == ready@[i]
                    &&& handlers@[i].place == places@[i]
                    &&& handlers@[i].event == queue_evts@[i]
                    &&& handlers@[i].interrupt == interrupts@[i]
                },
        decreases ready.len() - k,
    {
        let event = events.remove(0);
        let interrupt = interrupts_left.remove(0);
        handlers.push(QueueHandler { place: places[k], queue: ready[k], event, interrupt });
        k = k + 1;
        assert(events@ =~= queue_evts@.skip(k as int));
        assert(interrupts_left@ =~= interrupts@.skip(k as int));
    }
    WorkerTasks { handlers, flush_timer_armed: false }
}

/// What ends a worker.
#[derive(Debug, PartialEq, Eq)]
pub enum WorkerEvent {
    /// The task of a queue ended, or there is none.
    QueueEnded,
    /// The task that waits for the worker to be killed ended, with this outcome.
    Killed(Result<(), OtherError>),
}

/// What the worker returns once any of its tasks ends: it does not matter how.
pub fn worker_ends(event: WorkerEvent) -> (r: Result<(), String>)
    ensures
        r == Ok::<(), String>(()),
{
    Ok(())
}

/// The least of three numbers.
pub open spec fn min3(a: nat, b: nat, c: nat) -> nat {
    if a <= b && a <= c {
        a
    } else if b <= c {
        b
    } else {
        c
    }
}

/// The place of a queue among those that are ready.
proof fn lemma_ready_queues(queues: Seq<Queue>)
    requires
        forall|i: int| 0 <= i < queues.len() ==> (#[trigger] queues[i]).ready,
    ensures
        ready_queues(queues) == queues,
    decreases queues.len(),
{
    reveal(Seq::filter);
    if queues.len() > 0 {
        let rest = queues.drop_last();
        assert forall|i: int| 0 <= i < rest.len() implies (#[trigger] rest[i]).ready by {
            assert(rest[i] == queues[i]);
        }
        lemma_ready_queues(rest);
        assert(rest.push(queues.last()) =~= queues);
    }
    assert(ready_queues(queues) =~= queues);
}

/// Where there are events and interrupts enough, each queue that is ready is served, and no other;
/// where all queues are ready, each gets the event and the interrupt at its own place.
pub proof fn law_ready_queues_are_served<E, I>(
    interrupts: Seq<I>,
    queues: Seq<Queue>,
    queue_evts: Seq<E>,
    k: int,
)
    requires
        queues.len() <= usize::MAX,
        queue_evts.len() >= ready_queues(queues).len(),
        interrupts.len() >= ready_queues(queues).len(),
        0 <= k < ready_queues(queues).len(),
    ensures
        min3(ready_queues(queues).len(), queue_evts.len(), interrupts.len()) == ready_queues(
            queues,
        ).len(),
        ready_queues(queues)[k].ready,
        ready_places(queues)[k] < queues.len(),
        queues[ready_places(queues)[k] as int] == ready_queues(queues)[k],
        forall|i: int|
            0 <= i < queues.len() && (#[trigger] queues[i]).ready ==> ready_queues(
                queues,
            ).contains(queues[i]),
        (forall|i: int| 0 <= i < queues.len() ==> (#[trigger] queues[i]).ready) ==> ready_queues(
            queues,
        )[k] == queues[k],
{
    lemma_ready_is_ready(queues, k);
    broadcast use vstd::seq_lib::group_filter_ensures;
    if forall|i: int| 0 <= i < queues.len() ==> (#[trigger] queues[i]).ready {
        lemma_ready_queues(queues);
    }
}

proof fn lemma_ready_is_ready(queues: Seq<Queue>, k: int)
    requires
        0 <= k < ready_queues(queues).len(),
        queues.len() <= usize::MAX,
    ensures
        ready_queues(queues)[k].ready,
        ready_places(queues).len() == ready_queues(queues).len(),
        ready_places(queues)[k] < queues.len(),
        queues[ready_places(queues)[k] as int] == ready_queues(queues)[k],
    decreases queues.len(),
{
    reveal(Seq::filter);
    lemma_ready_len(queues);
    if queues.len() > 0 {
        let rest = queues.drop_last();
        lemma_ready_len(rest);
        if k < ready_queues(rest).len() {
            lemma_ready_is_ready(rest, k);
        }
    }
}

proof fn lemma_ready_len(queues: Seq<Queue>)
    ensures
        ready_places(queues).len() == ready_queues(queues).len(),
    decreases queues.len(),
{
    reveal(Seq::filter);
    if queues.len() > 0 {
        lemma_ready_len(queues.drop_last());
    }
}

/// The flush timer's task goes from one step to the next as long as all goes well, and ends with
/// the first failure, which it tells.
pub proof fn law_flush_run_goes_on(run: FlushRun, i: int)
    requires
        run.valid(),
        0 <= i < run.events.len(),
    ensures
        match run.events[i] {
            FlushTimerEvent::Created(Ok(_)) => run.actions[i + 1] == FlushTimerAction::ResetTimer(
                60,
            ),
            FlushTimerEvent::Created(Err(x)) => run.actions[i + 1] == FlushTimerAction::Done(
                Err(OtherError::TimerCreate(x)),
            ),
            FlushTimerEvent::Started(Ok(_)) => run.actions[i + 1] is ConvertTimer,
            FlushTimerEvent::Started(Err(x)) => run.actions[i + 1] == FlushTimerAction::Done(
                Err(OtherError::TimerReset(x)),
            ),
            FlushTimerEvent::Converted(Ok(_)) => run.actions[i + 1] is Wait,
            FlushTimerEvent::Converted(Err(x)) => run.actions[i + 1] == FlushTimerAction::Done(
                Err(OtherError::AsyncTimerCreate(x)),
            ),
            FlushTimerEvent::Fired(_) => run.actions[i + 1] is Fsync,
            FlushTimerEvent::Fsynced(Ok(_)) => run.actions[i + 1] == FlushTimerAction::Done(Ok(())),
            FlushTimerEvent::Fsynced(Err(x)) => run.actions[i + 1] == FlushTimerAction::Done(
                Err(OtherError::FsyncDisk(x)),
            ),
        },
{
    assert(run.step_valid(i));
}

/// Whatever comes of the last action of the flush timer's task, the task can be told.
pub proof fn law_every_outcome_of_a_flush_can_be_told(run: FlushRun, event: FlushTimerEvent)
    requires
        run.valid(),
    ensures
        run.phases.last().accepts(event) <==> match run.actions.last() {
            FlushTimerAction::CreateTimer => event is Created,
            FlushTimerAction::ResetTimer(_) => event is Started,
            FlushTimerAction::ConvertTimer => event is Converted,
            FlushTimerAction::Wait => event is Fired,
            FlushTimerAction::Fsync => event is Fsynced,
            FlushTimerAction::Done(_) => false,
        },
{
    lemma_flush_phase(run, run.events.len() as int);
}

/// As many queues are served as there are of ready queues, events and interrupts.
pub proof fn law_as_many_are_served_as_there_are(a: nat, b: nat, c: nat)
    ensures
        min3(a, b, c) <= a,
        min3(a, b, c) <= b,
        min3(a, b, c) <= c,
        min3(a, b, c) == a || min3(a, b, c) == b || min3(a, b, c) == c,
{
}

/// The places of the ready queues are those of all queues that are ready, in order.
pub proof fn law_ready_places_are_exact(queues: Seq<Queue>, i: int, j: int)
    requires
        queues.len() <= usize::MAX,
    ensures
        0 <= i < queues.len() ==> (queues[i].ready <==> ready_places(queues).contains(i as usize)),
        0 <= i < j < ready_places(queues).len() ==> ready_places(queues)[i] < ready_places(
            queues,
        )[j],
        0 <= i < ready_places(queues).len() ==> ready_places(queues)[i] < queues.len()
            && queues[ready_places(queues)[i] as int].ready,
    decreases queues.len(),
{
    if queues.len() > 0 {
        let rest = queues.drop_last();
        let places = ready_places(queues);
        let before = ready_places(rest);
        law_ready_places_are_exact(rest, i, j);
        assert(forall|k: int| 0 <= k < before.len() ==> places[k] == before[k]);
        if 0 <= i < before.len() {
            law_ready_places_are_exact(rest, i, i);
        }
        if queues.last().ready {
            assert(places[before.len() as int] == queues.len() - 1);
        }
        if 0 <= i < queues.len() - 1 {
            assert(rest[i] == queues[i]);
            if before.contains(i as usize) {
                let k = choose|k: int| 0 <= k < before.len() && before[k] == i as usize;
                assert(places[k] == i as usize);
            }
            if places.contains(i as usize) {
                let k = choose|k: int| 0 <= k < places.len() && places[k] == i as usize;
                assert(before[k] == i as usize);
            }
        }
        if i == queues.len() - 1 && places.contains(i as usize) && !queues[i].ready {
            let k = choose|k: int| 0 <= k < places.len() && places[k] == i as usize;
            law_ready_places_are_exact(rest, k, k);
        }
    }
}

/// The task of a queue ends only if a task for a chain can't be queued; it waits for a kick only if
/// the queue is empty; and each chain that it takes is processed.
pub proof fn law_queue_task_serves_its_queue<D>(event: QueueEvent<D>, chain: D)
    ensures
        queue_step(event) is Stop <==> (event matches QueueEvent::Queued(r) && r is Err),
        queue_step(event) is WaitKick <==> (event matches QueueEvent::Popped(next) && next is None),
        queue_step(event) == QueueAction::QueueTask(chain) <==> event == QueueEvent::Popped(
            Some(chain),
        ),
        queue_step(event) is Pop <==> event is Started || event is Kicked || (event matches
            QueueEvent::Queued(r) && r is Ok),
{
}

/// A worker is waited for to be killed as long as that is possible, and ends when it is killed, or
/// with the failure to wait.
pub proof fn law_worker_waits_to_be_killed(event: KillEvent)
    ensures
        kill_step(event) is Wait <==> (event matches KillEvent::Converted(r) && r is Ok),
        event is Fired ==> kill_step(event) == KillAction::Done(Ok(())),
        event matches KillEvent::Converted(Err(x)) ==> kill_step(event) == KillAction::Done(
            Err(OtherError::AsyncKillCreate(x)),
        ),
{
}

/// A chain that was processed goes into the used ring once, by its own index, before the driver is
/// interrupted; and only then it is asked whether the driver wants the next interrupt.
pub proof fn law_chain_is_used_before_the_interrupt(
    descriptor_index: u16,
    outcome: Result<usize, ExecuteError>,
)
    ensures
        completion(descriptor_index, outcome).len() == 3,
        completion(descriptor_index, outcome)[0] == (CompletionAction::AddUsed {
            index: descriptor_index,
            len: used_len(outcome),
        }),
        completion(descriptor_index, outcome)[1] is TriggerInterrupt,
        completion(descriptor_index, outcome)[2] is UpdateIntRequired,
{
}

} // verus!
