//! What holds of every sequence of requests to a vhost-user device.

use vstd::prelude::*;

use super::backend::{CallEvent, VhostUserBackend, VirtioDevice};
use super::handler::{
    HandlerView, Vring, MAX_QUEUE_NUM, MAX_VRING_NUM, VIRTIO_TRANSPORT_FEATURES,
};
use super::memory::RegionFile;
use super::message::{Error, VhostUserMemoryRegion, VhostUserVringState};
use crate::queue::Queue;

verus! {

use super::handler::{
    config_write, first_group, group_exists, group_interrupts, group_kicks, group_queues,
    group_ready, readiness, table_files,
};
use super::memory::{guest_address, region_mappings, searchable};

/// One frontend at a time has the device: it can be taken only once, and again after it is given
/// up.
pub proof fn law_device_has_one_owner<B: VhostUserBackend>(
    handler: HandlerView<B>,
    freed: HandlerView<B>,
)
    requires
        handler.given_up(freed),
    ensures
        handler.taken().1.taken() == (
            Err::<(), Error>(Error::InvalidOperation),
            handler.taken().1,
        ),
        handler.owned ==> handler.taken() == (Err::<(), Error>(Error::InvalidOperation), handler),
        freed.taken().0 == Ok::<(), Error>(()),
{
}

/// A frontend that has the device may acknowledge any part of what the device offers, and nothing
/// else; one that does not have it may acknowledge nothing.
pub proof fn law_offered_features_are_accepted<B: VhostUserBackend>(
    handler: HandlerView<B>,
    features: u64,
    r: Result<(), Error>,
    after: HandlerView<B>,
)
    requires
        handler.features_set(features, r, after),
    ensures
        r is Ok <==> handler.owned && features & handler.features() == features,
        r is Err ==> after == handler,
{
    let offered = handler.features();
    assert(features & !offered == 0 <==> features & offered == features) by (bit_vector);
}

/// Acknowledged features leave the vrings disabled if they hold the negotiation of protocol
/// features, and enabled if they do not.
pub proof fn law_rings_wait_for_protocol_features<B: VhostUserBackend>(
    handler: HandlerView<B>,
    features: u64,
    after: HandlerView<B>,
    index: int,
)
    requires
        handler.features_set(features, Ok(()), after),
        0 <= index < handler.vrings.len(),
    ensures
        after.vrings[index].enabled <==> !after.protocol_negotiated(),
        after.vrings[index] == (Vring {
            enabled: after.vrings[index].enabled,
            ..handler.vrings[index]
        }),
{
}

/// The index of the next descriptor that is set for a vring is the one that is told.
pub proof fn law_vring_base_reads_back<B: VhostUserBackend>(
    handler: HandlerView<B>,
    index: u32,
    base: u32,
)
    requires
        handler.wf(),
        index < handler.queue_num,
        base < MAX_VRING_NUM,
    ensures
        handler.base_set(index, base).0 == Ok::<(), Error>(()),
        handler.base_set(index, base).1.base_got(index).0 == Ok::<VhostUserVringState, Error>(
            VhostUserVringState { index, num: base },
        ),
{
}

/// The index that is set for one vring leaves those of the others as they are.
pub proof fn law_vring_bases_are_independent<B: VhostUserBackend>(
    handler: HandlerView<B>,
    index: u32,
    other: u32,
    base: u32,
)
    requires
        handler.wf(),
        index != other,
    ensures
        handler.base_set(index, base).1.base_got(other).0 == handler.base_got(other).0,
{
}

/// A group that was found is one of the groups, and holds the queue.
proof fn lemma_first_group(groups: Seq<Seq<usize>>, index: usize)
    requires
        first_group(groups, index) is Some,
    ensures
        first_group(groups, index)->0.contains(index),
    decreases groups.len(),
{
    if !groups[0].contains(index) {
        lemma_first_group(groups.skip(1), index);
    }
}

/// The device is started with a vring only if both events are there and the driver has enabled it,
/// for this vring and every other that the same worker serves.
pub proof fn law_start_waits_for_the_whole_group<B: VhostUserBackend>(
    handler: HandlerView<B>,
    index: usize,
    after: HandlerView<B>,
)
    requires
        handler.wf(),
        index < handler.vrings.len(),
        handler.started(index as int, after),
        after != handler,
    ensures
        handler.vrings[index as int].ready(),
        !handler.vrings[index as int].activated,
        forall|q: usize| #[trigger]
            handler.group_of(index as int)->0.contains(q) ==> q < handler.vrings.len()
                && handler.vrings[q as int].ready(),
{
    let group = handler.group_of(index as int)->0;
    lemma_first_group(handler.backend.device_state().worker_queues(), index);
    assert forall|q: usize| #[trigger] group.contains(q) implies q < handler.vrings.len()
        && handler.vrings[q as int].ready() by {
        let k = choose|k: int| 0 <= k < group.len() && group[k] == q;
        assert(group[k] < handler.vrings.len());
    }
}

/// A vring that the device is started with has handed its events over, and the device is not
/// started with it again, whatever events come and whether it is enabled or not.
pub proof fn law_vring_is_started_once<B: VhostUserBackend>(
    handler: HandlerView<B>,
    index: usize,
    after: HandlerView<B>,
    kick: Option<B::Event>,
    call: Option<B::Event>,
    enable: bool,
)
    requires
        handler.wf(),
        index < handler.vrings.len(),
        handler.starts(index as int),
        handler.started(index as int, after),
    ensures
        after.vrings[index as int].activated,
        after.vrings[index as int].call_fd is None,
        after.vrings[index as int].kick_fd is None,
        !after.kicked(index as int, kick).starts(index as int),
        !after.called(index as int, call).starts(index as int),
        !after.enabling(index as int, enable).starts(index as int),
{
    lemma_first_group(handler.backend.device_state().worker_queues(), index);
}

/// When the vrings are stopped, none is activated, enabled or has its events; the device is not
/// started with any of them before it has been set up anew.
pub proof fn law_stopped_vrings_start_afresh<B: VhostUserBackend>(
    handler: HandlerView<B>,
    index: u32,
    other: usize,
)
    requires
        handler.wf(),
        index < handler.queue_num,
        other < handler.vrings.len(),
    ensures
        handler.base_got(index).1.vrings[other as int] == Vring::<B::Event>::fresh(
            handler.vrings[other as int].queue.max_size,
        ),
        !handler.base_got(index).1.starts(other as int),
{
    let after = handler.base_got(index).1;
    if after.starts(other as int) {
        let groups = after.backend.device_state().worker_queues();
        lemma_first_group(groups, other);
        let group = first_group(groups, other)->0;
        let k = choose|k: int| 0 <= k < group.len() && group[k] == other;
        assert(group[k] < after.vrings.len());
        assert(after.vrings[group[k] as int].ready());
    }
}

/// The device is never started with a vring that is disabled.
pub proof fn law_disabled_vring_is_not_started<B: VhostUserBackend>(
    handler: HandlerView<B>,
    index: usize,
    after: HandlerView<B>,
)
    requires
        handler.wf(),
        index < handler.vrings.len(),
        handler.enabling(index as int, false).started(index as int, after),
    ensures
        after == handler.enabling(index as int, false),
{
    let disabled = handler.enabling(index as int, false);
    if disabled.starts(index as int) {
        let groups = disabled.backend.device_state().worker_queues();
        lemma_first_group(groups, index);
        let group = first_group(groups, index)->0;
        let k = choose|k: int| 0 <= k < group.len() && group[k] == index;
        assert(group[k] < disabled.vrings.len());
        assert(disabled.vrings[group[k] as int].ready());
    }
}

/// A request that is refused changes nothing.
pub proof fn law_refusal_changes_nothing<B: VhostUserBackend>(
    handler: HandlerView<B>,
    after: HandlerView<B>,
    index: u32,
    base: u32,
    features: u64,
    r: Result<(), Error>,
)
    requires
        handler.features_set(features, r, after),
    ensures
        r is Err ==> after == handler,
        handler.taken().0 is Err ==> handler.taken().1 == handler,
        handler.base_set(index, base).0 is Err ==> handler.base_set(index, base).1 == handler,
        handler.base_got(index).0 is Err ==> handler.base_got(index).1 == handler,
{
}

/// The numbers of the handler.
pub proof fn law_handler_numbers()
    ensures
        MAX_QUEUE_NUM == 2,
        MAX_VRING_NUM == 256,
        VIRTIO_TRANSPORT_FEATURES == 0x1_4000_0000,
{
}

/// Only the two queues that there are may be known: this is all that a handler has to hold to.
pub proof fn law_handler_invariant<B: VhostUserBackend>(handler: HandlerView<B>)
    ensures
        handler.wf() <==> handler.queue_num <= 2 && handler.vring_num.len() == 2
            && handler.vring_base.len() == 2 && handler.err_fd.len() == 2 && handler.vrings.len()
            == 2,
{
}

/// A vring that is not set up has no events, is not enabled, and no device is activated with it.
pub proof fn law_fresh_vring<E>(max_size: u16)
    ensures
        Vring::<E>::fresh(max_size).call_fd is None,
        Vring::<E>::fresh(max_size).kick_fd is None,
        !Vring::<E>::fresh(max_size).enabled,
        !Vring::<E>::fresh(max_size).activated,
        !Vring::<E>::fresh(max_size).queue.ready,
        Vring::<E>::fresh(max_size).queue.max_size == max_size,
        Vring::<E>::fresh(max_size).queue.desc_table == 0,
        Vring::<E>::fresh(max_size).queue.avail_ring == 0,
        Vring::<E>::fresh(max_size).queue.used_ring == 0,
{
}

/// The group at `g` is the first that holds the queue at `index`.
pub open spec fn is_first_group(groups: Seq<Seq<usize>>, index: usize, g: int) -> bool {
    &&& 0 <= g < groups.len()
    &&& groups[g].contains(index)
    &&& forall|j: int| 0 <= j < g ==> !(#[trigger] groups[j]).contains(index)
}

proof fn lemma_is_first_group(groups: Seq<Seq<usize>>, index: usize, g: int)
    requires
        is_first_group(groups, index, g),
    ensures
        first_group(groups, index) == Some(groups[g]),
    decreases g,
{
    if g > 0 {
        assert(!groups[0].contains(index));
        assert forall|j: int| 0 <= j < g - 1 implies !(#[trigger] groups.skip(1)[j]).contains(
            index,
        ) by {
            assert(groups.skip(1)[j] == groups[j + 1]);
        }
        lemma_is_first_group(groups.skip(1), index, g - 1);
    }
}

proof fn lemma_no_group(groups: Seq<Seq<usize>>, index: usize)
    requires
        forall|j: int| 0 <= j < groups.len() ==> !(#[trigger] groups[j]).contains(index),
    ensures
        first_group(groups, index) is None,
    decreases groups.len(),
{
    if groups.len() > 0 {
        assert(!groups[0].contains(index));
        assert forall|j: int| 0 <= j < groups.len() - 1 implies !(#[trigger] groups.skip(
            1,
        )[j]).contains(index) by {
            assert(groups.skip(1)[j] == groups[j + 1]);
        }
        lemma_no_group(groups.skip(1), index);
    }
}

/// Both events of the vring are there, and the driver has enabled it.
pub open spec fn is_set_up<E>(vring: Vring<E>) -> bool {
    vring.call_fd is Some && vring.kick_fd is Some && vring.enabled
}

/// Once all vrings of the first worker's group that holds a queue are set up, the device is
/// activated with them: with the guest's memory, and with the call event, the queue and the kick
/// event of each vring of the group, in the order of the group. The vrings of the group hand their
/// events over, and are marked; nothing else changes.
pub proof fn law_ready_group_starts<B: VhostUserBackend>(
    handler: HandlerView<B>,
    index: usize,
    g: int,
    after: HandlerView<B>,
)
    requires
        handler.wf(),
        index < handler.vrings.len(),
        !handler.vrings[index as int].activated,
        is_first_group(handler.backend.device_state().worker_queues(), index, g),
        handler.mem is Some,
        ({
            let group = handler.backend.device_state().worker_queues()[g];
            forall|k: int|
                0 <= k < group.len() ==> #[trigger] group[k] < handler.vrings.len() && is_set_up(
                    handler.vrings[group[k] as int],
                )
        }),
        handler.started(index as int, after),
    ensures
        ({
            let group = handler.backend.device_state().worker_queues()[g];
            let n = group.len();
            let device = after.backend.device_state();
            &&& handler.backend.device_state().activates(
                handler.mem->0.guest_mem,
                Seq::new(n, |k: int| CallEvent(handler.vrings[group[k] as int].call_fd->0)),
                Seq::new(n, |k: int| (group[k], handler.vrings[group[k] as int].queue)),
                Seq::new(n, |k: int| handler.vrings[group[k] as int].kick_fd->0),
                device,
            )
            &&& after.backend == handler.backend.with_device(device)
            &&& after == (HandlerView {
                vrings: after.vrings,
                backend: after.backend,
                ..handler
            })
            &&& after.vrings.len() == handler.vrings.len()
            &&& forall|i: int|
                0 <= i < after.vrings.len() ==> {
                    let (old, new) = (handler.vrings[i], #[trigger] after.vrings[i]);
                    if group.contains(i as usize) {
                        new == (Vring { call_fd: None, kick_fd: None, activated: true, ..old })
                    } else {
                        new == old
                    }
                }
        }),
{
    let groups = handler.backend.device_state().worker_queues();
    let group = groups[g];
    let n = group.len();
    lemma_is_first_group(groups, index, g);
    assert forall|k: int| 0 <= k < group.len() implies #[trigger] group[k] < readiness(
        handler.vrings,
    ).len() && readiness(handler.vrings)[group[k] as int] by {
        assert(is_set_up(handler.vrings[group[k] as int]));
    }
    assert(handler.starts(index as int));
    assert(group_interrupts(handler.vrings, group) =~= Seq::new(
        n,
        |k: int| CallEvent(handler.vrings[group[k] as int].call_fd->0),
    ));
    assert(group_queues(handler.vrings, group) =~= Seq::new(
        n,
        |k: int| (group[k], handler.vrings[group[k] as int].queue),
    ));
    assert(group_kicks(handler.vrings, group) =~= Seq::new(
        n,
        |k: int| handler.vrings[group[k] as int].kick_fd->0,
    ));
}

/// Nothing happens where a device is activated with the vring already, where no worker serves its
/// queue, or where a vring of its group is not set up.
pub proof fn law_start_waits<B: VhostUserBackend>(
    handler: HandlerView<B>,
    index: usize,
    g: int,
    k: int,
    after: HandlerView<B>,
)
    requires
        handler.wf(),
        index < handler.vrings.len(),
        handler.started(index as int, after),
        ({
            let groups = handler.backend.device_state().worker_queues();
            ||| handler.vrings[index as int].activated
            ||| forall|j: int| 0 <= j < groups.len() ==> !(#[trigger] groups[j]).contains(index)
            ||| is_first_group(groups, index, g) && 0 <= k < groups[g].len() && groups[g][k]
                < handler.vrings.len() && !is_set_up(handler.vrings[groups[g][k] as int])
        }),
    ensures
        after == handler,
{
    let groups = handler.backend.device_state().worker_queues();
    if forall|j: int| 0 <= j < groups.len() ==> !(#[trigger] groups[j]).contains(index) {
        lemma_no_group(groups, index);
    }
    if is_first_group(groups, index, g) && 0 <= k < groups[g].len() {
        lemma_is_first_group(groups, index, g);
        let q = groups[g][k];
        if q < handler.vrings.len() && !is_set_up(handler.vrings[q as int]) {
            assert(!readiness(handler.vrings)[groups[g][k] as int]);
        }
    }
}

/// The queues of a group exist, up to the first that is not ready.
proof fn lemma_group_exists(ready: Seq<bool>, group: Seq<usize>, k: int)
    requires
        0 <= k < group.len(),
        forall|j: int| 0 <= j < k ==> #[trigger] group[j] < ready.len() && ready[group[j] as int],
    ensures
        group[k] >= ready.len() ==> !group_exists(ready, group),
        group[k] < ready.len() && !ready[group[k] as int] ==> group_exists(ready, group),
        group[k] < ready.len() && ready[group[k] as int] && k == group.len() - 1 ==> group_exists(
            ready,
            group,
        ),
    decreases k,
{
    if k > 0 {
        let rest = group.skip(1);
        assert(group[0] < ready.len() && ready[group[0] as int]);
        assert forall|j: int| 0 <= j < k - 1 implies #[trigger] rest[j] < ready.len()
            && ready[rest[j] as int] by {
            assert(rest[j] == group[j + 1]);
        }
        assert(rest[k - 1] == group[k]);
        lemma_group_exists(ready, rest, k - 1);
    } else if group.len() == 1 {
        assert(group_exists(ready, group.skip(1)));
    }
}

/// A device can be started, or found not to be ready, where the vring is activated already, where
/// no worker serves its queue, and where its group, all of whose queues exist up to the first that
/// is not set up, has one that is not; if all are set up, then exactly if none is named twice and
/// the guest's memory is known.
pub proof fn law_startable<B: VhostUserBackend>(
    handler: HandlerView<B>,
    index: usize,
    g: int,
    k: int,
)
    requires
        handler.wf(),
        index < handler.vrings.len(),
    ensures
        handler.vrings[index as int].activated ==> handler.startable(index as int),
        ({
            let groups = handler.backend.device_state().worker_queues();
            &&& (forall|j: int| 0 <= j < groups.len() ==> !(#[trigger] groups[j]).contains(index))
                ==> handler.startable(index as int)
            &&& is_first_group(groups, index, g) && !handler.vrings[index as int].activated && 0
                <= k < groups[g].len() && (forall|j: int|
                0 <= j < k ==> #[trigger] groups[g][j] < handler.vrings.len() && is_set_up(
                    handler.vrings[groups[g][j] as int],
                )) ==> {
                let q = groups[g][k];
                if q >= handler.vrings.len() {
                    !handler.startable(index as int)
                } else if !is_set_up(handler.vrings[q as int]) {
                    handler.startable(index as int)
                } else if k == groups[g].len() - 1 {
                    handler.startable(index as int) <==> handler.mem is Some
                        && groups[g].no_duplicates()
                } else {
                    true
                }
            }
        }),
{
    let groups = handler.backend.device_state().worker_queues();
    let ready = readiness(handler.vrings);
    if forall|j: int| 0 <= j < groups.len() ==> !(#[trigger] groups[j]).contains(index) {
        lemma_no_group(groups, index);
    }
    if is_first_group(groups, index, g) && 0 <= k < groups[g].len() && (forall|j: int|
        0 <= j < k ==> #[trigger] groups[g][j] < handler.vrings.len() && is_set_up(
            handler.vrings[groups[g][j] as int],
        )) {
        let group = groups[g];
        lemma_is_first_group(groups, index, g);
        assert forall|j: int| 0 <= j < k implies #[trigger] group[j] < ready.len()
            && ready[group[j] as int] by {
            assert(is_set_up(handler.vrings[group[j] as int]));
        }
        lemma_group_exists(ready, group, k);
        if group[k] < ready.len() && !ready[group[k] as int] {
            assert(!group_ready(ready, group));
        }
    }
}

/// What the driver acknowledges is what the device is told, and nothing else; only the vrings are
/// enabled or disabled by it, by whether protocol features are negotiated then.
pub proof fn law_acknowledged_features_reach_the_device<B: VhostUserBackend>(
    handler: HandlerView<B>,
    features: u64,
    after: HandlerView<B>,
)
    requires
        handler.features_set(features, Ok(()), after),
    ensures
        handler.owned,
        features & !(handler.backend.device_state().offered() | 0x1_4000_0000) == 0,
        handler.backend.device_state().acks(features, after.backend.device_state()),
        after.backend == handler.backend.with_device(after.backend.device_state()),
        after == (HandlerView {
            features_acked: true,
            vrings: after.vrings,
            backend: after.backend,
            ..handler
        }),
        after.vrings.len() == handler.vrings.len(),
        forall|i: int|
            0 <= i < after.vrings.len() ==> #[trigger] after.vrings[i] == (Vring {
                enabled: after.backend.device_state().acked() & 0x4000_0000 == 0,
                ..handler.vrings[i]
            }),
{
}

/// Features are refused where no frontend has the device, and where one is among them that was not
/// offered; in each case for its own reason.
pub proof fn law_features_are_refused<B: VhostUserBackend>(
    handler: HandlerView<B>,
    features: u64,
    r: Result<(), Error>,
    after: HandlerView<B>,
)
    requires
        handler.features_set(features, r, after),
    ensures
        !handler.owned <==> r == Err::<(), Error>(Error::InvalidOperation),
        handler.owned && features & !(handler.backend.device_state().offered() | 0x1_4000_0000) != 0
            <==> r == Err::<(), Error>(Error::InvalidParam),
        handler.owned && features & !(handler.backend.device_state().offered() | 0x1_4000_0000) == 0
            <==> r == Ok::<(), Error>(()),
        handler.features() == handler.backend.device_state().offered() | 0x1_4000_0000,
        handler.protocol_negotiated() <==> handler.backend.device_state().acked() & 0x4000_0000
            != 0,
{
}

/// Taking the device changes nothing but the owner; giving it up forgets what was acknowledged and
/// resets the backend, and changes nothing else.
pub proof fn law_ownership_changes_little_else<B: VhostUserBackend>(
    handler: HandlerView<B>,
    freed: HandlerView<B>,
)
    requires
        handler.given_up(freed),
    ensures
        !handler.owned ==> handler.taken() == (
            Ok::<(), Error>(()),
            HandlerView { owned: true, ..handler },
        ),
        !freed.owned,
        !freed.features_acked,
        handler.backend.resets(freed.backend),
        freed == (HandlerView {
            owned: false,
            features_acked: false,
            backend: freed.backend,
            ..handler
        }),
{
}

/// The index of the next descriptor is set for a queue that there is, and below 256, and for
/// nothing else; and it is told for any queue that there is, which resets all vrings.
pub proof fn law_vring_base_is_exact<B: VhostUserBackend>(
    handler: HandlerView<B>,
    index: u32,
    base: u32,
)
    requires
        handler.wf(),
    ensures
        handler.base_set(index, base).0 is Ok <==> index < handler.queue_num && base < 256,
        handler.base_set(index, base).0 is Err ==> handler.base_set(index, base).0 == Err::<
            (),
            Error,
        >(Error::InvalidParam),
        handler.base_set(index, base).0 is Ok ==> handler.base_set(index, base).1 == (HandlerView {
            vring_base: handler.vring_base.update(index as int, base),
            ..handler
        }),
        handler.base_got(index).0 is Ok <==> index < handler.queue_num,
        handler.base_got(index).0 is Err ==> handler.base_got(index).0 == Err::<
            VhostUserVringState,
            Error,
        >(Error::InvalidParam),
        handler.base_got(index).0 is Ok ==> {
            let after = handler.base_got(index).1;
            &&& handler.base_got(index).0->Ok_0 == (VhostUserVringState {
                index,
                num: handler.vring_base[index as int],
            })
            &&& after == (HandlerView { vrings: after.vrings, ..handler })
            &&& after.vrings.len() == handler.vrings.len()
            &&& forall|i: int|
                0 <= i < after.vrings.len() ==> #[trigger] after.vrings[i]
                    == Vring::<B::Event>::fresh(handler.vrings[i].queue.max_size)
        },
{
}

/// A kick event goes to its own vring, whose queue is ready by that; a call event goes to its own
/// vring; and so does whether it is enabled. Nothing else changes.
pub proof fn law_events_go_to_their_vring<B: VhostUserBackend>(
    handler: HandlerView<B>,
    index: int,
    fd: Option<B::Event>,
    enable: bool,
)
    requires
        0 <= index < handler.vrings.len(),
    ensures
        handler.kicked(index, fd) == (HandlerView {
            vrings: handler.vrings.update(
                index,
                Vring {
                    kick_fd: fd,
                    queue: Queue { ready: true, ..handler.vrings[index].queue },
                    ..handler.vrings[index]
                },
            ),
            ..handler
        }),
        handler.called(index, fd) == (HandlerView {
            vrings: handler.vrings.update(index, Vring { call_fd: fd, ..handler.vrings[index] }),
            ..handler
        }),
        handler.enabling(index, enable) == (HandlerView {
            vrings: handler.vrings.update(
                index,
                Vring { enabled: enable, ..handler.vrings[index] },
            ),
            ..handler
        }),
{
}

/// The addresses of a vring are those of the descriptor table, the available ring and the used ring
/// in the guest, each by the first region that holds the address of the vmm.
pub proof fn law_vring_addresses_are_translated<B: VhostUserBackend>(
    handler: HandlerView<B>,
    index: int,
    descriptor: u64,
    used: u64,
    available: u64,
)
    requires
        0 <= index < handler.vrings.len(),
        handler.mem is Some,
    ensures
        ({
            let maps = handler.mem->0.vmm_maps;
            let after = handler.with_addresses(index, descriptor, used, available);
            let (old, new) = (handler.vrings[index].queue, after.vrings[index].queue);
            &&& handler.maps(descriptor) ==> guest_address(maps, descriptor) == Some(
                new.desc_table,
            )
            &&& handler.maps(available) ==> guest_address(maps, available) == Some(new.avail_ring)
            &&& handler.maps(used) ==> guest_address(maps, used) == Some(new.used_ring)
            &&& new.ready == old.ready && new.max_size == old.max_size
            &&& after == (HandlerView {
                vrings: handler.vrings.update(
                    index,
                    Vring { queue: new, ..handler.vrings[index] },
                ),
                ..handler
            })
        }),
        handler.maps(used) <==> searchable(handler.mem->0.vmm_maps, used) && guest_address(
            handler.mem->0.vmm_maps,
            used,
        ) is Some,
{
}

/// The configuration may be written from 0x100 on and up to 0x1000.
pub proof fn law_config_writes_stay_in_bounds(offset: u32, len: nat)
    ensures
        len < 0x1_0000_0000 ==> (config_write(offset, len) == Ok::<(), Error>(()) <==> 0x100
            <= offset < 0x1000 && offset + len <= 0x1000),
        config_write(offset, len) is Err ==> config_write(offset, len) == Err::<(), Error>(
            Error::InvalidParam,
        ),
        config_write(offset, len + 0x1_0000_0000) == config_write(offset, len),
{
}

/// A handler that is new knows two queues of up to 256 descriptors, and nothing else; its backend
/// is the one that it was made for.
pub proof fn law_fresh_handler<B: VhostUserBackend>(backend: B, i: int)
    requires
        0 <= i < 2,
    ensures
        ({
            let h = HandlerView::fresh(backend);
            &&& h.wf()
            &&& h.queue_num == 2
            &&& !h.owned && !h.features_acked
            &&& h.vring_num[i] == 0 && h.vring_base[i] == 0
            &&& h.err_fd[i] is None
            &&& h.vu_req is None && h.mem is None
            &&& h.vrings[i] == Vring::<B::Event>::fresh(256)
            &&& h.backend == backend
        }),
{
}

/// Protocol features reach the backend as they are acknowledged, and a memory table replaces the
/// memory that was known; neither changes anything else.
pub proof fn law_tables_and_protocol_features_are_kept<B: VhostUserBackend>(
    handler: HandlerView<B>,
    features: u64,
    after: HandlerView<B>,
    regions: Seq<VhostUserMemoryRegion>,
    guest_mem: B::GuestMemory,
)
    ensures
        handler.protocol_set(features, after) <==> handler.backend.acks_protocol(
            features,
            after.backend,
        ) && after == (HandlerView { backend: after.backend, ..handler }),
        ({
            let known = handler.with_memory(regions, guest_mem);
            &&& known.mem is Some
            &&& known.mem->0.guest_mem == guest_mem
            &&& known.mem->0.vmm_maps == region_mappings(regions)
            &&& known == (HandlerView { mem: known.mem, ..handler })
        }),
{
}

/// A memory table names a file for each region, or is refused.
pub proof fn law_each_region_has_a_file(
    contexts: Seq<VhostUserMemoryRegion>,
    fds: Seq<i32>,
    i: int,
)
    ensures
        contexts.len() != fds.len() <==> table_files(contexts, fds) == Err::<
            Seq<RegionFile>,
            Error,
        >(Error::InvalidParam),
        contexts.len() == fds.len() ==> {
            let files = table_files(contexts, fds)->Ok_0;
            &&& table_files(contexts, fds) is Ok
            &&& files.len() == contexts.len()
            &&& 0 <= i < files.len() ==> files[i].fd == fds[i] && files[i].size
                == contexts[i].memory_size && files[i].guest_addr == contexts[i].guest_phys_addr
                && files[i].offset == contexts[i].mmap_offset
        },
{
}

/// The number of descriptors is set for a queue that there is, from 1 to 256, and for nothing else.
pub proof fn law_vring_num_is_exact<B: VhostUserBackend>(
    handler: HandlerView<B>,
    index: u32,
    num: u32,
)
    requires
        handler.wf(),
    ensures
        index < handler.queue_num && 1 <= num <= 256 ==> handler.num_set(index, num) == (
            Ok::<(), Error>(()),
            HandlerView { vring_num: handler.vring_num.update(index as int, num), ..handler },
        ),
        !(index < handler.queue_num && 1 <= num <= 256) ==> handler.num_set(index, num) == (
            Err::<(), Error>(Error::InvalidParam),
            handler,
        ),
{
}

/// Addresses are set for a queue that there is, once the guest's memory is known; an event for
/// errors for any queue that there is.
pub proof fn law_addresses_need_memory<B: VhostUserBackend>(
    handler: HandlerView<B>,
    index: u32,
    ring: u8,
    fd: Option<B::Event>,
    descriptor: u64,
    used: u64,
    available: u64,
)
    requires
        handler.wf(),
    ensures
        index < handler.queue_num && handler.mem is Some ==> handler.addr_set(
            index,
            descriptor,
            used,
            available,
        ) == (
            Ok::<(), Error>(()),
            handler.with_addresses(index as int, descriptor, used, available),
        ),
        !(index < handler.queue_num && handler.mem is Some) ==> handler.addr_set(
            index,
            descriptor,
            used,
            available,
        ) == (Err::<(), Error>(Error::InvalidParam), handler),
        ring < handler.queue_num ==> handler.err_set(ring, fd) == (
            Ok::<(), Error>(()),
            HandlerView { err_fd: handler.err_fd.update(ring as int, fd), ..handler },
        ),
        ring >= handler.queue_num ==> handler.err_set(ring, fd) == (
            Err::<(), Error>(Error::InvalidParam),
            handler,
        ),
{
}

/// A kick or call event for a queue that there is is accepted, and the device is started then if
/// all is ready; so is enabling a vring, once protocol features are negotiated. All else is
/// refused, for its own reason, and changes nothing.
pub proof fn law_events_are_accepted<B: VhostUserBackend>(
    handler: HandlerView<B>,
    index: u8,
    ring: u32,
    fd: Option<B::Event>,
    enable: bool,
    r: Result<(), Error>,
    after: HandlerView<B>,
)
    ensures
        handler.kick_set(index, fd, r, after) <==> if index < handler.queue_num {
            r == Ok::<(), Error>(()) && handler.kicked(index as int, fd).started(
                index as int,
                after,
            )
        } else {
            r == Err::<(), Error>(Error::InvalidParam) && after == handler
        },
        handler.call_set(index, fd, r, after) <==> if index < handler.queue_num {
            r == Ok::<(), Error>(()) && handler.called(index as int, fd).started(
                index as int,
                after,
            )
        } else {
            r == Err::<(), Error>(Error::InvalidParam) && after == handler
        },
        handler.enable_set(ring, enable, r, after) <==> if handler.backend.device_state().acked()
            & 0x4000_0000 == 0 {
            r == Err::<(), Error>(Error::InvalidOperation) && after == handler
        } else if ring >= handler.queue_num {
            r == Err::<(), Error>(Error::InvalidParam) && after == handler
        } else {
            r == Ok::<(), Error>(()) && handler.enabling(ring as int, enable).started(
                ring as int,
                after,
            )
        },
{
}

/// A read of the configuration that stays below 0x1000 gives as many bytes as it asks for, as the
/// device puts them into zeroed bytes; any other is refused.
pub proof fn law_config_reads_stay_in_bounds<B: VhostUserBackend>(
    handler: HandlerView<B>,
    offset: u32,
    size: u32,
    r: Result<Seq<u8>, Error>,
)
    requires
        handler.config_got(offset, size, r),
    ensures
        r is Ok <==> offset < 0x1000 && offset + size <= 0x1000,
        r is Err ==> r == Err::<Seq<u8>, Error>(Error::InvalidParam),
        r is Ok ==> r->Ok_0.len() == size && handler.backend.device_state().config_read(
            offset as u64,
            Seq::new(size as nat, |i: int| 0u8),
            r->Ok_0,
        ),
{
}

} // verus!
