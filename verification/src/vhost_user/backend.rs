//! What a vhost-user device is made of: a virtio device, and a backend that speaks for it.

use vstd::prelude::*;

use crate::queue::Queue;

verus! {

/// The status that tells the driver of used buffers.
pub const INTERRUPT_STATUS_USED_RING: u32 = 1;

/// The status that tells the driver of a changed configuration.
pub const INTERRUPT_STATUS_CONFIG_CHANGED: u32 = 2;

/// The event by which a device interrupts the driver, over the vmm. It is a counter that wakes
/// whoever waits for it when something other than 0 is written.
#[derive(Debug, PartialEq, Eq)]
pub struct CallEvent<E>(pub E);

impl<E> CallEvent<E> {
    /// The event to write to, and what to write, to deliver virtual interrupt to the guest.
    pub fn signal(&self, vector: u16, interrupt_status_mask: u32) -> (r: (&E, u64))
        ensures
            *r.0 == self.0,
            r.1 == interrupt_status_mask,
    {
        (&self.0, interrupt_status_mask as u64)
    }

    /// The event to write to, and what to write, to notify the driver that buffers have been
    /// placed in the used queue.
    pub fn signal_used_queue(&self, vector: u16) -> (r: (&E, u64))
        ensures
            *r.0 == self.0,
            r.1 == INTERRUPT_STATUS_USED_RING,
            r.1 != 0,
    {
        self.signal(vector, INTERRUPT_STATUS_USED_RING)
    }

    /// The event to write to, and what to write, to notify the driver that the device
    /// configuration has changed.
    pub fn signal_config_changed(&self) -> (r: (&E, u64))
        ensures
            *r.0 == self.0,
            r.1 == INTERRUPT_STATUS_CONFIG_CHANGED,
            r.1 != 0,
    {
        self.signal(0, INTERRUPT_STATUS_CONFIG_CHANGED)
    }

    /// The event to signal resampling is needed: there is none.
    pub fn get_resample_evt(&self) -> (r: Option<&E>)
        ensures
            r is None,
    {
        None
    }

    /// The event to write to, and what to write, to interrupt the driver anew. Doesn't read the
    /// resample event, it assumes the resample has been requested; there is no status here that
    /// would tell that the driver has nothing to look at.
    pub fn do_interrupt_resample(&self) -> (r: (&E, u64))
        ensures
            *r.0 == self.0,
            r.1 == INTERRUPT_STATUS_USED_RING,
            r.1 != 0,
    {
        self.signal(0, INTERRUPT_STATUS_USED_RING)
    }
}

/// A virtio device, for its users to implement.
///
/// The spec functions name what the methods do, so that it can be spoken of; a device that says
/// more of them is held to it.
pub trait VirtioDevice: Sized {
    /// An event that the device waits for or signals.
    type Event;

    /// The guest's memory.
    type GuestMemory;

    /// The features that the device offers.
    closed spec fn offered(&self) -> u64 {
        arbitrary()
    }

    /// The features that the driver has acknowledged.
    closed spec fn acked(&self) -> u64 {
        arbitrary()
    }

    /// The device has become `after` by an acknowledgement of features.
    closed spec fn acks(&self, value: u64, after: Self) -> bool {
        arbitrary()
    }

    /// The queues that each worker of the device serves.
    closed spec fn worker_queues(&self) -> Seq<Seq<usize>> {
        arbitrary()
    }

    /// A read of the configuration from `offset` on has turned `before` into `data`.
    closed spec fn config_read(&self, offset: u64, before: Seq<u8>, data: Seq<u8>) -> bool {
        arbitrary()
    }

    /// The device has become `after` by its activation.
    closed spec fn activates(
        &self,
        mem: Self::GuestMemory,
        interrupts: Seq<CallEvent<Self::Event>>,
        queues: Seq<(usize, Queue)>,
        queue_evts: Seq<Self::Event>,
        after: Self,
    ) -> bool {
        arbitrary()
    }

    /// The device has become `after` by a reset.
    closed spec fn resets(&self, after: Self) -> bool {
        arbitrary()
    }

    fn features(&self) -> (r: u64)
        ensures
            r == self.offered(),
    ;

    fn ack_features(&mut self, value: u64)
        ensures
            old(self).acks(value, *final(self)),
    ;

    fn acked_features(&self) -> (r: u64)
        ensures
            r == self.acked(),
    ;

    fn queues_per_worker(&self) -> (r: Vec<Vec<usize>>)
        ensures
            r@.map_values(|queues: Vec<usize>| queues@) == self.worker_queues(),
    ;

    fn read_config(&self, offset: u64, data: &mut [u8])
        ensures
            final(data)@.len() == old(data)@.len(),
            self.config_read(offset, old(data)@, final(data)@),
    ;

    /// Activates the device with some of its queues. Each comes with its index, under which the
    /// handler keeps its state, and is given as it is at the moment.
    fn activate_vhost(
        &mut self,
        mem: &Self::GuestMemory,
        interrupts: Vec<CallEvent<Self::Event>>,
        queues: Vec<(usize, Queue)>,
        queue_evts: Vec<Self::Event>,
    )
        ensures
            old(self).activates(*mem, interrupts@, queues@, queue_evts@, *final(self)),
    ;

    fn reset(&mut self) -> (r: bool)
        ensures
            old(self).resets(*final(self)),
    ;
}

/// The backend of a vhost-user device, for its users to implement.
pub trait VhostUserBackend: Sized {
    type Event;

    type GuestMemory;

    type Device: VirtioDevice<Event = Self::Event, GuestMemory = Self::GuestMemory>;

    /// The device of the backend.
    closed spec fn device_state(&self) -> Self::Device {
        arbitrary()
    }

    /// The same backend with its device in another state.
    closed spec fn with_device(self, device: Self::Device) -> Self {
        arbitrary()
    }

    /// The protocol features that the backend offers.
    closed spec fn offered_protocol(&self) -> u64 {
        arbitrary()
    }

    /// The protocol features that the frontend has acknowledged.
    closed spec fn acked_protocol(&self) -> u64 {
        arbitrary()
    }

    /// The backend has become `after` by an acknowledgement of protocol features.
    closed spec fn acks_protocol(&self, value: u64, after: Self) -> bool {
        arbitrary()
    }

    /// The backend has become `after` by a reset.
    closed spec fn resets(&self, after: Self) -> bool {
        arbitrary()
    }

    fn protocol_features(&self) -> (r: u64)
        ensures
            r == self.offered_protocol(),
    ;

    fn ack_protocol_features(&mut self, value: u64)
        ensures
            old(self).acks_protocol(value, *final(self)),
    ;

    fn acked_protocol_features(&self) -> (r: u64)
        ensures
            r == self.acked_protocol(),
    ;

    fn reset(&mut self)
        ensures
            old(self).resets(*final(self)),
    ;

    fn device(&self) -> (r: &Self::Device)
        ensures
            *r == self.device_state(),
    ;

    fn device_mut(&mut self) -> (r: &mut Self::Device)
        ensures
            *r == old(self).device_state(),
            *final(self) == old(self).with_device(*final(r)),
            final(self).device_state() == *final(r),
    ;

    fn queues_per_worker(&self) -> (r: Vec<Vec<usize>>)
        ensures
            r@.map_values(|queues: Vec<usize>| queues@) == self.device_state().worker_queues(),
    {
        self.device().queues_per_worker()
    }

    fn features(&self) -> (r: u64)
        ensures
            r == self.device_state().offered(),
    {
        self.device().features()
    }

    fn ack_features(&mut self, value: u64)
        ensures
            old(self).device_state().acks(value, final(self).device_state()),
            *final(self) == old(self).with_device(final(self).device_state()),
    {
        self.device_mut().ack_features(value)
    }

    fn acked_features(&self) -> (r: u64)
        ensures
            r == self.device_state().acked(),
    {
        self.device().acked_features()
    }

    fn read_config(&self, offset: u64, data: &mut [u8])
        ensures
            final(data)@.len() == old(data)@.len(),
            self.device_state().config_read(offset, old(data)@, final(data)@),
    {
        self.device().read_config(offset, data)
    }

    fn activate_vhost(
        &mut self,
        mem: &Self::GuestMemory,
        interrupts: Vec<CallEvent<Self::Event>>,
        queues: Vec<(usize, Queue)>,
        queue_evts: Vec<Self::Event>,
    )
        ensures
            old(self).device_state().activates(
                *mem,
                interrupts@,
                queues@,
                queue_evts@,
                final(self).device_state(),
            ),
            *final(self) == old(self).with_device(final(self).device_state()),
    {
        self.device_mut().activate_vhost(mem, interrupts, queues, queue_evts)
    }
}

/// Only the device of a backend has changed, by an acknowledgement of features.
pub open spec fn backend_acks<B: VhostUserBackend>(before: B, value: u64, after: B) -> bool {
    &&& before.device_state().acks(value, after.device_state())
    &&& after == before.with_device(after.device_state())
}

/// Only the device of a backend has changed, by its activation.
pub open spec fn backend_activates<B: VhostUserBackend>(
    before: B,
    mem: B::GuestMemory,
    interrupts: Seq<CallEvent<B::Event>>,
    queues: Seq<(usize, Queue)>,
    queue_evts: Seq<B::Event>,
    after: B,
) -> bool {
    &&& before.device_state().activates(mem, interrupts, queues, queue_evts, after.device_state())
    &&& after == before.with_device(after.device_state())
}

} // verus!
