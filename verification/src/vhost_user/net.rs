//! The backend of a vhost-user net device.

use vstd::prelude::*;

use super::backend::{VhostUserBackend, VirtioDevice};
use super::message::supported_protocol_features;

verus! {

use super::message::device_protocol_features;

/// Speaks for a net device.
pub struct NetBackend<D> {
    pub device: D,
    pub acked_protocol_features: u64,
}

impl<D> NetBackend<D> {
    /// Makes the backend of a device, for which no protocol features are acknowledged yet.
    pub fn new(device: D) -> (r: Self)
        ensures
            r == (NetBackend { device, acked_protocol_features: 0 }),
    {
        NetBackend { device, acked_protocol_features: 0 }
    }

    /// The number of queues that the device has: one to receive and one to transmit.
    pub fn expected_queue_num(&self) -> (r: usize)
        ensures
            r == 2,
    {
        2
    }
}

impl<D: VirtioDevice> VhostUserBackend for NetBackend<D> {
    type Event = D::Event;

    type GuestMemory = D::GuestMemory;

    type Device = D;

    open spec fn device_state(&self) -> D {
        self.device
    }

    open spec fn with_device(self, device: D) -> Self {
        NetBackend { device, ..self }
    }

    open spec fn offered_protocol(&self) -> u64 {
        device_protocol_features()
    }

    open spec fn acked_protocol(&self) -> u64 {
        self.acked_protocol_features
    }

    open spec fn acks_protocol(&self, value: u64, after: Self) -> bool {
        after == (NetBackend { acked_protocol_features: value, ..*self })
    }

    open spec fn resets(&self, after: Self) -> bool {
        &&& self.device.resets(after.device)
        &&& after.acked_protocol_features == 0
    }

    fn protocol_features(&self) -> (r: u64) {
        supported_protocol_features()
    }

    fn ack_protocol_features(&mut self, value: u64) {
        // Note: slave that reported VHOST_USER_F_PROTOCOL_FEATURES must
        // support this message even before VHOST_USER_SET_FEATURES was
        // called.
        // What happens if the master calls set_features() with
        // VHOST_USER_F_PROTOCOL_FEATURES cleared after calling this
        // interface?
        self.acked_protocol_features = value;
    }

    fn acked_protocol_features(&self) -> (r: u64) {
        self.acked_protocol_features
    }

    fn reset(&mut self) {
        self.device.reset();
        self.acked_protocol_features = 0;
    }

    fn device(&self) -> (r: &D) {
        &self.device
    }

    fn device_mut(&mut self) -> (r: &mut D) {
        &mut self.device
    }
}

/// The backend speaks for its device: it has what the device has, changes only the device with it,
/// and keeps the protocol features that were acknowledged last, until it is reset along with the
/// device.
pub proof fn law_net_backend_speaks_for_its_device<D: VirtioDevice>(
    backend: NetBackend<D>,
    after: NetBackend<D>,
    device: D,
    value: u64,
)
    ensures
        backend.device_state() == backend.device,
        backend.with_device(device).device == device,
        backend.with_device(device).acked_protocol_features == backend.acked_protocol_features,
        backend.acked_protocol() == backend.acked_protocol_features,
        backend.offered_protocol() == device_protocol_features(),
        backend.acks_protocol(value, after) <==> after.device == backend.device
            && after.acked_protocol_features == value,
        VhostUserBackend::resets(&backend, after) <==> backend.device.resets(after.device)
            && after.acked_protocol_features == 0,
{
}

} // verus!
