//! The backend of a vhost-user block device.

use vstd::prelude::*;

use super::backend::{VhostUserBackend, VirtioDevice};
use super::message::supported_protocol_features;

verus! {

use super::message::device_protocol_features;

/// Speaks for a block device.
pub struct BlockBackend<D> {
    pub device: D,
    pub acked_protocol_features: u64,
}

impl<D> BlockBackend<D> {
    /// Makes the backend of a device, for which no protocol features are acknowledged yet.
    pub fn new(device: D) -> (r: Self)
        ensures
            r == (BlockBackend { device, acked_protocol_features: 0 }),
    {
        BlockBackend { device, acked_protocol_features: 0 }
    }
}

impl<D: VirtioDevice> VhostUserBackend for BlockBackend<D> {
    type Event = D::Event;

    type GuestMemory = D::GuestMemory;

    type Device = D;

    open spec fn device_state(&self) -> D {
        self.device
    }

    open spec fn with_device(self, device: D) -> Self {
        BlockBackend { device, ..self }
    }

    open spec fn offered_protocol(&self) -> u64 {
        device_protocol_features()
    }

    open spec fn acked_protocol(&self) -> u64 {
        self.acked_protocol_features
    }

    open spec fn acks_protocol(&self, value: u64, after: Self) -> bool {
        after == (BlockBackend { acked_protocol_features: value, ..*self })
    }

    open spec fn resets(&self, after: Self) -> bool {
        &&& self.device.resets(after.device)
        &&& after.acked_protocol_features == 0
    }

    fn protocol_features(&self) -> (r: u64) {
        supported_protocol_features()
    }

    fn ack_protocol_features(&mut self, value: u64) {
        self.acked_protocol_features = value;
    }

    fn acked_protocol_features(&self) -> (r: u64) {
        self.acked_protocol_features
    }

    fn reset(&mut self) {
        self.device.reset();
        self.acked_protocol_features = 0;
    }

    fn device(&self) -> (r: &D) {
        &self.device
    }

    fn device_mut(&mut self) -> (r: &mut D) {
        &mut self.device
    }
}

/// The backend speaks for its device: it has what the device has, changes only the device with it,
/// and keeps the protocol features that were acknowledged last, until it is reset along with the
/// device.
pub proof fn law_block_backend_speaks_for_its_device<D: VirtioDevice>(
    backend: BlockBackend<D>,
    after: BlockBackend<D>,
    device: D,
    value: u64,
)
    ensures
        backend.device_state() == backend.device,
        backend.with_device(device).device == device,
        backend.with_device(device).acked_protocol_features == backend.acked_protocol_features,
        backend.acked_protocol() == backend.acked_protocol_features,
        backend.offered_protocol() == device_protocol_features(),
        backend.acks_protocol(value, after) <==> after.device == backend.device
            && after.acked_protocol_features == value,
        VhostUserBackend::resets(&backend, after) <==> backend.device.resets(after.device)
            && after.acked_protocol_features == 0,
{
}

} // verus!
