//! What vhost-user messages carry, and the limits that the protocol sets.

use vstd::prelude::*;

use vhost::vhost_user::message::{
    VhostUserProtocolFeatures, VhostUserVirtioFeatures, VHOST_USER_CONFIG_OFFSET,
    VHOST_USER_CONFIG_SIZE,
};

verus! {

/// Why a request is refused.
#[derive(Debug, Clone, Copy, PartialEq, Eq)]
pub enum Error {
    /// Invalid parameters.
    InvalidParam,
    /// The request is not valid in the present state.
    InvalidOperation,
    /// Invalid message format, flag or content.
    InvalidMessage,
    /// An address lies in no memory that was announced.
    MissingMemoryMapping,
}

/// A channel for requests to the frontend.
#[verifier::external_type_specification]
#[verifier::external_body]
pub struct ExSlaveFsCacheReq(vhost::vhost_user::SlaveFsCacheReq);

/// A region of the guest's memory, as the frontend announces it.
#[derive(Debug, Clone, Copy, PartialEq, Eq)]
pub struct VhostUserMemoryRegion {
    /// Guest physical address of the memory region.
    pub guest_phys_addr: u64,
    /// Size of the memory region.
    pub memory_size: u64,
    /// Virtual address in the frontend.
    pub user_addr: u64,
    /// Offset where region starts in the mapped memory.
    pub mmap_offset: u64,
}

/// The state of a vring.
#[derive(Debug, Clone, Copy, PartialEq, Eq)]
pub struct VhostUserVringState {
    /// Vring index.
    pub index: u32,
    /// A count that goes with the vring.
    pub num: u32,
}

/// The virtio feature bit that stands for the negotiation of protocol features.
pub open spec fn protocol_features_bit() -> u64 {
    0x4000_0000
}

/// `VhostUserVirtioFeatures::PROTOCOL_FEATURES` of the vhost crate, which is bit 30.
#[verifier::external_body]
pub(crate) fn virtio_protocol_features() -> (r: u64)
    ensures
        r == protocol_features_bit(),
{
    VhostUserVirtioFeatures::PROTOCOL_FEATURES.bits()
}

/// One past the largest offset of the configuration space.
pub open spec fn config_end() -> u32 {
    0x1000
}

/// `VHOST_USER_CONFIG_SIZE` of the vhost crate, which is 0x1000.
#[verifier::external_body]
pub(crate) fn user_config_size() -> (r: u32)
    ensures
        r == config_end(),
{
    VHOST_USER_CONFIG_SIZE
}

/// The offset from which on the configuration space may be written.
pub open spec fn config_start() -> u32 {
    0x100
}

/// `VHOST_USER_CONFIG_OFFSET` of the vhost crate, which is 0x100.
#[verifier::external_body]
pub(crate) fn user_config_offset() -> (r: u32)
    ensures
        r == config_start(),
{
    VHOST_USER_CONFIG_OFFSET
}

/// All protocol features: bits 0 to 16.
pub open spec fn all_protocol_features() -> u64 {
    0x1_ffff
}

/// `VhostUserProtocolFeatures::all` of the vhost crate: every feature that the crate knows, which
/// are bits 0 to 16.
#[verifier::external_body]
fn known_protocol_features() -> (r: u64)
    ensures
        r == all_protocol_features(),
{
    VhostUserProtocolFeatures::all().bits()
}

/// The protocol feature by which the device sends requests to the frontend.
pub open spec fn slave_req_bit() -> u64 {
    0x20
}

/// `VhostUserProtocolFeatures::SLAVE_REQ` of the vhost crate, which is bit 5.
#[verifier::external_body]
fn protocol_slave_req() -> (r: u64)
    ensures
        r == slave_req_bit(),
{
    VhostUserProtocolFeatures::SLAVE_REQ.bits()
}

/// The protocol feature of a shared buffer that tracks requests in flight.
pub open spec fn inflight_shmfd_bit() -> u64 {
    0x1000
}

/// `VhostUserProtocolFeatures::INFLIGHT_SHMFD` of the vhost crate, which is bit 12.
#[verifier::external_body]
fn protocol_inflight_shmfd() -> (r: u64)
    ensures
        r == inflight_shmfd_bit(),
{
    VhostUserProtocolFeatures::INFLIGHT_SHMFD.bits()
}

/// The protocol feature by which memory regions come and go one by one.
pub open spec fn configure_mem_slots_bit() -> u64 {
    0x8000
}

/// `VhostUserProtocolFeatures::CONFIGURE_MEM_SLOTS` of the vhost crate, which is bit 15.
#[verifier::external_body]
fn protocol_configure_mem_slots() -> (r: u64)
    ensures
        r == configure_mem_slots_bit(),
{
    VhostUserProtocolFeatures::CONFIGURE_MEM_SLOTS.bits()
}

/// The protocol features of the devices here: all but memory slots, the tracking of requests in
/// flight and requests to the frontend.
pub open spec fn device_protocol_features() -> u64 {
    all_protocol_features() & !configure_mem_slots_bit() & !inflight_shmfd_bit() & !slave_req_bit()
}

/// The protocol features of the devices here.
pub fn supported_protocol_features() -> (r: u64)
    ensures
        r == device_protocol_features(),
{
    known_protocol_features() & !protocol_configure_mem_slots() & !protocol_inflight_shmfd()
        & !protocol_slave_req()
}

/// A protocol feature that the devices here do not offer is one of memory slots, the tracking of
/// requests in flight and requests to the frontend, and none of these is offered.
pub proof fn law_protocol_features_left_out(feature: u64)
    requires
        feature & all_protocol_features() == feature,
    ensures
        device_protocol_features() & feature == 0 <==> feature & (configure_mem_slots_bit()
            | inflight_shmfd_bit() | slave_req_bit()) == feature,
{
    assert(feature & 0x1_ffffu64 == feature ==> ((0x1_ffffu64 & !0x8000u64 & !0x1000u64 & !0x20u64)
        & feature == 0 <==> feature & (0x8000u64 | 0x1000u64 | 0x20u64) == feature))
        by (bit_vector);
}

} // verus!
