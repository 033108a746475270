//! The device side of the vhost-user protocol.

pub mod backend;
pub mod block;
pub mod handler;
pub mod handler_laws;
pub mod memory;
pub mod message;
pub mod net;
pub mod slave;
