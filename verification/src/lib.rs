//! The control paths of virtio devices that run in a process of their own, and of the jail that
//! such a process runs in.
//!
//! - [`block`]: a block device. Its requests, the tasks of its worker, its configuration space and
//!   its life cycle.
//! - [`vhost_user`]: the device side of the vhost-user protocol, by which the vmm sets up a device
//!   in another process.
//! - [`jail`]: which calls configure a jail by libminijail, and the way of a process into it.
//! - [`queue`], [`le`], [`text`]: virtqueues, little-endian integers and decimal text.
//!
//! Files, guest memory, threads and events are the caller's. Where a decision depends on what came
//! of an operation on them, the library says what to do next and is told the outcome. Handles that
//! the library only passes along are type parameters.

pub mod block;
pub mod jail;
pub mod le;
pub mod queue;
pub mod text;
pub mod vhost_user;
