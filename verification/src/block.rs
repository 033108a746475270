//! A virtio block device on a disk image.
//!
//! A request goes through [`process`], which reads its header, has it executed by [`request`] and
//! answers with a status byte. [`worker`] holds the tasks that run these, [`device`] what the
//! driver sees of the device.

pub mod config;
pub mod device;
pub mod error;
pub mod process;
pub mod request;
pub mod request_laws;
pub mod worker;
