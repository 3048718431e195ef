//! A virtual block device whose content is fetched once from a remote object
//! store and then served from memory.
//!
//! The crate holds the decisions of such a device: how a request descriptor is
//! decoded, what a read or a write does to the content, how a queue reacts to
//! completions of a backing resource, and in which order the device is
//! created, configured, started, stopped and deleted. Talking to the kernel
//! and to the object store is left to the program around it.

pub mod errno;
pub mod error;
pub mod descriptor;
pub mod content;
pub mod sync_queue;
pub mod device;
pub mod control;
pub mod async_queue;
