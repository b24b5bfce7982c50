//! A verified NVMe driver core.
//!
//! The core speaks the NVMe wire contract: it encodes 64-byte submission
//! queue entries, runs the paired submission/completion rings with phase-tag
//! detection, builds PRP descriptor chains for host buffers, computes
//! doorbell addresses, and brings a controller from reset to a usable state.
//! Memory translation and the actual loads and stores are left to two small
//! collaborator traits, so the logic itself carries contracts and is checked
//! by Verus.

pub mod bus;
pub mod cmd;
pub mod device;
pub mod error;
pub mod identify;
pub mod io;
pub mod memory;
pub mod queues;

pub use device::{NvmeControllerData, NvmeDevice};
pub use error::NvmeError;
pub use memory::NvmeAllocator;
