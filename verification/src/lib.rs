//! Host-side bridge to a pluggable smart-contract virtual machine.
//!
//! The crate models the boundary between a host (a blockchain client) and an
//! independently built virtual machine: loading a VM module and validating the
//! binary-interface version it reports, marshalling call descriptors and
//! results across the boundary, the handle that owns a loaded instance, and
//! the fixed callback table through which the VM reads and writes host state.

pub mod codec;
pub mod host;
pub mod loader;
pub mod message;
pub mod types;
pub mod vm;

pub use loader::{create, load, EvmcLoaderErrorCode, ModuleProbe, VmMetadata};
pub use vm::{EvmcVm, RawVm};
