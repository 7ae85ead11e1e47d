//! Loading a VM module: validating what the resolution steps yielded and
//! producing either a usable handle or a well-defined failure status —
//! never a partially initialized handle.
//!
//! Resolving the named module, locating its creation entry point and
//! invoking it are the operating system's and the module's work; they happen
//! outside this layer, which receives their outcome as a [`ModuleProbe`].
//! Everything decided here — which status each outcome maps to, and that the
//! reported interface version is matched exactly, never coerced — is stated
//! and proved.

use vstd::prelude::*;

use crate::types::EVMC_ABI_VERSION;
use crate::vm::EvmcVm;

verus! {

/// The status a load attempt ends with: success, or one structured
/// load-time failure class.  A closed set, mirrored verbatim by both sides.
#[derive(Clone, Copy, PartialEq, Eq, Structural, Debug)]
pub enum EvmcLoaderErrorCode {
    Success,
    CannotOpen,
    SymbolNotFound,
    InvalidArgument,
    InstanceCreationFailure,
    AbiVersionMismatch,
    UnspecifiedError,
}

/// The integer code the binary interface assigns to each loader status.
pub open spec fn spec_loader_code(c: EvmcLoaderErrorCode) -> int {
    match c {
        EvmcLoaderErrorCode::Success => 0,
        EvmcLoaderErrorCode::CannotOpen => 1,
        EvmcLoaderErrorCode::SymbolNotFound => 2,
        EvmcLoaderErrorCode::InvalidArgument => 3,
        EvmcLoaderErrorCode::InstanceCreationFailure => 4,
        EvmcLoaderErrorCode::AbiVersionMismatch => 5,
        EvmcLoaderErrorCode::UnspecifiedError => 6,
    }
}

/// Encodes a loader status as the integer that crosses the boundary.
pub fn loader_code(c: &EvmcLoaderErrorCode) -> (r: u32)
    ensures
        r as int == spec_loader_code(*c),
{
    match c {
        EvmcLoaderErrorCode::Success => 0,
        EvmcLoaderErrorCode::CannotOpen => 1,
        EvmcLoaderErrorCode::SymbolNotFound => 2,
        EvmcLoaderErrorCode::InvalidArgument => 3,
        EvmcLoaderErrorCode::InstanceCreationFailure => 4,
        EvmcLoaderErrorCode::AbiVersionMismatch => 5,
        EvmcLoaderErrorCode::UnspecifiedError => 6,
    }
}

/// The inverse of `spec_loader_code`: defined exactly on the closed code set.
pub open spec fn spec_loader_from_code(code: int) -> Option<EvmcLoaderErrorCode> {
    if code == 0 {
        Some(EvmcLoaderErrorCode::Success)
    } else if code == 1 {
        Some(EvmcLoaderErrorCode::CannotOpen)
    } else if code == 2 {
        Some(EvmcLoaderErrorCode::SymbolNotFound)
    } else if code == 3 {
        Some(EvmcLoaderErrorCode::InvalidArgument)
    } else if code == 4 {
        Some(EvmcLoaderErrorCode::InstanceCreationFailure)
    } else if code == 5 {
        Some(EvmcLoaderErrorCode::AbiVersionMismatch)
    } else if code == 6 {
        Some(EvmcLoaderErrorCode::UnspecifiedError)
    } else {
        None
    }
}

/// Decodes a loader-status integer from the boundary; `None` outside the
/// closed set.
pub fn loader_from_code(code: u32) -> (r: Option<EvmcLoaderErrorCode>)
    ensures
        r == spec_loader_from_code(code as int),
{
    match code {
        0 => Some(EvmcLoaderErrorCode::Success),
        1 => Some(EvmcLoaderErrorCode::CannotOpen),
        2 => Some(EvmcLoaderErrorCode::SymbolNotFound),
        3 => Some(EvmcLoaderErrorCode::InvalidArgument),
        4 => Some(EvmcLoaderErrorCode::InstanceCreationFailure),
        5 => Some(EvmcLoaderErrorCode::AbiVersionMismatch),
        6 => Some(EvmcLoaderErrorCode::UnspecifiedError),
        _ => None,
    }
}

/// Every loader status round-trips through its boundary code.
pub proof fn lemma_loader_code_roundtrip(c: EvmcLoaderErrorCode)
    ensures
        spec_loader_from_code(spec_loader_code(c)) == Some(c),
{
}

/// What a freshly created instance reports about itself, read once at load
/// time and immutable for the VM's lifetime.  A name or version that was
/// not valid text arrives as `None` and surfaces later as an encoding
/// error, not as a crash.
pub struct VmMetadata {
    pub abi_version: i32,
    pub name: Option<String>,
    pub version: Option<String>,
    pub capabilities: u32,
}

/// The outcome of the module-resolution steps, in the order they run: the
/// name may be unusable, the module may fail to open, the well-known entry
/// point may be absent, the entry point may yield no instance — or an
/// instance exists and reports its metadata.
pub enum ModuleProbe<V> {
    InvalidName,
    CannotOpen,
    SymbolNotFound,
    InstanceCreationFailed,
    Created(V, VmMetadata),
}

/// The status a probe outcome maps to.  The reported interface version must
/// equal the version this layer was built against; a mismatch is fatal and
/// is never silently coerced.
pub open spec fn spec_load_status<V>(probe: ModuleProbe<V>) -> EvmcLoaderErrorCode {
    match probe {
        ModuleProbe::InvalidName => EvmcLoaderErrorCode::InvalidArgument,
        ModuleProbe::CannotOpen => EvmcLoaderErrorCode::CannotOpen,
        ModuleProbe::SymbolNotFound => EvmcLoaderErrorCode::SymbolNotFound,
        ModuleProbe::InstanceCreationFailed => EvmcLoaderErrorCode::InstanceCreationFailure,
        ModuleProbe::Created(_, meta) => if meta.abi_version == EVMC_ABI_VERSION {
            EvmcLoaderErrorCode::Success
        } else {
            EvmcLoaderErrorCode::AbiVersionMismatch
        },
    }
}

/// Turns the outcome of the resolution steps into a handle and a status.
/// A handle comes back exactly on success; on success it wraps the created
/// instance, carries the metadata unchanged, and is live.
pub fn load<V>(probe: ModuleProbe<V>) -> (r: (Option<EvmcVm<V>>, EvmcLoaderErrorCode))
    ensures
        r.1 == spec_load_status(probe),
        r.0 is Some <==> r.1 == EvmcLoaderErrorCode::Success,
        r.0 matches Some(vm) ==> {
            &&& probe matches ModuleProbe::Created(instance, meta)
            &&& vm.instance == instance
            &&& vm.abi_version == meta.abi_version
            &&& vm.abi_version == EVMC_ABI_VERSION
            &&& vm.name == meta.name
            &&& vm.version == meta.version
            &&& vm.capabilities == meta.capabilities
            &&& vm.alive
        },
{
    match probe {
        ModuleProbe::InvalidName => (None, EvmcLoaderErrorCode::InvalidArgument),
        ModuleProbe::CannotOpen => (None, EvmcLoaderErrorCode::CannotOpen),
        ModuleProbe::SymbolNotFound => (None, EvmcLoaderErrorCode::SymbolNotFound),
        ModuleProbe::InstanceCreationFailed => (None, EvmcLoaderErrorCode::InstanceCreationFailure),
        ModuleProbe::Created(instance, meta) => {
            if meta.abi_version == EVMC_ABI_VERSION {
                (Some(create(instance, meta)), EvmcLoaderErrorCode::Success)
            } else {
                (None, EvmcLoaderErrorCode::AbiVersionMismatch)
            }
        },
    }
}

/// Wraps an already created instance — the statically linked path, where no
/// module resolution runs — in a live handle carrying its metadata.
pub fn create<V>(instance: V, metadata: VmMetadata) -> (vm: EvmcVm<V>)
    ensures
        vm.instance == instance,
        vm.abi_version == metadata.abi_version,
        vm.name == metadata.name,
        vm.version == metadata.version,
        vm.capabilities == metadata.capabilities,
        vm.alive,
{
    EvmcVm {
        instance,
        abi_version: metadata.abi_version,
        name: metadata.name,
        version: metadata.version,
        capabilities: metadata.capabilities,
        alive: true,
    }
}

/// A module whose reported interface version mismatches the host's always
/// loads as `AbiVersionMismatch` and never as a usable handle.
pub proof fn lemma_abi_mismatch_no_handle<V>(
    probe: ModuleProbe<V>,
    handle: Option<EvmcVm<V>>,
    status: EvmcLoaderErrorCode,
)
    requires
        probe matches ModuleProbe::Created(_, meta) && meta.abi_version != EVMC_ABI_VERSION,
        status == spec_load_status(probe),
        handle is Some <==> status == EvmcLoaderErrorCode::Success,
    ensures
        status == EvmcLoaderErrorCode::AbiVersionMismatch,
        handle is None,
{
}

/// A load never hands out a partially initialized handle: whatever the
/// probe, a handle exists exactly when the status is success, and a
/// matching version with a created instance is the only success.
pub proof fn lemma_load_total<V>(probe: ModuleProbe<V>)
    ensures
        spec_load_status(probe) == EvmcLoaderErrorCode::Success <==> (probe matches
            ModuleProbe::Created(_, meta) && meta.abi_version == EVMC_ABI_VERSION),
{
}

} // verus!
