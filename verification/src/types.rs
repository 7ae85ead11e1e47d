//! Host-native semantic types shared by both sides of the boundary: the
//! fixed-size byte values and the closed enumerations of the binary
//! interface, together with their integer codes.
//!
//! Every enumeration here is a closed set: the code functions are total over
//! the variants, and decoding is defined exactly on the codes the interface
//! documents.

use vstd::prelude::*;

verus! {

/// The binary-interface version this layer was built against.  A loaded
/// module must report exactly this value; there is no compatibility
/// negotiation beyond the equality check.
pub const EVMC_ABI_VERSION: i32 = 6;

/// A 20-byte account address, copied by value across the boundary.
pub struct Address {
    pub bytes: Vec<u8>,
}

impl Address {
    /// The fixed width the binary layout gives an address.
    pub open spec fn wf(&self) -> bool {
        self.bytes@.len() == 20
    }

    /// Accepts exactly the byte strings of the raw layout's width.
    pub fn from_bytes(bytes: Vec<u8>) -> (r: Option<Address>)
        ensures
            r is Some <==> bytes@.len() == 20,
            r matches Some(a) ==> a.wf() && a@ == bytes@,
    {
        if bytes.len() == 20 {
            Some(Address { bytes })
        } else {
            None
        }
    }

    /// The all-zero address.
    pub fn zero() -> (r: Address)
        ensures
            r.wf(),
            forall|i: int| 0 <= i < 20 ==> r@[i] == 0u8,
    {
        let mut bytes: Vec<u8> = Vec::new();
        let mut i: usize = 0;
        while i < 20
            invariant
                i <= 20,
                bytes@.len() == i,
                forall|j: int| 0 <= j < i ==> bytes@[j] == 0u8,
            decreases 20 - i,
        {
            bytes.push(0u8);
            i = i + 1;
        }
        Address { bytes }
    }
}

impl View for Address {
    type V = Seq<u8>;

    open spec fn view(&self) -> Seq<u8> {
        self.bytes@
    }
}

/// A 32-byte big-endian word: balances, storage keys and values, hashes,
/// the create2 salt.  Copied by value across the boundary.
pub struct Bytes32 {
    pub bytes: Vec<u8>,
}

impl Bytes32 {
    /// The fixed width the binary layout gives a 256-bit word.
    pub open spec fn wf(&self) -> bool {
        self.bytes@.len() == 32
    }

    /// Accepts exactly the byte strings of the raw layout's width.
    pub fn from_bytes(bytes: Vec<u8>) -> (r: Option<Bytes32>)
        ensures
            r is Some <==> bytes@.len() == 32,
            r matches Some(w) ==> w.wf() && w@ == bytes@,
    {
        if bytes.len() == 32 {
            Some(Bytes32 { bytes })
        } else {
            None
        }
    }

    /// The all-zero word.
    pub fn zero() -> (r: Bytes32)
        ensures
            r.wf(),
            forall|i: int| 0 <= i < 32 ==> r@[i] == 0u8,
    {
        let mut bytes: Vec<u8> = Vec::new();
        let mut i: usize = 0;
        while i < 32
            invariant
                i <= 32,
                bytes@.len() == i,
                forall|j: int| 0 <= j < i ==> bytes@[j] == 0u8,
            decreases 32 - i,
        {
            bytes.push(0u8);
            i = i + 1;
        }
        Bytes32 { bytes }
    }
}

impl View for Bytes32 {
    type V = Seq<u8>;

    open spec fn view(&self) -> Seq<u8> {
        self.bytes@
    }
}

/// The closed outcome enumeration every execute call returns.  New codes
/// require a new interface version.
#[derive(Clone, Copy, PartialEq, Eq, Structural, Debug)]
pub enum StatusCode {
    Success,
    Failure,
    Revert,
    OutOfGas,
    InvalidInstruction,
    UndefinedInstruction,
    StackOverflow,
    StackUnderflow,
    BadJumpDestination,
    InvalidMemoryAccess,
    CallDepthExceeded,
    StaticModeViolation,
    PrecompileFailure,
    ContractValidationFailure,
    ArgumentOutOfRange,
    WasmUnreachableInstruction,
    WasmTrap,
    InsufficientBalance,
    InternalError,
    Rejected,
    OutOfMemory,
}

/// The integer code the binary interface assigns to each status.
pub open spec fn spec_status_code(s: StatusCode) -> int {
    match s {
        StatusCode::Success => 0,
        StatusCode::Failure => 1,
        StatusCode::Revert => 2,
        StatusCode::OutOfGas => 3,
        StatusCode::InvalidInstruction => 4,
        StatusCode::UndefinedInstruction => 5,
        StatusCode::StackOverflow => 6,
        StatusCode::StackUnderflow => 7,
        StatusCode::BadJumpDestination => 8,
        StatusCode::InvalidMemoryAccess => 9,
        StatusCode::CallDepthExceeded => 10,
        StatusCode::StaticModeViolation => 11,
        StatusCode::PrecompileFailure => 12,
        StatusCode::ContractValidationFailure => 13,
        StatusCode::ArgumentOutOfRange => 14,
        StatusCode::WasmUnreachableInstruction => 15,
        StatusCode::WasmTrap => 16,
        StatusCode::InsufficientBalance => 17,
        StatusCode::InternalError => -1,
        StatusCode::Rejected => -2,
        StatusCode::OutOfMemory => -3,
    }
}

/// The inverse of `spec_status_code`: defined exactly on the closed code set.
pub open spec fn spec_status_from_code(code: int) -> Option<StatusCode> {
    if code == 0 {
        Some(StatusCode::Success)
    } else if code == 1 {
        Some(StatusCode::Failure)
    } else if code == 2 {
        Some(StatusCode::Revert)
    } else if code == 3 {
        Some(StatusCode::OutOfGas)
    } else if code == 4 {
        Some(StatusCode::InvalidInstruction)
    } else if code == 5 {
        Some(StatusCode::UndefinedInstruction)
    } else if code == 6 {
        Some(StatusCode::StackOverflow)
    } else if code == 7 {
        Some(StatusCode::StackUnderflow)
    } else if code == 8 {
        Some(StatusCode::BadJumpDestination)
    } else if code == 9 {
        Some(StatusCode::InvalidMemoryAccess)
    } else if code == 10 {
        Some(StatusCode::CallDepthExceeded)
    } else if code == 11 {
        Some(StatusCode::StaticModeViolation)
    } else if code == 12 {
        Some(StatusCode::PrecompileFailure)
    } else if code == 13 {
        Some(StatusCode::ContractValidationFailure)
    } else if code == 14 {
        Some(StatusCode::ArgumentOutOfRange)
    } else if code == 15 {
        Some(StatusCode::WasmUnreachableInstruction)
    } else if code == 16 {
        Some(StatusCode::WasmTrap)
    } else if code == 17 {
        Some(StatusCode::InsufficientBalance)
    } else if code == -1 {
        Some(StatusCode::InternalError)
    } else if code == -2 {
        Some(StatusCode::Rejected)
    } else if code == -3 {
        Some(StatusCode::OutOfMemory)
    } else {
        None
    }
}

/// Encodes a status as the integer that crosses the boundary.
pub fn status_code(s: &StatusCode) -> (r: i32)
    ensures
        r as int == spec_status_code(*s),
{
    match s {
        StatusCode::Success => 0,
        StatusCode::Failure => 1,
        StatusCode::Revert => 2,
        StatusCode::OutOfGas => 3,
        StatusCode::InvalidInstruction => 4,
        StatusCode::UndefinedInstruction => 5,
        StatusCode::StackOverflow => 6,
        StatusCode::StackUnderflow => 7,
        StatusCode::BadJumpDestination => 8,
        StatusCode::InvalidMemoryAccess => 9,
        StatusCode::CallDepthExceeded => 10,
        StatusCode::StaticModeViolation => 11,
        StatusCode::PrecompileFailure => 12,
        StatusCode::ContractValidationFailure => 13,
        StatusCode::ArgumentOutOfRange => 14,
        StatusCode::WasmUnreachableInstruction => 15,
        StatusCode::WasmTrap => 16,
        StatusCode::InsufficientBalance => 17,
        StatusCode::InternalError => -1,
        StatusCode::Rejected => -2,
        StatusCode::OutOfMemory => -3,
    }
}

/// Decodes an integer from the boundary; `None` outside the closed set.
pub fn status_from_code(code: i32) -> (r: Option<StatusCode>)
    ensures
        r == spec_status_from_code(code as int),
{
    match code {
        0 => Some(StatusCode::Success),
        1 => Some(StatusCode::Failure),
        2 => Some(StatusCode::Revert),
        3 => Some(StatusCode::OutOfGas),
        4 => Some(StatusCode::InvalidInstruction),
        5 => Some(StatusCode::UndefinedInstruction),
        6 => Some(StatusCode::StackOverflow),
        7 => Some(StatusCode::StackUnderflow),
        8 => Some(StatusCode::BadJumpDestination),
        9 => Some(StatusCode::InvalidMemoryAccess),
        10 => Some(StatusCode::CallDepthExceeded),
        11 => Some(StatusCode::StaticModeViolation),
        12 => Some(StatusCode::PrecompileFailure),
        13 => Some(StatusCode::ContractValidationFailure),
        14 => Some(StatusCode::ArgumentOutOfRange),
        15 => Some(StatusCode::WasmUnreachableInstruction),
        16 => Some(StatusCode::WasmTrap),
        17 => Some(StatusCode::InsufficientBalance),
        -1 => Some(StatusCode::InternalError),
        -2 => Some(StatusCode::Rejected),
        -3 => Some(StatusCode::OutOfMemory),
        _ => None,
    }
}

/// Every status maps to a code that decodes back to the same status: the
/// status set is closed under the boundary's encoding.
pub proof fn lemma_status_code_roundtrip(s: StatusCode)
    ensures
        spec_status_from_code(spec_status_code(s)) == Some(s),
{
}

/// The kind of one call or create invocation: a closed enumeration.
#[derive(Clone, Copy, PartialEq, Eq, Structural, Debug)]
pub enum CallKind {
    Call,
    DelegateCall,
    CallCode,
    Create,
    Create2,
}

/// The integer code the binary interface assigns to each call kind.
pub open spec fn spec_call_kind_code(k: CallKind) -> int {
    match k {
        CallKind::Call => 0,
        CallKind::DelegateCall => 1,
        CallKind::CallCode => 2,
        CallKind::Create => 3,
        CallKind::Create2 => 4,
    }
}

/// The inverse of `spec_call_kind_code`.
pub open spec fn spec_call_kind_from_code(code: int) -> Option<CallKind> {
    if code == 0 {
        Some(CallKind::Call)
    } else if code == 1 {
        Some(CallKind::DelegateCall)
    } else if code == 2 {
        Some(CallKind::CallCode)
    } else if code == 3 {
        Some(CallKind::Create)
    } else if code == 4 {
        Some(CallKind::Create2)
    } else {
        None
    }
}

/// Encodes a call kind as the integer that crosses the boundary.
pub fn call_kind_code(k: &CallKind) -> (r: u32)
    ensures
        r as int == spec_call_kind_code(*k),
{
    match k {
        CallKind::Call => 0,
        CallKind::DelegateCall => 1,
        CallKind::CallCode => 2,
        CallKind::Create => 3,
        CallKind::Create2 => 4,
    }
}

/// Decodes a call-kind integer from the boundary; `None` outside the set.
pub fn call_kind_from_code(code: u32) -> (r: Option<CallKind>)
    ensures
        r == spec_call_kind_from_code(code as int),
{
    match code {
        0 => Some(CallKind::Call),
        1 => Some(CallKind::DelegateCall),
        2 => Some(CallKind::CallCode),
        3 => Some(CallKind::Create),
        4 => Some(CallKind::Create2),
        _ => None,
    }
}

/// Every call kind round-trips through its boundary code.
pub proof fn lemma_call_kind_roundtrip(k: CallKind)
    ensures
        spec_call_kind_from_code(spec_call_kind_code(k)) == Some(k),
{
}

/// The ordered, closed enumeration of semantic rule-set generations a call
/// may run under; chosen per call, not fixed at load time.
#[derive(Clone, Copy, PartialEq, Eq, Structural, Debug)]
pub enum Revision {
    Frontier,
    Homestead,
    TangerineWhistle,
    SpuriousDragon,
    Byzantium,
    Constantinople,
    Petersburg,
    Istanbul,
}

/// The integer code of a revision; codes follow the generations in order.
pub open spec fn spec_revision_code(rev: Revision) -> int {
    match rev {
        Revision::Frontier => 0,
        Revision::Homestead => 1,
        Revision::TangerineWhistle => 2,
        Revision::SpuriousDragon => 3,
        Revision::Byzantium => 4,
        Revision::Constantinople => 5,
        Revision::Petersburg => 6,
        Revision::Istanbul => 7,
    }
}

/// Encodes a revision as the integer that crosses the boundary.
pub fn revision_code(rev: &Revision) -> (r: u32)
    ensures
        r as int == spec_revision_code(*rev),
{
    match rev {
        Revision::Frontier => 0,
        Revision::Homestead => 1,
        Revision::TangerineWhistle => 2,
        Revision::SpuriousDragon => 3,
        Revision::Byzantium => 4,
        Revision::Constantinople => 5,
        Revision::Petersburg => 6,
        Revision::Istanbul => 7,
    }
}

/// An optional VM feature advertised once at load time; the handle stores the
/// single value the VM reported, immutable for the VM's lifetime.
#[derive(Clone, Copy, PartialEq, Eq, Structural, Debug)]
pub enum Capabilities {
    Evm1,
    Ewasm,
    Precompiles,
}

/// The flag value the binary interface assigns to each capability.
pub open spec fn spec_capability_code(c: Capabilities) -> int {
    match c {
        Capabilities::Evm1 => 1,
        Capabilities::Ewasm => 2,
        Capabilities::Precompiles => 4,
    }
}

/// Encodes a capability as the flag value that crosses the boundary.
pub fn capability_code(c: &Capabilities) -> (r: u32)
    ensures
        r as int == spec_capability_code(*c),
{
    match c {
        Capabilities::Evm1 => 1,
        Capabilities::Ewasm => 2,
        Capabilities::Precompiles => 4,
    }
}

/// What one storage write changed, as the host reports it back to the VM.
#[derive(Clone, Copy, PartialEq, Eq, Structural, Debug)]
pub enum StorageStatus {
    Unchanged,
    Modified,
    ModifiedAgain,
    Added,
    Deleted,
}

/// The integer code the binary interface assigns to each storage outcome.
pub open spec fn spec_storage_status_code(s: StorageStatus) -> int {
    match s {
        StorageStatus::Unchanged => 0,
        StorageStatus::Modified => 1,
        StorageStatus::ModifiedAgain => 2,
        StorageStatus::Added => 3,
        StorageStatus::Deleted => 4,
    }
}

/// Encodes a storage outcome as the integer that crosses the boundary.
pub fn storage_status_code(s: &StorageStatus) -> (r: u32)
    ensures
        r as int == spec_storage_status_code(*s),
{
    match s {
        StorageStatus::Unchanged => 0,
        StorageStatus::Modified => 1,
        StorageStatus::ModifiedAgain => 2,
        StorageStatus::Added => 3,
        StorageStatus::Deleted => 4,
    }
}

/// Errors this layer adds on its own account, beside the statuses the VM
/// reports: a name or version field that is not valid text.
#[derive(Clone, Copy, PartialEq, Eq, Structural, Debug)]
pub enum EvmcError {
    EncodingError,
}

} // verus!
