//! The call descriptor and the execute result, on both sides of the
//! boundary: the host-native `Message` and `ExecutionResult`, their raw
//! layout mirrors `RawMessage` and `RawResult`, and the marshalling between
//! them.
//!
//! Marshalling is lossless: two messages with the same raw image are the
//! same message, and a raw image built by the host always unmarshals back.
//! Interpreting a raw result never reinterprets the VM's status; a code
//! outside the closed status set is a boundary inconsistency and is reported
//! as an internal error.

use vstd::prelude::*;

use crate::codec::copy_bytes;
use crate::types::{
    spec_call_kind_code, spec_status_code, spec_status_from_code, Address, Bytes32, CallKind,
    StatusCode, call_kind_code, call_kind_from_code, status_from_code,
};

verus! {

/// The deepest call nesting the boundary will hand to the host; a nested
/// call past it fails with a depth status instead of re-entering.
pub const MAX_CALL_DEPTH: i32 = 1024;

/// The flag bit that marks a call as static (no state mutation allowed).
pub const FLAG_STATIC: u32 = 1;

/// The immutable description of one call or create invocation, built fresh
/// per execute call.  Input bytes are held by value: the marshalling layer
/// copies rather than borrowing memory it does not own.
pub struct Message {
    pub kind: CallKind,
    pub is_static: bool,
    pub depth: i32,
    pub gas: i64,
    pub destination: Address,
    pub sender: Address,
    pub input: Vec<u8>,
    pub value: Bytes32,
    pub create2_salt: Bytes32,
}

impl Message {
    /// A well-formed message: fixed-size fields of the layout's width, a
    /// depth within the nesting bound, and a non-negative gas budget.
    pub open spec fn wf(&self) -> bool {
        &&& self.destination.wf()
        &&& self.sender.wf()
        &&& self.value.wf()
        &&& self.create2_salt.wf()
        &&& 0 <= self.depth <= MAX_CALL_DEPTH
        &&& 0 <= self.gas
    }

    /// Builds a call descriptor; the caller supplies every field of the
    /// boundary layout.
    pub fn new(
        kind: CallKind,
        is_static: bool,
        depth: i32,
        gas: i64,
        destination: Address,
        sender: Address,
        input: Vec<u8>,
        value: Bytes32,
        create2_salt: Bytes32,
    ) -> (m: Message)
        requires
            destination.wf(),
            sender.wf(),
            value.wf(),
            create2_salt.wf(),
            0 <= depth <= MAX_CALL_DEPTH,
            0 <= gas,
        ensures
            m.wf(),
            m.kind == kind,
            m.is_static == is_static,
            m.depth == depth,
            m.gas == gas,
            m.destination@ == destination@,
            m.sender@ == sender@,
            m.input@ == input@,
            m.value@ == value@,
            m.create2_salt@ == create2_salt@,
    {
        Message { kind, is_static, depth, gas, destination, sender, input, value, create2_salt }
    }
}

/// The raw layout of a message as the binary interface defines it: integer
/// codes and plain byte strings, exactly what crosses the boundary.
pub struct RawMessage {
    pub kind: u32,
    pub flags: u32,
    pub depth: i32,
    pub gas: i64,
    pub destination: Vec<u8>,
    pub sender: Vec<u8>,
    pub input_data: Vec<u8>,
    pub value: Vec<u8>,
    pub create2_salt: Vec<u8>,
}

/// The field-for-field relation between a host-native message and its raw
/// image; marshalling establishes it and unmarshalling inverts it.
pub open spec fn marshals(m: Message, raw: RawMessage) -> bool {
    &&& raw.kind as int == spec_call_kind_code(m.kind)
    &&& raw.flags == if m.is_static { FLAG_STATIC } else { 0u32 }
    &&& raw.depth == m.depth
    &&& raw.gas == m.gas
    &&& raw.destination@ == m.destination@
    &&& raw.sender@ == m.sender@
    &&& raw.input_data@ == m.input@
    &&& raw.value@ == m.value@
    &&& raw.create2_salt@ == m.create2_salt@
}

/// A raw message the boundary will accept back: recognised codes, flag bits
/// the interface defines, widths of the layout, and bounds a well-formed
/// message keeps.
pub open spec fn raw_message_valid(raw: RawMessage) -> bool {
    &&& crate::types::spec_call_kind_from_code(raw.kind as int) is Some
    &&& (raw.flags == 0 || raw.flags == FLAG_STATIC)
    &&& 0 <= raw.depth <= MAX_CALL_DEPTH
    &&& 0 <= raw.gas
    &&& raw.destination@.len() == 20
    &&& raw.sender@.len() == 20
    &&& raw.value@.len() == 32
    &&& raw.create2_salt@.len() == 32
}

/// Translates a call descriptor into the raw layout the VM reads, copying
/// every buffer so the raw image owns its memory for the call's duration.
pub fn marshal_message(m: &Message) -> (raw: RawMessage)
    requires
        m.wf(),
    ensures
        marshals(*m, raw),
        raw_message_valid(raw),
{
    proof {
        crate::types::lemma_call_kind_roundtrip(m.kind);
    }
    RawMessage {
        kind: call_kind_code(&m.kind),
        flags: if m.is_static { FLAG_STATIC } else { 0 },
        depth: m.depth,
        gas: m.gas,
        destination: copy_bytes(&m.destination.bytes),
        sender: copy_bytes(&m.sender.bytes),
        input_data: copy_bytes(&m.input),
        value: copy_bytes(&m.value.bytes),
        create2_salt: copy_bytes(&m.create2_salt.bytes),
    }
}

/// Reads a raw message back into a host-native descriptor; succeeds exactly
/// on valid raw images, and inverts `marshal_message` on them.
pub fn unmarshal_message(raw: &RawMessage) -> (r: Option<Message>)
    ensures
        r is Some <==> raw_message_valid(*raw),
        r matches Some(m) ==> m.wf() && marshals(m, *raw),
{
    let kind = match call_kind_from_code(raw.kind) {
        Some(k) => k,
        None => {
            return None;
        },
    };
    let is_static = if raw.flags == FLAG_STATIC {
        true
    } else if raw.flags == 0 {
        false
    } else {
        return None;
    };
    if raw.depth < 0 || raw.depth > MAX_CALL_DEPTH || raw.gas < 0 {
        return None;
    }
    if raw.destination.len() != 20 || raw.sender.len() != 20 || raw.value.len() != 32
        || raw.create2_salt.len() != 32 {
        return None;
    }
    Some(
        Message {
            kind,
            is_static,
            depth: raw.depth,
            gas: raw.gas,
            destination: Address { bytes: copy_bytes(&raw.destination) },
            sender: Address { bytes: copy_bytes(&raw.sender) },
            input: copy_bytes(&raw.input_data),
            value: Bytes32 { bytes: copy_bytes(&raw.value) },
            create2_salt: Bytes32 { bytes: copy_bytes(&raw.create2_salt) },
        },
    )
}

/// Marshalling loses nothing: two messages with the same raw image agree on
/// every field the boundary carries.
pub proof fn lemma_marshal_lossless(a: Message, b: Message, raw: RawMessage)
    requires
        marshals(a, raw),
        marshals(b, raw),
    ensures
        a.kind == b.kind,
        a.is_static == b.is_static,
        a.depth == b.depth,
        a.gas == b.gas,
        a.destination@ == b.destination@,
        a.sender@ == b.sender@,
        a.input@ == b.input@,
        a.value@ == b.value@,
        a.create2_salt@ == b.create2_salt@,
{
    crate::types::lemma_call_kind_roundtrip(a.kind);
    crate::types::lemma_call_kind_roundtrip(b.kind);
}

/// The raw result of one execute call as it crosses the boundary back:
/// the VM's status code, the gas left, and the output bytes.
pub struct RawResult {
    pub status_code: i32,
    pub gas_left: i64,
    pub output_data: Vec<u8>,
}

/// What the host keeps of one execute call once the raw result is read.
pub struct ExecutionResult {
    pub status: StatusCode,
    pub gas_left: i64,
    pub output: Vec<u8>,
}

/// The status the boundary reports for a raw code: the VM's own status,
/// authoritative and unchanged, when the code is in the closed set; an
/// internal error — a boundary-detected inconsistency — otherwise.
pub open spec fn spec_interpret_status(code: int) -> StatusCode {
    match spec_status_from_code(code) {
        Some(s) => s,
        None => StatusCode::InternalError,
    }
}

/// The exact relation between a raw result and its interpretation.
pub open spec fn interprets(raw: RawResult, r: ExecutionResult) -> bool {
    &&& r.status == spec_interpret_status(raw.status_code as int)
    &&& r.gas_left == raw.gas_left
    &&& r.output@ == raw.output_data@
}

/// Reads a raw result: decodes the status, and passes gas and output
/// through unchanged.
pub fn interpret_result(raw: RawResult) -> (r: ExecutionResult)
    ensures
        interprets(raw, r),
{
    let status = match status_from_code(raw.status_code) {
        Some(s) => s,
        None => StatusCode::InternalError,
    };
    ExecutionResult { status, gas_left: raw.gas_left, output: raw.output_data }
}

/// Every interpreted status lies in the closed status enumeration: it
/// round-trips through the boundary's own code set.
pub proof fn lemma_interpreted_status_closed(raw: RawResult, r: ExecutionResult)
    requires
        interprets(raw, r),
    ensures
        spec_status_from_code(spec_status_code(r.status)) == Some(r.status),
{
    crate::types::lemma_status_code_roundtrip(r.status);
}

/// Interpretation never manufactures gas: the gas left the host sees is the
/// gas left the VM reported, so it stays within any budget the raw result
/// respected — in particular the gas the message supplied.
pub proof fn lemma_gas_left_bounded(raw: RawResult, r: ExecutionResult, gas: i64)
    requires
        interprets(raw, r),
        raw.gas_left <= gas,
    ensures
        r.gas_left <= gas,
{
}

} // verus!
