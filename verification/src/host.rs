//! The host side of the boundary: the fixed callback set the VM invokes
//! during execution, and the dispatch layer that marshals each raw callback
//! into it.
//!
//! The callback set is fixed and versioned — no dynamic registration.  The
//! embedding host implements [`HostContext`] once; the VM sees only the raw
//! dispatch functions, which decode the raw arguments, invoke the host, and
//! encode whatever the host answered.  A nested call re-enters the execute
//! contract through the host with a fresh, depth-incremented message; past
//! the nesting bound the dispatch answers a depth status by itself and the
//! host is never entered.

use vstd::prelude::*;

use crate::codec::{copy_bytes, decode_address, decode_bytes32, encode_bytes32};
use crate::message::{
    marshals, raw_message_valid, Message, RawMessage, RawResult, MAX_CALL_DEPTH,
};
use crate::types::{
    spec_status_code, spec_storage_status_code, Address, Bytes32, StatusCode, StorageStatus,
    status_code, storage_status_code,
};

verus! {

/// Block and transaction metadata, answered as one value per call.
pub struct TxContext {
    pub tx_gas_price: Bytes32,
    pub tx_origin: Address,
    pub block_coinbase: Address,
    pub block_number: i64,
    pub block_timestamp: i64,
    pub block_gas_limit: i64,
    pub block_difficulty: Bytes32,
}

impl TxContext {
    /// Fixed-size fields of the layout's width.
    pub open spec fn wf(&self) -> bool {
        &&& self.tx_gas_price.wf()
        &&& self.tx_origin.wf()
        &&& self.block_coinbase.wf()
        &&& self.block_difficulty.wf()
    }
}

/// The fixed capability set the embedding host implements and the VM
/// queries or mutates during one execute call.  The host object is borrowed
/// for exactly that call's duration.
///
/// Read-only queries answer a value for every input — an absent entity
/// yields a default rather than an error.  Mutations are recorded against
/// the host's state in the order invoked.  What each callback answers is the
/// embedding host's own affair; the contracts here fix only the shape the
/// binary layout demands of the answers.
pub trait HostContext {
    /// Whether the account exists in the host's state.
    fn account_exists(&mut self, addr: &Address) -> bool
        requires
            addr.wf(),
    ;

    /// The storage word under a key of an account; zero when absent.
    fn get_storage(&mut self, addr: &Address, key: &Bytes32) -> (r: Bytes32)
        requires
            addr.wf(),
            key.wf(),
        ensures
            r.wf(),
    ;

    /// Writes a storage word and reports what the write changed.
    fn set_storage(&mut self, addr: &Address, key: &Bytes32, value: &Bytes32) -> StorageStatus
        requires
            addr.wf(),
            key.wf(),
            value.wf(),
    ;

    /// The balance of an account; zero when absent.
    fn get_balance(&mut self, addr: &Address) -> (r: Bytes32)
        requires
            addr.wf(),
        ensures
            r.wf(),
    ;

    /// The size of an account's code; zero when absent.
    fn get_code_size(&mut self, addr: &Address) -> usize
        requires
            addr.wf(),
    ;

    /// The hash of an account's code; zero when absent.
    fn get_code_hash(&mut self, addr: &Address) -> (r: Bytes32)
        requires
            addr.wf(),
        ensures
            r.wf(),
    ;

    /// Marks an account self-destructed in favour of a beneficiary.
    fn selfdestruct(&mut self, addr: &Address, beneficiary: &Address)
        requires
            addr.wf(),
            beneficiary.wf(),
    ;

    /// The metadata of the enclosing block and transaction.
    fn get_tx_context(&mut self) -> (r: TxContext)
        ensures
            r.wf(),
    ;

    /// The hash of a block by number; zero when out of range.
    fn get_block_hash(&mut self, number: i64) -> (r: Bytes32)
        ensures
            r.wf(),
    ;

    /// Records a log entry against the host's state.
    fn emit_log(&mut self, addr: &Address, topics: &Vec<Bytes32>, data: &Vec<u8>)
        requires
            addr.wf(),
            forall|i: int| 0 <= i < topics@.len() ==> (#[trigger] topics@[i]).wf(),
    ;

    /// Dispatches a nested call: re-enters the execute contract against the
    /// host's state and answers output, gas left and status exactly as a
    /// top-level call would.
    fn call(&mut self, msg: &Message) -> (Vec<u8>, i64, StatusCode)
        requires
            msg.wf(),
    ;
}

/// Raw storage-read callback: decodes the 20-byte address and 32-byte key
/// the VM handed over, queries the host, and encodes the 32-byte answer.
pub fn dispatch_get_storage<H: HostContext>(host: &mut H, addr: &Vec<u8>, key: &Vec<u8>) -> (r:
    Vec<u8>)
    requires
        addr@.len() == 20,
        key@.len() == 32,
    ensures
        r@.len() == 32,
{
    let a = decode_address(addr).unwrap();
    let k = decode_bytes32(key).unwrap();
    let value = host.get_storage(&a, &k);
    encode_bytes32(&value)
}

/// Raw storage-write callback: decodes address, key and value, writes
/// through the host, and encodes the storage outcome as its integer code.
pub fn dispatch_set_storage<H: HostContext>(
    host: &mut H,
    addr: &Vec<u8>,
    key: &Vec<u8>,
    value: &Vec<u8>,
) -> (r: u32)
    requires
        addr@.len() == 20,
        key@.len() == 32,
        value@.len() == 32,
    ensures
        exists|s: StorageStatus| r as int == #[trigger] spec_storage_status_code(s),
{
    let a = decode_address(addr).unwrap();
    let k = decode_bytes32(key).unwrap();
    let v = decode_bytes32(value).unwrap();
    let outcome = host.set_storage(&a, &k, &v);
    let code = storage_status_code(&outcome);
    proof {
        assert(code as int == spec_storage_status_code(outcome));
    }
    code
}

/// Raw balance callback: decodes the address and encodes the 32-byte answer.
pub fn dispatch_get_balance<H: HostContext>(host: &mut H, addr: &Vec<u8>) -> (r: Vec<u8>)
    requires
        addr@.len() == 20,
    ensures
        r@.len() == 32,
{
    let a = decode_address(addr).unwrap();
    let balance = host.get_balance(&a);
    encode_bytes32(&balance)
}

/// Splits the raw topic buffer of a log callback — 32-byte words laid end to
/// end — into its words; fails exactly when the length is no multiple of 32.
pub fn decode_topics(raw: &Vec<u8>) -> (r: Option<Vec<Bytes32>>)
    ensures
        r is Some <==> raw@.len() % 32 == 0,
        r matches Some(topics) ==> {
            &&& topics@.len() == raw@.len() / 32
            &&& forall|i: int|
                0 <= i < topics@.len() ==> (#[trigger] topics@[i])@ == raw@.subrange(
                    32 * i,
                    32 * i + 32,
                )
        },
{
    if raw.len() % 32 != 0 {
        return None;
    }
    let count = raw.len() / 32;
    let mut topics: Vec<Bytes32> = Vec::new();
    let mut t: usize = 0;
    while t < count
        invariant
            raw@.len() % 32 == 0,
            count == raw@.len() / 32,
            t <= count,
            topics@.len() == t,
            forall|i: int|
                0 <= i < t ==> (#[trigger] topics@[i])@ == raw@.subrange(32 * i, 32 * i + 32),
        decreases count - t,
    {
        let mut word: Vec<u8> = Vec::new();
        let n: usize = raw.len();
        proof {
            assert(32 * (t as int) + 32 <= n as int) by (nonlinear_arith)
                requires
                    t < count,
                    count == n as int / 32,
                    n as int % 32 == 0,
            ;
        }
        let base: usize = 32 * t;
        let mut j: usize = 0;
        while j < 32
            invariant
                t < count,
                count == raw@.len() / 32,
                raw@.len() % 32 == 0,
                base == 32 * t,
                j <= 32,
                word@.len() == j,
                word@ == raw@.subrange(base as int, base + j),
            decreases 32 - j,
        {
            proof {
                assert(base + j < raw@.len()) by (nonlinear_arith)
                    requires
                        base == 32 * t,
                        t < count,
                        count == raw@.len() / 32,
                        raw@.len() % 32 == 0,
                        j < 32,
                ;
            }
            word.push(raw[base + j]);
            j = j + 1;
            proof {
                assert(word@ =~= raw@.subrange(base as int, base + j));
            }
        }
        topics.push(Bytes32 { bytes: word });
        t = t + 1;
    }
    Some(topics)
}

/// Raw log callback: decodes the address and the packed topic words, then
/// records the entry through the host.  Answers whether the raw arguments
/// were well-formed; a malformed topic buffer is reported, not truncated.
pub fn dispatch_emit_log<H: HostContext>(
    host: &mut H,
    addr: &Vec<u8>,
    topics_raw: &Vec<u8>,
    data: &Vec<u8>,
) -> (ok: bool)
    requires
        addr@.len() == 20,
    ensures
        ok <==> topics_raw@.len() % 32 == 0,
{
    let a = decode_address(addr).unwrap();
    match decode_topics(topics_raw) {
        Some(topics) => {
            host.emit_log(&a, &topics, data);
            true
        },
        None => false,
    }
}

/// Whether one more level of nesting is still within the depth bound.
pub open spec fn spec_depth_allowed(parent_depth: int) -> bool {
    parent_depth + 1 <= MAX_CALL_DEPTH
}

/// The descriptor a nested call re-enters with: the raw request's own
/// fields, under a depth of exactly one more than its parent's.
pub open spec fn child_message_of(parent_depth: int, raw: RawMessage, child: Message) -> bool {
    &&& child.depth == parent_depth + 1
    &&& marshals(child, RawMessage { depth: child.depth, ..raw })
}

/// Builds the depth-incremented descriptor for a nested call; succeeds
/// exactly when the raw request is well-formed and the new depth is within
/// the bound.
pub fn build_child_message(parent_depth: i32, raw: &RawMessage) -> (r: Option<Message>)
    requires
        0 <= parent_depth,
    ensures
        r is Some <==> raw_message_valid(
            RawMessage { depth: (parent_depth + 1) as i32, ..*raw },
        ) && spec_depth_allowed(parent_depth as int),
        r matches Some(child) ==> child.wf() && child_message_of(parent_depth as int, *raw, child),
{
    if parent_depth >= MAX_CALL_DEPTH {
        return None;
    }
    let reframed = RawMessage {
        kind: raw.kind,
        flags: raw.flags,
        depth: parent_depth + 1,
        gas: raw.gas,
        destination: copy_bytes(&raw.destination),
        sender: copy_bytes(&raw.sender),
        input_data: copy_bytes(&raw.input_data),
        value: copy_bytes(&raw.value),
        create2_salt: copy_bytes(&raw.create2_salt),
    };
    let child = crate::message::unmarshal_message(&reframed);
    proof {
        assert(raw_message_valid(reframed) == raw_message_valid(
            RawMessage { depth: (parent_depth + 1) as i32, ..*raw },
        ));
        match &child {
            Some(c) => {
                assert(marshals(*c, RawMessage { depth: c.depth, ..*raw }));
            },
            None => {},
        }
    }
    child
}

/// A call issued from within a callback runs one level deeper than its
/// parent — exactly one —, and a call that would pass the depth bound is
/// never built at all.
pub proof fn lemma_nested_call_depth(parent_depth: int, raw: RawMessage, child: Message)
    requires
        child_message_of(parent_depth, raw, child),
    ensures
        child.depth == parent_depth + 1,
{
}

/// Raw nested-call callback.  Decodes the request, frames it one level
/// deeper than the parent, and re-enters the execute contract through the
/// host; past the depth bound it answers the depth status itself, returning
/// the request's gas untouched, and the host is never entered.  A malformed
/// request is a boundary inconsistency and answers an internal error.
pub fn dispatch_call<H: HostContext>(host: &mut H, parent_depth: i32, raw: &RawMessage) -> (r:
    RawResult)
    requires
        0 <= parent_depth,
    ensures
        !spec_depth_allowed(parent_depth as int) ==> {
            &&& r.status_code as int == spec_status_code(StatusCode::CallDepthExceeded)
            &&& r.gas_left == raw.gas
            &&& r.output_data@.len() == 0
        },
        spec_depth_allowed(parent_depth as int) && !raw_message_valid(
            RawMessage { depth: (parent_depth + 1) as i32, ..*raw },
        ) ==> {
            &&& r.status_code as int == spec_status_code(StatusCode::InternalError)
            &&& r.gas_left == raw.gas
            &&& r.output_data@.len() == 0
        },
        spec_depth_allowed(parent_depth as int) && raw_message_valid(
            RawMessage { depth: (parent_depth + 1) as i32, ..*raw },
        ) ==> exists|answer: (Vec<u8>, i64, StatusCode)|
            {
                &&& r.status_code as int == spec_status_code(#[trigger] answer.2)
                &&& r.gas_left == answer.1
                &&& r.output_data@ == answer.0@
            },
{
    if parent_depth >= MAX_CALL_DEPTH {
        return RawResult {
            status_code: status_code(&StatusCode::CallDepthExceeded),
            gas_left: raw.gas,
            output_data: Vec::new(),
        };
    }
    match build_child_message(parent_depth, raw) {
        Some(child) => {
            let answer = host.call(&child);
            let ghost witness = (answer.0@, answer.1, answer.2);
            let code = status_code(&answer.2);
            let r = RawResult { status_code: code, gas_left: answer.1, output_data: answer.0 };
            proof {
                let w: (Vec<u8>, i64, StatusCode) = (r.output_data, r.gas_left, witness.2);
                assert(r.status_code as int == spec_status_code(w.2) && r.gas_left == w.1
                    && r.output_data@ == w.0@);
            }
            r
        },
        None => RawResult {
            status_code: status_code(&StatusCode::InternalError),
            gas_left: raw.gas,
            output_data: Vec::new(),
        },
    }
}

} // verus!
