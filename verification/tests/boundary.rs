//! Marshalling-layer tests: fixed-size values, enumeration codes, message
//! round trips, and result interpretation.

use evmc_client::codec::{decode_address, decode_bytes32, encode_address, encode_bytes32};
use evmc_client::message::{
    interpret_result, marshal_message, unmarshal_message, Message, RawMessage, RawResult,
    FLAG_STATIC, MAX_CALL_DEPTH,
};
use evmc_client::types::{
    call_kind_code, call_kind_from_code, capability_code, revision_code, status_code,
    status_from_code, storage_status_code, Address, Bytes32, CallKind, Revision, StatusCode,
    StorageStatus,
};

fn address_from_pattern(seed: u8) -> Address {
    let mut bytes = Vec::new();
    for i in 0..20u8 {
        bytes.push(seed.wrapping_add(i.wrapping_mul(7)));
    }
    Address::from_bytes(bytes).unwrap()
}

fn bytes32_from_pattern(seed: u8) -> Bytes32 {
    let mut bytes = Vec::new();
    for i in 0..32u8 {
        bytes.push(seed.wrapping_add(i.wrapping_mul(13)));
    }
    Bytes32::from_bytes(bytes).unwrap()
}

#[test]
fn address_roundtrip_patterns() {
    for seed in [0u8, 1, 0x7f, 0xff, 42] {
        let a = address_from_pattern(seed);
        let original = a.bytes.clone();
        let raw = encode_address(&a);
        assert_eq!(raw, original);
        let back = decode_address(&raw).unwrap();
        assert_eq!(back.bytes, original);
    }
}

#[test]
fn bytes32_roundtrip_patterns() {
    for seed in [0u8, 1, 0x80, 0xff, 99] {
        let w = bytes32_from_pattern(seed);
        let original = w.bytes.clone();
        let raw = encode_bytes32(&w);
        assert_eq!(raw, original);
        let back = decode_bytes32(&raw).unwrap();
        assert_eq!(back.bytes, original);
    }
}

#[test]
fn address_rejects_other_widths() {
    assert!(Address::from_bytes(vec![0u8; 19]).is_none());
    assert!(Address::from_bytes(vec![0u8; 21]).is_none());
    assert!(Address::from_bytes(Vec::new()).is_none());
    assert!(decode_address(&vec![0u8; 32]).is_none());
}

#[test]
fn bytes32_rejects_other_widths() {
    assert!(Bytes32::from_bytes(vec![0u8; 31]).is_none());
    assert!(Bytes32::from_bytes(vec![0u8; 33]).is_none());
    assert!(decode_bytes32(&vec![0u8; 20]).is_none());
}

#[test]
fn status_codes_are_exact() {
    assert_eq!(status_code(&StatusCode::Success), 0);
    assert_eq!(status_code(&StatusCode::Failure), 1);
    assert_eq!(status_code(&StatusCode::Revert), 2);
    assert_eq!(status_code(&StatusCode::OutOfGas), 3);
    assert_eq!(status_code(&StatusCode::CallDepthExceeded), 10);
    assert_eq!(status_code(&StatusCode::PrecompileFailure), 12);
    assert_eq!(status_code(&StatusCode::InsufficientBalance), 17);
    assert_eq!(status_code(&StatusCode::InternalError), -1);
    assert_eq!(status_code(&StatusCode::Rejected), -2);
    assert_eq!(status_code(&StatusCode::OutOfMemory), -3);
}

#[test]
fn status_roundtrip_whole_set() {
    let all = [
        StatusCode::Success,
        StatusCode::Failure,
        StatusCode::Revert,
        StatusCode::OutOfGas,
        StatusCode::InvalidInstruction,
        StatusCode::UndefinedInstruction,
        StatusCode::StackOverflow,
        StatusCode::StackUnderflow,
        StatusCode::BadJumpDestination,
        StatusCode::InvalidMemoryAccess,
        StatusCode::CallDepthExceeded,
        StatusCode::StaticModeViolation,
        StatusCode::PrecompileFailure,
        StatusCode::ContractValidationFailure,
        StatusCode::ArgumentOutOfRange,
        StatusCode::WasmUnreachableInstruction,
        StatusCode::WasmTrap,
        StatusCode::InsufficientBalance,
        StatusCode::InternalError,
        StatusCode::Rejected,
        StatusCode::OutOfMemory,
    ];
    for s in all {
        assert_eq!(status_from_code(status_code(&s)), Some(s));
    }
    assert_eq!(status_from_code(18), None);
    assert_eq!(status_from_code(-4), None);
    assert_eq!(status_from_code(1234), None);
}

#[test]
fn call_kind_codes_are_exact() {
    assert_eq!(call_kind_code(&CallKind::Call), 0);
    assert_eq!(call_kind_code(&CallKind::DelegateCall), 1);
    assert_eq!(call_kind_code(&CallKind::CallCode), 2);
    assert_eq!(call_kind_code(&CallKind::Create), 3);
    assert_eq!(call_kind_code(&CallKind::Create2), 4);
    for k in [
        CallKind::Call,
        CallKind::DelegateCall,
        CallKind::CallCode,
        CallKind::Create,
        CallKind::Create2,
    ] {
        assert_eq!(call_kind_from_code(call_kind_code(&k)), Some(k));
    }
    assert_eq!(call_kind_from_code(5), None);
}

#[test]
fn revision_codes_are_ordered() {
    let all = [
        Revision::Frontier,
        Revision::Homestead,
        Revision::TangerineWhistle,
        Revision::SpuriousDragon,
        Revision::Byzantium,
        Revision::Constantinople,
        Revision::Petersburg,
        Revision::Istanbul,
    ];
    for (i, rev) in all.iter().enumerate() {
        assert_eq!(revision_code(rev) as usize, i);
    }
}

#[test]
fn capability_flags_are_exact() {
    assert_eq!(capability_code(&evmc_client::types::Capabilities::Evm1), 1);
    assert_eq!(capability_code(&evmc_client::types::Capabilities::Ewasm), 2);
    assert_eq!(capability_code(&evmc_client::types::Capabilities::Precompiles), 4);
}

#[test]
fn storage_status_codes_are_exact() {
    assert_eq!(storage_status_code(&StorageStatus::Unchanged), 0);
    assert_eq!(storage_status_code(&StorageStatus::Modified), 1);
    assert_eq!(storage_status_code(&StorageStatus::ModifiedAgain), 2);
    assert_eq!(storage_status_code(&StorageStatus::Added), 3);
    assert_eq!(storage_status_code(&StorageStatus::Deleted), 4);
}

#[test]
fn marshal_message_writes_raw_layout() {
    let msg = Message::new(
        CallKind::Create2,
        true,
        3,
        90000,
        address_from_pattern(1),
        address_from_pattern(2),
        vec![0xde, 0xad, 0xbe, 0xef],
        bytes32_from_pattern(3),
        bytes32_from_pattern(4),
    );
    let raw = marshal_message(&msg);
    assert_eq!(raw.kind, 4);
    assert_eq!(raw.flags, FLAG_STATIC);
    assert_eq!(raw.depth, 3);
    assert_eq!(raw.gas, 90000);
    assert_eq!(raw.destination, msg.destination.bytes);
    assert_eq!(raw.sender, msg.sender.bytes);
    assert_eq!(raw.input_data, vec![0xde, 0xad, 0xbe, 0xef]);
    assert_eq!(raw.value, msg.value.bytes);
    assert_eq!(raw.create2_salt, msg.create2_salt.bytes);
}

#[test]
fn message_roundtrips_through_raw_layout() {
    let msg = Message::new(
        CallKind::DelegateCall,
        false,
        7,
        123456,
        address_from_pattern(9),
        address_from_pattern(8),
        vec![1, 2, 3],
        bytes32_from_pattern(7),
        bytes32_from_pattern(6),
    );
    let raw = marshal_message(&msg);
    assert_eq!(raw.flags, 0);
    let back = unmarshal_message(&raw).unwrap();
    assert_eq!(back.kind, msg.kind);
    assert_eq!(back.is_static, msg.is_static);
    assert_eq!(back.depth, msg.depth);
    assert_eq!(back.gas, msg.gas);
    assert_eq!(back.destination.bytes, msg.destination.bytes);
    assert_eq!(back.sender.bytes, msg.sender.bytes);
    assert_eq!(back.input, msg.input);
    assert_eq!(back.value.bytes, msg.value.bytes);
    assert_eq!(back.create2_salt.bytes, msg.create2_salt.bytes);
}

#[test]
fn unmarshal_rejects_malformed_raw_messages() {
    let good = marshal_message(&Message::new(
        CallKind::Call,
        false,
        0,
        1000,
        address_from_pattern(0),
        address_from_pattern(1),
        Vec::new(),
        bytes32_from_pattern(0),
        bytes32_from_pattern(1),
    ));
    let bad_kind = RawMessage { kind: 9, ..clone_raw(&good) };
    assert!(unmarshal_message(&bad_kind).is_none());
    let bad_flags = RawMessage { flags: 2, ..clone_raw(&good) };
    assert!(unmarshal_message(&bad_flags).is_none());
    let bad_depth = RawMessage { depth: -1, ..clone_raw(&good) };
    assert!(unmarshal_message(&bad_depth).is_none());
    let too_deep = RawMessage { depth: MAX_CALL_DEPTH + 1, ..clone_raw(&good) };
    assert!(unmarshal_message(&too_deep).is_none());
    let bad_gas = RawMessage { gas: -1, ..clone_raw(&good) };
    assert!(unmarshal_message(&bad_gas).is_none());
    let bad_dest = RawMessage { destination: vec![0u8; 19], ..clone_raw(&good) };
    assert!(unmarshal_message(&bad_dest).is_none());
    let bad_value = RawMessage { value: vec![0u8; 31], ..clone_raw(&good) };
    assert!(unmarshal_message(&bad_value).is_none());
    assert!(unmarshal_message(&good).is_some());
}

fn clone_raw(raw: &RawMessage) -> RawMessage {
    RawMessage {
        kind: raw.kind,
        flags: raw.flags,
        depth: raw.depth,
        gas: raw.gas,
        destination: raw.destination.clone(),
        sender: raw.sender.clone(),
        input_data: raw.input_data.clone(),
        value: raw.value.clone(),
        create2_salt: raw.create2_salt.clone(),
    }
}

#[test]
fn interpret_result_keeps_status_gas_and_output() {
    let r = interpret_result(RawResult {
        status_code: 2,
        gas_left: 777,
        output_data: vec![5, 6, 7],
    });
    assert_eq!(r.status, StatusCode::Revert);
    assert_eq!(r.gas_left, 777);
    assert_eq!(r.output, vec![5, 6, 7]);
}

#[test]
fn interpret_result_reports_unknown_code_as_internal_error() {
    let r = interpret_result(RawResult { status_code: 99, gas_left: 0, output_data: Vec::new() });
    assert_eq!(r.status, StatusCode::InternalError);
    let r = interpret_result(RawResult { status_code: -7, gas_left: 1, output_data: Vec::new() });
    assert_eq!(r.status, StatusCode::InternalError);
}
