use smartwallet::types::ContractError;
use smartwallet::msgs::SPAWN_MULTISIG_REPLY_ID;
use smartwallet::state::Wallet;
use smartwallet::mgmt::instantiate_spawn_multisig;
use smartwallet::reply::reply;

fn spawned_wallet() -> Wallet {
    let (wallet, _resp) = instantiate_spawn_multisig(
        &"deployer".to_string(),
        vec![],
        vec![],
        1000,
        1,
        vec![],
        42,
        vec!["a".to_string()],
        1,
        86400,
    );
    wallet
}

/// Wire encoding of an instantiate response: field 1 (length-delimited)
/// holds the contract address, field 2 the opaque init data.
fn encode_response(address: &[u8], data: &[u8]) -> Vec<u8> {
    let mut out = Vec::new();
    out.push(0x0a);
    out.push(address.len() as u8);
    out.extend_from_slice(address);
    out.push(0x12);
    out.push(data.len() as u8);
    out.extend_from_slice(data);
    out
}

#[test]
fn reply_commits_spawned_multisig_address() {
    let mut wallet = spawned_wallet();
    assert_eq!(wallet.config.cw3_address.as_str(), "");
    let payload = encode_response(b"terra1newgov", b"\x01\x02");
    reply(&mut wallet, SPAWN_MULTISIG_REPLY_ID, Some(payload)).unwrap();
    assert_eq!(wallet.config.cw3_address.as_str(), "terra1newgov");
}

#[test]
fn reply_accepts_later_field_order() {
    let mut wallet = spawned_wallet();
    // field 2 first, then field 1: the scanner skips ahead
    let mut payload = Vec::new();
    payload.push(0x12);
    payload.push(3);
    payload.extend_from_slice(b"abc");
    payload.push(0x0a);
    payload.push(4);
    payload.extend_from_slice(b"gov2");
    reply(&mut wallet, SPAWN_MULTISIG_REPLY_ID, Some(payload)).unwrap();
    assert_eq!(wallet.config.cw3_address.as_str(), "gov2");
}

#[test]
fn reply_rejects_unknown_correlation_id() {
    let mut wallet = spawned_wallet();
    let payload = encode_response(b"terra1newgov", b"");
    assert_eq!(
        reply(&mut wallet, 7, Some(payload)).unwrap_err(),
        ContractError::InvalidReplyId
    );
    assert_eq!(wallet.config.cw3_address.as_str(), "");
}

#[test]
fn reply_rejects_missing_or_malformed_payload() {
    let mut wallet = spawned_wallet();
    assert_eq!(
        reply(&mut wallet, SPAWN_MULTISIG_REPLY_ID, None).unwrap_err(),
        ContractError::MalformedReply
    );
    // truncated varint: continuation bit set at the end of the buffer
    assert_eq!(
        reply(&mut wallet, SPAWN_MULTISIG_REPLY_ID, Some(vec![0x8a])).unwrap_err(),
        ContractError::MalformedReply
    );
    // field 1 with the wrong wire type (varint instead of length-delimited)
    assert_eq!(
        reply(&mut wallet, SPAWN_MULTISIG_REPLY_ID, Some(vec![0x08, 0x05])).unwrap_err(),
        ContractError::MalformedReply
    );
    // length running past the end of the buffer
    assert_eq!(
        reply(&mut wallet, SPAWN_MULTISIG_REPLY_ID, Some(vec![0x0a, 0x10, b'x'])).unwrap_err(),
        ContractError::MalformedReply
    );
    // no field 1 at all
    assert_eq!(
        reply(&mut wallet, SPAWN_MULTISIG_REPLY_ID, Some(vec![0x12, 0x01, b'z'])).unwrap_err(),
        ContractError::MalformedReply
    );
    // address bytes outside ASCII
    assert_eq!(
        reply(&mut wallet, SPAWN_MULTISIG_REPLY_ID, Some(vec![0x0a, 0x01, 0xff])).unwrap_err(),
        ContractError::MalformedReply
    );
    assert_eq!(wallet.config.cw3_address.as_str(), "");
}

#[test]
fn reply_skips_varint_and_fixed_width_fields() {
    let mut wallet = spawned_wallet();
    let mut payload = Vec::new();
    // field 3, varint 300 (two bytes)
    payload.push(0x18);
    payload.extend_from_slice(&[0xac, 0x02]);
    // field 4, fixed 64-bit
    payload.push(0x21);
    payload.extend_from_slice(&[0u8; 8]);
    // field 5, fixed 32-bit
    payload.push(0x2d);
    payload.extend_from_slice(&[0u8; 4]);
    // field 1, the address
    payload.push(0x0a);
    payload.push(2);
    payload.extend_from_slice(b"ok");
    reply(&mut wallet, SPAWN_MULTISIG_REPLY_ID, Some(payload)).unwrap();
    assert_eq!(wallet.config.cw3_address.as_str(), "ok");
}

#[test]
fn payload_encoders_match_protocol_serialization() {
    // the emitted payloads must be byte-identical with what the protocol
    // crates serialize
    let deposit = cosmwasm_std::to_binary(&moneymarket::market::ExecuteMsg::DepositStable {})
        .unwrap();
    assert_eq!(deposit.0.as_slice(), b"{\"deposit_stable\":{}}");
    let repay = cosmwasm_std::to_binary(&moneymarket::market::ExecuteMsg::RepayStable {}).unwrap();
    assert_eq!(repay.0.as_slice(), b"{\"repay_stable\":{}}");
}
