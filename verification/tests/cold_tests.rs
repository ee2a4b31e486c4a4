use smartwallet::types::ContractError;
use smartwallet::msgs::OutboundMsg;
use smartwallet::state::ColdAction;
use smartwallet::state::Wallet;
use smartwallet::cold::confirm_cold_action;
use smartwallet::cold::propose_cold_native_transfer;
use smartwallet::cold::propose_cold_program_call;
use smartwallet::mgmt::instantiate_existing_multisig;
use smartwallet::queries::get_pending_cold_action;

fn cold_wallet(threshold: usize) -> Wallet {
    let (wallet, _resp) = instantiate_existing_multisig(
        vec![],
        "gov".to_string(),
        vec![],
        vec!["a".to_string(), "b".to_string(), "c".to_string()],
        threshold,
        86400,
    );
    wallet
}

#[test]
fn propose_then_confirm_dispatches_at_threshold() {
    let mut wallet = cold_wallet(2);
    // A proposes a transfer of 100 to x
    let prop = propose_cold_native_transfer(
        &mut wallet,
        &"a".to_string(),
        "x".to_string(),
        "uusd".to_string(),
        100,
        Some(1000),
        0,
        0,
        0,
    )
    .unwrap();
    assert!(prop.messages.is_empty());
    let pending = get_pending_cold_action(&wallet);
    assert_eq!(pending.confirmers.len(), 1);
    assert_eq!(pending.confirmers[0].as_str(), "a");
    assert_eq!(pending.expires_at, 1000);
    match pending.action {
        ColdAction::NativeTransfer { ref recipient, ref denom, amount } => {
            assert_eq!(recipient.as_str(), "x");
            assert_eq!(denom.as_str(), "uusd");
            assert_eq!(amount, 100);
        },
        _ => panic!("expected a pending transfer"),
    }
    // B confirms: quorum of 2 reached, the transfer dispatches
    let conf = confirm_cold_action(&mut wallet, &"b".to_string(), 500, 0, 0).unwrap();
    assert_eq!(conf.messages.len(), 1);
    match &conf.messages[0] {
        OutboundMsg::BankSend { to_address, amount } => {
            assert_eq!(to_address.as_str(), "x");
            assert_eq!(amount[0].amount, 100);
        },
        _ => panic!("expected a bank send"),
    }
    // the slot was reset: C has nothing to confirm
    assert_eq!(
        confirm_cold_action(&mut wallet, &"c".to_string(), 600, 0, 0).unwrap_err(),
        ContractError::NoPendingAction
    );
}

#[test]
fn dispatch_deducts_tax_from_transfer() {
    let mut wallet = cold_wallet(2);
    propose_cold_native_transfer(
        &mut wallet,
        &"a".to_string(),
        "x".to_string(),
        "uusd".to_string(),
        300,
        None,
        0,
        0,
        0,
    )
    .unwrap();
    // 10% rate: tax on 300 is 28
    let conf = confirm_cold_action(
        &mut wallet,
        &"b".to_string(),
        1,
        100_000_000_000_000_000,
        1000,
    )
    .unwrap();
    match &conf.messages[0] {
        OutboundMsg::BankSend { amount, .. } => assert_eq!(amount[0].amount, 272),
        _ => panic!("expected a bank send"),
    }
}

#[test]
fn confirm_is_counted_once_per_principal() {
    let mut wallet = cold_wallet(3);
    propose_cold_native_transfer(
        &mut wallet,
        &"a".to_string(),
        "x".to_string(),
        "uusd".to_string(),
        5,
        None,
        0,
        0,
        0,
    )
    .unwrap();
    assert_eq!(
        confirm_cold_action(&mut wallet, &"a".to_string(), 1, 0, 0).unwrap_err(),
        ContractError::AlreadyConfirmed
    );
    let second = confirm_cold_action(&mut wallet, &"b".to_string(), 1, 0, 0).unwrap();
    assert!(second.messages.is_empty());
    assert_eq!(
        confirm_cold_action(&mut wallet, &"b".to_string(), 2, 0, 0).unwrap_err(),
        ContractError::AlreadyConfirmed
    );
    let pending = get_pending_cold_action(&wallet);
    assert_eq!(pending.confirmers.len(), 2);
    // third distinct principal reaches the threshold
    let third = confirm_cold_action(&mut wallet, &"c".to_string(), 2, 0, 0).unwrap();
    assert_eq!(third.messages.len(), 1);
}

#[test]
fn expired_confirm_clears_slot_and_propose_succeeds_again() {
    let mut wallet = cold_wallet(2);
    propose_cold_native_transfer(
        &mut wallet,
        &"a".to_string(),
        "x".to_string(),
        "uusd".to_string(),
        5,
        Some(100),
        0,
        0,
        0,
    )
    .unwrap();
    assert_eq!(
        confirm_cold_action(&mut wallet, &"b".to_string(), 101, 0, 0).unwrap_err(),
        ContractError::ActionExpired
    );
    let pending = get_pending_cold_action(&wallet);
    assert!(matches!(pending.action, ColdAction::Idle));
    assert!(pending.confirmers.is_empty());
    // the slot was freed: a new proposal is accepted
    let again = propose_cold_native_transfer(
        &mut wallet,
        &"b".to_string(),
        "y".to_string(),
        "uusd".to_string(),
        7,
        None,
        200,
        0,
        0,
    );
    assert!(again.is_ok());
}

#[test]
fn propose_while_pending_fails_for_everyone() {
    let mut wallet = cold_wallet(2);
    propose_cold_native_transfer(
        &mut wallet,
        &"a".to_string(),
        "x".to_string(),
        "uusd".to_string(),
        5,
        None,
        0,
        0,
        0,
    )
    .unwrap();
    // every principal is refused, the original proposer included
    for p in ["a", "b", "c"] {
        assert_eq!(
            propose_cold_native_transfer(
                &mut wallet,
                &p.to_string(),
                "y".to_string(),
                "uusd".to_string(),
                9,
                None,
                1,
                0,
                0,
            )
            .unwrap_err(),
            ContractError::ActionAlreadyPending
        );
    }
}

#[test]
fn cold_ops_require_cold_principal() {
    let mut wallet = cold_wallet(2);
    assert_eq!(
        propose_cold_native_transfer(
            &mut wallet,
            &"mallory".to_string(),
            "x".to_string(),
            "uusd".to_string(),
            5,
            None,
            0,
            0,
            0,
        )
        .unwrap_err(),
        ContractError::Unauthorized
    );
    assert_eq!(
        confirm_cold_action(&mut wallet, &"mallory".to_string(), 0, 0, 0).unwrap_err(),
        ContractError::Unauthorized
    );
}

#[test]
fn threshold_one_dispatches_on_propose() {
    let mut wallet = cold_wallet(1);
    let prop = propose_cold_program_call(
        &mut wallet,
        &"a".to_string(),
        "target".to_string(),
        b"{\"go\":{}}".to_vec(),
        None,
        0,
        0,
        0,
    )
    .unwrap();
    assert_eq!(prop.messages.len(), 1);
    match &prop.messages[0] {
        OutboundMsg::WasmExecute { contract_addr, funds, msg } => {
            assert_eq!(contract_addr.as_str(), "target");
            assert!(funds.is_empty());
            assert_eq!(msg.as_slice(), b"{\"go\":{}}");
        },
        _ => panic!("expected a program call"),
    }
    let pending = get_pending_cold_action(&wallet);
    assert!(matches!(pending.action, ColdAction::Idle));
}

#[test]
fn expiration_is_clamped_to_configured_maximum() {
    let mut wallet = cold_wallet(2);
    propose_cold_native_transfer(
        &mut wallet,
        &"a".to_string(),
        "x".to_string(),
        "uusd".to_string(),
        5,
        Some(1_000_000),
        10,
        0,
        0,
    )
    .unwrap();
    let pending = get_pending_cold_action(&wallet);
    assert_eq!(pending.expires_at, 10 + 86400);
}

#[test]
fn expiration_defaults_to_configured_maximum() {
    let mut wallet = cold_wallet(2);
    propose_cold_native_transfer(
        &mut wallet,
        &"a".to_string(),
        "x".to_string(),
        "uusd".to_string(),
        5,
        None,
        7,
        0,
        0,
    )
    .unwrap();
    let pending = get_pending_cold_action(&wallet);
    assert_eq!(pending.expires_at, 7 + 86400);
}

#[test]
fn expiration_saturates_near_the_end_of_time() {
    let mut wallet = cold_wallet(2);
    propose_cold_native_transfer(
        &mut wallet,
        &"a".to_string(),
        "x".to_string(),
        "uusd".to_string(),
        5,
        Some(86400),
        u64::MAX - 10,
        0,
        0,
    )
    .unwrap();
    let pending = get_pending_cold_action(&wallet);
    assert_eq!(pending.expires_at, u64::MAX);
}
