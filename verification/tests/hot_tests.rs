use smartwallet::types::ContractError;
use smartwallet::types::HotWallet;
use smartwallet::types::WhitelistedContract;
use smartwallet::msgs::OutboundMsg;
use smartwallet::state::Wallet;
use smartwallet::hot::authorize_action;
use smartwallet::hot::execute_anchor_earn_deposit;
use smartwallet::hot::execute_bluna_claim_rewards;
use smartwallet::hot::execute_fill_up_gas;
use smartwallet::hot::execute_hot_command;
use smartwallet::hot::execute_repay_stable;
use smartwallet::hot::GAS_BUFFER;
use smartwallet::mgmt::instantiate_existing_multisig;

fn delegate(address: &str, gas_tank_max: u64, ids: Vec<u64>) -> HotWallet {
    HotWallet {
        address: address.to_string(),
        label: "ops".to_string(),
        gas_cooldown: 3600,
        gas_tank_max,
        whitelisted_messages: ids,
    }
}

fn test_wallet() -> Wallet {
    let hot_wallets = vec![
        delegate("hot1", 500, vec![0, 1, 2]),
        delegate("hot2", 500, vec![0]),
    ];
    let contracts = vec![
        WhitelistedContract {
            address: "market-addr".to_string(),
            label: "anchor_market".to_string(),
            code_id: 1,
        },
        WhitelistedContract {
            address: "bluna-addr".to_string(),
            label: "bluna_reward".to_string(),
            code_id: 2,
        },
    ];
    let cold = vec!["a".to_string(), "b".to_string(), "c".to_string()];
    let (wallet, _resp) = instantiate_existing_multisig(
        hot_wallets,
        "gov".to_string(),
        contracts,
        cold,
        2,
        86400,
    );
    wallet
}

#[test]
fn unknown_delegate_fails_every_gated_action() {
    let mut wallet = test_wallet();
    let outsider = "mallory".to_string();
    assert_eq!(
        authorize_action(&wallet.config, &outsider, 0).unwrap_err(),
        ContractError::Unauthorized
    );
    assert_eq!(
        execute_anchor_earn_deposit(&wallet.config, &outsider, 10, GAS_BUFFER + 10).unwrap_err(),
        ContractError::Unauthorized
    );
    assert_eq!(
        execute_repay_stable(&wallet.config, &outsider, 10).unwrap_err(),
        ContractError::Unauthorized
    );
    assert_eq!(
        execute_bluna_claim_rewards(&wallet.config, &outsider).unwrap_err(),
        ContractError::Unauthorized
    );
    assert_eq!(
        execute_hot_command(
            &wallet.config,
            &outsider,
            &"market-addr".to_string(),
            vec![],
            b"{}".to_vec()
        )
        .unwrap_err(),
        ContractError::Unauthorized
    );
    assert_eq!(
        execute_fill_up_gas(&mut wallet, &outsider, 0, 0, u64::MAX, 0, 0).unwrap_err(),
        ContractError::Unauthorized
    );
}

#[test]
fn action_id_gating() {
    let wallet = test_wallet();
    assert!(authorize_action(&wallet.config, &"hot1".to_string(), 2).is_ok());
    assert_eq!(
        authorize_action(&wallet.config, &"hot2".to_string(), 2).unwrap_err(),
        ContractError::UnauthorizedAction
    );
    assert_eq!(
        execute_repay_stable(&wallet.config, &"hot2".to_string(), 10).unwrap_err(),
        ContractError::UnauthorizedAction
    );
}

#[test]
fn refill_twice_within_cooldown_gives_one_transfer() {
    let mut wallet = test_wallet();
    let sender = "hot1".to_string();
    let contract_balance = GAS_BUFFER + 300;
    let first = execute_fill_up_gas(&mut wallet, &sender, 0, 200, contract_balance, 0, 0).unwrap();
    assert_eq!(first.messages.len(), 1);
    match &first.messages[0] {
        OutboundMsg::BankSend { to_address, amount } => {
            assert_eq!(to_address.as_str(), "hot1");
            assert_eq!(amount.len(), 1);
            assert_eq!(amount[0].denom.as_str(), "uusd");
            assert_eq!(amount[0].amount, 300);
        },
        _ => panic!("expected a bank send"),
    }
    let second = execute_fill_up_gas(&mut wallet, &sender, 1800, 200, contract_balance, 0, 0);
    assert_eq!(second.unwrap_err(), ContractError::GasCooldown);
}

#[test]
fn refill_scenario_cooldown_then_success() {
    let mut wallet = test_wallet();
    let sender = "hot1".to_string();
    let contract_balance = GAS_BUFFER + 1000;
    // gas cap 500, balance 200: refill of 300 at t=0
    let first = execute_fill_up_gas(&mut wallet, &sender, 0, 200, contract_balance, 0, 0).unwrap();
    match &first.messages[0] {
        OutboundMsg::BankSend { amount, .. } => assert_eq!(amount[0].amount, 300),
        _ => panic!("expected a bank send"),
    }
    // within the 3600 s cooldown: rejected
    assert_eq!(
        execute_fill_up_gas(&mut wallet, &sender, 1800, 100, contract_balance, 0, 0).unwrap_err(),
        ContractError::GasCooldown
    );
    // after the cooldown, balance dropped below the cap: succeeds again
    let third = execute_fill_up_gas(&mut wallet, &sender, 3601, 450, contract_balance, 0, 0)
        .unwrap();
    match &third.messages[0] {
        OutboundMsg::BankSend { amount, .. } => assert_eq!(amount[0].amount, 50),
        _ => panic!("expected a bank send"),
    }
}

#[test]
fn refill_deducts_tax() {
    let mut wallet = test_wallet();
    let sender = "hot1".to_string();
    // need = 300; 10% tax rate: net = floor(300e18 / 1.1e18) = 272, tax = 28
    let resp = execute_fill_up_gas(
        &mut wallet,
        &sender,
        0,
        200,
        GAS_BUFFER + 300,
        100_000_000_000_000_000,
        1000,
    )
    .unwrap();
    match &resp.messages[0] {
        OutboundMsg::BankSend { amount, .. } => assert_eq!(amount[0].amount, 300 - 28),
        _ => panic!("expected a bank send"),
    }
}

#[test]
fn refill_tank_full_and_reserve_errors() {
    let mut wallet = test_wallet();
    let sender = "hot1".to_string();
    assert_eq!(
        execute_fill_up_gas(&mut wallet, &sender, 0, 500, u64::MAX, 0, 0).unwrap_err(),
        ContractError::GasTankFull
    );
    // need 300 but the wallet holds less than need + buffer
    assert_eq!(
        execute_fill_up_gas(&mut wallet, &sender, 0, 200, GAS_BUFFER + 299, 0, 0).unwrap_err(),
        ContractError::SmartWalletGas
    );
}

#[test]
fn deposit_is_spend_capped_and_truncates() {
    let wallet = test_wallet();
    let sender = "hot1".to_string();
    // request 1000 but only 400 above the buffer: truncated to 400
    let resp = execute_anchor_earn_deposit(&wallet.config, &sender, 1000, GAS_BUFFER + 400)
        .unwrap();
    match &resp.messages[0] {
        OutboundMsg::WasmExecute { contract_addr, funds, msg } => {
            assert_eq!(contract_addr.as_str(), "market-addr");
            assert_eq!(funds[0].denom.as_str(), "uusd");
            assert_eq!(funds[0].amount, 400);
            assert_eq!(msg.as_slice(), b"{\"deposit_stable\":{}}");
        },
        _ => panic!("expected a program call"),
    }
    // request below the available margin passes through unchanged
    let small = execute_anchor_earn_deposit(&wallet.config, &sender, 100, GAS_BUFFER + 400)
        .unwrap();
    match &small.messages[0] {
        OutboundMsg::WasmExecute { funds, .. } => assert_eq!(funds[0].amount, 100),
        _ => panic!("expected a program call"),
    }
    // balance below the buffer: rejected
    assert_eq!(
        execute_anchor_earn_deposit(&wallet.config, &sender, 100, GAS_BUFFER - 1).unwrap_err(),
        ContractError::SmartWalletGas
    );
}

#[test]
fn repay_and_claim_payloads() {
    let wallet = test_wallet();
    let sender = "hot1".to_string();
    let repay = execute_repay_stable(&wallet.config, &sender, 77).unwrap();
    match &repay.messages[0] {
        OutboundMsg::WasmExecute { contract_addr, funds, msg } => {
            assert_eq!(contract_addr.as_str(), "market-addr");
            assert_eq!(funds[0].amount, 77);
            assert_eq!(msg.as_slice(), b"{\"repay_stable\":{}}");
        },
        _ => panic!("expected a program call"),
    }
    let claim = execute_bluna_claim_rewards(&wallet.config, &sender).unwrap();
    match &claim.messages[0] {
        OutboundMsg::WasmExecute { contract_addr, funds, msg } => {
            assert_eq!(contract_addr.as_str(), "bluna-addr");
            assert!(funds.is_empty());
            assert_eq!(msg.as_slice(), b"{\"claim_rewards\":{\"recipient\":null}}");
        },
        _ => panic!("expected a program call"),
    }
}

#[test]
fn hot_command_requires_whitelisted_destination() {
    let wallet = test_wallet();
    let sender = "hot1".to_string();
    let resp = execute_hot_command(
        &wallet.config,
        &sender,
        &"market-addr".to_string(),
        vec![],
        b"{\"do\":{}}".to_vec(),
    )
    .unwrap();
    match &resp.messages[0] {
        OutboundMsg::WasmExecute { contract_addr, msg, .. } => {
            assert_eq!(contract_addr.as_str(), "market-addr");
            assert_eq!(msg.as_slice(), b"{\"do\":{}}");
        },
        _ => panic!("expected a program call"),
    }
    assert_eq!(
        execute_hot_command(
            &wallet.config,
            &sender,
            &"unknown-addr".to_string(),
            vec![],
            b"{}".to_vec()
        )
        .unwrap_err(),
        ContractError::ContractNotWhitelisted
    );
}

#[test]
fn missing_market_contract_is_rejected() {
    let (wallet, _resp) = instantiate_existing_multisig(
        vec![delegate("hot1", 500, vec![0, 1, 2])],
        "gov".to_string(),
        vec![],
        vec!["a".to_string()],
        1,
        86400,
    );
    assert_eq!(
        execute_anchor_earn_deposit(&wallet.config, &"hot1".to_string(), 10, GAS_BUFFER + 10)
            .unwrap_err(),
        ContractError::ContractNotWhitelisted
    );
}
