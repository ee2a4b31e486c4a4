use vstd::prelude::*;
use vstd::string::StringExecFns;
use crate::types::Coin;
use crate::types::ContractError;
use crate::types::HotWallet;
use crate::types::HotWalletState;
use crate::msgs::Attribute;
use crate::msgs::OutboundMsg;
use crate::msgs::Response;
use crate::msgs::fixed_call_json;
use crate::msgs::claim_rewards_json;
use crate::msgs::deposit_stable_payload;
use crate::msgs::repay_stable_payload;
use crate::msgs::claim_rewards_payload;
use crate::state::Config;
use crate::state::Wallet;
use crate::state::has_id;
use crate::state::spec_find_hot;
use crate::state::spec_find_label;
use crate::state::spec_find_contract;
use crate::state::spec_find_state;
use crate::state::find_hot_wallet;
use crate::state::find_hot_state;
use crate::state::find_contract_by_address;
use crate::state::find_contract_by_label;
use crate::state::set_state_at;
use crate::state::wf_wallet;
use crate::state::lemma_find_state_char;
use crate::tax::spec_compute_tax;
use crate::tax::compute_tax;

verus! {

/// Reserve the wallet never spends: refills and spend-capped forwards must
/// leave at least this much behind.
pub const GAS_BUFFER: u64 = 100000000;

/// Action id of the spend-capped stable deposit.
pub const ANCHOR_EARN_DEPOSIT_ID: u64 = 0;

/// Action id of the staking reward claim.
pub const BLUNA_CLAIM_ID: u64 = 1;

/// Action id of the stable repayment.
pub const ANCHOR_REPAY_STABLE_ID: u64 = 2;

/// Pure authorization check of a delegate-gated action: the sender must be
/// a registered hot wallet and the action id must be allowed for it.
pub fn authorize_action(config: &Config, sender: &String, action_id: u64) -> (r: Result<
    (),
    ContractError,
>)
    ensures
        match spec_find_hot(config.hot_wallets@, sender@) {
            Option::None => r == Err::<(), ContractError>(ContractError::Unauthorized),
            Option::Some(h) => if has_id(h.whitelisted_messages@, action_id) {
                r == Ok::<(), ContractError>(())
            } else {
                r == Err::<(), ContractError>(ContractError::UnauthorizedAction)
            },
        },
{
    let found = find_hot_wallet(&config.hot_wallets, sender);
    match found {
        Option::None => Err(ContractError::Unauthorized),
        Option::Some(i) => {
            if crate::state::contains_id(&config.hot_wallets[i].whitelisted_messages, action_id) {
                Ok(())
            } else {
                Err(ContractError::UnauthorizedAction)
            }
        },
    }
}

/// Amount actually forwarded by the spend-capped deposit: the request,
/// truncated to what the balance can safely give up.
pub open spec fn spec_capped_amount(balance: u64, amount: u64) -> int {
    if balance - GAS_BUFFER <= amount {
        balance - GAS_BUFFER
    } else {
        amount as int
    }
}

/// Spend-capped deposit into the whitelisted lending market. The request
/// is truncated, not rejected, when the balance cannot safely cover it;
/// `balance` is the current external balance backing the spend.
pub fn execute_anchor_earn_deposit(config: &Config, sender: &String, amount: u64, balance: u64) -> (
    r: Result<Response, ContractError>)
    ensures
        match spec_find_hot(config.hot_wallets@, sender@) {
            Option::None => r == Err::<Response, ContractError>(ContractError::Unauthorized),
            Option::Some(h) => if !has_id(h.whitelisted_messages@, ANCHOR_EARN_DEPOSIT_ID) {
                r == Err::<Response, ContractError>(ContractError::UnauthorizedAction)
            } else {
                match spec_find_label(config.whitelisted_contracts@, "anchor_market"@) {
                    Option::None => r == Err::<Response, ContractError>(
                        ContractError::ContractNotWhitelisted,
                    ),
                    Option::Some(c) => if balance < GAS_BUFFER {
                        r == Err::<Response, ContractError>(ContractError::SmartWalletGas)
                    } else {
                        r matches Ok(resp) && resp.messages@.len() == 1 && (
                        resp.messages@[0] matches OutboundMsg::WasmExecute {
                            contract_addr,
                            funds,
                            msg,
                        } && contract_addr@ == c.address@ && funds@.len() == 1
                            && funds@[0].denom@ == "uusd"@ && funds@[0].amount
                            == spec_capped_amount(balance, amount) && msg@ == fixed_call_json(
                            "deposit_stable"@,
                        )) && resp.submessages@.len() == 0 && resp.attributes@.len() == 1
                            && resp.attributes@[0].key@ == "action"@ && resp.attributes@[0].value@
                            == "anchor_earn_deposit"@
                    },
                }
            },
        },
{
    let found = find_hot_wallet(&config.hot_wallets, sender);
    if found.is_none() {
        return Err(ContractError::Unauthorized);
    }
    let i = found.unwrap();
    if !crate::state::contains_id(
        &config.hot_wallets[i].whitelisted_messages,
        ANCHOR_EARN_DEPOSIT_ID,
    ) {
        return Err(ContractError::UnauthorizedAction);
    }
    let market = find_contract_by_label(
        &config.whitelisted_contracts,
        &String::from_str("anchor_market"),
    );
    if market.is_none() {
        return Err(ContractError::ContractNotWhitelisted);
    }
    let m = market.unwrap();
    if balance < GAS_BUFFER {
        return Err(ContractError::SmartWalletGas);
    }
    let avail: u64 = balance - GAS_BUFFER;
    let send_amount: u64 = if avail <= amount {
        avail
    } else {
        amount
    };
    let mut funds: Vec<Coin> = Vec::new();
    funds.push(Coin { denom: String::from_str("uusd"), amount: send_amount });
    let mut messages: Vec<OutboundMsg> = Vec::new();
    messages.push(
        OutboundMsg::WasmExecute {
            contract_addr: config.whitelisted_contracts[m].address.clone(),
            funds,
            msg: deposit_stable_payload(),
        },
    );
    let mut attributes: Vec<Attribute> = Vec::new();
    attributes.push(
        Attribute {
            key: String::from_str("action"),
            value: String::from_str("anchor_earn_deposit"),
        },
    );
    Ok(Response { attributes, messages, submessages: Vec::new() })
}

/// Repayment of stable debt at the whitelisted lending market, funded with
/// the requested amount.
pub fn execute_repay_stable(config: &Config, sender: &String, amount: u64) -> (r: Result<
    Response,
    ContractError,
>)
    ensures
        match spec_find_hot(config.hot_wallets@, sender@) {
            Option::None => r == Err::<Response, ContractError>(ContractError::Unauthorized),
            Option::Some(h) => if !has_id(h.whitelisted_messages@, ANCHOR_REPAY_STABLE_ID) {
                r == Err::<Response, ContractError>(ContractError::UnauthorizedAction)
            } else {
                match spec_find_label(config.whitelisted_contracts@, "anchor_market"@) {
                    Option::None => r == Err::<Response, ContractError>(
                        ContractError::ContractNotWhitelisted,
                    ),
                    Option::Some(c) => r matches Ok(resp) && resp.messages@.len() == 1 && (
                    resp.messages@[0] matches OutboundMsg::WasmExecute { contract_addr, funds, msg }
                        && contract_addr@ == c.address@ && funds@.len() == 1 && funds@[0].denom@
                        == "uusd"@ && funds@[0].amount == amount && msg@ == fixed_call_json(
                        "repay_stable"@,
                    )) && resp.submessages@.len() == 0,
                }
            },
        },
{
    let found = find_hot_wallet(&config.hot_wallets, sender);
    if found.is_none() {
        return Err(ContractError::Unauthorized);
    }
    let i = found.unwrap();
    if !crate::state::contains_id(
        &config.hot_wallets[i].whitelisted_messages,
        ANCHOR_REPAY_STABLE_ID,
    ) {
        return Err(ContractError::UnauthorizedAction);
    }
    let market = find_contract_by_label(
        &config.whitelisted_contracts,
        &String::from_str("anchor_market"),
    );
    if market.is_none() {
        return Err(ContractError::ContractNotWhitelisted);
    }
    let m = market.unwrap();
    let mut funds: Vec<Coin> = Vec::new();
    funds.push(Coin { denom: String::from_str("uusd"), amount });
    let mut messages: Vec<OutboundMsg> = Vec::new();
    messages.push(
        OutboundMsg::WasmExecute {
            contract_addr: config.whitelisted_contracts[m].address.clone(),
            funds,
            msg: repay_stable_payload(),
        },
    );
    let mut attributes: Vec<Attribute> = Vec::new();
    attributes.push(
        Attribute { key: String::from_str("action"), value: String::from_str("repay_stable") },
    );
    Ok(Response { attributes, messages, submessages: Vec::new() })
}

/// Claim of accumulated staking rewards at the whitelisted reward
/// contract; carries no funds.
pub fn execute_bluna_claim_rewards(config: &Config, sender: &String) -> (r: Result<
    Response,
    ContractError,
>)
    ensures
        match spec_find_hot(config.hot_wallets@, sender@) {
            Option::None => r == Err::<Response, ContractError>(ContractError::Unauthorized),
            Option::Some(h) => if !has_id(h.whitelisted_messages@, BLUNA_CLAIM_ID) {
                r == Err::<Response, ContractError>(ContractError::UnauthorizedAction)
            } else {
                match spec_find_label(config.whitelisted_contracts@, "bluna_reward"@) {
                    Option::None => r == Err::<Response, ContractError>(
                        ContractError::ContractNotWhitelisted,
                    ),
                    Option::Some(c) => r matches Ok(resp) && resp.messages@.len() == 1 && (
                    resp.messages@[0] matches OutboundMsg::WasmExecute { contract_addr, funds, msg }
                        && contract_addr@ == c.address@ && funds@.len() == 0 && msg@
                        == claim_rewards_json()) && resp.submessages@.len() == 0,
                }
            },
        },
{
    let found = find_hot_wallet(&config.hot_wallets, sender);
    if found.is_none() {
        return Err(ContractError::Unauthorized);
    }
    let i = found.unwrap();
    if !crate::state::contains_id(&config.hot_wallets[i].whitelisted_messages, BLUNA_CLAIM_ID) {
        return Err(ContractError::UnauthorizedAction);
    }
    let reward = find_contract_by_label(
        &config.whitelisted_contracts,
        &String::from_str("bluna_reward"),
    );
    if reward.is_none() {
        return Err(ContractError::ContractNotWhitelisted);
    }
    let c = reward.unwrap();
    let mut messages: Vec<OutboundMsg> = Vec::new();
    messages.push(
        OutboundMsg::WasmExecute {
            contract_addr: config.whitelisted_contracts[c].address.clone(),
            funds: Vec::new(),
            msg: claim_rewards_payload(),
        },
    );
    let mut attributes: Vec<Attribute> = Vec::new();
    attributes.push(
        Attribute {
            key: String::from_str("action"),
            value: String::from_str("bluna_claim_rewards"),
        },
    );
    Ok(Response { attributes, messages, submessages: Vec::new() })
}

/// Forward of an opaque command to a whitelisted contract on behalf of a
/// hot wallet: any registered delegate may call any whitelisted program.
pub fn execute_hot_command(
    config: &Config,
    sender: &String,
    contract_address: &String,
    funds: Vec<Coin>,
    command: Vec<u8>,
) -> (r: Result<Response, ContractError>)
    ensures
        spec_find_hot(config.hot_wallets@, sender@) is None ==> r == Err::<
            Response,
            ContractError,
        >(ContractError::Unauthorized),
        spec_find_hot(config.hot_wallets@, sender@) is Some ==> match spec_find_contract(
            config.whitelisted_contracts@,
            contract_address@,
        ) {
            Option::None => r == Err::<Response, ContractError>(
                ContractError::ContractNotWhitelisted,
            ),
            Option::Some(c) => r matches Ok(resp) && resp.messages@.len() == 1 && (
            resp.messages@[0] matches OutboundMsg::WasmExecute { contract_addr, funds: f, msg }
                && contract_addr@ == c.address@ && f == funds && msg == command)
                && resp.submessages@.len() == 0,
        },
{
    let found = find_hot_wallet(&config.hot_wallets, sender);
    if found.is_none() {
        return Err(ContractError::Unauthorized);
    }
    let target = find_contract_by_address(&config.whitelisted_contracts, contract_address);
    if target.is_none() {
        return Err(ContractError::ContractNotWhitelisted);
    }
    let t = target.unwrap();
    let mut messages: Vec<OutboundMsg> = Vec::new();
    messages.push(
        OutboundMsg::WasmExecute {
            contract_addr: config.whitelisted_contracts[t].address.clone(),
            funds,
            msg: command,
        },
    );
    let mut attributes: Vec<Attribute> = Vec::new();
    attributes.push(
        Attribute { key: String::from_str("action"), value: String::from_str("hot_command") },
    );
    Ok(Response { attributes, messages, submessages: Vec::new() })
}

/// Whether the cooldown gate lets `sender` refill at `now`: true on the
/// first ever refill, else only once the delegate's cooldown has elapsed
/// since the recorded refill time.
pub open spec fn spec_cooldown_passed(w: Wallet, h: HotWallet, sender: Seq<char>, now: u64) -> bool {
    match spec_find_state(w.hot_states@, sender) {
        Option::None => true,
        Option::Some(st) => st.last_gas_fillup + h.gas_cooldown <= now,
    }
}

/// Full success condition of a gas refill: registered delegate, cooldown
/// passed, tank not already full, and the wallet able to cover the need
/// on top of its safety buffer.
pub open spec fn spec_refill_ok(
    w: Wallet,
    sender: Seq<char>,
    now: u64,
    sender_balance: u64,
    contract_balance: u64,
) -> bool {
    match spec_find_hot(w.config.hot_wallets@, sender) {
        Option::None => false,
        Option::Some(h) => {
            &&& spec_cooldown_passed(w, h, sender, now)
            &&& sender_balance < h.gas_tank_max
            &&& contract_balance >= h.gas_tank_max - sender_balance + GAS_BUFFER
        },
    }
}

/// Refills a hot wallet's gas tank up to its cap, rate-limited by the
/// delegate's cooldown. `sender_balance` is the delegate's current
/// external balance, `contract_balance` the wallet's own; `tax_rate` and
/// `tax_cap` parameterize the protocol transfer tax deducted from the
/// emitted transfer. On failure the state is unchanged; on success the
/// refill time is recorded, making an immediate second refill fail.
pub fn execute_fill_up_gas(
    wallet: &mut Wallet,
    sender: &String,
    now: u64,
    sender_balance: u64,
    contract_balance: u64,
    tax_rate: u64,
    tax_cap: u64,
) -> (r: Result<Response, ContractError>)
    requires
        wf_wallet(*old(wallet)),
    ensures
        wf_wallet(*final(wallet)),
        r is Err ==> *final(wallet) == *old(wallet),
        r is Ok <==> spec_refill_ok(*old(wallet), sender@, now, sender_balance, contract_balance),
        match spec_find_hot(old(wallet).config.hot_wallets@, sender@) {
            Option::None => r == Err::<Response, ContractError>(ContractError::Unauthorized),
            Option::Some(h) => {
                &&& !spec_cooldown_passed(*old(wallet), h, sender@, now) ==> r == Err::<
                    Response,
                    ContractError,
                >(ContractError::GasCooldown)
                &&& spec_cooldown_passed(*old(wallet), h, sender@, now) && sender_balance
                    >= h.gas_tank_max ==> r == Err::<Response, ContractError>(
                    ContractError::GasTankFull,
                )
                &&& spec_cooldown_passed(*old(wallet), h, sender@, now) && sender_balance
                    < h.gas_tank_max && contract_balance < h.gas_tank_max - sender_balance
                    + GAS_BUFFER ==> r == Err::<Response, ContractError>(
                    ContractError::SmartWalletGas,
                )
                &&& r matches Ok(resp) ==> {
                    let need = (h.gas_tank_max - sender_balance) as u64;
                    &&& resp.messages@.len() == 1
                    &&& resp.submessages@.len() == 0
                    &&& resp.messages@[0] matches OutboundMsg::BankSend { to_address, amount }
                        && to_address@ == sender@ && amount@.len() == 1 && amount@[0].denom@
                        == "uusd"@ && amount@[0].amount == need - spec_compute_tax(
                        need,
                        tax_rate,
                        tax_cap,
                    )
                }
            },
        },
        r is Ok ==> {
            &&& final(wallet).config == old(wallet).config
            &&& final(wallet).pending == old(wallet).pending
            &&& spec_find_state(final(wallet).hot_states@, sender@) matches Some(st)
                && st.last_gas_fillup == now && st.address@ == sender@
            &&& forall|a: Seq<char>|
                a != sender@ ==> spec_find_state(final(wallet).hot_states@, a) == spec_find_state(
                    old(wallet).hot_states@,
                    a,
                )
        },
{
    let found = find_hot_wallet(&wallet.config.hot_wallets, sender);
    if found.is_none() {
        return Err(ContractError::Unauthorized);
    }
    let i = found.unwrap();
    let gas_cooldown = wallet.config.hot_wallets[i].gas_cooldown;
    let gas_tank_max = wallet.config.hot_wallets[i].gas_tank_max;

    let state_idx = find_hot_state(&wallet.hot_states, sender);
    match state_idx {
        Option::None => {},
        Option::Some(j) => {
            let last = wallet.hot_states[j].last_gas_fillup;
            if last > now || now - last < gas_cooldown {
                return Err(ContractError::GasCooldown);
            }
        },
    }
    if sender_balance >= gas_tank_max {
        return Err(ContractError::GasTankFull);
    }
    let need: u64 = gas_tank_max - sender_balance;
    if contract_balance < GAS_BUFFER || contract_balance - GAS_BUFFER < need {
        return Err(ContractError::SmartWalletGas);
    }
    let tax: u64 = compute_tax(need, tax_rate, tax_cap);
    let net: u64 = need - tax;

    proof {
        lemma_find_state_char(wallet.hot_states@, sender@);
    }
    match state_idx {
        Option::None => {
            let ghost prev = wallet.hot_states@;
            wallet.hot_states.push(
                HotWalletState { address: sender.clone(), last_gas_fillup: now },
            );
            proof {
                let cur = wallet.hot_states@;
                let st = cur[prev.len() as int];
                assert(st.address@ == sender@);
                assert forall|p: int, q: int|
                    0 <= p < q < cur.len() implies cur[p].address@ != cur[q].address@ by {
                    if q < prev.len() {
                        assert(cur[p] == prev[p] && cur[q] == prev[q]);
                    } else {
                        assert(cur[p] == prev[p]);
                        assert(prev[p].address@ != sender@);
                    }
                }
                assert forall|a: Seq<char>|
                    a != sender@ implies spec_find_state(cur, a) == spec_find_state(prev, a) by {
                    lemma_find_push_other(prev, st, a);
                }
                lemma_find_state_char(cur, sender@);
                assert(spec_find_state(cur, sender@) == Some(st));
            }
        },
        Option::Some(j) => {
            let ghost prev = wallet.hot_states@;
            set_state_at(
                &mut wallet.hot_states,
                j,
                HotWalletState { address: sender.clone(), last_gas_fillup: now },
            );
            proof {
                let cur = wallet.hot_states@;
                let st = cur[j as int];
                assert(st.address@ == sender@);
                assert(prev[j as int].address@ == sender@);
                assert forall|p: int, q: int|
                    0 <= p < q < cur.len() implies cur[p].address@ != cur[q].address@ by {
                    assert(cur[p].address@ == prev[p].address@);
                    assert(cur[q].address@ == prev[q].address@);
                }
                assert forall|a: Seq<char>|
                    a != sender@ implies spec_find_state(cur, a) == spec_find_state(prev, a) by {
                    lemma_find_update_other(prev, j as int, st, a);
                }
                lemma_find_state_char(cur, sender@);
                assert(spec_find_state(cur, sender@) == Some(st));
            }
        },
    }
    let mut amount: Vec<Coin> = Vec::new();
    amount.push(Coin { denom: String::from_str("uusd"), amount: net });
    let mut messages: Vec<OutboundMsg> = Vec::new();
    messages.push(OutboundMsg::BankSend { to_address: sender.clone(), amount });
    let mut attributes: Vec<Attribute> = Vec::new();
    attributes.push(
        Attribute { key: String::from_str("action"), value: String::from_str("fill_up_gas") },
    );
    Ok(Response { attributes, messages, submessages: Vec::new() })
}

/// Appending a state for a fresh address leaves every other lookup as it
/// was.
pub proof fn lemma_find_push_other(s: Seq<HotWalletState>, st: HotWalletState, a: Seq<char>)
    requires
        a != st.address@,
    ensures
        spec_find_state(s.push(st), a) == spec_find_state(s, a),
    decreases s.len(),
{
    if s.len() == 0 {
        assert(s.push(st)[0] == st);
        assert(s.push(st).skip(1) =~= s);
    } else {
        assert(s.push(st)[0] == s[0]);
        assert(s.push(st).skip(1) =~= s.skip(1).push(st));
        lemma_find_push_other(s.skip(1), st, a);
    }
}

/// Replacing the entry at `i` with one carrying the same address leaves
/// every lookup for another address as it was.
pub proof fn lemma_find_update_other(s: Seq<HotWalletState>, i: int, st: HotWalletState, a: Seq<
    char,
>)
    requires
        0 <= i < s.len(),
        s[i].address@ == st.address@,
        a != st.address@,
    ensures
        spec_find_state(s.update(i, st), a) == spec_find_state(s, a),
    decreases s.len(),
{
    if i == 0 {
        assert(s.update(0, st)[0] == st);
        assert(s.update(0, st).skip(1) =~= s.skip(1));
    } else {
        assert(s.update(i, st)[0] == s[0]);
        assert(s.update(i, st).skip(1) =~= s.skip(1).update(i - 1, st));
        lemma_find_update_other(s.skip(1), i - 1, st, a);
    }
}

} // verus!
