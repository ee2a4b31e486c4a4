use vstd::prelude::*;
use vstd::string::StringExecFns;
use crate::types::ContractError;
use crate::types::Cw3InstantiateMsg;
use crate::types::Duration;
use crate::types::HotWallet;
use crate::types::HotWalletState;
use crate::types::MultiSigVoter;
use crate::types::WhitelistedContract;
use crate::msgs::Attribute;
use crate::msgs::OutboundMsg;
use crate::msgs::Response;
use crate::msgs::SubMsg;
use crate::msgs::SPAWN_MULTISIG_REPLY_ID;
use crate::state::ColdAction;
use crate::state::Config;
use crate::state::PendingColdAction;
use crate::state::Wallet;
use crate::state::spec_find_hot;
use crate::state::spec_find_state;
use crate::state::spec_idle;
use crate::state::find_hot_wallet;
use crate::state::find_hot_state;
use crate::state::set_hot_at;
use crate::state::unique_addrs;
use crate::state::unique_contracts;
use crate::state::unique_hot;
use crate::state::wf_wallet;
use crate::state::lemma_find_hot_char;
use crate::state::lemma_find_state_char;

verus! {

/// Creates the wallet around an already existing governing multisig.
pub fn instantiate_existing_multisig(
    hot_wallets: Vec<HotWallet>,
    cw3_address: String,
    whitelisted_contracts: Vec<WhitelistedContract>,
    cold_wallets: Vec<String>,
    threshold: usize,
    max_expiration: u64,
) -> (r: (Wallet, Response))
    requires
        unique_hot(hot_wallets@),
        unique_contracts(whitelisted_contracts@),
        unique_addrs(cold_wallets@),
        1 <= threshold <= cold_wallets@.len(),
    ensures
        wf_wallet(r.0),
        r.0.config.hot_wallets == hot_wallets,
        r.0.config.cw3_address == cw3_address,
        r.0.config.whitelisted_contracts == whitelisted_contracts,
        r.0.config.cold_wallets == cold_wallets,
        r.0.config.threshold == threshold,
        r.0.config.max_expiration == max_expiration,
        r.0.hot_states@.len() == 0,
        spec_idle(r.0.pending),
        r.1.messages@.len() == 0 && r.1.submessages@.len() == 0,
{
    let wallet = Wallet {
        config: Config {
            hot_wallets,
            cw3_address,
            whitelisted_contracts,
            cold_wallets,
            threshold,
            max_expiration,
        },
        hot_states: Vec::new(),
        pending: PendingColdAction {
            action: ColdAction::Idle,
            expires_at: 0,
            confirmers: Vec::new(),
        },
    };
    let mut attributes: Vec<Attribute> = Vec::new();
    attributes.push(
        Attribute {
            key: String::from_str("action"),
            value: String::from_str("init_existing_multisig"),
        },
    );
    (wallet, Response { attributes, messages: Vec::new(), submessages: Vec::new() })
}

/// Creates the wallet and asks the host to spawn a fresh governing
/// multisig; its address arrives later through the reply callback, so the
/// governor address starts empty.
pub fn instantiate_spawn_multisig(
    sender: &String,
    hot_wallets: Vec<HotWallet>,
    whitelisted_contracts: Vec<WhitelistedContract>,
    max_voting_period_in_blocks: u64,
    required_weight: u64,
    multisig_voters: Vec<MultiSigVoter>,
    cw3_code_id: u64,
    cold_wallets: Vec<String>,
    threshold: usize,
    max_expiration: u64,
) -> (r: (Wallet, Response))
    requires
        unique_hot(hot_wallets@),
        unique_contracts(whitelisted_contracts@),
        unique_addrs(cold_wallets@),
        1 <= threshold <= cold_wallets@.len(),
    ensures
        wf_wallet(r.0),
        r.0.config.hot_wallets == hot_wallets,
        r.0.config.cw3_address@.len() == 0,
        r.0.config.whitelisted_contracts == whitelisted_contracts,
        r.0.config.cold_wallets == cold_wallets,
        r.0.config.threshold == threshold,
        r.0.config.max_expiration == max_expiration,
        r.0.hot_states@.len() == 0,
        spec_idle(r.0.pending),
        r.1.messages@.len() == 0,
        r.1.submessages@.len() == 1 && r.1.submessages@[0].id == SPAWN_MULTISIG_REPLY_ID && (
        r.1.submessages@[0].msg matches OutboundMsg::WasmInstantiate { admin, code_id, msg, label }
            && admin@ == sender@ && code_id == cw3_code_id && msg.voters == multisig_voters
            && msg.required_weight == required_weight && msg.max_voting_period == Duration::Height(
            max_voting_period_in_blocks,
        ) && label@ == "multisig"@),
{
    let wallet = Wallet {
        config: Config {
            hot_wallets,
            cw3_address: String::new(),
            whitelisted_contracts,
            cold_wallets,
            threshold,
            max_expiration,
        },
        hot_states: Vec::new(),
        pending: PendingColdAction {
            action: ColdAction::Idle,
            expires_at: 0,
            confirmers: Vec::new(),
        },
    };
    let spawn = OutboundMsg::WasmInstantiate {
        admin: sender.clone(),
        code_id: cw3_code_id,
        msg: Cw3InstantiateMsg {
            voters: multisig_voters,
            required_weight,
            max_voting_period: Duration::Height(max_voting_period_in_blocks),
        },
        label: String::from_str("multisig"),
    };
    let mut submessages: Vec<SubMsg> = Vec::new();
    submessages.push(SubMsg { id: SPAWN_MULTISIG_REPLY_ID, msg: spawn });
    (
        wallet,
        Response { attributes: Vec::new(), messages: Vec::new(), submessages },
    )
}

/// Inserts or replaces the hot wallet entry for `hot_wallet.address`,
/// gated on the governing multisig.
pub fn execute_upsert_hot(wallet: &mut Wallet, sender: &String, hot_wallet: HotWallet) -> (r:
    Result<Response, ContractError>)
    requires
        wf_wallet(*old(wallet)),
    ensures
        wf_wallet(*final(wallet)),
        r is Err ==> *final(wallet) == *old(wallet),
        sender@ != old(wallet).config.cw3_address@ ==> r == Err::<Response, ContractError>(
            ContractError::Unauthorized,
        ),
        sender@ == old(wallet).config.cw3_address@ ==> {
            &&& r is Ok
            &&& spec_find_hot(final(wallet).config.hot_wallets@, hot_wallet.address@) == Some(
                hot_wallet,
            )
            &&& forall|a: Seq<char>|
                a != hot_wallet.address@ ==> spec_find_hot(final(wallet).config.hot_wallets@, a)
                    == spec_find_hot(old(wallet).config.hot_wallets@, a)
            &&& final(wallet).config.cw3_address == old(wallet).config.cw3_address
            &&& final(wallet).config.whitelisted_contracts == old(
                wallet,
            ).config.whitelisted_contracts
            &&& final(wallet).config.cold_wallets == old(wallet).config.cold_wallets
            &&& final(wallet).config.threshold == old(wallet).config.threshold
            &&& final(wallet).config.max_expiration == old(wallet).config.max_expiration
            &&& final(wallet).hot_states == old(wallet).hot_states
            &&& final(wallet).pending == old(wallet).pending
        },
{
    if !(*sender == wallet.config.cw3_address) {
        return Err(ContractError::Unauthorized);
    }
    let found = find_hot_wallet(&wallet.config.hot_wallets, &hot_wallet.address);
    proof {
        lemma_find_hot_char(wallet.config.hot_wallets@, hot_wallet.address@);
    }
    let ghost target = hot_wallet.address@;
    match found {
        Option::None => {
            let ghost prev = wallet.config.hot_wallets@;
            wallet.config.hot_wallets.push(hot_wallet);
            proof {
                let cur = wallet.config.hot_wallets@;
                let h = cur[prev.len() as int];
                assert forall|p: int, q: int|
                    0 <= p < q < cur.len() implies cur[p].address@ != cur[q].address@ by {
                    if q < prev.len() {
                        assert(cur[p] == prev[p] && cur[q] == prev[q]);
                    } else {
                        assert(cur[p] == prev[p]);
                        assert(prev[p].address@ != target);
                    }
                }
                assert forall|a: Seq<char>|
                    a != target implies spec_find_hot(cur, a) == spec_find_hot(prev, a) by {
                    lemma_find_hot_push_other(prev, h, a);
                }
                lemma_find_hot_char(cur, target);
                assert(spec_find_hot(cur, target) == Some(h));
            }
        },
        Option::Some(i) => {
            let ghost prev = wallet.config.hot_wallets@;
            set_hot_at(&mut wallet.config.hot_wallets, i, hot_wallet);
            proof {
                let cur = wallet.config.hot_wallets@;
                let h = cur[i as int];
                assert(prev[i as int].address@ == target);
                assert forall|p: int, q: int|
                    0 <= p < q < cur.len() implies cur[p].address@ != cur[q].address@ by {
                    assert(cur[p].address@ == prev[p].address@);
                    assert(cur[q].address@ == prev[q].address@);
                }
                assert forall|a: Seq<char>|
                    a != target implies spec_find_hot(cur, a) == spec_find_hot(prev, a) by {
                    lemma_find_hot_update_other(prev, i as int, h, a);
                }
                lemma_find_hot_char(cur, target);
                assert(spec_find_hot(cur, target) == Some(h));
            }
        },
    }
    let mut attributes: Vec<Attribute> = Vec::new();
    attributes.push(
        Attribute { key: String::from_str("action"), value: String::from_str("upsert_hot") },
    );
    Ok(Response { attributes, messages: Vec::new(), submessages: Vec::new() })
}

/// Removes the hot wallet entry for `address` together with its runtime
/// state, gated on the governing multisig.
pub fn execute_remove_hot(wallet: &mut Wallet, sender: &String, address: &String) -> (r: Result<
    Response,
    ContractError,
>)
    requires
        wf_wallet(*old(wallet)),
    ensures
        wf_wallet(*final(wallet)),
        r is Err ==> *final(wallet) == *old(wallet),
        sender@ != old(wallet).config.cw3_address@ ==> r == Err::<Response, ContractError>(
            ContractError::Unauthorized,
        ),
        sender@ == old(wallet).config.cw3_address@ && spec_find_hot(
            old(wallet).config.hot_wallets@,
            address@,
        ) is None ==> r == Err::<Response, ContractError>(ContractError::InvalidHotAddress),
        sender@ == old(wallet).config.cw3_address@ && spec_find_hot(
            old(wallet).config.hot_wallets@,
            address@,
        ) is Some ==> {
            &&& r is Ok
            &&& spec_find_hot(final(wallet).config.hot_wallets@, address@) is None
            &&& spec_find_state(final(wallet).hot_states@, address@) is None
            &&& forall|a: Seq<char>|
                a != address@ ==> spec_find_hot(final(wallet).config.hot_wallets@, a)
                    == spec_find_hot(old(wallet).config.hot_wallets@, a)
            &&& forall|a: Seq<char>|
                a != address@ ==> spec_find_state(final(wallet).hot_states@, a) == spec_find_state(
                    old(wallet).hot_states@,
                    a,
                )
            &&& final(wallet).config.cw3_address == old(wallet).config.cw3_address
            &&& final(wallet).config.whitelisted_contracts == old(
                wallet,
            ).config.whitelisted_contracts
            &&& final(wallet).config.cold_wallets == old(wallet).config.cold_wallets
            &&& final(wallet).config.threshold == old(wallet).config.threshold
            &&& final(wallet).config.max_expiration == old(wallet).config.max_expiration
            &&& final(wallet).pending == old(wallet).pending
        },
{
    if !(*sender == wallet.config.cw3_address) {
        return Err(ContractError::Unauthorized);
    }
    let found = find_hot_wallet(&wallet.config.hot_wallets, address);
    if found.is_none() {
        return Err(ContractError::InvalidHotAddress);
    }
    let i = found.unwrap();
    let ghost prev = wallet.config.hot_wallets@;
    wallet.config.hot_wallets.remove(i);
    proof {
        let cur = wallet.config.hot_wallets@;
        assert forall|p: int, q: int|
            0 <= p < q < cur.len() implies cur[p].address@ != cur[q].address@ by {
            assert(cur[p] == if p < i as int {
                prev[p]
            } else {
                prev[p + 1]
            });
            assert(cur[q] == if q < i as int {
                prev[q]
            } else {
                prev[q + 1]
            });
        }
        assert forall|k: int| 0 <= k < cur.len() implies cur[k].address@ != address@ by {
            assert(cur[k] == if k < i as int {
                prev[k]
            } else {
                prev[k + 1]
            });
        }
        lemma_find_hot_char(cur, address@);
        assert forall|a: Seq<char>|
            a != address@ implies spec_find_hot(cur, a) == spec_find_hot(prev, a) by {
            lemma_find_hot_remove_other(prev, i as int, a);
        }
    }
    let state_idx = find_hot_state(&wallet.hot_states, address);
    match state_idx {
        Option::None => {},
        Option::Some(j) => {
            let ghost sprev = wallet.hot_states@;
            wallet.hot_states.remove(j);
            proof {
                let cur = wallet.hot_states@;
                assert forall|p: int, q: int|
                    0 <= p < q < cur.len() implies cur[p].address@ != cur[q].address@ by {
                    assert(cur[p] == if p < j as int {
                        sprev[p]
                    } else {
                        sprev[p + 1]
                    });
                    assert(cur[q] == if q < j as int {
                        sprev[q]
                    } else {
                        sprev[q + 1]
                    });
                }
                assert forall|k: int| 0 <= k < cur.len() implies cur[k].address@ != address@ by {
                    assert(cur[k] == if k < j as int {
                        sprev[k]
                    } else {
                        sprev[k + 1]
                    });
                }
                lemma_find_state_char(cur, address@);
                assert forall|a: Seq<char>|
                    a != address@ implies spec_find_state(cur, a) == spec_find_state(sprev, a) by {
                    lemma_find_state_remove_other(sprev, j as int, a);
                }
            }
        },
    }
    let mut attributes: Vec<Attribute> = Vec::new();
    attributes.push(
        Attribute { key: String::from_str("action"), value: String::from_str("remove_hot") },
    );
    Ok(Response { attributes, messages: Vec::new(), submessages: Vec::new() })
}

/// Replaces the whole whitelisted contract registry, gated on the
/// governing multisig.
pub fn execute_replace_contracts(
    wallet: &mut Wallet,
    sender: &String,
    whitelisted_contracts: Vec<WhitelistedContract>,
) -> (r: Result<Response, ContractError>)
    requires
        wf_wallet(*old(wallet)),
        unique_contracts(whitelisted_contracts@),
    ensures
        wf_wallet(*final(wallet)),
        r is Err ==> *final(wallet) == *old(wallet),
        sender@ != old(wallet).config.cw3_address@ ==> r == Err::<Response, ContractError>(
            ContractError::Unauthorized,
        ),
        sender@ == old(wallet).config.cw3_address@ ==> {
            &&& r is Ok
            &&& final(wallet).config.whitelisted_contracts == whitelisted_contracts
            &&& final(wallet).config.hot_wallets == old(wallet).config.hot_wallets
            &&& final(wallet).config.cw3_address == old(wallet).config.cw3_address
            &&& final(wallet).config.cold_wallets == old(wallet).config.cold_wallets
            &&& final(wallet).config.threshold == old(wallet).config.threshold
            &&& final(wallet).config.max_expiration == old(wallet).config.max_expiration
            &&& final(wallet).hot_states == old(wallet).hot_states
            &&& final(wallet).pending == old(wallet).pending
        },
{
    if !(*sender == wallet.config.cw3_address) {
        return Err(ContractError::Unauthorized);
    }
    wallet.config.whitelisted_contracts = whitelisted_contracts;
    let mut attributes: Vec<Attribute> = Vec::new();
    attributes.push(
        Attribute { key: String::from_str("action"), value: String::from_str("replace_contracts") },
    );
    Ok(Response { attributes, messages: Vec::new(), submessages: Vec::new() })
}

/// Hands governance to another multisig address, gated on the current one.
pub fn execute_replace_multisig(wallet: &mut Wallet, sender: &String, address: String) -> (r:
    Result<Response, ContractError>)
    requires
        wf_wallet(*old(wallet)),
    ensures
        wf_wallet(*final(wallet)),
        r is Err ==> *final(wallet) == *old(wallet),
        sender@ != old(wallet).config.cw3_address@ ==> r == Err::<Response, ContractError>(
            ContractError::Unauthorized,
        ),
        sender@ == old(wallet).config.cw3_address@ ==> {
            &&& r is Ok
            &&& final(wallet).config.cw3_address == address
            &&& final(wallet).config.hot_wallets == old(wallet).config.hot_wallets
            &&& final(wallet).config.whitelisted_contracts == old(
                wallet,
            ).config.whitelisted_contracts
            &&& final(wallet).config.cold_wallets == old(wallet).config.cold_wallets
            &&& final(wallet).config.threshold == old(wallet).config.threshold
            &&& final(wallet).config.max_expiration == old(wallet).config.max_expiration
            &&& final(wallet).hot_states == old(wallet).hot_states
            &&& final(wallet).pending == old(wallet).pending
        },
{
    if !(*sender == wallet.config.cw3_address) {
        return Err(ContractError::Unauthorized);
    }
    wallet.config.cw3_address = address;
    let mut attributes: Vec<Attribute> = Vec::new();
    attributes.push(
        Attribute { key: String::from_str("action"), value: String::from_str("replace_multisig") },
    );
    Ok(Response { attributes, messages: Vec::new(), submessages: Vec::new() })
}

/// Forwards an arbitrary pre-serialized host message on behalf of the
/// governing multisig; the payload is relayed, never interpreted.
pub fn execute_command(config: &Config, sender: &String, command: Vec<u8>) -> (r: Result<
    Response,
    ContractError,
>)
    ensures
        sender@ != config.cw3_address@ ==> r == Err::<Response, ContractError>(
            ContractError::Unauthorized,
        ),
        sender@ == config.cw3_address@ ==> (r matches Ok(resp) && resp.messages@.len() == 1 && (
        resp.messages@[0] matches OutboundMsg::Raw { payload } && payload == command)
            && resp.submessages@.len() == 0),
{
    if !(*sender == config.cw3_address) {
        return Err(ContractError::Unauthorized);
    }
    let mut messages: Vec<OutboundMsg> = Vec::new();
    messages.push(OutboundMsg::Raw { payload: command });
    let mut attributes: Vec<Attribute> = Vec::new();
    attributes.push(
        Attribute { key: String::from_str("action"), value: String::from_str("execute_command") },
    );
    Ok(Response { attributes, messages, submessages: Vec::new() })
}

/// Appending an entry for a fresh address leaves every other lookup as it
/// was.
pub proof fn lemma_find_hot_push_other(s: Seq<HotWallet>, h: HotWallet, a: Seq<char>)
    requires
        a != h.address@,
    ensures
        spec_find_hot(s.push(h), a) == spec_find_hot(s, a),
    decreases s.len(),
{
    if s.len() == 0 {
        assert(s.push(h)[0] == h);
        assert(s.push(h).skip(1) =~= s);
    } else {
        assert(s.push(h)[0] == s[0]);
        assert(s.push(h).skip(1) =~= s.skip(1).push(h));
        lemma_find_hot_push_other(s.skip(1), h, a);
    }
}

/// Replacing the entry at `i` with one for the same address leaves every
/// lookup for another address as it was.
pub proof fn lemma_find_hot_update_other(s: Seq<HotWallet>, i: int, h: HotWallet, a: Seq<char>)
    requires
        0 <= i < s.len(),
        s[i].address@ == h.address@,
        a != h.address@,
    ensures
        spec_find_hot(s.update(i, h), a) == spec_find_hot(s, a),
    decreases s.len(),
{
    if i == 0 {
        assert(s.update(0, h)[0] == h);
        assert(s.update(0, h).skip(1) =~= s.skip(1));
    } else {
        assert(s.update(i, h)[0] == s[0]);
        assert(s.update(i, h).skip(1) =~= s.skip(1).update(i - 1, h));
        lemma_find_hot_update_other(s.skip(1), i - 1, h, a);
    }
}

/// Removing the entry at `i` leaves every lookup for an address other than
/// the removed one as it was.
pub proof fn lemma_find_hot_remove_other(s: Seq<HotWallet>, i: int, a: Seq<char>)
    requires
        0 <= i < s.len(),
        s[i].address@ != a,
    ensures
        spec_find_hot(s.remove(i), a) == spec_find_hot(s, a),
    decreases s.len(),
{
    if i == 0 {
        assert(s.remove(0) =~= s.skip(1));
    } else {
        assert(s.remove(i)[0] == s[0]);
        assert(s.remove(i).skip(1) =~= s.skip(1).remove(i - 1));
        lemma_find_hot_remove_other(s.skip(1), i - 1, a);
    }
}

/// Same removal fact for the runtime state table.
pub proof fn lemma_find_state_remove_other(s: Seq<HotWalletState>, i: int, a: Seq<char>)
    requires
        0 <= i < s.len(),
        s[i].address@ != a,
    ensures
        spec_find_state(s.remove(i), a) == spec_find_state(s, a),
    decreases s.len(),
{
    if i == 0 {
        assert(s.remove(0) =~= s.skip(1));
    } else {
        assert(s.remove(i)[0] == s[0]);
        assert(s.remove(i).skip(1) =~= s.skip(1).remove(i - 1));
        lemma_find_state_remove_other(s.skip(1), i - 1, a);
    }
}

} // verus!
