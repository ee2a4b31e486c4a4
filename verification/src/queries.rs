use vstd::prelude::*;
use crate::types::HotWallet;
use crate::types::HotWalletStateResponse;
use crate::types::WhitelistedContract;
use crate::types::clone_contracts;
use crate::types::clone_hot_wallets;
use crate::types::clone_strings;
use crate::types::hot_wallet_eqv;
use crate::state::Config;
use crate::state::PendingColdAction;
use crate::state::Wallet;
use crate::state::find_hot_state;
use crate::state::pending_eqv;
use crate::state::spec_find_state;

verus! {

/// Answer to the configuration query: the full durable policy.
#[derive(Debug)]
pub struct ConfigResponse {
    pub hot_wallets: Vec<HotWallet>,
    pub cw3_address: String,
    pub whitelisted_contracts: Vec<WhitelistedContract>,
    pub cold_wallets: Vec<String>,
    pub threshold: usize,
    pub max_expiration: u64,
}

/// Reads the whole configuration.
pub fn query_config(config: &Config) -> (r: ConfigResponse)
    ensures
        r.hot_wallets@.len() == config.hot_wallets@.len(),
        forall|i: int|
            0 <= i < config.hot_wallets@.len() ==> hot_wallet_eqv(
                #[trigger] r.hot_wallets@[i],
                config.hot_wallets@[i],
            ),
        r.cw3_address == config.cw3_address,
        r.whitelisted_contracts@ == config.whitelisted_contracts@,
        r.cold_wallets@ == config.cold_wallets@,
        r.threshold == config.threshold,
        r.max_expiration == config.max_expiration,
{
    ConfigResponse {
        hot_wallets: clone_hot_wallets(&config.hot_wallets),
        cw3_address: config.cw3_address.clone(),
        whitelisted_contracts: clone_contracts(&config.whitelisted_contracts),
        cold_wallets: clone_strings(&config.cold_wallets),
        threshold: config.threshold,
        max_expiration: config.max_expiration,
    }
}

/// Reads a delegate's runtime state: its address and the seconds elapsed
/// since its last gas refill; an unknown or never-refilled delegate reads
/// as an empty address with nothing elapsed.
pub fn query_hot_wallet_state(wallet: &Wallet, address: &String, now: u64) -> (r:
    HotWalletStateResponse)
    ensures
        match spec_find_state(wallet.hot_states@, address@) {
            Option::None => r.address@.len() == 0 && r.gas_time_left == 0,
            Option::Some(st) => r.address@ == st.address@ && r.gas_time_left == if now
                >= st.last_gas_fillup {
                now - st.last_gas_fillup
            } else {
                0
            },
        },
{
    let found = find_hot_state(&wallet.hot_states, address);
    match found {
        Option::None => HotWalletStateResponse { address: String::new(), gas_time_left: 0 },
        Option::Some(i) => {
            let last = wallet.hot_states[i].last_gas_fillup;
            let elapsed: u64 = if now >= last {
                now - last
            } else {
                0
            };
            HotWalletStateResponse {
                address: wallet.hot_states[i].address.clone(),
                gas_time_left: elapsed,
            }
        },
    }
}

/// Reads the pending cold action slot.
pub fn get_pending_cold_action(wallet: &Wallet) -> (r: PendingColdAction)
    ensures
        pending_eqv(r, wallet.pending),
{
    wallet.pending.clone()
}

} // verus!
