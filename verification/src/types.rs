use vstd::prelude::*;

verus! {

/// Typed failures of the wallet. Every operation returns either a committed
/// state change plus emitted calls, or no change at all plus one of these.
#[derive(Clone, Copy, Debug, PartialEq, Eq, Structural)]
pub enum ContractError {
    /// Sender is not recognized in the role the operation requires.
    Unauthorized,
    /// Sender is a known hot wallet, but the action id is not allowed for it.
    UnauthorizedAction,
    /// Destination contract is not in the whitelist registry.
    ContractNotWhitelisted,
    /// Gas refill attempted before the per-delegate cooldown elapsed.
    GasCooldown,
    /// Delegate balance already at or above its gas cap.
    GasTankFull,
    /// The wallet's own balance cannot cover the refill plus safety buffer.
    SmartWalletGas,
    /// Mutation target is not an existing hot wallet.
    InvalidHotAddress,
    /// A cold action is already pending; only one may be in flight.
    ActionAlreadyPending,
    /// Confirm called while no cold action is pending.
    NoPendingAction,
    /// Sender already confirmed the pending cold action.
    AlreadyConfirmed,
    /// The pending cold action expired; the slot was cleared.
    ActionExpired,
    /// Reply delivered with an unrecognized correlation id.
    InvalidReplyId,
    /// Reply payload could not be parsed into a contract address.
    MalformedReply,
}

/// One native coin amount, in the chain's micro denomination.
#[derive(Debug)]
pub struct Coin {
    pub denom: String,
    pub amount: u64,
}

/// A hot wallet entry: a low-trust delegate with its rate-limit policy and
/// the set of action ids it may trigger.
#[derive(Debug)]
pub struct HotWallet {
    pub address: String,
    pub label: String,
    /// Seconds that must pass between two gas refills.
    pub gas_cooldown: u64,
    /// Balance level a refill tops the delegate up to.
    pub gas_tank_max: u64,
    /// Action ids this delegate may trigger.
    pub whitelisted_messages: Vec<u64>,
}

/// A destination program approved to receive forwarded calls.
#[derive(Debug)]
pub struct WhitelistedContract {
    pub address: String,
    pub label: String,
    pub code_id: u64,
}

/// Per-delegate runtime state, created lazily on the first gas refill.
#[derive(Debug)]
pub struct HotWalletState {
    pub address: String,
    pub last_gas_fillup: u64,
}

/// Voter entry used when spawning a new multisig.
#[derive(Debug)]
pub struct MultiSigVoter {
    pub addr: String,
    pub weight: u64,
}

/// Voting period bound of a spawned multisig.
#[derive(Clone, Copy, Debug, PartialEq, Eq, Structural)]
pub enum Duration {
    Height(u64),
    Time(u64),
}

/// Instantiate payload for a spawned multisig contract.
#[derive(Debug)]
pub struct Cw3InstantiateMsg {
    pub voters: Vec<MultiSigVoter>,
    pub required_weight: u64,
    pub max_voting_period: Duration,
}

/// Answer to the hot wallet state query.
#[derive(Debug)]
pub struct HotWalletStateResponse {
    pub address: String,
    /// Seconds elapsed since the last gas refill.
    pub gas_time_left: u64,
}

impl Clone for Coin {
    fn clone(&self) -> (r: Self)
        ensures
            r == *self,
    {
        Coin { denom: self.denom.clone(), amount: self.amount }
    }
}

impl Clone for HotWallet {
    fn clone(&self) -> (r: Self)
        ensures
            hot_wallet_eqv(r, *self),
    {
        HotWallet {
            address: self.address.clone(),
            label: self.label.clone(),
            gas_cooldown: self.gas_cooldown,
            gas_tank_max: self.gas_tank_max,
            whitelisted_messages: clone_u64s(&self.whitelisted_messages),
        }
    }
}

impl Clone for WhitelistedContract {
    fn clone(&self) -> (r: Self)
        ensures
            r == *self,
    {
        WhitelistedContract {
            address: self.address.clone(),
            label: self.label.clone(),
            code_id: self.code_id,
        }
    }
}

impl Clone for HotWalletState {
    fn clone(&self) -> (r: Self)
        ensures
            r == *self,
    {
        HotWalletState { address: self.address.clone(), last_gas_fillup: self.last_gas_fillup }
    }
}

impl Clone for MultiSigVoter {
    fn clone(&self) -> (r: Self)
        ensures
            r == *self,
    {
        MultiSigVoter { addr: self.addr.clone(), weight: self.weight }
    }
}

/// Equality of hot wallet entries up to the view of the action id vector.
pub open spec fn hot_wallet_eqv(a: HotWallet, b: HotWallet) -> bool {
    &&& a.address == b.address
    &&& a.label == b.label
    &&& a.gas_cooldown == b.gas_cooldown
    &&& a.gas_tank_max == b.gas_tank_max
    &&& a.whitelisted_messages@ == b.whitelisted_messages@
}

/// Copies a vector of action ids.
pub fn clone_u64s(v: &Vec<u64>) -> (r: Vec<u64>)
    ensures
        r@ == v@,
{
    let mut r: Vec<u64> = Vec::new();
    let mut i: usize = 0;
    while i < v.len()
        invariant
            i <= v.len(),
            r@ == v@.subrange(0, i as int),
        decreases v.len() - i,
    {
        r.push(v[i]);
        i = i + 1;
    }
    assert(v@.subrange(0, v@.len() as int) == v@);
    r
}

/// Copies a byte vector.
pub fn clone_u8s(v: &Vec<u8>) -> (r: Vec<u8>)
    ensures
        r@ == v@,
{
    let mut r: Vec<u8> = Vec::new();
    let mut i: usize = 0;
    while i < v.len()
        invariant
            i <= v.len(),
            r@ == v@.subrange(0, i as int),
        decreases v.len() - i,
    {
        r.push(v[i]);
        i = i + 1;
    }
    assert(v@.subrange(0, v@.len() as int) == v@);
    r
}

/// Copies a vector of addresses.
pub fn clone_strings(v: &Vec<String>) -> (r: Vec<String>)
    ensures
        r@ == v@,
{
    let mut r: Vec<String> = Vec::new();
    let mut i: usize = 0;
    while i < v.len()
        invariant
            i <= v.len(),
            r@ == v@.subrange(0, i as int),
        decreases v.len() - i,
    {
        r.push(v[i].clone());
        i = i + 1;
    }
    assert(v@.subrange(0, v@.len() as int) == v@);
    r
}

/// Copies a vector of hot wallet entries, element by element.
pub fn clone_hot_wallets(v: &Vec<HotWallet>) -> (r: Vec<HotWallet>)
    ensures
        r@.len() == v@.len(),
        forall|i: int| 0 <= i < v@.len() ==> hot_wallet_eqv(#[trigger] r@[i], v@[i]),
{
    let mut r: Vec<HotWallet> = Vec::new();
    let mut i: usize = 0;
    while i < v.len()
        invariant
            i <= v.len(),
            r@.len() == i,
            forall|k: int| 0 <= k < i ==> hot_wallet_eqv(#[trigger] r@[k], v@[k]),
        decreases v.len() - i,
    {
        r.push(v[i].clone());
        i = i + 1;
    }
    r
}

/// Copies the whitelisted contract registry.
pub fn clone_contracts(v: &Vec<WhitelistedContract>) -> (r: Vec<WhitelistedContract>)
    ensures
        r@ == v@,
{
    let mut r: Vec<WhitelistedContract> = Vec::new();
    let mut i: usize = 0;
    while i < v.len()
        invariant
            i <= v.len(),
            r@ == v@.subrange(0, i as int),
        decreases v.len() - i,
    {
        r.push(v[i].clone());
        i = i + 1;
    }
    assert(v@.subrange(0, v@.len() as int) == v@);
    r
}

} // verus!
