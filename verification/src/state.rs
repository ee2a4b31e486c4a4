use vstd::prelude::*;
use crate::types::HotWallet;
use crate::types::HotWalletState;
use crate::types::WhitelistedContract;
use crate::types::clone_strings;
use crate::types::clone_u8s;

verus! {

/// The durable policy of the wallet: hot wallet table, whitelisted
/// destination registry, the governing multisig address, and the cold
/// confirmation parameters. Mutated only by privileged actions.
#[derive(Debug)]
pub struct Config {
    pub hot_wallets: Vec<HotWallet>,
    /// Address of the governing multisig; empty until a spawned multisig
    /// reports back through the reply callback.
    pub cw3_address: String,
    pub whitelisted_contracts: Vec<WhitelistedContract>,
    /// Addresses that participate in threshold confirmation.
    pub cold_wallets: Vec<String>,
    /// Confirmations needed before a pending cold action dispatches.
    pub threshold: usize,
    /// Upper bound, in seconds, on a pending cold action's lifetime.
    pub max_expiration: u64,
}

/// The sensitive action a cold principal proposed, if any.
#[derive(Debug)]
pub enum ColdAction {
    /// No action is in flight.
    Idle,
    /// A native value transfer out of the wallet.
    NativeTransfer { recipient: String, denom: String, amount: u64 },
    /// A call to an external program with an opaque payload.
    ProgramCall { contract: String, msg: Vec<u8> },
}

/// The single in-flight sensitive action awaiting quorum confirmation.
#[derive(Debug)]
pub struct PendingColdAction {
    pub action: ColdAction,
    /// The action auto-invalidates once this timestamp has passed.
    pub expires_at: u64,
    /// Cold principals that confirmed this specific action, each at most once.
    pub confirmers: Vec<String>,
}

/// The whole wallet state handle threaded through each operation: policy,
/// per-delegate runtime state, and the pending cold action slot.
#[derive(Debug)]
pub struct Wallet {
    pub config: Config,
    pub hot_states: Vec<HotWalletState>,
    pub pending: PendingColdAction,
}

/// Equality of cold actions up to views of their payload fields.
pub open spec fn cold_action_eqv(a: ColdAction, b: ColdAction) -> bool {
    match a {
        ColdAction::Idle => b is Idle,
        ColdAction::NativeTransfer { recipient, denom, amount } => (b
            matches ColdAction::NativeTransfer { recipient: r2, denom: d2, amount: m2 } && r2@
            == recipient@ && d2@ == denom@ && m2 == amount),
        ColdAction::ProgramCall { contract, msg } => (b matches ColdAction::ProgramCall {
            contract: c2,
            msg: g2,
        } && c2@ == contract@ && g2@ == msg@),
    }
}

/// Equality of pending slots up to views.
pub open spec fn pending_eqv(a: PendingColdAction, b: PendingColdAction) -> bool {
    &&& cold_action_eqv(a.action, b.action)
    &&& a.expires_at == b.expires_at
    &&& a.confirmers@ == b.confirmers@
}

impl Clone for ColdAction {
    fn clone(&self) -> (r: Self)
        ensures
            cold_action_eqv(r, *self),
    {
        match self {
            ColdAction::Idle => ColdAction::Idle,
            ColdAction::NativeTransfer { recipient, denom, amount } => ColdAction::NativeTransfer {
                recipient: recipient.clone(),
                denom: denom.clone(),
                amount: *amount,
            },
            ColdAction::ProgramCall { contract, msg } => ColdAction::ProgramCall {
                contract: contract.clone(),
                msg: clone_u8s(msg),
            },
        }
    }
}

impl Clone for PendingColdAction {
    fn clone(&self) -> (r: Self)
        ensures
            pending_eqv(r, *self),
    {
        PendingColdAction {
            action: self.action.clone(),
            expires_at: self.expires_at,
            confirmers: clone_strings(&self.confirmers),
        }
    }
}

/// First hot wallet entry whose address reads `a`, if any.
pub open spec fn spec_find_hot(s: Seq<HotWallet>, a: Seq<char>) -> Option<HotWallet>
    decreases s.len(),
{
    if s.len() == 0 {
        None
    } else if s[0].address@ == a {
        Some(s[0])
    } else {
        spec_find_hot(s.skip(1), a)
    }
}

/// First whitelisted contract whose address reads `a`, if any.
pub open spec fn spec_find_contract(s: Seq<WhitelistedContract>, a: Seq<char>) -> Option<
    WhitelistedContract,
>
    decreases s.len(),
{
    if s.len() == 0 {
        None
    } else if s[0].address@ == a {
        Some(s[0])
    } else {
        spec_find_contract(s.skip(1), a)
    }
}

/// First whitelisted contract whose label reads `l`, if any.
pub open spec fn spec_find_label(s: Seq<WhitelistedContract>, l: Seq<char>) -> Option<
    WhitelistedContract,
>
    decreases s.len(),
{
    if s.len() == 0 {
        None
    } else if s[0].label@ == l {
        Some(s[0])
    } else {
        spec_find_label(s.skip(1), l)
    }
}

/// First per-delegate runtime state whose address reads `a`, if any.
pub open spec fn spec_find_state(s: Seq<HotWalletState>, a: Seq<char>) -> Option<HotWalletState>
    decreases s.len(),
{
    if s.len() == 0 {
        None
    } else if s[0].address@ == a {
        Some(s[0])
    } else {
        spec_find_state(s.skip(1), a)
    }
}

/// Whether some address in `s` reads `a`.
pub open spec fn has_addr(s: Seq<String>, a: Seq<char>) -> bool {
    exists|i: int| 0 <= i < s.len() && s[i]@ == a
}

/// Whether the action id `id` occurs in `ids`.
pub open spec fn has_id(ids: Seq<u64>, id: u64) -> bool {
    exists|i: int| 0 <= i < ids.len() && ids[i] == id
}

/// Hot wallet entries are unique by address.
pub open spec fn unique_hot(s: Seq<HotWallet>) -> bool {
    forall|i: int, j: int| 0 <= i < j < s.len() ==> s[i].address@ != s[j].address@
}

/// Whitelisted contracts are unique by address.
pub open spec fn unique_contracts(s: Seq<WhitelistedContract>) -> bool {
    forall|i: int, j: int| 0 <= i < j < s.len() ==> s[i].address@ != s[j].address@
}

/// Addresses in `s` are pairwise distinct.
pub open spec fn unique_addrs(s: Seq<String>) -> bool {
    forall|i: int, j: int| 0 <= i < j < s.len() ==> s[i]@ != s[j]@
}

/// Per-delegate runtime states are unique by address.
pub open spec fn unique_states(s: Seq<HotWalletState>) -> bool {
    forall|i: int, j: int| 0 <= i < j < s.len() ==> s[i].address@ != s[j].address@
}

/// Well-formed policy: tables are sets (unique by address) and the
/// confirmation threshold is meaningful for the cold principal set.
pub open spec fn wf_config(c: Config) -> bool {
    &&& unique_hot(c.hot_wallets@)
    &&& unique_contracts(c.whitelisted_contracts@)
    &&& unique_addrs(c.cold_wallets@)
    &&& 1 <= c.threshold <= c.cold_wallets@.len()
}

/// Invariant of the pending slot: the action is Idle exactly when nobody
/// has confirmed, and confirmers are distinct cold principals.
pub open spec fn wf_pending(p: PendingColdAction, c: Config) -> bool {
    &&& (p.action is Idle <==> p.confirmers@.len() == 0)
    &&& unique_addrs(p.confirmers@)
    &&& forall|i: int|
        0 <= i < p.confirmers@.len() ==> has_addr(c.cold_wallets@, #[trigger] p.confirmers@[i]@)
}

/// Invariant of the whole wallet state; every operation preserves it.
pub open spec fn wf_wallet(w: Wallet) -> bool {
    &&& wf_config(w.config)
    &&& unique_states(w.hot_states@)
    &&& wf_pending(w.pending, w.config)
}

/// A cleared pending slot.
pub open spec fn spec_idle(p: PendingColdAction) -> bool {
    &&& p.action is Idle
    &&& p.confirmers@.len() == 0
}

/// Index of the first hot wallet entry for `addr`, if one exists.
pub fn find_hot_wallet(v: &Vec<HotWallet>, addr: &String) -> (r: Option<usize>)
    ensures
        match r {
            Some(i) => i < v@.len() && spec_find_hot(v@, addr@) == Some(v@[i as int])
                && v@[i as int].address@ == addr@,
            None => spec_find_hot(v@, addr@) is None,
        },
{
    proof {
        assert(v@.skip(0) =~= v@);
    }
    let mut i: usize = 0;
    while i < v.len()
        invariant
            i <= v@.len(),
            spec_find_hot(v@, addr@) == spec_find_hot(v@.skip(i as int), addr@),
        decreases v@.len() - i,
    {
        if v[i].address == *addr {
            proof {
                assert(v@.skip(i as int)[0] == v@[i as int]);
            }
            return Some(i);
        }
        proof {
            assert(v@.skip(i as int).skip(1) =~= v@.skip(i as int + 1));
        }
        i = i + 1;
    }
    proof {
        assert(v@.skip(v@.len() as int).len() == 0);
    }
    None
}

/// Index of the first whitelisted contract with address `addr`, if any.
pub fn find_contract_by_address(v: &Vec<WhitelistedContract>, addr: &String) -> (r: Option<usize>)
    ensures
        match r {
            Some(i) => i < v@.len() && spec_find_contract(v@, addr@) == Some(v@[i as int])
                && v@[i as int].address@ == addr@,
            None => spec_find_contract(v@, addr@) is None,
        },
{
    proof {
        assert(v@.skip(0) =~= v@);
    }
    let mut i: usize = 0;
    while i < v.len()
        invariant
            i <= v@.len(),
            spec_find_contract(v@, addr@) == spec_find_contract(v@.skip(i as int), addr@),
        decreases v@.len() - i,
    {
        if v[i].address == *addr {
            proof {
                assert(v@.skip(i as int)[0] == v@[i as int]);
            }
            return Some(i);
        }
        proof {
            assert(v@.skip(i as int).skip(1) =~= v@.skip(i as int + 1));
        }
        i = i + 1;
    }
    proof {
        assert(v@.skip(v@.len() as int).len() == 0);
    }
    None
}

/// Index of the first whitelisted contract with label `label`, if any.
pub fn find_contract_by_label(v: &Vec<WhitelistedContract>, label: &String) -> (r: Option<usize>)
    ensures
        match r {
            Some(i) => i < v@.len() && spec_find_label(v@, label@) == Some(v@[i as int])
                && v@[i as int].label@ == label@,
            None => spec_find_label(v@, label@) is None,
        },
{
    proof {
        assert(v@.skip(0) =~= v@);
    }
    let mut i: usize = 0;
    while i < v.len()
        invariant
            i <= v@.len(),
            spec_find_label(v@, label@) == spec_find_label(v@.skip(i as int), label@),
        decreases v@.len() - i,
    {
        if v[i].label == *label {
            proof {
                assert(v@.skip(i as int)[0] == v@[i as int]);
            }
            return Some(i);
        }
        proof {
            assert(v@.skip(i as int).skip(1) =~= v@.skip(i as int + 1));
        }
        i = i + 1;
    }
    proof {
        assert(v@.skip(v@.len() as int).len() == 0);
    }
    None
}

/// Index of the first per-delegate runtime state for `addr`, if any.
pub fn find_hot_state(v: &Vec<HotWalletState>, addr: &String) -> (r: Option<usize>)
    ensures
        match r {
            Some(i) => i < v@.len() && spec_find_state(v@, addr@) == Some(v@[i as int])
                && v@[i as int].address@ == addr@,
            None => spec_find_state(v@, addr@) is None,
        },
{
    proof {
        assert(v@.skip(0) =~= v@);
    }
    let mut i: usize = 0;
    while i < v.len()
        invariant
            i <= v@.len(),
            spec_find_state(v@, addr@) == spec_find_state(v@.skip(i as int), addr@),
        decreases v@.len() - i,
    {
        if v[i].address == *addr {
            proof {
                assert(v@.skip(i as int)[0] == v@[i as int]);
            }
            return Some(i);
        }
        proof {
            assert(v@.skip(i as int).skip(1) =~= v@.skip(i as int + 1));
        }
        i = i + 1;
    }
    proof {
        assert(v@.skip(v@.len() as int).len() == 0);
    }
    None
}

/// Whether `addr` occurs in the address list `v`.
pub fn contains_addr(v: &Vec<String>, addr: &String) -> (r: bool)
    ensures
        r == has_addr(v@, addr@),
{
    let mut i: usize = 0;
    while i < v.len()
        invariant
            i <= v@.len(),
            forall|j: int| 0 <= j < i ==> v@[j]@ != addr@,
        decreases v@.len() - i,
    {
        if v[i] == *addr {
            return true;
        }
        i = i + 1;
    }
    false
}

/// Whether the action id `id` occurs in `ids`.
pub fn contains_id(ids: &Vec<u64>, id: u64) -> (r: bool)
    ensures
        r == has_id(ids@, id),
{
    let mut i: usize = 0;
    while i < ids.len()
        invariant
            i <= ids@.len(),
            forall|j: int| 0 <= j < i ==> ids@[j] != id,
        decreases ids@.len() - i,
    {
        if ids[i] == id {
            return true;
        }
        i = i + 1;
    }
    false
}

/// The spec lookup answers Some exactly when some entry carries the
/// address, and the answer is such an entry.
pub proof fn lemma_find_hot_some(s: Seq<HotWallet>, a: Seq<char>)
    requires
        spec_find_hot(s, a) is Some,
    ensures
        exists|i: int|
            0 <= i < s.len() && s[i] == spec_find_hot(s, a)->Some_0 && s[i].address@ == a,
    decreases s.len(),
{
    if s.len() > 0 && s[0].address@ != a {
        lemma_find_hot_some(s.skip(1), a);
        let j = choose|j: int|
            0 <= j < s.skip(1).len() && s.skip(1)[j] == spec_find_hot(s.skip(1), a)->Some_0
                && s.skip(1)[j].address@ == a;
        assert(s[j + 1] == s.skip(1)[j]);
    }
}

/// Over a hot wallet table with unique addresses, the lookup is fully
/// determined by which entry carries the address: it answers None exactly
/// when no entry does, and answers the entry at any index that does.
pub proof fn lemma_find_hot_char(s: Seq<HotWallet>, a: Seq<char>)
    requires
        unique_hot(s),
    ensures
        spec_find_hot(s, a) is None <==> (forall|i: int| 0 <= i < s.len() ==> s[i].address@ != a),
        forall|i: int|
            0 <= i < s.len() && s[i].address@ == a ==> spec_find_hot(s, a) == Some(s[i]),
    decreases s.len(),
{
    if s.len() > 0 {
        assert forall|p: int, q: int|
            0 <= p < q < s.skip(1).len() implies s.skip(1)[p].address@
            != s.skip(1)[q].address@ by {
            assert(s.skip(1)[p] == s[p + 1]);
            assert(s.skip(1)[q] == s[q + 1]);
        }
        lemma_find_hot_char(s.skip(1), a);
        assert(forall|i: int| 1 <= i < s.len() ==> s[i] == s.skip(1)[i - 1]);
        if s[0].address@ == a {
            assert forall|i: int|
                0 <= i < s.len() && s[i].address@ == a implies spec_find_hot(s, a) == Some(
                s[i],
            ) by {
                assert(i == 0);
            }
        }
    }
}

/// Same characterization for the per-delegate runtime state table.
pub proof fn lemma_find_state_char(s: Seq<HotWalletState>, a: Seq<char>)
    requires
        unique_states(s),
    ensures
        spec_find_state(s, a) is None <==> (forall|i: int|
            0 <= i < s.len() ==> s[i].address@ != a),
        forall|i: int|
            0 <= i < s.len() && s[i].address@ == a ==> spec_find_state(s, a) == Some(s[i]),
    decreases s.len(),
{
    if s.len() > 0 {
        assert forall|p: int, q: int|
            0 <= p < q < s.skip(1).len() implies s.skip(1)[p].address@
            != s.skip(1)[q].address@ by {
            assert(s.skip(1)[p] == s[p + 1]);
            assert(s.skip(1)[q] == s[q + 1]);
        }
        lemma_find_state_char(s.skip(1), a);
        assert(forall|i: int| 1 <= i < s.len() ==> s[i] == s.skip(1)[i - 1]);
        if s[0].address@ == a {
            assert forall|i: int|
                0 <= i < s.len() && s[i].address@ == a implies spec_find_state(s, a) == Some(
                s[i],
            ) by {
                assert(i == 0);
            }
        }
    }
}

/// Replaces the element at `i`, keeping the rest of the vector.
pub fn set_state_at(v: &mut Vec<HotWalletState>, i: usize, st: HotWalletState)
    requires
        i < old(v)@.len(),
    ensures
        final(v)@ == old(v)@.update(i as int, st),
{
    v.remove(i);
    v.insert(i, st);
    proof {
        assert(v@ =~= old(v)@.update(i as int, st));
    }
}

/// Replaces the hot wallet entry at `i`, keeping the rest of the table.
pub fn set_hot_at(v: &mut Vec<HotWallet>, i: usize, h: HotWallet)
    requires
        i < old(v)@.len(),
    ensures
        final(v)@ == old(v)@.update(i as int, h),
{
    v.remove(i);
    v.insert(i, h);
    proof {
        assert(v@ =~= old(v)@.update(i as int, h));
    }
}

} // verus!
