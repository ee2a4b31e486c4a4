use vstd::prelude::*;
use crate::types::HotWallet;
use crate::types::hot_wallet_eqv;
use crate::state::Wallet;
use crate::state::has_addr;
use crate::state::spec_find_hot;
use crate::state::spec_find_state;
use crate::state::spec_idle;
use crate::state::wf_wallet;
use crate::state::lemma_find_hot_some;
use crate::hot::spec_refill_ok;
use crate::cold::spec_confirm_expired;
use crate::cold::spec_propose_allowed;

verus! {

/// Replay safety of the gas refill: a refill that succeeded at `t1` stamps
/// the delegate's state with `t1`, and from any such state a second refill
/// within the delegate's cooldown window fails, whatever balances the
/// host then reports. Calling twice within the cooldown therefore yields
/// exactly one transfer, never two.
pub proof fn lemma_refill_no_replay(
    w1: Wallet,
    w2: Wallet,
    sender: Seq<char>,
    t1: u64,
    t2: u64,
    b1: u64,
    c1: u64,
    b2: u64,
    c2: u64,
)
    requires
        wf_wallet(w1),
        spec_refill_ok(w1, sender, t1, b1, c1),
        w2.config == w1.config,
        spec_find_state(w2.hot_states@, sender) matches Some(st) && st.last_gas_fillup == t1,
        t1 <= t2,
        t2 < t1 + spec_find_hot(w1.config.hot_wallets@, sender)->Some_0.gas_cooldown,
    ensures
        !spec_refill_ok(w2, sender, t2, b2, c2),
{
}

/// Lazy expiry frees the slot: once an expired confirm attempt has cleared
/// the pending action, any cold principal's proposal is accepted again.
pub proof fn lemma_expiry_frees_slot(w1: Wallet, w2: Wallet, s1: Seq<char>, s2: Seq<char>, now: u64)
    requires
        spec_confirm_expired(w1, s1, now),
        w2.config == w1.config,
        spec_idle(w2.pending),
        has_addr(w1.config.cold_wallets@, s2),
    ensures
        spec_propose_allowed(w2, s2),
{
}

/// Confirmers of the pending action are pairwise distinct in every
/// well-formed state: no principal is ever counted twice toward the
/// threshold.
pub proof fn lemma_confirmers_distinct(w: Wallet)
    requires
        wf_wallet(w),
    ensures
        forall|i: int, j: int|
            0 <= i < j < w.pending.confirmers@.len() ==> w.pending.confirmers@[i]@
                != w.pending.confirmers@[j]@,
{
}

/// Round trip of the hot wallet table: in any well-formed state in which
/// the lookup answers `entry` — as it does right after an upsert of
/// `entry` — a read of the table (element-wise equivalent, as the
/// configuration query returns it) contains an entry equivalent to
/// `entry`, and no second slot carries its address: an upsert replaces,
/// it never duplicates.
pub proof fn lemma_upsert_query_roundtrip(w2: Wallet, entry: HotWallet, read: Seq<HotWallet>)
    requires
        wf_wallet(w2),
        spec_find_hot(w2.config.hot_wallets@, entry.address@) == Some(entry),
        read.len() == w2.config.hot_wallets@.len(),
        forall|i: int|
            0 <= i < read.len() ==> hot_wallet_eqv(#[trigger] read[i], w2.config.hot_wallets@[i]),
    ensures
        exists|i: int| 0 <= i < read.len() && hot_wallet_eqv(#[trigger] read[i], entry),
        forall|i: int, j: int|
            0 <= i < j < read.len() ==> read[i].address@ != read[j].address@,
{
    lemma_find_hot_some(w2.config.hot_wallets@, entry.address@);
    let i = choose|i: int|
        0 <= i < w2.config.hot_wallets@.len() && w2.config.hot_wallets@[i] == entry
            && w2.config.hot_wallets@[i].address@ == entry.address@;
    assert(hot_wallet_eqv(read[i], entry));
}

} // verus!
