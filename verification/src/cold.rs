use vstd::prelude::*;
use vstd::string::StringExecFns;
use crate::types::Coin;
use crate::types::ContractError;
use crate::msgs::Attribute;
use crate::msgs::OutboundMsg;
use crate::msgs::Response;
use crate::state::ColdAction;
use crate::state::PendingColdAction;
use crate::state::Wallet;
use crate::state::contains_addr;
use crate::state::has_addr;
use crate::state::spec_idle;
use crate::state::wf_wallet;
use crate::tax::spec_compute_tax;
use crate::tax::compute_tax;

verus! {

/// Whether a proposal by `sender` is accepted: the sender is a cold
/// principal and no action is already in flight.
pub open spec fn spec_propose_allowed(w: Wallet, sender: Seq<char>) -> bool {
    &&& has_addr(w.config.cold_wallets@, sender)
    &&& w.pending.action is Idle
}

/// Whether a confirm attempt by `sender` at `now` hits the lazy expiry:
/// an action is pending but its deadline has passed.
pub open spec fn spec_confirm_expired(w: Wallet, sender: Seq<char>, now: u64) -> bool {
    &&& has_addr(w.config.cold_wallets@, sender)
    &&& !(w.pending.action is Idle)
    &&& now > w.pending.expires_at
}

/// The single outbound call a dispatched cold action produces: the native
/// transfer carries the amount net of the protocol transfer tax, the
/// program call relays the opaque payload with no funds.
pub open spec fn is_cold_dispatch_msg(
    m: OutboundMsg,
    a: ColdAction,
    tax_rate: u64,
    tax_cap: u64,
) -> bool {
    match a {
        ColdAction::Idle => false,
        ColdAction::NativeTransfer { recipient, denom, amount } => (m
            matches OutboundMsg::BankSend { to_address, amount: coins } && to_address@
            == recipient@ && coins@.len() == 1 && coins@[0].denom@ == denom@ && coins@[0].amount
            == amount - spec_compute_tax(amount, tax_rate, tax_cap)),
        ColdAction::ProgramCall { contract, msg } => (m matches OutboundMsg::WasmExecute {
            contract_addr,
            funds,
            msg: payload,
        } && contract_addr@ == contract@ && funds@.len() == 0 && payload@ == msg@),
    }
}

/// Deadline of a freshly proposed action: the requested lifetime (the
/// configured maximum when none is given), clamped to that maximum, added
/// to `now` without wrapping.
pub open spec fn spec_expires_at(now: u64, expiration: Option<u64>, max_expiration: u64) -> int {
    let requested = match expiration {
        Option::Some(e) => e,
        Option::None => max_expiration,
    };
    let clamped: int = if requested > max_expiration {
        max_expiration as int
    } else {
        requested as int
    };
    if now + clamped > u64::MAX {
        u64::MAX as int
    } else {
        now + clamped
    }
}

/// Builds the outbound call a non-idle cold action dispatches.
pub fn build_cold_msg(action: ColdAction, tax_rate: u64, tax_cap: u64) -> (m: OutboundMsg)
    requires
        !(action is Idle),
    ensures
        is_cold_dispatch_msg(m, action, tax_rate, tax_cap),
{
    match action {
        ColdAction::Idle => OutboundMsg::Raw { payload: Vec::new() },
        ColdAction::NativeTransfer { recipient, denom, amount } => {
            let net: u64 = amount - compute_tax(amount, tax_rate, tax_cap);
            let mut coins: Vec<Coin> = Vec::new();
            coins.push(Coin { denom, amount: net });
            OutboundMsg::BankSend { to_address: recipient, amount: coins }
        },
        ColdAction::ProgramCall { contract, msg } => {
            OutboundMsg::WasmExecute { contract_addr: contract, funds: Vec::new(), msg }
        },
    }
}

/// Proposes a sensitive action, valid only while the slot is idle; the
/// proposer counts as its first confirmer. With a threshold of one the
/// action dispatches in the same transition and the slot stays idle.
pub fn propose_cold_action(
    wallet: &mut Wallet,
    sender: &String,
    action: ColdAction,
    expiration: Option<u64>,
    now: u64,
    tax_rate: u64,
    tax_cap: u64,
) -> (r: Result<Response, ContractError>)
    requires
        wf_wallet(*old(wallet)),
        !(action is Idle),
    ensures
        wf_wallet(*final(wallet)),
        r is Err ==> *final(wallet) == *old(wallet),
        final(wallet).config == old(wallet).config,
        final(wallet).hot_states == old(wallet).hot_states,
        !has_addr(old(wallet).config.cold_wallets@, sender@) ==> r == Err::<
            Response,
            ContractError,
        >(ContractError::Unauthorized),
        has_addr(old(wallet).config.cold_wallets@, sender@) && !(old(
            wallet,
        ).pending.action is Idle) ==> r == Err::<Response, ContractError>(
            ContractError::ActionAlreadyPending,
        ),
        spec_propose_allowed(*old(wallet), sender@) ==> {
            &&& r is Ok
            &&& if old(wallet).config.threshold == 1 {
                &&& spec_idle(final(wallet).pending)
                &&& (r matches Ok(resp) && resp.messages@.len() == 1 && is_cold_dispatch_msg(
                    resp.messages@[0],
                    action,
                    tax_rate,
                    tax_cap,
                ) && resp.submessages@.len() == 0)
            } else {
                &&& final(wallet).pending.action == action
                &&& final(wallet).pending.expires_at == spec_expires_at(
                    now,
                    expiration,
                    old(wallet).config.max_expiration,
                )
                &&& final(wallet).pending.confirmers@.len() == 1
                &&& final(wallet).pending.confirmers@[0] == *sender
                &&& (r matches Ok(resp) && resp.messages@.len() == 0 && resp.submessages@.len()
                    == 0)
            }
        },
{
    if !contains_addr(&wallet.config.cold_wallets, sender) {
        return Err(ContractError::Unauthorized);
    }
    let pending_now = match &wallet.pending.action {
        ColdAction::Idle => false,
        _ => true,
    };
    if pending_now {
        return Err(ContractError::ActionAlreadyPending);
    }
    let mut attributes: Vec<Attribute> = Vec::new();
    attributes.push(
        Attribute { key: String::from_str("action"), value: String::from_str("propose_cold") },
    );
    if wallet.config.threshold == 1 {
        let m = build_cold_msg(action, tax_rate, tax_cap);
        let mut messages: Vec<OutboundMsg> = Vec::new();
        messages.push(m);
        return Ok(Response { attributes, messages, submessages: Vec::new() });
    }
    let max_expiration = wallet.config.max_expiration;
    let requested: u64 = match expiration {
        Option::Some(e) => e,
        Option::None => max_expiration,
    };
    let clamped: u64 = if requested > max_expiration {
        max_expiration
    } else {
        requested
    };
    let expires_at: u64 = if clamped > u64::MAX - now {
        u64::MAX
    } else {
        now + clamped
    };
    let mut confirmers: Vec<String> = Vec::new();
    confirmers.push(sender.clone());
    wallet.pending = PendingColdAction { action, expires_at, confirmers };
    Ok(Response { attributes, messages: Vec::new(), submessages: Vec::new() })
}

/// Proposes a native value transfer out of the wallet.
pub fn propose_cold_native_transfer(
    wallet: &mut Wallet,
    sender: &String,
    destination: String,
    denom: String,
    amount: u64,
    expiration: Option<u64>,
    now: u64,
    tax_rate: u64,
    tax_cap: u64,
) -> (r: Result<Response, ContractError>)
    requires
        wf_wallet(*old(wallet)),
    ensures
        wf_wallet(*final(wallet)),
        r is Err ==> *final(wallet) == *old(wallet),
        final(wallet).config == old(wallet).config,
        final(wallet).hot_states == old(wallet).hot_states,
        !has_addr(old(wallet).config.cold_wallets@, sender@) ==> r == Err::<
            Response,
            ContractError,
        >(ContractError::Unauthorized),
        has_addr(old(wallet).config.cold_wallets@, sender@) && !(old(
            wallet,
        ).pending.action is Idle) ==> r == Err::<Response, ContractError>(
            ContractError::ActionAlreadyPending,
        ),
        spec_propose_allowed(*old(wallet), sender@) ==> {
            &&& r is Ok
            &&& if old(wallet).config.threshold == 1 {
                &&& spec_idle(final(wallet).pending)
                &&& (r matches Ok(resp) && resp.messages@.len() == 1 && is_cold_dispatch_msg(
                    resp.messages@[0],
                    (ColdAction::NativeTransfer { recipient: destination, denom, amount }),
                    tax_rate,
                    tax_cap,
                ) && resp.submessages@.len() == 0)
            } else {
                &&& final(wallet).pending.action == (ColdAction::NativeTransfer {
                    recipient: destination,
                    denom,
                    amount,
                })
                &&& final(wallet).pending.expires_at == spec_expires_at(
                    now,
                    expiration,
                    old(wallet).config.max_expiration,
                )
                &&& final(wallet).pending.confirmers@.len() == 1
                &&& final(wallet).pending.confirmers@[0] == *sender
                &&& (r matches Ok(resp) && resp.messages@.len() == 0 && resp.submessages@.len()
                    == 0)
            }
        },
{
    propose_cold_action(
        wallet,
        sender,
        ColdAction::NativeTransfer { recipient: destination, denom, amount },
        expiration,
        now,
        tax_rate,
        tax_cap,
    )
}

/// Proposes a call to an external program with an opaque payload.
pub fn propose_cold_program_call(
    wallet: &mut Wallet,
    sender: &String,
    destination: String,
    message: Vec<u8>,
    expiration: Option<u64>,
    now: u64,
    tax_rate: u64,
    tax_cap: u64,
) -> (r: Result<Response, ContractError>)
    requires
        wf_wallet(*old(wallet)),
    ensures
        wf_wallet(*final(wallet)),
        r is Err ==> *final(wallet) == *old(wallet),
        final(wallet).config == old(wallet).config,
        final(wallet).hot_states == old(wallet).hot_states,
        !has_addr(old(wallet).config.cold_wallets@, sender@) ==> r == Err::<
            Response,
            ContractError,
        >(ContractError::Unauthorized),
        has_addr(old(wallet).config.cold_wallets@, sender@) && !(old(
            wallet,
        ).pending.action is Idle) ==> r == Err::<Response, ContractError>(
            ContractError::ActionAlreadyPending,
        ),
        spec_propose_allowed(*old(wallet), sender@) ==> {
            &&& r is Ok
            &&& if old(wallet).config.threshold == 1 {
                &&& spec_idle(final(wallet).pending)
                &&& (r matches Ok(resp) && resp.messages@.len() == 1 && is_cold_dispatch_msg(
                    resp.messages@[0],
                    (ColdAction::ProgramCall { contract: destination, msg: message }),
                    tax_rate,
                    tax_cap,
                ) && resp.submessages@.len() == 0)
            } else {
                &&& final(wallet).pending.action == (ColdAction::ProgramCall {
                    contract: destination,
                    msg: message,
                })
                &&& final(wallet).pending.expires_at == spec_expires_at(
                    now,
                    expiration,
                    old(wallet).config.max_expiration,
                )
                &&& final(wallet).pending.confirmers@.len() == 1
                &&& final(wallet).pending.confirmers@[0] == *sender
                &&& (r matches Ok(resp) && resp.messages@.len() == 0 && resp.submessages@.len()
                    == 0)
            }
        },
{
    propose_cold_action(
        wallet,
        sender,
        ColdAction::ProgramCall { contract: destination, msg: message },
        expiration,
        now,
        tax_rate,
        tax_cap,
    )
}

/// Confirms the pending cold action. An expired action is cleared and the
/// attempt fails; a fresh confirmation is recorded once per principal, and
/// the action dispatches exactly when the count reaches the threshold.
pub fn confirm_cold_action(
    wallet: &mut Wallet,
    sender: &String,
    now: u64,
    tax_rate: u64,
    tax_cap: u64,
) -> (r: Result<Response, ContractError>)
    requires
        wf_wallet(*old(wallet)),
    ensures
        wf_wallet(*final(wallet)),
        final(wallet).config == old(wallet).config,
        final(wallet).hot_states == old(wallet).hot_states,
        !has_addr(old(wallet).config.cold_wallets@, sender@) ==> r == Err::<
            Response,
            ContractError,
        >(ContractError::Unauthorized) && *final(wallet) == *old(wallet),
        has_addr(old(wallet).config.cold_wallets@, sender@) && old(
            wallet,
        ).pending.action is Idle ==> r == Err::<Response, ContractError>(
            ContractError::NoPendingAction,
        ) && *final(wallet) == *old(wallet),
        spec_confirm_expired(*old(wallet), sender@, now) ==> r == Err::<Response, ContractError>(
            ContractError::ActionExpired,
        ) && spec_idle(final(wallet).pending),
        has_addr(old(wallet).config.cold_wallets@, sender@) && !(old(
            wallet,
        ).pending.action is Idle) && now <= old(wallet).pending.expires_at && has_addr(
            old(wallet).pending.confirmers@,
            sender@,
        ) ==> r == Err::<Response, ContractError>(ContractError::AlreadyConfirmed) && *final(wallet)
            == *old(wallet),
        has_addr(old(wallet).config.cold_wallets@, sender@) && !(old(
            wallet,
        ).pending.action is Idle) && now <= old(wallet).pending.expires_at && !has_addr(
            old(wallet).pending.confirmers@,
            sender@,
        ) ==> {
            &&& r is Ok
            &&& if old(wallet).pending.confirmers@.len() + 1 >= old(wallet).config.threshold {
                &&& spec_idle(final(wallet).pending)
                &&& (r matches Ok(resp) && resp.messages@.len() == 1 && is_cold_dispatch_msg(
                    resp.messages@[0],
                    old(wallet).pending.action,
                    tax_rate,
                    tax_cap,
                ) && resp.submessages@.len() == 0)
            } else {
                &&& final(wallet).pending.action == old(wallet).pending.action
                &&& final(wallet).pending.expires_at == old(wallet).pending.expires_at
                &&& final(wallet).pending.confirmers@ == old(wallet).pending.confirmers@.push(
                    *sender,
                )
                &&& (r matches Ok(resp) && resp.messages@.len() == 0 && resp.submessages@.len()
                    == 0)
            }
        },
{
    if !contains_addr(&wallet.config.cold_wallets, sender) {
        return Err(ContractError::Unauthorized);
    }
    let pending_now = match &wallet.pending.action {
        ColdAction::Idle => false,
        _ => true,
    };
    if !pending_now {
        return Err(ContractError::NoPendingAction);
    }
    if now > wallet.pending.expires_at {
        wallet.pending = PendingColdAction {
            action: ColdAction::Idle,
            expires_at: 0,
            confirmers: Vec::new(),
        };
        return Err(ContractError::ActionExpired);
    }
    if contains_addr(&wallet.pending.confirmers, sender) {
        return Err(ContractError::AlreadyConfirmed);
    }
    wallet.pending.confirmers.push(sender.clone());
    let mut attributes: Vec<Attribute> = Vec::new();
    attributes.push(
        Attribute { key: String::from_str("action"), value: String::from_str("confirm_cold") },
    );
    if wallet.pending.confirmers.len() >= wallet.config.threshold {
        let mut taken = PendingColdAction {
            action: ColdAction::Idle,
            expires_at: 0,
            confirmers: Vec::new(),
        };
        core::mem::swap(&mut wallet.pending, &mut taken);
        let m = build_cold_msg(taken.action, tax_rate, tax_cap);
        let mut messages: Vec<OutboundMsg> = Vec::new();
        messages.push(m);
        return Ok(Response { attributes, messages, submessages: Vec::new() });
    }
    Ok(Response { attributes, messages: Vec::new(), submessages: Vec::new() })
}

} // verus!
