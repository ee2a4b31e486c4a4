use vstd::prelude::*;
use crate::types::Coin;
use crate::types::Cw3InstantiateMsg;
use vstd::string::StrSliceExecFns;
use vstd::string::StringSliceAdditionalSpecFns;

verus! {

/// One key/value pair attached to a response for the host's event log.
#[derive(Debug)]
pub struct Attribute {
    pub key: String,
    pub value: String,
}

/// One outbound call record, emitted alongside the state mutation in the
/// same atomic unit of execution. The host delivers it; the library only
/// constructs it.
#[derive(Debug)]
pub enum OutboundMsg {
    /// Native value transfer from the wallet.
    BankSend { to_address: String, amount: Vec<Coin> },
    /// Invocation of an external program with funds and an opaque payload.
    WasmExecute { contract_addr: String, funds: Vec<Coin>, msg: Vec<u8> },
    /// Instantiation of a new contract from a stored code id.
    WasmInstantiate { admin: String, code_id: u64, msg: Cw3InstantiateMsg, label: String },
    /// Opaque pre-serialized host message, forwarded but never interpreted.
    Raw { payload: Vec<u8> },
}

/// An outbound call whose success is answered by a reply keyed by `id`.
#[derive(Debug)]
pub struct SubMsg {
    pub id: u64,
    pub msg: OutboundMsg,
}

/// What one request commits: event attributes, plain outbound calls, and
/// calls that expect a reply.
#[derive(Debug)]
pub struct Response {
    pub attributes: Vec<Attribute>,
    pub messages: Vec<OutboundMsg>,
    pub submessages: Vec<SubMsg>,
}

/// Correlation id tagging the spawned multisig instantiation; its reply
/// carries the new contract's address.
pub const SPAWN_MULTISIG_REPLY_ID: u64 = 100;

/// Bytes of an ASCII character sequence, one byte per character.
pub open spec fn ascii_bytes(s: Seq<char>) -> Seq<u8> {
    s.map(|i: int, c: char| c as u8)
}

/// JSON encoding of a parameterless protocol call named `name`, as the
/// external protocols expect it: `{"<name>":{}}`.
pub open spec fn fixed_call_json(name: Seq<char>) -> Seq<u8> {
    ascii_bytes("{\""@ + name + "\":{}}"@)
}

/// JSON payload of the reward claim call: `{"claim_rewards":{"recipient":null}}`.
pub open spec fn claim_rewards_json() -> Seq<u8> {
    ascii_bytes("{\"claim_rewards\":{\"recipient\":null}}"@)
}

/// Relies on cosmwasm_std::to_binary over moneymarket's market ExecuteMsg:
/// the snake_case serde encoding of the fieldless DepositStable variant is
/// exactly `{"deposit_stable":{}}`, and serializing it cannot fail.
#[verifier::external_body]
pub(crate) fn deposit_stable_payload() -> (r: Vec<u8>)
    ensures
        r@ == fixed_call_json("deposit_stable"@),
{
    cosmwasm_std::to_binary(&moneymarket::market::ExecuteMsg::DepositStable {}).unwrap().0
}

/// Relies on cosmwasm_std::to_binary over moneymarket's market ExecuteMsg:
/// the snake_case serde encoding of the fieldless RepayStable variant is
/// exactly `{"repay_stable":{}}`, and serializing it cannot fail.
#[verifier::external_body]
pub(crate) fn repay_stable_payload() -> (r: Vec<u8>)
    ensures
        r@ == fixed_call_json("repay_stable"@),
{
    cosmwasm_std::to_binary(&moneymarket::market::ExecuteMsg::RepayStable {}).unwrap().0
}

/// Payload of the reward claim forwarded to the staking reward contract,
/// claiming for the wallet itself (no explicit recipient).
pub(crate) fn claim_rewards_payload() -> (r: Vec<u8>)
    ensures
        r@ == claim_rewards_json(),
{
    let s = "{\"claim_rewards\":{\"recipient\":null}}";
    proof {
        reveal_strlit("{\"claim_rewards\":{\"recipient\":null}}");
        assert forall|i: int| 0 <= i < s@.len() implies '\0' <= #[trigger] s@[i] <= '\u{7f}' by {
        }
        assert(vstd::string::is_ascii(s));
        vstd::string::is_ascii_spec_bytes(s);
        assert(s.spec_bytes() =~= claim_rewards_json());
    }
    s.as_bytes_vec()
}

} // verus!
