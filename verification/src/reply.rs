use vstd::prelude::*;
use vstd::arithmetic::div_mod::lemma_div_is_ordered;
use vstd::arithmetic::div_mod::lemma_fundamental_div_mod;
use vstd::arithmetic::mul::lemma_mul_inequality;
use crate::types::ContractError;
use crate::msgs::Response;
use crate::msgs::SPAWN_MULTISIG_REPLY_ID;
use crate::state::Wallet;
use crate::state::wf_wallet;

verus! {

/// Value and end position of the base-128 varint starting at `i`, if the
/// bytes from `i` on hold a complete one: each byte contributes its seven
/// low bits, least significant first, and a clear high bit ends it.
pub open spec fn spec_varint(s: Seq<u8>, i: int) -> Option<(nat, int)>
    decreases s.len() - i,
{
    if i < 0 || i >= s.len() {
        None
    } else if s[i] < 128 {
        Some((s[i] as nat, i + 1))
    } else {
        match spec_varint(s, i + 1) {
            Option::None => None,
            Option::Some((v, j)) => Some((((s[i] - 128) + v * 128) as nat, j)),
        }
    }
}

/// A complete varint ends after its start and within the buffer.
pub proof fn lemma_varint_bounds(s: Seq<u8>, i: int)
    requires
        spec_varint(s, i) is Some,
    ensures
        i < spec_varint(s, i)->Some_0.1 <= s.len(),
    decreases s.len() - i,
{
    if s[i] >= 128 {
        lemma_varint_bounds(s, i + 1);
    }
}

/// Bytes of the first length-delimited field numbered 1 in the wire
/// encoding starting at `i`. None when the encoding is malformed: a
/// truncated varint or field, a key outside the valid field number range,
/// a group or unknown wire type, a field 1 that is not length-delimited,
/// or an encoding that ends without field 1.
pub open spec fn spec_field1(s: Seq<u8>, i: int) -> Option<Seq<u8>>
    decreases s.len() - i,
    when 0 <= i
    via spec_field1_decreases
{
    if i >= s.len() {
        None
    } else {
        match spec_varint(s, i) {
            Option::None => None,
            Option::Some((key, j)) => {
                let wt = key % 8;
                let field = key / 8;
                if field == 0 || field >= 0x20000000 {
                    None
                } else if field == 1 && wt != 2 {
                    None
                } else if wt == 0 {
                    match spec_varint(s, j) {
                        Option::None => None,
                        Option::Some((v, k)) => spec_field1(s, k),
                    }
                } else if wt == 1 {
                    if j + 8 <= s.len() {
                        spec_field1(s, j + 8)
                    } else {
                        None
                    }
                } else if wt == 2 {
                    match spec_varint(s, j) {
                        Option::None => None,
                        Option::Some((len, k)) => if k + len <= s.len() {
                            if field == 1 {
                                Some(s.subrange(k, k + len))
                            } else {
                                spec_field1(s, k + len)
                            }
                        } else {
                            None
                        },
                    }
                } else if wt == 5 {
                    if j + 4 <= s.len() {
                        spec_field1(s, j + 4)
                    } else {
                        None
                    }
                } else {
                    None
                }
            },
        }
    }
}

#[via_fn]
proof fn spec_field1_decreases(s: Seq<u8>, i: int) {
    if 0 <= i && i < s.len() {
        if spec_varint(s, i) is Some {
            lemma_varint_bounds(s, i);
            let j = spec_varint(s, i)->Some_0.1;
            if spec_varint(s, j) is Some {
                lemma_varint_bounds(s, j);
            }
        }
    }
}

/// Walks over the varint at `pos` without reading its value.
pub fn skip_varint(data: &Vec<u8>, pos: usize) -> (r: Option<usize>)
    ensures
        match spec_varint(data@, pos as int) {
            Option::None => r is None,
            Option::Some(p) => r == Some(p.1 as usize),
        },
    decreases data@.len() - pos,
{
    if pos >= data.len() {
        return None;
    }
    if data[pos] < 128 {
        return Some(pos + 1);
    }
    skip_varint(data, pos + 1)
}

/// Reads the varint at `pos`, rejecting values that do not fit in 64 bits.
pub fn parse_varint(data: &Vec<u8>, pos: usize) -> (r: Option<(u64, usize)>)
    ensures
        match spec_varint(data@, pos as int) {
            Option::None => r is None,
            Option::Some(p) => if p.0 <= u64::MAX {
                r == Some((p.0 as u64, p.1 as usize))
            } else {
                r is None
            },
        },
    decreases data@.len() - pos,
{
    if pos >= data.len() {
        return None;
    }
    let b = data[pos];
    if b < 128 {
        return Some((b as u64, pos + 1));
    }
    let low: u64 = (b - 128) as u64;
    match parse_varint(data, pos + 1) {
        Option::None => None,
        Option::Some((v, j)) => {
            let cap: u64 = (u64::MAX - low) / 128;
            proof {
                let d = (u64::MAX - low) as int;
                lemma_fundamental_div_mod(d, 128);
                if v <= d / 128 {
                    lemma_mul_inequality(v as int, d / 128, 128);
                } else {
                    lemma_mul_inequality(d / 128 + 1, v as int, 128);
                }
            }
            if v > cap {
                None
            } else {
                Some((low + v * 128, j))
            }
        },
    }
}

/// Finds the first field-1 payload in the wire encoding, as a start and
/// length into `data`.
pub fn find_field1(data: &Vec<u8>, pos: usize) -> (r: Option<(usize, usize)>)
    requires
        pos <= data@.len(),
    ensures
        match spec_field1(data@, pos as int) {
            Option::None => r is None,
            Option::Some(payload) => (r matches Some(p) && p.0 + p.1 <= data@.len()
                && data@.subrange(p.0 as int, p.0 + p.1) == payload),
        },
    decreases data@.len() - pos,
{
    if pos >= data.len() {
        return None;
    }
    let key_parse = parse_varint(data, pos);
    if key_parse.is_none() {
        proof {
            if spec_varint(data@, pos as int) is Some {
                let key = spec_varint(data@, pos as int)->Some_0.0;
                assert(key >= 0x10000000000000000);
                lemma_div_is_ordered(0x10000000000000000, key as int, 8);
                assert(key / 8 >= 0x20000000);
            }
        }
        return None;
    }
    let (key, j) = key_parse.unwrap();
    proof {
        lemma_varint_bounds(data@, pos as int);
    }
    let wt: u64 = key % 8;
    let field: u64 = key / 8;
    if field == 0 || field >= 0x20000000 {
        return None;
    }
    if field == 1 && wt != 2 {
        return None;
    }
    if wt == 0 {
        let skip = skip_varint(data, j);
        match skip {
            Option::None => None,
            Option::Some(k) => {
                proof {
                    lemma_varint_bounds(data@, j as int);
                }
                find_field1(data, k)
            },
        }
    } else if wt == 1 {
        if data.len() - j >= 8 {
            find_field1(data, j + 8)
        } else {
            None
        }
    } else if wt == 2 {
        let len_parse = parse_varint(data, j);
        match len_parse {
            Option::None => {
                proof {
                    if spec_varint(data@, j as int) is Some {
                        let p = spec_varint(data@, j as int)->Some_0;
                        assert(p.0 > u64::MAX);
                        vstd::std_specs::vec::axiom_spec_len(data);
                        lemma_varint_bounds(data@, j as int);
                        assert(p.1 + p.0 > data@.len());
                    }
                }
                None
            },
            Option::Some((len, k)) => {
                proof {
                    lemma_varint_bounds(data@, j as int);
                }
                if len <= (data.len() - k) as u64 {
                    let ln = len as usize;
                    if field == 1 {
                        Some((k, ln))
                    } else {
                        find_field1(data, k + ln)
                    }
                } else {
                    None
                }
            },
        }
    } else if wt == 5 {
        if data.len() - j >= 4 {
            find_field1(data, j + 4)
        } else {
            None
        }
    } else {
        None
    }
}

/// The characters of `s` spell exactly the bytes of `b`, one per byte.
pub open spec fn chars_match_bytes(s: Seq<char>, b: Seq<u8>) -> bool {
    &&& s.len() == b.len()
    &&& forall|i: int| 0 <= i < b.len() ==> #[trigger] s[i] as u32 == b[i] as u32
}

/// Whether every byte is below 128.
pub fn all_ascii(v: &Vec<u8>) -> (r: bool)
    ensures
        r == (forall|i: int| 0 <= i < v@.len() ==> v@[i] < 128),
{
    let mut i: usize = 0;
    while i < v.len()
        invariant
            i <= v@.len(),
            forall|t: int| 0 <= t < i ==> v@[t] < 128,
        decreases v@.len() - i,
    {
        if v[i] >= 128 {
            return false;
        }
        i = i + 1;
    }
    true
}

/// Relies on String::from_utf8: bytes below 128 are valid UTF-8 and decode
/// to one character per byte with the same code point, and decoding such
/// bytes cannot fail.
#[verifier::external_body]
fn string_from_ascii(bytes: Vec<u8>) -> (r: String)
    requires
        forall|i: int| 0 <= i < bytes@.len() ==> bytes@[i] < 128,
    ensures
        chars_match_bytes(r@, bytes@),
{
    String::from_utf8(bytes).unwrap()
}

/// Handles the creation callback of the spawned multisig: checks the
/// correlation id, extracts the new contract's address from the wire
/// payload, and commits it as the governing multisig address. This is the
/// only path that sets the governor when the wallet spawned its multisig.
pub fn reply(wallet: &mut Wallet, reply_id: u64, data: Option<Vec<u8>>) -> (r: Result<
    Response,
    ContractError,
>)
    requires
        wf_wallet(*old(wallet)),
    ensures
        wf_wallet(*final(wallet)),
        r is Err ==> *final(wallet) == *old(wallet),
        reply_id != SPAWN_MULTISIG_REPLY_ID ==> r == Err::<Response, ContractError>(
            ContractError::InvalidReplyId,
        ),
        reply_id == SPAWN_MULTISIG_REPLY_ID ==> match data {
            Option::None => r == Err::<Response, ContractError>(ContractError::MalformedReply),
            Option::Some(d) => match spec_field1(d@, 0) {
                Option::None => r == Err::<Response, ContractError>(ContractError::MalformedReply),
                Option::Some(payload) => if forall|i: int|
                    0 <= i < payload.len() ==> payload[i] < 128 {
                    &&& r is Ok
                    &&& chars_match_bytes(final(wallet).config.cw3_address@, payload)
                    &&& final(wallet).config.hot_wallets == old(wallet).config.hot_wallets
                    &&& final(wallet).config.whitelisted_contracts == old(
                        wallet,
                    ).config.whitelisted_contracts
                    &&& final(wallet).config.cold_wallets == old(wallet).config.cold_wallets
                    &&& final(wallet).config.threshold == old(wallet).config.threshold
                    &&& final(wallet).config.max_expiration == old(wallet).config.max_expiration
                    &&& final(wallet).hot_states == old(wallet).hot_states
                    &&& final(wallet).pending == old(wallet).pending
                } else {
                    r == Err::<Response, ContractError>(ContractError::MalformedReply)
                },
            },
        },
{
    if reply_id != SPAWN_MULTISIG_REPLY_ID {
        return Err(ContractError::InvalidReplyId);
    }
    let d = match data {
        Option::None => {
            return Err(ContractError::MalformedReply);
        },
        Option::Some(d) => d,
    };
    let found = find_field1(&d, 0);
    let (start, len) = match found {
        Option::None => {
            return Err(ContractError::MalformedReply);
        },
        Option::Some(p) => p,
    };
    let ghost payload = spec_field1(d@, 0)->Some_0;
    let mut addr_bytes: Vec<u8> = Vec::new();
    let mut k: usize = 0;
    while k < len
        invariant
            start + len <= d.len(),
            k <= len,
            addr_bytes@ == d@.subrange(start as int, start as int + k as int),
        decreases len - k,
    {
        let b = d[start + k];
        addr_bytes.push(b);
        proof {
            assert(d@.subrange(start as int, start as int + k as int + 1) =~= d@.subrange(
                start as int,
                start as int + k as int,
            ).push(d@[start as int + k as int]));
        }
        k = k + 1;
    }
    proof {
        assert(addr_bytes@ =~= payload);
        assert(addr_bytes@ == payload);
    }
    if !all_ascii(&addr_bytes) {
        return Err(ContractError::MalformedReply);
    }
    let addr = string_from_ascii(addr_bytes);
    wallet.config.cw3_address = addr;
    Ok(Response { attributes: Vec::new(), messages: Vec::new(), submessages: Vec::new() })
}

} // verus!
