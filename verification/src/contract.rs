//! The outbound transfer path and token registration.
//!
//! `execute_transfer` validates a send request, credits the ledger
//! optimistically, and hands back the wire packet for the host to emit.
//! `register_tokens` records the code hashes that later receives require.

use vstd::prelude::*;
use vstd::string::*;
use crate::amount::{spec_denom_of, Snip20Coin};
use crate::error::ContractError;
use crate::ibc::{attr, Attribute, Ics20Packet};
use crate::state::{credit_cell, increase_channel_balance, save_code_hash, BridgeStorage};

verus! {

/// A transfer request: the channel to send on, the recipient on the remote
/// chain, and an optional timeout delta in seconds.
#[derive(Clone, Debug, PartialEq, Eq)]
pub struct TransferMsg {
    pub channel: String,
    pub remote_address: String,
    pub timeout: Option<u64>,
}

/// Registration data for one token contract.
#[derive(Clone, Debug, PartialEq, Eq)]
pub struct Snip20Data {
    pub address: String,
    pub code_hash: String,
}

/// The outcome of an accepted transfer request: the packet to emit on the
/// channel, its absolute timeout in nanoseconds, and audit events.
#[derive(Debug)]
pub struct TransferResponse {
    pub packet: Ics20Packet,
    pub channel_id: String,
    pub timeout: u64,
    pub attributes: Vec<Attribute>,
}

/// The absolute timeout of a packet, in nanoseconds: the current time plus
/// the request's delta, or the configured default delta when none was
/// supplied (deltas are in seconds).
pub open spec fn spec_timeout_ns(now_ns: u64, msg_timeout: Option<u64>, default_timeout: u64)
    -> int {
    let delta = match msg_timeout {
        Some(t) => t,
        None => default_timeout,
    };
    now_ns + delta * 1_000_000_000
}

/// Validates an outbound transfer, credits the channel ledger
/// optimistically, and returns the packet to emit.  Any error leaves the
/// state exactly as it was.
pub fn execute_transfer(
    storage: &mut BridgeStorage,
    msg: TransferMsg,
    amount: Snip20Coin,
    sender: &String,
    now_ns: u64,
) -> (r: Result<TransferResponse, ContractError>)
    requires
        amount.amount != 0 && old(storage).channel_known(msg.channel@) ==> spec_timeout_ns(
            now_ns,
            msg.timeout,
            old(storage).config.default_timeout,
        ) <= u64::MAX,
        0 < amount.amount <= u64::MAX && old(storage).channel_known(msg.channel@) ==> old(
            storage,
        ).balance_cell(msg.channel@, spec_denom_of(amount.address@)).outstanding + amount.amount
            <= u128::MAX && old(storage).balance_cell(
            msg.channel@,
            spec_denom_of(amount.address@),
        ).total_sent + amount.amount <= u128::MAX,
    ensures
        r is Ok <==> 0 < amount.amount <= u64::MAX && old(storage).channel_known(msg.channel@),
        r is Err ==> *final(storage) == *old(storage),
        amount.amount == 0 ==> r == Err::<TransferResponse, ContractError>(ContractError::NoFunds),
        amount.amount != 0 && !old(storage).channel_known(msg.channel@) ==> (r matches Err(
            ContractError::NoSuchChannel { id },
        ) && id@ == msg.channel@),
        amount.amount != 0 && old(storage).channel_known(msg.channel@) && amount.amount
            > u64::MAX ==> r == Err::<TransferResponse, ContractError>(
            ContractError::AmountOverflow,
        ),
        r is Ok ==> ({
            let denom = spec_denom_of(amount.address@);
            &&& final(storage).balance_cell(msg.channel@, denom) == credit_cell(
                old(storage).balance_cell(msg.channel@, denom),
                amount.amount as int,
            )
            &&& forall|c2: Seq<char>, d2: Seq<char>|
                !(c2 == msg.channel@ && d2 == denom) ==> #[trigger] final(storage).balance_cell(
                    c2,
                    d2,
                ) == old(storage).balance_cell(c2, d2)
            &&& final(storage).channel_info == old(storage).channel_info
            &&& final(storage).code_hash == old(storage).code_hash
            &&& final(storage).reply_args == old(storage).reply_args
            &&& final(storage).config == old(storage).config
        }),
        r matches Ok(resp) ==> resp.packet.amount == amount.amount && resp.packet.denom@
            == spec_denom_of(amount.address@) && resp.packet.sender@ == sender@
            && resp.packet.receiver@ == msg.remote_address@ && resp.channel_id@ == msg.channel@
            && resp.timeout == spec_timeout_ns(
            now_ns,
            msg.timeout,
            old(storage).config.default_timeout,
        ),
{
    if amount.is_empty() {
        return Err(ContractError::NoFunds);
    }
    if !storage.has_channel(&msg.channel) {
        return Err(ContractError::NoSuchChannel { id: msg.channel });
    }
    let timeout_delta: u64 = match msg.timeout {
        Some(t) => t,
        None => storage.config.default_timeout,
    };
    let timeout: u64 = now_ns + timeout_delta * 1_000_000_000;
    let denom = amount.denom();
    let packet = Ics20Packet::new(
        amount.amount(),
        denom.clone(),
        sender.as_str(),
        msg.remote_address.as_str(),
    );
    match packet.validate() {
        Err(e) => {
            return Err(e);
        },
        Ok(()) => {},
    }
    match increase_channel_balance(storage, &msg.channel, &denom, amount.amount()) {
        Err(e) => {
            return Err(e);
        },
        Ok(()) => {},
    }
    let mut attributes: Vec<Attribute> = Vec::new();
    attributes.push(attr("action", String::from_str("transfer")));
    attributes.push(attr("sender", packet.sender.clone()));
    attributes.push(attr("receiver", packet.receiver.clone()));
    attributes.push(attr("denom", packet.denom.clone()));
    attributes.push(attr("amount", crate::amount::u128_to_dec(packet.amount)));
    Ok(TransferResponse { packet, channel_id: msg.channel, timeout, attributes })
}

/// The code hash the given registration list assigns to an address: the
/// last entry for that address wins.
pub open spec fn spec_lookup_token(tokens: Seq<Snip20Data>, a: Seq<char>) -> Option<Seq<char>>
    decreases tokens.len(),
{
    if tokens.len() == 0 {
        None
    } else {
        let rest = spec_lookup_token(tokens.drop_first(), a);
        if rest is Some {
            rest
        } else if tokens[0].address@ == a {
            Some(tokens[0].code_hash@)
        } else {
            None
        }
    }
}

/// Appending one registration binds exactly its address, shadowing earlier
/// entries for it.
proof fn lemma_lookup_token_push(s: Seq<Snip20Data>, e: Snip20Data, a: Seq<char>)
    ensures
        spec_lookup_token(s.push(e), a) == if e.address@ == a {
            Some(e.code_hash@)
        } else {
            spec_lookup_token(s, a)
        },
    decreases s.len(),
{
    let t = s.push(e);
    if s.len() == 0 {
        assert(t.drop_first() =~= Seq::<Snip20Data>::empty());
        assert(t[0] == e);
    } else {
        assert(t[0] == s[0]);
        assert(t.drop_first() =~= s.drop_first().push(e));
        lemma_lookup_token_push(s.drop_first(), e, a);
        assert(spec_lookup_token(t.drop_first(), a) == spec_lookup_token(
            s.drop_first().push(e),
            a,
        ));
    }
}

/// Records the code hash of every token in the list, later entries winning
/// over earlier ones and over existing registrations.  No other state
/// changes.
pub fn register_tokens(storage: &mut BridgeStorage, tokens: Vec<Snip20Data>)
    ensures
        forall|a: Seq<char>|
            #[trigger] final(storage).code_hash_of(a) == match spec_lookup_token(tokens@, a) {
                Some(h) => Some(h),
                None => old(storage).code_hash_of(a),
            },
        final(storage).channel_state == old(storage).channel_state,
        final(storage).channel_info == old(storage).channel_info,
        final(storage).reply_args == old(storage).reply_args,
        final(storage).config == old(storage).config,
{
    let n = tokens.len();
    let mut i: usize = 0;
    proof {
        assert(tokens@.take(0) =~= Seq::<Snip20Data>::empty());
    }
    while i < n
        invariant
            i <= n,
            n == tokens@.len(),
            forall|a: Seq<char>|
                #[trigger] storage.code_hash_of(a) == match spec_lookup_token(
                    tokens@.take(i as int),
                    a,
                ) {
                    Some(h) => Some(h),
                    None => old(storage).code_hash_of(a),
                },
            storage.channel_state == old(storage).channel_state,
            storage.channel_info == old(storage).channel_info,
            storage.reply_args == old(storage).reply_args,
            storage.config == old(storage).config,
        decreases n - i,
    {
        let ghost prev = *storage;
        let token = &tokens[i];
        save_code_hash(storage, token.address.clone(), token.code_hash.clone());
        proof {
            assert(tokens@.take(i as int).push(tokens@[i as int]) =~= tokens@.take(i as int + 1));
            assert forall|a: Seq<char>|
                #[trigger] storage.code_hash_of(a) == match spec_lookup_token(
                    tokens@.take(i as int + 1),
                    a,
                ) {
                    Some(h) => Some(h),
                    None => old(storage).code_hash_of(a),
                } by {
                lemma_lookup_token_push(tokens@.take(i as int), tokens@[i as int], a);
                if a == tokens@[i as int].address@ {
                } else {
                    assert(storage.code_hash_of(a) == prev.code_hash_of(a));
                }
            }
        }
        i = i + 1;
    }
    proof {
        assert(tokens@.take(n as int) =~= tokens@);
    }
}

} // verus!
