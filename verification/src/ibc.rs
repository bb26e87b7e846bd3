//! The packet-lifecycle protocol engine.
//!
//! Everything here is driven by externally delivered events: an inbound
//! packet, an acknowledgement for a packet sent earlier, a timeout, or the
//! completion callback of a requested token transfer.  Each handler takes
//! the bridge state and plain values decoded by the host, mutates the
//! ledger, and returns the acknowledgement and the external transfer
//! request (if any) for the host to carry out.

use vstd::prelude::*;
use vstd::string::*;
use crate::amount::{dec_digits, spec_token_address, Snip20Coin};
use crate::error::{spec_error_text, ContractError};
use crate::state::{
    debit_applies, debit_cell, find_channel, reduce_channel_balance, undo_debit_cell,
    undo_reduce_channel_balance, BridgeStorage, ChannelInfo, Endpoint, ReplyArgs,
};

verus! {

/// Correlation tag of the external transfer requested by an inbound
/// receive; its failure is reported back through `reply`.
pub const RECEIVE_ID: u64 = 1337;

/// Correlation tag of the refund transfer requested after a failed or
/// timed-out send; its own failure is reported back through `reply`.
pub const ACK_FAILURE_ID: u64 = 0xfa17;

/// The wire payload of one transfer packet.  The amount is bounded to a
/// 64-bit magnitude even though the carrier type is wider.
#[derive(Clone, Debug, PartialEq, Eq)]
pub struct Ics20Packet {
    /// amount of tokens to transfer, limited to u64 max
    pub amount: u128,
    /// the token denomination to be transferred
    pub denom: String,
    /// the recipient address on the destination chain
    pub receiver: String,
    /// the sender address
    pub sender: String,
}

impl Ics20Packet {
    /// Builds a packet from its parts.
    pub fn new(amount: u128, denom: String, sender: &str, receiver: &str) -> (r: Ics20Packet)
        ensures
            r.amount == amount,
            r.denom@ == denom@,
            r.sender@ == sender@,
            r.receiver@ == receiver@,
    {
        Ics20Packet { denom, amount, sender: sender.to_owned(), receiver: receiver.to_owned() }
    }

    /// A packet is valid when its amount is nonzero and fits 64 bits.
    pub fn validate(&self) -> (r: Result<(), ContractError>)
        ensures
            r is Ok <==> 0 < self.amount <= u64::MAX,
            self.amount > u64::MAX ==> r == Err::<(), ContractError>(
                ContractError::AmountOverflow,
            ),
            self.amount == 0 ==> r == Err::<(), ContractError>(ContractError::NoFunds),
    {
        if self.amount > u64::MAX as u128 {
            Err(ContractError::AmountOverflow)
        } else if self.amount == 0 {
            Err(ContractError::NoFunds)
        } else {
            Ok(())
        }
    }
}

/// The acknowledgement attached to a received packet: opaque bytes on
/// success, an error text on failure.
#[derive(Clone, Debug, PartialEq, Eq)]
pub enum Ics20Ack {
    Success(Vec<u8>),
    Error(String),
}

/// The success acknowledgement: the single byte `1`.
pub fn ack_success() -> (r: Ics20Ack)
    ensures
        r matches Ics20Ack::Success(b) && b@ == seq![49u8],
{
    let mut b: Vec<u8> = Vec::new();
    b.push(49);
    Ics20Ack::Success(b)
}

/// A failure acknowledgement carrying the error text.
pub fn ack_fail(err: String) -> (r: Ics20Ack)
    ensures
        r == Ics20Ack::Error(err),
{
    Ics20Ack::Error(err)
}

/// One audit event attached to a response.
#[derive(Clone, Debug, PartialEq, Eq)]
pub struct Attribute {
    pub key: String,
    pub value: String,
}

/// Builds one audit event.
pub fn attr(key: &str, value: String) -> (r: Attribute)
    ensures
        r.key@ == key@,
        r.value == value,
{
    Attribute { key: key.to_owned(), value }
}

/// A request to move `amount` units of the token at `contract_addr` to
/// `recipient`, handed to the host for execution.  `reply_id` is the
/// correlation tag under which the host reports a failure of this transfer
/// back into `reply`.
#[derive(Clone, Debug, PartialEq, Eq)]
pub struct TransferAction {
    pub contract_addr: String,
    pub code_hash: String,
    pub recipient: String,
    pub amount: u128,
    pub reply_id: u64,
}

/// The outcome of an inbound receive: the acknowledgement to attach, the
/// transfer to request, and audit events.
#[derive(Debug)]
pub struct ReceiveResponse {
    pub ack: Ics20Ack,
    pub transfer: Option<TransferAction>,
    pub attributes: Vec<Attribute>,
}

/// The outcome of an acknowledgement or timeout handler.
#[derive(Debug)]
pub struct BasicResponse {
    pub transfer: Option<TransferAction>,
    pub attributes: Vec<Attribute>,
}

/// The outcome of a completion callback: possibly a replacement
/// acknowledgement payload that overrides the optimistic success already
/// sent.
#[derive(Debug)]
pub struct ReplyResponse {
    pub ack_override: Option<Ics20Ack>,
    pub attributes: Vec<Attribute>,
}

/// Message delivery ordering of a channel.
#[derive(Clone, Copy, Debug, PartialEq, Eq, Structural)]
pub enum ChannelOrder {
    Ordered,
    Unordered,
}

/// The handshake data of a channel being opened or connected.
#[derive(Clone, Debug, PartialEq, Eq)]
pub struct ChannelDesc {
    pub endpoint: Endpoint,
    pub counterparty_endpoint: Endpoint,
    pub order: ChannelOrder,
    pub version: String,
    pub connection_id: String,
}

/// Whether a handshake satisfies the expected version on both sides and
/// the expected (unordered) delivery mode.
pub open spec fn handshake_admissible(channel: ChannelDesc, cv: Option<String>) -> bool {
    &&& channel.version@ == "ics20-1"@
    &&& match cv {
        Some(v) => v@ == "ics20-1"@,
        None => true,
    }
    &&& channel.order == ChannelOrder::Unordered
}

/// Rejects a handshake whose version or ordering differs from what this
/// bridge speaks.
pub fn enforce_order_and_version(
    channel: &ChannelDesc,
    counterparty_version: Option<&String>,
) -> (r: Result<(), ContractError>)
    ensures
        r is Ok <==> handshake_admissible(
            *channel,
            match counterparty_version {
                Some(v) => Some(*v),
                None => None,
            },
        ),
        channel.version@ != "ics20-1"@ ==> (r matches Err(
            ContractError::InvalidIbcVersion { version: v },
        ) && v@ == channel.version@),
        channel.version@ == "ics20-1"@ && (counterparty_version matches Some(cv)
            && cv@ != "ics20-1"@) ==> (r matches Err(ContractError::InvalidIbcVersion { version: v })
            && v@ == counterparty_version->Some_0@),
        channel.version@ == "ics20-1"@ && (match counterparty_version {
            Some(cv) => cv@ == "ics20-1"@,
            None => true,
        }) && channel.order != ChannelOrder::Unordered ==> r == Err::<(), ContractError>(
            ContractError::OnlyOrderedChannel,
        ),
{
    let expected = String::from_str("ics20-1");
    if !(channel.version == expected) {
        return Err(ContractError::InvalidIbcVersion { version: channel.version.clone() });
    }
    match counterparty_version {
        Some(version) => {
            if !(*version == expected) {
                return Err(ContractError::InvalidIbcVersion { version: version.clone() });
            }
        },
        None => {},
    }
    if !(channel.order == ChannelOrder::Unordered) {
        return Err(ContractError::OnlyOrderedChannel);
    }
    Ok(())
}

/// Enforces ordering and versioning constraints when a channel is opened.
/// No state is created.
pub fn ibc_channel_open(channel: &ChannelDesc, counterparty_version: Option<&String>) -> (r: Result<
    (),
    ContractError,
>)
    ensures
        r is Ok <==> handshake_admissible(
            *channel,
            match counterparty_version {
                Some(v) => Some(*v),
                None => None,
            },
        ),
        channel.version@ != "ics20-1"@ ==> (r matches Err(
            ContractError::InvalidIbcVersion { version: v },
        ) && v@ == channel.version@),
        channel.version@ == "ics20-1"@ && (counterparty_version matches Some(cv)
            && cv@ != "ics20-1"@) ==> (r matches Err(ContractError::InvalidIbcVersion { version: v })
            && v@ == counterparty_version->Some_0@),
        channel.version@ == "ics20-1"@ && (match counterparty_version {
            Some(cv) => cv@ == "ics20-1"@,
            None => true,
        }) && channel.order != ChannelOrder::Unordered ==> r == Err::<(), ContractError>(
            ContractError::OnlyOrderedChannel,
        ),
{
    enforce_order_and_version(channel, counterparty_version)
}

/// Checks the handshake once more and records the channel's metadata.
pub fn ibc_channel_connect(
    storage: &mut BridgeStorage,
    channel: ChannelDesc,
    counterparty_version: Option<&String>,
) -> (r: Result<(), ContractError>)
    ensures
        r is Ok <==> handshake_admissible(
            channel,
            match counterparty_version {
                Some(v) => Some(*v),
                None => None,
            },
        ),
        r is Err ==> *final(storage) == *old(storage),
        r is Ok ==> find_channel(final(storage).channel_info@, channel.endpoint.channel_id@)
            == Some(
            (ChannelInfo {
                id: channel.endpoint.channel_id,
                counterparty_endpoint: channel.counterparty_endpoint,
                connection_id: channel.connection_id,
            }),
        ),
        r is Ok ==> forall|id2: Seq<char>|
            id2 != channel.endpoint.channel_id@ ==> #[trigger] find_channel(
                final(storage).channel_info@,
                id2,
            ) == find_channel(old(storage).channel_info@, id2),
        final(storage).channel_state == old(storage).channel_state,
        final(storage).code_hash == old(storage).code_hash,
        final(storage).reply_args == old(storage).reply_args,
        final(storage).config == old(storage).config,
{
    let checked = enforce_order_and_version(&channel, counterparty_version);
    match checked {
        Err(e) => Err(e),
        Ok(()) => {
            let info = ChannelInfo {
                id: channel.endpoint.channel_id,
                counterparty_endpoint: channel.counterparty_endpoint,
                connection_id: channel.connection_id,
            };
            crate::state::save_channel_info(storage, info);
            Ok(())
        },
    }
}

/// The first position of `c` in `s` at or after `from`; the length of `s`
/// when there is none.
pub open spec fn first_index_from(s: Seq<char>, c: char, from: int) -> int
    decreases s.len() - from,
{
    if from < 0 || from >= s.len() {
        s.len() as int
    } else if s[from] == c {
        from
    } else {
        first_index_from(s, c, from + 1)
    }
}

fn find_char_from(s: &str, c: char, from: usize) -> (r: usize)
    requires
        from <= s@.len(),
    ensures
        r == first_index_from(s@, c, from as int),
        from <= r <= s@.len(),
        r < s@.len() ==> s@[r as int] == c,
{
    let n = s.unicode_len();
    let mut i: usize = from;
    while i < n
        invariant
            from <= i <= n,
            n == s@.len(),
            first_index_from(s@, c, from as int) == first_index_from(s@, c, i as int),
        decreases n - i,
    {
        if s.get_char(i) == c {
            return i;
        }
        i = i + 1;
    }
    n
}

/// The outcome of reading a voucher denomination against the packet's
/// source endpoint.
pub enum VoucherParse {
    /// The local token address encoded in the denomination.
    Token(Seq<char>),
    /// Not of the three-segment `port/channel/reference` form.
    BadForm,
    /// The port segment, which differs from the source port.
    BadPort(Seq<char>),
    /// The channel segment, which differs from the source channel.
    BadChannel(Seq<char>),
    /// The token reference does not carry the supported scheme prefix.
    BadScheme,
}

/// Reads a voucher denomination: three `/`-separated segments whose first
/// two must equal the remote endpoint, and whose third must carry the
/// `cw20:secret1` prefix; the token address is the third segment with the
/// 5-character scheme prefix stripped.
pub open spec fn spec_parse_voucher(denom: Seq<char>, port: Seq<char>, channel: Seq<char>)
    -> VoucherParse {
    let i = first_index_from(denom, '/', 0);
    let j = first_index_from(denom, '/', i + 1);
    if i == denom.len() || j == denom.len() {
        VoucherParse::BadForm
    } else if denom.subrange(0, i) != port {
        VoucherParse::BadPort(denom.subrange(0, i))
    } else if denom.subrange(i + 1, j) != channel {
        VoucherParse::BadChannel(denom.subrange(i + 1, j))
    } else if !(denom.len() - (j + 1) >= 12 && denom.subrange(j + 1, j + 13) == "cw20:secret1"@) {
        VoucherParse::BadScheme
    } else {
        VoucherParse::Token(denom.skip(j + 6))
    }
}

/// Returns the local token address when the denomination is a voucher from
/// the expected endpoint; a structured error otherwise.  Total over all
/// inputs.
pub fn parse_voucher_denom(voucher_denom: &String, remote_endpoint: &Endpoint) -> (r: Result<
    String,
    ContractError,
>)
    ensures
        r is Ok <==> spec_parse_voucher(
            voucher_denom@,
            remote_endpoint.port_id@,
            remote_endpoint.channel_id@,
        ) is Token,
        r matches Ok(t) ==> spec_parse_voucher(
            voucher_denom@,
            remote_endpoint.port_id@,
            remote_endpoint.channel_id@,
        ) == VoucherParse::Token(t@),
        spec_parse_voucher(voucher_denom@, remote_endpoint.port_id@, remote_endpoint.channel_id@)
            is BadForm ==> r == Err::<String, ContractError>(ContractError::NoForeignTokens),
        spec_parse_voucher(voucher_denom@, remote_endpoint.port_id@, remote_endpoint.channel_id@)
            matches VoucherParse::BadPort(p) ==> (r matches Err(
            ContractError::FromOtherPort { port },
        ) && port@ == p),
        spec_parse_voucher(voucher_denom@, remote_endpoint.port_id@, remote_endpoint.channel_id@)
            matches VoucherParse::BadChannel(c) ==> (r matches Err(
            ContractError::FromOtherChannel { channel },
        ) && channel@ == c),
        spec_parse_voucher(voucher_denom@, remote_endpoint.port_id@, remote_endpoint.channel_id@)
            is BadScheme ==> r == Err::<String, ContractError>(ContractError::OnlySecretTokens),
{
    let s = voucher_denom.as_str();
    let n = s.unicode_len();
    let i = find_char_from(s, '/', 0);
    if i == n {
        return Err(ContractError::NoForeignTokens);
    }
    let j = find_char_from(s, '/', i + 1);
    if j == n {
        return Err(ContractError::NoForeignTokens);
    }
    let seg0 = s.substring_char(0, i).to_owned();
    if !(seg0 == remote_endpoint.port_id) {
        return Err(ContractError::FromOtherPort { port: seg0 });
    }
    let seg1 = s.substring_char(i + 1, j).to_owned();
    if !(seg1 == remote_endpoint.channel_id) {
        return Err(ContractError::FromOtherChannel { channel: seg1 });
    }
    if n < 13 || j > n - 13 {
        proof {
            assert(voucher_denom@.len() - (j + 1) < 12);
        }
        return Err(ContractError::OnlySecretTokens);
    }
    let prefix = s.substring_char(j + 1, j + 13).to_owned();
    if !(prefix == String::from_str("cw20:secret1")) {
        return Err(ContractError::OnlySecretTokens);
    }
    let token = s.substring_char(j + 6, n).to_owned();
    proof {
        assert(voucher_denom@.subrange(j + 6, voucher_denom@.len() as int) =~= voucher_denom@.skip(
            j + 6,
        ));
    }
    Ok(token)
}


/// Whether an inbound packet passes every gate of the receive path: a
/// valid amount, a voucher denomination from the expected endpoint, a
/// registered token, and an outstanding balance that covers it.
pub open spec fn receive_admissible(
    s: BridgeStorage,
    msg: Ics20Packet,
    dest_channel: Seq<char>,
    src: Endpoint,
) -> bool {
    let parsed = spec_parse_voucher(msg.denom@, src.port_id@, src.channel_id@);
    &&& 0 < msg.amount <= u64::MAX
    &&& parsed is Token
    &&& s.code_hash_of(parsed->Token_0) is Some
    &&& debit_applies(s.balance_cell(dest_channel, parsed->Token_0), msg.amount as int)
}

/// The error text an inadmissible receive acknowledges with, by the first
/// gate that fails.
pub open spec fn spec_receive_error_text(
    s: BridgeStorage,
    msg: Ics20Packet,
    dest_channel: Seq<char>,
    src: Endpoint,
) -> Seq<char> {
    if msg.amount > u64::MAX {
        "amount larger than 2**64"@
    } else if msg.amount == 0 {
        "no funds were sent"@
    } else {
        match spec_parse_voucher(msg.denom@, src.port_id@, src.channel_id@) {
            VoucherParse::BadForm => "only accepts tokens that originate on this chain, not native tokens of remote chain"@,
            VoucherParse::BadPort(p) => "parsed port from denom does not match packet path: "@ + p,
            VoucherParse::BadChannel(c) => "parsed channel from denom does not match packet path: "@
                + c,
            VoucherParse::BadScheme => "only secret tokens are accepted"@,
            VoucherParse::Token(t) => if s.code_hash_of(t) is None {
                "token is not registered: "@ + t
            } else {
                "insufficient funds to redeem voucher: "@ + dec_digits(msg.amount) + " "@ + t
            },
        }
    }
}

/// The receive path proper: validates the packet, resolves the voucher to
/// a local token, debits the channel's outstanding balance, stages the
/// pending completion, and asks for the external transfer.  Any error
/// leaves the state exactly as it was.
pub fn do_ibc_packet_receive(
    storage: &mut BridgeStorage,
    msg: &Ics20Packet,
    dest_channel: &String,
    src: &Endpoint,
) -> (r: Result<ReceiveResponse, ContractError>)
    ensures
        r is Ok <==> receive_admissible(*old(storage), *msg, dest_channel@, *src),
        r is Err ==> *final(storage) == *old(storage),
        r matches Err(e) ==> spec_error_text(e) == spec_receive_error_text(
            *old(storage),
            *msg,
            dest_channel@,
            *src,
        ),
        r is Ok ==> ({
            let token = spec_parse_voucher(msg.denom@, src.port_id@, src.channel_id@)->Token_0;
            &&& final(storage).balance_cell(dest_channel@, token) == debit_cell(
                old(storage).balance_cell(dest_channel@, token),
                msg.amount as int,
            )
            &&& forall|c2: Seq<char>, d2: Seq<char>|
                !(c2 == dest_channel@ && d2 == token) ==> #[trigger] final(storage).balance_cell(
                    c2,
                    d2,
                ) == old(storage).balance_cell(c2, d2)
            &&& final(storage).pending() == Some((dest_channel@, token, msg.amount))
            &&& final(storage).channel_info == old(storage).channel_info
            &&& final(storage).code_hash == old(storage).code_hash
            &&& final(storage).config == old(storage).config
        }),
        r matches Ok(resp) ==> ({
            let token = spec_parse_voucher(msg.denom@, src.port_id@, src.channel_id@)->Token_0;
            &&& resp.ack matches Ics20Ack::Success(b) && b@ == seq![49u8]
            &&& resp.transfer matches Some(t) && t.contract_addr@ == token && old(
                storage,
            ).code_hash_of(token) == Some(t.code_hash@) && t.recipient@ == msg.receiver@
                && t.amount == msg.amount && t.reply_id == RECEIVE_ID
            &&& resp.attributes@.len() == 6
            &&& resp.attributes@[0].key@ == "action"@ && resp.attributes@[0].value@ == "receive"@
            &&& resp.attributes@[1].key@ == "sender"@ && resp.attributes@[1].value@ == msg.sender@
            &&& resp.attributes@[2].key@ == "receiver"@ && resp.attributes@[2].value@
                == msg.receiver@
            &&& resp.attributes@[3].key@ == "denom"@ && resp.attributes@[3].value@ == token
            &&& resp.attributes@[4].key@ == "amount"@ && resp.attributes@[4].value@ == dec_digits(
                msg.amount,
            )
            &&& resp.attributes@[5].key@ == "success"@ && resp.attributes@[5].value@ == "true"@
        }),
{
    match msg.validate() {
        Err(e) => {
            return Err(e);
        },
        Ok(()) => {},
    }
    let token_address = match parse_voucher_denom(&msg.denom, src) {
        Err(e) => {
            return Err(e);
        },
        Ok(t) => t,
    };
    let code_hash = match storage.load_code_hash(&token_address) {
        None => {
            return Err(ContractError::TokenNotRegistered { address: token_address });
        },
        Some(h) => h,
    };
    match reduce_channel_balance(storage, dest_channel, &token_address, msg.amount) {
        Err(e) => {
            return Err(e);
        },
        Ok(()) => {},
    }
    let ghost mid = *storage;
    storage.reply_args = Some(
        ReplyArgs {
            channel: dest_channel.clone(),
            denom: token_address.clone(),
            amount: msg.amount,
        },
    );
    proof {
        assert forall|c2: Seq<char>, d2: Seq<char>|
            !(c2 == dest_channel@ && d2 == token_address@) implies #[trigger] storage.balance_cell(
            c2,
            d2,
        ) == old(storage).balance_cell(c2, d2) by {
            assert(mid.balance_cell(c2, d2) == old(storage).balance_cell(c2, d2));
            assert(storage.balance_cell(c2, d2) == mid.balance_cell(c2, d2));
        }
    }
    let transfer = TransferAction {
        contract_addr: token_address.clone(),
        code_hash,
        recipient: msg.receiver.clone(),
        amount: msg.amount,
        reply_id: RECEIVE_ID,
    };
    let mut attributes: Vec<Attribute> = Vec::new();
    attributes.push(attr("action", String::from_str("receive")));
    attributes.push(attr("sender", msg.sender.clone()));
    attributes.push(attr("receiver", msg.receiver.clone()));
    attributes.push(attr("denom", token_address));
    attributes.push(attr("amount", crate::amount::u128_to_dec(msg.amount)));
    attributes.push(attr("success", String::from_str("true")));
    Ok(ReceiveResponse { ack: ack_success(), transfer: Some(transfer), attributes })
}

/// The receive handler: never faults.  A packet that could not be decoded
/// (`packet` is the host's error text) or fails any receive gate is
/// answered with a failure acknowledgement and no state change.
pub fn ibc_packet_receive(
    storage: &mut BridgeStorage,
    packet: Result<Ics20Packet, String>,
    dest_channel: &String,
    src: &Endpoint,
) -> (r: ReceiveResponse)
    ensures
        packet matches Err(e) ==> *final(storage) == *old(storage) && r.ack == Ics20Ack::Error(e)
            && r.transfer is None && r.attributes@.len() == 3 && r.attributes@[0].key@
            == "action"@ && r.attributes@[0].value@ == "receive"@ && r.attributes@[1].key@
            == "success"@ && r.attributes@[1].value@ == "false"@ && r.attributes@[2].key@
            == "error"@ && r.attributes@[2].value@ == e@,
        packet matches Ok(msg) ==> (!receive_admissible(*old(storage), msg, dest_channel@, *src)
            ==> *final(storage) == *old(storage) && (r.ack matches Ics20Ack::Error(t) && t@
            == spec_receive_error_text(*old(storage), msg, dest_channel@, *src)) && r.transfer
            is None && r.attributes@.len() == 3 && r.attributes@[0].key@ == "action"@
            && r.attributes@[0].value@ == "receive"@ && r.attributes@[1].key@ == "success"@
            && r.attributes@[1].value@ == "false"@ && r.attributes@[2].key@ == "error"@
            && r.attributes@[2].value@ == spec_receive_error_text(
            *old(storage),
            msg,
            dest_channel@,
            *src,
        )),
        packet matches Ok(msg) ==> (receive_admissible(*old(storage), msg, dest_channel@, *src)
            ==> ({
            let token = spec_parse_voucher(msg.denom@, src.port_id@, src.channel_id@)->Token_0;
            &&& final(storage).balance_cell(dest_channel@, token) == debit_cell(
                old(storage).balance_cell(dest_channel@, token),
                msg.amount as int,
            )
            &&& forall|c2: Seq<char>, d2: Seq<char>|
                !(c2 == dest_channel@ && d2 == token) ==> #[trigger] final(storage).balance_cell(
                    c2,
                    d2,
                ) == old(storage).balance_cell(c2, d2)
            &&& final(storage).pending() == Some((dest_channel@, token, msg.amount))
            &&& final(storage).channel_info == old(storage).channel_info
            &&& final(storage).code_hash == old(storage).code_hash
            &&& final(storage).config == old(storage).config
            &&& r.ack matches Ics20Ack::Success(b) && b@ == seq![49u8]
            &&& r.transfer matches Some(t) && t.contract_addr@ == token && old(
                storage,
            ).code_hash_of(token) == Some(t.code_hash@) && t.recipient@ == msg.receiver@
                && t.amount == msg.amount && t.reply_id == RECEIVE_ID
            &&& r.attributes@.len() == 6
            &&& r.attributes@[0].key@ == "action"@ && r.attributes@[0].value@ == "receive"@
            &&& r.attributes@[1].key@ == "sender"@ && r.attributes@[1].value@ == msg.sender@
            &&& r.attributes@[2].key@ == "receiver"@ && r.attributes@[2].value@ == msg.receiver@
            &&& r.attributes@[3].key@ == "denom"@ && r.attributes@[3].value@ == token
            &&& r.attributes@[4].key@ == "amount"@ && r.attributes@[4].value@ == dec_digits(
                msg.amount,
            )
            &&& r.attributes@[5].key@ == "success"@ && r.attributes@[5].value@ == "true"@
        })),
{
    match packet {
        Err(e) => {
            let mut attributes: Vec<Attribute> = Vec::new();
            attributes.push(attr("action", String::from_str("receive")));
            attributes.push(attr("success", String::from_str("false")));
            attributes.push(attr("error", e.clone()));
            ReceiveResponse { ack: ack_fail(e), transfer: None, attributes }
        },
        Ok(msg) => match do_ibc_packet_receive(storage, &msg, dest_channel, src) {
            Ok(resp) => resp,
            Err(err) => {
                let text = err.error_text();
                let mut attributes: Vec<Attribute> = Vec::new();
                attributes.push(attr("action", String::from_str("receive")));
                attributes.push(attr("success", String::from_str("false")));
                attributes.push(attr("error", text.clone()));
                ReceiveResponse { ack: ack_fail(text), transfer: None, attributes }
            },
        },
    }
}

/// A confirmed send: the optimistic credit stands; only audit events are
/// emitted.
pub fn on_packet_success(msg: &Ics20Packet) -> (r: BasicResponse)
    ensures
        r.transfer is None,
        r.attributes@.len() == 6,
        r.attributes@[0].key@ == "action"@ && r.attributes@[0].value@ == "acknowledge"@,
        r.attributes@[1].key@ == "sender"@ && r.attributes@[1].value@ == msg.sender@,
        r.attributes@[2].key@ == "receiver"@ && r.attributes@[2].value@ == msg.receiver@,
        r.attributes@[3].key@ == "denom"@ && r.attributes@[3].value@ == msg.denom@,
        r.attributes@[4].key@ == "amount"@ && r.attributes@[4].value@ == dec_digits(msg.amount),
        r.attributes@[5].key@ == "success"@ && r.attributes@[5].value@ == "true"@,
{
    let mut attributes: Vec<Attribute> = Vec::new();
    attributes.push(attr("action", String::from_str("acknowledge")));
    attributes.push(attr("sender", msg.sender.clone()));
    attributes.push(attr("receiver", msg.receiver.clone()));
    attributes.push(attr("denom", msg.denom.clone()));
    attributes.push(attr("amount", crate::amount::u128_to_dec(msg.amount)));
    attributes.push(attr("success", String::from_str("true")));
    BasicResponse { transfer: None, attributes }
}

/// The shared failure compensation for a packet this side sent: debits the
/// optimistic credit back out of the ledger and asks for a refund transfer
/// to the original sender.  The debit is checked first, so an uncoverable
/// compensation reports the ledger error even when the token is also
/// unregistered.  An error leaves the state exactly as it was.
pub fn on_packet_failure(
    storage: &mut BridgeStorage,
    msg: &Ics20Packet,
    src_channel: &String,
    err: String,
) -> (r: Result<BasicResponse, ContractError>)
    ensures
        r is Ok <==> old(storage).code_hash_of(spec_token_address(msg.denom@)) is Some
            && debit_applies(
            old(storage).balance_cell(src_channel@, msg.denom@),
            msg.amount as int,
        ),
        r is Err ==> *final(storage) == *old(storage),
        !old(storage).balance_cell(src_channel@, msg.denom@).present ==> (r matches Err(
            ContractError::InsufficientFunds { token: t, amount: a, code: c },
        ) && t@ == msg.denom@ && a == msg.amount && c == 1),
        old(storage).balance_cell(src_channel@, msg.denom@).present && old(storage).balance_cell(
            src_channel@,
            msg.denom@,
        ).outstanding < msg.amount ==> (r matches Err(
            ContractError::InsufficientFunds { token: t, amount: a, code: c },
        ) && t@ == msg.denom@ && a == msg.amount && c == 2),
        debit_applies(old(storage).balance_cell(src_channel@, msg.denom@), msg.amount as int)
            && old(storage).code_hash_of(spec_token_address(msg.denom@)) is None ==> (r matches Err(
            ContractError::TokenNotRegistered { address },
        ) && address@ == spec_token_address(msg.denom@)),
        r is Ok ==> ({
            &&& final(storage).balance_cell(src_channel@, msg.denom@) == debit_cell(
                old(storage).balance_cell(src_channel@, msg.denom@),
                msg.amount as int,
            )
            &&& forall|c2: Seq<char>, d2: Seq<char>|
                !(c2 == src_channel@ && d2 == msg.denom@) ==> #[trigger] final(storage).balance_cell(c2, d2) == old(storage).balance_cell(c2, d2)
            &&& final(storage).channel_info == old(storage).channel_info
            &&& final(storage).code_hash == old(storage).code_hash
            &&& final(storage).reply_args == old(storage).reply_args
            &&& final(storage).config == old(storage).config
        }),
        r matches Ok(resp) ==> ({
            &&& resp.transfer matches Some(t) && t.contract_addr@ == spec_token_address(msg.denom@)
                && old(storage).code_hash_of(spec_token_address(msg.denom@)) == Some(t.code_hash@)
                && t.recipient@ == msg.sender@ && t.amount == msg.amount && t.reply_id
                == ACK_FAILURE_ID
            &&& resp.attributes@.len() == 7
            &&& resp.attributes@[0].key@ == "action"@ && resp.attributes@[0].value@
                == "acknowledge"@
            &&& resp.attributes@[1].key@ == "sender"@ && resp.attributes@[1].value@ == msg.sender@
            &&& resp.attributes@[2].key@ == "receiver"@ && resp.attributes@[2].value@
                == msg.receiver@
            &&& resp.attributes@[3].key@ == "denom"@ && resp.attributes@[3].value@ == msg.denom@
            &&& resp.attributes@[4].key@ == "amount"@ && resp.attributes@[4].value@ == dec_digits(
                msg.amount,
            )
            &&& resp.attributes@[5].key@ == "success"@ && resp.attributes@[5].value@ == "false"@
            &&& resp.attributes@[6].key@ == "error"@ && resp.attributes@[6].value@ == err@
        }),
{
    match storage.channel_balance(src_channel, &msg.denom) {
        None => {
            return Err(
                ContractError::InsufficientFunds {
                    token: msg.denom.clone(),
                    amount: msg.amount,
                    code: 1,
                },
            );
        },
        Some(st) => {
            if st.outstanding < msg.amount {
                return Err(
                    ContractError::InsufficientFunds {
                        token: msg.denom.clone(),
                        amount: msg.amount,
                        code: 2,
                    },
                );
            }
        },
    }
    let to_send = Snip20Coin::from_parts(msg.denom.clone(), msg.amount);
    let code_hash = match storage.load_code_hash(&to_send.address) {
        None => {
            return Err(ContractError::TokenNotRegistered { address: to_send.address });
        },
        Some(h) => h,
    };
    match reduce_channel_balance(storage, src_channel, &msg.denom, msg.amount) {
        Err(e) => {
            return Err(e);
        },
        Ok(()) => {},
    }
    let transfer = TransferAction {
        contract_addr: to_send.address,
        code_hash,
        recipient: msg.sender.clone(),
        amount: to_send.amount,
        reply_id: ACK_FAILURE_ID,
    };
    let mut attributes: Vec<Attribute> = Vec::new();
    attributes.push(attr("action", String::from_str("acknowledge")));
    attributes.push(attr("sender", msg.sender.clone()));
    attributes.push(attr("receiver", msg.receiver.clone()));
    attributes.push(attr("denom", msg.denom.clone()));
    attributes.push(attr("amount", crate::amount::u128_to_dec(msg.amount)));
    attributes.push(attr("success", String::from_str("false")));
    attributes.push(attr("error", err));
    Ok(BasicResponse { transfer: Some(transfer), attributes })
}

/// Handles the acknowledgement for a packet this side sent earlier: a
/// success confirms the optimistic credit; an error compensates it exactly
/// as a timeout would.
pub fn ibc_packet_ack(
    storage: &mut BridgeStorage,
    ack: Ics20Ack,
    msg: &Ics20Packet,
    src_channel: &String,
) -> (r: Result<BasicResponse, ContractError>)
    ensures
        ack matches Ics20Ack::Success(_) ==> r is Ok && *final(storage) == *old(storage) && (
        r matches Ok(resp) && resp.transfer is None && resp.attributes@.len() == 6
            && resp.attributes@[0].key@ == "action"@ && resp.attributes@[0].value@
            == "acknowledge"@ && resp.attributes@[1].key@ == "sender"@
            && resp.attributes@[1].value@ == msg.sender@ && resp.attributes@[2].key@
            == "receiver"@ && resp.attributes@[2].value@ == msg.receiver@
            && resp.attributes@[3].key@ == "denom"@ && resp.attributes@[3].value@ == msg.denom@
            && resp.attributes@[4].key@ == "amount"@ && resp.attributes@[4].value@ == dec_digits(
            msg.amount,
        ) && resp.attributes@[5].key@ == "success"@ && resp.attributes@[5].value@ == "true"@),
        ack matches Ics20Ack::Error(e) ==> ({
            &&& r is Ok <==> old(storage).code_hash_of(spec_token_address(msg.denom@)) is Some
                && debit_applies(
                old(storage).balance_cell(src_channel@, msg.denom@),
                msg.amount as int,
            )
            &&& r is Err ==> *final(storage) == *old(storage)
            &&& !old(storage).balance_cell(src_channel@, msg.denom@).present ==> (r matches Err(
                ContractError::InsufficientFunds { token: t, amount: a, code: c },
            ) && t@ == msg.denom@ && a == msg.amount && c == 1)
            &&& old(storage).balance_cell(src_channel@, msg.denom@).present && old(
                storage,
            ).balance_cell(src_channel@, msg.denom@).outstanding < msg.amount ==> (r matches Err(
                ContractError::InsufficientFunds { token: t, amount: a, code: c },
            ) && t@ == msg.denom@ && a == msg.amount && c == 2)
            &&& debit_applies(
                old(storage).balance_cell(src_channel@, msg.denom@),
                msg.amount as int,
            ) && old(storage).code_hash_of(spec_token_address(msg.denom@)) is None ==> (
            r matches Err(ContractError::TokenNotRegistered { address }) && address@
                == spec_token_address(msg.denom@))
            &&& r is Ok ==> final(storage).balance_cell(src_channel@, msg.denom@) == debit_cell(
                old(storage).balance_cell(src_channel@, msg.denom@),
                msg.amount as int,
            ) && final(storage).channel_info == old(storage).channel_info && final(storage).code_hash == old(storage).code_hash && final(storage).reply_args == old(
                storage,
            ).reply_args && final(storage).config == old(storage).config
            &&& r is Ok ==> forall|c2: Seq<char>, d2: Seq<char>|
                !(c2 == src_channel@ && d2 == msg.denom@) ==> #[trigger] final(storage).balance_cell(c2, d2) == old(storage).balance_cell(c2, d2)
            &&& r matches Ok(resp) ==> (resp.transfer matches Some(t) && t.contract_addr@
                == spec_token_address(msg.denom@) && old(storage).code_hash_of(
                spec_token_address(msg.denom@),
            ) == Some(t.code_hash@) && t.recipient@ == msg.sender@ && t.amount == msg.amount
                && t.reply_id == ACK_FAILURE_ID) && (resp.attributes@.len() == 7
                && resp.attributes@[0].key@ == "action"@ && resp.attributes@[0].value@
                == "acknowledge"@ && resp.attributes@[1].key@ == "sender"@
                && resp.attributes@[1].value@ == msg.sender@ && resp.attributes@[2].key@
                == "receiver"@ && resp.attributes@[2].value@ == msg.receiver@
                && resp.attributes@[3].key@ == "denom"@ && resp.attributes@[3].value@
                == msg.denom@ && resp.attributes@[4].key@ == "amount"@
                && resp.attributes@[4].value@ == dec_digits(msg.amount)
                && resp.attributes@[5].key@ == "success"@ && resp.attributes@[5].value@
                == "false"@ && resp.attributes@[6].key@ == "error"@
                && resp.attributes@[6].value@ == e@)
        }),
{
    match ack {
        Ics20Ack::Success(_) => Ok(on_packet_success(msg)),
        Ics20Ack::Error(e) => on_packet_failure(storage, msg, src_channel, e),
    }
}

/// A timeout for a packet this side sent earlier: compensated exactly like
/// an error acknowledgement, with reason `timeout`.
pub fn ibc_packet_timeout(
    storage: &mut BridgeStorage,
    msg: &Ics20Packet,
    src_channel: &String,
) -> (r: Result<BasicResponse, ContractError>)
    ensures
        r is Ok <==> old(storage).code_hash_of(spec_token_address(msg.denom@)) is Some
            && debit_applies(
            old(storage).balance_cell(src_channel@, msg.denom@),
            msg.amount as int,
        ),
        r is Err ==> *final(storage) == *old(storage),
        r is Ok ==> final(storage).balance_cell(src_channel@, msg.denom@) == debit_cell(
            old(storage).balance_cell(src_channel@, msg.denom@),
            msg.amount as int,
        ) && final(storage).channel_info == old(storage).channel_info && final(storage).code_hash
            == old(storage).code_hash && final(storage).reply_args == old(storage).reply_args
            && final(storage).config == old(storage).config,
        r is Ok ==> forall|c2: Seq<char>, d2: Seq<char>|
            !(c2 == src_channel@ && d2 == msg.denom@) ==> #[trigger] final(storage).balance_cell(
                c2,
                d2,
            ) == old(storage).balance_cell(c2, d2),
        !old(storage).balance_cell(src_channel@, msg.denom@).present ==> (r matches Err(
            ContractError::InsufficientFunds { token: t, amount: a, code: c },
        ) && t@ == msg.denom@ && a == msg.amount && c == 1),
        old(storage).balance_cell(src_channel@, msg.denom@).present && old(storage).balance_cell(
            src_channel@,
            msg.denom@,
        ).outstanding < msg.amount ==> (r matches Err(
            ContractError::InsufficientFunds { token: t, amount: a, code: c },
        ) && t@ == msg.denom@ && a == msg.amount && c == 2),
        debit_applies(old(storage).balance_cell(src_channel@, msg.denom@), msg.amount as int)
            && old(storage).code_hash_of(spec_token_address(msg.denom@)) is None ==> (r matches Err(
            ContractError::TokenNotRegistered { address },
        ) && address@ == spec_token_address(msg.denom@)),
        r matches Ok(resp) ==> (resp.transfer matches Some(t) && t.contract_addr@
            == spec_token_address(msg.denom@) && old(storage).code_hash_of(
            spec_token_address(msg.denom@),
        ) == Some(t.code_hash@) && t.recipient@ == msg.sender@ && t.amount == msg.amount
            && t.reply_id == ACK_FAILURE_ID),
        r matches Ok(resp) ==> (resp.attributes@.len() == 7 && resp.attributes@[0].key@
            == "action"@ && resp.attributes@[0].value@ == "acknowledge"@
            && resp.attributes@[1].key@ == "sender"@ && resp.attributes@[1].value@ == msg.sender@
            && resp.attributes@[2].key@ == "receiver"@ && resp.attributes@[2].value@
            == msg.receiver@ && resp.attributes@[3].key@ == "denom"@
            && resp.attributes@[3].value@ == msg.denom@ && resp.attributes@[4].key@ == "amount"@
            && resp.attributes@[4].value@ == dec_digits(msg.amount) && resp.attributes@[5].key@
            == "success"@ && resp.attributes@[5].value@ == "false"@ && resp.attributes@[6].key@
            == "error"@ && resp.attributes@[6].value@ == "timeout"@),
{
    on_packet_failure(storage, msg, src_channel, String::from_str("timeout"))
}

/// The completion outcome the host reports for a transfer it was asked to
/// carry out.
#[derive(Clone, Debug, PartialEq, Eq)]
pub enum SubMsgOutcome {
    Completed,
    Failed(String),
}

/// The completion callback.  A failed receive-side transfer undoes the
/// receive's debit using the staged pending completion and replaces the
/// optimistic success acknowledgement with a failure carrying the error
/// text; a failed refund transfer can only surface its error the same way.
pub fn reply(storage: &mut BridgeStorage, reply_id: u64, result: SubMsgOutcome) -> (r: Result<
    ReplyResponse,
    ContractError,
>)
    requires
        reply_id == RECEIVE_ID && result is Failed ==> (old(storage).pending() matches Some(p)
            ==> old(storage).balance_cell(p.0, p.1).outstanding + p.2 <= u128::MAX),
    ensures
        reply_id != RECEIVE_ID && reply_id != ACK_FAILURE_ID ==> r == Err::<
            ReplyResponse,
            ContractError,
        >(ContractError::UnknownReplyId { id: reply_id }),
        r is Err ==> *final(storage) == *old(storage),
        reply_id == RECEIVE_ID && result is Completed ==> r is Ok && *final(storage) == *old(
            storage,
        ) && (r matches Ok(resp) && resp.ack_override is None && resp.attributes@.len() == 0),
        reply_id == RECEIVE_ID && result is Failed && old(storage).pending() is None ==> r
            == Err::<ReplyResponse, ContractError>(ContractError::NoPendingCompletion),
        reply_id == RECEIVE_ID ==> (result matches SubMsgOutcome::Failed(e) ==> (old(
            storage,
        ).pending() matches Some(p) ==> ({
            &&& r is Ok
            &&& final(storage).balance_cell(p.0, p.1) == undo_debit_cell(
                old(storage).balance_cell(p.0, p.1),
                p.2 as int,
            )
            &&& forall|c2: Seq<char>, d2: Seq<char>|
                !(c2 == p.0 && d2 == p.1) ==> #[trigger] final(storage).balance_cell(c2, d2)
                    == old(storage).balance_cell(c2, d2)
            &&& final(storage).channel_info == old(storage).channel_info
            &&& final(storage).code_hash == old(storage).code_hash
            &&& final(storage).reply_args == old(storage).reply_args
            &&& final(storage).config == old(storage).config
            &&& r matches Ok(resp) && resp.ack_override == Some(Ics20Ack::Error(e))
                && resp.attributes@.len() == 1 && resp.attributes@[0].key@ == "ack_error"@
                && resp.attributes@[0].value@ == e@
        }))),
        reply_id == ACK_FAILURE_ID && result is Completed ==> r is Ok && *final(storage) == *old(
            storage,
        ) && (r matches Ok(resp) && resp.ack_override is None && resp.attributes@.len() == 0),
        reply_id == ACK_FAILURE_ID ==> (result matches SubMsgOutcome::Failed(e) ==> r is Ok
            && *final(storage) == *old(storage) && (r matches Ok(resp) && resp.ack_override
            == Some(Ics20Ack::Error(e)) && resp.attributes@.len() == 0)),
{
    if reply_id == RECEIVE_ID {
        match result {
            SubMsgOutcome::Completed => Ok(
                ReplyResponse { ack_override: None, attributes: Vec::new() },
            ),
            SubMsgOutcome::Failed(err) => {
                let (channel, denom, amount) = match &storage.reply_args {
                    None => {
                        return Err(ContractError::NoPendingCompletion);
                    },
                    Some(a) => (a.channel.clone(), a.denom.clone(), a.amount),
                };
                match undo_reduce_channel_balance(storage, &channel, &denom, amount) {
                    Err(e) => {
                        return Err(e);
                    },
                    Ok(()) => {},
                }
                let mut attributes: Vec<Attribute> = Vec::new();
                attributes.push(attr("ack_error", err.clone()));
                Ok(ReplyResponse { ack_override: Some(ack_fail(err)), attributes })
            },
        }
    } else if reply_id == ACK_FAILURE_ID {
        match result {
            SubMsgOutcome::Completed => Ok(
                ReplyResponse { ack_override: None, attributes: Vec::new() },
            ),
            SubMsgOutcome::Failed(err) => Ok(
                ReplyResponse {
                    ack_override: Some(ack_fail(err)),
                    attributes: Vec::new(),
                },
            ),
        }
    } else {
        Err(ContractError::UnknownReplyId { id: reply_id })
    }
}

} // verus!
