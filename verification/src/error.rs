//! The error taxonomy of the bridge core.
//!
//! Every expected failure has a structured variant; none of the verified
//! functions panic.  `error_text` renders the message that is embedded in a
//! failure acknowledgement.

use vstd::prelude::*;
use vstd::string::*;
use crate::amount::{dec_digits, u128_to_dec};

verus! {

#[derive(Clone, Debug, PartialEq, Eq)]
pub enum ContractError {
    /// A host-level error text carried through unchanged.
    Std { msg: String },
    /// A transfer request carried a zero amount.
    NoFunds,
    /// A packet amount does not fit the 64-bit wire bound.
    AmountOverflow,
    /// The requested channel has no recorded channel info.
    NoSuchChannel { id: String },
    /// The ledger cannot cover a debit: `code` 1 means no record exists for
    /// the (channel, denomination) pair, `code` 2 means the outstanding
    /// balance is smaller than the debit.
    InsufficientFunds { token: String, amount: u128, code: u8 },
    /// A voucher denomination does not have the three-segment form.
    NoForeignTokens,
    /// A voucher denomination names a port other than the packet's source.
    FromOtherPort { port: String },
    /// A voucher denomination names a channel other than the packet's source.
    FromOtherChannel { channel: String },
    /// The token reference of a voucher denomination has an unsupported scheme.
    OnlySecretTokens,
    /// A token contract address with no registered code hash.
    TokenNotRegistered { address: String },
    /// A completion callback fired while no completion was pending.
    NoPendingCompletion,
    /// A channel handshake with an unexpected version string.
    InvalidIbcVersion { version: String },
    /// A channel handshake with an unexpected ordering mode.
    OnlyOrderedChannel,
    /// A completion callback carried a correlation tag this crate never uses.
    UnknownReplyId { id: u64 },
}

/// The message text of each error, as it appears in a failure
/// acknowledgement.
pub open spec fn spec_error_text(e: ContractError) -> Seq<char> {
    match e {
        ContractError::Std { msg } => msg@,
        ContractError::NoFunds => "no funds were sent"@,
        ContractError::AmountOverflow => "amount larger than 2**64"@,
        ContractError::NoSuchChannel { id } => "no such channel: "@ + id@,
        ContractError::InsufficientFunds { token, amount, code: _ } =>
            "insufficient funds to redeem voucher: "@ + dec_digits(amount) + " "@ + token@,
        ContractError::NoForeignTokens => "only accepts tokens that originate on this chain, not native tokens of remote chain"@,
        ContractError::FromOtherPort { port } => "parsed port from denom does not match packet path: "@
            + port@,
        ContractError::FromOtherChannel { channel } => "parsed channel from denom does not match packet path: "@
            + channel@,
        ContractError::OnlySecretTokens => "only secret tokens are accepted"@,
        ContractError::TokenNotRegistered { address } => "token is not registered: "@ + address@,
        ContractError::NoPendingCompletion => "no pending completion is staged"@,
        ContractError::InvalidIbcVersion { version } => "only supports channel with ibc version ics20-1, got "@
            + version@,
        ContractError::OnlyOrderedChannel => "only supports unordered channels"@,
        ContractError::UnknownReplyId { id: _ } => "got reply with unknown id"@,
    }
}

impl ContractError {
    /// Renders the error as the text a failure acknowledgement carries.
    pub fn error_text(&self) -> (r: String)
        ensures
            r@ == spec_error_text(*self),
    {
        match self {
            ContractError::Std { msg } => msg.clone(),
            ContractError::NoFunds => String::from_str("no funds were sent"),
            ContractError::AmountOverflow => String::from_str("amount larger than 2**64"),
            ContractError::NoSuchChannel { id } => String::from_str("no such channel: ").concat(
                id.as_str(),
            ),
            ContractError::InsufficientFunds { token, amount, code: _ } => String::from_str(
                "insufficient funds to redeem voucher: ",
            ).concat(u128_to_dec(*amount).as_str()).concat(" ").concat(token.as_str()),
            ContractError::NoForeignTokens => String::from_str(
                "only accepts tokens that originate on this chain, not native tokens of remote chain",
            ),
            ContractError::FromOtherPort { port } => String::from_str(
                "parsed port from denom does not match packet path: ",
            ).concat(port.as_str()),
            ContractError::FromOtherChannel { channel } => String::from_str(
                "parsed channel from denom does not match packet path: ",
            ).concat(channel.as_str()),
            ContractError::OnlySecretTokens => String::from_str("only secret tokens are accepted"),
            ContractError::TokenNotRegistered { address } => String::from_str(
                "token is not registered: ",
            ).concat(address.as_str()),
            ContractError::NoPendingCompletion => String::from_str(
                "no pending completion is staged",
            ),
            ContractError::InvalidIbcVersion { version } => String::from_str(
                "only supports channel with ibc version ics20-1, got ",
            ).concat(version.as_str()),
            ContractError::OnlyOrderedChannel => String::from_str(
                "only supports unordered channels",
            ),
            ContractError::UnknownReplyId { id: _ } => String::from_str(
                "got reply with unknown id",
            ),
        }
    }
}

} // verus!
