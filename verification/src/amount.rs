//! Token amounts and the coin type used on the send and refund paths.
//!
//! A locally originated token is addressed by a contract address; on the
//! wire its denomination is the address behind the `cw20:` scheme prefix.

use vstd::prelude::*;
use vstd::string::*;

verus! {

/// The decimal digits of `n`, most significant first.
pub open spec fn dec_digits(n: u128) -> Seq<char>
    decreases n,
{
    if n < 10 {
        seq![digit_char(n)]
    } else {
        dec_digits(n / 10) + seq![digit_char(n % 10)]
    }
}

/// The character for one decimal digit.
pub open spec fn digit_char(d: u128) -> char {
    if d == 0 {
        '0'
    } else if d == 1 {
        '1'
    } else if d == 2 {
        '2'
    } else if d == 3 {
        '3'
    } else if d == 4 {
        '4'
    } else if d == 5 {
        '5'
    } else if d == 6 {
        '6'
    } else if d == 7 {
        '7'
    } else if d == 8 {
        '8'
    } else {
        '9'
    }
}

fn digit_to_str(d: u128) -> (r: &'static str)
    requires
        d < 10,
    ensures
        r@ == seq![digit_char(d)],
{
    proof {
        reveal_strlit("0");
        reveal_strlit("1");
        reveal_strlit("2");
        reveal_strlit("3");
        reveal_strlit("4");
        reveal_strlit("5");
        reveal_strlit("6");
        reveal_strlit("7");
        reveal_strlit("8");
        reveal_strlit("9");
    }
    if d == 0 {
        "0"
    } else if d == 1 {
        "1"
    } else if d == 2 {
        "2"
    } else if d == 3 {
        "3"
    } else if d == 4 {
        "4"
    } else if d == 5 {
        "5"
    } else if d == 6 {
        "6"
    } else if d == 7 {
        "7"
    } else if d == 8 {
        "8"
    } else {
        "9"
    }
}

/// Renders `n` in base 10, as the wire format and audit events expect.
pub fn u128_to_dec(n: u128) -> (s: String)
    ensures
        s@ == dec_digits(n),
    decreases n,
{
    if n < 10 {
        String::from_str(digit_to_str(n))
    } else {
        let prefix = u128_to_dec(n / 10);
        prefix.concat(digit_to_str(n % 10))
    }
}

/// A quantity of one locally registered token, identified by the token
/// contract's address.
pub struct Snip20Coin {
    pub address: String,
    pub amount: u128,
}

/// The denomination string for the token at `address`: the address behind
/// the `cw20:` scheme prefix.
pub open spec fn spec_denom_of(address: Seq<char>) -> Seq<char> {
    "cw20:"@ + address
}

/// The token address encoded in a denomination: the denomination with a
/// leading `cw20:` stripped, or the denomination itself when the prefix is
/// absent.
pub open spec fn spec_token_address(denom: Seq<char>) -> Seq<char> {
    if denom.len() >= 5 && denom.subrange(0, 5) == "cw20:"@ {
        denom.skip(5)
    } else {
        denom
    }
}

impl Snip20Coin {
    /// Reads a coin back out of a denomination string: the address is the
    /// denomination with a leading `cw20:` stripped, or the denomination
    /// itself when the prefix is absent.
    pub fn from_parts(denom: String, amount: u128) -> (r: Snip20Coin)
        ensures
            r.amount == amount,
            r.address@ == spec_token_address(denom@),
    {
        let len = denom.as_str().unicode_len();
        if len >= 5 {
            let head = denom.as_str().substring_char(0, 5).to_owned();
            if head == String::from_str("cw20:") {
                let address = denom.as_str().substring_char(5, len).to_owned();
                proof {
                    assert(denom@.subrange(5, denom@.len() as int) =~= denom@.skip(5));
                }
                return Snip20Coin { address, amount };
            }
        }
        Snip20Coin { address: denom, amount }
    }

    /// The wire denomination of this coin.
    pub fn denom(&self) -> (r: String)
        ensures
            r@ == spec_denom_of(self.address@),
    {
        String::from_str("cw20:").concat(self.address.as_str())
    }

    /// The quantity carried.
    pub fn amount(&self) -> (r: u128)
        ensures
            r == self.amount,
    {
        self.amount
    }

    /// True when the coin carries nothing.
    pub fn is_empty(&self) -> (r: bool)
        ensures
            r == (self.amount == 0),
    {
        self.amount == 0
    }
}

} // verus!
