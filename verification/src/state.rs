//! The bridge's persistent state, held as one explicit value.
//!
//! The ledger keyed by (channel, denomination), the per-channel metadata,
//! the registered token code hashes and the single pending-completion slot
//! all live in a [`BridgeStorage`] that every operation takes as an
//! argument.  Each keyed store is a vector of entries whose meaning is the
//! first entry with a matching key; the spec functions `find_*` give that
//! meaning and every contract is stated over them.

use vstd::prelude::*;
use crate::error::ContractError;

verus! {

/// One side of a channel: a port and a channel identifier on that port.
#[derive(Clone, Debug, PartialEq, Eq)]
pub struct Endpoint {
    pub port_id: String,
    pub channel_id: String,
}

/// Per-(channel, denomination) balances: `outstanding` is what the remote
/// side currently holds of transfers sent from here; `total_sent` is the
/// lifetime audit counter and never decreases.
#[derive(Clone, Copy, Debug, PartialEq, Eq, Structural)]
pub struct ChannelState {
    pub outstanding: u128,
    pub total_sent: u128,
}

impl Default for ChannelState {
    /// A fresh record, both counters at zero.
    fn default() -> (r: ChannelState)
        ensures
            r.outstanding == 0,
            r.total_sent == 0,
    {
        ChannelState { outstanding: 0, total_sent: 0 }
    }
}

/// Static metadata of one channel, written when its handshake completes.
#[derive(Clone, Debug, PartialEq, Eq)]
pub struct ChannelInfo {
    /// id of this channel
    pub id: String,
    /// the remote channel/port we connect to
    pub counterparty_endpoint: Endpoint,
    /// the connection this exists on
    pub connection_id: String,
}

/// Registration data for one token contract that may be sent over the
/// bridge.
#[derive(Clone, Debug, PartialEq, Eq)]
pub struct AllowInfo {
    pub code_hash: String,
    pub gas_limit: Option<u64>,
}

/// The single pending-completion record: the exact (channel, denomination,
/// amount) debited by an inbound receive, staged for its completion
/// callback.
#[derive(Clone, Debug, PartialEq, Eq)]
pub struct ReplyArgs {
    pub channel: String,
    pub denom: String,
    pub amount: u128,
}

/// Static configuration: the timeout delta, in seconds, applied when a
/// transfer request does not supply one.
#[derive(Clone, Copy, Debug, PartialEq, Eq, Structural)]
pub struct Config {
    pub default_timeout: u64,
}

/// One ledger record together with its key.
#[derive(Clone, Debug, PartialEq, Eq)]
pub struct BalanceEntry {
    pub channel: String,
    pub denom: String,
    pub state: ChannelState,
}

/// One registered token contract: its address and the code hash needed to
/// address it.
#[derive(Clone, Debug, PartialEq, Eq)]
pub struct CodeHashEntry {
    pub address: String,
    pub code_hash: String,
}

/// The abstract value of one ledger cell.  `present` distinguishes a pair
/// that was never credited from one whose counters happen to be zero.
pub struct BalanceModel {
    pub present: bool,
    pub outstanding: int,
    pub total_sent: int,
}

/// A credit adds to both counters and creates the record if absent.
pub open spec fn credit_cell(b: BalanceModel, n: int) -> BalanceModel {
    BalanceModel { present: true, outstanding: b.outstanding + n, total_sent: b.total_sent + n }
}

/// A debit applies only to a record that exists and can cover it.
pub open spec fn debit_applies(b: BalanceModel, n: int) -> bool {
    b.present && b.outstanding >= n
}

/// A debit takes from `outstanding` alone; an inapplicable debit changes
/// nothing.
pub open spec fn debit_cell(b: BalanceModel, n: int) -> BalanceModel {
    if debit_applies(b, n) {
        BalanceModel { present: true, outstanding: b.outstanding - n, total_sent: b.total_sent }
    } else {
        b
    }
}

/// Undoing a debit gives back to `outstanding` alone and never touches the
/// audit counter.
pub open spec fn undo_debit_cell(b: BalanceModel, n: int) -> BalanceModel {
    BalanceModel { present: true, outstanding: b.outstanding + n, total_sent: b.total_sent }
}

/// Whether a ledger entry carries the given key.
pub open spec fn balance_key_matches(e: BalanceEntry, c: Seq<char>, d: Seq<char>) -> bool {
    e.channel@ == c && e.denom@ == d
}

/// The first ledger record under the given key, if any.
pub open spec fn find_balance(s: Seq<BalanceEntry>, c: Seq<char>, d: Seq<char>) -> Option<
    ChannelState,
>
    decreases s.len(),
{
    if s.len() == 0 {
        None
    } else if balance_key_matches(s[0], c, d) {
        Some(s[0].state)
    } else {
        find_balance(s.drop_first(), c, d)
    }
}

/// The abstract cell a stored record denotes.
pub open spec fn cell_of(b: Option<ChannelState>) -> BalanceModel {
    match b {
        Some(st) => BalanceModel {
            present: true,
            outstanding: st.outstanding as int,
            total_sent: st.total_sent as int,
        },
        None => BalanceModel { present: false, outstanding: 0, total_sent: 0 },
    }
}

/// Whether a channel-info entry carries the given channel identifier.
pub open spec fn channel_key_matches(e: ChannelInfo, id: Seq<char>) -> bool {
    e.id@ == id
}

/// The first channel record under the given identifier, if any.
pub open spec fn find_channel(s: Seq<ChannelInfo>, id: Seq<char>) -> Option<ChannelInfo>
    decreases s.len(),
{
    if s.len() == 0 {
        None
    } else if channel_key_matches(s[0], id) {
        Some(s[0])
    } else {
        find_channel(s.drop_first(), id)
    }
}

/// Whether a registration entry carries the given token address.
pub open spec fn code_hash_key_matches(e: CodeHashEntry, a: Seq<char>) -> bool {
    e.address@ == a
}

/// The first registered code hash under the given address, if any.
pub open spec fn find_code_hash(s: Seq<CodeHashEntry>, a: Seq<char>) -> Option<Seq<char>>
    decreases s.len(),
{
    if s.len() == 0 {
        None
    } else if code_hash_key_matches(s[0], a) {
        Some(s[0].code_hash@)
    } else {
        find_code_hash(s.drop_first(), a)
    }
}

/// All state of the bridge, passed explicitly into every operation.
pub struct BridgeStorage {
    pub channel_state: Vec<BalanceEntry>,
    pub channel_info: Vec<ChannelInfo>,
    pub code_hash: Vec<CodeHashEntry>,
    pub reply_args: Option<ReplyArgs>,
    pub config: Config,
}

impl BridgeStorage {
    /// The ledger cell for one (channel, denomination) pair.
    pub open spec fn balance_cell(&self, c: Seq<char>, d: Seq<char>) -> BalanceModel {
        cell_of(find_balance(self.channel_state@, c, d))
    }

    /// Whether a channel handshake has been recorded for this identifier.
    pub open spec fn channel_known(&self, id: Seq<char>) -> bool {
        find_channel(self.channel_info@, id) is Some
    }

    /// The registered code hash of a token address, if any.
    pub open spec fn code_hash_of(&self, a: Seq<char>) -> Option<Seq<char>> {
        find_code_hash(self.code_hash@, a)
    }

    /// The staged pending completion, as plain values.
    pub open spec fn pending(&self) -> Option<(Seq<char>, Seq<char>, u128)> {
        match self.reply_args {
            Some(a) => Some((a.channel@, a.denom@, a.amount)),
            None => None,
        }
    }

    /// Empty state with the given default timeout delta.
    pub fn new(default_timeout: u64) -> (r: BridgeStorage)
        ensures
            forall|c: Seq<char>, d: Seq<char>| (#[trigger] r.balance_cell(c, d)) == (cell_of(
                None,
            )),
            forall|id: Seq<char>| !(#[trigger] r.channel_known(id)),
            forall|a: Seq<char>| (#[trigger] r.code_hash_of(a)) is None,
            r.pending() is None,
            r.config.default_timeout == default_timeout,
    {
        BridgeStorage {
            channel_state: Vec::new(),
            channel_info: Vec::new(),
            code_hash: Vec::new(),
            reply_args: None,
            config: Config { default_timeout },
        }
    }


    /// Whether a channel handshake has been recorded for this identifier.
    pub fn has_channel(&self, id: &String) -> (r: bool)
        ensures
            r == self.channel_known(id@),
    {
        match position_channel(&self.channel_info, id) {
            Some(_) => true,
            None => false,
        }
    }

    /// Reads the metadata of one channel.
    pub fn get_channel_info<'a>(&'a self, id: &String) -> (r: Option<&'a ChannelInfo>)
        ensures
            match r {
                Some(e) => find_channel(self.channel_info@, id@) == Some(*e),
                None => find_channel(self.channel_info@, id@) is None,
            },
    {
        match position_channel(&self.channel_info, id) {
            Some(i) => Some(&self.channel_info[i]),
            None => None,
        }
    }

    /// Reads the registered code hash of a token address.
    pub fn load_code_hash(&self, address: &String) -> (r: Option<String>)
        ensures
            match r {
                Some(h) => self.code_hash_of(address@) == Some(h@),
                None => self.code_hash_of(address@) is None,
            },
    {
        match position_code_hash(&self.code_hash, address) {
            Some(i) => Some(self.code_hash[i].code_hash.clone()),
            None => None,
        }
    }

    /// Reads one ledger record, as stored.
    pub fn channel_balance(&self, channel: &String, denom: &String) -> (r: Option<ChannelState>)
        ensures
            r == find_balance(self.channel_state@, channel@, denom@),
    {
        let n = self.channel_state.len();
        let mut i: usize = 0;
        proof {
            assert(self.channel_state@.skip(0) =~= self.channel_state@);
        }
        while i < n
            invariant
                n == self.channel_state@.len(),
                i <= n,
                find_balance(self.channel_state@, channel@, denom@) == find_balance(
                    self.channel_state@.skip(i as int),
                    channel@,
                    denom@,
                ),
            decreases n - i,
        {
            let e = &self.channel_state[i];
            proof {
                assert(self.channel_state@.skip(i as int).drop_first() =~= self.channel_state@.skip(
                    i as int + 1,
                ));
                assert(self.channel_state@.skip(i as int)[0] == self.channel_state@[i as int]);
            }
            if e.channel == *channel && e.denom == *denom {
                return Some(e.state);
            }
            i = i + 1;
        }
        None
    }
}

/// The index of the first ledger entry under the given key.
fn position_balance(entries: &Vec<BalanceEntry>, channel: &String, denom: &String) -> (r: Option<
    usize,
>)
    ensures
        match r {
            Some(i) => i < entries@.len() && balance_key_matches(entries@[i as int], channel@, denom@)
                && (forall|j: int|
                0 <= j < i ==> !(#[trigger] balance_key_matches(entries@[j], channel@, denom@)))
                && find_balance(entries@, channel@, denom@) == Some(entries@[i as int].state),
            None => find_balance(entries@, channel@, denom@) is None,
        },
{
    let n = entries.len();
    let mut i: usize = 0;
    proof {
        assert(entries@.skip(0) =~= entries@);
    }
    while i < n
        invariant
            n == entries@.len(),
            i <= n,
            find_balance(entries@, channel@, denom@) == find_balance(
                entries@.skip(i as int),
                channel@,
                denom@,
            ),
            forall|j: int| 0 <= j < i ==> !(#[trigger] balance_key_matches(entries@[j], channel@, denom@)),
        decreases n - i,
    {
        let e = &entries[i];
        proof {
            assert(entries@.skip(i as int).drop_first() =~= entries@.skip(i as int + 1));
            assert(entries@.skip(i as int)[0] == entries@[i as int]);
        }
        if e.channel == *channel && e.denom == *denom {
            return Some(i);
        }
        i = i + 1;
    }
    None
}

/// Replacing the first entry under a key by another entry under the same
/// key moves that key's record to the new entry and no other.
proof fn lemma_find_balance_update(
    s: Seq<BalanceEntry>,
    i: int,
    e: BalanceEntry,
    c: Seq<char>,
    d: Seq<char>,
)
    requires
        0 <= i < s.len(),
        forall|j: int| 0 <= j < i ==> !(#[trigger] balance_key_matches(s[j], c, d)),
        balance_key_matches(s[i], c, d),
        balance_key_matches(e, c, d),
    ensures
        forall|c2: Seq<char>, d2: Seq<char>|
            #[trigger] find_balance(s.update(i, e), c2, d2) == if c2 == c && d2 == d {
                Some(e.state)
            } else {
                find_balance(s, c2, d2)
            },
    decreases i,
{
    let t = s.update(i, e);
    assert forall|c2: Seq<char>, d2: Seq<char>|
        #[trigger] find_balance(t, c2, d2) == if c2 == c && d2 == d {
            Some(e.state)
        } else {
            find_balance(s, c2, d2)
        } by {
        if i == 0 {
            assert(t[0] == e);
            assert(t.drop_first() =~= s.drop_first());
        } else {
            assert(t[0] == s[0]);
            assert(t.drop_first() =~= s.drop_first().update(i - 1, e));
            assert forall|j: int|
                0 <= j < i - 1 implies !(#[trigger] balance_key_matches(
                s.drop_first()[j],
                c,
                d,
            )) by {
                assert(s.drop_first()[j] == s[j + 1]);
            }
            lemma_find_balance_update(s.drop_first(), i - 1, e, c, d);
            assert(find_balance(t.drop_first(), c2, d2) == find_balance(
                s.drop_first().update(i - 1, e),
                c2,
                d2,
            ));
        }
    }
}

/// Appending an entry under a key that has no record binds that key to the
/// new entry and no other.
proof fn lemma_find_balance_push(s: Seq<BalanceEntry>, e: BalanceEntry, c: Seq<char>, d: Seq<char>)
    requires
        find_balance(s, c, d) is None,
        balance_key_matches(e, c, d),
    ensures
        forall|c2: Seq<char>, d2: Seq<char>|
            #[trigger] find_balance(s.push(e), c2, d2) == if c2 == c && d2 == d {
                Some(e.state)
            } else {
                find_balance(s, c2, d2)
            },
    decreases s.len(),
{
    let t = s.push(e);
    assert forall|c2: Seq<char>, d2: Seq<char>|
        #[trigger] find_balance(t, c2, d2) == if c2 == c && d2 == d {
            Some(e.state)
        } else {
            find_balance(s, c2, d2)
        } by {
        if s.len() == 0 {
            assert(t[0] == e);
            assert(t.drop_first() =~= Seq::<BalanceEntry>::empty());
        } else {
            assert(t[0] == s[0]);
            assert(t.drop_first() =~= s.drop_first().push(e));
            lemma_find_balance_push(s.drop_first(), e, c, d);
            assert(find_balance(t.drop_first(), c2, d2) == find_balance(
                s.drop_first().push(e),
                c2,
                d2,
            ));
        }
    }
}

/// Loads the record under the key (a zeroed default if absent), adds
/// `add_out` to `outstanding` and `add_total` to `total_sent`, stores it
/// back.
fn upsert_balance_add(
    entries: &mut Vec<BalanceEntry>,
    channel: &String,
    denom: &String,
    add_out: u128,
    add_total: u128,
)
    requires
        cell_of(find_balance(old(entries)@, channel@, denom@)).outstanding + add_out <= u128::MAX,
        cell_of(find_balance(old(entries)@, channel@, denom@)).total_sent + add_total <= u128::MAX,
    ensures
        forall|c2: Seq<char>, d2: Seq<char>|
            #[trigger] find_balance(final(entries)@, c2, d2) == if c2 == channel@ && d2 == denom@ {
                Some(
                    ChannelState {
                        outstanding: (cell_of(find_balance(old(entries)@, channel@, denom@)).outstanding
                            + add_out) as u128,
                        total_sent: (cell_of(find_balance(old(entries)@, channel@, denom@)).total_sent
                            + add_total) as u128,
                    },
                )
            } else {
                find_balance(old(entries)@, c2, d2)
            },
{
    match position_balance(entries, channel, denom) {
        Some(i) => {
            let prev = entries[i].state;
            let e = BalanceEntry {
                channel: entries[i].channel.clone(),
                denom: entries[i].denom.clone(),
                state: ChannelState {
                    outstanding: prev.outstanding + add_out,
                    total_sent: prev.total_sent + add_total,
                },
            };
            proof {
                lemma_find_balance_update(entries@, i as int, e, channel@, denom@);
            }
            entries.set(i, e);
        },
        None => {
            let e = BalanceEntry {
                channel: channel.clone(),
                denom: denom.clone(),
                state: ChannelState { outstanding: add_out, total_sent: add_total },
            };
            proof {
                lemma_find_balance_push(entries@, e, channel@, denom@);
            }
            entries.push(e);
        },
    }
}

/// Credits a channel for a completed-send amount: both `outstanding` and
/// `total_sent` grow by `amount`; the record is created if absent.  No
/// other state changes.
pub fn increase_channel_balance(
    storage: &mut BridgeStorage,
    channel: &String,
    denom: &String,
    amount: u128,
) -> (r: Result<(), ContractError>)
    requires
        old(storage).balance_cell(channel@, denom@).outstanding + amount <= u128::MAX,
        old(storage).balance_cell(channel@, denom@).total_sent + amount <= u128::MAX,
    ensures
        r is Ok,
        final(storage).balance_cell(channel@, denom@) == credit_cell(
            old(storage).balance_cell(channel@, denom@),
            amount as int,
        ),
        forall|c2: Seq<char>, d2: Seq<char>|
            !(c2 == channel@ && d2 == denom@) ==> #[trigger] final(storage).balance_cell(c2, d2)
                == old(storage).balance_cell(c2, d2),
        final(storage).channel_info == old(storage).channel_info,
        final(storage).code_hash == old(storage).code_hash,
        final(storage).reply_args == old(storage).reply_args,
        final(storage).config == old(storage).config,
{
    upsert_balance_add(&mut storage.channel_state, channel, denom, amount, amount);
    Ok(())
}

/// Debits a channel's outstanding balance.  Fails without mutation when the
/// record is absent (`code` 1) or cannot cover the amount (`code` 2);
/// `total_sent` is never touched.
pub fn reduce_channel_balance(
    storage: &mut BridgeStorage,
    channel: &String,
    denom: &String,
    amount: u128,
) -> (r: Result<(), ContractError>)
    ensures
        r is Ok <==> debit_applies(old(storage).balance_cell(channel@, denom@), amount as int),
        final(storage).balance_cell(channel@, denom@) == debit_cell(
            old(storage).balance_cell(channel@, denom@),
            amount as int,
        ),
        forall|c2: Seq<char>, d2: Seq<char>|
            !(c2 == channel@ && d2 == denom@) ==> #[trigger] final(storage).balance_cell(c2, d2)
                == old(storage).balance_cell(c2, d2),
        r is Err ==> *final(storage) == *old(storage),
        !old(storage).balance_cell(channel@, denom@).present ==> (r matches Err(
            ContractError::InsufficientFunds { token: t, amount: a, code: c },
        ) && t@ == denom@ && a == amount && c == 1),
        old(storage).balance_cell(channel@, denom@).present && old(storage).balance_cell(
            channel@,
            denom@,
        ).outstanding < amount ==> (r matches Err(
            ContractError::InsufficientFunds { token: t, amount: a, code: c },
        ) && t@ == denom@ && a == amount && c == 2),
        final(storage).channel_info == old(storage).channel_info,
        final(storage).code_hash == old(storage).code_hash,
        final(storage).reply_args == old(storage).reply_args,
        final(storage).config == old(storage).config,
{
    match position_balance(&storage.channel_state, channel, denom) {
        Some(i) => {
            let prev = storage.channel_state[i].state;
            if prev.outstanding < amount {
                return Err(
                    ContractError::InsufficientFunds { token: denom.clone(), amount, code: 2 },
                );
            }
            let e = BalanceEntry {
                channel: storage.channel_state[i].channel.clone(),
                denom: storage.channel_state[i].denom.clone(),
                state: ChannelState {
                    outstanding: prev.outstanding - amount,
                    total_sent: prev.total_sent,
                },
            };
            proof {
                lemma_find_balance_update(storage.channel_state@, i as int, e, channel@, denom@);
            }
            storage.channel_state.set(i, e);
            Ok(())
        },
        None => Err(ContractError::InsufficientFunds { token: denom.clone(), amount, code: 1 }),
    }
}

/// Reverses a previously applied debit: `outstanding` grows back by
/// `amount`, `total_sent` stays; a missing record is tolerated and created.
pub fn undo_reduce_channel_balance(
    storage: &mut BridgeStorage,
    channel: &String,
    denom: &String,
    amount: u128,
) -> (r: Result<(), ContractError>)
    requires
        old(storage).balance_cell(channel@, denom@).outstanding + amount <= u128::MAX,
    ensures
        r is Ok,
        final(storage).balance_cell(channel@, denom@) == undo_debit_cell(
            old(storage).balance_cell(channel@, denom@),
            amount as int,
        ),
        forall|c2: Seq<char>, d2: Seq<char>|
            !(c2 == channel@ && d2 == denom@) ==> #[trigger] final(storage).balance_cell(c2, d2)
                == old(storage).balance_cell(c2, d2),
        final(storage).channel_info == old(storage).channel_info,
        final(storage).code_hash == old(storage).code_hash,
        final(storage).reply_args == old(storage).reply_args,
        final(storage).config == old(storage).config,
{
    upsert_balance_add(&mut storage.channel_state, channel, denom, amount, 0);
    Ok(())
}


/// The index of the first channel record under the given identifier.
fn position_channel(entries: &Vec<ChannelInfo>, id: &String) -> (r: Option<usize>)
    ensures
        match r {
            Some(i) => i < entries@.len() && channel_key_matches(entries@[i as int], id@) && (
            forall|j: int| 0 <= j < i ==> !(#[trigger] channel_key_matches(entries@[j], id@)))
                && find_channel(entries@, id@) == Some(entries@[i as int]),
            None => find_channel(entries@, id@) is None,
        },
{
    let n = entries.len();
    let mut i: usize = 0;
    proof {
        assert(entries@.skip(0) =~= entries@);
    }
    while i < n
        invariant
            n == entries@.len(),
            i <= n,
            find_channel(entries@, id@) == find_channel(entries@.skip(i as int), id@),
            forall|j: int| 0 <= j < i ==> !(#[trigger] channel_key_matches(entries@[j], id@)),
        decreases n - i,
    {
        let e = &entries[i];
        proof {
            assert(entries@.skip(i as int).drop_first() =~= entries@.skip(i as int + 1));
            assert(entries@.skip(i as int)[0] == entries@[i as int]);
        }
        if e.id == *id {
            return Some(i);
        }
        i = i + 1;
    }
    None
}

/// Replacing the first channel record under an identifier by another record
/// with the same identifier rebinds that identifier and no other.
proof fn lemma_find_channel_update(s: Seq<ChannelInfo>, i: int, e: ChannelInfo, id: Seq<char>)
    requires
        0 <= i < s.len(),
        forall|j: int| 0 <= j < i ==> !(#[trigger] channel_key_matches(s[j], id)),
        channel_key_matches(s[i], id),
        channel_key_matches(e, id),
    ensures
        forall|id2: Seq<char>|
            #[trigger] find_channel(s.update(i, e), id2) == if id2 == id {
                Some(e)
            } else {
                find_channel(s, id2)
            },
    decreases i,
{
    let t = s.update(i, e);
    assert forall|id2: Seq<char>|
        #[trigger] find_channel(t, id2) == if id2 == id {
            Some(e)
        } else {
            find_channel(s, id2)
        } by {
        if i == 0 {
            assert(t[0] == e);
            assert(t.drop_first() =~= s.drop_first());
        } else {
            assert(t[0] == s[0]);
            assert(t.drop_first() =~= s.drop_first().update(i - 1, e));
            assert forall|j: int|
                0 <= j < i - 1 implies !(#[trigger] channel_key_matches(
                s.drop_first()[j],
                id,
            )) by {
                assert(s.drop_first()[j] == s[j + 1]);
            }
            lemma_find_channel_update(s.drop_first(), i - 1, e, id);
            assert(find_channel(t.drop_first(), id2) == find_channel(
                s.drop_first().update(i - 1, e),
                id2,
            ));
        }
    }
}

/// Appending a channel record under a fresh identifier binds that
/// identifier and no other.
proof fn lemma_find_channel_push(s: Seq<ChannelInfo>, e: ChannelInfo, id: Seq<char>)
    requires
        find_channel(s, id) is None,
        channel_key_matches(e, id),
    ensures
        forall|id2: Seq<char>|
            #[trigger] find_channel(s.push(e), id2) == if id2 == id {
                Some(e)
            } else {
                find_channel(s, id2)
            },
    decreases s.len(),
{
    let t = s.push(e);
    assert forall|id2: Seq<char>|
        #[trigger] find_channel(t, id2) == if id2 == id {
            Some(e)
        } else {
            find_channel(s, id2)
        } by {
        if s.len() == 0 {
            assert(t[0] == e);
            assert(t.drop_first() =~= Seq::<ChannelInfo>::empty());
        } else {
            assert(t[0] == s[0]);
            assert(t.drop_first() =~= s.drop_first().push(e));
            lemma_find_channel_push(s.drop_first(), e, id);
            assert(find_channel(t.drop_first(), id2) == find_channel(s.drop_first().push(e), id2));
        }
    }
}

/// Records the metadata of a channel whose handshake completed, replacing
/// any record under the same identifier.  No other state changes.
pub fn save_channel_info(storage: &mut BridgeStorage, info: ChannelInfo)
    ensures
        find_channel(final(storage).channel_info@, info.id@) == Some(info),
        forall|id2: Seq<char>|
            id2 != info.id@ ==> #[trigger] find_channel(final(storage).channel_info@, id2)
                == find_channel(old(storage).channel_info@, id2),
        final(storage).channel_state == old(storage).channel_state,
        final(storage).code_hash == old(storage).code_hash,
        final(storage).reply_args == old(storage).reply_args,
        final(storage).config == old(storage).config,
{
    let id = info.id.clone();
    match position_channel(&storage.channel_info, &id) {
        Some(i) => {
            proof {
                lemma_find_channel_update(storage.channel_info@, i as int, info, id@);
            }
            storage.channel_info.set(i, info);
        },
        None => {
            proof {
                lemma_find_channel_push(storage.channel_info@, info, id@);
            }
            storage.channel_info.push(info);
        },
    }
}

/// The index of the first registration under the given address.
fn position_code_hash(entries: &Vec<CodeHashEntry>, address: &String) -> (r: Option<usize>)
    ensures
        match r {
            Some(i) => i < entries@.len() && code_hash_key_matches(entries@[i as int], address@)
                && (forall|j: int|
                0 <= j < i ==> !(#[trigger] code_hash_key_matches(entries@[j], address@)))
                && find_code_hash(entries@, address@) == Some(entries@[i as int].code_hash@),
            None => find_code_hash(entries@, address@) is None,
        },
{
    let n = entries.len();
    let mut i: usize = 0;
    proof {
        assert(entries@.skip(0) =~= entries@);
    }
    while i < n
        invariant
            n == entries@.len(),
            i <= n,
            find_code_hash(entries@, address@) == find_code_hash(
                entries@.skip(i as int),
                address@,
            ),
            forall|j: int| 0 <= j < i ==> !(#[trigger] code_hash_key_matches(entries@[j], address@)),
        decreases n - i,
    {
        let e = &entries[i];
        proof {
            assert(entries@.skip(i as int).drop_first() =~= entries@.skip(i as int + 1));
            assert(entries@.skip(i as int)[0] == entries@[i as int]);
        }
        if e.address == *address {
            return Some(i);
        }
        i = i + 1;
    }
    None
}

/// Replacing the first registration under an address by another entry with
/// the same address rebinds that address and no other.
proof fn lemma_find_code_hash_update(s: Seq<CodeHashEntry>, i: int, e: CodeHashEntry, a: Seq<char>)
    requires
        0 <= i < s.len(),
        forall|j: int| 0 <= j < i ==> !(#[trigger] code_hash_key_matches(s[j], a)),
        code_hash_key_matches(s[i], a),
        code_hash_key_matches(e, a),
    ensures
        forall|a2: Seq<char>|
            #[trigger] find_code_hash(s.update(i, e), a2) == if a2 == a {
                Some(e.code_hash@)
            } else {
                find_code_hash(s, a2)
            },
    decreases i,
{
    let t = s.update(i, e);
    assert forall|a2: Seq<char>|
        #[trigger] find_code_hash(t, a2) == if a2 == a {
            Some(e.code_hash@)
        } else {
            find_code_hash(s, a2)
        } by {
        if i == 0 {
            assert(t[0] == e);
            assert(t.drop_first() =~= s.drop_first());
        } else {
            assert(t[0] == s[0]);
            assert(t.drop_first() =~= s.drop_first().update(i - 1, e));
            assert forall|j: int|
                0 <= j < i - 1 implies !(#[trigger] code_hash_key_matches(
                s.drop_first()[j],
                a,
            )) by {
                assert(s.drop_first()[j] == s[j + 1]);
            }
            lemma_find_code_hash_update(s.drop_first(), i - 1, e, a);
            assert(find_code_hash(t.drop_first(), a2) == find_code_hash(
                s.drop_first().update(i - 1, e),
                a2,
            ));
        }
    }
}

/// Appending a registration under a fresh address binds that address and no
/// other.
proof fn lemma_find_code_hash_push(s: Seq<CodeHashEntry>, e: CodeHashEntry, a: Seq<char>)
    requires
        find_code_hash(s, a) is None,
        code_hash_key_matches(e, a),
    ensures
        forall|a2: Seq<char>|
            #[trigger] find_code_hash(s.push(e), a2) == if a2 == a {
                Some(e.code_hash@)
            } else {
                find_code_hash(s, a2)
            },
    decreases s.len(),
{
    let t = s.push(e);
    assert forall|a2: Seq<char>|
        #[trigger] find_code_hash(t, a2) == if a2 == a {
            Some(e.code_hash@)
        } else {
            find_code_hash(s, a2)
        } by {
        if s.len() == 0 {
            assert(t[0] == e);
            assert(t.drop_first() =~= Seq::<CodeHashEntry>::empty());
        } else {
            assert(t[0] == s[0]);
            assert(t.drop_first() =~= s.drop_first().push(e));
            lemma_find_code_hash_push(s.drop_first(), e, a);
            assert(find_code_hash(t.drop_first(), a2) == find_code_hash(
                s.drop_first().push(e),
                a2,
            ));
        }
    }
}

/// Registers the code hash of a token contract, replacing any earlier
/// registration of the same address.  No other state changes.
pub fn save_code_hash(storage: &mut BridgeStorage, address: String, code_hash: String)
    ensures
        final(storage).code_hash_of(address@) == Some(code_hash@),
        forall|a2: Seq<char>|
            a2 != address@ ==> #[trigger] final(storage).code_hash_of(a2) == old(
                storage,
            ).code_hash_of(a2),
        final(storage).channel_state == old(storage).channel_state,
        final(storage).channel_info == old(storage).channel_info,
        final(storage).reply_args == old(storage).reply_args,
        final(storage).config == old(storage).config,
{
    let e = CodeHashEntry { address, code_hash };
    match position_code_hash(&storage.code_hash, &e.address) {
        Some(i) => {
            proof {
                lemma_find_code_hash_update(storage.code_hash@, i as int, e, e.address@);
            }
            storage.code_hash.set(i, e);
        },
        None => {
            proof {
                lemma_find_code_hash_push(storage.code_hash@, e, e.address@);
            }
            storage.code_hash.push(e);
        },
    }
}

} // verus!
