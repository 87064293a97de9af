//! One account's state and its mathematical model.

use crate::bytes::{copy_addrs, copy_bytes, Address};
use vstd::prelude::*;

verus! {

/// An escrowed payment stream that an account has opened.
#[derive(Debug, Clone, Copy)]
pub struct StreamState {
    pub recipient: Address,
    pub amount_per_sec: u64,
    pub start_timestamp: u64,
    pub end_timestamp: u64,
    pub withdrawn: u64,
}

/// A wrapped, yield-bearing position.
#[derive(Debug, Clone, Copy)]
pub struct YieldPosition {
    pub token_id: u64,
    pub principal: u64,
    pub maturity_height: u64,
    pub issued_height: u64,
}

/// One ticker with the amount kept under it.
#[derive(Debug)]
pub struct TickerEntry {
    pub ticker: String,
    pub amount: u64,
}

/// Amounts keyed by ticker, kept in the order in which the tickers were first
/// written. A lookup takes the first entry with the ticker.
#[derive(Debug)]
pub struct TickerTable {
    pub entries: Vec<TickerEntry>,
}

/// The index of the first entry at or after `start` whose ticker is `key`, or
/// the table's length where there is none.
pub open spec fn ticker_find(table: Seq<(Seq<char>, u64)>, key: Seq<char>, start: int) -> int
    decreases table.len() - start,
{
    if start < 0 || start >= table.len() {
        table.len() as int
    } else if table[start].0 == key {
        start
    } else {
        ticker_find(table, key, start + 1)
    }
}

/// The amount kept under `key`, if the table has the ticker.
pub open spec fn ticker_get(table: Seq<(Seq<char>, u64)>, key: Seq<char>) -> Option<u64> {
    let i = ticker_find(table, key, 0);
    if i < table.len() {
        Some(table[i].1)
    } else {
        None
    }
}

/// The table with `amount` under `key`: written over the ticker's entry where
/// it has one, appended where it has none.
pub open spec fn ticker_put(table: Seq<(Seq<char>, u64)>, key: Seq<char>, amount: u64) -> Seq<
    (Seq<char>, u64),
> {
    let i = ticker_find(table, key, 0);
    if i < table.len() {
        table.update(i, (key, amount))
    } else {
        table.push((key, amount))
    }
}

/// `ticker_find` returns an index in range whose entry has the ticker, with
/// no such entry between `start` and it.
pub proof fn lemma_ticker_find(table: Seq<(Seq<char>, u64)>, key: Seq<char>, start: int)
    requires
        0 <= start <= table.len(),
    ensures
        start <= ticker_find(table, key, start) <= table.len(),
        ticker_find(table, key, start) < table.len() ==> table[ticker_find(table, key, start)].0
            == key,
        forall|j: int| start <= j < ticker_find(table, key, start) ==> table[j].0 != key,
    decreases table.len() - start,
{
    if start < table.len() && table[start].0 != key {
        lemma_ticker_find(table, key, start + 1);
    }
}

/// An index with no match before it and a match at it is what `ticker_find`
/// returns; with no match anywhere it returns the length.
pub proof fn lemma_ticker_find_is(table: Seq<(Seq<char>, u64)>, key: Seq<char>, start: int, i: int)
    requires
        0 <= start <= i <= table.len(),
        forall|j: int| start <= j < i ==> table[j].0 != key,
        i < table.len() ==> table[i].0 == key,
    ensures
        ticker_find(table, key, start) == i,
    decreases i - start,
{
    if start < i {
        lemma_ticker_find_is(table, key, start + 1, i);
    }
}

/// After a write the ticker reads back the amount written, and every other
/// ticker reads as before.
pub proof fn lemma_ticker_put_get(
    table: Seq<(Seq<char>, u64)>,
    key: Seq<char>,
    amount: u64,
    other: Seq<char>,
)
    ensures
        ticker_get(ticker_put(table, key, amount), key) == Some(amount),
        other != key ==> ticker_get(ticker_put(table, key, amount), other) == ticker_get(
            table,
            other,
        ),
{
    let i = ticker_find(table, key, 0);
    let after = ticker_put(table, key, amount);
    lemma_ticker_find(table, key, 0);
    lemma_ticker_find_is(after, key, 0, i);
    if other != key {
        let k = ticker_find(table, other, 0);
        lemma_ticker_find(table, other, 0);
        if k < table.len() {
            lemma_ticker_find_is(after, other, 0, k);
        } else {
            lemma_ticker_find_is(after, other, 0, after.len() as int);
        }
    }
}

impl View for TickerTable {
    type V = Seq<(Seq<char>, u64)>;

    open spec fn view(&self) -> Seq<(Seq<char>, u64)> {
        Seq::new(self.entries@.len(), |i: int| (self.entries@[i].ticker@, self.entries@[i].amount))
    }
}

impl TickerTable {
    /// A table without entries.
    pub fn new() -> (r: Self)
        ensures
            r@ == Seq::<(Seq<char>, u64)>::empty(),
    {
        let r = TickerTable { entries: Vec::new() };
        assert(r@ =~= Seq::<(Seq<char>, u64)>::empty());
        r
    }

    /// The number of tickers written.
    pub fn len(&self) -> (n: usize)
        ensures
            n == self@.len(),
    {
        self.entries.len()
    }

    /// The index of the ticker's entry, or the length.
    fn position(&self, ticker: &String) -> (i: usize)
        ensures
            i == ticker_find(self@, ticker@, 0),
            i <= self.entries@.len(),
    {
        let mut i: usize = 0;
        while i < self.entries.len()
            invariant
                i <= self.entries@.len(),
                forall|j: int| 0 <= j < i ==> self@[j].0 != ticker@,
            decreases self.entries@.len() - i,
        {
            if self.entries[i].ticker == *ticker {
                proof {
                    lemma_ticker_find_is(self@, ticker@, 0, i as int);
                }
                return i;
            }
            i = i + 1;
        }
        proof {
            lemma_ticker_find_is(self@, ticker@, 0, i as int);
        }
        i
    }

    /// The amount kept under `ticker`, if any.
    pub fn get(&self, ticker: &String) -> (r: Option<u64>)
        ensures
            r == ticker_get(self@, ticker@),
    {
        let i = self.position(ticker);
        if i < self.entries.len() {
            Some(self.entries[i].amount)
        } else {
            None
        }
    }

    /// Whether the table has the ticker.
    pub fn contains_key(&self, ticker: &String) -> (r: bool)
        ensures
            r == ticker_get(self@, ticker@).is_some(),
    {
        let i = self.position(ticker);
        i < self.entries.len()
    }

    /// Writes `amount` under `ticker`.
    pub fn insert(&mut self, ticker: String, amount: u64)
        ensures
            final(self)@ == ticker_put(old(self)@, ticker@, amount),
    {
        let i = self.position(&ticker);
        if i < self.entries.len() {
            proof {
                lemma_ticker_find(self@, ticker@, 0);
            }
            self.entries[i].amount = amount;
            assert(self.entries@[i as int].ticker == old(self).entries@[i as int].ticker);
            assert(self@ =~= ticker_put(old(self)@, ticker@, amount));
        } else {
            self.entries.push(TickerEntry { ticker, amount });
            assert(self@ =~= ticker_put(old(self)@, ticker@, amount));
        }
    }
}

impl Clone for TickerTable {
    fn clone(&self) -> (r: Self)
        ensures
            r@ == self@,
    {
        let mut out: Vec<TickerEntry> = Vec::new();
        let mut i: usize = 0;
        while i < self.entries.len()
            invariant
                i <= self.entries@.len(),
                out@.len() == i,
                forall|j: int|
                    0 <= j < i ==> out@[j].ticker@ == self.entries@[j].ticker@ && out@[j].amount
                        == self.entries@[j].amount,
            decreases self.entries@.len() - i,
        {
            out.push(TickerEntry { ticker: self.entries[i].ticker.clone(), amount: self.entries[i].amount });
            i = i + 1;
        }
        let r = TickerTable { entries: out };
        assert(r@ =~= self@);
        r
    }
}

/// Per-account state.
#[derive(Debug)]
pub struct AccountState {
    /// The nonce that the account's next transaction must carry.
    pub nonce: u64,
    pub lusd_balance: u64,
    pub ljun_balance: u64,
    pub lumina_balance: u64,
    /// Balances in registered custom assets.
    pub custom_balances: TickerTable,
    /// Commitment of the last confidential transfer.
    pub commitment: Option<[u8; 32]>,
    /// The current device authenticator.
    pub passkey_device_key: Option<Vec<u8>>,
    /// Social-recovery guardians.
    pub guardians: Vec<Address>,
    /// Post-quantum public key, once the account has switched.
    pub pq_pubkey: Option<Vec<u8>>,
    pub epoch_tx_volume: u64,
    pub last_reward_epoch: u64,
    /// 0 when unscored, else 300..=850.
    pub credit_score: u16,
    pub active_streams: Vec<StreamState>,
    pub yield_positions: Vec<YieldPosition>,
    pub pending_flash_mint: u64,
    pub pending_flash_collateral: u64,
}

/// The mathematical value of an account.
pub struct AccountModel {
    pub nonce: u64,
    pub lusd_balance: u64,
    pub ljun_balance: u64,
    pub lumina_balance: u64,
    pub custom_balances: Seq<(Seq<char>, u64)>,
    pub commitment: Option<[u8; 32]>,
    pub passkey_device_key: Option<Seq<u8>>,
    pub guardians: Seq<Address>,
    pub pq_pubkey: Option<Seq<u8>>,
    pub epoch_tx_volume: u64,
    pub last_reward_epoch: u64,
    pub credit_score: u16,
    pub active_streams: Seq<StreamState>,
    pub yield_positions: Seq<YieldPosition>,
    pub pending_flash_mint: u64,
    pub pending_flash_collateral: u64,
}

/// The view of an optional byte vector.
pub open spec fn opt_bytes_view(v: Option<Vec<u8>>) -> Option<Seq<u8>> {
    match v {
        Some(b) => Some(b@),
        None => None,
    }
}

/// The account that an address holds before anything was written to it.
pub open spec fn empty_account() -> AccountModel {
    AccountModel {
        nonce: 0,
        lusd_balance: 0,
        ljun_balance: 0,
        lumina_balance: 0,
        custom_balances: Seq::empty(),
        commitment: None,
        passkey_device_key: None,
        guardians: Seq::empty(),
        pq_pubkey: None,
        epoch_tx_volume: 0,
        last_reward_epoch: 0,
        credit_score: 0,
        active_streams: Seq::empty(),
        yield_positions: Seq::empty(),
        pending_flash_mint: 0,
        pending_flash_collateral: 0,
    }
}

impl View for AccountState {
    type V = AccountModel;

    open spec fn view(&self) -> AccountModel {
        AccountModel {
            nonce: self.nonce,
            lusd_balance: self.lusd_balance,
            ljun_balance: self.ljun_balance,
            lumina_balance: self.lumina_balance,
            custom_balances: self.custom_balances@,
            commitment: self.commitment,
            passkey_device_key: opt_bytes_view(self.passkey_device_key),
            guardians: self.guardians@,
            pq_pubkey: opt_bytes_view(self.pq_pubkey),
            epoch_tx_volume: self.epoch_tx_volume,
            last_reward_epoch: self.last_reward_epoch,
            credit_score: self.credit_score,
            active_streams: self.active_streams@,
            yield_positions: self.yield_positions@,
            pending_flash_mint: self.pending_flash_mint,
            pending_flash_collateral: self.pending_flash_collateral,
        }
    }
}

/// A copy of an optional byte vector.
pub fn copy_opt_bytes(v: &Option<Vec<u8>>) -> (r: Option<Vec<u8>>)
    ensures
        opt_bytes_view(r) == opt_bytes_view(*v),
{
    match v {
        Some(b) => Some(copy_bytes(b.as_slice())),
        None => None,
    }
}

/// A copy of a list of streams.
pub fn copy_streams(src: &Vec<StreamState>) -> (out: Vec<StreamState>)
    ensures
        out@ == src@,
{
    let mut out: Vec<StreamState> = Vec::new();
    let mut i: usize = 0;
    while i < src.len()
        invariant
            i <= src.len(),
            out@ == src@.take(i as int),
        decreases src.len() - i,
    {
        out.push(src[i]);
        assert(src@.take(i as int).push(src@[i as int]) =~= src@.take(i + 1));
        i = i + 1;
    }
    assert(src@.take(src@.len() as int) =~= src@);
    out
}

/// A copy of a list of yield positions.
pub fn copy_positions(src: &Vec<YieldPosition>) -> (out: Vec<YieldPosition>)
    ensures
        out@ == src@,
{
    let mut out: Vec<YieldPosition> = Vec::new();
    let mut i: usize = 0;
    while i < src.len()
        invariant
            i <= src.len(),
            out@ == src@.take(i as int),
        decreases src.len() - i,
    {
        out.push(src[i]);
        assert(src@.take(i as int).push(src@[i as int]) =~= src@.take(i + 1));
        i = i + 1;
    }
    assert(src@.take(src@.len() as int) =~= src@);
    out
}

impl Clone for AccountState {
    fn clone(&self) -> (r: Self)
        ensures
            r@ == self@,
    {
        AccountState {
            nonce: self.nonce,
            lusd_balance: self.lusd_balance,
            ljun_balance: self.ljun_balance,
            lumina_balance: self.lumina_balance,
            custom_balances: self.custom_balances.clone(),
            commitment: self.commitment,
            passkey_device_key: copy_opt_bytes(&self.passkey_device_key),
            guardians: copy_addrs(&self.guardians),
            pq_pubkey: copy_opt_bytes(&self.pq_pubkey),
            epoch_tx_volume: self.epoch_tx_volume,
            last_reward_epoch: self.last_reward_epoch,
            credit_score: self.credit_score,
            active_streams: copy_streams(&self.active_streams),
            yield_positions: copy_positions(&self.yield_positions),
            pending_flash_mint: self.pending_flash_mint,
            pending_flash_collateral: self.pending_flash_collateral,
        }
    }
}

impl Default for AccountState {
    fn default() -> (r: Self)
        ensures
            r@ == empty_account(),
    {
        AccountState {
            nonce: 0,
            lusd_balance: 0,
            ljun_balance: 0,
            lumina_balance: 0,
            custom_balances: TickerTable::new(),
            commitment: None,
            passkey_device_key: None,
            guardians: Vec::new(),
            pq_pubkey: None,
            epoch_tx_volume: 0,
            last_reward_epoch: 0,
            credit_score: 0,
            active_streams: Vec::new(),
            yield_positions: Vec::new(),
            pending_flash_mint: 0,
            pending_flash_collateral: 0,
        }
    }
}

} // verus!
