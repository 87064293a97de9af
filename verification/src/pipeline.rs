//! The transaction pipeline: signature, nonce, instruction, all or nothing.

use crate::account::{opt_bytes_view, AccountModel, AccountState};
use crate::accounts::{accounts_get, lemma_accounts_put_undo};
use crate::bytes::{addr_list_contains, bytes_eq, Address};
use crate::execution::{execute_rule, execute_si, ExecutionContext};
use crate::instruction::StablecoinInstruction;
use crate::rules::{max64, step_matches, with_account, ExecError};
use crate::signatures::{
    pq_signature_accepted, pq_signature_valid, signature_accepted, signature_valid,
};
use crate::state::{GlobalState, StateModel};
use crate::transaction::{signing_bytes_of, Transaction};
use vstd::prelude::*;

verus! {

/// Whether a transaction's signature is valid for a sender with the given
/// post-quantum key: under that key where the account has one, else under
/// the sender's address as a classical key.
pub open spec fn tx_signature_valid(pq_pubkey: Option<Seq<u8>>, tx: Transaction) -> bool {
    match pq_pubkey {
        Some(k) => pq_signature_valid(k, signing_bytes_of(tx), tx.signature@),
        None => signature_valid(tx.sender, signing_bytes_of(tx), tx.signature@),
    }
}

/// What a transaction does to a state once the verdict on its signature is
/// known: a refused signature is `CryptoInvalid`; a nonce other than the
/// sender's next is `NonceMismatch`; then the nonce is counted and the
/// instruction executed on the state so changed.
pub open spec fn transaction_rule_on(
    s: StateModel,
    tx: Transaction,
    height: u64,
    timestamp: u64,
    reserve_key: Seq<u8>,
    signature_ok: bool,
) -> Result<StateModel, ExecError> {
    let a = accounts_get(s.accounts, tx.sender);
    if !signature_ok {
        Err(ExecError::CryptoInvalid)
    } else if tx.nonce != a.nonce {
        Err(ExecError::NonceMismatch { expected: a.nonce, got: tx.nonce })
    } else if a.nonce + 1 > max64() {
        Err(ExecError::Overflow)
    } else {
        execute_rule(
            with_account(s, tx.sender, AccountModel { nonce: (a.nonce + 1) as u64, ..a }),
            tx.instruction,
            tx.sender,
            height,
            timestamp,
            reserve_key,
        )
    }
}

/// What a transaction does to a state.
pub open spec fn transaction_rule(
    s: StateModel,
    tx: Transaction,
    height: u64,
    timestamp: u64,
    reserve_key: Seq<u8>,
) -> Result<StateModel, ExecError> {
    transaction_rule_on(
        s,
        tx,
        height,
        timestamp,
        reserve_key,
        tx_signature_valid(accounts_get(s.accounts, tx.sender).pq_pubkey, tx),
    )
}

/// Checks a transaction's signature for the sender's account.
pub fn signature_verdict(tx: &Transaction, account: &AccountState) -> (ok: bool)
    ensures
        ok == tx_signature_valid(account@.pq_pubkey, *tx),
{
    let message = tx.signing_bytes();
    match &account.pq_pubkey {
        Some(k) => pq_signature_accepted(k.as_slice(), message.as_slice(), tx.signature.as_slice()),
        None => signature_accepted(&tx.sender, message.as_slice(), tx.signature.as_slice()),
    }
}

/// Checks a transaction's signature against the sender's account in a state.
pub fn signature_verdict_in(tx: &Transaction, state: &GlobalState) -> (ok: bool)
    ensures
        ok == tx_signature_valid(accounts_get(state@.accounts, tx.sender).pq_pubkey, *tx),
{
    match state.accounts.get(&tx.sender) {
        Some(account) => signature_verdict(tx, account),
        None => {
            let message = tx.signing_bytes();
            signature_accepted(&tx.sender, message.as_slice(), tx.signature.as_slice())
        },
    }
}

/// Executes a transaction whose signature verdict is known: nonce check,
/// nonce count, instruction. On any error the state is as it was before.
pub fn apply_transaction(tx: &Transaction, ctx: &mut ExecutionContext, signature_ok: bool) -> (r:
    Result<(), ExecError>)
    ensures
        step_matches(
            old(ctx).state@,
            final(ctx).state@,
            r,
            transaction_rule_on(
                old(ctx).state@,
                *tx,
                old(ctx).height,
                old(ctx).timestamp,
                old(ctx).zk.verifying_key@,
                signature_ok,
            ),
        ),
        final(ctx).height == old(ctx).height,
        final(ctx).timestamp == old(ctx).timestamp,
        final(ctx).zk == old(ctx).zk,
{
    if !signature_ok {
        return Err(ExecError::CryptoInvalid);
    }
    let existed = ctx.state.accounts.contains_key(&tx.sender);
    let account = ctx.state.accounts.get_or_default(&tx.sender);
    if tx.nonce != account.nonce {
        return Err(ExecError::NonceMismatch { expected: account.nonce, got: tx.nonce });
    }
    if account.nonce == u64::MAX {
        return Err(ExecError::Overflow);
    }
    let mut counted = account.clone();
    counted.nonce = counted.nonce + 1;
    proof {
        lemma_accounts_put_undo(ctx.state@.accounts, tx.sender, counted@);
    }
    ctx.state.accounts.insert(tx.sender, counted);
    let r = execute_si(&tx.instruction, &tx.sender, ctx);
    if r.is_err() {
        if existed {
            ctx.state.accounts.insert(tx.sender, account);
        } else {
            ctx.state.accounts.remove(&tx.sender);
        }
    }
    r
}

/// The single entry point for a transaction: its signature is verified, its
/// nonce checked and counted, and its instruction executed. A transaction
/// that fails changes nothing.
pub fn execute_transaction(tx: &Transaction, ctx: &mut ExecutionContext) -> (r: Result<
    (),
    ExecError,
>)
    ensures
        step_matches(
            old(ctx).state@,
            final(ctx).state@,
            r,
            transaction_rule(
                old(ctx).state@,
                *tx,
                old(ctx).height,
                old(ctx).timestamp,
                old(ctx).zk.verifying_key@,
            ),
        ),
        final(ctx).height == old(ctx).height,
        final(ctx).timestamp == old(ctx).timestamp,
        final(ctx).zk == old(ctx).zk,
{
    let ok = signature_verdict_in(tx, &ctx.state);
    apply_transaction(tx, ctx, ok)
}

/// Sender and receiver of a plain transfer; nothing for any other
/// instruction.
pub open spec fn transfer_parties(tx: Transaction) -> Option<(Address, Address)> {
    match tx.instruction {
        StablecoinInstruction::Transfer { to, amount, asset } => Some((tx.sender, to)),
        _ => None,
    }
}

/// Sender and receiver of a plain transfer; nothing for any other
/// instruction.
pub fn non_conflicting_transfer(tx: &Transaction) -> (r: Option<(Address, Address)>)
    ensures
        r == transfer_parties(*tx),
{
    match &tx.instruction {
        StablecoinInstruction::Transfer { to, amount, asset } => Some((tx.sender, *to)),
        _ => None,
    }
}

/// The receiver of a plain transfer; the sender for any other instruction.
pub open spec fn transfer_receiver(tx: Transaction) -> Address {
    match tx.instruction {
        StablecoinInstruction::Transfer { to, amount, asset } => to,
        _ => tx.sender,
    }
}

/// Whether a transaction is picked for the pre-check, given the parties of
/// those picked before it: a plain transfer neither of whose parties is
/// among them.
pub open spec fn picks(tx: Transaction, touched: Seq<Address>) -> bool {
    match transfer_parties(tx) {
        Some((from, to)) => !touched.contains(from) && !touched.contains(to),
        None => false,
    }
}

/// The parties of the transactions picked among the first `n`.
pub open spec fn touched_parties(txs: Seq<Transaction>, n: int) -> Seq<Address>
    decreases n,
{
    if n <= 0 {
        Seq::empty()
    } else {
        let before = touched_parties(txs, n - 1);
        if picks(txs[n - 1], before) {
            before.push(txs[n - 1].sender).push(transfer_receiver(txs[n - 1]))
        } else {
            before
        }
    }
}

/// The indices of the transactions picked among the first `n`, ascending.
pub open spec fn picked_indices(txs: Seq<Transaction>, n: int) -> Seq<usize>
    decreases n,
{
    if n <= 0 {
        Seq::empty()
    } else if picks(txs[n - 1], touched_parties(txs, n - 1)) {
        picked_indices(txs, n - 1).push((n - 1) as usize)
    } else {
        picked_indices(txs, n - 1)
    }
}

/// Every picked index is below the number scanned.
pub proof fn lemma_picked_indices(txs: Seq<Transaction>, n: int)
    requires
        0 <= n <= txs.len(),
        txs.len() <= usize::MAX,
    ensures
        forall|k: int|
            0 <= k < picked_indices(txs, n).len() ==> (#[trigger] picked_indices(txs, n)[k]) < n,
    decreases n,
{
    if n > 0 {
        lemma_picked_indices(txs, n - 1);
        let before = picked_indices(txs, n - 1);
        let now = picked_indices(txs, n);
        assert forall|k: int| 0 <= k < now.len() implies (#[trigger] now[k]) < n by {
            if k < before.len() {
                assert(now[k] == before[k]);
            }
        }
    }
}

/// Scans the transactions once and picks, for the signature pre-check, each
/// plain transfer whose sender and receiver are disjoint from the parties of
/// every transaction picked before it.
pub fn select_non_conflicting(txs: &[Transaction]) -> (picked: Vec<usize>)
    ensures
        picked@ == picked_indices(txs@, txs@.len() as int),
        forall|k: int| 0 <= k < picked@.len() ==> (#[trigger] picked@[k]) < txs@.len(),
{
    let mut touched: Vec<Address> = Vec::new();
    let mut picked: Vec<usize> = Vec::new();
    let mut i: usize = 0;
    while i < txs.len()
        invariant
            i <= txs@.len(),
            touched@ == touched_parties(txs@, i as int),
            picked@ == picked_indices(txs@, i as int),
        decreases txs@.len() - i,
    {
        match non_conflicting_transfer(&txs[i]) {
            Some((from, to)) => {
                if !addr_list_contains(&touched, &from) && !addr_list_contains(&touched, &to) {
                    touched.push(from);
                    touched.push(to);
                    picked.push(i);
                }
            },
            None => {},
        }
        i = i + 1;
    }
    proof {
        lemma_picked_indices(txs@, txs@.len() as int);
    }
    picked
}

/// Runs the signature check of each picked transaction against the state, on
/// rayon's thread pool: `par_iter`, `map` and `collect` into a vector, which
/// keeps the order of the items. Entry `k` is the verdict on the `k`-th
/// picked transaction.
#[verifier::external_body]
pub(crate) fn parallel_signature_verdicts(txs: &[Transaction], picked: &Vec<usize>, state: &GlobalState) -> (verdicts:
    Vec<bool>)
    requires
        forall|k: int| 0 <= k < picked@.len() ==> (#[trigger] picked@[k]) < txs@.len(),
    ensures
        verdicts@.len() == picked@.len(),
        forall|k: int|
            0 <= k < picked@.len() ==> (#[trigger] verdicts@[k]) == tx_signature_valid(
                accounts_get(state@.accounts, txs@[picked@[k] as int].sender).pq_pubkey,
                txs@[picked@[k] as int],
            ),
{
    rayon::iter::ParallelIterator::collect(
        rayon::iter::ParallelIterator::map(
            rayon::iter::IntoParallelRefIterator::par_iter(picked),
            |i: &usize| signature_verdict_in(&txs[*i], state),
        ),
    )
}

/// The state after the first `n` transactions were executed in order, up to
/// the first that fails, with that failure if there is one. A transaction
/// that fails changes nothing, and none after it is executed.
pub open spec fn transactions_rule(
    s: StateModel,
    txs: Seq<Transaction>,
    n: int,
    height: u64,
    timestamp: u64,
    reserve_key: Seq<u8>,
) -> (StateModel, Option<ExecError>)
    decreases n,
{
    if n <= 0 {
        (s, None)
    } else {
        let before = transactions_rule(s, txs, n - 1, height, timestamp, reserve_key);
        if before.1 is Some {
            before
        } else {
            match transaction_rule(before.0, txs[n - 1], height, timestamp, reserve_key) {
                Ok(after) => (after, None),
                Err(e) => (before.0, Some(e)),
            }
        }
    }
}

/// Executes the transactions in order, stopping at the first that fails.
pub fn execute_transactions_in_order(txs: &[Transaction], ctx: &mut ExecutionContext) -> (r: Result<
    (),
    ExecError,
>)
    ensures
        final(ctx).state@ == transactions_rule(
            old(ctx).state@,
            txs@,
            txs@.len() as int,
            old(ctx).height,
            old(ctx).timestamp,
            old(ctx).zk.verifying_key@,
        ).0,
        match transactions_rule(
            old(ctx).state@,
            txs@,
            txs@.len() as int,
            old(ctx).height,
            old(ctx).timestamp,
            old(ctx).zk.verifying_key@,
        ).1 {
            Some(e) => r == Err::<(), ExecError>(e),
            None => r is Ok,
        },
        final(ctx).height == old(ctx).height,
        final(ctx).timestamp == old(ctx).timestamp,
        final(ctx).zk == old(ctx).zk,
{
    let n = txs.len();
    let mut i: usize = 0;
    while i < n
        invariant
            i <= n,
            n == txs@.len(),
            ctx.height == old(ctx).height,
            ctx.timestamp == old(ctx).timestamp,
            ctx.zk == old(ctx).zk,
            transactions_rule(
                old(ctx).state@,
                txs@,
                i as int,
                ctx.height,
                ctx.timestamp,
                ctx.zk.verifying_key@,
            ) == (ctx.state@, None::<ExecError>),
        decreases n - i,
    {
        match execute_transaction(&txs[i], ctx) {
            Ok(()) => {},
            Err(e) => {
                proof {
                    lemma_transactions_rule_stops(
                        old(ctx).state@,
                        txs@,
                        i + 1,
                        txs@.len() as int,
                        ctx.height,
                        ctx.timestamp,
                        ctx.zk.verifying_key@,
                    );
                }
                return Err(e);
            },
        }
        i = i + 1;
    }
    Ok(())
}

/// Whether two optional keys hold the same bytes.
pub fn same_key(a: &Option<Vec<u8>>, b: &Option<Vec<u8>>) -> (r: bool)
    ensures
        r == (opt_bytes_view(*a) == opt_bytes_view(*b)),
{
    match (a, b) {
        (Some(x), Some(y)) => bytes_eq(x.as_slice(), y.as_slice()),
        (None, None) => true,
        _ => false,
    }
}

/// Executes the transactions in order, stopping at the first that fails.
/// The signatures of plain transfers with disjoint parties are checked ahead
/// on the thread pool; such a verdict is used only where the sender's key is
/// still the one it was checked for, so the outcome is that of executing the
/// transactions one by one.
pub fn execute_transactions_parallel_non_conflicting(txs: &[Transaction], ctx: &mut ExecutionContext) -> (r:
    Result<(), ExecError>)
    ensures
        final(ctx).state@ == transactions_rule(
            old(ctx).state@,
            txs@,
            txs@.len() as int,
            old(ctx).height,
            old(ctx).timestamp,
            old(ctx).zk.verifying_key@,
        ).0,
        match transactions_rule(
            old(ctx).state@,
            txs@,
            txs@.len() as int,
            old(ctx).height,
            old(ctx).timestamp,
            old(ctx).zk.verifying_key@,
        ).1 {
            Some(e) => r == Err::<(), ExecError>(e),
            None => r is Ok,
        },
        final(ctx).height == old(ctx).height,
        final(ctx).timestamp == old(ctx).timestamp,
        final(ctx).zk == old(ctx).zk,
{
    let picked = select_non_conflicting(txs);
    let verdicts = parallel_signature_verdicts(txs, &picked, &ctx.state);
    let n = txs.len();
    let mut known: Vec<bool> = Vec::new();
    let mut verdict_at: Vec<bool> = Vec::new();
    let mut key_at: Vec<Option<Vec<u8>>> = Vec::new();
    let mut i: usize = 0;
    while i < n
        invariant
            i <= n,
            known@.len() == i,
            verdict_at@.len() == i,
            key_at@.len() == i,
            forall|j: int| 0 <= j < i ==> !(#[trigger] known@[j]),
        decreases n - i,
    {
        known.push(false);
        verdict_at.push(false);
        key_at.push(None);
        i = i + 1;
    }
    let mut k: usize = 0;
    while k < picked.len()
        invariant
            k <= picked@.len(),
            n == txs@.len(),
            known@.len() == n,
            verdict_at@.len() == n,
            key_at@.len() == n,
            verdicts@.len() == picked@.len(),
            *ctx == *old(ctx),
            forall|j: int| 0 <= j < picked@.len() ==> (#[trigger] picked@[j]) < txs@.len(),
            forall|j: int|
                0 <= j < picked@.len() ==> (#[trigger] verdicts@[j]) == tx_signature_valid(
                    accounts_get(ctx.state@.accounts, txs@[picked@[j] as int].sender).pq_pubkey,
                    txs@[picked@[j] as int],
                ),
            forall|j: int|
                0 <= j < n && #[trigger] known@[j] ==> verdict_at@[j] == tx_signature_valid(
                    opt_bytes_view(key_at@[j]),
                    txs@[j],
                ),
        decreases picked@.len() - k,
    {
        let at = picked[k];
        let account = ctx.state.accounts.get_or_default(&txs[at].sender);
        let verdict = verdicts[k];
        known[at] = true;
        verdict_at[at] = verdict;
        key_at[at] = account.pq_pubkey;
        k = k + 1;
    }
    let mut i: usize = 0;
    while i < n
        invariant
            i <= n,
            n == txs@.len(),
            known@.len() == n,
            verdict_at@.len() == n,
            key_at@.len() == n,
            forall|j: int|
                0 <= j < n && #[trigger] known@[j] ==> verdict_at@[j] == tx_signature_valid(
                    opt_bytes_view(key_at@[j]),
                    txs@[j],
                ),
            ctx.height == old(ctx).height,
            ctx.timestamp == old(ctx).timestamp,
            ctx.zk == old(ctx).zk,
            transactions_rule(
                old(ctx).state@,
                txs@,
                i as int,
                ctx.height,
                ctx.timestamp,
                ctx.zk.verifying_key@,
            ) == (ctx.state@, None::<ExecError>),
        decreases n - i,
    {
        let r = if known[i] {
            let account = ctx.state.accounts.get_or_default(&txs[i].sender);
            if same_key(&account.pq_pubkey, &key_at[i]) {
                apply_transaction(&txs[i], ctx, verdict_at[i])
            } else {
                execute_transaction(&txs[i], ctx)
            }
        } else {
            execute_transaction(&txs[i], ctx)
        };
        match r {
            Ok(()) => {},
            Err(e) => {
                proof {
                    lemma_transactions_rule_stops(
                        old(ctx).state@,
                        txs@,
                        i + 1,
                        txs@.len() as int,
                        ctx.height,
                        ctx.timestamp,
                        ctx.zk.verifying_key@,
                    );
                }
                return Err(e);
            },
        }
        i = i + 1;
    }
    Ok(())
}

/// Once a transaction has failed, the transactions after it change nothing.
pub proof fn lemma_transactions_rule_stops(
    s: StateModel,
    txs: Seq<Transaction>,
    n: int,
    m: int,
    height: u64,
    timestamp: u64,
    reserve_key: Seq<u8>,
)
    requires
        0 <= n <= m,
        transactions_rule(s, txs, n, height, timestamp, reserve_key).1 is Some,
    ensures
        transactions_rule(s, txs, m, height, timestamp, reserve_key) == transactions_rule(
            s,
            txs,
            n,
            height,
            timestamp,
            reserve_key,
        ),
    decreases m - n,
{
    if n < m {
        lemma_transactions_rule_stops(s, txs, n, m - 1, height, timestamp, reserve_key);
    }
}

} // verus!
