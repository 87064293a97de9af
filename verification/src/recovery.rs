//! Social recovery: which guardians a list of signatures binds to. Each
//! signature binds to the first guardian, in the account's order, that has
//! not been bound yet and under whose key it verifies; a guardian key is
//! bound at most once.

use crate::account::{AccountModel, AccountState};
use crate::bytes::{addr_list_contains, copy_bytes, Address};
use crate::rules::ExecError;
use crate::signatures::{signature_accepted, signature_valid};
use vstd::prelude::*;

verus! {

/// The index of the first guardian at or after `start` that is not in `used`
/// and that the row marks as matching, or the number of guardians where
/// there is none.
pub open spec fn pick_guardian(guardians: Seq<Address>, row: Seq<bool>, used: Seq<Address>, start: int) -> int
    decreases guardians.len() - start,
{
    if start < 0 || start >= guardians.len() {
        guardians.len() as int
    } else if !used.contains(guardians[start]) && start < row.len() && row[start] {
        start
    } else {
        pick_guardian(guardians, row, used, start + 1)
    }
}

/// The guardians bound by the rows from `i` on, in the order of binding,
/// after those in `used`. Row `k` says under which guardians' keys signature
/// `k` verifies.
pub open spec fn bound_guardians(
    guardians: Seq<Address>,
    matches: Seq<Seq<bool>>,
    used: Seq<Address>,
    i: int,
) -> Seq<Address>
    decreases matches.len() - i,
{
    if i < 0 || i >= matches.len() {
        used
    } else {
        let j = pick_guardian(guardians, matches[i], used, 0);
        if j < guardians.len() {
            bound_guardians(guardians, matches, used.push(guardians[j]), i + 1)
        } else {
            bound_guardians(guardians, matches, used, i + 1)
        }
    }
}

/// The number of guardians that the signatures bind.
pub open spec fn approvals(guardians: Seq<Address>, matches: Seq<Seq<bool>>) -> nat {
    bound_guardians(guardians, matches, Seq::empty(), 0).len()
}

/// What `pick_guardian` returns: in range; where below the length, a guardian
/// that is unused and matches; and none such before it.
pub proof fn lemma_pick_guardian(guardians: Seq<Address>, row: Seq<bool>, used: Seq<Address>, start: int)
    requires
        0 <= start <= guardians.len(),
    ensures
        start <= pick_guardian(guardians, row, used, start) <= guardians.len(),
        pick_guardian(guardians, row, used, start) < guardians.len() ==> {
            let j = pick_guardian(guardians, row, used, start);
            !used.contains(guardians[j]) && j < row.len() && row[j]
        },
    decreases guardians.len() - start,
{
    if start < guardians.len() && !(!used.contains(guardians[start]) && start < row.len()
        && row[start]) {
        lemma_pick_guardian(guardians, row, used, start + 1);
    }
}

/// An index with no unused matching guardian before it, and one at it or the
/// length, is what `pick_guardian` returns.
pub proof fn lemma_pick_guardian_is(
    guardians: Seq<Address>,
    row: Seq<bool>,
    used: Seq<Address>,
    start: int,
    j: int,
)
    requires
        0 <= start <= j <= guardians.len(),
        forall|k: int|
            start <= k < j ==> !(!used.contains(guardians[k]) && k < row.len() && row[k]),
        j < guardians.len() ==> !used.contains(guardians[j]) && j < row.len() && row[j],
    ensures
        pick_guardian(guardians, row, used, start) == j,
    decreases j - start,
{
    if start < j {
        lemma_pick_guardian_is(guardians, row, used, start + 1, j);
    }
}

/// Guardian uniqueness: no guardian is bound twice, and every bound guardian
/// is one of the account's, provided that held of those bound before.
pub proof fn lemma_bound_guardians_distinct(
    guardians: Seq<Address>,
    matches: Seq<Seq<bool>>,
    used: Seq<Address>,
    i: int,
)
    requires
        0 <= i <= matches.len(),
        used.no_duplicates(),
        forall|k: int| 0 <= k < used.len() ==> guardians.contains(#[trigger] used[k]),
    ensures
        bound_guardians(guardians, matches, used, i).no_duplicates(),
        forall|k: int|
            0 <= k < bound_guardians(guardians, matches, used, i).len() ==> guardians.contains(
                #[trigger] bound_guardians(guardians, matches, used, i)[k],
            ),
        used.len() <= bound_guardians(guardians, matches, used, i).len() <= used.len() + (
        matches.len() - i),
    decreases matches.len() - i,
{
    if i < matches.len() {
        let j = pick_guardian(guardians, matches[i], used, 0);
        lemma_pick_guardian(guardians, matches[i], used, 0);
        if j < guardians.len() {
            let next = used.push(guardians[j]);
            assert forall|a: int, b: int| 0 <= a < next.len() && 0 <= b < next.len() && a
                != b implies next[a] != next[b] by {
                if a == used.len() {
                    assert(used.contains(used[b]));
                } else if b == used.len() {
                    assert(used.contains(used[a]));
                }
            }
            assert forall|k: int| 0 <= k < next.len() implies guardians.contains(
                #[trigger] next[k],
            ) by {
                if k == used.len() {
                    assert(guardians[j] == next[k]);
                } else {
                    assert(next[k] == used[k]);
                }
            }
            lemma_bound_guardians_distinct(guardians, matches, next, i + 1);
        } else {
            lemma_bound_guardians_distinct(guardians, matches, used, i + 1);
        }
    }
}

/// The first guardian that is unused and that the row marks as matching, or
/// the number of guardians.
pub fn find_guardian(guardians: &Vec<Address>, row: &Vec<bool>, used: &Vec<Address>) -> (j: usize)
    ensures
        j == pick_guardian(guardians@, row@, used@, 0),
        j <= guardians@.len(),
{
    let mut j: usize = 0;
    while j < guardians.len()
        invariant
            j <= guardians@.len(),
            forall|k: int|
                0 <= k < j ==> !(!used@.contains(guardians@[k]) && k < row@.len() && row@[k]),
        decreases guardians@.len() - j,
    {
        if !addr_list_contains(used, &guardians[j]) && j < row.len() && row[j] {
            proof {
                lemma_pick_guardian_is(guardians@, row@, used@, 0, j as int);
            }
            return j;
        }
        j = j + 1;
    }
    proof {
        lemma_pick_guardian_is(guardians@, row@, used@, 0, j as int);
    }
    j
}

/// Counts the guardians that the signatures bind, from the table of which
/// signature verifies under which guardian's key.
pub fn count_guardian_approvals(guardians: &Vec<Address>, matches: &Vec<Vec<bool>>) -> (count: usize)
    ensures
        count == approvals(guardians@, matches_view(matches@)),
        count <= matches@.len(),
{
    let mut used: Vec<Address> = Vec::new();
    let mut i: usize = 0;
    while i < matches.len()
        invariant
            i <= matches@.len(),
            used@.len() <= i,
            bound_guardians(guardians@, matches_view(matches@), used@, i as int) == bound_guardians(
                guardians@,
                matches_view(matches@),
                Seq::empty(),
                0,
            ),
        decreases matches@.len() - i,
    {
        let j = find_guardian(guardians, &matches[i], &used);
        if j < guardians.len() {
            used.push(guardians[j]);
        }
        i = i + 1;
    }
    used.len()
}

/// The rows of a table of verdicts.
pub open spec fn matches_view(matches: Seq<Vec<bool>>) -> Seq<Seq<bool>> {
    Seq::new(matches.len(), |i: int| matches[i]@)
}

/// The table of verdicts for a recovery: entry `[i][j]` says whether
/// signature `i` is a valid classical signature over the new device key
/// under guardian `j`'s key.
pub open spec fn guardian_matches(guardians: Seq<Address>, message: Seq<u8>, signatures: Seq<Seq<u8>>) -> Seq<
    Seq<bool>,
> {
    Seq::new(
        signatures.len(),
        |i: int| Seq::new(guardians.len(), |j: int| signature_valid(guardians[j], message, signatures[i])),
    )
}

/// The views of a list of signatures.
pub open spec fn signatures_view(signatures: Seq<Vec<u8>>) -> Seq<Seq<u8>> {
    Seq::new(signatures.len(), |i: int| signatures[i]@)
}

/// The number of distinct guardians under whose keys the signatures over
/// `message` bind.
pub open spec fn recovery_approvals(guardians: Seq<Address>, message: Seq<u8>, signatures: Seq<Seq<u8>>) -> nat {
    approvals(guardians, guardian_matches(guardians, message, signatures))
}

/// Checks every signature under every guardian's key.
pub fn check_guardian_signatures(guardians: &Vec<Address>, message: &[u8], signatures: &Vec<Vec<u8>>) -> (table:
    Vec<Vec<bool>>)
    ensures
        matches_view(table@) == guardian_matches(guardians@, message@, signatures_view(signatures@)),
{
    let mut table: Vec<Vec<bool>> = Vec::new();
    let mut i: usize = 0;
    while i < signatures.len()
        invariant
            i <= signatures@.len(),
            table@.len() == i,
            forall|a: int|
                0 <= a < i ==> (#[trigger] table@[a])@ == guardian_matches(
                    guardians@,
                    message@,
                    signatures_view(signatures@),
                )[a],
        decreases signatures@.len() - i,
    {
        let mut row: Vec<bool> = Vec::new();
        let mut j: usize = 0;
        while j < guardians.len()
            invariant
                j <= guardians@.len(),
                i < signatures@.len(),
                row@.len() == j,
                forall|b: int|
                    0 <= b < j ==> row@[b] == signature_valid(
                        guardians@[b],
                        message@,
                        signatures@[i as int]@,
                    ),
            decreases guardians@.len() - j,
        {
            row.push(signature_accepted(&guardians[j], message, signatures[i].as_slice()));
            j = j + 1;
        }
        assert(row@ =~= guardian_matches(guardians@, message@, signatures_view(signatures@))[i as int]);
        table.push(row);
        i = i + 1;
    }
    assert(matches_view(table@) =~= guardian_matches(
        guardians@,
        message@,
        signatures_view(signatures@),
    ));
    table
}

/// What a recovery does to an account: with guardians configured, at least
/// a majority of signatures handed in, and at least a majority of distinct
/// guardians bound, the new device key is written.
pub open spec fn recovered(a: AccountModel, new_device_key: Seq<u8>, signatures: nat, bound: nat) -> Result<
    AccountModel,
    ExecError,
> {
    if a.guardians.len() == 0 {
        Err(ExecError::NotFound)
    } else if signatures < a.guardians.len() / 2 + 1 {
        Err(ExecError::ThresholdNotMet)
    } else if bound < a.guardians.len() / 2 + 1 {
        Err(ExecError::ThresholdNotMet)
    } else {
        Ok(AccountModel { passkey_device_key: Some(new_device_key), ..a })
    }
}

/// Decides a recovery from the number of signatures handed in and the
/// number of guardians that they bind.
pub fn decide_recovery(account: &mut AccountState, new_device_key: &[u8], signatures: usize, bound: u64) -> (r:
    Result<(), ExecError>)
    ensures
        match recovered(old(account)@, new_device_key@, signatures as nat, bound as nat) {
            Ok(a) => r is Ok && final(account)@ == a,
            Err(e) => r == Err::<(), ExecError>(e) && final(account)@ == old(account)@,
        },
{
    if account.guardians.len() == 0 {
        return Err(ExecError::NotFound);
    }
    let threshold = account.guardians.len() / 2 + 1;
    if signatures < threshold {
        return Err(ExecError::ThresholdNotMet);
    }
    if bound < threshold as u64 {
        return Err(ExecError::ThresholdNotMet);
    }
    account.passkey_device_key = Some(copy_bytes(new_device_key));
    Ok(())
}

/// Decides a recovery from the table of verdicts.
pub fn recover_with_matches(account: &mut AccountState, new_device_key: &[u8], matches: &Vec<Vec<bool>>) -> (r:
    Result<(), ExecError>)
    ensures
        match recovered(
            old(account)@,
            new_device_key@,
            matches@.len(),
            approvals(old(account)@.guardians, matches_view(matches@)),
        ) {
            Ok(a) => r is Ok && final(account)@ == a,
            Err(e) => r == Err::<(), ExecError>(e) && final(account)@ == old(account)@,
        },
{
    let bound = count_guardian_approvals(&account.guardians, matches);
    decide_recovery(account, new_device_key, matches.len(), bound as u64)
}

/// Recovers an account: the guardians' signatures over the new device key
/// are checked, and with a majority of distinct guardians bound the key is
/// written.
pub fn recover_social(account: &mut AccountState, new_device_key: &[u8], guardian_signatures: &Vec<Vec<u8>>) -> (r:
    Result<(), ExecError>)
    ensures
        match recovered(
            old(account)@,
            new_device_key@,
            guardian_signatures@.len(),
            recovery_approvals(
                old(account)@.guardians,
                new_device_key@,
                signatures_view(guardian_signatures@),
            ),
        ) {
            Ok(a) => r is Ok && final(account)@ == a,
            Err(e) => r == Err::<(), ExecError>(e) && final(account)@ == old(account)@,
        },
{
    let table = check_guardian_signatures(&account.guardians, new_device_key, guardian_signatures);
    assert(table@.len() == matches_view(table@).len());
    recover_with_matches(account, new_device_key, &table)
}

} // verus!
