//! The state commitment: a radix trie over the 4-bit nibbles of the account
//! addresses. A leaf holds what is left of a key and the account's wire
//! form; an extension holds a path that all keys below it share and the hash
//! of its child; a branch holds up to sixteen child hashes and the value of
//! a key that ends at it. The hash of a node is the digest of its wire form.

use crate::accounts::{AccountMap, AccountSeq};
use crate::bytes::{copy_bytes};
use crate::crypto::{hash32, hash_bytes, zero_hash, zero_hash_value};
use crate::encoding::{
    enc_account, enc_bytes, enc_opt_addr, enc_opt_bytes, encode_account, put_addr, put_bytes,
    put_opt_addr, put_opt_bytes, put_u32,
};
use crate::state::GlobalState;
use vstd::bytes::spec_u32_to_le_bytes;
use vstd::prelude::*;

verus! {

/// A key as nibbles with the value committed under it.
#[derive(Debug)]
pub struct TrieEntry {
    pub key: Vec<u8>,
    pub value: Vec<u8>,
}

/// The mathematical value of a list of trie entries: pairs of key and value.
pub type EntrySeq = Seq<(Seq<u8>, Seq<u8>)>;

/// The pairs of a list of entries.
pub open spec fn entries_view(v: Seq<TrieEntry>) -> EntrySeq {
    Seq::new(v.len(), |i: int| (v[i].key@, v[i].value@))
}

/// The number of nibbles in an address.
pub const KEY_NIBBLES: usize = 64;

/// The nibbles of a byte string: of each byte the high four bits, then the
/// low four.
pub open spec fn nibbles_of(bytes: Seq<u8>) -> Seq<u8> {
    Seq::new(
        2 * bytes.len(),
        |i: int|
            if i % 2 == 0 {
                (bytes[i / 2] / 16) as u8
            } else {
                (bytes[i / 2] % 16) as u8
            },
    )
}

/// Whether all keys have a nibble at `idx` and agree on it.
pub open spec fn all_agree(entries: EntrySeq, idx: int) -> bool {
    forall|e: int|
        0 <= e < entries.len() ==> idx < (#[trigger] entries[e]).0.len() && entries[e].0[idx]
            == entries[0].0[idx]
}

/// The number of nibbles from `start` on that all keys share.
pub open spec fn common_len(entries: EntrySeq, start: int) -> nat
    decreases entries[0].0.len() - start,
{
    if entries.len() > 0 && 0 <= start < entries[0].0.len() && all_agree(entries, start) {
        1 + common_len(entries, start + 1)
    } else {
        0
    }
}

/// The longest path from `start` on that all keys share; empty where a key
/// ends at `start`.
pub open spec fn common_extension(entries: EntrySeq, start: int) -> Seq<u8> {
    if common_len(entries, start) == 0 {
        Seq::empty()
    } else {
        entries[0].0.subrange(start, start + common_len(entries, start))
    }
}

/// The length of the path that an extension at `depth` spans: what all keys
/// share from there on, within the 64 nibbles of an address.
pub open spec fn shared_len(entries: EntrySeq, depth: int) -> nat {
    if depth + common_len(entries, depth) > 64 {
        (64 - depth) as nat
    } else {
        common_len(entries, depth)
    }
}

/// The path that an extension at `depth` spans.
pub open spec fn shared_path(entries: EntrySeq, depth: int) -> Seq<u8> {
    common_extension(entries, depth).take(shared_len(entries, depth) as int)
}

/// What is left of a key after its first `depth` nibbles.
pub open spec fn rest_of_key(key: Seq<u8>, depth: int) -> Seq<u8> {
    if 0 <= depth <= key.len() {
        key.skip(depth)
    } else {
        Seq::empty()
    }
}

/// Among the first `n` entries, those whose key has nibble `nib` at `depth`,
/// in their order.
pub open spec fn child_entries(entries: EntrySeq, depth: int, nib: u8, n: int) -> EntrySeq
    decreases n,
{
    if n <= 0 {
        Seq::empty()
    } else if depth < entries[n - 1].0.len() && entries[n - 1].0[depth] == nib {
        child_entries(entries, depth, nib, n - 1).push(entries[n - 1])
    } else {
        child_entries(entries, depth, nib, n - 1)
    }
}

/// The value of the first entry at or after `start` whose key ends at
/// `depth`, if there is one.
pub open spec fn value_at(entries: EntrySeq, depth: int, start: int) -> Option<Seq<u8>>
    decreases entries.len() - start,
{
    if start < 0 || start >= entries.len() {
        None
    } else if entries[start].0.len() == depth {
        Some(entries[start].1)
    } else {
        value_at(entries, depth, start + 1)
    }
}

/// The wire form of a leaf.
pub open spec fn enc_leaf(path: Seq<u8>, value: Seq<u8>) -> Seq<u8> {
    Seq::<u8>::empty() + spec_u32_to_le_bytes(0) + enc_bytes(path) + enc_bytes(value)
}

/// The wire form of an extension.
pub open spec fn enc_extension(path: Seq<u8>, child: [u8; 32]) -> Seq<u8> {
    Seq::<u8>::empty() + spec_u32_to_le_bytes(1) + enc_bytes(path) + child@
}

/// The first `n` child slots of a branch, one after the other.
pub open spec fn enc_children_upto(children: Seq<Option<[u8; 32]>>, n: int) -> Seq<u8>
    decreases n,
{
    if n <= 0 {
        Seq::empty()
    } else {
        enc_children_upto(children, n - 1) + enc_opt_addr(children[n - 1])
    }
}

/// The wire form of a branch: its sixteen child slots, then its value.
pub open spec fn enc_branch(children: Seq<Option<[u8; 32]>>, value: Option<Seq<u8>>) -> Seq<u8> {
    Seq::<u8>::empty() + spec_u32_to_le_bytes(2) + enc_children_upto(children, 16) + enc_opt_bytes(
        value,
    )
}

/// The hash of the node built over `entries`, all of which share their first
/// `depth` nibbles; nothing for no entries. One entry gives a leaf. Several
/// entries that share a path give an extension over the node built behind
/// that path. Otherwise they give a branch, with a child for each nibble
/// that a key goes on with.
pub open spec fn node_hash(entries: EntrySeq, depth: int) -> Option<[u8; 32]>
    decreases 64 - depth, 100int,
{
    if entries.len() == 0 {
        None
    } else if entries.len() == 1 {
        Some(hash32(enc_leaf(rest_of_key(entries[0].0, depth), entries[0].1)))
    } else if depth < 0 || depth >= 64 {
        Some(
            hash32(
                enc_branch(Seq::new(16, |nib: int| None::<[u8; 32]>), value_at(entries, depth, 0)),
            ),
        )
    } else if common_len(entries, depth) > 0 {
        match node_hash(entries, depth + shared_len(entries, depth)) {
            Some(child) => Some(hash32(enc_extension(shared_path(entries, depth), child))),
            None => None,
        }
    } else {
        Some(hash32(enc_branch(branch_children(entries, depth, 16), value_at(entries, depth, 0))))
    }
}

/// The first `n` child slots of the branch over `entries` at `depth`.
pub open spec fn branch_children(entries: EntrySeq, depth: int, n: int) -> Seq<Option<[u8; 32]>>
    decreases 64 - depth, n + 1,
    when 0 <= depth < 64
{
    if n <= 0 {
        Seq::empty()
    } else {
        branch_children(entries, depth, n - 1).push(
            node_hash(child_entries(entries, depth, (n - 1) as u8, entries.len() as int), depth + 1),
        )
    }
}

/// The entries that stand for a table of accounts: each address as 64
/// nibbles, with the account's wire form.
pub open spec fn account_entries(accounts: AccountSeq) -> EntrySeq {
    Seq::new(accounts.len(), |i: int| (nibbles_of(accounts[i].0@), enc_account(accounts[i].1)))
}

/// The root of the trie over a table of accounts; the zero hash for none.
pub open spec fn state_root_of(accounts: AccountSeq) -> [u8; 32] {
    match node_hash(account_entries(accounts), 0) {
        Some(h) => h,
        None => zero_hash(),
    }
}

/// The nibbles of an address.
pub fn bytes_to_nibbles(bytes: &[u8; 32]) -> (out: Vec<u8>)
    ensures
        out@ == nibbles_of(bytes@),
{
    let mut out: Vec<u8> = Vec::new();
    let mut i: usize = 0;
    while i < 32
        invariant
            i <= 32,
            out@.len() == 2 * i,
            forall|k: int| 0 <= k < 2 * i ==> out@[k] == nibbles_of(bytes@)[k],
        decreases 32 - i,
    {
        out.push(bytes[i] / 16);
        out.push(bytes[i] % 16);
        i = i + 1;
    }
    assert(out@ =~= nibbles_of(bytes@));
    out
}

/// Whether all keys have a nibble at `idx` and agree on it.
pub fn keys_agree(entries: &Vec<TrieEntry>, idx: usize) -> (r: bool)
    requires
        entries@.len() > 0,
    ensures
        r == all_agree(entries_view(entries@), idx as int),
{
    if idx >= entries[0].key.len() {
        assert(!(idx < entries_view(entries@)[0].0.len()));
        return false;
    }
    let first = entries[0].key[idx];
    let mut e: usize = 0;
    while e < entries.len()
        invariant
            e <= entries@.len(),
            entries@.len() > 0,
            idx < entries@[0].key@.len(),
            first == entries@[0].key@[idx as int],
            forall|j: int|
                0 <= j < e ==> idx < (#[trigger] entries_view(entries@)[j]).0.len()
                    && entries_view(entries@)[j].0[idx as int] == first,
        decreases entries@.len() - e,
    {
        if idx >= entries[e].key.len() || entries[e].key[idx] != first {
            assert(!(idx < entries_view(entries@)[e as int].0.len() && entries_view(
                entries@,
            )[e as int].0[idx as int] == entries_view(entries@)[0].0[idx as int]));
            return false;
        }
        e = e + 1;
    }
    true
}

/// The longest path from `start` on that all keys share.
pub fn longest_common_extension(entries: &Vec<TrieEntry>, start: usize) -> (out: Vec<u8>)
    requires
        entries@.len() > 0,
    ensures
        out@ == common_extension(entries_view(entries@), start as int),
        out@.len() == common_len(entries_view(entries@), start as int),
        start + out@.len() <= entries@[0].key@.len() || out@.len() == 0,
{
    let mut out: Vec<u8> = Vec::new();
    let mut idx: usize = start;
    let ghost view = entries_view(entries@);
    while idx < entries[0].key.len() && keys_agree(entries, idx)
        invariant
            entries@.len() > 0,
            view == entries_view(entries@),
            start <= idx,
            idx <= entries@[0].key@.len() || idx == start,
            out@.len() == idx - start,
            idx > start ==> out@ == view[0].0.subrange(start as int, idx as int),
            common_len(view, start as int) == (idx - start) + common_len(view, idx as int),
        decreases entries@[0].key@.len() - idx,
    {
        out.push(entries[0].key[idx]);
        assert(view[0].0 == entries@[0].key@);
        assert(out@ =~= view[0].0.subrange(start as int, idx + 1));
        idx = idx + 1;
    }
    out
}

/// A copy of the entries whose key has nibble `nib` at `depth`.
pub fn entries_under(entries: &Vec<TrieEntry>, depth: usize, nib: u8) -> (out: Vec<TrieEntry>)
    ensures
        entries_view(out@) == child_entries(
            entries_view(entries@),
            depth as int,
            nib,
            entries@.len() as int,
        ),
{
    let mut out: Vec<TrieEntry> = Vec::new();
    let mut i: usize = 0;
    assert(entries_view(out@) =~= child_entries(entries_view(entries@), depth as int, nib, 0));
    while i < entries.len()
        invariant
            i <= entries@.len(),
            entries_view(out@) == child_entries(entries_view(entries@), depth as int, nib, i as int),
        decreases entries@.len() - i,
    {
        if depth < entries[i].key.len() && entries[i].key[depth] == nib {
            let ghost before = entries_view(out@);
            out.push(
                TrieEntry {
                    key: copy_bytes(entries[i].key.as_slice()),
                    value: copy_bytes(entries[i].value.as_slice()),
                },
            );
            assert(entries_view(out@) =~= before.push(entries_view(entries@)[i as int]));
        }
        i = i + 1;
    }
    out
}

/// The value of the first entry whose key ends at `depth`.
pub fn value_ending_at(entries: &Vec<TrieEntry>, depth: usize) -> (r: Option<Vec<u8>>)
    ensures
        crate::account::opt_bytes_view(r) == value_at(entries_view(entries@), depth as int, 0),
{
    let mut i: usize = 0;
    while i < entries.len()
        invariant
            i <= entries@.len(),
            value_at(entries_view(entries@), depth as int, 0) == value_at(
                entries_view(entries@),
                depth as int,
                i as int,
            ),
        decreases entries@.len() - i,
    {
        if entries[i].key.len() == depth {
            return Some(copy_bytes(entries[i].value.as_slice()));
        }
        i = i + 1;
    }
    None
}

/// Hashes a leaf.
pub fn hash_leaf(path: &[u8], value: &[u8]) -> (h: [u8; 32])
    ensures
        h == hash32(enc_leaf(path@, value@)),
{
    let mut b: Vec<u8> = Vec::new();
    put_u32(&mut b, 0);
    put_bytes(&mut b, path);
    put_bytes(&mut b, value);
    hash_bytes(b.as_slice())
}

/// Hashes an extension.
pub fn hash_extension(path: &[u8], child: &[u8; 32]) -> (h: [u8; 32])
    ensures
        h == hash32(enc_extension(path@, *child)),
{
    let mut b: Vec<u8> = Vec::new();
    put_u32(&mut b, 1);
    put_bytes(&mut b, path);
    put_addr(&mut b, child);
    hash_bytes(b.as_slice())
}

/// Hashes a branch.
pub fn hash_branch(children: &Vec<Option<[u8; 32]>>, value: &Option<Vec<u8>>) -> (h: [u8; 32])
    requires
        children@.len() == 16,
    ensures
        h == hash32(enc_branch(children@, crate::account::opt_bytes_view(*value))),
{
    let mut b: Vec<u8> = Vec::new();
    put_u32(&mut b, 2);
    let ghost base = b@;
    let mut i: usize = 0;
    assert(b@ =~= base + enc_children_upto(children@, 0));
    while i < 16
        invariant
            i <= 16,
            children@.len() == 16,
            b@ == base + enc_children_upto(children@, i as int),
        decreases 16 - i,
    {
        put_opt_addr(&mut b, &children[i]);
        assert(b@ =~= base + enc_children_upto(children@, i + 1));
        i = i + 1;
    }
    put_opt_bytes(&mut b, value);
    hash_bytes(b.as_slice())
}

/// Builds the node over `entries`, all of which share their first `depth`
/// nibbles, and returns its hash.
pub fn build_hash(entries: &Vec<TrieEntry>, depth: usize) -> (r: Option<[u8; 32]>)
    ensures
        r == node_hash(entries_view(entries@), depth as int),
    decreases 64 - depth,
{
    if entries.len() == 0 {
        return None;
    }
    if entries.len() == 1 {
        let key = &entries[0].key;
        let from: usize = if depth <= key.len() {
            depth
        } else {
            key.len()
        };
        let path = vstd::slice::slice_subrange(key.as_slice(), from, key.len());
        assert(path@ =~= rest_of_key(entries_view(entries@)[0].0, depth as int));
        return Some(hash_leaf(path, entries[0].value.as_slice()));
    }
    if depth >= KEY_NIBBLES {
        let mut none: Vec<Option<[u8; 32]>> = Vec::new();
        let mut i: usize = 0;
        while i < 16
            invariant
                i <= 16,
                none@.len() == i,
                forall|k: int| 0 <= k < i ==> none@[k] == None::<[u8; 32]>,
            decreases 16 - i,
        {
            none.push(None);
            i = i + 1;
        }
        assert(none@ =~= Seq::new(16, |nib: int| None::<[u8; 32]>));
        let value = value_ending_at(entries, depth);
        return Some(hash_branch(&none, &value));
    }
    let ext = longest_common_extension(entries, depth);
    if ext.len() > 0 {
        let span: usize = if ext.len() > KEY_NIBBLES - depth {
            KEY_NIBBLES - depth
        } else {
            ext.len()
        };
        let path = vstd::slice::slice_subrange(ext.as_slice(), 0, span);
        assert(path@ =~= shared_path(entries_view(entries@), depth as int));
        return match build_hash(entries, depth + span) {
            Some(child) => Some(hash_extension(path, &child)),
            None => None,
        };
    }
    let mut children: Vec<Option<[u8; 32]>> = Vec::new();
    let mut nib: u8 = 0;
    while nib < 16
        invariant
            nib <= 16,
            depth < 64,
            children@ == branch_children(entries_view(entries@), depth as int, nib as int),
            children@.len() == nib,
        decreases 16 - nib,
    {
        let subset = entries_under(entries, depth, nib);
        let child = build_hash(&subset, depth + 1);
        children.push(child);
        nib = nib + 1;
    }
    let value = value_ending_at(entries, depth);
    Some(hash_branch(&children, &value))
}

/// The root of the trie over the accounts, taken in ascending address
/// order; the zero hash for no accounts.
pub fn account_trie_root(accounts: &AccountMap) -> (root: [u8; 32])
    ensures
        root == state_root_of(accounts@),
{
    let mut data: Vec<TrieEntry> = Vec::new();
    let n = accounts.len();
    let mut i: usize = 0;
    while i < n
        invariant
            i <= n,
            n == accounts@.len(),
            data@.len() == i,
            forall|k: int|
                0 <= k < i ==> entries_view(data@)[k] == account_entries(accounts@)[k],
        decreases n - i,
    {
        let address = accounts.address_at(i);
        data.push(
            TrieEntry { key: bytes_to_nibbles(&address), value: encode_account(accounts.account_at(i)) },
        );
        i = i + 1;
    }
    assert(entries_view(data@) =~= account_entries(accounts@));
    match build_hash(&data, 0) {
        Some(h) => h,
        None => zero_hash_value(),
    }
}

impl GlobalState {
    /// The state root: the root of the trie over the accounts.
    pub fn root_hash(&self) -> (root: [u8; 32])
        ensures
            root == state_root_of(self@.accounts),
    {
        account_trie_root(&self.accounts)
    }
}

} // verus!
