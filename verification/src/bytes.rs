//! Byte-string helpers: equality and the lexicographic order on 32-byte
//! addresses and hashes, and copies of byte vectors.

use vstd::prelude::*;

verus! {

/// A 32-byte account address, public key or hash.
pub type Address = [u8; 32];

/// `a` and `b` first differ at index `i`.
pub open spec fn differ_at(a: Seq<u8>, b: Seq<u8>, i: int) -> bool {
    &&& 0 <= i < a.len()
    &&& i < b.len()
    &&& a[i] != b[i]
    &&& forall|j: int| 0 <= j < i ==> a[j] == b[j]
}

/// Lexicographic order on addresses: at the first index where they differ,
/// `a` holds the smaller byte.
pub open spec fn addr_less(a: Address, b: Address) -> bool {
    exists|i: int| #[trigger] differ_at(a@, b@, i) && a@[i] < b@[i]
}

/// Two first-difference indices of the same pair coincide.
pub proof fn lemma_differ_at_unique(a: Seq<u8>, b: Seq<u8>, i: int, k: int)
    requires
        differ_at(a, b, i),
        differ_at(a, b, k),
    ensures
        i == k,
{
    if i < k {
        assert(a[i] == b[i]);
    }
    if k < i {
        assert(a[k] == b[k]);
    }
}

/// The order is transitive.
pub proof fn lemma_addr_less_transitive(a: Address, b: Address, c: Address)
    requires
        addr_less(a, b),
        addr_less(b, c),
    ensures
        addr_less(a, c),
{
    let i = choose|i: int| #[trigger] differ_at(a@, b@, i) && a@[i] < b@[i];
    let k = choose|k: int| #[trigger] differ_at(b@, c@, k) && b@[k] < c@[k];
    let m = if i <= k { i } else { k };
    assert(differ_at(a@, c@, m));
    assert(a@[m] < c@[m]);
}

/// Two different addresses are ordered one way or the other.
pub proof fn lemma_addr_total(a: Address, b: Address)
    ensures
        a == b || addr_less(a, b) || addr_less(b, a),
{
    if a != b {
        if a@ == b@ {
            assert(a =~= b);
        }
        lemma_first_difference(a@, b@, 0);
        let i = choose|i: int| differ_at(a@, b@, i);
        assert(differ_at(b@, a@, i));
    }
}

/// Two sequences of one length that agree before `n` and differ somewhere
/// have a first index at which they differ.
proof fn lemma_first_difference(a: Seq<u8>, b: Seq<u8>, n: int)
    requires
        a.len() == b.len(),
        0 <= n <= a.len(),
        forall|j: int| 0 <= j < n ==> a[j] == b[j],
        a != b,
    ensures
        exists|i: int| differ_at(a, b, i),
    decreases a.len() - n,
{
    if n == a.len() {
        assert(a =~= b);
    } else if a[n] != b[n] {
        assert(differ_at(a, b, n));
    } else {
        lemma_first_difference(a, b, n + 1);
    }
}

/// Whether two addresses hold the same bytes.
pub fn addr_eq(a: &Address, b: &Address) -> (r: bool)
    ensures
        r == (*a == *b),
{
    let mut i: usize = 0;
    while i < 32
        invariant
            i <= 32,
            forall|j: int| 0 <= j < i ==> a@[j] == b@[j],
        decreases 32 - i,
    {
        if a[i] != b[i] {
            return false;
        }
        i = i + 1;
    }
    assert(*a =~= *b);
    true
}

/// Whether `a` comes strictly before `b` in lexicographic order.
pub fn addr_lt(a: &Address, b: &Address) -> (r: bool)
    ensures
        r == addr_less(*a, *b),
        !r && *a != *b ==> addr_less(*b, *a),
{
    let mut i: usize = 0;
    while i < 32
        invariant
            i <= 32,
            forall|j: int| 0 <= j < i ==> a@[j] == b@[j],
        decreases 32 - i,
    {
        if a[i] != b[i] {
            proof {
                let d = i as int;
                assert(differ_at(a@, b@, d));
                assert(differ_at(b@, a@, d));
                if addr_less(*a, *b) {
                    let k = choose|k: int| #[trigger] differ_at(a@, b@, k) && a@[k] < b@[k];
                    lemma_differ_at_unique(a@, b@, d, k);
                }
            }
            return a[i] < b[i];
        }
        i = i + 1;
    }
    proof {
        assert(*a =~= *b);
        if addr_less(*a, *b) {
            let k = choose|k: int| #[trigger] differ_at(a@, b@, k) && a@[k] < b@[k];
            assert(a@[k] == b@[k]);
        }
    }
    false
}

/// Whether two byte strings are equal.
pub fn bytes_eq(a: &[u8], b: &[u8]) -> (r: bool)
    ensures
        r == (a@ == b@),
{
    if a.len() != b.len() {
        return false;
    }
    let mut i: usize = 0;
    while i < a.len()
        invariant
            i <= a.len(),
            a.len() == b.len(),
            forall|j: int| 0 <= j < i ==> a@[j] == b@[j],
        decreases a.len() - i,
    {
        if a[i] != b[i] {
            return false;
        }
        i = i + 1;
    }
    assert(a@ =~= b@);
    true
}

/// A fresh vector holding the bytes of `src`.
pub fn copy_bytes(src: &[u8]) -> (out: Vec<u8>)
    ensures
        out@ == src@,
{
    let mut out: Vec<u8> = Vec::new();
    let mut i: usize = 0;
    while i < src.len()
        invariant
            i <= src.len(),
            out@ == src@.take(i as int),
        decreases src.len() - i,
    {
        out.push(src[i]);
        assert(src@.take(i as int).push(src@[i as int]) =~= src@.take(i + 1));
        i = i + 1;
    }
    assert(src@.take(src@.len() as int) =~= src@);
    out
}

/// Appends the bytes of `src` to `out`.
pub fn append_bytes(out: &mut Vec<u8>, src: &[u8])
    ensures
        final(out)@ == old(out)@ + src@,
{
    let mut i: usize = 0;
    while i < src.len()
        invariant
            i <= src.len(),
            out@ == old(out)@ + src@.take(i as int),
        decreases src.len() - i,
    {
        out.push(src[i]);
        assert((old(out)@ + src@.take(i as int)).push(src@[i as int]) =~= old(out)@ + src@.take(
            i + 1,
        ));
        i = i + 1;
    }
    assert(src@.take(src@.len() as int) =~= src@);
}

/// Whether `needle` occurs in `list`.
pub fn addr_list_contains(list: &Vec<Address>, needle: &Address) -> (r: bool)
    ensures
        r == list@.contains(*needle),
{
    let mut i: usize = 0;
    while i < list.len()
        invariant
            i <= list.len(),
            forall|j: int| 0 <= j < i ==> list@[j] != *needle,
        decreases list.len() - i,
    {
        if addr_eq(&list[i], needle) {
            return true;
        }
        i = i + 1;
    }
    false
}

/// A fresh vector holding the addresses of `src`.
pub fn copy_addrs(src: &Vec<Address>) -> (out: Vec<Address>)
    ensures
        out@ == src@,
{
    let mut out: Vec<Address> = Vec::new();
    let mut i: usize = 0;
    while i < src.len()
        invariant
            i <= src.len(),
            out@ == src@.take(i as int),
        decreases src.len() - i,
    {
        out.push(src[i]);
        assert(src@.take(i as int).push(src@[i as int]) =~= src@.take(i + 1));
        i = i + 1;
    }
    assert(src@.take(src@.len() as int) =~= src@);
    out
}

} // verus!
