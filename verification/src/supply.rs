//! The sum of the amounts that a finite table of amounts holds.

use vstd::prelude::*;

verus! {

/// The sum of all amounts in `m`.
pub open spec fn total(m: Map<Seq<u8>, nat>) -> nat
    decreases m.dom().len(),
    when m.dom().finite()
{
    if m.dom().len() == 0 {
        0
    } else {
        let k = m.dom().choose();
        m[k] + total(m.remove(k))
    }
}

/// The amount under `k`, zero where `m` holds none.
pub open spec fn amount_at(m: Map<Seq<u8>, nat>, k: Seq<u8>) -> nat {
    if m.dom().contains(k) {
        m[k]
    } else {
        0
    }
}

/// A table that holds nothing sums to zero.
pub proof fn lemma_total_empty(m: Map<Seq<u8>, nat>)
    requires
        m.dom().finite(),
        m.dom().len() == 0,
    ensures
        total(m) == 0,
{
}

/// The sum is the amount under any one key plus the sum of the rest.
pub proof fn lemma_total_remove(m: Map<Seq<u8>, nat>, k: Seq<u8>)
    requires
        m.dom().finite(),
        m.dom().contains(k),
    ensures
        total(m) == m[k] + total(m.remove(k)),
    decreases m.dom().len(),
{
    let c = m.dom().choose();
    if c != k {
        lemma_total_remove(m.remove(c), k);
        lemma_total_remove(m.remove(k), c);
        assert(m.remove(c).remove(k) =~= m.remove(k).remove(c));
    }
}

/// Removing a key that holds nothing changes nothing.
pub proof fn lemma_remove_absent(m: Map<Seq<u8>, nat>, k: Seq<u8>)
    requires
        !m.dom().contains(k),
    ensures
        m.remove(k) == m,
{
    assert(m.remove(k) =~= m);
}

/// The sum is the amount under a key, zero if there is none, plus the sum of
/// the rest.
pub proof fn lemma_total_split(m: Map<Seq<u8>, nat>, k: Seq<u8>)
    requires
        m.dom().finite(),
    ensures
        total(m) == amount_at(m, k) + total(m.remove(k)),
{
    if m.dom().contains(k) {
        lemma_total_remove(m, k);
    } else {
        lemma_remove_absent(m, k);
    }
}

/// Storing an amount under a key changes the sum by the difference to what
/// the key held.
pub proof fn lemma_total_insert(m: Map<Seq<u8>, nat>, k: Seq<u8>, v: nat)
    requires
        m.dom().finite(),
    ensures
        total(m.insert(k, v)) + amount_at(m, k) == total(m) + v,
{
    lemma_total_split(m, k);
    lemma_total_remove(m.insert(k, v), k);
    assert(m.insert(k, v).remove(k) =~= m.remove(k));
}

/// No amount in the table is larger than the sum.
pub proof fn lemma_amount_at_most_total(m: Map<Seq<u8>, nat>, k: Seq<u8>)
    requires
        m.dom().finite(),
    ensures
        amount_at(m, k) <= total(m),
{
    lemma_total_split(m, k);
}

} // verus!
