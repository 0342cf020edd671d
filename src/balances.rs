//! The sum of a ledger's balances, and how updates change it.
use vstd::prelude::*;

verus! {

/// The sum of all balances of a finite ledger map.
pub open spec fn sum_balances(m: Map<Seq<char>, u128>) -> int
    decreases m.dom().len(),
{
    if m.dom().finite() && m.dom().len() > 0 {
        let k = m.dom().choose();
        m[k] + sum_balances(m.remove(k))
    } else {
        0
    }
}

/// Every sum of balances is non-negative.
pub proof fn lemma_sum_nonneg(m: Map<Seq<char>, u128>)
    ensures
        sum_balances(m) >= 0,
    decreases m.dom().len(),
{
    if m.dom().finite() && m.dom().len() > 0 {
        let k = m.dom().choose();
        lemma_sum_nonneg(m.remove(k));
    }
}

/// Taking any one entry out of a finite ledger lowers its sum by that entry.
pub proof fn lemma_sum_remove(m: Map<Seq<char>, u128>, k: Seq<char>)
    requires
        m.dom().finite(),
        m.dom().contains(k),
    ensures
        sum_balances(m) == m[k] + sum_balances(m.remove(k)),
    decreases m.dom().len(),
{
    let c = m.dom().choose();
    if c != k {
        let mc = m.remove(c);
        let mk = m.remove(k);
        lemma_sum_remove(mc, k);
        lemma_sum_remove(mk, c);
        assert(mc.remove(k) =~= mk.remove(c));
    } else {
        assert(m.remove(c) =~= m.remove(k));
    }
}

/// Adding a new account with balance `v` raises the sum by `v`.
pub proof fn lemma_sum_insert_new(m: Map<Seq<char>, u128>, k: Seq<char>, v: u128)
    requires
        m.dom().finite(),
        !m.dom().contains(k),
    ensures
        sum_balances(m.insert(k, v)) == sum_balances(m) + v,
{
    lemma_sum_remove(m.insert(k, v), k);
    assert(m.insert(k, v).remove(k) =~= m);
}

/// Setting an existing account's balance to `v` changes the sum by the difference.
pub proof fn lemma_sum_update(m: Map<Seq<char>, u128>, k: Seq<char>, v: u128)
    requires
        m.dom().finite(),
        m.dom().contains(k),
    ensures
        sum_balances(m.insert(k, v)) == sum_balances(m) - m[k] + v,
{
    lemma_sum_remove(m.insert(k, v), k);
    lemma_sum_remove(m, k);
    assert(m.insert(k, v).remove(k) =~= m.remove(k));
}

/// No single balance exceeds the sum.
pub proof fn lemma_entry_le_sum(m: Map<Seq<char>, u128>, k: Seq<char>)
    requires
        m.dom().finite(),
        m.dom().contains(k),
    ensures
        m[k] <= sum_balances(m),
{
    lemma_sum_remove(m, k);
    lemma_sum_nonneg(m.remove(k));
}

/// Two distinct balances together do not exceed the sum.
pub proof fn lemma_pair_le_sum(m: Map<Seq<char>, u128>, a: Seq<char>, b: Seq<char>)
    requires
        m.dom().finite(),
        m.dom().contains(a),
        m.dom().contains(b),
        a != b,
    ensures
        m[a] + m[b] <= sum_balances(m),
{
    lemma_sum_remove(m, a);
    lemma_entry_le_sum(m.remove(a), b);
}

} // verus!
