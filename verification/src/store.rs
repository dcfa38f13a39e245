//! A flat account store: balances keyed by 32-byte addresses.
//!
//! The store is the model of the host's value ledger.  An address that has no
//! entry holds a balance of zero; `bal_of` reads the first entry with a given
//! address, and the store never grows a second entry for the same address.

use vstd::prelude::*;

verus! {

/// One account: an address and the balance it holds.
pub struct BalanceEntry {
    pub address: Vec<u8>,
    pub amount: u64,
}

/// The balance a sequence of entries assigns to `addr`: the first matching
/// entry's amount, or zero when no entry matches.
pub open spec fn bal_of(s: Seq<BalanceEntry>, addr: Seq<u8>) -> u64
    decreases s.len(),
{
    if s.len() == 0 {
        0u64
    } else if s[0].address@ == addr {
        s[0].amount
    } else {
        bal_of(s.drop_first(), addr)
    }
}

/// The balance of the first matching entry is the balance of the sequence.
pub proof fn lemma_bal_first_match(s: Seq<BalanceEntry>, addr: Seq<u8>, i: int)
    requires
        0 <= i < s.len(),
        s[i].address@ == addr,
        forall|j: int| 0 <= j < i ==> s[j].address@ != addr,
    ensures
        bal_of(s, addr) == s[i].amount,
    decreases i,
{
    if i > 0 {
        lemma_bal_first_match(s.drop_first(), addr, i - 1);
    }
}

/// A sequence without a matching entry assigns balance zero.
pub proof fn lemma_bal_no_match(s: Seq<BalanceEntry>, addr: Seq<u8>)
    requires
        forall|j: int| 0 <= j < s.len() ==> s[j].address@ != addr,
    ensures
        bal_of(s, addr) == 0,
    decreases s.len(),
{
    if s.len() > 0 {
        lemma_bal_no_match(s.drop_first(), addr);
    }
}

/// Replacing the first matching entry sets that address's balance.
pub proof fn lemma_bal_update_at(s: Seq<BalanceEntry>, i: int, e: BalanceEntry)
    requires
        0 <= i < s.len(),
        s[i].address@ == e.address@,
        forall|j: int| 0 <= j < i ==> s[j].address@ != e.address@,
    ensures
        bal_of(s.update(i, e), e.address@) == e.amount,
    decreases i,
{
    if i == 0 {
        assert(s.update(0, e)[0] == e);
    } else {
        assert(s.update(i, e).drop_first() =~= s.drop_first().update(i - 1, e));
        lemma_bal_update_at(s.drop_first(), i - 1, e);
    }
}

/// Replacing an entry leaves every other address's balance unchanged.
pub proof fn lemma_bal_update_other(s: Seq<BalanceEntry>, i: int, e: BalanceEntry, b: Seq<u8>)
    requires
        0 <= i < s.len(),
        s[i].address@ == e.address@,
        b != e.address@,
    ensures
        bal_of(s.update(i, e), b) == bal_of(s, b),
    decreases i,
{
    if i == 0 {
        assert(s.update(0, e)[0] == e);
        assert(s.update(0, e).drop_first() =~= s.drop_first());
    } else {
        assert(s.update(i, e)[0] == s[0]);
        if s[0].address@ != b {
            assert(s.update(i, e).drop_first() =~= s.drop_first().update(i - 1, e));
            lemma_bal_update_other(s.drop_first(), i - 1, e, b);
        }
    }
}

/// Appending an entry for a fresh address sets that address's balance.
pub proof fn lemma_bal_push_new(s: Seq<BalanceEntry>, e: BalanceEntry)
    requires
        forall|j: int| 0 <= j < s.len() ==> s[j].address@ != e.address@,
    ensures
        bal_of(s.push(e), e.address@) == e.amount,
    decreases s.len(),
{
    if s.len() == 0 {
        assert(s.push(e)[0] == e);
    } else {
        assert(s.push(e)[0] == s[0]);
        assert(s.push(e).drop_first() =~= s.drop_first().push(e));
        lemma_bal_push_new(s.drop_first(), e);
    }
}

/// Appending an entry leaves every other address's balance unchanged.
pub proof fn lemma_bal_push_other(s: Seq<BalanceEntry>, e: BalanceEntry, b: Seq<u8>)
    requires
        b != e.address@,
    ensures
        bal_of(s.push(e), b) == bal_of(s, b),
    decreases s.len(),
{
    if s.len() == 0 {
        assert(s.push(e)[0] == e);
        assert(s.push(e).drop_first() =~= Seq::<BalanceEntry>::empty());
        assert(bal_of(Seq::<BalanceEntry>::empty(), b) == 0);
    } else {
        assert(s.push(e)[0] == s[0]);
        if s[0].address@ != b {
            assert(s.push(e).drop_first() =~= s.drop_first().push(e));
            lemma_bal_push_other(s.drop_first(), e, b);
        }
    }
}

/// Compare two byte vectors; the result says whether their views are equal.
pub fn bytes_eq(a: &Vec<u8>, b: &Vec<u8>) -> (r: bool)
    ensures
        r == (a@ == b@),
{
    if a.len() != b.len() {
        return false;
    }
    let mut i: usize = 0;
    while i < a.len()
        invariant
            i <= a.len(),
            a.len() == b.len(),
            forall|j: int| 0 <= j < i ==> a@[j] == b@[j],
        decreases a.len() - i,
    {
        if a[i] != b[i] {
            return false;
        }
        i = i + 1;
    }
    proof {
        assert(a@ =~= b@);
    }
    true
}

/// Copy a byte vector; the copy has the same view.
pub fn clone_bytes(v: &Vec<u8>) -> (r: Vec<u8>)
    ensures
        r@ == v@,
{
    let r = v.clone();
    proof {
        assert(r@ =~= v@);
    }
    r
}

/// The index of the first entry with the given address, if any.
fn find_entry(entries: &Vec<BalanceEntry>, addr: &Vec<u8>) -> (r: Option<usize>)
    ensures
        (r matches Some(i) ==> {
            &&& i < entries@.len()
            &&& entries@[i as int].address@ == addr@
            &&& forall|j: int| 0 <= j < i ==> entries@[j].address@ != addr@
        }),
        r is None ==> forall|j: int| 0 <= j < entries@.len() ==> entries@[j].address@ != addr@,
{
    let mut i: usize = 0;
    while i < entries.len()
        invariant
            i <= entries@.len(),
            forall|j: int| 0 <= j < i ==> entries@[j].address@ != addr@,
        decreases entries@.len() - i,
    {
        if bytes_eq(&entries[i].address, addr) {
            return Some(i);
        }
        i = i + 1;
    }
    None
}

/// The balance the store assigns to an address.
pub fn balance_in(entries: &Vec<BalanceEntry>, addr: &Vec<u8>) -> (r: u64)
    ensures
        r == bal_of(entries@, addr@),
{
    match find_entry(entries, addr) {
        Some(i) => {
            proof {
                lemma_bal_first_match(entries@, addr@, i as int);
            }
            entries[i].amount
        },
        None => {
            proof {
                lemma_bal_no_match(entries@, addr@);
            }
            0
        },
    }
}

/// Add `amount` to an address's balance.  Nothing changes and the call
/// reports failure when the addition would wrap.
pub fn credit(entries: &mut Vec<BalanceEntry>, addr: &Vec<u8>, amount: u64) -> (ok: bool)
    ensures
        ok == (bal_of(old(entries)@, addr@) + amount <= u64::MAX),
        ok ==> bal_of(final(entries)@, addr@) == bal_of(old(entries)@, addr@) + amount,
        ok ==> (forall|b: Seq<u8>| b != addr@ ==> bal_of(final(entries)@, b) == bal_of(
            old(entries)@,
            b,
        )),
        !ok ==> final(entries)@ == old(entries)@,
{
    let ghost s0 = entries@;
    match find_entry(entries, addr) {
        Some(i) => {
            proof {
                lemma_bal_first_match(s0, addr@, i as int);
            }
            let cur = entries[i].amount;
            if amount > u64::MAX - cur {
                return false;
            }
            let e = entries.remove(i);
            let updated = BalanceEntry { address: e.address, amount: cur + amount };
            entries.insert(i, updated);
            proof {
                assert(entries@ =~= s0.update(i as int, updated));
                lemma_bal_update_at(s0, i as int, updated);
                assert forall|b: Seq<u8>| b != addr@ implies bal_of(entries@, b) == bal_of(
                    s0,
                    b,
                ) by {
                    lemma_bal_update_other(s0, i as int, updated, b);
                }
            }
            true
        },
        None => {
            proof {
                lemma_bal_no_match(s0, addr@);
            }
            let fresh = BalanceEntry { address: clone_bytes(addr), amount };
            entries.push(fresh);
            proof {
                lemma_bal_push_new(s0, fresh);
                assert forall|b: Seq<u8>| b != addr@ implies bal_of(entries@, b) == bal_of(
                    s0,
                    b,
                ) by {
                    lemma_bal_push_other(s0, fresh, b);
                }
            }
            true
        },
    }
}

/// Take `amount` from an address's balance.  Nothing changes and the call
/// reports failure when the address holds less than `amount`.
pub fn debit(entries: &mut Vec<BalanceEntry>, addr: &Vec<u8>, amount: u64) -> (ok: bool)
    ensures
        ok == (amount <= bal_of(old(entries)@, addr@)),
        ok ==> bal_of(final(entries)@, addr@) == bal_of(old(entries)@, addr@) - amount,
        ok ==> (forall|b: Seq<u8>| b != addr@ ==> bal_of(final(entries)@, b) == bal_of(
            old(entries)@,
            b,
        )),
        !ok ==> final(entries)@ == old(entries)@,
{
    let ghost s0 = entries@;
    match find_entry(entries, addr) {
        Some(i) => {
            proof {
                lemma_bal_first_match(s0, addr@, i as int);
            }
            let cur = entries[i].amount;
            if amount > cur {
                return false;
            }
            let e = entries.remove(i);
            let updated = BalanceEntry { address: e.address, amount: cur - amount };
            entries.insert(i, updated);
            proof {
                assert(entries@ =~= s0.update(i as int, updated));
                lemma_bal_update_at(s0, i as int, updated);
                assert forall|b: Seq<u8>| b != addr@ implies bal_of(entries@, b) == bal_of(
                    s0,
                    b,
                ) by {
                    lemma_bal_update_other(s0, i as int, updated, b);
                }
            }
            true
        },
        None => {
            proof {
                lemma_bal_no_match(s0, addr@);
            }
            amount == 0
        },
    }
}

} // verus!
