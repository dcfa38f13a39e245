//! The library's stated laws, proved from what the operations ensure.

use crate::derivation::project_seeds;
use crate::ledger::Ledger;
use crate::state::project_wf;
use crate::store::bal_of;
use vstd::prelude::*;

verus! {

/// Balance lock-step: in every well-formed ledger — and every operation
/// carries well-formedness from state to state — each project's recorded
/// total equals the balance its treasury actually holds.
pub proof fn lemma_lock_step(l: Ledger, i: int)
    requires
        l.wf(),
        0 <= i < l.projects@.len(),
    ensures
        l.projects@[i].total_donation == bal_of(l.lamports@, l.projects@[i].treasury@),
{
}

/// Non-negativity: a recorded total is never negative, in any state.
pub proof fn lemma_total_nonnegative(l: Ledger, i: int)
    requires
        0 <= i < l.projects@.len(),
    ensures
        l.projects@[i].total_donation >= 0,
{
}

/// Two recorded projects never share a name: equal names would derive equal
/// addresses, and well-formedness keeps recorded addresses distinct.
pub proof fn lemma_project_names_unique(l: Ledger, i: int, j: int)
    requires
        l.wf(),
        0 <= i < l.projects@.len(),
        0 <= j < l.projects@.len(),
        i != j,
    ensures
        l.projects@[i].name@ != l.projects@[j].name@,
{
    assert(project_wf(l.projects@[i], l.program_id@));
    assert(project_wf(l.projects@[j], l.program_id@));
    if l.projects@[i].name@ == l.projects@[j].name@ {
        assert(project_seeds(l.projects@[i].name@) == project_seeds(l.projects@[j].name@));
        if i < j {
            assert(l.projects@[i].address@ != l.projects@[j].address@);
        } else {
            assert(l.projects@[j].address@ != l.projects@[i].address@);
        }
        assert(false);
    }
}

/// The sum of a sequence of contribution amounts.
pub open spec fn sum_amounts(s: Seq<u64>) -> int
    decreases s.len(),
{
    if s.len() == 0 {
        0
    } else {
        s[0] + sum_amounts(s.drop_first())
    }
}

/// Taking the last element out of a sum takes exactly its value out.
pub proof fn lemma_sum_drop_last(s: Seq<u64>)
    requires
        s.len() > 0,
    ensures
        sum_amounts(s) == sum_amounts(s.drop_last()) + s.last(),
    decreases s.len(),
{
    if s.len() == 1 {
        assert(s.drop_last() =~= Seq::<u64>::empty());
        assert(sum_amounts(Seq::<u64>::empty()) == 0);
        assert(s.drop_first() =~= Seq::<u64>::empty());
    } else {
        lemma_sum_drop_last(s.drop_first());
        assert(s.drop_first().drop_last() =~= s.drop_last().drop_first());
        assert(s.drop_first().last() == s.last());
        assert(s.drop_last()[0] == s[0]);
    }
}

/// Round trip of the exchange: a total that starts at zero and, call after
/// call, grows by each contributed amount — which is what `donate` ensures
/// of `total_donation` — ends as the sum of all the contributed amounts.
pub proof fn lemma_contributions_sum(totals: Seq<u64>, amounts: Seq<u64>)
    requires
        totals.len() == amounts.len() + 1,
        totals[0] == 0,
        forall|k: int| 0 <= k < amounts.len() ==> totals[k + 1] == totals[k] + amounts[k],
    ensures
        totals.last() == sum_amounts(amounts),
    decreases amounts.len(),
{
    if amounts.len() > 0 {
        assert(totals.drop_last()[0] == totals[0]);
        assert(totals.last() == totals[amounts.len() - 1] + amounts[amounts.len() - 1]);
        lemma_contributions_sum(totals.drop_last(), amounts.drop_last());
        lemma_sum_drop_last(amounts);
        assert(totals.drop_last().last() == totals[amounts.len() - 1]);
    }
}

} // verus!
