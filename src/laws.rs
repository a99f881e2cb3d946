use vstd::prelude::*;

use crate::identity::Identity;
use crate::project::{
    donated_total, donors_unique, has_donated, lemma_total_nonnegative,
    lemma_total_push, lemma_total_update, paid_total, refunds, Donator, Payout, ProjectAccount,
};
use crate::status::ProjectStatus;

verus! {

/// Each state follows the one before it by a donation that the ledger
/// accepted and whose transfer went through; `gifts[k]` is the donor and
/// amount of the step from `states[k]` to `states[k + 1]`.
pub open spec fn donation_run(states: Seq<ProjectAccount>, gifts: Seq<(Identity, u64)>) -> bool {
    &&& states.len() == gifts.len() + 1
    &&& forall|k: int|
        0 <= k < gifts.len() ==> {
            &&& (#[trigger] states[k]).donation_check(gifts[k].0@, gifts[k].1) is Ok
            &&& states[k].donation_applied(states[k + 1], gifts[k].0, gifts[k].1)
        }
}

/// An accepted donation keeps the record's invariant.
pub proof fn lemma_donation_keeps_wf(before: ProjectAccount, after: ProjectAccount, who: Identity, amount: u64)
    requires
        before.wf(),
        before.donation_check(who@, amount) is Ok,
        before.donation_applied(after, who, amount),
    ensures
        after.wf(),
{
    let ds = before.donators@;
    lemma_total_nonnegative(ds);
    if has_donated(ds, who@) {
        let i = choose|i: int| 0 <= i < ds.len() && ds[i].user@ == who@;
        crate::project::lemma_amount_within_total(ds, i);
        let d = Donator { user: ds[i].user, amount: (ds[i].amount + amount) as u64 };
        lemma_total_update(ds, i, d);
        assert(after.donators@ == ds.update(i, d));
    } else {
        let d = Donator { user: who, amount };
        lemma_total_push(ds, d);
        assert(after.donators@ == ds.push(d));
    }
}

/// After any run of accepted donations from a well-formed record, every
/// state's balance is the sum of the amounts its donor records hold.
pub proof fn law_balance_consistency(states: Seq<ProjectAccount>, gifts: Seq<(Identity, u64)>)
    requires
        states[0].wf(),
        states[0].status.is_open_spec(),
        donation_run(states, gifts),
    ensures
        forall|k: int| 0 <= k < states.len() ==> (#[trigger] states[k]).wf(),
        forall|k: int| 0 <= k < states.len() ==> (#[trigger] states[k]).balance == donated_total(states[k].donators@),
    decreases gifts.len(),
{
    if gifts.len() > 0 {
        let n = gifts.len() - 1;
        let head = states.subrange(0, n + 1);
        assert(donation_run(head, gifts.subrange(0, n))) by {
            assert forall|k: int| 0 <= k < n implies {
                &&& (#[trigger] head[k]).donation_check(gifts.subrange(0, n)[k].0@, gifts.subrange(0, n)[k].1) is Ok
                &&& head[k].donation_applied(head[k + 1], gifts.subrange(0, n)[k].0, gifts.subrange(0, n)[k].1)
            } by {
                assert(states[k].donation_check(gifts[k].0@, gifts[k].1) is Ok);
            }
        }
        law_balance_consistency(head, gifts.subrange(0, n));
        assert(head[n] == states[n]);
        assert(states[n].donation_check(gifts[n].0@, gifts[n].1) is Ok);
        lemma_donation_keeps_wf(states[n], states[n + 1], gifts[n].0, gifts[n].1);
        assert forall|k: int| 0 <= k < states.len() implies (#[trigger] states[k]).wf() by {
            if k <= n {
                assert(head[k] == states[k]);
            }
        }
    }
}

/// An accepted donation never leaves two records for one donor: a donor who
/// gave before has their own record grow, in place; a new donor's record is
/// appended.
pub proof fn law_donor_uniqueness(before: ProjectAccount, after: ProjectAccount, who: Identity, amount: u64)
    requires
        before.wf(),
        before.donation_check(who@, amount) is Ok,
        before.donation_applied(after, who, amount),
    ensures
        donors_unique(after.donators@),
        has_donated(before.donators@, who@) ==> {
            &&& after.donators@.len() == before.donators@.len()
            &&& exists|i: int|
                0 <= i < before.donators@.len() && before.donators@[i].user@ == who@
                    && after.donators@ == before.donators@.update(
                    i,
                    Donator { user: before.donators@[i].user, amount: (before.donators@[i].amount + amount) as u64 },
                )
        },
        !has_donated(before.donators@, who@) ==> after.donators@ == before.donators@.push(
            Donator { user: who, amount },
        ),
{
    lemma_donation_keeps_wf(before, after, who, amount);
}

/// A donation never takes a project that reached its target back to `Active`.
pub proof fn law_target_monotonic(before: ProjectAccount, after: ProjectAccount, who: Identity, amount: u64)
    requires
        before.wf(),
        before.status == ProjectStatus::TargetReached,
        before.donation_applied(after, who, amount),
    ensures
        after.status == ProjectStatus::TargetReached,
{
}

/// Closing an open project pays out exactly its balance: each donor gets
/// back what their record holds, or the owner gets the whole balance.
pub proof fn law_payouts_cover_balance(p: ProjectAccount)
    requires
        p.wf(),
        p.status.is_open_spec(),
    ensures
        paid_total(p.payouts()) == p.balance,
{
    if p.status == ProjectStatus::Active {
        lemma_refunds_total(p.donators@);
    } else {
        let ps = seq![Payout { to: p.owner, amount: p.balance }];
        assert(ps.drop_last() =~= Seq::<Payout>::empty());
        assert(paid_total(ps.drop_last()) == 0);
        assert(paid_total(ps) == p.balance);
    }
}

/// The refunds add up to what the records hold.
pub proof fn lemma_refunds_total(ds: Seq<Donator>)
    ensures
        paid_total(refunds(ds)) == donated_total(ds),
    decreases ds.len(),
{
    if ds.len() > 0 {
        assert(refunds(ds).drop_last() =~= refunds(ds.drop_last()));
        lemma_refunds_total(ds.drop_last());
    }
}

} // verus!
