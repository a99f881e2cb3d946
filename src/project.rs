use vstd::prelude::*;

use crate::address::{address_view, find_project_address, project_address_of};
use crate::errors::CustomError;
use crate::identity::Identity;
use crate::status::ProjectStatus;

verus! {

/// Largest size, in UTF-8 bytes, of a project's name.
pub const MAX_NAME_LEN: usize = 200;

/// Largest number of donor records a project holds. The stored record is
/// sized once, at creation, so the donor list cannot grow without bound.
pub const MAX_DONATORS: usize = 100;

/// What one donor has given a project over its whole life.
#[derive(Clone, Copy, Debug)]
pub struct Donator {
    pub user: Identity,
    pub amount: u64,
}

/// One crowdfunding project.
#[derive(Debug)]
pub struct ProjectAccount {
    pub owner: Identity,
    pub name: String,
    pub financial_target: u64,
    pub balance: u64,
    pub status: ProjectStatus,
    pub donators: Vec<Donator>,
    pub bump: u8,
}

/// The sum of the recorded amounts.
pub open spec fn donated_total(ds: Seq<Donator>) -> int
    decreases ds.len(),
{
    if ds.len() == 0 {
        0
    } else {
        donated_total(ds.drop_last()) + ds.last().amount
    }
}

/// No two records belong to the same donor.
pub open spec fn donors_unique(ds: Seq<Donator>) -> bool {
    forall|i: int, j: int| 0 <= i < j < ds.len() ==> ds[i].user@ != ds[j].user@
}

/// Whether `who` has a record.
pub open spec fn has_donated(ds: Seq<Donator>, who: Seq<u8>) -> bool {
    exists|i: int| 0 <= i < ds.len() && ds[i].user@ == who
}

/// The records after `who` gives `amount`: their own record grows by it, or a
/// new record for them is appended.
pub open spec fn credited(ds: Seq<Donator>, who: Identity, amount: u64) -> Seq<Donator> {
    if has_donated(ds, who@) {
        let i = choose|i: int| 0 <= i < ds.len() && ds[i].user@ == who@;
        ds.update(i, Donator { user: ds[i].user, amount: (ds[i].amount + amount) as u64 })
    } else {
        ds.push(Donator { user: who, amount })
    }
}

/// The name fits in the storage reserved for it: its UTF-8 size, as `str::len`
/// reports it, is at most `MAX_NAME_LEN`.
pub open spec fn name_fits(name: Seq<char>) -> bool {
    vstd::utf8::encode_utf8(name).len() as usize <= MAX_NAME_LEN
}

/// A transfer out of a project's account, made when the project closes.
#[derive(Clone, Copy, Debug)]
pub struct Payout {
    pub to: Identity,
    pub amount: u64,
}

/// One refund per record: each donor gets back what they gave.
pub open spec fn refunds(ds: Seq<Donator>) -> Seq<Payout> {
    ds.map_values(|d: Donator| Payout { to: d.user, amount: d.amount })
}

/// The sum of the amounts paid out.
pub open spec fn paid_total(ps: Seq<Payout>) -> int
    decreases ps.len(),
{
    if ps.len() == 0 {
        0
    } else {
        paid_total(ps.drop_last()) + ps.last().amount
    }
}

/// The status a project takes when it closes from `s`.
pub open spec fn status_after_closing(s: ProjectStatus) -> ProjectStatus {
    match s {
        ProjectStatus::Active => ProjectStatus::Failed,
        ProjectStatus::TargetReached => ProjectStatus::Successful,
        _ => s,
    }
}

impl ProjectAccount {
    /// The record's invariant.
    pub open spec fn wf(&self) -> bool {
        &&& name_fits(self.name@)
        &&& self.donators@.len() <= MAX_DONATORS
        &&& donors_unique(self.donators@)
        &&& self.status.is_open_spec() ==> self.balance == donated_total(self.donators@)
        &&& !self.status.is_open_spec() ==> self.balance == 0
        &&& self.status == ProjectStatus::TargetReached ==> self.balance >= self.financial_target
    }

    /// Whether a donation of `amount` by `who` may go ahead, and if not, why.
    pub open spec fn donation_check(&self, who: Seq<u8>, amount: u64) -> Result<(), CustomError> {
        if !self.status.is_open_spec() {
            Err(CustomError::InvalidProjectStatus)
        } else if amount == 0 || self.balance + amount > u64::MAX {
            Err(CustomError::InvalidInput)
        } else if !has_donated(self.donators@, who) && self.donators@.len() >= MAX_DONATORS {
            Err(CustomError::CapacityExceeded)
        } else {
            Ok(())
        }
    }

    /// Whether `who` may close the project, and if not, why.
    pub open spec fn closure_check(&self, who: Seq<u8>) -> Result<(), CustomError> {
        if !self.status.is_open_spec() {
            Err(CustomError::InvalidProjectStatus)
        } else if who != self.owner@ {
            Err(CustomError::Unauthorized)
        } else {
            Ok(())
        }
    }

    /// The transfers that closing the project makes: a refund of every record
    /// when the target was not reached, the whole balance to the owner when it
    /// was, nothing once closed.
    pub open spec fn payouts(&self) -> Seq<Payout> {
        match self.status {
            ProjectStatus::Active => refunds(self.donators@),
            ProjectStatus::TargetReached => seq![Payout { to: self.owner, amount: self.balance }],
            _ => seq![],
        }
    }

    /// `after` is this record once it has closed and paid out.
    pub open spec fn closure_applied(&self, after: ProjectAccount) -> bool {
        &&& after.owner == self.owner
        &&& after.name == self.name
        &&& after.financial_target == self.financial_target
        &&& after.bump == self.bump
        &&& after.donators == self.donators
        &&& after.balance == 0
        &&& after.status == status_after_closing(self.status)
    }

    /// `after` is this record once `who` has given `amount`.
    pub open spec fn donation_applied(&self, after: ProjectAccount, who: Identity, amount: u64) -> bool {
        &&& after.owner == self.owner
        &&& after.name == self.name
        &&& after.financial_target == self.financial_target
        &&& after.bump == self.bump
        &&& after.balance == self.balance + amount
        &&& after.donators@ == credited(self.donators@, who, amount)
        &&& after.status == if after.balance >= self.financial_target {
            ProjectStatus::TargetReached
        } else {
            self.status
        }
    }
}


/// The accounts a creation request works with: the signing caller, the
/// address given for the new project, and what is stored there, if anything.
#[derive(Debug)]
pub struct CreateProject {
    pub user: Identity,
    pub project_address: Identity,
    pub project: Option<ProjectAccount>,
}

/// Whether a project named `name` may be created in `ctx`, where `derived` is
/// the address and bump seed derived from the caller, and if not, why.
pub open spec fn creation_check(ctx: CreateProject, derived: Option<(Seq<u8>, u8)>, name: Seq<char>) -> Result<(), CustomError> {
    if derived is None || derived->Some_0.0 != ctx.project_address@ {
        Err(CustomError::InvalidProjectAddress)
    } else if ctx.project is Some {
        Err(CustomError::DuplicateProject)
    } else if !name_fits(name) {
        Err(CustomError::InvalidInput)
    } else {
        Ok(())
    }
}

/// `p` is a fresh project of `owner`: nothing given yet, no donors, `Active`.
pub open spec fn fresh_project(p: ProjectAccount, owner: Identity, name: String, financial_target: u64, bump: u8) -> bool {
    &&& p.owner == owner
    &&& p.name == name
    &&& p.financial_target == financial_target
    &&& p.balance == 0
    &&& p.status == ProjectStatus::Active
    &&& p.donators@.len() == 0
    &&& p.bump == bump
}

/// `after` is `before` once a project named `name` with the given target was
/// asked for, where `derived` is the address and bump seed derived from the
/// caller, and `r` is what the request returned.
pub open spec fn creation_applied(
    before: CreateProject,
    after: CreateProject,
    derived: Option<(Seq<u8>, u8)>,
    name: String,
    financial_target: u64,
    r: Result<(), CustomError>,
) -> bool {
    &&& after.user == before.user
    &&& after.project_address == before.project_address
    &&& r == creation_check(before, derived, name@)
    &&& r is Err ==> after.project == before.project
    &&& r is Ok ==> {
        &&& after.project is Some
        &&& after.project->Some_0.wf()
        &&& fresh_project(after.project->Some_0, before.user, name, financial_target, derived->Some_0.1)
    }
}

/// Stores a new project of the caller in `ctx`, given the address and bump
/// seed derived from the caller.
pub fn init_project(
    ctx: &mut CreateProject,
    derived: Option<(Identity, u8)>,
    name: String,
    financial_target: u64,
) -> (r: Result<(), CustomError>)
    ensures
        creation_applied(*old(ctx), *final(ctx), address_view(derived), name, financial_target, r),
{
    let bump = match derived {
        Some((address, bump)) => {
            if !address.same(&ctx.project_address) {
                return Err(CustomError::InvalidProjectAddress);
            }
            bump
        },
        None => {
            return Err(CustomError::InvalidProjectAddress);
        },
    };
    if ctx.project.is_some() {
        return Err(CustomError::DuplicateProject);
    }
    if name.as_str().len() > MAX_NAME_LEN {
        return Err(CustomError::InvalidInput);
    }
    let project = ProjectAccount {
        owner: ctx.user,
        name,
        financial_target,
        balance: 0,
        status: ProjectStatus::Active,
        donators: Vec::new(),
        bump,
    };
    ctx.project = Some(project);
    Ok(())
}

/// Creates a project of the caller, named `name`, that aims to collect
/// `financial_target`. It is stored at the address derived from the caller,
/// which must be the one `ctx` gives, and only where nothing is stored yet.
pub fn create_project(ctx: &mut CreateProject, name: String, financial_target: u64) -> (r: Result<(), CustomError>)
    ensures
        creation_applied(*old(ctx), *final(ctx), project_address_of(old(ctx).user@), name, financial_target, r),
{
    let derived = find_project_address(&ctx.user);
    init_project(ctx, derived, name, financial_target)
}

/// The accounts a request on an existing project works with: the signing
/// caller and the project's record.
#[derive(Debug)]
pub struct RunningProject {
    pub user: Identity,
    pub project: ProjectAccount,
}

/// Every recorded amount is at most the sum of all of them.
pub proof fn lemma_amount_within_total(ds: Seq<Donator>, i: int)
    requires
        0 <= i < ds.len(),
    ensures
        ds[i].amount <= donated_total(ds),
    decreases ds.len(),
{
    if i < ds.len() - 1 {
        lemma_amount_within_total(ds.drop_last(), i);
    }
    lemma_total_nonnegative(ds.drop_last());
}

/// The sum of the recorded amounts is never negative.
pub proof fn lemma_total_nonnegative(ds: Seq<Donator>)
    ensures
        donated_total(ds) >= 0,
    decreases ds.len(),
{
    if ds.len() > 0 {
        lemma_total_nonnegative(ds.drop_last());
    }
}

/// Replacing one record changes the sum by the difference of the amounts.
pub proof fn lemma_total_update(ds: Seq<Donator>, i: int, d: Donator)
    requires
        0 <= i < ds.len(),
    ensures
        donated_total(ds.update(i, d)) == donated_total(ds) - ds[i].amount + d.amount,
    decreases ds.len(),
{
    let u = ds.update(i, d);
    if i == ds.len() - 1 {
        assert(u.drop_last() =~= ds.drop_last());
    } else {
        assert(u.drop_last() =~= ds.drop_last().update(i, d));
        lemma_total_update(ds.drop_last(), i, d);
    }
}

/// Appending a record adds its amount to the sum.
pub proof fn lemma_total_push(ds: Seq<Donator>, d: Donator)
    ensures
        donated_total(ds.push(d)) == donated_total(ds) + d.amount,
{
    assert(ds.push(d).drop_last() =~= ds);
}

/// The position of `who`'s record, if they have one.
fn find_donator(ds: &Vec<Donator>, who: &Identity) -> (r: Option<usize>)
    ensures
        match r {
            Some(i) => i < ds@.len() && ds@[i as int].user@ == who@,
            None => !has_donated(ds@, who@),
        },
{
    let mut i: usize = 0;
    while i < ds.len()
        invariant
            i <= ds@.len(),
            forall|j: int| 0 <= j < i ==> ds@[j].user@ != who@,
        decreases ds@.len() - i,
    {
        if ds[i].user.same(who) {
            return Some(i);
        }
        i = i + 1;
    }
    None
}

/// The sum of the recorded amounts, which fits in a `u128` for a list no
/// longer than `MAX_DONATORS`.
fn total_of(ds: &Vec<Donator>) -> (r: u128)
    requires
        ds@.len() <= MAX_DONATORS,
    ensures
        r == donated_total(ds@),
{
    let mut acc: u128 = 0;
    let mut i: usize = 0;
    while i < ds.len()
        invariant
            i <= ds@.len() <= MAX_DONATORS,
            acc == donated_total(ds@.subrange(0, i as int)),
            acc <= i * 0xffff_ffff_ffff_ffffu128,
        decreases ds@.len() - i,
    {
        acc = acc + ds[i].amount as u128;
        i = i + 1;
        assert(ds@.subrange(0, i as int).drop_last() =~= ds@.subrange(0, i - 1));
    }
    assert(ds@.subrange(0, i as int) =~= ds@);
    acc
}

/// Whether no two records belong to the same donor.
fn all_distinct(ds: &Vec<Donator>) -> (r: bool)
    ensures
        r == donors_unique(ds@),
{
    let mut i: usize = 0;
    while i < ds.len()
        invariant
            i <= ds@.len(),
            forall|a: int, b: int| 0 <= a < b < ds@.len() && a < i ==> ds@[a].user@ != ds@[b].user@,
        decreases ds@.len() - i,
    {
        let mut j: usize = i + 1;
        while j < ds.len()
            invariant
                i < j <= ds@.len(),
                forall|a: int, b: int| 0 <= a < b < ds@.len() && a < i ==> ds@[a].user@ != ds@[b].user@,
                forall|b: int| i < b < j ==> ds@[i as int].user@ != ds@[b].user@,
            decreases ds@.len() - j,
        {
            if ds[i].user.same(&ds[j].user) {
                return false;
            }
            j = j + 1;
        }
        i = i + 1;
    }
    true
}

impl ProjectAccount {
    /// Whether the record meets its invariant; a host checks a record that it
    /// read from storage with this before handing it to the ledger.
    pub fn is_well_formed(&self) -> (r: bool)
        ensures
            r == self.wf(),
    {
        if self.name.as_str().len() > MAX_NAME_LEN || self.donators.len() > MAX_DONATORS {
            return false;
        }
        if !all_distinct(&self.donators) {
            return false;
        }
        let balance_ok = if self.status.is_open() {
            total_of(&self.donators) == self.balance as u128
        } else {
            self.balance == 0
        };
        balance_ok && (self.status != ProjectStatus::TargetReached || self.balance >= self.financial_target)
    }
}

/// Whether `caller` may give `amount` to `project`, and if not, why. A host
/// asks this before it moves any value, so that no transfer is made for a
/// donation that the ledger would then refuse.
pub fn check_donation(project: &ProjectAccount, caller: &Identity, amount: u64) -> (r: Result<(), CustomError>)
    ensures
        r == project.donation_check(caller@, amount),
{
    if !project.status.is_open() {
        return Err(CustomError::InvalidProjectStatus);
    }
    if amount == 0 || amount > u64::MAX - project.balance {
        return Err(CustomError::InvalidInput);
    }
    let found = find_donator(&project.donators, caller);
    if found.is_none() && project.donators.len() >= MAX_DONATORS {
        Err(CustomError::CapacityExceeded)
    } else {
        Ok(())
    }
}

/// Records a donation of `amount` by the caller, given whether the transfer
/// of that value from the caller to the project went through.
///
/// A refused donation, or one whose transfer failed, changes nothing. Otherwise
/// the balance grows by `amount`, the caller's record grows by it (or a new
/// record is appended), and the status becomes `TargetReached` once the balance
/// meets the target.
pub fn donate(ctx: &mut RunningProject, amount: u64, transfer_succeeded: bool) -> (r: Result<(), CustomError>)
    requires
        old(ctx).project.wf(),
    ensures
        final(ctx).user == old(ctx).user,
        final(ctx).project.wf(),
        old(ctx).project.donation_check(old(ctx).user@, amount) is Err ==> {
            &&& r == old(ctx).project.donation_check(old(ctx).user@, amount)
            &&& final(ctx).project == old(ctx).project
        },
        old(ctx).project.donation_check(old(ctx).user@, amount) is Ok && !transfer_succeeded ==> {
            &&& r == Err::<(), CustomError>(CustomError::DonationFailed)
            &&& final(ctx).project == old(ctx).project
        },
        old(ctx).project.donation_check(old(ctx).user@, amount) is Ok && transfer_succeeded ==> {
            &&& r == Ok::<(), CustomError>(())
            &&& old(ctx).project.donation_applied(final(ctx).project, old(ctx).user, amount)
        },
{
    let checked = check_donation(&ctx.project, &ctx.user, amount);
    if checked.is_err() {
        return checked;
    }
    if !transfer_succeeded {
        return Err(CustomError::DonationFailed);
    }
    let ghost before = ctx.project.donators@;
    let ghost who = ctx.user;
    proof {
        lemma_total_nonnegative(before);
    }
    ctx.project.balance = ctx.project.balance + amount;
    match find_donator(&ctx.project.donators, &ctx.user) {
        Some(i) => {
            proof {
                lemma_amount_within_total(before, i as int);
            }
            let mut d = ctx.project.donators[i];
            d.amount = d.amount + amount;
            ctx.project.donators.set(i, d);
            proof {
                lemma_total_update(before, i as int, d);
                let j = choose|j: int| 0 <= j < before.len() && before[j].user@ == who@;
                assert(j == i as int);
                assert(ctx.project.donators@ =~= credited(before, who, amount));
            }
        },
        None => {
            ctx.project.donators.push(Donator { user: ctx.user, amount });
            proof {
                lemma_total_push(before, Donator { user: who, amount });
                assert(ctx.project.donators@ =~= credited(before, who, amount));
            }
        },
    }
    if ctx.project.balance >= ctx.project.financial_target {
        ctx.project.status = ProjectStatus::TargetReached;
    }
    Ok(())
}

/// The transfers that closing `project` makes, in the order of its records.
pub fn closing_payouts(project: &ProjectAccount) -> (r: Vec<Payout>)
    ensures
        r@ == project.payouts(),
{
    let mut out: Vec<Payout> = Vec::new();
    match project.status {
        ProjectStatus::Active => {
            let mut i: usize = 0;
            while i < project.donators.len()
                invariant
                    project.status == ProjectStatus::Active,
                    i <= project.donators@.len(),
                    out@ =~= refunds(project.donators@.subrange(0, i as int)),
                decreases project.donators@.len() - i,
            {
                let d = project.donators[i];
                out.push(Payout { to: d.user, amount: d.amount });
                i = i + 1;
                assert(project.donators@.subrange(0, i as int) =~= project.donators@.subrange(
                    0,
                    i - 1,
                ).push(d));
            }
            assert(project.donators@.subrange(0, i as int) =~= project.donators@);
        },
        ProjectStatus::TargetReached => {
            out.push(Payout { to: project.owner, amount: project.balance });
            assert(out@ =~= project.payouts());
        },
        _ => {
            assert(out@ =~= project.payouts());
        },
    }
    out
}

/// Closes the project on its owner's request, given whether the transfers of
/// `closing_payouts` went through.
///
/// A closed project, a caller who is not the owner, or failed transfers change
/// nothing. Otherwise the balance drops to zero and the project ends `Failed`
/// (it was `Active`) or `Successful` (it had reached its target).
pub fn close_project(ctx: &mut RunningProject, payouts_succeeded: bool) -> (r: Result<(), CustomError>)
    requires
        old(ctx).project.wf(),
    ensures
        final(ctx).user == old(ctx).user,
        final(ctx).project.wf(),
        old(ctx).project.closure_check(old(ctx).user@) is Err ==> {
            &&& r == old(ctx).project.closure_check(old(ctx).user@)
            &&& final(ctx).project == old(ctx).project
        },
        old(ctx).project.closure_check(old(ctx).user@) is Ok && !payouts_succeeded ==> {
            &&& r == Err::<(), CustomError>(CustomError::PayoutFailed)
            &&& final(ctx).project == old(ctx).project
        },
        old(ctx).project.closure_check(old(ctx).user@) is Ok && payouts_succeeded ==> {
            &&& r == Ok::<(), CustomError>(())
            &&& old(ctx).project.closure_applied(final(ctx).project)
        },
{
    if !ctx.project.status.is_open() {
        return Err(CustomError::InvalidProjectStatus);
    }
    if !ctx.user.same(&ctx.project.owner) {
        return Err(CustomError::Unauthorized);
    }
    if !payouts_succeeded {
        return Err(CustomError::PayoutFailed);
    }
    ctx.project.balance = 0;
    ctx.project.status = match ctx.project.status {
        ProjectStatus::Active => ProjectStatus::Failed,
        _ => ProjectStatus::Successful,
    };
    Ok(())
}

/// The number of distinct donors of the project.
pub fn get_donator_count(ctx: &RunningProject) -> (r: Result<u64, CustomError>)
    ensures
        r == Ok::<u64, CustomError>(ctx.project.donators@.len() as u64),
{
    Ok(ctx.project.donators.len() as u64)
}

} // verus!
