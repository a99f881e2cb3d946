use anchor_lang::solana_program::pubkey::Pubkey;
use fundingme_dapp::address::{find_project_address, PROGRAM_ID, PROJECT_SEED};
use fundingme_dapp::errors::CustomError;
use fundingme_dapp::identity::Identity;
use fundingme_dapp::project::{
    Donator,
    check_donation, close_project, closing_payouts, create_project, donate, get_donator_count,
    init_project, CreateProject, ProjectAccount, RunningProject, MAX_DONATORS, MAX_NAME_LEN,
};
use fundingme_dapp::status::ProjectStatus;

fn key(n: u8) -> Identity {
    Identity::new([n; 32])
}

fn new_project(owner: Identity, name: &str, target: u64) -> ProjectAccount {
    let (address, _) = find_project_address(&owner).expect("an address exists");
    let mut ctx = CreateProject { user: owner, project_address: address, project: None };
    assert_eq!(create_project(&mut ctx, name.to_string(), target), Ok(()));
    ctx.project.expect("project stored")
}

fn running(user: Identity, project: ProjectAccount) -> RunningProject {
    RunningProject { user, project }
}

fn give(ctx: &mut RunningProject, who: Identity, amount: u64) -> Result<(), CustomError> {
    ctx.user = who;
    let checked = check_donation(&ctx.project, &who, amount);
    let r = donate(ctx, amount, checked.is_ok());
    assert_eq!(checked.is_err(), r.is_err());
    r
}

fn records(p: &ProjectAccount) -> Vec<(Identity, u64)> {
    p.donators.iter().map(|d| (d.user, d.amount)).collect()
}

#[test]
fn bike_fund_example() {
    let owner = key(9);
    let a = key(1);
    let b = key(2);
    let mut ctx = running(owner, new_project(owner, "Bike Fund", 1000));
    assert_eq!(give(&mut ctx, a, 400), Ok(()));
    assert_eq!(ctx.project.balance, 400);
    assert_eq!(ctx.project.status, ProjectStatus::Active);
    assert_eq!(records(&ctx.project), vec![(a, 400)]);
    assert_eq!(give(&mut ctx, a, 700), Ok(()));
    assert_eq!(ctx.project.balance, 1100);
    assert_eq!(records(&ctx.project), vec![(a, 1100)]);
    assert_eq!(ctx.project.status, ProjectStatus::TargetReached);
    assert_eq!(give(&mut ctx, b, 50), Ok(()));
    assert_eq!(ctx.project.balance, 1150);
    assert_eq!(records(&ctx.project), vec![(a, 1100), (b, 50)]);
    assert_eq!(ctx.project.status, ProjectStatus::TargetReached);
}

#[test]
fn create_sets_initial_values() {
    let owner = key(7);
    let p = new_project(owner, "Garden", 500);
    assert_eq!(p.owner, owner);
    assert_eq!(p.name, "Garden");
    assert_eq!(p.financial_target, 500);
    assert_eq!(p.balance, 0);
    assert_eq!(p.status, ProjectStatus::Active);
    assert!(p.donators.is_empty());
    let (_, bump) = find_project_address(&owner).unwrap();
    assert_eq!(p.bump, bump);
}

#[test]
fn project_address_matches_the_ledger_derivation() {
    let owner = key(3);
    let (address, bump) = find_project_address(&owner).unwrap();
    let program = Pubkey::new_from_array(PROGRAM_ID);
    let (expected, expected_bump) =
        Pubkey::find_program_address(&[PROJECT_SEED.as_slice(), owner.bytes.as_slice()], &program);
    assert_eq!(address.bytes, expected.to_bytes());
    assert_eq!(bump, expected_bump);
    assert_ne!(address, owner);
    assert_eq!(program.to_string(), "DmcSC8vFAoLr756aDoqkV13S6kosdHHNuziRezhCcKUi");
    assert_eq!(PROJECT_SEED.as_slice(), b"project");
}

#[test]
fn project_addresses_differ_by_owner() {
    let (first, _) = find_project_address(&key(1)).unwrap();
    let (second, _) = find_project_address(&key(2)).unwrap();
    assert_ne!(first, second);
    assert_eq!(find_project_address(&key(1)).unwrap().0, first);
}

#[test]
fn create_twice_is_duplicate() {
    let owner = key(4);
    let (address, _) = find_project_address(&owner).unwrap();
    let mut ctx = CreateProject { user: owner, project_address: address, project: None };
    assert_eq!(create_project(&mut ctx, "One".to_string(), 10), Ok(()));
    assert_eq!(create_project(&mut ctx, "Two".to_string(), 20), Err(CustomError::DuplicateProject));
    let p = ctx.project.unwrap();
    assert_eq!(p.name, "One");
    assert_eq!(p.financial_target, 10);
}

#[test]
fn create_at_wrong_address_is_refused() {
    let owner = key(5);
    let mut ctx = CreateProject { user: owner, project_address: key(6), project: None };
    assert_eq!(
        create_project(&mut ctx, "Roof".to_string(), 10),
        Err(CustomError::InvalidProjectAddress)
    );
    assert!(ctx.project.is_none());
}

#[test]
fn init_without_derived_address_is_refused() {
    let mut ctx = CreateProject { user: key(1), project_address: key(2), project: None };
    assert_eq!(
        init_project(&mut ctx, None, "Roof".to_string(), 10),
        Err(CustomError::InvalidProjectAddress)
    );
    assert!(ctx.project.is_none());
}

#[test]
fn init_stores_the_given_bump() {
    let mut ctx = CreateProject { user: key(1), project_address: key(2), project: None };
    assert_eq!(init_project(&mut ctx, Some((key(2), 251)), "Roof".to_string(), 10), Ok(()));
    let p = ctx.project.unwrap();
    assert_eq!(p.bump, 251);
    assert_eq!(p.owner, key(1));
}

#[test]
fn name_size_limit() {
    let longest = "n".repeat(MAX_NAME_LEN);
    let owner = key(8);
    let p = new_project(owner, &longest, 1);
    assert_eq!(p.name.len(), 200);

    let (address, _) = find_project_address(&owner).unwrap();
    let mut ctx = CreateProject { user: owner, project_address: address, project: None };
    let too_long = "n".repeat(MAX_NAME_LEN + 1);
    assert_eq!(create_project(&mut ctx, too_long, 1), Err(CustomError::InvalidInput));
    // 101 two-byte characters: 202 bytes, though only 101 characters.
    let wide = "\u{e9}".repeat(101);
    assert_eq!(create_project(&mut ctx, wide, 1), Err(CustomError::InvalidInput));
    assert!(ctx.project.is_none());
}

#[test]
fn failed_transfer_changes_nothing() {
    let owner = key(9);
    let a = key(1);
    let mut ctx = running(owner, new_project(owner, "Fund", 100));
    assert_eq!(give(&mut ctx, a, 30), Ok(()));
    ctx.user = a;
    assert_eq!(donate(&mut ctx, 50, false), Err(CustomError::DonationFailed));
    assert_eq!(ctx.project.balance, 30);
    assert_eq!(records(&ctx.project), vec![(a, 30)]);
    assert_eq!(ctx.project.status, ProjectStatus::Active);
}

#[test]
fn zero_donation_is_invalid() {
    let owner = key(9);
    let mut ctx = running(owner, new_project(owner, "Fund", 100));
    assert_eq!(give(&mut ctx, key(1), 0), Err(CustomError::InvalidInput));
    assert_eq!(ctx.project.balance, 0);
    assert!(ctx.project.donators.is_empty());
}

#[test]
fn overflowing_donation_is_invalid() {
    let owner = key(9);
    let mut ctx = running(owner, new_project(owner, "Fund", u64::MAX));
    assert_eq!(give(&mut ctx, key(1), u64::MAX - 5), Ok(()));
    assert_eq!(give(&mut ctx, key(2), 6), Err(CustomError::InvalidInput));
    assert_eq!(give(&mut ctx, key(2), 5), Ok(()));
    assert_eq!(ctx.project.balance, u64::MAX);
    assert_eq!(ctx.project.status, ProjectStatus::TargetReached);
}

#[test]
fn zero_target_is_reached_by_first_donation() {
    let owner = key(9);
    let mut ctx = running(owner, new_project(owner, "Fund", 0));
    assert_eq!(ctx.project.status, ProjectStatus::Active);
    assert_eq!(give(&mut ctx, key(1), 1), Ok(()));
    assert_eq!(ctx.project.status, ProjectStatus::TargetReached);
}

#[test]
fn donor_list_capacity() {
    let owner = key(200);
    let mut ctx = running(owner, new_project(owner, "Fund", 1_000_000));
    for n in 0..MAX_DONATORS {
        assert_eq!(give(&mut ctx, key(n as u8), 1), Ok(()));
    }
    assert_eq!(get_donator_count(&ctx), Ok(100));
    assert_eq!(give(&mut ctx, key(150), 1), Err(CustomError::CapacityExceeded));
    assert_eq!(ctx.project.balance, 100);
    assert_eq!(give(&mut ctx, key(3), 5), Ok(()));
    assert_eq!(ctx.project.donators[3].amount, 6);
    assert_eq!(ctx.project.balance, 105);
    assert_eq!(get_donator_count(&ctx), Ok(100));
}

#[test]
fn repeat_donor_is_counted_once() {
    let owner = key(9);
    let mut ctx = running(owner, new_project(owner, "Fund", 1000));
    assert_eq!(get_donator_count(&ctx), Ok(0));
    give(&mut ctx, key(1), 10).unwrap();
    give(&mut ctx, key(2), 20).unwrap();
    give(&mut ctx, key(1), 30).unwrap();
    assert_eq!(get_donator_count(&ctx), Ok(2));
    assert_eq!(records(&ctx.project), vec![(key(1), 40), (key(2), 20)]);
    let total: u64 = ctx.project.donators.iter().map(|d| d.amount).sum();
    assert_eq!(total, ctx.project.balance);
}

#[test]
fn closing_active_project_refunds_donors() {
    let owner = key(9);
    let mut ctx = running(owner, new_project(owner, "Fund", 1000));
    give(&mut ctx, key(1), 100).unwrap();
    give(&mut ctx, key(2), 250).unwrap();
    give(&mut ctx, key(1), 50).unwrap();
    let payouts: Vec<(Identity, u64)> =
        closing_payouts(&ctx.project).iter().map(|p| (p.to, p.amount)).collect();
    assert_eq!(payouts, vec![(key(1), 150), (key(2), 250)]);
    ctx.user = owner;
    assert_eq!(close_project(&mut ctx, true), Ok(()));
    assert_eq!(ctx.project.balance, 0);
    assert_eq!(ctx.project.status, ProjectStatus::Failed);
    assert!(closing_payouts(&ctx.project).is_empty());
}

#[test]
fn closing_funded_project_pays_owner() {
    let owner = key(9);
    let mut ctx = running(owner, new_project(owner, "Fund", 100));
    give(&mut ctx, key(1), 80).unwrap();
    give(&mut ctx, key(2), 40).unwrap();
    assert_eq!(ctx.project.status, ProjectStatus::TargetReached);
    let payouts: Vec<(Identity, u64)> =
        closing_payouts(&ctx.project).iter().map(|p| (p.to, p.amount)).collect();
    assert_eq!(payouts, vec![(owner, 120)]);
    ctx.user = owner;
    assert_eq!(close_project(&mut ctx, true), Ok(()));
    assert_eq!(ctx.project.balance, 0);
    assert_eq!(ctx.project.status, ProjectStatus::Successful);
}

#[test]
fn closing_twice_is_invalid_status() {
    let owner = key(9);
    let mut ctx = running(owner, new_project(owner, "Fund", 100));
    give(&mut ctx, key(1), 10).unwrap();
    ctx.user = owner;
    assert_eq!(close_project(&mut ctx, true), Ok(()));
    assert_eq!(close_project(&mut ctx, true), Err(CustomError::InvalidProjectStatus));
    assert_eq!(ctx.project.status, ProjectStatus::Failed);
    assert_eq!(ctx.project.balance, 0);
    assert_eq!(give(&mut ctx, key(1), 10), Err(CustomError::InvalidProjectStatus));
    assert_eq!(ctx.project.status, ProjectStatus::Failed);
}

#[test]
fn closing_by_stranger_is_unauthorized() {
    let owner = key(9);
    let mut ctx = running(owner, new_project(owner, "Fund", 100));
    give(&mut ctx, key(1), 10).unwrap();
    ctx.user = key(1);
    assert_eq!(close_project(&mut ctx, true), Err(CustomError::Unauthorized));
    assert_eq!(ctx.project.status, ProjectStatus::Active);
    assert_eq!(ctx.project.balance, 10);
}

#[test]
fn failed_payouts_leave_project_open() {
    let owner = key(9);
    let mut ctx = running(owner, new_project(owner, "Fund", 100));
    give(&mut ctx, key(1), 10).unwrap();
    ctx.user = owner;
    assert_eq!(close_project(&mut ctx, false), Err(CustomError::PayoutFailed));
    assert_eq!(ctx.project.status, ProjectStatus::Active);
    assert_eq!(ctx.project.balance, 10);
}

#[test]
fn identity_equality_compares_bytes() {
    let mut bytes = [5u8; 32];
    assert_eq!(Identity::new(bytes), key(5));
    bytes[31] = 6;
    assert_ne!(Identity::new(bytes), key(5));
    assert!(key(5).same(&key(5)));
    assert!(!key(5).same(&Identity::new(bytes)));
}

#[test]
fn well_formed_records() {
    let owner = key(9);
    let mut ctx = running(owner, new_project(owner, "Fund", 100));
    assert!(ctx.project.is_well_formed());
    give(&mut ctx, key(1), 60).unwrap();
    give(&mut ctx, key(2), 60).unwrap();
    assert!(ctx.project.is_well_formed());

    let mut skewed = running(owner, new_project(owner, "Fund", 100)).project;
    skewed.donators.push(Donator { user: key(1), amount: 5 });
    assert!(!skewed.is_well_formed());
    skewed.balance = 5;
    assert!(skewed.is_well_formed());
    skewed.donators.push(Donator { user: key(1), amount: 5 });
    skewed.balance = 10;
    assert!(!skewed.is_well_formed());

    let mut early = new_project(owner, "Fund", 100);
    early.status = ProjectStatus::TargetReached;
    assert!(!early.is_well_formed());
    early.status = ProjectStatus::Failed;
    assert!(early.is_well_formed());
    early.balance = 1;
    assert!(!early.is_well_formed());
}
