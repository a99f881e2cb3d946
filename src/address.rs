use vstd::prelude::*;

use anchor_lang::solana_program::pubkey::Pubkey;

use crate::identity::Identity;

verus! {

/// The address of this program on the ledger.
pub const PROGRAM_ID: [u8; 32] = [
    189, 185, 221, 77, 16, 8, 141, 56, 46, 246, 153, 113, 248, 142, 158, 102,
    21, 249, 28, 197, 72, 201, 214, 135, 122, 160, 237, 13, 153, 48, 181, 183,
];

/// The seed, the bytes of "project", that comes before the owner's key when a
/// project's address is derived.
pub const PROJECT_SEED: [u8; 7] = [112, 114, 111, 106, 101, 99, 116];

/// The program-derived address and bump seed that the ledger finds for the
/// seeds `prefix` and `owner` under `program`, or none where no bump gives an
/// address off the curve.
pub uninterp spec fn program_address_of(prefix: Seq<u8>, owner: Seq<u8>, program: Seq<u8>) -> Option<(Seq<u8>, u8)>;

/// An address and bump seed as bytes.
pub open spec fn address_view(d: Option<(Identity, u8)>) -> Option<(Seq<u8>, u8)> {
    match d {
        Some((a, b)) => Some((a@, b)),
        None => None,
    }
}

/// Relies on `Pubkey::try_find_program_address`, which searches the bump seeds
/// from 255 down and hashes the seeds with the program id; its result depends
/// on those bytes alone, and it returns `None` rather than panic.
#[verifier::external_body]
fn find_program_address(prefix: &[u8], owner: &Identity, program: &[u8; 32]) -> (r: Option<(Identity, u8)>)
    ensures
        address_view(r) == program_address_of(prefix@, owner@, program@),
{
    let program_key = Pubkey::new_from_array(*program);
    Pubkey::try_find_program_address(&[prefix, owner.bytes.as_slice()], &program_key)
        .map(|(a, b)| (Identity { bytes: a.to_bytes() }, b))
}

/// The address of the project that `owner` creates, with its bump seed.
pub open spec fn project_address_of(owner: Seq<u8>) -> Option<(Seq<u8>, u8)> {
    program_address_of(PROJECT_SEED@, owner, PROGRAM_ID@)
}

/// Derives the address of the project that `owner` creates, with its bump seed.
pub fn find_project_address(owner: &Identity) -> (r: Option<(Identity, u8)>)
    ensures
        address_view(r) == project_address_of(owner@),
{
    let seed = PROJECT_SEED;
    let program = PROGRAM_ID;
    find_program_address(seed.as_slice(), owner, &program)
}

} // verus!
