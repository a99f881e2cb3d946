//! A crowdfunding ledger. A project collects donations toward a financial
//! target; its record keeps the balance, one cumulative record per donor, and
//! a status that moves from `Active` to `TargetReached` as funds arrive, and
//! ends `Successful` or `Failed` when the owner closes it.
//!
//! Value transfers are the host's work: the ledger says which transfers a
//! request calls for and is told whether they went through, so that a failed
//! transfer leaves every record as it was.

use vstd::prelude::*;

pub mod address;
pub mod errors;
pub mod identity;
pub mod laws;
pub mod project;
pub mod status;

verus! {

} // verus!
