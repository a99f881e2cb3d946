use vstd::prelude::*;

verus! {

/// The ways a ledger request can fail. A failed request leaves every record as it was.
#[derive(Clone, Copy, Debug, PartialEq, Eq, Structural)]
pub enum CustomError {
    /// A malformed argument: a name over the storage budget, a zero amount,
    /// or an amount that would overflow the balance.
    InvalidInput,
    /// A project record already exists at the owner's derived address.
    DuplicateProject,
    /// The account given for the project is not the one derived from its owner.
    InvalidProjectAddress,
    /// The value transfer of a donation did not go through.
    DonationFailed,
    /// The project is already closed.
    InvalidProjectStatus,
    /// The donor list is full and the caller has not donated before.
    CapacityExceeded,
    /// The caller is not the project's owner.
    Unauthorized,
    /// The transfers that pay out a closing project did not go through.
    PayoutFailed,
}

} // verus!
