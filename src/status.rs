use vstd::prelude::*;

verus! {

/// Where a project stands in its lifecycle.
#[derive(Clone, Copy, Debug, PartialEq, Eq, Structural)]
pub enum ProjectStatus {
    /// Collecting funds; the target has not been met.
    Active,
    /// The balance has met the financial target; still open.
    TargetReached,
    /// Closed after reaching the target; the balance went to the owner.
    Successful,
    /// Closed before reaching the target; every donor was refunded.
    Failed,
}

impl ProjectStatus {
    /// Whether the project still accepts donations and can be closed.
    pub open spec fn is_open_spec(&self) -> bool {
        self == ProjectStatus::Active || self == ProjectStatus::TargetReached
    }

    #[verifier::when_used_as_spec(is_open_spec)]
    pub fn is_open(&self) -> (r: bool)
        ensures
            r == self.is_open_spec(),
    {
        match self {
            ProjectStatus::Active | ProjectStatus::TargetReached => true,
            _ => false,
        }
    }
}

} // verus!
