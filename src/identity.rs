use vstd::prelude::*;

verus! {

/// Number of bytes in an account identity.
pub const IDENTITY_LEN: usize = 32;

/// The identity of an account: the 32 bytes of its public key.
#[derive(Clone, Copy, Debug)]
pub struct Identity {
    pub bytes: [u8; 32],
}

impl View for Identity {
    type V = Seq<u8>;

    open spec fn view(&self) -> Seq<u8> {
        self.bytes@
    }
}

impl Identity {
    /// An identity made of the given bytes.
    pub fn new(bytes: [u8; 32]) -> (r: Identity)
        ensures
            r@ == bytes@,
    {
        Identity { bytes }
    }

    /// Whether two identities hold the same bytes.
    pub fn same(&self, other: &Identity) -> (r: bool)
        ensures
            r == (self@ == other@),
    {
        let mut i: usize = 0;
        while i < IDENTITY_LEN
            invariant
                i <= IDENTITY_LEN,
                self@.len() == IDENTITY_LEN,
                other@.len() == IDENTITY_LEN,
                forall|j: int| 0 <= j < i ==> self@[j] == other@[j],
            decreases IDENTITY_LEN - i,
        {
            if self.bytes[i] != other.bytes[i] {
                return false;
            }
            i = i + 1;
        }
        assert(self@ =~= other@);
        true
    }
}

impl PartialEq for Identity {
    fn eq(&self, other: &Identity) -> (r: bool) {
        self.same(other)
    }
}

impl Eq for Identity {
}

impl vstd::std_specs::cmp::PartialEqSpecImpl for Identity {
    open spec fn obeys_eq_spec() -> bool {
        true
    }

    open spec fn eq_spec(&self, other: &Identity) -> bool {
        self@ == other@
    }
}

} // verus!
