//! Opaque 32-byte identities of owners, authorities and executors.

use vstd::prelude::*;
use vstd::std_specs::cmp::PartialEqSpecImpl;

verus! {

/// An already-authenticated principal. Identities are never interpreted,
/// only compared for equality.
#[derive(Clone, Copy, Debug)]
pub struct Identity {
    pub bytes: [u8; 32],
}

impl PartialEq for Identity {
    fn eq(&self, other: &Self) -> (r: bool) {
        let mut i: usize = 0;
        while i < 32
            invariant
                i <= 32,
                forall|j: int| 0 <= j < i ==> self.bytes[j] == other.bytes[j],
            decreases 32 - i,
        {
            if self.bytes[i] != other.bytes[i] {
                return false;
            }
            i += 1;
        }
        proof {
            assert(self.bytes =~= other.bytes);
        }
        true
    }
}

impl Eq for Identity {

}

impl PartialEqSpecImpl for Identity {
    open spec fn obeys_eq_spec() -> bool {
        true
    }

    open spec fn eq_spec(&self, other: &Self) -> bool {
        *self == *other
    }
}

/// Whether every byte of `identity` is zero.
pub open spec fn is_zero_identity(identity: Identity) -> bool {
    forall|i: int| 0 <= i < 32 ==> identity.bytes[i] == 0
}

impl Identity {
    /// The identity with the given bytes.
    pub fn new(bytes: [u8; 32]) -> (r: Identity)
        ensures
            r.bytes == bytes,
    {
        Identity { bytes }
    }
}

impl Default for Identity {
    /// The all-zero identity.
    fn default() -> (r: Identity)
        ensures
            is_zero_identity(r),
    {
        Identity { bytes: [0u8; 32] }
    }
}

} // verus!
