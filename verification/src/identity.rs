//! Identities of participants, records and tokens.

use vstd::prelude::*;

verus! {

/// A 32-byte identity: a participant's key, the address of a record, or the
/// identity of a token. Two identities are the same when their bytes are.
#[derive(Clone, Copy, Debug, PartialEq, Eq)]
pub struct Identity {
    pub bytes: [u8; 32],
}

impl Identity {
    /// Whether `self` and `other` name the same party.
    pub fn same_as(&self, other: &Identity) -> (same: bool)
        ensures
            same == (*self == *other),
    {
        let same: bool = digests_equal(&self.bytes, &other.bytes);
        same
    }
}

/// Whether two 32-byte values agree in every byte.
pub fn digests_equal(left: &[u8; 32], right: &[u8; 32]) -> (same: bool)
    ensures
        same == (*left == *right),
        same == (left@ == right@),
{
    let mut i: usize = 0;
    while i < 32
        invariant
            i <= 32,
            forall|j: int| 0 <= j < i ==> left[j] == right[j],
        decreases 32 - i,
    {
        if left[i] != right[i] {
            return false;
        }
        i = i + 1;
    }
    assert(*left =~= *right);
    assert(left@ =~= right@);
    true
}

} // verus!
