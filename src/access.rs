use vstd::prelude::*;
use crate::error::DistError;

verus! {

/// Byte-wise equality of two identifiers (addresses or token identifiers).
pub fn bytes_equal(a: &[u8], b: &[u8]) -> (r: bool)
    ensures
        r == (a@ == b@),
{
    if a.len() != b.len() {
        return false;
    }
    let mut i: usize = 0;
    while i < a.len()
        invariant
            a@.len() == b@.len(),
            0 <= i <= a@.len(),
            forall|j: int| 0 <= j < i ==> a@[j] == b@[j],
        decreases a@.len() - i,
    {
        if a[i] != b[i] {
            return false;
        }
        i = i + 1;
    }
    assert(a@ =~= b@);
    true
}

/// An owned copy of a byte string.
pub fn copy_bytes(s: &[u8]) -> (r: Vec<u8>)
    ensures
        r@ == s@,
{
    let mut r: Vec<u8> = Vec::new();
    let mut i: usize = 0;
    while i < s.len()
        invariant
            0 <= i <= s@.len(),
            r@ == s@.subrange(0, i as int),
        decreases s@.len() - i,
    {
        r.push(s[i]);
        i = i + 1;
        assert(r@ =~= s@.subrange(0, i as int));
    }
    assert(r@ =~= s@);
    r
}

/// The outcome of the owner check that guards every restricted entry point.
pub open spec fn owner_check(caller: Seq<u8>, owner: Seq<u8>) -> Result<(), DistError> {
    if caller == owner {
        Ok(())
    } else {
        Err(DistError::Unauthorized)
    }
}

/// Guard clause of the restricted entry points: only the registered owner may
/// go on.
pub fn only_owner(caller: &[u8], owner: &[u8]) -> (r: Result<(), DistError>)
    ensures
        r == owner_check(caller@, owner@),
{
    if bytes_equal(caller, owner) {
        Ok(())
    } else {
        Err(DistError::Unauthorized)
    }
}

} // verus!
