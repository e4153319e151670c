use rand::Rng;
use vstd::prelude::*;

verus! {

/// Calls `fill_bytes` on `rand::rng()` (the thread-local generator), which overwrites every byte
/// of `buf` with random data. Only the length is claimed: the bytes themselves are chance.
#[verifier::external_body]
pub(crate) fn fill_random(buf: &mut Vec<u8>)
    ensures
        final(buf)@.len() == old(buf)@.len(),
{
    rand::rng().fill_bytes(buf.as_mut_slice())
}

} // verus!
