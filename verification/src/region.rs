use vstd::prelude::*;

verus! {

/// The region `before` once `payload` has been written over its start.
pub open spec fn overwritten(before: Seq<u8>, payload: Seq<u8>) -> Seq<u8> {
    payload + before.skip(payload.len() as int)
}

/// Copies `source` over the start of `region`, which is at least as long.
/// The bytes of `region` behind the copy stay as they were.
pub fn copy_to_start(region: &mut [u8], source: &[u8])
    requires
        source@.len() <= old(region)@.len(),
    ensures
        final(region)@ == overwritten(old(region)@, source@),
{
    let length: usize = source.len();
    let mut i: usize = 0;
    while i < length
        invariant
            i <= length,
            length == source@.len(),
            length <= region@.len(),
            region@.len() == old(region)@.len(),
            forall|k: int| 0 <= k < i ==> region@[k] == source@[k],
            forall|k: int| i <= k < region@.len() ==> region@[k] == old(region)@[k],
        decreases length - i,
    {
        region[i] = source[i];
        i += 1;
    }
    assert(region@ =~= overwritten(old(region)@, source@));
}

} // verus!
