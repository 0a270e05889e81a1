//! Byte and sample buffers: copying, joining and zero padding.

use vstd::prelude::*;

verus! {

/// A copy of `source`.
pub fn copy_bytes(source: &Vec<u8>) -> (res: Vec<u8>)
    ensures
        res@ == source@,
{
    let mut res: Vec<u8> = Vec::new();
    let mut i: usize = 0;
    while i < source.len()
        invariant
            i <= source.len(),
            res@ == source@.take(i as int),
        decreases source.len() - i,
    {
        res.push(source[i]);
        i += 1;
        assert(res@ =~= source@.take(i as int));
    }
    assert(source@.take(source.len() as int) =~= source@);
    res
}

/// A buffer that holds a copy of `source`.
pub fn copy_slice(source: &[u8]) -> (res: Vec<u8>)
    ensures
        res@ == source@,
{
    let mut res: Vec<u8> = Vec::new();
    push_bytes(&mut res, source);
    assert(res@ =~= source@);
    res
}

/// Appends all of `tail` to `out`.
pub fn push_bytes(out: &mut Vec<u8>, tail: &[u8])
    ensures
        final(out)@ == old(out)@ + tail@,
{
    let mut i: usize = 0;
    while i < tail.len()
        invariant
            i <= tail.len(),
            out@ == old(out)@ + tail@.take(i as int),
        decreases tail.len() - i,
    {
        out.push(tail[i]);
        i += 1;
        assert(out@ =~= old(out)@ + tail@.take(i as int));
    }
    assert(tail@.take(tail.len() as int) =~= tail@);
}

} // verus!
