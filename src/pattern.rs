use vstd::prelude::*;

verus! {

/// The byte the check pattern holds at index `i`: the index modulo 256.
pub open spec fn pattern_byte(i: int) -> u8 {
    (i % 256) as u8
}

/// The check pattern of length `n`.
pub open spec fn pattern_seq(n: nat) -> Seq<u8> {
    Seq::new(n, |i: int| pattern_byte(i))
}

/// A buffer of `len` bytes holding the check pattern, to be placed on the
/// device before a copy.
pub fn fill_pattern(len: usize) -> (r: Vec<u8>)
    ensures
        r@ == pattern_seq(len as nat),
{
    let mut v: Vec<u8> = Vec::with_capacity(len);
    let mut i: usize = 0;
    while i < len
        invariant
            i <= len,
            v@ == pattern_seq(i as nat),
        decreases len - i,
    {
        v.push((i % 256) as u8);
        i = i + 1;
        assert(v@ =~= pattern_seq(i as nat));
    }
    v
}

/// Whether a buffer copied back from the device holds exactly the check
/// pattern of its length.
pub fn matches_pattern(buf: &[u8]) -> (r: bool)
    ensures
        r == (buf@ == pattern_seq(buf@.len())),
{
    let mut i: usize = 0;
    while i < buf.len()
        invariant
            i <= buf@.len(),
            buf@.subrange(0, i as int) == pattern_seq(i as nat),
        decreases buf@.len() - i,
    {
        if buf[i] != (i % 256) as u8 {
            assert(buf@[i as int] != pattern_seq(buf@.len())[i as int]);
            return false;
        }
        assert(buf@.subrange(0, i + 1) =~= pattern_seq((i + 1) as nat));
        i = i + 1;
    }
    assert(buf@ =~= buf@.subrange(0, i as int));
    true
}

} // verus!
