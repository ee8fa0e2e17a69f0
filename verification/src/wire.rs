use vstd::prelude::*;

verus! {

/// The two big-endian bytes of a 16-bit value.
pub open spec fn be16(n: int) -> Seq<u8>
    recommends
        0 <= n <= 0xFFFF,
{
    seq![(n / 256) as u8, (n % 256) as u8]
}

/// The value read back from two big-endian bytes.
pub open spec fn be16_val(hi: u8, lo: u8) -> int {
    (hi as int) * 256 + (lo as int)
}

/// A run of `n` zero bytes, the deterministic padding fill.
pub open spec fn zeros(n: int) -> Seq<u8>
    recommends
        n >= 0,
{
    Seq::new(n as nat, |i: int| 0u8)
}

/// Reading the two bytes of `be16` gives the value back.
pub proof fn lemma_be16_roundtrip(n: int)
    requires
        0 <= n <= 0xFFFF,
    ensures
        be16_val(be16(n)[0], be16(n)[1]) == n,
{
}

/// Writing the value read from two big-endian bytes gives the bytes back.
pub proof fn lemma_be16_inverse(hi: u8, lo: u8)
    ensures
        be16(be16_val(hi, lo)) == seq![hi, lo],
{
    assert(be16_val(hi, lo) / 256 == hi as int);
    assert(be16_val(hi, lo) % 256 == lo as int);
    assert(be16(be16_val(hi, lo)) =~= seq![hi, lo]);
}

/// Append the big-endian bytes of `n` to `out`.
pub fn push_u16_be(out: &mut Vec<u8>, n: u16)
    ensures
        final(out)@ == old(out)@ + be16(n as int),
{
    out.push((n / 256) as u8);
    out.push((n % 256) as u8);
    proof {
        assert(out@ =~= old(out)@ + be16(n as int));
    }
}

/// The value of two big-endian bytes.
pub fn read_u16_be(hi: u8, lo: u8) -> (n: u16)
    ensures
        n as int == be16_val(hi, lo),
{
    (hi as u16) * 256 + (lo as u16)
}

/// Append `n` zero bytes to `out`.
pub fn push_zeros(out: &mut Vec<u8>, n: usize)
    ensures
        final(out)@ == old(out)@ + zeros(n as int),
{
    let mut i: usize = 0;
    while i < n
        invariant
            i <= n,
            out@ == old(out)@ + zeros(i as int),
        decreases n - i,
    {
        out.push(0u8);
        i = i + 1;
        proof {
            assert(zeros(i as int) =~= zeros(i - 1).push(0u8));
        }
    }
}

/// Append `src[from..to]` to `out`.
pub fn push_bytes(out: &mut Vec<u8>, src: &[u8], from: usize, to: usize)
    requires
        from <= to <= src@.len(),
    ensures
        final(out)@ == old(out)@ + src@.subrange(from as int, to as int),
{
    let mut i: usize = from;
    while i < to
        invariant
            from <= i <= to <= src@.len(),
            out@ == old(out)@ + src@.subrange(from as int, i as int),
        decreases to - i,
    {
        out.push(src[i]);
        i = i + 1;
        proof {
            assert(src@.subrange(from as int, i as int) =~= src@.subrange(from as int, i - 1).push(
                src@[i - 1]));
        }
    }
}

} // verus!
