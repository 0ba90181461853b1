use vstd::prelude::*;

verus! {

/// The four bytes of a 32-bit word, least significant first.
pub open spec fn word_bytes(w: u32) -> Seq<u8> {
    seq![(w & 0xff) as u8, ((w >> 8u32) & 0xff) as u8, ((w >> 16u32) & 0xff) as u8, (w >> 24u32) as u8]
}

/// The eight bytes of one particle's position: the bits of `x`, then those of `y`.
pub open spec fn point_bytes(p: (u32, u32)) -> Seq<u8> {
    word_bytes(p.0) + word_bytes(p.1)
}

/// A tightly packed position buffer: each point's bytes, in the order of the points.
pub open spec fn packed(points: Seq<(u32, u32)>) -> Seq<u8>
    decreases points.len(),
{
    if points.len() == 0 {
        Seq::empty()
    } else {
        packed(points.drop_last()) + point_bytes(points.last())
    }
}

/// A tightly packed buffer of words: each word's bytes, in order.
pub open spec fn packed_words(words: Seq<u32>) -> Seq<u8>
    decreases words.len(),
{
    if words.len() == 0 {
        Seq::empty()
    } else {
        packed_words(words.drop_last()) + word_bytes(words.last())
    }
}

/// A packed word buffer holds four bytes for each word.
pub proof fn packed_words_len(words: Seq<u32>)
    ensures
        packed_words(words).len() == 4 * words.len(),
    decreases words.len(),
{
    if words.len() > 0 {
        packed_words_len(words.drop_last());
    }
}

/// A packed buffer holds eight bytes for each point.
pub proof fn packed_len(points: Seq<(u32, u32)>)
    ensures
        packed(points).len() == 8 * points.len(),
    decreases points.len(),
{
    if points.len() > 0 {
        packed_len(points.drop_last());
    }
}

/// Appends the four bytes of `w` to `out`, least significant first.
fn push_word(out: &mut Vec<u8>, w: u32)
    ensures
        final(out)@ == old(out)@ + word_bytes(w),
{
    out.push((w & 0xff) as u8);
    out.push(((w >> 8u32) & 0xff) as u8);
    out.push(((w >> 16u32) & 0xff) as u8);
    out.push((w >> 24u32) as u8);
    assert(final(out)@ =~= old(out)@ + word_bytes(w));
}

/// Lays out the bit patterns of the particles' positions (`x`, `y`) as the byte
/// buffer a renderer uploads: two little-endian 32-bit words per particle,
/// tightly packed, in particle order.
pub fn pack_positions(points: &Vec<(u32, u32)>) -> (r: Vec<u8>)
    requires
        8 * points@.len() <= usize::MAX,
    ensures
        r@ == packed(points@),
        r@.len() == 8 * points@.len(),
{
    let mut out: Vec<u8> = Vec::with_capacity(8 * points.len());
    let mut k: usize = 0;
    while k < points.len()
        invariant
            k <= points@.len(),
            out@ == packed(points@.subrange(0, k as int)),
        decreases points@.len() - k,
    {
        let p = points[k];
        push_word(&mut out, p.0);
        push_word(&mut out, p.1);
        proof {
            let next = points@.subrange(0, k + 1);
            assert(next.drop_last() =~= points@.subrange(0, k as int));
            assert(out@ =~= packed(next));
        }
        k = k + 1;
    }
    proof {
        assert(points@.subrange(0, points@.len() as int) =~= points@);
        packed_len(points@);
    }
    out
}

/// Lays out the bit patterns of one 32-bit value per particle (such as its density)
/// as a byte buffer: little-endian words, tightly packed, in particle order.
pub fn pack_words(words: &Vec<u32>) -> (r: Vec<u8>)
    requires
        4 * words@.len() <= usize::MAX,
    ensures
        r@ == packed_words(words@),
        r@.len() == 4 * words@.len(),
{
    let mut out: Vec<u8> = Vec::with_capacity(4 * words.len());
    let mut k: usize = 0;
    while k < words.len()
        invariant
            k <= words@.len(),
            out@ == packed_words(words@.subrange(0, k as int)),
        decreases words@.len() - k,
    {
        push_word(&mut out, words[k]);
        proof {
            let next = words@.subrange(0, k + 1);
            assert(next.drop_last() =~= words@.subrange(0, k as int));
            assert(out@ =~= packed_words(next));
        }
        k = k + 1;
    }
    proof {
        assert(words@.subrange(0, words@.len() as int) =~= words@);
        packed_words_len(words@);
    }
    out
}

} // verus!
