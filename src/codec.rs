//! The ratio payload: one little-endian 64-bit unsigned integer per asset.

use vstd::bytes::{
    lemma_auto_spec_u64_to_from_le_bytes, spec_u64_from_le_bytes, spec_u64_to_le_bytes,
    u64_from_le_bytes, u64_to_le_bytes,
};
use vstd::prelude::*;
use vstd::slice::slice_subrange;

use crate::error::ETFError;

verus! {

/// The 64-bit integer stored little-endian in bytes `8 * i .. 8 * i + 8`.
pub open spec fn word_at(bytes: Seq<u8>, i: int) -> u64 {
    spec_u64_from_le_bytes(bytes.subrange(8 * i, 8 * i + 8))
}

/// The first `n` little-endian words of `bytes`.
pub open spec fn decode_words(bytes: Seq<u8>, n: nat) -> Seq<u64> {
    Seq::new(n, |i: int| word_at(bytes, i))
}

/// The bytes of `words`, each written little-endian in eight bytes, in order.
pub open spec fn encode_words(words: Seq<u64>) -> Seq<u8>
    decreases words.len(),
{
    if words.len() == 0 {
        Seq::empty()
    } else {
        encode_words(words.drop_last()) + spec_u64_to_le_bytes(words.last())
    }
}

/// Each word of an encoding sits in its own eight bytes.
pub proof fn lemma_encode_words_layout(words: Seq<u64>)
    ensures
        encode_words(words).len() == 8 * words.len(),
        forall|i: int|
            0 <= i < words.len() ==> #[trigger] encode_words(words).subrange(8 * i, 8 * i + 8)
                == spec_u64_to_le_bytes(words[i]),
    decreases words.len(),
{
    lemma_auto_spec_u64_to_from_le_bytes();
    if words.len() > 0 {
        let front = words.drop_last();
        lemma_encode_words_layout(front);
        let e = encode_words(words);
        let ef = encode_words(front);
        let tail = spec_u64_to_le_bytes(words.last());
        assert(e == ef + tail);
        assert forall|i: int| 0 <= i < words.len() implies #[trigger] e.subrange(8 * i, 8 * i + 8)
            == spec_u64_to_le_bytes(words[i]) by {
            if i < words.len() - 1 {
                assert(e.subrange(8 * i, 8 * i + 8) =~= ef.subrange(8 * i, 8 * i + 8));
                assert(front[i] == words[i]);
            } else {
                assert(e.subrange(8 * i, 8 * i + 8) =~= tail);
            }
        }
    }
}

/// Decoding an encoded sequence of words gives the words back, and the
/// encoding holds exactly eight bytes per word.
pub proof fn lemma_decode_encode(words: Seq<u64>)
    ensures
        encode_words(words).len() == 8 * words.len(),
        decode_words(encode_words(words), words.len()) == words,
{
    lemma_auto_spec_u64_to_from_le_bytes();
    lemma_encode_words_layout(words);
    let e = encode_words(words);
    assert forall|i: int| 0 <= i < words.len() implies #[trigger] decode_words(e, words.len())[i]
        == words[i] by {
        assert(e.subrange(8 * i, 8 * i + 8) == spec_u64_to_le_bytes(words[i]));
    }
    assert(decode_words(e, words.len()) =~= words);
}

/// Decodes `count` little-endian words from `bytes`, which must hold exactly
/// `8 * count` bytes.
pub fn decode_ratios(bytes: &[u8], count: usize) -> (r: Result<Vec<u64>, ETFError>)
    ensures
        bytes@.len() == 8 * count <==> r.is_ok(),
        r matches Ok(v) ==> v@ == decode_words(bytes@, count as nat),
        r matches Err(e) ==> e == ETFError::InvalidInitializationCustomData,
{
    if count > bytes.len() / 8 || bytes.len() != count * 8 {
        return Err(ETFError::InvalidInitializationCustomData);
    }
    let mut out: Vec<u64> = Vec::with_capacity(count);
    let mut i: usize = 0;
    while i < count
        invariant
            bytes@.len() == 8 * count,
            bytes@.len() <= usize::MAX,
            i <= count,
            out@ == decode_words(bytes@, i as nat),
        decreases count - i,
    {
        assert(8 * i + 8 <= 8 * count) by (nonlinear_arith)
            requires
                i < count,
        ;
        let word = slice_subrange(bytes, 8 * i, 8 * i + 8);
        out.push(u64_from_le_bytes(word));
        i += 1;
        assert(out@ =~= decode_words(bytes@, i as nat));
    }
    Ok(out)
}

/// Encodes `words` little-endian, eight bytes per word, in order.
pub fn encode_ratios(words: &Vec<u64>) -> (r: Vec<u8>)
    requires
        8 * words@.len() <= usize::MAX,
    ensures
        r@ == encode_words(words@),
{
    let mut out: Vec<u8> = Vec::new();
    let mut i: usize = 0;
    while i < words.len()
        invariant
            i <= words@.len(),
            out@ == encode_words(words@.subrange(0, i as int)),
        decreases words@.len() - i,
    {
        let bytes = u64_to_le_bytes(words[i]);
        let ghost before = out@;
        let mut k: usize = 0;
        while k < 8
            invariant
                bytes@.len() == 8,
                k <= 8,
                out@ == before + bytes@.subrange(0, k as int),
            decreases 8 - k,
        {
            out.push(bytes[k]);
            k += 1;
            assert(out@ =~= before + bytes@.subrange(0, k as int));
        }
        assert(bytes@.subrange(0, 8) =~= bytes@);
        let ghost s = words@.subrange(0, i + 1);
        assert(s.drop_last() =~= words@.subrange(0, i as int));
        i += 1;
    }
    assert(words@.subrange(0, words@.len() as int) =~= words@);
    out
}

} // verus!
