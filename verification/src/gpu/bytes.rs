//! 32-bit words as the bytes that device memory holds: four bytes each,
//! least significant first.

use vstd::bytes::{
    lemma_auto_spec_u32_to_from_le_bytes, spec_u32_from_le_bytes, spec_u32_to_le_bytes,
    u32_from_le_bytes, u32_to_le_bytes,
};
use vstd::prelude::*;

verus! {

/// The bytes of `words`, word after word.
pub open spec fn words_bytes(words: Seq<u32>) -> Seq<u8>
    decreases words.len(),
{
    if words.len() == 0 {
        Seq::<u8>::empty()
    } else {
        words_bytes(words.drop_last()) + spec_u32_to_le_bytes(words.last())
    }
}

/// The words that the first `4 * count` bytes of `bytes` hold.
pub open spec fn bytes_words(bytes: Seq<u8>, count: nat) -> Seq<u32> {
    Seq::new(count, |i: int| spec_u32_from_le_bytes(bytes.subrange(4 * i, 4 * i + 4)))
}

/// `words` take four bytes each.
pub proof fn lemma_words_bytes_len(words: Seq<u32>)
    ensures
        words_bytes(words).len() == 4 * words.len(),
    decreases words.len(),
{
    lemma_auto_spec_u32_to_from_le_bytes();

    if words.len() > 0 {
        lemma_words_bytes_len(words.drop_last());
    }
}

/// The word at `i` lies at byte `4 * i`.
pub proof fn lemma_words_bytes_at(words: Seq<u32>, i: int)
    requires
        0 <= i < words.len(),
    ensures
        words_bytes(words).len() == 4 * words.len(),
        words_bytes(words).subrange(4 * i, 4 * i + 4) == spec_u32_to_le_bytes(words[i]),
    decreases words.len(),
{
    lemma_auto_spec_u32_to_from_le_bytes();

    lemma_words_bytes_len(words);
    lemma_words_bytes_len(words.drop_last());
    if i == words.len() - 1 {
        assert(words_bytes(words).subrange(4 * i, 4 * i + 4) =~= spec_u32_to_le_bytes(
            words.last(),
        ));
    } else {
        lemma_words_bytes_at(words.drop_last(), i);
        assert(words_bytes(words).subrange(4 * i, 4 * i + 4) =~= words_bytes(
            words.drop_last(),
        ).subrange(4 * i, 4 * i + 4));
    }
}

/// Words written as bytes are the words read back from those bytes, whatever
/// follows them.
pub proof fn lemma_words_round_trip(words: Seq<u32>, rest: Seq<u8>)
    ensures
        bytes_words(words_bytes(words) + rest, words.len()) == words,
{
    lemma_auto_spec_u32_to_from_le_bytes();

    let bytes = words_bytes(words) + rest;
    let back = bytes_words(bytes, words.len());
    lemma_words_bytes_len(words);
    assert forall|i: int| 0 <= i < words.len() implies back[i] == words[i] by {
        lemma_words_bytes_at(words, i);
        assert(bytes.subrange(4 * i, 4 * i + 4) =~= words_bytes(words).subrange(4 * i, 4 * i + 4));
    }
    assert(back =~= words);
}

/// Appends the four bytes of `word` to `out`.
pub fn push_word(out: &mut Vec<u8>, word: u32)
    ensures
        final(out)@ == old(out)@ + spec_u32_to_le_bytes(word),
        final(out)@.len() == old(out)@.len() + 4,
{
    let mut four = u32_to_le_bytes(word);
    out.append(&mut four);
}

/// The bytes of `words`.
pub fn words_to_bytes(words: &[u32]) -> (r: Vec<u8>)
    ensures
        r@ == words_bytes(words@),
        r@.len() == 4 * words@.len(),
{
    let mut out: Vec<u8> = Vec::new();
    let mut i: usize = 0;
    while i < words.len()
        invariant
            i <= words@.len(),
            out@ == words_bytes(words@.subrange(0, i as int)),
        decreases words@.len() - i,
    {
        push_word(&mut out, words[i]);
        proof {
            let next = words@.subrange(0, i + 1);
            assert(next.drop_last() =~= words@.subrange(0, i as int));
            assert(next.last() == words@[i as int]);
        }
        i += 1;
    }
    proof {
        assert(words@.subrange(0, i as int) =~= words@);
        lemma_words_bytes_len(words@);
    }
    out
}

/// The `count` words that the front of `bytes` holds.
pub fn bytes_to_words(bytes: &[u8], count: usize) -> (r: Vec<u32>)
    requires
        4 * count <= bytes@.len(),
    ensures
        r@ == bytes_words(bytes@, count as nat),
{
    let mut out: Vec<u32> = Vec::new();
    let limit: usize = bytes.len();
    let mut i: usize = 0;
    while i < count
        invariant
            i <= count,
            4 * count <= limit,
            limit == bytes@.len(),
            out@.len() == i,
            forall|k: int|
                0 <= k < i ==> out@[k] == spec_u32_from_le_bytes(
                    bytes@.subrange(4 * k, 4 * k + 4),
                ),
        decreases count - i,
    {
        let four = vstd::slice::slice_subrange(bytes, 4 * i, 4 * i + 4);
        out.push(u32_from_le_bytes(four));
        i += 1;
    }
    assert(out@ =~= bytes_words(bytes@, count as nat));
    out
}

} // verus!
