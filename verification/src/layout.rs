//! Words in memory: how a run of 32-bit words reads as bytes.
//!
//! Buffers are handed to the GPU as bytes, in the byte order of the machine
//! that runs the program. The two orders that a machine can have are spelled
//! out here, so that a contract can say what the bytes of a buffer are
//! without knowing the machine.

use vstd::prelude::*;

verus! {

/// The four bytes of `w`, least significant first.
pub open spec fn le_word(w: u32) -> Seq<u8> {
    seq![
        (w % 256) as u8,
        (w / 256 % 256) as u8,
        (w / 65536 % 256) as u8,
        (w / 16777216 % 256) as u8,
    ]
}

/// The four bytes of `w`, most significant first.
pub open spec fn be_word(w: u32) -> Seq<u8> {
    seq![
        (w / 16777216 % 256) as u8,
        (w / 65536 % 256) as u8,
        (w / 256 % 256) as u8,
        (w % 256) as u8,
    ]
}

/// `words` laid out one after the other, each least significant byte first.
pub open spec fn le_bytes(words: Seq<u32>) -> Seq<u8> {
    Seq::new(4 * words.len(), |i: int| le_word(words[i / 4])[i % 4])
}

/// `words` laid out one after the other, each most significant byte first.
pub open spec fn be_bytes(words: Seq<u32>) -> Seq<u8> {
    Seq::new(4 * words.len(), |i: int| be_word(words[i / 4])[i % 4])
}

/// `bytes` is what `words` look like in the memory of some machine: every
/// word takes four bytes, and all words share one byte order.
pub open spec fn is_memory_image(words: Seq<u32>, bytes: Seq<u8>) -> bool {
    bytes == le_bytes(words) || bytes == be_bytes(words)
}

/// The word that four bytes spell, least significant first.
pub open spec fn word_of_le(b: Seq<u8>) -> u32 {
    (b[0] + 256 * b[1] + 65536 * b[2] + 16777216 * b[3]) as u32
}

/// The word that four bytes spell, most significant first.
pub open spec fn word_of_be(b: Seq<u8>) -> u32 {
    (b[3] + 256 * b[2] + 65536 * b[1] + 16777216 * b[0]) as u32
}

/// The words that `bytes` spell, four bytes to a word, each least
/// significant byte first.
pub open spec fn le_words(bytes: Seq<u8>) -> Seq<u32> {
    Seq::new(bytes.len() / 4, |i: int| word_of_le(bytes.subrange(4 * i, 4 * i + 4)))
}

/// The words that `bytes` spell, four bytes to a word, each most
/// significant byte first.
pub open spec fn be_words(bytes: Seq<u8>) -> Seq<u32> {
    Seq::new(bytes.len() / 4, |i: int| word_of_be(bytes.subrange(4 * i, 4 * i + 4)))
}

/// Trusted: `bytemuck::cast_slice::<u32, u8>`, copied into a vector.
///
/// The call reinterprets the memory of the slice, so the result has four
/// bytes per word, in input order, each word in the byte order of the machine.
/// The contract claims no more than that: the bytes are the little-endian or
/// the big-endian image of the words. With a byte as the target the cast
/// cannot fail on alignment or on a leftover, so it does not panic.
#[verifier::external_body]
pub(crate) fn cast_words(words: &[u32]) -> (bytes: Vec<u8>)
    ensures
        is_memory_image(words@, bytes@),
{
    bytemuck::cast_slice::<u32, u8>(words).to_vec()
}

proof fn lemma_word_digits(w: u32)
    ensures
        w == w % 256 + 256 * (w / 256 % 256) + 65536 * (w / 65536 % 256) + 16777216 * (w
            / 16777216 % 256),
{
    assert(w == w % 256 + 256 * (w / 256 % 256) + 65536 * (w / 65536 % 256) + 16777216 * (w
        / 16777216 % 256)) by (nonlinear_arith)
        requires
            0 <= w < 0x1_0000_0000,
    ;
}

/// Little-endian bytes spell the words they were made from.
pub proof fn lemma_le_round_trip(words: Seq<u32>)
    ensures
        le_bytes(words).len() == 4 * words.len(),
        le_words(le_bytes(words)) == words,
{
    let bytes = le_bytes(words);
    assert forall|i: int| 0 <= i < words.len() implies #[trigger] le_words(bytes)[i]
        == words[i] by {
        let w = words[i];
        let part = bytes.subrange(4 * i, 4 * i + 4);
        lemma_word_digits(w);
        assert(part[0] == le_word(w)[0]);
        assert(part[1] == le_word(w)[1]);
        assert(part[2] == le_word(w)[2]);
        assert(part[3] == le_word(w)[3]);
    }
    assert(le_words(bytes) =~= words);
}

/// Big-endian bytes spell the words they were made from.
pub proof fn lemma_be_round_trip(words: Seq<u32>)
    ensures
        be_bytes(words).len() == 4 * words.len(),
        be_words(be_bytes(words)) == words,
{
    let bytes = be_bytes(words);
    assert forall|i: int| 0 <= i < words.len() implies #[trigger] be_words(bytes)[i]
        == words[i] by {
        let w = words[i];
        let part = bytes.subrange(4 * i, 4 * i + 4);
        lemma_word_digits(w);
        assert(part[0] == be_word(w)[0]);
        assert(part[1] == be_word(w)[1]);
        assert(part[2] == be_word(w)[2]);
        assert(part[3] == be_word(w)[3]);
    }
    assert(be_words(bytes) =~= words);
}

/// What is written reads back: a memory image has four bytes for every
/// word, and read in its byte order it spells the words again.
pub proof fn lemma_image_reads_back(words: Seq<u32>, bytes: Seq<u8>)
    requires
        is_memory_image(words, bytes),
    ensures
        bytes.len() == 4 * words.len(),
        le_words(bytes) == words || be_words(bytes) == words,
{
    lemma_le_round_trip(words);
    lemma_be_round_trip(words);
}

} // verus!
