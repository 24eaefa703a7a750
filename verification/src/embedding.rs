//! The stored form of an embedding.
//!
//! An embedding is a vector of 32-bit IEEE-754 values. The store keeps it as one
//! blob in which every value takes four bytes, least significant byte first.
//! Values are handled here by their bit patterns, so that encoding and decoding
//! are exact for every value, the not-a-number patterns included.

use vstd::prelude::*;
use vstd::arithmetic::div_mod::{lemma_fundamental_div_mod_converse, lemma_small_mod};
use crate::error::StoreError;

verus! {

/// Number of values in every embedding of the catalog.
pub const EMBEDDING_DIMENSION: u32 = 768;

/// The 32-bit pattern whose bytes, least significant first, are `b0` to `b3`.
pub open spec fn word_from_bytes(b0: u8, b1: u8, b2: u8, b3: u8) -> int {
    b0 as int + 256 * (b1 as int) + 65536 * (b2 as int) + 16777216 * (b3 as int)
}

/// Byte `k` (0 is the least significant) of a 32-bit pattern.
pub open spec fn byte_of_word(word: u32, k: int) -> int {
    if k == 0 {
        word as int % 256
    } else if k == 1 {
        (word as int / 256) % 256
    } else if k == 2 {
        (word as int / 65536) % 256
    } else {
        (word as int / 16777216) % 256
    }
}

/// The vector that a blob holds: one value for each full group of four bytes.
pub open spec fn decode_words(blob: Seq<u8>) -> Seq<u32> {
    Seq::new(
        blob.len() / 4,
        |i: int|
            word_from_bytes(blob[4 * i], blob[4 * i + 1], blob[4 * i + 2], blob[4 * i + 3]) as u32,
    )
}

/// The blob that stores a vector.
pub open spec fn encode_words(words: Seq<u32>) -> Seq<u8> {
    Seq::new(4 * words.len(), |k: int| byte_of_word(words[k / 4], k % 4) as u8)
}

/// Whether a blob has the one length that a vector of `dimension` values takes.
pub open spec fn blob_fits(blob: Seq<u8>, dimension: u32) -> bool {
    blob.len() % 4 == 0 && blob.len() == 4 * dimension
}

/// What reading a stored blob yields: its vector, or the finding that the blob
/// is corrupt because its length is not that of `dimension` values.
pub open spec fn decode_spec(blob: Seq<u8>, dimension: u32) -> Result<Seq<u32>, StoreError> {
    if blob_fits(blob, dimension) {
        Ok(decode_words(blob))
    } else {
        Err(StoreError::DataCorruption)
    }
}

/// Reads a stored blob as a vector of `dimension` values.
///
/// A blob of any other length is reported as corrupt; no byte is dropped and
/// none is made up.
pub fn decode_embedding(blob: &Vec<u8>, dimension: u32) -> (decoded: Result<Vec<u32>, StoreError>)
    ensures
        decoded is Ok <==> blob_fits(blob@, dimension),
        decoded matches Ok(words) ==> words@ == decode_words(blob@) && words@.len() == dimension,
        decoded matches Err(e) ==> e == StoreError::DataCorruption,
{
    let n = blob.len();
    if n % 4 != 0 || (n / 4) as u64 != dimension as u64 {
        return Err(StoreError::DataCorruption);
    }
    let mut words: Vec<u32> = Vec::new();
    let mut i: usize = 0;
    while i < n
        invariant
            n == blob@.len(),
            n % 4 == 0,
            i % 4 == 0,
            i <= n,
            words@.len() == i / 4,
            forall|j: int| 0 <= j < words@.len() ==> words@[j] == decode_words(blob@)[j],
        decreases n - i,
    {
        let b0: u32 = blob[i] as u32;
        let b1: u32 = blob[i + 1] as u32;
        let b2: u32 = blob[i + 2] as u32;
        let b3: u32 = blob[i + 3] as u32;
        let word: u32 = b0 + 256 * b1 + 65536 * b2 + 16777216 * b3;
        words.push(word);
        i = i + 4;
    }
    assert(words@ =~= decode_words(blob@));
    Ok(words)
}

/// Writes a vector as the blob that stores it.
pub fn encode_embedding(words: &Vec<u32>) -> (blob: Vec<u8>)
    ensures
        blob@ == encode_words(words@),
        blob@.len() == 4 * words@.len(),
{
    let mut blob: Vec<u8> = Vec::new();
    let mut i: usize = 0;
    while i < words.len()
        invariant
            i <= words@.len(),
            blob@.len() == 4 * i,
            forall|k: int| 0 <= k < blob@.len() ==> blob@[k] == encode_words(words@)[k],
        decreases words@.len() - i,
    {
        let word: u32 = words[i];
        blob.push((word % 256) as u8);
        blob.push(((word / 256) % 256) as u8);
        blob.push(((word / 65536) % 256) as u8);
        blob.push(((word / 16777216) % 256) as u8);
        i = i + 1;
    }
    assert(blob@ =~= encode_words(words@));
    blob
}

/// Decoding what was encoded gives the vector back, bit for bit.
pub proof fn lemma_decode_encode(words: Seq<u32>)
    ensures
        decode_words(encode_words(words)) == words,
{
    let blob = encode_words(words);
    assert(blob.len() / 4 == words.len());
    assert forall|i: int| 0 <= i < words.len() implies decode_words(blob)[i] == words[i] by {
        let w = words[i];
        assert((4 * i) / 4 == i && (4 * i + 1) / 4 == i && (4 * i + 2) / 4 == i && (4 * i + 3) / 4
            == i);
        assert((4 * i) % 4 == 0 && (4 * i + 1) % 4 == 1 && (4 * i + 2) % 4 == 2 && (4 * i + 3) % 4
            == 3);
        assert(blob[4 * i] == byte_of_word(w, 0) as u8);
        assert(blob[4 * i + 1] == byte_of_word(w, 1) as u8);
        assert(blob[4 * i + 2] == byte_of_word(w, 2) as u8);
        assert(blob[4 * i + 3] == byte_of_word(w, 3) as u8);
    }
    assert(decode_words(blob) =~= words);
}

/// The bytes that a pattern was put together from are the bytes it is taken
/// apart into.
proof fn lemma_bytes_of_word(b0: u8, b1: u8, b2: u8, b3: u8)
    ensures
        0 <= word_from_bytes(b0, b1, b2, b3) <= u32::MAX,
        byte_of_word(word_from_bytes(b0, b1, b2, b3) as u32, 0) == b0,
        byte_of_word(word_from_bytes(b0, b1, b2, b3) as u32, 1) == b1,
        byte_of_word(word_from_bytes(b0, b1, b2, b3) as u32, 2) == b2,
        byte_of_word(word_from_bytes(b0, b1, b2, b3) as u32, 3) == b3,
{
    let w = word_from_bytes(b0, b1, b2, b3);
    let upper1 = b1 as int + 256 * (b2 as int) + 65536 * (b3 as int);
    let upper2 = b2 as int + 256 * (b3 as int);
    lemma_fundamental_div_mod_converse(w, 256, upper1, b0 as int);
    lemma_fundamental_div_mod_converse(upper1, 256, upper2, b1 as int);
    lemma_fundamental_div_mod_converse(w, 65536, upper2, b0 as int + 256 * (b1 as int));
    lemma_fundamental_div_mod_converse(upper2, 256, b3 as int, b2 as int);
    lemma_fundamental_div_mod_converse(
        w,
        16777216,
        b3 as int,
        b0 as int + 256 * (b1 as int) + 65536 * (b2 as int),
    );
    lemma_small_mod(b3 as nat, 256);
}

/// Encoding what was decoded gives the blob back, when the blob is made of
/// full groups of four bytes.
pub proof fn lemma_encode_decode(blob: Seq<u8>)
    requires
        blob.len() % 4 == 0,
    ensures
        encode_words(decode_words(blob)) == blob,
{
    let words = decode_words(blob);
    assert(4 * words.len() == blob.len());
    assert forall|k: int| 0 <= k < blob.len() implies encode_words(words)[k] == blob[k] by {
        let i = k / 4;
        let r = k % 4;
        assert(0 <= i < words.len());
        assert(k == 4 * i + r);
        lemma_bytes_of_word(blob[4 * i], blob[4 * i + 1], blob[4 * i + 2], blob[4 * i + 3]);
        assert(words[i] == word_from_bytes(
            blob[4 * i],
            blob[4 * i + 1],
            blob[4 * i + 2],
            blob[4 * i + 3],
        ) as u32);
        assert(encode_words(words)[k] == byte_of_word(words[i], r) as u8);
    }
    assert(encode_words(words) =~= blob);
}

/// A vector of the catalog's dimension survives being stored and read back:
/// reading the blob that stores it succeeds and yields every value unchanged.
pub proof fn lemma_round_trip(words: Seq<u32>, dimension: u32)
    requires
        words.len() == dimension,
    ensures
        decode_spec(encode_words(words), dimension) == Ok::<Seq<u32>, StoreError>(words),
{
    lemma_decode_encode(words);
}

/// A blob whose length is not a multiple of four, or not four times the
/// dimension, is never read as a vector.
pub proof fn lemma_misfit_is_corruption(blob: Seq<u8>, dimension: u32)
    requires
        blob.len() % 4 != 0 || blob.len() != 4 * dimension,
    ensures
        decode_spec(blob, dimension) == Err::<Seq<u32>, StoreError>(StoreError::DataCorruption),
{
}

} // verus!
