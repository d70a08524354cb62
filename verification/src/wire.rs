//! Fixed-width integers in the little-endian order used on the wire.

use vstd::prelude::*;

verus! {

/// The four bytes of `x`, least significant first.
#[verifier::opaque]
pub open spec fn le32(x: u32) -> Seq<u8> {
    seq![
        (x % 256) as u8,
        (x / 256 % 256) as u8,
        (x / 65536 % 256) as u8,
        (x / 16777216) as u8,
    ]
}

/// The number whose bytes, least significant first, are the first four of `bytes`.
#[verifier::opaque]
pub open spec fn from_le32(bytes: Seq<u8>) -> u32 {
    (bytes[0] + 256 * bytes[1] + 65536 * bytes[2] + 16777216 * bytes[3]) as u32
}

/// The number whose bytes, least significant first, are the first two of `bytes`.
pub open spec fn from_le16(bytes: Seq<u8>) -> u16 {
    (bytes[0] + 256 * bytes[1]) as u16
}

/// Reading four bytes gives back the number they were written for.
pub broadcast proof fn le32_round_trip(x: u32)
    ensures
        (#[trigger] le32(x)).len() == 4,
        from_le32(le32(x)) == x,
{
    reveal(le32);
    reveal(from_le32);
}

/// Writing the number read from four bytes gives back those bytes.
pub proof fn from_le32_round_trip(bytes: Seq<u8>)
    requires
        bytes.len() == 4,
    ensures
        le32(from_le32(bytes)) == bytes,
{
    reveal(le32);
    reveal(from_le32);
    let (a, b, c, d) = (bytes[0] as int, bytes[1] as int, bytes[2] as int, bytes[3] as int);
    let x = a + 256 * b + 65536 * c + 16777216 * d;
    assert(x / 256 == b + 256 * c + 65536 * d && x % 256 == a);
    assert(x / 65536 == c + 256 * d && x / 256 % 256 == b);
    assert(x / 16777216 == d && x / 65536 % 256 == c);
    assert(from_le32(bytes) == x);
    assert(le32(from_le32(bytes)) =~= bytes);
}

/// `bytemuck::bytes_of` on a word that `u32::to_le` has put in little-endian order: the bytes
/// of the word in memory order, hence least significant first.
#[verifier::external_body]
pub(crate) fn word_bytes(x: u32) -> (bytes: Vec<u8>)
    ensures
        bytes@ == le32(x),
{
    bytemuck::bytes_of(&x.to_le()).to_vec()
}

/// `bytemuck::pod_read_unaligned` at `u32`, with `u32::from_le` applied to the word read: the
/// number whose little-endian bytes are given. The call panics unless there are exactly four.
#[verifier::external_body]
pub(crate) fn read_word(bytes: &[u8]) -> (x: u32)
    requires
        bytes@.len() == 4,
    ensures
        x == from_le32(bytes@),
{
    u32::from_le(bytemuck::pod_read_unaligned(bytes))
}

/// `bytemuck::pod_read_unaligned` at `u16`, with `u16::from_le` applied to the word read: the
/// number whose little-endian bytes are given. The call panics unless there are exactly two.
#[verifier::external_body]
pub(crate) fn read_half_word(bytes: &[u8]) -> (x: u16)
    requires
        bytes@.len() == 2,
    ensures
        x == from_le16(bytes@),
{
    u16::from_le(bytemuck::pod_read_unaligned(bytes))
}

/// A word is the sum of its bytes, each of which counts 256 times as much as the one before it.
pub proof fn words_are_sums_of_bytes(x: u32)
    ensures
        le32(x).len() == 4,
        x == le32(x)[0] + 256 * le32(x)[1] + 65536 * le32(x)[2] + 16777216 * le32(x)[3],
{
    reveal(le32);
}

/// The word, or half a word, that bytes stand for is their sum, each counted as it stands.
pub proof fn sums_of_bytes_are_words(a: u8, b: u8, c: u8, d: u8)
    ensures
        from_le32(seq![a, b, c, d]) == a + 256 * b + 65536 * c + 16777216 * d,
        from_le16(seq![a, b]) == a + 256 * b,
{
    reveal(from_le32);
}

} // verus!
