//! Hashes of texts and bytes.
use crate::text::hex_text;
use vstd::prelude::*;
use vstd::utf8::*;

verus! {

/// The SHA-256 hash of bytes.
pub uninterp spec fn sha256_of(bytes: Seq<u8>) -> Seq<u8>;

/// `sha2::Sha256::digest`: the 32 bytes of the SHA-256 hash of `bytes`, which
/// depend on nothing else.
#[verifier::external_body]
pub(crate) fn sha256(bytes: &[u8]) -> (r: [u8; 32])
    ensures
        r@ == sha256_of(bytes@),
{
    <sha2::Sha256 as sha2::Digest>::digest(bytes).into()
}

/// The hash of a text, in hexadecimal.
pub open spec fn hashed_text(text: Seq<char>) -> Seq<char> {
    crate::text::hex(sha256_of(encode_utf8(text)))
}

/// The hash of a text, in hexadecimal.
pub fn hash_text(text: &str) -> (r: String)
    ensures
        r@ == hashed_text(text@),
        r@.len() == 64,
{
    let digest = sha256(text.as_bytes());
    let written = hex_text(&digest);
    assert(written@.len() == 2 * digest@.len());
    written
}

/// A text is hashed as the bytes that encode it, all of them, and the hash is
/// written with two digits for each of its bytes.
pub proof fn law_texts_are_hashed_by_their_bytes(text: Seq<char>, i: int)
    requires
        0 <= i < sha256_of(encode_utf8(text)).len(),
    ensures
        hashed_text(text).len() == 2 * sha256_of(encode_utf8(text)).len(),
        crate::text::hex_value(hashed_text(text)[2 * i]) == Some(
            sha256_of(encode_utf8(text))[i] as int / 16,
        ),
        crate::text::hex_value(hashed_text(text)[2 * i + 1]) == Some(
            sha256_of(encode_utf8(text))[i] as int % 16,
        ),
{
    crate::text::law_bytes_are_written_by_digits(sha256_of(encode_utf8(text)), i);
}

} // verus!
