//! The cryptographic primitives: a secure random source, the Blake2b KDF and the
//! ChaCha20-Poly1305 AEAD construction, each behind a small trusted wrapper.

use vstd::prelude::*;
use crypto_api_blake2::Blake2b;
use crypto_api_chachapoly::ChachaPolyIetf;

verus! {

/// The largest input (plaintext to seal, or sealed text to open) that the ChaCha20-Poly1305
/// implementation accepts on every supported pointer width: `2^32 - 1 - 16` bytes, its bound on
/// 32-bit targets (64-bit targets allow more).
pub const AEAD_INPUT_MAX: usize = 4294967279;

/// The 32 bytes that the Blake2b KDF derives from `base_key` and `salt`, with an empty info.
pub uninterp spec fn blake2b_kdf32(base_key: Seq<u8>, salt: Seq<u8>) -> Seq<u8>;

/// The ciphertext followed by the 16-byte tag that ChaCha20-Poly1305 (IETF) produces for
/// `plaintext` under `key` and `nonce`, with empty associated data.
pub uninterp spec fn chachapoly_sealed(key: Seq<u8>, nonce: Seq<u8>, plaintext: Seq<u8>) -> Seq<u8>;

/// What ChaCha20-Poly1305 (IETF) opening of `sealed` under `key` and `nonce` yields, with empty
/// associated data: the plaintext if the tag verifies, else nothing.
pub uninterp spec fn chachapoly_opened(key: Seq<u8>, nonce: Seq<u8>, sealed: Seq<u8>) -> Option<Seq<u8>>;

/// Relies on `crypto_api_osrandom::to_slice`: it fills the buffer from the operating system's
/// secure random source, or reports that the source failed. Nothing is known of the bytes.
#[verifier::external_body]
pub(crate) fn os_random(buf: &mut Vec<u8>) -> (r: bool)
    ensures
        final(buf)@.len() == old(buf)@.len(),
{
    crypto_api_osrandom::to_slice(buf.as_mut_slice()).is_ok()
}

/// Relies on `Blake2b::kdf().derive` with a 32-byte output and an empty info: it succeeds
/// exactly when the base key holds 1 to 64 bytes and the salt at most 16, and the key it
/// derives depends on the base key and the salt alone.
#[verifier::external_body]
pub(crate) fn blake2b_derive32(base_key: &[u8], salt: &[u8]) -> (r: Option<Vec<u8>>)
    ensures
        r is Some <==> (1 <= base_key@.len() <= 64 && salt@.len() <= 16),
        r matches Some(key) ==> key@ == blake2b_kdf32(base_key@, salt@),
        r matches Some(key) ==> key@.len() == 32,
{
    let mut buf = vec![0u8; 32];
    match Blake2b::kdf().derive(&mut buf, base_key, salt, b"") {
        Ok(()) => Some(buf),
        Err(_) => None,
    }
}

/// Relies on `ChachaPolyIetf::aead_cipher().seal_to` with empty associated data. It succeeds
/// exactly where the key holds 32 bytes and the nonce 12 (the buffer has room for the plaintext
/// and the tag); it then writes the ciphertext and the tag. Opening what it wrote under the same
/// key and nonce gives the plaintext back. The plaintext is bounded by `AEAD_INPUT_MAX`: far
/// longer inputs would run the ChaCha20 block counter past `2^32 - 1`, where the crate panics.
#[verifier::external_body]
pub(crate) fn chachapoly_seal_to(buf: &mut Vec<u8>, plaintext: &[u8], key: &[u8], nonce: &[u8]) -> (r: bool)
    requires
        old(buf)@.len() == plaintext@.len() + 16,
        plaintext@.len() <= AEAD_INPUT_MAX,
    ensures
        final(buf)@.len() == old(buf)@.len(),
        r == (key@.len() == 32 && nonce@.len() == 12),
        r ==> final(buf)@ == chachapoly_sealed(key@, nonce@, plaintext@),
        r && final(buf)@.len() <= AEAD_INPUT_MAX ==> chachapoly_opened(key@, nonce@, final(buf)@)
            == Some(plaintext@),
{
    ChachaPolyIetf::aead_cipher().seal_to(buf.as_mut_slice(), plaintext, b"", key, nonce).is_ok()
}

/// Relies on `ChachaPolyIetf::aead_cipher().open_to` with empty associated data. With a 32-byte
/// key and a 12-byte nonce it succeeds exactly when the tag verifies, and then writes the
/// plaintext (16 bytes shorter than the sealed text) to the front of the buffer and returns its
/// length. The sealed text is bounded by `AEAD_INPUT_MAX`, for the same reason as in sealing.
#[verifier::external_body]
pub(crate) fn chachapoly_open_to(buf: &mut Vec<u8>, sealed: &[u8], key: &[u8], nonce: &[u8]) -> (r: Option<usize>)
    requires
        old(buf)@.len() == sealed@.len(),
        sealed@.len() <= AEAD_INPUT_MAX,
    ensures
        final(buf)@.len() == old(buf)@.len(),
        (key@.len() == 32 && nonce@.len() == 12) ==> (r is Some
            <==> chachapoly_opened(key@, nonce@, sealed@) is Some),
        r matches Some(n) ==> n + 16 == sealed@.len() && chachapoly_opened(key@, nonce@, sealed@)
            == Some(final(buf)@.subrange(0, n as int)),
{
    ChachaPolyIetf::aead_cipher().open_to(buf.as_mut_slice(), sealed, b"", key, nonce).ok()
}

} // verus!
