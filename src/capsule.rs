//! The capsule codec: sealing a payload under a user secret and opening it again.

use vstd::prelude::*;
use crate::slice_ext::SliceExt;
use crate::primitives::{
    blake2b_derive32, blake2b_kdf32, chachapoly_open_to, chachapoly_opened, chachapoly_seal_to,
    chachapoly_sealed, os_random, AEAD_INPUT_MAX,
};

verus! {

/// Length of the salt that starts a capsule.
pub const SALT_LEN: usize = 16;
/// Length of the nonce that follows the salt.
pub const NONCE_LEN: usize = 12;
/// Length of the authentication tag that ends a capsule.
pub const TAG_LEN: usize = 16;
/// Bytes that a capsule holds beyond its payload: salt, nonce and tag.
pub const OVERHEAD: usize = 44;
/// The shortest user secret accepted.
pub const SECRET_LEN_MIN: usize = 1;
/// The longest user secret accepted.
pub const SECRET_LEN_MAX: usize = 64;
/// The largest payload that is sealed: its capsule fits in `2^32 - 1` bytes, which keeps the
/// sealed part within what the AEAD accepts on every pointer width. Larger payloads are refused
/// with a sealing fault.
pub const PAYLOAD_MAX: usize = 4294967251;
/// The largest capsule that is opened; a longer one is reported invalid.
pub const CAPSULE_MAX: usize = 4294967295;

/// Why sealing or opening a capsule failed.
#[derive(Debug, Clone, Copy, PartialEq, Eq, Structural)]
pub enum CapsuleError {
    /// The user secret is absent where one is required.
    MissingSecret,
    /// The user secret is shorter than 1 byte or longer than 64.
    UnsupportedSecretLength,
    /// A construction other than the supported one was asked for.
    UnsupportedConfiguration,
    /// The capsule is shorter than its fixed overhead.
    TruncatedCapsule,
    /// The capsule did not authenticate under the user secret.
    InvalidCapsule,
    /// The secure random source failed.
    RandomFault,
    /// The key derivation failed.
    KeyDerivationFault,
    /// The authenticated encryption failed.
    SealingFault,
}

impl CapsuleError {
    /// A description of the error for a diagnostic channel.
    pub fn message(&self) -> &'static str {
        match self {
            CapsuleError::MissingSecret => "Missing required authentication data",
            CapsuleError::UnsupportedSecretLength => "Unsupported user secret length",
            CapsuleError::UnsupportedConfiguration => "Invalid config",
            CapsuleError::TruncatedCapsule => "The capsule is truncated/damaged",
            CapsuleError::InvalidCapsule => "ChachaPolyIetf failed to open some data",
            CapsuleError::RandomFault => "OsRandom failed to generate data",
            CapsuleError::KeyDerivationFault => "Blake2b-KDF failed to derive a key",
            CapsuleError::SealingFault => "ChachaPolyIetf failed to seal some data",
        }
    }
}

/// A user secret of an accepted length.
pub open spec fn valid_secret(secret: Seq<u8>) -> bool {
    SECRET_LEN_MIN <= secret.len() <= SECRET_LEN_MAX
}

/// The salt field of a capsule.
pub open spec fn capsule_salt(capsule: Seq<u8>) -> Seq<u8> {
    capsule.subrange(0, 16)
}

/// The nonce field of a capsule.
pub open spec fn capsule_nonce(capsule: Seq<u8>) -> Seq<u8> {
    capsule.subrange(16, 28)
}

/// The ciphertext and the tag of a capsule.
pub open spec fn capsule_sealed(capsule: Seq<u8>) -> Seq<u8> {
    capsule.subrange(28, capsule.len() as int)
}

/// The capsule that sealing `payload` under `secret` with the given salt and nonce gives.
pub open spec fn sealed_capsule(secret: Seq<u8>, salt: Seq<u8>, nonce: Seq<u8>, payload: Seq<u8>) -> Seq<u8> {
    salt + nonce + chachapoly_sealed(blake2b_kdf32(secret, salt), nonce, payload)
}

/// What opening `capsule` under `secret` gives: the payload, or why there is none.
pub open spec fn open_capsule(secret: Seq<u8>, capsule: Seq<u8>) -> Result<Seq<u8>, CapsuleError> {
    if !valid_secret(secret) {
        Err(CapsuleError::UnsupportedSecretLength)
    } else if capsule.len() < OVERHEAD {
        Err(CapsuleError::TruncatedCapsule)
    } else {
        match chachapoly_opened(
            blake2b_kdf32(secret, capsule_salt(capsule)),
            capsule_nonce(capsule),
            capsule_sealed(capsule),
        ) {
            Some(payload) => Ok(payload),
            None => Err(CapsuleError::InvalidCapsule),
        }
    }
}

/// `capsule` was sealed from `payload` under `secret`: it is laid out as salt, nonce and the
/// sealed payload, and its sealed part opens to `payload` under the key derived from its salt.
pub open spec fn is_capsule_of(secret: Seq<u8>, payload: Seq<u8>, capsule: Seq<u8>) -> bool {
    &&& capsule.len() == payload.len() + OVERHEAD
    &&& capsule == sealed_capsule(secret, capsule_salt(capsule), capsule_nonce(capsule), payload)
    &&& chachapoly_opened(
        blake2b_kdf32(secret, capsule_salt(capsule)),
        capsule_nonce(capsule),
        capsule_sealed(capsule),
    ) == Some(payload)
}

/// What `protect` returns for `secret` and `payload`: an unsupported secret length is
/// rejected; otherwise the result is a capsule of the payload that opens to it, or a fault of the
/// random source, or for a payload beyond `PAYLOAD_MAX` a sealing fault.
pub open spec fn protect_result(secret: Seq<u8>, payload: Seq<u8>, r: Result<Vec<u8>, CapsuleError>) -> bool {
    &&& !valid_secret(secret) ==> r == Err::<Vec<u8>, CapsuleError>(CapsuleError::UnsupportedSecretLength)
    &&& r matches Ok(c) ==> c@.len() == payload.len() + OVERHEAD
        && c@ == sealed_capsule(secret, capsule_salt(c@), capsule_nonce(c@), payload)
    &&& r matches Ok(c) ==> payload.len() <= PAYLOAD_MAX && is_capsule_of(secret, payload, c@)
    &&& r matches Err(e) ==> (e == CapsuleError::UnsupportedSecretLength && !valid_secret(secret))
        || (e == CapsuleError::RandomFault && valid_secret(secret))
        || (e == CapsuleError::SealingFault && valid_secret(secret) && payload.len() > PAYLOAD_MAX)
}

/// What `recover` returns for `secret` and `capsule`: exactly `open_capsule`, except that under
/// a valid secret a capsule beyond `CAPSULE_MAX` is reported invalid; a payload is always the
/// capsule's length less the overhead.
pub open spec fn recover_result(secret: Seq<u8>, capsule: Seq<u8>, r: Result<Vec<u8>, CapsuleError>) -> bool {
    &&& r matches Ok(p) ==> open_capsule(secret, capsule) == Ok::<Seq<u8>, CapsuleError>(p@)
    &&& r matches Ok(p) ==> p@.len() + OVERHEAD == capsule.len()
    &&& r matches Err(e) ==> open_capsule(secret, capsule) == Err::<Seq<u8>, CapsuleError>(e)
        || (e == CapsuleError::InvalidCapsule && valid_secret(secret) && capsule.len() > CAPSULE_MAX)
    &&& capsule.len() <= CAPSULE_MAX ==> (r is Ok <==> open_capsule(secret, capsule) is Ok)
    &&& valid_secret(secret) && capsule.len() > CAPSULE_MAX ==> r == Err::<Vec<u8>, CapsuleError>(CapsuleError::InvalidCapsule)
}

/// Seals `payload` under `secret` with the given salt and nonce, which `protect` draws fresh.
pub fn seal_with(secret: &[u8], salt: &[u8], nonce: &[u8], payload: &[u8]) -> (r: Result<Vec<u8>, CapsuleError>)
    requires
        salt@.len() == SALT_LEN,
        nonce@.len() == NONCE_LEN,
    ensures
        !valid_secret(secret@) ==> r == Err::<Vec<u8>, CapsuleError>(CapsuleError::UnsupportedSecretLength),
        valid_secret(secret@) && payload@.len() > PAYLOAD_MAX ==> r == Err::<Vec<u8>, CapsuleError>(CapsuleError::SealingFault),
        valid_secret(secret@) && payload@.len() <= PAYLOAD_MAX ==> (r matches Ok(c)
            && c@ == sealed_capsule(secret@, salt@, nonce@, payload@)
            && is_capsule_of(secret@, payload@, c@)),
{
    if secret.len() < SECRET_LEN_MIN || secret.len() > SECRET_LEN_MAX {
        return Err(CapsuleError::UnsupportedSecretLength);
    }
    if payload.len() > PAYLOAD_MAX {
        return Err(CapsuleError::SealingFault);
    }
    let key = match blake2b_derive32(secret, salt) {
        Some(key) => key,
        None => return Err(CapsuleError::KeyDerivationFault),
    };
    let mut sealed: Vec<u8> = vec![0u8; payload.len() + TAG_LEN];
    if !chachapoly_seal_to(&mut sealed, payload, key.as_slice(), nonce) {
        return Err(CapsuleError::SealingFault);
    }
    let mut capsule: Vec<u8> = Vec::with_capacity(payload.len() + OVERHEAD);
    capsule.extend_from_slice(salt);
    capsule.extend_from_slice(nonce);
    capsule.extend_from_slice(sealed.as_slice());
    proof {
        let c = capsule@;
        assert(c =~= sealed_capsule(secret@, salt@, nonce@, payload@));
        assert(capsule_salt(c) =~= salt@);
        assert(capsule_nonce(c) =~= nonce@);
        assert(capsule_sealed(c) =~= sealed@);
    }
    Ok(capsule)
}

/// Seals `payload` under `secret` into a fresh capsule, with a salt and a nonce drawn from the
/// secure random source.
pub fn protect(secret: &[u8], payload: &[u8]) -> (r: Result<Vec<u8>, CapsuleError>)
    ensures
        protect_result(secret@, payload@, r),
{
    if secret.len() < SECRET_LEN_MIN || secret.len() > SECRET_LEN_MAX {
        return Err(CapsuleError::UnsupportedSecretLength);
    }
    let mut salt: Vec<u8> = vec![0u8; SALT_LEN];
    if !os_random(&mut salt) {
        return Err(CapsuleError::RandomFault);
    }
    let mut nonce: Vec<u8> = vec![0u8; NONCE_LEN];
    if !os_random(&mut nonce) {
        return Err(CapsuleError::RandomFault);
    }
    let r = seal_with(secret, salt.as_slice(), nonce.as_slice(), payload);
    proof {
        if r is Ok {
            let c = r->Ok_0@;
            assert(capsule_salt(c) =~= salt@);
            assert(capsule_nonce(c) =~= nonce@);
        }
    }
    r
}

/// Opens `capsule` under `secret` and returns the payload that it protects.
pub fn recover(secret: &[u8], capsule: &[u8]) -> (r: Result<Vec<u8>, CapsuleError>)
    ensures
        recover_result(secret@, capsule@, r),
{
    if secret.len() < SECRET_LEN_MIN || secret.len() > SECRET_LEN_MAX {
        return Err(CapsuleError::UnsupportedSecretLength);
    }
    if capsule.len() < OVERHEAD {
        return Err(CapsuleError::TruncatedCapsule);
    }
    if capsule.len() > CAPSULE_MAX {
        return Err(CapsuleError::InvalidCapsule);
    }
    let (salt, rest) = capsule.split_off(SALT_LEN);
    let (nonce, sealed) = rest.split_off(NONCE_LEN);
    proof {
        assert(salt@ =~= capsule_salt(capsule@));
        assert(nonce@ =~= capsule_nonce(capsule@));
        assert(sealed@ =~= capsule_sealed(capsule@));
    }
    let key = match blake2b_derive32(secret, salt) {
        Some(key) => key,
        None => return Err(CapsuleError::KeyDerivationFault),
    };
    let mut buf: Vec<u8> = vec![0u8; sealed.len()];
    match chachapoly_open_to(&mut buf, sealed, key.as_slice(), nonce) {
        Some(n) => {
            buf.truncate(n);
            Ok(buf)
        },
        None => Err(CapsuleError::InvalidCapsule),
    }
}

/// Opening a capsule with the secret that sealed it gives the payload back.
pub proof fn lemma_round_trip(secret: Seq<u8>, payload: Seq<u8>, capsule: Seq<u8>)
    requires
        valid_secret(secret),
        is_capsule_of(secret, payload, capsule),
    ensures
        open_capsule(secret, capsule) == Ok::<Seq<u8>, CapsuleError>(payload),
{
}

/// Every capsule that `protect` returns opens under the same secret to the payload it sealed,
/// whatever the payload's length (the empty payload included).
pub proof fn lemma_protect_round_trip(secret: Seq<u8>, payload: Seq<u8>, r: Result<Vec<u8>, CapsuleError>)
    requires
        protect_result(secret, payload, r),
        r is Ok,
    ensures
        open_capsule(secret, r->Ok_0@) == Ok::<Seq<u8>, CapsuleError>(payload),
{
    lemma_round_trip(secret, payload, r->Ok_0@);
}

/// Two capsules that `protect` returns for the same secret and payload each open to that
/// payload, independently of the salt and nonce that each drew.
pub proof fn lemma_two_capsules_round_trip(
    secret: Seq<u8>,
    payload: Seq<u8>,
    r1: Result<Vec<u8>, CapsuleError>,
    r2: Result<Vec<u8>, CapsuleError>,
)
    requires
        protect_result(secret, payload, r1),
        protect_result(secret, payload, r2),
        r1 is Ok,
        r2 is Ok,
    ensures
        open_capsule(secret, r1->Ok_0@) == Ok::<Seq<u8>, CapsuleError>(payload),
        open_capsule(secret, r2->Ok_0@) == Ok::<Seq<u8>, CapsuleError>(payload),
{
    lemma_protect_round_trip(secret, payload, r1);
    lemma_protect_round_trip(secret, payload, r2);
}

/// A capsule is as long as its payload and the fixed overhead together.
pub proof fn lemma_capsule_length(secret: Seq<u8>, payload: Seq<u8>, capsule: Seq<u8>)
    requires
        is_capsule_of(secret, payload, capsule),
    ensures
        capsule.len() == payload.len() + OVERHEAD,
{
}

/// Under a valid secret, opening reports a truncated capsule exactly when the capsule is shorter
/// than the overhead; a capsule of exactly the overhead goes on to authentication.
pub proof fn lemma_truncation_boundary(secret: Seq<u8>, capsule: Seq<u8>)
    requires
        valid_secret(secret),
    ensures
        capsule.len() < OVERHEAD <==> open_capsule(secret, capsule)
            == Err::<Seq<u8>, CapsuleError>(CapsuleError::TruncatedCapsule),
        capsule.len() >= OVERHEAD ==> (open_capsule(secret, capsule) is Ok || open_capsule(secret, capsule)
            == Err::<Seq<u8>, CapsuleError>(CapsuleError::InvalidCapsule)),
{
}

} // verus!
