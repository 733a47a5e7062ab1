//! The operation surface that a plugin host calls: version and identity queries, the supported
//! configuration, authentication requirements, buffer sizes, and sealing and opening with the
//! host's configuration and user secret.

use vstd::prelude::*;
use vstd::string::StringSliceAdditionalSpecFns;
use crate::capsule::{self, CapsuleError, OVERHEAD};

verus! {

/// The plugin API version that this library implements.
pub const API: u16 = 0x0100;
/// The plugin's format identifier.
pub const UID: &'static str = "de.KizzyCode.RawKey.2C24B914-C9E9-41B3-8033-6B0364BCBA2E";
/// The one supported construction: Blake2b as KDF and ChaCha20-Poly1305 (IETF) as AEAD.
pub const CONFIG_BLAKE2B_CHACHAPOLY_IETF: &'static str = "Blake2b-ChaChaPolyIETF";

/// The name of the supported construction, as bytes.
pub open spec fn supported_config() -> Seq<u8> {
    CONFIG_BLAKE2B_CHACHAPOLY_IETF.spec_bytes()
}

/// What a host must supply to seal or open under a configuration.
#[derive(Debug, Clone, Copy, PartialEq, Eq, Structural)]
pub struct AuthInfo {
    /// Whether a user secret is required
    pub is_required: bool,
    /// How many attempts are left; `u64::MAX` stands for no limit
    pub retries: u64,
}

/// An operation whose output buffer a host sizes in advance.
#[derive(Debug, Clone, Copy, PartialEq, Eq, Structural)]
pub enum Operation {
    /// Sealing a payload into a capsule
    Protect,
    /// Opening a capsule
    Recover,
}

/// Checks the host's API version: only `API` is supported.
pub fn init(api: u16) -> (r: bool)
    ensures
        r == (api == API),
{
    api == API
}

/// Queries the plugin/format ID
pub fn id() -> (r: &'static str)
    ensures
        r == UID,
{
    UID
}

/// Queries all possible configs: there is one.
pub fn configs() -> (r: &'static str)
    ensures
        r == CONFIG_BLAKE2B_CHACHAPOLY_IETF,
{
    CONFIG_BLAKE2B_CHACHAPOLY_IETF
}

/// Whether `config` names the supported construction.
pub fn is_supported_config(config: &[u8]) -> (r: bool)
    ensures
        r == (config@ == supported_config()),
{
    let expected = CONFIG_BLAKE2B_CHACHAPOLY_IETF.as_bytes();
    if config.len() != expected.len() {
        return false;
    }
    let mut i: usize = 0;
    while i < config.len()
        invariant
            config@.len() == expected@.len(),
            expected@ == supported_config(),
            0 <= i <= config@.len(),
            config@.subrange(0, i as int) == expected@.subrange(0, i as int),
        decreases config@.len() - i,
    {
        if config[i] != expected[i] {
            assert(config@[i as int] != expected@[i as int]);
            return false;
        }
        assert(config@.subrange(0, i + 1) =~= config@.subrange(0, i as int).push(config@[i as int]));
        assert(expected@.subrange(0, i + 1) =~= expected@.subrange(0, i as int).push(expected@[i as int]));
        i = i + 1;
    }
    assert(config@ =~= config@.subrange(0, i as int));
    assert(expected@ =~= expected@.subrange(0, i as int));
    true
}

/// The authentication requirements of `config`, the same for sealing and opening: a user secret
/// is always required, and there is no limit on attempts.
fn auth_info(config: &[u8]) -> (r: Result<AuthInfo, CapsuleError>)
    ensures
        config@ == supported_config() ==> r == Ok::<AuthInfo, CapsuleError>(AuthInfo { is_required: true, retries: u64::MAX }),
        config@ != supported_config() ==> r == Err::<AuthInfo, CapsuleError>(CapsuleError::UnsupportedConfiguration),
{
    if !is_supported_config(config) {
        return Err(CapsuleError::UnsupportedConfiguration);
    }
    Ok(AuthInfo { is_required: true, retries: u64::MAX })
}

/// Queries the authentication requirements to protect a secret for a specific config
pub fn auth_info_protect(config: &[u8]) -> (r: Result<AuthInfo, CapsuleError>)
    ensures
        config@ == supported_config() ==> r == Ok::<AuthInfo, CapsuleError>(AuthInfo { is_required: true, retries: u64::MAX }),
        config@ != supported_config() ==> r == Err::<AuthInfo, CapsuleError>(CapsuleError::UnsupportedConfiguration),
{
    auth_info(config)
}

/// Queries the authentication requirements to recover a secret for a specific config
pub fn auth_info_recover(config: &[u8]) -> (r: Result<AuthInfo, CapsuleError>)
    ensures
        config@ == supported_config() ==> r == Ok::<AuthInfo, CapsuleError>(AuthInfo { is_required: true, retries: u64::MAX }),
        config@ != supported_config() ==> r == Err::<AuthInfo, CapsuleError>(CapsuleError::UnsupportedConfiguration),
{
    auth_info(config)
}

/// The size of the output buffer that `op` needs for an input of `input_len` bytes: the exact
/// capsule length for sealing, and the capsule length (an upper bound on the payload) for
/// opening. Nothing where that size does not fit in `usize`.
pub fn buffer_len(op: Operation, input_len: usize) -> (r: Option<usize>)
    ensures
        op == Operation::Protect ==> r == (if input_len + OVERHEAD <= usize::MAX {
            Some((input_len + OVERHEAD) as usize)
        } else {
            None::<usize>
        }),
        op == Operation::Recover ==> r == Some(input_len),
{
    match op {
        Operation::Protect => input_len.checked_add(OVERHEAD),
        Operation::Recover => Some(input_len),
    }
}

/// Protects `data` under the user secret `auth` for the construction `config`.
pub fn protect(data: &[u8], config: &[u8], auth: Option<&[u8]>) -> (r: Result<Vec<u8>, CapsuleError>)
    ensures
        config@ != supported_config() ==> r == Err::<Vec<u8>, CapsuleError>(CapsuleError::UnsupportedConfiguration),
        config@ == supported_config() && auth is None ==> r == Err::<Vec<u8>, CapsuleError>(CapsuleError::MissingSecret),
        config@ == supported_config() && auth is Some ==> capsule::protect_result(auth->Some_0@, data@, r),
{
    if !is_supported_config(config) {
        return Err(CapsuleError::UnsupportedConfiguration);
    }
    match auth {
        Some(secret) => capsule::protect(secret, data),
        None => Err(CapsuleError::MissingSecret),
    }
}

/// Recovers the payload of the capsule `data` under the user secret `auth`.
pub fn recover(data: &[u8], auth: Option<&[u8]>) -> (r: Result<Vec<u8>, CapsuleError>)
    ensures
        auth is None ==> r == Err::<Vec<u8>, CapsuleError>(CapsuleError::MissingSecret),
        auth is Some ==> capsule::recover_result(auth->Some_0@, data@, r),
{
    match auth {
        Some(secret) => capsule::recover(secret, data),
        None => Err(CapsuleError::MissingSecret),
    }
}

} // verus!
