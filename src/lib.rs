//! A capsule engine that protects a secret payload under a user secret.
//!
//! A capsule is `salt[16] || nonce[12] || ciphertext[n] || tag[16]`: the key is derived from the
//! user secret and the salt with Blake2b, the payload is sealed with ChaCha20-Poly1305 (IETF).

pub mod primitives;
pub mod capsule;
pub mod slice_ext;
pub mod error;
pub mod plugin;

pub use capsule::{protect, recover, seal_with, CapsuleError};
pub use error::{error_t, ErrorExt};
pub use slice_ext::SliceExt;
