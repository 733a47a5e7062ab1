use kync_rawkey::plugin::{
    auth_info_protect, auth_info_recover, buffer_len, configs, id, init, is_supported_config,
    protect, recover, AuthInfo, Operation, API,
};
use kync_rawkey::slice_ext::MutSliceExt;
use kync_rawkey::{CapsuleError, SliceExt};

#[test]
fn init_accepts_only_its_api() {
    assert!(init(0x0100));
    assert!(init(API));
    assert!(!init(0x0101));
    assert!(!init(0));
}

#[test]
fn identity_and_configs() {
    assert_eq!(id(), "de.KizzyCode.RawKey.2C24B914-C9E9-41B3-8033-6B0364BCBA2E");
    assert_eq!(configs(), "Blake2b-ChaChaPolyIETF");
    assert!(is_supported_config(b"Blake2b-ChaChaPolyIETF"));
    assert!(!is_supported_config(b"Blake2b-ChaChaPolyIETf"));
    assert!(!is_supported_config(b"Blake2b-ChaChaPoly"));
    assert!(!is_supported_config(b""));
}

#[test]
fn auth_info_queries() {
    let info = AuthInfo { is_required: true, retries: u64::MAX };
    assert_eq!(auth_info_protect(b"Blake2b-ChaChaPolyIETF"), Ok(info));
    assert_eq!(auth_info_recover(b"Blake2b-ChaChaPolyIETF"), Ok(info));
    assert_eq!(auth_info_protect(b"AES-GCM"), Err(CapsuleError::UnsupportedConfiguration));
    assert_eq!(auth_info_recover(b"AES-GCM"), Err(CapsuleError::UnsupportedConfiguration));
}

#[test]
fn buffer_sizes() {
    assert_eq!(buffer_len(Operation::Protect, 0), Some(44));
    assert_eq!(buffer_len(Operation::Protect, 9), Some(53));
    assert_eq!(buffer_len(Operation::Recover, 53), Some(53));
    assert_eq!(buffer_len(Operation::Protect, usize::MAX - 43), None);
    assert_eq!(buffer_len(Operation::Protect, usize::MAX - 44), Some(usize::MAX));
}

#[test]
fn host_protect_and_recover() {
    let capsule = protect(b"key", b"Blake2b-ChaChaPolyIETF", Some(b"pw")).unwrap();
    assert_eq!(capsule.len(), 3 + 44);
    assert_eq!(recover(&capsule, Some(b"pw")), Ok(b"key".to_vec()));
    assert_eq!(protect(b"key", b"other", Some(b"pw")), Err(CapsuleError::UnsupportedConfiguration));
    assert_eq!(protect(b"key", b"other", None), Err(CapsuleError::UnsupportedConfiguration));
    assert_eq!(protect(b"key", b"Blake2b-ChaChaPolyIETF", None), Err(CapsuleError::MissingSecret));
    assert_eq!(recover(&capsule, None), Err(CapsuleError::MissingSecret));
}

#[test]
fn split_off_splits_at_the_position() {
    let bytes: &[u8] = b"abcdef";
    assert_eq!(bytes.split_off(2), (&b"ab"[..], &b"cdef"[..]));
    assert_eq!(bytes.split_off(0), (&b""[..], &b"abcdef"[..]));
    assert_eq!(bytes.split_off(6), (&b"abcdef"[..], &b""[..]));
}

#[test]
fn split_off_mut_splits_at_the_position() {
    let mut bytes = *b"abcdef";
    let (front, rest) = bytes.split_off_mut(2);
    assert_eq!((&front[..], &rest[..]), (&b"ab"[..], &b"cdef"[..]));
    front[0] = b'X';
    rest[0] = b'Y';
    assert_eq!(&bytes, b"XbYdef");
}

#[test]
fn error_messages() {
    assert_eq!(CapsuleError::TruncatedCapsule.message(), "The capsule is truncated/damaged");
    assert_eq!(CapsuleError::InvalidCapsule.message(), "ChachaPolyIetf failed to open some data");
    assert_eq!(CapsuleError::RandomFault.message(), "OsRandom failed to generate data");
}
