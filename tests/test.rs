use kync_rawkey::plugin::{self, CONFIG_BLAKE2B_CHACHAPOLY_IETF};

const CONFIG: &[u8] = b"Blake2b-ChaChaPolyIETF";

/// Creates a new `len`-sized vector filled with random bytes
fn random_vec(len: usize) -> Vec<u8> {
    crypto_api_osrandom::to_vec(len).unwrap()
}

/// Creates a uniform distributed random number in `[0, max)`
fn random_num(max: u128) -> u128 {
    let rand = || {
        let mut buf = [0u8; 16];
        crypto_api_osrandom::to_slice(&mut buf).unwrap();
        u128::from_be_bytes(buf)
    };
    let limit = u128::MAX - (u128::MAX % max);
    let mut value = rand();
    while value >= limit {
        value = rand()
    }
    value % max
}

/// Creates a uniform random length in `[1, 64)`
fn random_len() -> usize {
    random_num(63) as usize + 1
}

/// Seals a random secret under a random user secret and opens it again
fn randomized_round_trip() {
    let (secret, auth) = (random_vec(random_len()), random_vec(random_len()));
    println!(
        "*> Performing `seal->open`-test with a {} byte secret and {} byte auth data...",
        secret.len(),
        auth.len()
    );
    let protected = plugin::protect(&secret, CONFIG, Some(&auth)).unwrap();
    let recovered = plugin::recover(&protected, Some(&auth)).unwrap();
    assert_eq!(secret, recovered)
}

#[test]
fn test() {
    assert_eq!(CONFIG, CONFIG_BLAKE2B_CHACHAPOLY_IETF.as_bytes());
    for _ in 0..64 {
        randomized_round_trip()
    }
}

#[test]
fn test_predefined() {
    const KEY: &[u8] = b"Testolope";
    const USER_SECRET: &[u8] = b"oGKqY-Yx8wR-HFCMv-Y9Smh-N6oZb-p7ekX-tY3c5-ExCSY-vCG6c";
    const CAPSULE: &[u8] = b"\x14\x2e\x97\xb3\xaf\x8a\x4a\x10\x64\xaa\x67\x2b\x28\xce\x6d\x27\x39\x7e\x8e\x21\xf1\xef\x56\xa5\x61\x2c\xe2\xda\x1c\xc6\x6a\x92\x58\x7d\x12\x7f\xf1\xf5\xde\x71\xc3\x0e\x71\xbd\x7d\xd3\xed\xfb\x32\xb4\xc2\xb6\x2c";

    let key = plugin::recover(CAPSULE, Some(USER_SECRET)).unwrap();
    assert_eq!(key, KEY);
}
