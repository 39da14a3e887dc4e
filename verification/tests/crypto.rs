use rusqlite::crypto::{self, HmacAlgorithm, KdfAlgorithm, RustCryptoProvider};

fn hex(bytes: &[u8]) -> String {
    bytes.iter().map(|b| format!("{b:02x}")).collect()
}

#[test]
fn hmac_sha256_known_vector() {
    let mut p = RustCryptoProvider::new();
    let mut out = [0u8; 32];
    let rc = p.hmac(
        HmacAlgorithm::HmacSha256,
        b"key",
        b"The quick brown fox ",
        Some(b"jumps over the lazy dog"),
        &mut out,
    );
    assert_eq!(rc, 0);
    assert_eq!(hex(&out), "f7bc83f430538424b13298e6aa6fb143ef4d59a14946175997479dbc2d1a3cd8");
}

#[test]
fn hmac_sha1_known_vector_by_code() {
    let mut p = RustCryptoProvider::new();
    let mut out = [0u8; 20];
    let rc = crypto::hmac(
        &mut p,
        crypto::SQLCIPHER_HMAC_SHA1,
        b"key",
        b"The quick brown fox jumps over the lazy dog",
        None,
        &mut out,
    );
    assert_eq!(rc, 0);
    assert_eq!(hex(&out), "de7c9b85b8b78aa6bc8a7a36f70a90701c9db4d9");
}

#[test]
fn hmac_sizes() {
    let p = RustCryptoProvider::new();
    assert_eq!(HmacAlgorithm::HmacSha1.output_len(), 20);
    assert_eq!(HmacAlgorithm::HmacSha256.output_len(), 32);
    assert_eq!(HmacAlgorithm::HmacSha512.output_len(), 64);
    assert_eq!(p.get_hmac_sz(HmacAlgorithm::HmacSha512), 64);
    assert_eq!(crypto::get_hmac_sz(&p, crypto::SQLCIPHER_HMAC_SHA256), 32);
    assert_eq!(p.get_key_sz(), 32);
    assert_eq!(p.get_iv_sz(), 16);
    assert_eq!(p.get_block_sz(), 16);
    assert_eq!(p.fips_status(), -1);
    assert_eq!(p.get_provider_name(), "RustCrypto");
    assert_eq!(p.get_cipher(), "aes256-CBC");
    assert_eq!(p.get_provider_version(), "0.1.0");
}

#[test]
fn pbkdf2_known_vectors() {
    let mut p = RustCryptoProvider::new();
    let mut key = [0u8; 32];
    assert_eq!(p.kdf(KdfAlgorithm::Pbkdf2HmacSha256, b"password", b"salt", 1, &mut key), 0);
    assert_eq!(hex(&key), "120fb6cffcf8b32c43e7225256c4f837a86548c92ccc35480805987cb70be17b");
    let mut key = [0u8; 20];
    assert_eq!(crypto::kdf(&mut p, crypto::SQLCIPHER_PBKDF2_HMAC_SHA1, b"password", b"salt", 1, &mut key), 0);
    assert_eq!(hex(&key), "0c60c80f961f0e71f3a9b524af6012062fe037a6");
}

#[test]
fn encrypt_then_decrypt_round_trip() {
    let mut p = RustCryptoProvider::new();
    let key = [7u8; 32];
    let iv = [3u8; 16];
    let plain: Vec<u8> = (0u8..32).collect();
    let mut cipher_text = vec![0u8; 32];
    assert_eq!(p.encrypt(&key, &iv, &plain, &mut cipher_text), 0);
    assert_ne!(cipher_text, plain);
    let mut back = vec![0u8; 32];
    assert_eq!(p.decrypt(&key, &iv, &cipher_text, &mut back), 0);
    assert_eq!(back, plain);
}

#[test]
fn cipher_dispatch_by_mode() {
    let mut p = RustCryptoProvider::new();
    let key = [1u8; 32];
    let iv = [2u8; 16];
    let plain = [5u8; 16];
    let mut enc = [0u8; 16];
    assert_eq!(crypto::cipher(&mut p, crypto::SQLCIPHER_ENCRYPT, &key, &iv, &plain, &mut enc), 0);
    let mut dec = [0u8; 16];
    assert_eq!(crypto::cipher(&mut p, crypto::SQLCIPHER_DECRYPT, &key, &iv, &enc, &mut dec), 0);
    assert_eq!(dec, plain);
}

#[test]
fn cipher_refuses_partial_blocks_and_zeroes_output() {
    let mut p = RustCryptoProvider::new();
    let key = [1u8; 32];
    let iv = [2u8; 16];
    let mut out = [9u8; 32];
    assert_eq!(p.encrypt(&key, &iv, &[1u8; 15], &mut out), -1);
    assert_eq!(out, [0u8; 32]);
    let mut out = [9u8; 8];
    assert_eq!(p.decrypt(&key, &iv, &[1u8; 16], &mut out), -1);
    assert_eq!(out, [0u8; 8]);
}

#[test]
fn cipher_leaves_tail_of_longer_output() {
    let mut p = RustCryptoProvider::new();
    let mut out = [9u8; 20];
    assert_eq!(p.encrypt(&[1u8; 32], &[2u8; 16], &[0u8; 16], &mut out), 0);
    assert_eq!(&out[16..], &[9u8; 4]);
}

#[test]
fn random_fills_buffer() {
    let mut p = RustCryptoProvider::new();
    let mut buf = [0u8; 64];
    assert_eq!(p.random(&mut buf), 0);
    assert!(buf.iter().any(|b| *b != 0));
    assert_eq!(p.add_random(b"entropy"), 0);
}

#[test]
fn parse_algorithm_codes() {
    assert_eq!(crypto::parse_hmac_algorithm(0), HmacAlgorithm::HmacSha1);
    assert_eq!(crypto::parse_hmac_algorithm(1), HmacAlgorithm::HmacSha256);
    assert_eq!(crypto::parse_hmac_algorithm(2), HmacAlgorithm::HmacSha512);
    assert_eq!(crypto::parse_kdf_algorithm(2), KdfAlgorithm::Pbkdf2HmacSha512);
}
