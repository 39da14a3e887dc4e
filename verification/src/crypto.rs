//! A cryptography provider for SQLCipher built on the RustCrypto crates:
//! HMAC over SHA-1 / SHA-256 / SHA-512, PBKDF2 key derivation and AES-256
//! in CBC mode without padding.

use vstd::prelude::*;
use aes::cipher::block_padding::NoPadding;
use aes::cipher::{BlockDecryptMut, BlockEncryptMut, BlockSizeUser, IvSizeUser, KeyIvInit, KeySizeUser};
use hmac::{Hmac, Mac};

verus! {

/// `SQLCIPHER_HMAC_SHA1`, `SQLCIPHER_PBKDF2_HMAC_SHA1`.
pub const SQLCIPHER_HMAC_SHA1: i32 = 0;
/// `SQLCIPHER_HMAC_SHA256`, `SQLCIPHER_PBKDF2_HMAC_SHA256`.
pub const SQLCIPHER_HMAC_SHA256: i32 = 1;
/// `SQLCIPHER_HMAC_SHA512`, `SQLCIPHER_PBKDF2_HMAC_SHA512`.
pub const SQLCIPHER_HMAC_SHA512: i32 = 2;
/// `SQLCIPHER_PBKDF2_HMAC_SHA1`.
pub const SQLCIPHER_PBKDF2_HMAC_SHA1: i32 = 0;
/// `SQLCIPHER_PBKDF2_HMAC_SHA256`.
pub const SQLCIPHER_PBKDF2_HMAC_SHA256: i32 = 1;
/// `SQLCIPHER_PBKDF2_HMAC_SHA512`.
pub const SQLCIPHER_PBKDF2_HMAC_SHA512: i32 = 2;
/// The cipher mode that decrypts.
pub const SQLCIPHER_DECRYPT: i32 = 0;
/// The cipher mode that encrypts.
pub const SQLCIPHER_ENCRYPT: i32 = 1;

// ---------------------------------------------------------------------------
// Names for what the outside primitives compute.
// ---------------------------------------------------------------------------

/// HMAC-SHA1 of `message` under `key`.
pub uninterp spec fn hmac_sha1_tag(key: Seq<u8>, message: Seq<u8>) -> Seq<u8>;

/// HMAC-SHA256 of `message` under `key`.
pub uninterp spec fn hmac_sha256_tag(key: Seq<u8>, message: Seq<u8>) -> Seq<u8>;

/// HMAC-SHA512 of `message` under `key`.
pub uninterp spec fn hmac_sha512_tag(key: Seq<u8>, message: Seq<u8>) -> Seq<u8>;

/// PBKDF2-HMAC-SHA1 output of `len` bytes.
pub uninterp spec fn pbkdf2_sha1_key(password: Seq<u8>, salt: Seq<u8>, rounds: u32, len: nat) -> Seq<u8>;

/// PBKDF2-HMAC-SHA256 output of `len` bytes.
pub uninterp spec fn pbkdf2_sha256_key(password: Seq<u8>, salt: Seq<u8>, rounds: u32, len: nat) -> Seq<u8>;

/// PBKDF2-HMAC-SHA512 output of `len` bytes.
pub uninterp spec fn pbkdf2_sha512_key(password: Seq<u8>, salt: Seq<u8>, rounds: u32, len: nat) -> Seq<u8>;

/// AES-256-CBC encryption (no padding) of whole blocks.
pub uninterp spec fn aes256_cbc_encrypted(key: Seq<u8>, iv: Seq<u8>, plaintext: Seq<u8>) -> Seq<u8>;

/// AES-256-CBC decryption (no padding) of whole blocks.
pub uninterp spec fn aes256_cbc_decrypted(key: Seq<u8>, iv: Seq<u8>, ciphertext: Seq<u8>) -> Seq<u8>;

// ---------------------------------------------------------------------------
// Trusted calls into the RustCrypto crates and `rand`.
// ---------------------------------------------------------------------------

/// Calls `Hmac::<Sha1>::new_from_slice`, `Mac::update` on `input1` then on
/// `input2`, and `Mac::finalize`, copying the 20-byte tag into `out`.
/// Claimed: HMAC accepts keys of any length, and two updates authenticate
/// the concatenation of their inputs.
#[verifier::external_body]
fn hmac_sha1(key: &[u8], input1: &[u8], input2: &[u8], out: &mut [u8])
    requires
        old(out)@.len() == 20,
    ensures
        final(out)@.len() == 20,
        final(out)@ == hmac_sha1_tag(key@, input1@ + input2@),
{
    let mut mac = <Hmac<sha1::Sha1> as Mac>::new_from_slice(key).expect("HMAC takes keys of any length");
    mac.update(input1);
    mac.update(input2);
    out.copy_from_slice(&mac.finalize().into_bytes());
}

/// As `hmac_sha1`, with `Hmac::<Sha256>` and a 32-byte tag.
#[verifier::external_body]
fn hmac_sha256(key: &[u8], input1: &[u8], input2: &[u8], out: &mut [u8])
    requires
        old(out)@.len() == 32,
    ensures
        final(out)@.len() == 32,
        final(out)@ == hmac_sha256_tag(key@, input1@ + input2@),
{
    let mut mac = <Hmac<sha2::Sha256> as Mac>::new_from_slice(key).expect("HMAC takes keys of any length");
    mac.update(input1);
    mac.update(input2);
    out.copy_from_slice(&mac.finalize().into_bytes());
}

/// As `hmac_sha1`, with `Hmac::<Sha512>` and a 64-byte tag.
#[verifier::external_body]
fn hmac_sha512(key: &[u8], input1: &[u8], input2: &[u8], out: &mut [u8])
    requires
        old(out)@.len() == 64,
    ensures
        final(out)@.len() == 64,
        final(out)@ == hmac_sha512_tag(key@, input1@ + input2@),
{
    let mut mac = <Hmac<sha2::Sha512> as Mac>::new_from_slice(key).expect("HMAC takes keys of any length");
    mac.update(input1);
    mac.update(input2);
    out.copy_from_slice(&mac.finalize().into_bytes());
}

/// Calls `pbkdf2::pbkdf2_hmac::<Sha1>`, which overwrites the whole of `res`
/// with the derived key. It fills `res` in 20-byte blocks numbered from 1 by
/// a `u32` (`i + 1` on the block's index): the bound on the length of
/// `res` keeps that sum from overflowing, which panics where overflow is
/// checked.
#[verifier::external_body]
fn pbkdf2_hmac_sha1(password: &[u8], salt: &[u8], rounds: u32, res: &mut [u8])
    requires
        old(res)@.len() <= 0xFFFF_FFFFnat * 20,
    ensures
        final(res)@.len() == old(res)@.len(),
        final(res)@ == pbkdf2_sha1_key(password@, salt@, rounds, old(res)@.len()),
{
    pbkdf2::pbkdf2_hmac::<sha1::Sha1>(password, salt, rounds, res);
}

/// As `pbkdf2_hmac_sha1`, with `pbkdf2::pbkdf2_hmac::<Sha256>` (32-byte blocks).
#[verifier::external_body]
fn pbkdf2_hmac_sha256(password: &[u8], salt: &[u8], rounds: u32, res: &mut [u8])
    requires
        old(res)@.len() <= 0xFFFF_FFFFnat * 32,
    ensures
        final(res)@.len() == old(res)@.len(),
        final(res)@ == pbkdf2_sha256_key(password@, salt@, rounds, old(res)@.len()),
{
    pbkdf2::pbkdf2_hmac::<sha2::Sha256>(password, salt, rounds, res);
}

/// As `pbkdf2_hmac_sha1`, with `pbkdf2::pbkdf2_hmac::<Sha512>` (64-byte blocks).
#[verifier::external_body]
fn pbkdf2_hmac_sha512(password: &[u8], salt: &[u8], rounds: u32, res: &mut [u8])
    requires
        old(res)@.len() <= 0xFFFF_FFFFnat * 64,
    ensures
        final(res)@.len() == old(res)@.len(),
        final(res)@ == pbkdf2_sha512_key(password@, salt@, rounds, old(res)@.len()),
{
    pbkdf2::pbkdf2_hmac::<sha2::Sha512>(password, salt, rounds, res);
}

/// Calls `cbc::Encryptor::<Aes256>::new` and
/// `encrypt_padded_b2b_mut::<NoPadding>`. The call succeeds exactly when the
/// input is whole 16-byte blocks and `out` is at least as long; it then
/// writes the ciphertext over the front of `out` and leaves the rest, and
/// otherwise writes nothing. Claimed besides: CBC decryption under the same
/// key and IV gives the plaintext back.
#[verifier::external_body]
fn aes256_cbc_encrypt(key: &[u8], iv: &[u8], input: &[u8], out: &mut [u8]) -> (ok: bool)
    requires
        key@.len() == 32,
        iv@.len() == 16,
    ensures
        ok == (input@.len() <= old(out)@.len() && input@.len() % 16 == 0),
        final(out)@.len() == old(out)@.len(),
        ok ==> final(out)@ == aes256_cbc_encrypted(key@, iv@, input@) + old(out)@.skip(input@.len() as int),
        ok ==> aes256_cbc_decrypted(key@, iv@, final(out)@.take(input@.len() as int)) == input@,
        !ok ==> final(out)@ == old(out)@,
{
    let enc = cbc::Encryptor::<aes::Aes256>::new(key.into(), iv.into());
    enc.encrypt_padded_b2b_mut::<NoPadding>(input, out).is_ok()
}

/// Calls `cbc::Decryptor::<Aes256>::new` and
/// `decrypt_padded_b2b_mut::<NoPadding>`, which succeeds exactly when the
/// input is whole 16-byte blocks and `out` is at least as long, writing the
/// plaintext over the front of `out`; otherwise it writes nothing.
#[verifier::external_body]
fn aes256_cbc_decrypt(key: &[u8], iv: &[u8], input: &[u8], out: &mut [u8]) -> (ok: bool)
    requires
        key@.len() == 32,
        iv@.len() == 16,
    ensures
        ok == (input@.len() <= old(out)@.len() && input@.len() % 16 == 0),
        final(out)@.len() == old(out)@.len(),
        ok ==> final(out)@ == aes256_cbc_decrypted(key@, iv@, input@) + old(out)@.skip(input@.len() as int),
        !ok ==> final(out)@ == old(out)@,
{
    let dec = cbc::Decryptor::<aes::Aes256>::new(key.into(), iv.into());
    dec.decrypt_padded_b2b_mut::<NoPadding>(input, out).is_ok()
}

/// `KeySizeUser::key_size` of AES-256-CBC: 32 bytes.
#[verifier::external_body]
fn aes256_cbc_key_size() -> (n: usize)
    ensures
        n == 32,
{
    <cbc::Encryptor<aes::Aes256> as KeySizeUser>::key_size()
}

/// `IvSizeUser::iv_size` of AES-256-CBC: 16 bytes.
#[verifier::external_body]
fn aes256_cbc_iv_size() -> (n: usize)
    ensures
        n == 16,
{
    <cbc::Encryptor<aes::Aes256> as IvSizeUser>::iv_size()
}

/// `BlockSizeUser::block_size` of AES-256-CBC: 16 bytes.
#[verifier::external_body]
fn aes256_cbc_block_size() -> (n: usize)
    ensures
        n == 16,
{
    <cbc::Encryptor<aes::Aes256> as BlockSizeUser>::block_size()
}

/// Calls `rand::fill`, which overwrites `buffer` with random bytes from the
/// thread-local generator. Nothing is claimed of the bytes; `rand` panics
/// only when the operating system's generator cannot seed it.
#[verifier::external_body]
fn fill_random(buffer: &mut [u8])
    ensures
        final(buffer)@.len() == old(buffer)@.len(),
{
    rand::fill(buffer);
}

// ---------------------------------------------------------------------------
// The algorithms and the provider.
// ---------------------------------------------------------------------------

/// An HMAC algorithm SQLCipher may ask for.
#[derive(Copy, Clone, Debug, PartialEq, Eq, Structural)]
pub enum HmacAlgorithm {
    HmacSha1,
    HmacSha256,
    HmacSha512,
}

/// A key derivation algorithm SQLCipher may ask for.
#[derive(Copy, Clone, Debug, PartialEq, Eq, Structural)]
pub enum KdfAlgorithm {
    Pbkdf2HmacSha1,
    Pbkdf2HmacSha256,
    Pbkdf2HmacSha512,
}

impl HmacAlgorithm {
    /// Length of the tag in bytes.
    pub open spec fn spec_output_len(self) -> nat {
        match self {
            HmacAlgorithm::HmacSha1 => 20,
            HmacAlgorithm::HmacSha256 => 32,
            HmacAlgorithm::HmacSha512 => 64,
        }
    }

    /// The tag of `message` under `key`.
    pub open spec fn tag(self, key: Seq<u8>, message: Seq<u8>) -> Seq<u8> {
        match self {
            HmacAlgorithm::HmacSha1 => hmac_sha1_tag(key, message),
            HmacAlgorithm::HmacSha256 => hmac_sha256_tag(key, message),
            HmacAlgorithm::HmacSha512 => hmac_sha512_tag(key, message),
        }
    }

    /// Length of the tag in bytes: 20, 32 or 64.
    pub fn output_len(&self) -> (n: usize)
        ensures
            n == self.spec_output_len(),
    {
        match self {
            HmacAlgorithm::HmacSha1 => 20,
            HmacAlgorithm::HmacSha256 => 32,
            HmacAlgorithm::HmacSha512 => 64,
        }
    }
}

impl KdfAlgorithm {
    /// The longest key the derivation produces without its block counter
    /// (a `u32`, numbering the hash-sized blocks from 1) overflowing:
    /// `u32::MAX` blocks of the hash's output length.
    pub open spec fn max_key_len(self) -> nat {
        match self {
            KdfAlgorithm::Pbkdf2HmacSha1 => 0xFFFF_FFFFnat * 20,
            KdfAlgorithm::Pbkdf2HmacSha256 => 0xFFFF_FFFFnat * 32,
            KdfAlgorithm::Pbkdf2HmacSha512 => 0xFFFF_FFFFnat * 64,
        }
    }

    /// The `len`-byte key derived from `password` and `salt`.
    pub open spec fn derived(self, password: Seq<u8>, salt: Seq<u8>, rounds: u32, len: nat) -> Seq<u8> {
        match self {
            KdfAlgorithm::Pbkdf2HmacSha1 => pbkdf2_sha1_key(password, salt, rounds, len),
            KdfAlgorithm::Pbkdf2HmacSha256 => pbkdf2_sha256_key(password, salt, rounds, len),
            KdfAlgorithm::Pbkdf2HmacSha512 => pbkdf2_sha512_key(password, salt, rounds, len),
        }
    }
}

/// The HMAC algorithm that an SQLCipher code stands for.
pub open spec fn hmac_algorithm_of(code: i32) -> HmacAlgorithm {
    if code == SQLCIPHER_HMAC_SHA1 {
        HmacAlgorithm::HmacSha1
    } else if code == SQLCIPHER_HMAC_SHA256 {
        HmacAlgorithm::HmacSha256
    } else {
        HmacAlgorithm::HmacSha512
    }
}

/// The key derivation algorithm that an SQLCipher code stands for.
pub open spec fn kdf_algorithm_of(code: i32) -> KdfAlgorithm {
    if code == SQLCIPHER_PBKDF2_HMAC_SHA1 {
        KdfAlgorithm::Pbkdf2HmacSha1
    } else if code == SQLCIPHER_PBKDF2_HMAC_SHA256 {
        KdfAlgorithm::Pbkdf2HmacSha256
    } else {
        KdfAlgorithm::Pbkdf2HmacSha512
    }
}

/// SQLCipher's algorithm codes name what they say: HMAC code 0 is
/// HMAC-SHA1, 1 HMAC-SHA256 and 2 HMAC-SHA512; key derivation code 0 is
/// PBKDF2-HMAC-SHA1, 1 PBKDF2-HMAC-SHA256 and 2 PBKDF2-HMAC-SHA512, each
/// producing the tag or key of that hash and of that tag length.
pub proof fn lemma_algorithm_codes(key: Seq<u8>, message: Seq<u8>, password: Seq<u8>, salt: Seq<u8>, rounds: u32, len: nat)
    ensures
        SQLCIPHER_HMAC_SHA1 == 0 && SQLCIPHER_HMAC_SHA256 == 1 && SQLCIPHER_HMAC_SHA512 == 2,
        SQLCIPHER_PBKDF2_HMAC_SHA1 == 0 && SQLCIPHER_PBKDF2_HMAC_SHA256 == 1 && SQLCIPHER_PBKDF2_HMAC_SHA512 == 2,
        hmac_algorithm_of(0) == HmacAlgorithm::HmacSha1,
        hmac_algorithm_of(1) == HmacAlgorithm::HmacSha256,
        hmac_algorithm_of(2) == HmacAlgorithm::HmacSha512,
        hmac_algorithm_of(0).tag(key, message) == hmac_sha1_tag(key, message),
        hmac_algorithm_of(1).tag(key, message) == hmac_sha256_tag(key, message),
        hmac_algorithm_of(2).tag(key, message) == hmac_sha512_tag(key, message),
        hmac_algorithm_of(0).spec_output_len() == 20,
        hmac_algorithm_of(1).spec_output_len() == 32,
        hmac_algorithm_of(2).spec_output_len() == 64,
        kdf_algorithm_of(0) == KdfAlgorithm::Pbkdf2HmacSha1,
        kdf_algorithm_of(1) == KdfAlgorithm::Pbkdf2HmacSha256,
        kdf_algorithm_of(2) == KdfAlgorithm::Pbkdf2HmacSha512,
        kdf_algorithm_of(0).derived(password, salt, rounds, len) == pbkdf2_sha1_key(password, salt, rounds, len),
        kdf_algorithm_of(1).derived(password, salt, rounds, len) == pbkdf2_sha256_key(password, salt, rounds, len),
        kdf_algorithm_of(2).derived(password, salt, rounds, len) == pbkdf2_sha512_key(password, salt, rounds, len),
{
}

/// Reads an SQLCipher HMAC algorithm code; the codes are 0, 1 and 2.
pub fn parse_hmac_algorithm(algorithm: i32) -> (a: HmacAlgorithm)
    requires
        SQLCIPHER_HMAC_SHA1 <= algorithm <= SQLCIPHER_HMAC_SHA512,
    ensures
        a == hmac_algorithm_of(algorithm),
{
    if algorithm == SQLCIPHER_HMAC_SHA1 {
        HmacAlgorithm::HmacSha1
    } else if algorithm == SQLCIPHER_HMAC_SHA256 {
        HmacAlgorithm::HmacSha256
    } else {
        HmacAlgorithm::HmacSha512
    }
}

/// Reads an SQLCipher key derivation algorithm code; the codes are 0, 1 and 2.
pub fn parse_kdf_algorithm(algorithm: i32) -> (a: KdfAlgorithm)
    requires
        SQLCIPHER_PBKDF2_HMAC_SHA1 <= algorithm <= SQLCIPHER_PBKDF2_HMAC_SHA512,
    ensures
        a == kdf_algorithm_of(algorithm),
{
    if algorithm == SQLCIPHER_PBKDF2_HMAC_SHA1 {
        KdfAlgorithm::Pbkdf2HmacSha1
    } else if algorithm == SQLCIPHER_PBKDF2_HMAC_SHA256 {
        KdfAlgorithm::Pbkdf2HmacSha256
    } else {
        KdfAlgorithm::Pbkdf2HmacSha512
    }
}

/// The bytes of an optional second input: none when absent.
pub open spec fn optional_bytes(input: Option<&[u8]>) -> Seq<u8> {
    match input {
        Some(s) => s@,
        None => Seq::empty(),
    }
}

/// What a successful cipher call leaves in `out`: the result over the front,
/// the rest as it was.
pub open spec fn overwritten_front(result: Seq<u8>, out: Seq<u8>) -> Seq<u8> {
    result + out.skip(result.len() as int)
}

/// Whether a block cipher call on `input` into `out` succeeds: the input is
/// whole 16-byte blocks and fits in `out`.
pub open spec fn cipher_accepts(input: Seq<u8>, out: Seq<u8>) -> bool {
    input.len() <= out.len() && input.len() % 16 == 0
}

/// The SQLCipher crypto provider backed by the RustCrypto crates.
#[derive(Debug, Default, Clone, Copy)]
pub struct RustCryptoProvider;

impl RustCryptoProvider {
    /// A new provider.
    pub fn new() -> (p: Self) {
        RustCryptoProvider
    }

    /// The provider's name.
    pub fn get_provider_name(&self) -> (name: &'static str)
        ensures
            name@ == "RustCrypto"@,
    {
        "RustCrypto"
    }

    /// Offered entropy is discarded (the thread-local generator reseeds
    /// itself); always 0.
    pub fn add_random(&mut self, buffer: &[u8]) -> (r: i32)
        ensures
            r == 0,
    {
        0
    }

    /// Fills `buffer` with random bytes; always 0.
    pub fn random(&mut self, buffer: &mut [u8]) -> (r: i32)
        ensures
            r == 0,
            final(buffer)@.len() == old(buffer)@.len(),
    {
        fill_random(buffer);
        0
    }

    /// Writes into `out` the HMAC under `hmac_key` of `input1` followed by
    /// `input2` (when given); always 0. `out` must be exactly as long as
    /// the algorithm's tag.
    pub fn hmac(
        &mut self,
        algorithm: HmacAlgorithm,
        hmac_key: &[u8],
        input1: &[u8],
        input2: Option<&[u8]>,
        out: &mut [u8],
    ) -> (r: i32)
        requires
            old(out)@.len() == algorithm.spec_output_len(),
        ensures
            r == 0,
            final(out)@ == algorithm.tag(hmac_key@, input1@ + optional_bytes(input2)),
            final(out)@.len() == algorithm.spec_output_len(),
    {
        let second: &[u8] = match input2 {
            Some(input) => input,
            None => &[],
        };
        assert(second@ == optional_bytes(input2));
        match algorithm {
            HmacAlgorithm::HmacSha1 => hmac_sha1(hmac_key, input1, second, out),
            HmacAlgorithm::HmacSha256 => hmac_sha256(hmac_key, input1, second, out),
            HmacAlgorithm::HmacSha512 => hmac_sha512(hmac_key, input1, second, out),
        }
        0
    }

    /// Overwrites `key` with the key derived from `password` and `salt` in
    /// `n` rounds (a negative `n` read as the `u32` of the same bits);
    /// always 0.
    pub fn kdf(&mut self, algorithm: KdfAlgorithm, password: &[u8], salt: &[u8], n: i32, key: &mut [u8]) -> (r: i32)
        requires
            old(key)@.len() <= algorithm.max_key_len(),
        ensures
            r == 0,
            final(key)@.len() == old(key)@.len(),
            final(key)@ == algorithm.derived(password@, salt@, n as u32, old(key)@.len()),
    {
        let rounds: u32 = n as u32;
        match algorithm {
            KdfAlgorithm::Pbkdf2HmacSha1 => pbkdf2_hmac_sha1(password, salt, rounds, key),
            KdfAlgorithm::Pbkdf2HmacSha256 => pbkdf2_hmac_sha256(password, salt, rounds, key),
            KdfAlgorithm::Pbkdf2HmacSha512 => pbkdf2_hmac_sha512(password, salt, rounds, key),
        }
        0
    }

    /// Fills `out` with zeros.
    fn zero_fill(out: &mut [u8])
        ensures
            final(out)@.len() == old(out)@.len(),
            forall|i: int| 0 <= i < final(out)@.len() ==> final(out)@[i] == 0,
    {
        let n = out.len();
        let mut i: usize = 0;
        while i < n
            invariant
                n == out@.len(),
                n == old(out)@.len(),
                i <= n,
                forall|j: int| 0 <= j < i ==> out@[j] == 0,
            decreases n - i,
        {
            out[i] = 0;
            i = i + 1;
        }
    }

    /// AES-256-CBC encryption of `input` into the front of `out`: 0 on
    /// success; -1, with `out` zeroed, when `input` is not whole 16-byte
    /// blocks or does not fit in `out`.
    pub fn encrypt(&mut self, key: &[u8], iv: &[u8], input: &[u8], out: &mut [u8]) -> (r: i32)
        requires
            key@.len() == 32,
            iv@.len() == 16,
        ensures
            final(out)@.len() == old(out)@.len(),
            (r == 0) == cipher_accepts(input@, old(out)@),
            r == 0 || r == -1,
            r == 0 ==> final(out)@ == overwritten_front(aes256_cbc_encrypted(key@, iv@, input@), old(out)@),
            r == 0 ==> aes256_cbc_decrypted(key@, iv@, final(out)@.take(input@.len() as int)) == input@,
            r == -1 ==> forall|i: int| 0 <= i < final(out)@.len() ==> final(out)@[i] == 0,
    {
        if !aes256_cbc_encrypt(key, iv, input, out) {
            Self::zero_fill(out);
            return -1;
        }
        0
    }

    /// AES-256-CBC decryption of `input` into the front of `out`: 0 on
    /// success; -1, with `out` zeroed, when `input` is not whole 16-byte
    /// blocks or does not fit in `out`.
    pub fn decrypt(&mut self, key: &[u8], iv: &[u8], input: &[u8], out: &mut [u8]) -> (r: i32)
        requires
            key@.len() == 32,
            iv@.len() == 16,
        ensures
            final(out)@.len() == old(out)@.len(),
            (r == 0) == cipher_accepts(input@, old(out)@),
            r == 0 || r == -1,
            r == 0 ==> final(out)@ == overwritten_front(aes256_cbc_decrypted(key@, iv@, input@), old(out)@),
            r == -1 ==> forall|i: int| 0 <= i < final(out)@.len() ==> final(out)@[i] == 0,
    {
        if !aes256_cbc_decrypt(key, iv, input, out) {
            Self::zero_fill(out);
            return -1;
        }
        0
    }

    /// The cipher's name.
    pub fn get_cipher(&self) -> (name: &'static str)
        ensures
            name@ == "aes256-CBC"@,
    {
        "aes256-CBC"
    }

    /// Key size of AES-256-CBC: 32.
    pub fn get_key_sz(&self) -> (n: i32)
        ensures
            n == 32,
    {
        aes256_cbc_key_size() as i32
    }

    /// IV size of AES-256-CBC: 16.
    pub fn get_iv_sz(&self) -> (n: i32)
        ensures
            n == 16,
    {
        aes256_cbc_iv_size() as i32
    }

    /// Block size of AES-256-CBC: 16.
    pub fn get_block_sz(&self) -> (n: i32)
        ensures
            n == 16,
    {
        aes256_cbc_block_size() as i32
    }

    /// Tag size of the HMAC algorithm: 20, 32 or 64.
    pub fn get_hmac_sz(&self, algorithm: HmacAlgorithm) -> (n: i32)
        ensures
            n == algorithm.spec_output_len(),
    {
        algorithm.output_len() as i32
    }

    /// Not a FIPS-validated provider: -1.
    pub fn fips_status(&self) -> (r: i32)
        ensures
            r == -1,
    {
        -1
    }

    /// The provider's version.
    pub fn get_provider_version(&self) -> (v: &'static str)
        ensures
            v@ == "0.1.0"@,
    {
        "0.1.0"
    }
}

/// The cipher entry point SQLCipher calls: `mode` 0 decrypts and 1 encrypts
/// `input` into `out` with the provider, and the provider's answer comes
/// back.
pub fn cipher(provider: &mut RustCryptoProvider, mode: i32, key: &[u8], iv: &[u8], input: &[u8], out: &mut [u8]) -> (r: i32)
    requires
        mode == SQLCIPHER_DECRYPT || mode == SQLCIPHER_ENCRYPT,
        key@.len() == 32,
        iv@.len() == 16,
    ensures
        final(out)@.len() == old(out)@.len(),
        (r == 0) == cipher_accepts(input@, old(out)@),
        r == 0 || r == -1,
        r == 0 && mode == SQLCIPHER_DECRYPT ==> final(out)@ == overwritten_front(
            aes256_cbc_decrypted(key@, iv@, input@),
            old(out)@,
        ),
        r == 0 && mode == SQLCIPHER_ENCRYPT ==> final(out)@ == overwritten_front(
            aes256_cbc_encrypted(key@, iv@, input@),
            old(out)@,
        ),
        r == -1 ==> forall|i: int| 0 <= i < final(out)@.len() ==> final(out)@[i] == 0,
{
    if mode == SQLCIPHER_DECRYPT {
        provider.decrypt(key, iv, input, out)
    } else {
        provider.encrypt(key, iv, input, out)
    }
}

/// The HMAC entry point SQLCipher calls with an algorithm code: the tag of
/// `input1` followed by `input2` goes into `out`, which is as long as that
/// algorithm's tag.
pub fn hmac(
    provider: &mut RustCryptoProvider,
    algorithm: i32,
    hmac_key: &[u8],
    input1: &[u8],
    input2: Option<&[u8]>,
    out: &mut [u8],
) -> (r: i32)
    requires
        SQLCIPHER_HMAC_SHA1 <= algorithm <= SQLCIPHER_HMAC_SHA512,
        old(out)@.len() == hmac_algorithm_of(algorithm).spec_output_len(),
    ensures
        r == 0,
        final(out)@ == hmac_algorithm_of(algorithm).tag(hmac_key@, input1@ + optional_bytes(input2)),
{
    let alg = parse_hmac_algorithm(algorithm);
    provider.hmac(alg, hmac_key, input1, input2, out)
}

/// The key derivation entry point SQLCipher calls with an algorithm code.
pub fn kdf(
    provider: &mut RustCryptoProvider,
    algorithm: i32,
    pass: &[u8],
    salt: &[u8],
    workfactor: i32,
    key: &mut [u8],
) -> (r: i32)
    requires
        SQLCIPHER_PBKDF2_HMAC_SHA1 <= algorithm <= SQLCIPHER_PBKDF2_HMAC_SHA512,
        old(key)@.len() <= kdf_algorithm_of(algorithm).max_key_len(),
    ensures
        r == 0,
        final(key)@ == kdf_algorithm_of(algorithm).derived(pass@, salt@, workfactor as u32, old(key)@.len()),
{
    let alg = parse_kdf_algorithm(algorithm);
    provider.kdf(alg, pass, salt, workfactor, key)
}

/// The tag-size entry point SQLCipher calls with an algorithm code.
pub fn get_hmac_sz(provider: &RustCryptoProvider, algorithm: i32) -> (n: i32)
    requires
        SQLCIPHER_HMAC_SHA1 <= algorithm <= SQLCIPHER_HMAC_SHA512,
    ensures
        n == hmac_algorithm_of(algorithm).spec_output_len(),
{
    provider.get_hmac_sz(parse_hmac_algorithm(algorithm))
}

} // verus!
