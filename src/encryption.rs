use vstd::prelude::*;
use vstd::string::StringSliceAdditionalSpecFns;
use vstd::utf8::{decode_utf8, encode_utf8, encode_utf8_decode_utf8, encode_utf8_valid_utf8, valid_utf8};
use crate::types::{StorageError, StorageErrors};
use aes_gcm::aead::{Aead, AeadCore, KeyInit, OsRng};
use aes_gcm::{Aes256Gcm, Key, Nonce};

verus! {

/// Length of an AES-256 key, in bytes.
pub const KEY_LEN: usize = 32;

/// Length of an AES-GCM nonce, in bytes.
pub const NONCE_LEN: usize = 12;

/// The longest plaintext that AES-GCM encrypts, in bytes (2^36).
pub const PLAINTEXT_MAX: u64 = 68719476736;

/// Length of an AES-GCM authentication tag, in bytes.
pub const TAG_LEN: usize = 16;

/// What AES-256-GCM encryption of `plaintext` under `key` and `nonce` gives: the ciphertext
/// followed by its tag.
pub uninterp spec fn aead_seal(key: Seq<u8>, nonce: Seq<u8>, plaintext: Seq<u8>) -> Seq<u8>;

/// What AES-256-GCM decryption of `ciphertext` under `key` and `nonce` gives: the plaintext, or
/// `None` where the authentication tag does not match.
pub uninterp spec fn aead_open(key: Seq<u8>, nonce: Seq<u8>, ciphertext: Seq<u8>) -> Option<Seq<u8>>;

/// Relies on aes_gcm's AeadCore::generate_nonce with the operating system's random source:
/// a fresh 12-byte nonce.
#[verifier::external_body]
fn random_nonce() -> (r: Vec<u8>)
    ensures
        r@.len() == NONCE_LEN,
{
    Aes256Gcm::generate_nonce(&mut OsRng).to_vec()
}

/// Relies on aes_gcm's Aead::encrypt for Aes256Gcm: the ciphertext, as long as the plaintext,
/// followed by a 16-byte tag, which Aead::decrypt with the same key and nonce turns back into
/// the plaintext. It depends on key, nonce and plaintext alone, and fails only on plaintexts of
/// more than 2^36 bytes.
#[verifier::external_body]
fn aes_seal(key: &[u8], nonce: &[u8], plaintext: &[u8]) -> (r: Option<Vec<u8>>)
    requires
        key@.len() == KEY_LEN,
        nonce@.len() == NONCE_LEN,
    ensures
        r matches Some(c) ==> c@ == aead_seal(key@, nonce@, plaintext@),
        r matches Some(c) ==> c@.len() == plaintext@.len() + TAG_LEN,
        r matches Some(c) ==> aead_open(key@, nonce@, c@) == Some(plaintext@),
        plaintext@.len() <= PLAINTEXT_MAX ==> r is Some,
{
    let cipher = Aes256Gcm::new(Key::<Aes256Gcm>::from_slice(key));
    cipher.encrypt(Nonce::from_slice(nonce), plaintext).ok()
}

/// Relies on aes_gcm's Aead::decrypt for Aes256Gcm: the plaintext, or an error where the tag
/// does not authenticate the ciphertext under the key and nonce.
#[verifier::external_body]
fn aes_open(key: &[u8], nonce: &[u8], ciphertext: &[u8]) -> (r: Option<Vec<u8>>)
    requires
        key@.len() == KEY_LEN,
        nonce@.len() == NONCE_LEN,
    ensures
        match r {
            Some(p) => aead_open(key@, nonce@, ciphertext@) == Some(p@),
            None => aead_open(key@, nonce@, ciphertext@) is None,
        },
{
    let cipher = Aes256Gcm::new(Key::<Aes256Gcm>::from_slice(key));
    cipher.decrypt(Nonce::from_slice(nonce), ciphertext).ok()
}

/// Relies on String::from_utf8: the text that the bytes encode, or an error where they are not
/// valid UTF-8.
#[verifier::external_body]
fn text_from_utf8(bytes: Vec<u8>) -> (r: Option<String>)
    ensures
        match r {
            Some(s) => valid_utf8(bytes@) && s@ == decode_utf8(bytes@),
            None => !valid_utf8(bytes@),
        },
{
    String::from_utf8(bytes).ok()
}

/// The cipher that protects unlock secrets, with its process-wide AES-256 key.
pub struct VaultCipher {
    key: Vec<u8>,
}

impl VaultCipher {
    #[verifier::type_invariant]
    spec fn key_len(&self) -> bool {
        self.key@.len() == KEY_LEN
    }

    pub closed spec fn key(&self) -> Seq<u8> {
        self.key@
    }

    /// A cipher with the given key, which must be 32 bytes long.
    pub fn new(key: Vec<u8>) -> (r: Option<VaultCipher>)
        ensures
            r is Some <==> key@.len() == KEY_LEN,
            r matches Some(c) ==> c.key() == key@,
    {
        if key.len() == KEY_LEN {
            Some(VaultCipher { key })
        } else {
            None
        }
    }
}

/// `ciphertext` is `secret` sealed under `key` with `nonce`.
pub open spec fn sealed(key: Seq<u8>, nonce: Seq<u8>, ciphertext: Seq<u8>, secret: Seq<char>) -> bool {
    nonce.len() == NONCE_LEN && aead_open(key, nonce, ciphertext) == Some(encode_utf8(secret))
}

/// The text that `ciphertext` opens to under `key` and `nonce`, if it opens at all.
pub open spec fn unsealed_text(key: Seq<u8>, nonce: Seq<u8>, ciphertext: Seq<u8>) -> Option<Seq<char>> {
    if nonce.len() != NONCE_LEN {
        None
    } else {
        match aead_open(key, nonce, ciphertext) {
            Some(p) => if valid_utf8(p) {
                Some(decode_utf8(p))
            } else {
                None
            },
            None => None,
        }
    }
}

/// Encrypts an unlock secret under a fresh random nonce; returns the ciphertext and the nonce.
pub fn aes_encrypt_text(cipher: &VaultCipher, plaintext: &str) -> (r: Result<(Vec<u8>, Vec<u8>), StorageError>)
    ensures
        match r {
            Ok((c, n)) => sealed(cipher.key(), n@, c@, plaintext@)
                && c@ == aead_seal(cipher.key(), n@, plaintext.spec_bytes())
                && c@.len() == plaintext.spec_bytes().len() + TAG_LEN,
            Err(e) => e.kind() == StorageErrors::InternalError && plaintext.spec_bytes().len() > PLAINTEXT_MAX,
        },
{
    proof {
        use_type_invariant(cipher);
    }
    let nonce = random_nonce();
    match aes_seal(cipher.key.as_slice(), nonce.as_slice(), plaintext.as_bytes()) {
        Some(c) => Ok((c, nonce)),
        None => Err(StorageError::new(StorageErrors::InternalError, "Could not encrypt")),
    }
}

/// Decrypts an unlock secret. Fails closed: a wrong nonce or key, or a tampered ciphertext,
/// gives an error and no text.
pub fn aes_decrypt_text(cipher: &VaultCipher, ciphertext: &[u8], nonce: &[u8]) -> (r: Result<String, StorageError>)
    ensures
        match unsealed_text(cipher.key(), nonce@, ciphertext@) {
            Some(t) => r matches Ok(s) && s@ == t,
            None => r matches Err(e) && e.kind() == StorageErrors::DecryptionFailed,
        },
{
    proof {
        use_type_invariant(cipher);
    }
    if nonce.len() != NONCE_LEN {
        return Err(StorageError::new(StorageErrors::DecryptionFailed, "Could not decrypt"));
    }
    match aes_open(cipher.key.as_slice(), nonce, ciphertext) {
        Some(p) => match text_from_utf8(p) {
            Some(s) => Ok(s),
            None => Err(StorageError::new(StorageErrors::DecryptionFailed, "Could not decrypt")),
        },
        None => Err(StorageError::new(StorageErrors::DecryptionFailed, "Could not decrypt")),
    }
}

/// Decryption gives back exactly the secret that was sealed: what `aes_encrypt_text` returns,
/// handed to `aes_decrypt_text` with the same key, opens to the plaintext it was given.
pub proof fn lemma_unlock_secret_round_trip(key: Seq<u8>, nonce: Seq<u8>, ciphertext: Seq<u8>, secret: Seq<char>)
    requires
        sealed(key, nonce, ciphertext, secret),
    ensures
        unsealed_text(key, nonce, ciphertext) == Some(secret),
{
    encode_utf8_valid_utf8(secret);
    encode_utf8_decode_utf8(secret);
}

} // verus!
