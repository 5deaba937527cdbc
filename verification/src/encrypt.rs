//! Encryption of secret settings: AES-256-GCM under a random 12-byte nonce,
//! stored as Base64 of the nonce followed by the ciphertext.

use vstd::prelude::*;
use vstd::utf8::{decode_utf8, encode_utf8, valid_utf8};
use aes_gcm::aead::{Aead, KeyInit};
use base64::Engine;

verus! {

broadcast use vstd::utf8::encode_utf8_decode_utf8, vstd::utf8::encode_utf8_valid_utf8;

/// Length of the nonce that precedes the ciphertext.
pub const NONCE_LENGTH: usize = 12;

/// Length of an AES-256 key.
pub const KEY_LENGTH: usize = 32;

/// Why encryption or decryption failed.
#[derive(Debug, Clone, Copy, PartialEq, Eq, Structural)]
pub enum EncryptError {
    /// The system random source failed.
    RandomFailed,
    /// The cipher refused the plaintext.
    EncryptionFailed,
    /// The stored text is not Base64.
    InvalidBase64,
    /// The decoded data is shorter than a nonce.
    InvalidEncryptedData,
    /// The ciphertext does not authenticate under the key.
    DecryptionFailed,
    /// The plaintext is not UTF-8.
    InvalidUtf8,
}

/// What `base64`'s standard engine encodes `data` to.
pub uninterp spec fn base64_encoding(data: Seq<u8>) -> Seq<char>;

/// What `base64`'s standard engine decodes `text` to, if it is valid.
pub uninterp spec fn base64_decoding(text: Seq<char>) -> Option<Seq<u8>>;

/// What `Aes256Gcm::encrypt` produces for a key, nonce and plaintext, if it
/// accepts the plaintext.
pub uninterp spec fn aes_gcm_seal(key: Seq<u8>, nonce: Seq<u8>, plain: Seq<u8>) -> Option<Seq<u8>>;

/// What `Aes256Gcm::decrypt` recovers from a key, nonce and ciphertext, if
/// the ciphertext authenticates.
pub uninterp spec fn aes_gcm_open(key: Seq<u8>, nonce: Seq<u8>, sealed: Seq<u8>) -> Option<Seq<u8>>;

/// `Engine::encode` of the standard Base64 engine. Its result decodes back to
/// `data` under the same engine.
#[verifier::external_body]
fn base64_encode(data: &[u8]) -> (r: String)
    ensures
        r@ == base64_encoding(data@),
        base64_decoding(r@) == Some(data@),
{
    base64::engine::general_purpose::STANDARD.encode(data)
}

/// `Engine::decode` of the standard Base64 engine.
#[verifier::external_body]
fn base64_decode(text: &str) -> (r: Option<Vec<u8>>)
    ensures
        match r {
            Some(v) => base64_decoding(text@) == Some(v@),
            None => base64_decoding(text@) is None,
        },
{
    base64::engine::general_purpose::STANDARD.decode(text).ok()
}

/// `Aes256Gcm::new(key)` then `encrypt(nonce, plain)`. Key and nonce must
/// have the cipher's lengths (the conversions panic otherwise). A produced
/// ciphertext decrypts back to `plain` under the same key and nonce.
#[verifier::external_body]
#[allow(deprecated)]
fn aes_gcm_encrypt(key: &[u8], nonce: &[u8], plain: &[u8]) -> (r: Option<Vec<u8>>)
    requires
        key@.len() == KEY_LENGTH,
        nonce@.len() == NONCE_LENGTH,
    ensures
        match r {
            Some(c) => aes_gcm_seal(key@, nonce@, plain@) == Some(c@) && aes_gcm_open(
                key@,
                nonce@,
                c@,
            ) == Some(plain@),
            None => aes_gcm_seal(key@, nonce@, plain@) is None,
        },
{
    let cipher = aes_gcm::Aes256Gcm::new(aes_gcm::Key::<aes_gcm::Aes256Gcm>::from_slice(key));
    cipher.encrypt(nonce.into(), plain).ok()
}

/// `Aes256Gcm::new(key)` then `decrypt(nonce, sealed)`. Key and nonce must
/// have the cipher's lengths (the conversions panic otherwise).
#[verifier::external_body]
#[allow(deprecated)]
fn aes_gcm_decrypt(key: &[u8], nonce: &[u8], sealed: &[u8]) -> (r: Option<Vec<u8>>)
    requires
        key@.len() == KEY_LENGTH,
        nonce@.len() == NONCE_LENGTH,
    ensures
        match r {
            Some(p) => aes_gcm_open(key@, nonce@, sealed@) == Some(p@),
            None => aes_gcm_open(key@, nonce@, sealed@) is None,
        },
{
    let cipher = aes_gcm::Aes256Gcm::new(aes_gcm::Key::<aes_gcm::Aes256Gcm>::from_slice(key));
    cipher.decrypt(nonce.into(), sealed).ok()
}

/// `getrandom::fill`: overwrites `buf` with random bytes; reports whether the
/// system source succeeded. The bytes are left open.
#[verifier::external_body]
pub(crate) fn fill_random(buf: &mut [u8]) -> (ok: bool)
    ensures
        final(buf)@.len() == old(buf)@.len(),
{
    getrandom::fill(buf).is_ok()
}

/// `String::from_utf8`: succeeds exactly on valid UTF-8.
#[verifier::external_body]
fn string_from_utf8(bytes: Vec<u8>) -> (r: Option<String>)
    ensures
        match r {
            Some(s) => valid_utf8(bytes@) && s@ == decode_utf8(bytes@),
            None => !valid_utf8(bytes@),
        },
{
    String::from_utf8(bytes).ok()
}

/// Whether secret fields are encrypted on the current task: the task's
/// scope flag when one is set, else not.
pub fn is_encryption_actice(scope_flag: Option<bool>) -> (r: bool)
    ensures
        r == (scope_flag == Some(true)),
{
    match scope_flag {
        Some(b) => b,
        None => false,
    }
}

/// The Base64 text stored for `data` encrypted under `key` with `nonce`.
pub open spec fn sealed_text(key: Seq<u8>, nonce: Seq<u8>, data: Seq<char>) -> Option<Seq<char>> {
    match aes_gcm_seal(key, nonce, encode_utf8(data)) {
        Some(c) => Some(base64_encoding(nonce + c)),
        None => None,
    }
}

/// What decrypting the stored text `text` under `key` gives.
pub open spec fn decrypt_spec(key: Seq<u8>, text: Seq<char>) -> Result<Seq<char>, EncryptError> {
    match base64_decoding(text) {
        None => Err(EncryptError::InvalidBase64),
        Some(bytes) => if bytes.len() < NONCE_LENGTH {
            Err(EncryptError::InvalidEncryptedData)
        } else {
            match aes_gcm_open(
                key,
                bytes.subrange(0, NONCE_LENGTH as int),
                bytes.subrange(NONCE_LENGTH as int, bytes.len() as int),
            ) {
                None => Err(EncryptError::DecryptionFailed),
                Some(p) => if valid_utf8(p) {
                    Ok(decode_utf8(p))
                } else {
                    Err(EncryptError::InvalidUtf8)
                },
            }
        },
    }
}

/// Encrypts `data` under `key` with the given nonce.
pub fn encrypt_with_nonce(key: &[u8], nonce: &[u8], data: &str) -> (r: Result<String, EncryptError>)
    requires
        key@.len() == KEY_LENGTH,
        nonce@.len() == NONCE_LENGTH,
    ensures
        match r {
            Ok(s) => sealed_text(key@, nonce@, data@) == Some(s@) && decrypt_spec(key@, s@) == Ok::<
                Seq<char>,
                EncryptError,
            >(data@),
            Err(e) => e == EncryptError::EncryptionFailed && sealed_text(key@, nonce@, data@) is None,
        },
{
    let plain = data.as_bytes();
    match aes_gcm_encrypt(key, nonce, plain) {
        None => Err(EncryptError::EncryptionFailed),
        Some(c) => {
            let mut combined: Vec<u8> = Vec::new();
            let mut i: usize = 0;
            while i < nonce.len()
                invariant
                    i <= nonce@.len(),
                    combined@ == nonce@.take(i as int),
                decreases nonce@.len() - i,
            {
                combined.push(nonce[i]);
                assert(nonce@.take(i as int).push(nonce@[i as int]) =~= nonce@.take(i + 1));
                i = i + 1;
            }
            assert(nonce@.take(nonce@.len() as int) =~= nonce@);
            let ghost cv = c@;
            let mut c = c;
            combined.append(&mut c);
            let s = base64_encode(combined.as_slice());
            proof {
                let bytes = nonce@ + cv;
                assert(bytes.subrange(0, NONCE_LENGTH as int) =~= nonce@);
                assert(bytes.subrange(NONCE_LENGTH as int, bytes.len() as int) =~= cv);
            }
            Ok(s)
        },
    }
}

/// Encrypts `data` under `key` with a fresh random nonce. Whatever the
/// nonce, the result decrypts back to `data` under `key`.
pub fn encrypt_data(key: &[u8], data: &str) -> (r: Result<String, EncryptError>)
    requires
        key@.len() == KEY_LENGTH,
    ensures
        match r {
            Ok(s) => decrypt_spec(key@, s@) == Ok::<Seq<char>, EncryptError>(data@),
            Err(e) => e == EncryptError::RandomFailed || (e == EncryptError::EncryptionFailed && exists|
                n: Seq<u8>,
            | n.len() == NONCE_LENGTH && #[trigger] sealed_text(key@, n, data@) is None),
        },
{
    let mut nonce: Vec<u8> = vec![0u8; NONCE_LENGTH];
    if !fill_random(nonce.as_mut_slice()) {
        return Err(EncryptError::RandomFailed);
    }
    let r = encrypt_with_nonce(key, nonce.as_slice(), data);
    proof {
        if r is Err {
            assert(sealed_text(key@, nonce@, data@) is None);
        }
    }
    r
}

/// Decrypts text produced by `encrypt_data` under `key`.
pub fn decrypt_data(key: &[u8], encrypted: &str) -> (r: Result<String, EncryptError>)
    requires
        key@.len() == KEY_LENGTH,
    ensures
        match r {
            Ok(s) => decrypt_spec(key@, encrypted@) == Ok::<Seq<char>, EncryptError>(s@),
            Err(e) => decrypt_spec(key@, encrypted@) == Err::<Seq<char>, EncryptError>(e),
        },
{
    let data = match base64_decode(encrypted) {
        Some(d) => d,
        None => {
            return Err(EncryptError::InvalidBase64);
        },
    };
    if data.len() < NONCE_LENGTH {
        return Err(EncryptError::InvalidEncryptedData);
    }
    let (nonce, sealed) = data.as_slice().split_at(NONCE_LENGTH);
    match aes_gcm_decrypt(key, nonce, sealed) {
        None => Err(EncryptError::DecryptionFailed),
        Some(p) => match string_from_utf8(p) {
            Some(s) => Ok(s),
            None => Err(EncryptError::InvalidUtf8),
        },
    }
}

/// Decrypts an optional stored field: an absent or empty field stands for
/// the default value (`Ok(None)`); otherwise the decrypted text.
pub fn decrypt_field(key: &[u8], stored: &Option<String>) -> (r: Result<Option<String>, EncryptError>)
    requires
        key@.len() == KEY_LENGTH,
    ensures
        match *stored {
            Some(t) if t@.len() > 0 => match decrypt_spec(key@, t@) {
                Ok(p) => r matches Ok(Some(s)) && s@ == p,
                Err(e) => r == Err::<Option<String>, EncryptError>(e),
            },
            _ => r matches Ok(None),
        },
{
    match stored {
        Some(t) => {
            if t.as_str().is_empty() {
                Ok(None)
            } else {
                match decrypt_data(key, t.as_str()) {
                    Ok(s) => Ok(Some(s)),
                    Err(e) => Err(e),
                }
            }
        },
        None => Ok(None),
    }
}

} // verus!
