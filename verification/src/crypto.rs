//! Trusted calls into the cryptography and encoding crates, and into std's
//! UTF-8 decoding.
//!
//! Each function here makes one outside call.  Its contract is believed, not
//! proved: results that take pages to define (a digest, a cipher text, a
//! Base64 text) are given names, and beside each name stands only what the
//! crate documents about it.
use vstd::prelude::*;
use vstd::utf8::{decode_utf8, valid_utf8};

use aes_gcm::aead::{Aead, AeadCore, OsRng};
use aes_gcm::{Aes256Gcm, KeyInit, Nonce};
use base64::engine::general_purpose::STANDARD;
use base64::Engine;
use sha2::{Digest, Sha256};

verus! {

// ---------------------------------------------------------------------------
// Base64 (standard alphabet, with padding).
// ---------------------------------------------------------------------------

/// The standard Base64 text of `data`.
pub uninterp spec fn base64_encoding(data: Seq<u8>) -> Seq<char>;

/// The bytes that the standard Base64 text `text` stands for, if it is one.
pub uninterp spec fn base64_decoding(text: Seq<char>) -> Option<Seq<u8>>;

/// The length of the standard Base64 text of `n` bytes: four characters for
/// every three bytes begun.
pub open spec fn base64_len(n: int) -> int {
    (n / 3) * 4 + if n % 3 == 0 {
        0int
    } else {
        4int
    }
}

/// A character of the standard Base64 alphabet, or the padding character.
pub open spec fn is_base64_char(c: char) -> bool {
    ('A' <= c && c <= 'Z') || ('a' <= c && c <= 'z') || ('0' <= c && c <= '9') || c == '+' || c
        == '/' || c == '='
}

/// Calls `base64::engine::general_purpose::STANDARD.encode`.  Claimed, as
/// the crate documents: the result is the standard Base64 text of `data`,
/// made of alphabet and padding characters only, as long as its
/// `encoded_len` says, and decoding it gives `data` back.  The crate panics
/// when the encoded length overflows `usize`, and allocating a buffer of
/// more than `isize::MAX` bytes panics; the bound on `data` rules out both.
#[verifier::external_body]
pub(crate) fn base64_encode(data: &[u8]) -> (r: String)
    requires
        base64_len(data@.len() as int) <= isize::MAX,
    ensures
        r@ == base64_encoding(data@),
        r@.len() == base64_len(data@.len() as int),
        base64_decoding(r@) == Some(data@),
        forall|i: int| 0 <= i < r@.len() ==> is_base64_char(#[trigger] r@[i]),
{
    STANDARD.encode(data)
}

/// Calls `base64::engine::general_purpose::STANDARD.decode` on the bytes of
/// `text`.  Claimed: the result is the named decoding of `text`, `None`
/// exactly when the crate reports an error.
#[verifier::external_body]
pub(crate) fn base64_decode(text: &str) -> (r: Option<Vec<u8>>)
    ensures
        match r {
            Some(v) => base64_decoding(text@) == Some(v@),
            None => base64_decoding(text@) is None,
        },
{
    match STANDARD.decode(text) {
        Ok(v) => Some(v),
        Err(_) => None,
    }
}

// ---------------------------------------------------------------------------
// SHA-256.
// ---------------------------------------------------------------------------

/// The SHA-256 digest of `data`.
pub uninterp spec fn sha256_digest(data: Seq<u8>) -> Seq<u8>;

/// Calls `sha2::Sha256::digest`.  Claimed: the result is the digest of
/// `data`, 32 bytes long.
#[verifier::external_body]
pub(crate) fn sha256(data: &[u8]) -> (r: Vec<u8>)
    ensures
        r@ == sha256_digest(data@),
        r@.len() == 32,
{
    Sha256::digest(data).to_vec()
}

// ---------------------------------------------------------------------------
// AES-256-GCM with a 96-bit nonce and no associated data.
// ---------------------------------------------------------------------------

/// The largest plaintext, in bytes, that AES-GCM accepts.
pub open spec fn aes_gcm_max_plaintext() -> int {
    0x10_0000_0000
}

/// The cipher text (with its authentication tag) of `plaintext` under `key`
/// and `nonce`.
pub uninterp spec fn aes256gcm_seal(key: Seq<u8>, nonce: Seq<u8>, plaintext: Seq<u8>) -> Seq<u8>;

/// The plaintext that `ciphertext` authenticates to under `key` and
/// `nonce`, if it does.
pub uninterp spec fn aes256gcm_open(key: Seq<u8>, nonce: Seq<u8>, ciphertext: Seq<u8>) -> Option<
    Seq<u8>,
>;

/// Calls `aes_gcm::Aes256Gcm::new_from_slice` with the 32-byte key, then
/// `Aead::encrypt` with the 12-byte nonce.  Claimed: the call fails exactly
/// when the plaintext is longer than AES-GCM allows; otherwise it returns
/// the named cipher text, which is 16 bytes (the tag) longer than the
/// plaintext and which decrypts back to the plaintext under the same key
/// and nonce.  `Aead::encrypt` first reserves room for the plaintext and
/// the tag, which panics beyond `isize::MAX` bytes; the bound rules that
/// out.
#[verifier::external_body]
pub(crate) fn aes256gcm_encrypt(key: &[u8], nonce: &[u8], plaintext: &[u8]) -> (r: Option<Vec<u8>>)
    requires
        key@.len() == 32,
        nonce@.len() == 12,
        plaintext@.len() + 16 <= isize::MAX,
    ensures
        r is Some <==> plaintext@.len() <= aes_gcm_max_plaintext(),
        r matches Some(c) ==> {
            &&& c@ == aes256gcm_seal(key@, nonce@, plaintext@)
            &&& c@.len() == plaintext@.len() + 16
            &&& aes256gcm_open(key@, nonce@, c@) == Some(plaintext@)
        },
{
    match Aes256Gcm::new_from_slice(key) {
        Ok(cipher) => cipher.encrypt(Nonce::from_slice(nonce), plaintext).ok(),
        Err(_) => None,
    }
}

/// Calls `aes_gcm::Aes256Gcm::new_from_slice` with the 32-byte key, then
/// `Aead::decrypt` with the 12-byte nonce (`Nonce::from_slice` panics on any
/// other length).  Claimed: the result is the named opening of
/// `ciphertext`.
#[verifier::external_body]
pub(crate) fn aes256gcm_decrypt(key: &[u8], nonce: &[u8], ciphertext: &[u8]) -> (r: Option<Vec<u8>>)
    requires
        key@.len() == 32,
        nonce@.len() == 12,
    ensures
        match r {
            Some(p) => aes256gcm_open(key@, nonce@, ciphertext@) == Some(p@),
            None => aes256gcm_open(key@, nonce@, ciphertext@) is None,
        },
{
    match Aes256Gcm::new_from_slice(key) {
        Ok(cipher) => cipher.decrypt(Nonce::from_slice(nonce), ciphertext).ok(),
        Err(_) => None,
    }
}

/// Calls `AeadCore::generate_nonce` for AES-256-GCM with the operating
/// system's random source.  Claimed: a nonce of 12 bytes; nothing is said of
/// its value, which is random.
#[verifier::external_body]
pub(crate) fn aes256gcm_fresh_nonce() -> (r: Vec<u8>)
    ensures
        r@.len() == 12,
{
    Aes256Gcm::generate_nonce(&mut OsRng).to_vec()
}

// ---------------------------------------------------------------------------
// UTF-8.
// ---------------------------------------------------------------------------

/// Calls `String::from_utf8`.  Claimed, as std documents: it succeeds
/// exactly on valid UTF-8, and the string holds the decoded characters.
#[verifier::external_body]
pub(crate) fn string_from_utf8(bytes: Vec<u8>) -> (r: Option<String>)
    ensures
        r is Some <==> valid_utf8(bytes@),
        r matches Some(s) ==> s@ == decode_utf8(bytes@),
{
    String::from_utf8(bytes).ok()
}

} // verus!
