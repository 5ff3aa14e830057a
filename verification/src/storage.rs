//! The saved configuration: the account with its encrypted password, and
//! the login options.
//!
//! `ConfigStore` holds what the two configuration files hold; reading and
//! writing the files is left to the front end.  The password is kept as
//! `Base64(nonce) ":" Base64(AES-256-GCM(key, nonce, password))`, under a key
//! derived from the user, the host and an optional secret.
use vstd::prelude::*;
use vstd::utf8::{decode_utf8, encode_utf8, valid_utf8};

use crate::crypto::{
    aes256gcm_decrypt, aes256gcm_encrypt, aes256gcm_fresh_nonce, aes256gcm_open, aes256gcm_seal,
    aes_gcm_max_plaintext, base64_len, base64_decode, base64_decoding, base64_encode, base64_encoding,
    is_base64_char, sha256, sha256_digest, string_from_utf8,
};
use crate::models::{LoginOptions, SavedCredentials, SavedCredentialsView};
use crate::text::{lemma_find_char_unique, split_once_char, split_once_spec};

verus! {

broadcast use vstd::utf8::encode_utf8_valid_utf8, vstd::utf8::encode_utf8_decode_utf8;

/// The credentials file: the account in clear, the password encrypted.
#[derive(Debug)]
pub struct StoredCredentials {
    pub account: String,
    pub password_cipher: String,
}

pub struct StoredCredentialsView {
    pub account: Seq<char>,
    pub password_cipher: Seq<char>,
}

impl View for StoredCredentials {
    type V = StoredCredentialsView;

    open spec fn view(&self) -> StoredCredentialsView {
        StoredCredentialsView { account: self.account@, password_cipher: self.password_cipher@ }
    }
}

/// The saved configuration; `None` where nothing is saved.
#[derive(Debug)]
pub struct ConfigStore {
    pub credentials: Option<StoredCredentials>,
    pub login_options: Option<LoginOptions>,
}

pub struct ConfigStoreState {
    pub credentials: Option<StoredCredentialsView>,
    pub login_options: Option<LoginOptions>,
}

impl View for ConfigStore {
    type V = ConfigStoreState;

    open spec fn view(&self) -> ConfigStoreState {
        ConfigStoreState {
            credentials: match self.credentials {
                Some(c) => Some(c@),
                None => None,
            },
            login_options: self.login_options,
        }
    }
}

pub open spec fn result_view(r: Result<String, String>) -> Result<Seq<char>, Seq<char>> {
    match r {
        Ok(s) => Ok(s@),
        Err(e) => Err(e@),
    }
}

// ---------------------------------------------------------------------------
// Key derivation.
// ---------------------------------------------------------------------------

/// The text whose digest is the storage key.
pub open spec fn key_seed(user: Seq<char>, host: Seq<char>, custom: Seq<char>) -> Seq<char> {
    "ezlogin:"@ + user + ":"@ + host + ":"@ + custom
}

/// The storage key for a user on a host, with an optional extra secret.
pub fn derive_key(user: &str, host: &str, custom: &str) -> (key: Vec<u8>)
    ensures
        key@ == sha256_digest(encode_utf8(key_seed(user@, host@, custom@))),
        key@.len() == 32,
{
    let mut seed = String::from_str("ezlogin:");
    seed.append(user);
    seed.append(":");
    seed.append(host);
    seed.append(":");
    seed.append(custom);
    let bytes = seed.as_str().as_bytes();
    proof {
        assert(seed@ =~= key_seed(user@, host@, custom@));
    }
    sha256(bytes)
}

// ---------------------------------------------------------------------------
// Password encryption.
// ---------------------------------------------------------------------------

/// The stored form of a password of `n` bytes fits in memory: the buffer
/// the cipher reserves for it, and, when the cipher accepts it, the stored
/// text (the nonce's 16 characters, a colon and the Base64 text of the
/// cipher text) stay within `isize::MAX` bytes, beyond which allocation
/// panics.
pub open spec fn stored_form_fits(n: int) -> bool {
    &&& n + 16 <= isize::MAX
    &&& n <= aes_gcm_max_plaintext() ==> base64_len(n + 16) + 17 <= isize::MAX
}

/// Whether the stored form of a password of `len` bytes fits in memory.
pub fn password_fits_storage(len: usize) -> (b: bool)
    ensures
        b == stored_form_fits(len as int),
{
    let limit: u128 = isize::MAX as u128;
    let m: u128 = len as u128 + 16;
    if m > limit {
        return false;
    }
    if len as u128 > 0x10_0000_0000 {
        return true;
    }
    let extra: u128 = if m % 3 == 0 {
        0
    } else {
        4
    };
    (m / 3) * 4 + extra + 17 <= limit
}

/// The stored form of `plain` under `key` and `nonce`.
pub open spec fn cipher_payload(key: Seq<u8>, nonce: Seq<u8>, plain: Seq<char>) -> Seq<char> {
    base64_encoding(nonce) + ":"@ + base64_encoding(aes256gcm_seal(key, nonce, encode_utf8(plain)))
}

/// Decoding the stored form would hand a nonce of the wrong length to the
/// cipher, on which the cipher crate panics.
pub open spec fn decrypt_would_panic(payload: Seq<char>) -> bool {
    match split_once_spec(payload, ':') {
        Some((n, c)) => match (base64_decoding(n), base64_decoding(c)) {
            (Some(nb), Some(_)) => nb.len() != 12,
            _ => false,
        },
        None => false,
    }
}

/// The password that the stored form `payload` gives under `key`, or the
/// message of the first thing that fails.
pub open spec fn decrypt_outcome(key: Seq<u8>, payload: Seq<char>) -> Result<Seq<char>, Seq<char>> {
    match split_once_spec(payload, ':') {
        None => Err("missing cipher text"@),
        Some((n, c)) => match base64_decoding(n) {
            None => Err("invalid nonce encoding"@),
            Some(nb) => match base64_decoding(c) {
                None => Err("invalid cipher encoding"@),
                Some(cb) => match aes256gcm_open(key, nb, cb) {
                    None => Err("failed to decrypt password"@),
                    Some(pb) => if valid_utf8(pb) {
                        Ok(decode_utf8(pb))
                    } else {
                        Err("invalid decrypted utf8"@)
                    },
                },
            },
        },
    }
}

/// Encrypts `plain` under `key` with the given nonce.  What it produces
/// decrypts back to `plain`.
pub fn encrypt_password_with_nonce(plain: &str, key: &[u8], nonce: &[u8]) -> (r: Result<
    String,
    String,
>)
    requires
        key@.len() == 32,
        nonce@.len() == 12,
        stored_form_fits(encode_utf8(plain@).len() as int),
    ensures
        match r {
            Ok(p) => {
                &&& encode_utf8(plain@).len() <= aes_gcm_max_plaintext()
                &&& p@ == cipher_payload(key@, nonce@, plain@)
                &&& !decrypt_would_panic(p@)
                &&& decrypt_outcome(key@, p@) == Ok::<Seq<char>, Seq<char>>(plain@)
            },
            Err(e) => {
                &&& encode_utf8(plain@).len() > aes_gcm_max_plaintext()
                &&& e@ == "failed to encrypt password"@
            },
        },
{
    let bytes = plain.as_bytes();
    match aes256gcm_encrypt(key, nonce, bytes) {
        None => Err(String::from_str("failed to encrypt password")),
        Some(c) => {
            let n64 = base64_encode(nonce);
            let c64 = base64_encode(c.as_slice());
            let mut p = n64.clone();
            p.append(":");
            p.append(c64.as_str());
            proof {
                reveal_strlit(":");
                let ps = p@;
                let k = n64@.len() as int;
                assert(ps =~= n64@ + seq![':'] + c64@);
                assert forall|j: int| 0 <= j < k implies ps[j] != ':' by {
                    assert(ps[j] == n64@[j]);
                    assert(is_base64_char(n64@[j]));
                }
                lemma_find_char_unique(ps, ':', k);
                assert(ps.take(k) =~= n64@);
                assert(ps.skip(k + 1) =~= c64@);
                assert(p@ =~= cipher_payload(key@, nonce@, plain@));
            }
            Ok(p)
        },
    }
}

/// Encrypts `plain` under `key` with a fresh random nonce.  What it
/// produces decrypts back to `plain`.
pub fn encrypt_password(plain: &str, key: &[u8]) -> (r: Result<String, String>)
    requires
        key@.len() == 32,
        stored_form_fits(encode_utf8(plain@).len() as int),
    ensures
        match r {
            Ok(p) => {
                &&& encode_utf8(plain@).len() <= aes_gcm_max_plaintext()
                &&& exists|nonce: Seq<u8>|
                    nonce.len() == 12 && p@ == #[trigger] cipher_payload(key@, nonce, plain@)
                &&& !decrypt_would_panic(p@)
                &&& decrypt_outcome(key@, p@) == Ok::<Seq<char>, Seq<char>>(plain@)
            },
            Err(e) => {
                &&& encode_utf8(plain@).len() > aes_gcm_max_plaintext()
                &&& e@ == "failed to encrypt password"@
            },
        },
{
    let nonce = aes256gcm_fresh_nonce();
    encrypt_password_with_nonce(plain, key, nonce.as_slice())
}

fn decrypt_would_panic_exec(payload: &str) -> (b: bool)
    ensures
        b == decrypt_would_panic(payload@),
{
    match split_once_char(payload, ':') {
        Some((n, c)) => match base64_decode(n.as_str()) {
            Some(nb) => match base64_decode(c.as_str()) {
                Some(_) => nb.len() != 12,
                None => false,
            },
            None => false,
        },
        None => false,
    }
}

/// Recovers the password from its stored form.
pub fn decrypt_password(payload: &str, key: &[u8]) -> (r: Result<String, String>)
    requires
        key@.len() == 32,
        !decrypt_would_panic(payload@),
    ensures
        result_view(r) == decrypt_outcome(key@, payload@),
{
    match split_once_char(payload, ':') {
        None => Err(String::from_str("missing cipher text")),
        Some((n, c)) => match base64_decode(n.as_str()) {
            None => Err(String::from_str("invalid nonce encoding")),
            Some(nb) => match base64_decode(c.as_str()) {
                None => Err(String::from_str("invalid cipher encoding")),
                Some(cb) => match aes256gcm_decrypt(key, nb.as_slice(), cb.as_slice()) {
                    None => Err(String::from_str("failed to decrypt password")),
                    Some(pb) => match string_from_utf8(pb) {
                        Some(s) => Ok(s),
                        None => Err(String::from_str("invalid decrypted utf8")),
                    },
                },
            },
        },
    }
}

/// Recovers the password from its stored form; `None` where the stored
/// nonce has a length on which the cipher crate panics.
pub fn try_decrypt_password(payload: &str, key: &[u8]) -> (r: Option<Result<String, String>>)
    requires
        key@.len() == 32,
    ensures
        r is None <==> decrypt_would_panic(payload@),
        r matches Some(x) ==> result_view(x) == decrypt_outcome(key@, payload@),
{
    if decrypt_would_panic_exec(payload) {
        None
    } else {
        Some(decrypt_password(payload, key))
    }
}

// ---------------------------------------------------------------------------
// The configuration store.
// ---------------------------------------------------------------------------

/// The saved credentials can be decrypted without the cipher crate
/// panicking.
pub open spec fn credentials_loadable(store: ConfigStoreState) -> bool {
    match store.credentials {
        Some(st) => !decrypt_would_panic(st.password_cipher),
        None => true,
    }
}

/// What loading the saved credentials gives under `key`.
pub open spec fn load_credentials_spec(store: ConfigStoreState, key: Seq<u8>) -> Result<
    Option<SavedCredentialsView>,
    Seq<char>,
> {
    match store.credentials {
        None => Ok(None),
        Some(st) => match decrypt_outcome(key, st.password_cipher) {
            Ok(p) => Ok(Some(SavedCredentialsView { account: st.account, password: p })),
            Err(e) => Err(e),
        },
    }
}

pub open spec fn loaded_view(r: Result<Option<SavedCredentials>, String>) -> Result<
    Option<SavedCredentialsView>,
    Seq<char>,
> {
    match r {
        Ok(Some(c)) => Ok(Some(c@)),
        Ok(None) => Ok(None),
        Err(e) => Err(e@),
    }
}

impl ConfigStore {
    /// A store with nothing saved.
    pub fn new() -> (s: ConfigStore)
        ensures
            s@.credentials is None,
            s@.login_options is None,
    {
        ConfigStore { credentials: None, login_options: None }
    }
}

/// Saves `account` and `password`, the password encrypted under `key`.
/// Loading afterwards under the same key gives them back; the login options
/// are left as they are.
pub fn save_credentials(store: &mut ConfigStore, account: &str, password: &str, key: &[u8]) -> (r:
    Result<(), String>)
    requires
        key@.len() == 32,
        stored_form_fits(encode_utf8(password@).len() as int),
    ensures
        match r {
            Ok(()) => {
                &&& encode_utf8(password@).len() <= aes_gcm_max_plaintext()
                &&& final(store)@.login_options == old(store)@.login_options
                &&& final(store)@.credentials matches Some(st) && st.account == account@ && exists|
                    nonce: Seq<u8>,
                |
                    nonce.len() == 12 && st.password_cipher == #[trigger] cipher_payload(
                        key@,
                        nonce,
                        password@,
                    )
                &&& credentials_loadable(final(store)@)
                &&& load_credentials_spec(final(store)@, key@) == Ok::<
                    Option<SavedCredentialsView>,
                    Seq<char>,
                >(Some(SavedCredentialsView { account: account@, password: password@ }))
            },
            Err(e) => {
                &&& final(store)@ == old(store)@
                &&& encode_utf8(password@).len() > aes_gcm_max_plaintext()
                &&& e@ == "failed to encrypt password"@
            },
        },
{
    match encrypt_password(password, key) {
        Ok(cipher) => {
            store.credentials = Some(
                StoredCredentials { account: String::from_str(account), password_cipher: cipher },
            );
            Ok(())
        },
        Err(e) => Err(e),
    }
}

/// Loads the saved credentials, decrypting the password under `key`;
/// `Ok(None)` when none are saved.
pub fn load_credentials(store: &ConfigStore, key: &[u8]) -> (r: Result<
    Option<SavedCredentials>,
    String,
>)
    requires
        key@.len() == 32,
        credentials_loadable(store@),
    ensures
        loaded_view(r) == load_credentials_spec(store@, key@),
{
    match &store.credentials {
        None => Ok(None),
        Some(st) => match decrypt_password(st.password_cipher.as_str(), key) {
            Ok(p) => Ok(Some(SavedCredentials { account: st.account.clone(), password: p })),
            Err(e) => Err(e),
        },
    }
}

/// Loads the saved credentials; `None` where the stored nonce has a length
/// on which the cipher crate panics.
pub fn try_load_credentials(store: &ConfigStore, key: &[u8]) -> (r: Option<
    Result<Option<SavedCredentials>, String>,
>)
    requires
        key@.len() == 32,
    ensures
        r is None <==> !credentials_loadable(store@),
        r matches Some(x) ==> loaded_view(x) == load_credentials_spec(store@, key@),
{
    let loadable = match &store.credentials {
        Some(st) => !decrypt_would_panic_exec(st.password_cipher.as_str()),
        None => true,
    };
    if loadable {
        Some(load_credentials(store, key))
    } else {
        None
    }
}

/// Forgets the saved credentials; the login options are left as they are.
pub fn clear_credentials(store: &mut ConfigStore)
    ensures
        final(store)@.credentials is None,
        final(store)@.login_options == old(store)@.login_options,
{
    store.credentials = None;
}

/// Saves the login options; the credentials are left as they are.
pub fn save_login_options(store: &mut ConfigStore, options: &LoginOptions)
    ensures
        final(store)@.login_options == Some(*options),
        final(store)@.credentials == old(store)@.credentials,
{
    store.login_options = Some(*options);
}

/// The saved login options, if any.
pub fn load_login_options(store: &ConfigStore) -> (r: Option<LoginOptions>)
    ensures
        r == store@.login_options,
{
    store.login_options
}

// ---------------------------------------------------------------------------
// Laws of the store.
// ---------------------------------------------------------------------------

/// After the credentials are cleared, loading them gives nothing, whatever
/// the key.
pub proof fn lemma_load_after_clear(store: ConfigStoreState, key: Seq<u8>)
    ensures
        load_credentials_spec(ConfigStoreState { credentials: None, ..store }, key) == Ok::<
            Option<SavedCredentialsView>,
            Seq<char>,
        >(None),
        credentials_loadable(ConfigStoreState { credentials: None, ..store }),
{
}

/// Saving login options does not change what loading the credentials gives.
pub proof fn lemma_options_do_not_touch_credentials(
    store: ConfigStoreState,
    options: LoginOptions,
    key: Seq<u8>,
)
    ensures
        load_credentials_spec(ConfigStoreState { login_options: Some(options), ..store }, key)
            == load_credentials_spec(store, key),
{
}

} // verus!
