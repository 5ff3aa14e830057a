use aes_gcm::aead::Aead;
use aes_gcm::{Aes256Gcm, KeyInit, Nonce};
use base64::engine::general_purpose::STANDARD;
use base64::Engine;
use ezlogin::models::LoginOptions;
use ezlogin::storage::{
    clear_credentials, decrypt_password, derive_key, encrypt_password, encrypt_password_with_nonce,
    load_credentials, load_login_options, password_fits_storage, save_credentials, save_login_options,
    try_decrypt_password, try_load_credentials, ConfigStore, StoredCredentials,
};

fn key() -> Vec<u8> {
    derive_key("alice", "host1", "")
}

#[test]
fn derived_key_is_a_sha256_digest_of_the_seed() {
    let k = key();
    assert_eq!(k.len(), 32);
    assert_eq!(k, derive_key("alice", "host1", ""));
    assert_ne!(k, derive_key("bob", "host1", ""));
    assert_ne!(k, derive_key("alice", "host1", "secret"));
    // SHA-256 of "ezlogin:alice:host1:", computed independently.
    assert_eq!(
        k,
        vec![
            167, 121, 242, 130, 198, 123, 140, 64, 27, 122, 121, 214, 171, 117, 133, 7, 220, 59,
            251, 28, 177, 155, 216, 143, 34, 159, 128, 33, 209, 35, 157, 213
        ]
    );
}

#[test]
fn encrypt_then_decrypt_gives_the_password_back() {
    let k = key();
    for pw in ["", "p@ss:word", "密码123", "a very long password with spaces"] {
        let c = encrypt_password(pw, &k).unwrap();
        assert_eq!(decrypt_password(&c, &k).unwrap(), pw);
    }
}

#[test]
fn stored_form_is_nonce_colon_cipher() {
    let k = key();
    let nonce = [0u8; 12];
    let c = encrypt_password_with_nonce("secret", &k, &nonce).unwrap();
    let (n, rest) = c.split_once(':').unwrap();
    assert_eq!(n, "AAAAAAAAAAAAAAAA");
    // 6 bytes of plaintext and a 16-byte tag
    assert_eq!(STANDARD.decode(rest).unwrap().len(), 22);
    // the same nonce gives the same stored form
    assert_eq!(c, encrypt_password_with_nonce("secret", &k, &nonce).unwrap());
    // a fresh nonce is random
    let r1 = encrypt_password("secret", &k).unwrap();
    let r2 = encrypt_password("secret", &k).unwrap();
    assert_ne!(r1, r2);
}

#[test]
fn decrypt_errors() {
    let k = key();
    assert_eq!(decrypt_password("nocolon", &k).unwrap_err(), "missing cipher text");
    assert_eq!(decrypt_password("!!!:AAAA", &k).unwrap_err(), "invalid nonce encoding");
    assert_eq!(decrypt_password("AAAAAAAAAAAAAAAA:!!", &k).unwrap_err(), "invalid cipher encoding");
    assert_eq!(decrypt_password("AAAAAAAAAAAAAAAA:AAAA", &k).unwrap_err(), "failed to decrypt password");
    let c = encrypt_password("pw", &k).unwrap();
    let other = derive_key("mallory", "host1", "");
    assert_eq!(decrypt_password(&c, &other).unwrap_err(), "failed to decrypt password");
}

#[test]
fn decrypt_rejects_non_utf8_plaintext() {
    let k = key();
    let nonce = [7u8; 12];
    let cipher = Aes256Gcm::new_from_slice(&k).unwrap();
    let c = cipher.encrypt(Nonce::from_slice(&nonce), &[0xffu8, 0xfe][..]).unwrap();
    let payload = format!("{}:{}", STANDARD.encode(nonce), STANDARD.encode(&c));
    // the same construction with valid UTF-8 decrypts
    let ok = cipher.encrypt(Nonce::from_slice(&nonce), "pw".as_bytes()).unwrap();
    let ok_payload = format!("{}:{}", STANDARD.encode(nonce), STANDARD.encode(&ok));
    assert_eq!(decrypt_password(&ok_payload, &k).unwrap(), "pw");
    assert_eq!(decrypt_password(&payload, &k).unwrap_err(), "invalid decrypted utf8");
}

#[test]
fn wrong_nonce_length_is_refused_before_the_cipher() {
    let k = key();
    // an 8-byte nonce: the cipher crate would panic on it
    assert!(try_decrypt_password("AAAAAAAAAAA=:AAAA", &k).is_none());
    assert!(try_decrypt_password("nocolon", &k).is_some());
}

#[test]
fn load_after_save_gives_the_credentials_back() {
    let k = key();
    let mut store = ConfigStore::new();
    save_login_options(&mut store, &LoginOptions { max_login_retries: 2, probe_required: true, timeout_secs: 3 });
    save_credentials(&mut store, "20231234", "hunter2", &k).unwrap();
    let loaded = load_credentials(&store, &k).unwrap().unwrap();
    assert_eq!(loaded.account, "20231234");
    assert_eq!(loaded.password, "hunter2");
    assert_eq!(store.credentials.as_ref().unwrap().account, "20231234");
    assert_ne!(store.credentials.as_ref().unwrap().password_cipher, "hunter2");
    assert_eq!(load_login_options(&store), Some(LoginOptions { max_login_retries: 2, probe_required: true, timeout_secs: 3 }));
}

#[test]
fn load_after_clear_gives_nothing() {
    let k = key();
    let mut store = ConfigStore::new();
    assert!(load_credentials(&store, &k).unwrap().is_none());
    save_credentials(&mut store, "a", "b", &k).unwrap();
    clear_credentials(&mut store);
    assert!(load_credentials(&store, &k).unwrap().is_none());
}

#[test]
fn saving_options_keeps_credentials() {
    let k = key();
    let mut store = ConfigStore::new();
    save_credentials(&mut store, "a", "b", &k).unwrap();
    let before = store.credentials.as_ref().unwrap().password_cipher.clone();
    save_login_options(&mut store, &LoginOptions::default());
    assert_eq!(store.credentials.as_ref().unwrap().password_cipher, before);
    assert_eq!(load_login_options(&store), Some(LoginOptions::default()));
}

#[test]
fn try_load_reports_unloadable_store() {
    let k = key();
    let store = ConfigStore {
        credentials: Some(StoredCredentials { account: "a".to_string(), password_cipher: "AAAAAAAAAAA=:AAAA".to_string() }),
        login_options: None,
    };
    assert!(try_load_credentials(&store, &k).is_none());
    let store = ConfigStore {
        credentials: Some(StoredCredentials { account: "a".to_string(), password_cipher: "x:y".to_string() }),
        login_options: None,
    };
    assert_eq!(try_load_credentials(&store, &k).unwrap().unwrap_err(), "invalid nonce encoding");
}

#[test]
fn stored_form_bounds() {
    assert!(password_fits_storage(0));
    assert!(password_fits_storage(1 << 20));
    assert!(!password_fits_storage(usize::MAX));
    assert!(!password_fits_storage(isize::MAX as usize - 15));
    // Beyond what AES-GCM accepts, only the cipher's own buffer must fit.
    if usize::BITS == 64 {
        assert!(password_fits_storage(isize::MAX as usize - 16));
    }
}
