use aes_gcm::aead::{Aead, KeyInit};
use aes_gcm::{Aes256Gcm, Nonce};
use base64::engine::general_purpose::STANDARD;
use base64::Engine;
use mqtt_web::domain::mqtt::MqttConfig as ProfileConfig;
use mqtt_web::domain::MqttConfig;
use mqtt_web::error::AppError;
use mqtt_web::storage::config_store::{ConfigStore, StoredConfig};
use mqtt_web::storage::crypto::{decrypt, encrypt, encrypt_with_nonce, KEY};
use mqtt_web::storage::{EncryptedPassword, FilePassword, LoadedConfigFile, MqttStorage, STORAGE_KEY};

const NONCE: [u8; 12] = [1, 2, 3, 4, 5, 6, 7, 8, 9, 10, 11, 12];

#[test]
fn keys_are_the_fixed_texts() {
    assert_eq!(&KEY, b"DJI_CLOUD_SIMULATION_SECRET_KEY!");
    assert_eq!(&STORAGE_KEY, b"dji-cloud-mqtt-simulator-key-32!");
}

#[test]
fn crypto_empty_password_is_empty_text() {
    assert_eq!(encrypt(""), Ok(String::new()));
    assert_eq!(decrypt(""), Ok(String::new()));
}

#[test]
fn crypto_encrypt_with_nonce_is_nonce_then_aes_gcm() {
    let text = encrypt_with_nonce("pässword", &NONCE).unwrap();
    let cipher = Aes256Gcm::new((&KEY).into());
    let ct = cipher.encrypt(Nonce::from_slice(&NONCE), "pässword".as_bytes()).unwrap();
    let mut expected = NONCE.to_vec();
    expected.extend_from_slice(&ct);
    assert_eq!(text, STANDARD.encode(&expected));
    assert_ne!(STANDARD.decode(&text).unwrap()[12..], *"pässword".as_bytes());
}

#[test]
fn crypto_round_trip() {
    for p in ["a", "secret", "密码 with spaces", "\u{0}"] {
        let text = encrypt(p).unwrap();
        assert!(!text.is_empty());
        assert_eq!(decrypt(&text), Ok(p.to_string()));
    }
}

#[test]
fn crypto_fresh_nonce_each_time() {
    assert_ne!(encrypt("secret").unwrap(), encrypt("secret").unwrap());
}

#[test]
fn crypto_rejects_short_data() {
    assert_eq!(decrypt(&STANDARD.encode([1u8, 2, 3])), Err("Invalid encrypted data".to_string()));
}

#[test]
fn crypto_rejects_tampered_data() {
    let text = encrypt_with_nonce("secret", &NONCE).unwrap();
    let mut bytes = STANDARD.decode(&text).unwrap();
    let last = bytes.len() - 1;
    bytes[last] ^= 1;
    assert_eq!(decrypt(&STANDARD.encode(&bytes)), Err("aead::Error".to_string()));
}

#[test]
fn crypto_rejects_bad_base64() {
    assert!(decrypt("not base64!").is_err());
}

#[test]
fn storage_paths() {
    let s = MqttStorage::new("data".to_string());
    assert_eq!(s.data_dir(), "data");
    assert_eq!(s.config_path(), "data/mqtt_config.json");
    assert_eq!(MqttStorage::new("/srv/".to_string()).config_path(), "/srv/mqtt_config.json");
}

#[test]
fn seal_password_is_base64_of_nonce_and_ciphertext() {
    let e = MqttStorage::seal_password("secret", &NONCE).unwrap();
    assert_eq!(e.nonce, STANDARD.encode(NONCE));
    let cipher = Aes256Gcm::new((&STORAGE_KEY).into());
    let ct = cipher.encrypt(Nonce::from_slice(&NONCE), b"secret".as_ref()).unwrap();
    assert_eq!(e.ciphertext, STANDARD.encode(ct));
}

#[test]
fn sealed_password_opens_again() {
    for p in ["", "secret", "密码"] {
        let e = MqttStorage::seal_password(p, &NONCE).unwrap();
        assert_eq!(MqttStorage::decrypt_password(&e), Ok(p.to_string()));
    }
}

#[test]
fn encrypt_password_reads_back() {
    let e = MqttStorage::encrypt_password("secret").unwrap();
    assert_eq!(STANDARD.decode(&e.nonce).unwrap().len(), 12);
    assert_eq!(STANDARD.decode(&e.ciphertext).unwrap().len(), "secret".len() + 16);
    assert_eq!(MqttStorage::decrypt_password(&e), Ok("secret".to_string()));
}

#[test]
fn empty_password_encrypts_and_reads_back() {
    let e = MqttStorage::encrypt_password("").unwrap();
    assert_eq!(STANDARD.decode(&e.ciphertext).unwrap().len(), 16);
    assert_eq!(MqttStorage::decrypt_password(&e), Ok(String::new()));
}

#[test]
fn encrypted_text_length_is_base64_of_nonce_ciphertext_and_tag() {
    for p in ["a", "secret", "密码"] {
        let text = encrypt(p).unwrap();
        let n = 12 + p.len() + 16;
        assert_eq!(text.len(), 4 * ((n + 2) / 3));
        assert_eq!(STANDARD.decode(&text).unwrap().len(), n);
    }
}

#[test]
fn decrypt_password_errors() {
    let bad_nonce = EncryptedPassword { nonce: "***".to_string(), ciphertext: "AAAA".to_string() };
    match MqttStorage::decrypt_password(&bad_nonce) {
        Err(AppError::Encryption(m)) => assert!(m.starts_with("Failed to decode nonce: ")),
        other => panic!("unexpected {:?}", other),
    }
    let bad_ct = EncryptedPassword { nonce: STANDARD.encode(NONCE), ciphertext: "***".to_string() };
    match MqttStorage::decrypt_password(&bad_ct) {
        Err(AppError::Encryption(m)) => assert!(m.starts_with("Failed to decode ciphertext: ")),
        other => panic!("unexpected {:?}", other),
    }
    let short = EncryptedPassword { nonce: STANDARD.encode([1u8; 8]), ciphertext: "AAAA".to_string() };
    assert_eq!(
        MqttStorage::decrypt_password(&short),
        Err(AppError::Encryption("Invalid nonce length".to_string()))
    );
    let wrong = EncryptedPassword { nonce: STANDARD.encode(NONCE), ciphertext: STANDARD.encode([0u8; 20]) };
    assert_eq!(
        MqttStorage::decrypt_password(&wrong),
        Err(AppError::Encryption("Decryption failed: aead::Error".to_string()))
    );
}

fn config(password: &str) -> MqttConfig {
    MqttConfig {
        host: "broker".to_string(),
        port: 1883,
        username: "user".to_string(),
        password: password.to_string(),
        client_id: Some("cid".to_string()),
    }
}

#[test]
fn empty_password_keeps_previous_entry() {
    let f = MqttStorage::prepare_config_file(&config(""), Some("old".to_string())).unwrap();
    assert_eq!(f.encrypted_password, Some(FilePassword::Kept("old".to_string())));
    let f = MqttStorage::prepare_config_file(&config(""), None).unwrap();
    assert_eq!(f.encrypted_password, None);
    assert_eq!((f.host.as_str(), f.port, f.username.as_str()), ("broker", 1883, "user"));
    assert_eq!(f.client_id.as_deref(), Some("cid"));
}

#[test]
fn saved_file_loads_back() {
    let f = MqttStorage::prepare_config_file(&config("secret"), Some("old".to_string())).unwrap();
    assert!(matches!(f.encrypted_password, Some(FilePassword::Fresh(_))));
    let c = MqttStorage::config_from_file(read_back(f, None)).unwrap();
    assert_eq!(c.password, "secret");
    assert_eq!(c.host, "broker");
    assert_eq!(c.client_id.as_deref(), Some("cid"));
}

#[test]
fn file_without_password_loads_empty_password() {
    let loaded = LoadedConfigFile {
        host: "h".to_string(),
        port: 1,
        username: String::new(),
        encrypted_password: None,
        client_id: None,
    };
    assert_eq!(MqttStorage::config_from_file(loaded).unwrap().password, "");
}

fn profile(password: &str) -> ProfileConfig {
    ProfileConfig {
        host: "broker".to_string(),
        port: 1883,
        username: "user".to_string(),
        password: password.to_string(),
        client_id: None,
    }
}

#[test]
fn config_store_path() {
    assert_eq!(ConfigStore::new("config/mqtt.json".to_string()).path(), "config/mqtt.json");
}

#[test]
fn config_store_round_trip() {
    for p in ["", "secret"] {
        let stored = ConfigStore::stored_config(&profile(p)).unwrap();
        if p.is_empty() {
            assert_eq!(stored.encrypted_password, "");
        } else {
            assert_ne!(stored.encrypted_password, p);
        }
        let back = ConfigStore::config_from_stored(stored).unwrap();
        assert_eq!(back.password, p);
        assert_eq!(back.host, "broker");
        assert_eq!(back.port, 1883);
        assert_eq!(back.client_id, None);
    }
}

#[test]
fn config_store_reports_decryption_error() {
    let stored = StoredConfig {
        host: "h".to_string(),
        port: 1,
        username: String::new(),
        encrypted_password: STANDARD.encode([0u8; 4]),
        client_id: None,
    };
    assert_eq!(ConfigStore::config_from_stored(stored).err(), Some("Invalid encrypted data".to_string()));
}

#[test]
fn decrypt_password_error_texts_are_exact() {
    let bad_nonce = EncryptedPassword { nonce: "***".to_string(), ciphertext: "AAAA".to_string() };
    let expected = format!("Failed to decode nonce: {}", STANDARD.decode("***").unwrap_err());
    assert_eq!(MqttStorage::decrypt_password(&bad_nonce), Err(AppError::Encryption(expected)));
    let bad_ct = EncryptedPassword { nonce: STANDARD.encode(NONCE), ciphertext: "A".to_string() };
    let expected = format!("Failed to decode ciphertext: {}", STANDARD.decode("A").unwrap_err());
    assert_eq!(MqttStorage::decrypt_password(&bad_ct), Err(AppError::Encryption(expected)));
    let cipher = Aes256Gcm::new((&STORAGE_KEY).into());
    let bytes = vec![0xffu8, 0xfe, 0x41];
    let ct = cipher.encrypt(Nonce::from_slice(&NONCE), bytes.as_slice()).unwrap();
    let not_utf8 = EncryptedPassword { nonce: STANDARD.encode(NONCE), ciphertext: STANDARD.encode(ct) };
    let expected = format!(
        "Invalid UTF-8 in decrypted data: {}",
        String::from_utf8(bytes).unwrap_err()
    );
    assert_eq!(MqttStorage::decrypt_password(&not_utf8), Err(AppError::Encryption(expected)));
}

#[test]
fn crypto_decrypt_error_texts_are_exact() {
    assert_eq!(decrypt("***"), Err(STANDARD.decode("***").unwrap_err().to_string()));
    assert_eq!(decrypt(&STANDARD.encode([1u8; 5])), Err("Invalid encrypted data".to_string()));
    let cipher = Aes256Gcm::new((&KEY).into());
    let bytes = vec![0xc3u8, 0x28];
    let mut combined = NONCE.to_vec();
    combined.extend(cipher.encrypt(Nonce::from_slice(&NONCE), bytes.as_slice()).unwrap());
    assert_eq!(
        decrypt(&STANDARD.encode(&combined)),
        Err(String::from_utf8(bytes).unwrap_err().to_string())
    );
}

fn read_back(f: mqtt_web::storage::ConfigFile, kept: Option<EncryptedPassword>) -> LoadedConfigFile {
    let encrypted_password = match f.encrypted_password {
        Some(FilePassword::Fresh(e)) => Some(e),
        Some(FilePassword::Kept(_)) => kept,
        None => None,
    };
    LoadedConfigFile {
        host: f.host,
        port: f.port,
        username: f.username,
        encrypted_password,
        client_id: f.client_id,
    }
}

#[test]
fn empty_password_save_keeps_the_stored_password() {
    let first = MqttStorage::prepare_config_file(&config("secret"), None).unwrap();
    let sealed = match first.encrypted_password {
        Some(FilePassword::Fresh(e)) => e,
        other => panic!("unexpected {:?}", other),
    };
    let kept = EncryptedPassword { nonce: sealed.nonce.clone(), ciphertext: sealed.ciphertext.clone() };
    let mut next = config("");
    next.host = "other".to_string();
    let second = MqttStorage::prepare_config_file(&next, Some("previous text".to_string())).unwrap();
    assert_eq!(second.encrypted_password, Some(FilePassword::Kept("previous text".to_string())));
    let c = MqttStorage::config_from_file(read_back(second, Some(kept))).unwrap();
    assert_eq!(c.password, "secret");
    assert_eq!(c.host, "other");
    let third = MqttStorage::prepare_config_file(&config(""), None).unwrap();
    assert_eq!(MqttStorage::config_from_file(read_back(third, None)).unwrap().password, "");
}
