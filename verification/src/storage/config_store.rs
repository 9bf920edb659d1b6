//! The JSON configuration store of the second connection manager: one
//! file at a given path, holding the configuration with its password
//! encrypted by `storage::crypto`. Reading and writing the file is left to
//! the caller.
use crate::domain::mqtt::MqttConfig;
use crate::primitives::{aes256gcm_open, base64_decoded, AES_GCM_MAX_PLAINTEXT};
use crate::storage::crypto::{decrypt, decrypted, encrypt, opened_text, sealed_text, KEY};
use vstd::prelude::*;
use vstd::utf8::encode_utf8;

verus! {

/// The entries of the store's file; the password is kept encrypted.
#[derive(Debug, PartialEq, Eq)]
pub struct StoredConfig {
    pub host: String,
    pub port: u16,
    pub username: String,
    pub encrypted_password: String,
    pub client_id: Option<String>,
}

/// A configuration store kept in the file at `path`.
#[derive(Debug)]
pub struct ConfigStore {
    path: String,
}

impl ConfigStore {
    /// The path of the store's file.
    pub closed spec fn path_spec(&self) -> Seq<char> {
        self.path@
    }

    /// The store kept in the file at `path`.
    pub fn new(path: String) -> (s: ConfigStore)
        ensures
            s.path_spec() == path@,
    {
        ConfigStore { path }
    }

    /// The path of the store's file.
    pub fn path(&self) -> (p: &str)
        ensures
            p@ == self.path_spec(),
    {
        self.path.as_str()
    }

    /// The entries that keep `config`, its password encrypted under a fresh
    /// random nonce (the empty password is kept as the empty text). A
    /// non-empty password fails to encrypt when the operating system gives
    /// no randomness or when it is longer than AES-256-GCM accepts; the
    /// error is then the encryption error's text.
    pub fn stored_config(config: &MqttConfig) -> (r: Result<StoredConfig, String>)
        ensures
            r matches Ok(s) ==> s.host == config.host && s.port == config.port && s.username
                == config.username && s.client_id == config.client_id,
            config.password@.len() == 0 ==> r is Ok && r->Ok_0.encrypted_password@
                == Seq::<char>::empty(),
            config.password@.len() > 0 && r is Ok ==> r->Ok_0.encrypted_password@.len() > 0
                && exists|nonce: Seq<u8>|
                nonce.len() == 12 && r->Ok_0.encrypted_password@ == #[trigger] sealed_text(
                    config.password@,
                    nonce,
                ),
            config.password@.len() > 0 && encode_utf8(config.password@).len()
                > AES_GCM_MAX_PLAINTEXT ==> r is Err,
            r is Err ==> config.password@.len() > 0,
    {
        let encrypted_password = match encrypt(config.password.as_str()) {
            Ok(t) => t,
            Err(e) => {
                return Err(e);
            },
        };
        Ok(
            StoredConfig {
                host: config.host.clone(),
                port: config.port,
                username: config.username.clone(),
                encrypted_password,
                client_id: match &config.client_id {
                    Some(id) => Some(id.clone()),
                    None => None,
                },
            },
        )
    }

    /// The configuration the stored entries describe, its password
    /// decrypted. What `stored_config` made of a configuration gives that
    /// configuration back. The error is the decryption error's text.
    pub fn config_from_stored(stored: StoredConfig) -> (r: Result<MqttConfig, String>)
        ensures
            r is Ok <==> opened_text(stored.encrypted_password@) is Some,
            r matches Ok(c) ==> c.host == stored.host && c.port == stored.port && c.username
                == stored.username && c.client_id == stored.client_id && Some(c.password@)
                == opened_text(stored.encrypted_password@),
            r matches Err(e) ==> decrypted(stored.encrypted_password@) == Err::<
                Seq<char>,
                Seq<char>,
            >(e@),
            stored.encrypted_password@.len() > 0 ==> (base64_decoded(stored.encrypted_password@) matches Some(c)
                && c.len() < 12 ==> r is Err && r->Err_0@ == "Invalid encrypted data"@),
            stored.encrypted_password@.len() > 0 ==> (base64_decoded(stored.encrypted_password@) matches Some(c)
                && c.len() >= 12 && aes256gcm_open(
                KEY@,
                c.subrange(0, 12),
                c.subrange(12, c.len() as int),
            ) is None ==> r is Err && r->Err_0@ == "aead::Error"@),
            forall|password: Seq<char>, nonce: Seq<u8>|
                stored.encrypted_password@.len() > 0 && nonce.len() == 12 && encode_utf8(
                    password,
                ).len() <= AES_GCM_MAX_PLAINTEXT && stored.encrypted_password@
                    == #[trigger] sealed_text(password, nonce) ==> r is Ok && r->Ok_0.password@
                    == password,
    {
        let password = match decrypt(stored.encrypted_password.as_str()) {
            Ok(p) => p,
            Err(e) => {
                return Err(e);
            },
        };
        Ok(
            MqttConfig {
                host: stored.host,
                port: stored.port,
                username: stored.username,
                password,
                client_id: stored.client_id,
            },
        )
    }
}

} // verus!
