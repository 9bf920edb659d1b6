//! The configuration file of the web service: where it lives, the
//! encrypted form of the password kept in it, and how a configuration
//! turns into the file's entries and back. Reading and writing the file is
//! left to the caller.
pub mod config_store;
pub mod crypto;

use crate::domain::MqttConfig;
use crate::error::AppError;
use crate::primitives::{
    aes256gcm_decrypt, aes256gcm_encrypt, aes256gcm_open, aes256gcm_seal, base64_decode,
    base64_decode_error, base64_decoded, base64_encode, base64_encoded, os_random_bytes,
    string_from_utf8, utf8_error_text,
    AES_GCM_MAX_PLAINTEXT,
};
use crate::text::{join_file, join_path};
use vstd::prelude::*;
use vstd::string::StringSliceAdditionalSpecFns;
use vstd::utf8::{decode_utf8, encode_utf8, valid_utf8};

verus! {

broadcast use vstd::utf8::group_utf8_lib;

/// The fixed key passwords are encrypted with
/// (`dji-cloud-mqtt-simulator-key-32!`).
pub const STORAGE_KEY: [u8; 32] = [
    100, 106, 105, 45, 99, 108, 111, 117, 100, 45, 109, 113, 116, 116, 45, 115, 105, 109, 117,
    108, 97, 116, 111, 114, 45, 107, 101, 121, 45, 51, 50, 33,
];

/// A password as it is kept on disk: the Base64 of the nonce and the
/// Base64 of the AES-256-GCM ciphertext.
#[derive(Debug, PartialEq, Eq)]
pub struct EncryptedPassword {
    pub nonce: String,
    pub ciphertext: String,
}

/// The Base64 texts a password sealed with `nonce` is kept as.
pub open spec fn sealed_fields(password: Seq<char>, nonce: Seq<u8>) -> (Seq<char>, Seq<char>) {
    (base64_encoded(nonce), base64_encoded(aes256gcm_seal(STORAGE_KEY@, nonce, encode_utf8(password))))
}

/// The encrypted password a configuration file is written with: one
/// encrypted afresh, which the file keeps as its JSON text, or the JSON
/// text the file held before, kept as it was.
#[derive(Debug, PartialEq, Eq)]
pub enum FilePassword {
    Fresh(EncryptedPassword),
    Kept(String),
}

/// The file entries of a configuration, with the password encrypted
/// (absent when there is none).
#[derive(Debug, PartialEq, Eq)]
pub struct ConfigFile {
    pub host: String,
    pub port: u16,
    pub username: String,
    pub encrypted_password: Option<FilePassword>,
    pub client_id: Option<String>,
}

/// The file entries of a configuration as they are read back, the
/// encrypted password already read from its JSON text.
#[derive(Debug, PartialEq, Eq)]
pub struct LoadedConfigFile {
    pub host: String,
    pub port: u16,
    pub username: String,
    pub encrypted_password: Option<EncryptedPassword>,
    pub client_id: Option<String>,
}

/// Where the configuration of the web service is kept: the data
/// directory, and the file `mqtt_config.json` in it.
#[derive(Debug)]
pub struct MqttStorage {
    data_dir: String,
    config_path: String,
}

/// The password an encrypted password holds, or nothing when it cannot be
/// read back.
pub open spec fn opened_password(nonce: Seq<char>, ciphertext: Seq<char>) -> Option<Seq<char>> {
    match (base64_decoded(nonce), base64_decoded(ciphertext)) {
        (Some(n), Some(c)) => if n.len() != 12 {
            None
        } else {
            match aes256gcm_open(STORAGE_KEY@, n, c) {
                Some(plain) => if valid_utf8(plain) {
                    Some(decode_utf8(plain))
                } else {
                    None
                },
                None => None,
            }
        },
        _ => None,
    }
}

/// What reading an encrypted password back gives: the password, or the
/// text of the encryption error. Both fields must be Base64, the nonce of
/// 12 bytes, the tag must verify under the key, and the bytes must be
/// UTF-8.
pub open spec fn password_read_back(nonce: Seq<char>, ciphertext: Seq<char>) -> Result<
    Seq<char>,
    Seq<char>,
> {
    match base64_decoded(nonce) {
        None => Err("Failed to decode nonce: "@ + base64_decode_error(nonce)),
        Some(n) => match base64_decoded(ciphertext) {
            None => Err("Failed to decode ciphertext: "@ + base64_decode_error(ciphertext)),
            Some(c) => if n.len() != 12 {
                Err("Invalid nonce length"@)
            } else {
                match aes256gcm_open(STORAGE_KEY@, n, c) {
                    None => Err("Decryption failed: aead::Error"@),
                    Some(plain) => if valid_utf8(plain) {
                        Ok(decode_utf8(plain))
                    } else {
                        Err("Invalid UTF-8 in decrypted data: "@ + utf8_error_text(plain))
                    },
                }
            },
        },
    }
}

/// Whether `e` is an encryption error whose text starts with `prefix`.
pub open spec fn is_encryption_error(e: AppError, prefix: Seq<char>) -> bool {
    e matches AppError::Encryption(m) && m@.len() >= prefix.len() && m@.subrange(
        0,
        prefix.len() as int,
    ) == prefix
}

impl MqttStorage {
    /// The data directory.
    pub closed spec fn data_dir_spec(&self) -> Seq<char> {
        self.data_dir@
    }

    /// The path of the configuration file.
    pub closed spec fn config_path_spec(&self) -> Seq<char> {
        self.config_path@
    }

    /// The storage kept in `data_dir`; its file is
    /// `data_dir/mqtt_config.json`.
    pub fn new(data_dir: String) -> (s: MqttStorage)
        ensures
            s.data_dir_spec() == data_dir@,
            s.config_path_spec() == join_path(data_dir@, "mqtt_config.json"@),
    {
        proof {
            reveal_strlit("mqtt_config.json");
        }
        let config_path = join_file(data_dir.as_str(), "mqtt_config.json");
        MqttStorage { data_dir, config_path }
    }

    /// The data directory.
    pub fn data_dir(&self) -> (d: &str)
        ensures
            d@ == self.data_dir_spec(),
    {
        self.data_dir.as_str()
    }

    /// The path of the configuration file.
    pub fn config_path(&self) -> (p: &str)
        ensures
            p@ == self.config_path_spec(),
    {
        self.config_path.as_str()
    }

    /// Encrypts `password` under the storage key with the given 12-byte
    /// nonce.
    pub fn seal_password(password: &str, nonce: &[u8]) -> (r: Result<EncryptedPassword, AppError>)
        requires
            nonce@.len() == 12,
        ensures
            password.spec_bytes().len() <= AES_GCM_MAX_PLAINTEXT ==> r is Ok && (r->Ok_0.nonce@,
            r->Ok_0.ciphertext@) == sealed_fields(password@, nonce@),
            password.spec_bytes().len() > AES_GCM_MAX_PLAINTEXT ==> (r matches Err(
                AppError::Encryption(m),
            ) && m@ == "Encryption failed: aead::Error"@),
    {
        let ciphertext = match aes256gcm_encrypt(&STORAGE_KEY, nonce, password.as_bytes()) {
            Ok(c) => c,
            Err(e) => {
                proof {
                    reveal_strlit("Encryption failed: ");
                    reveal_strlit("aead::Error");
                    reveal_strlit("Encryption failed: aead::Error");
                }
                return Err(
                    AppError::Encryption(String::from_str("Encryption failed: ").concat(e.as_str())),
                );
            },
        };
        Ok(
            EncryptedPassword {
                nonce: base64_encode(nonce),
                ciphertext: base64_encode(ciphertext.as_slice()),
            },
        )
    }
}


impl MqttStorage {
    /// Encrypts `password` under a fresh random nonce from the operating
    /// system. It fails when the operating system supplies no randomness
    /// (`Failed to generate nonce:` and its error text) or when the password
    /// is longer than AES-256-GCM accepts.
    pub fn encrypt_password(password: &str) -> (r: Result<EncryptedPassword, AppError>)
        ensures
            r is Ok ==> password.spec_bytes().len() <= AES_GCM_MAX_PLAINTEXT && exists|
                nonce: Seq<u8>,
            | nonce.len() == 12 && (r->Ok_0.nonce@, r->Ok_0.ciphertext@) == #[trigger] sealed_fields(
                password@,
                nonce,
            ),
            password.spec_bytes().len() > AES_GCM_MAX_PLAINTEXT ==> r is Err,
            r is Err ==> is_encryption_error(r->Err_0, "Failed to generate nonce: "@) || (
            password.spec_bytes().len() > AES_GCM_MAX_PLAINTEXT && (r->Err_0 matches AppError::Encryption(m)
                && m@ == "Encryption failed: aead::Error"@)),
    {
        proof {
            reveal_strlit("Failed to generate nonce: ");
        }
        let nonce = match os_random_bytes(12) {
            Ok(n) => n,
            Err(e) => {
                let m = String::from_str("Failed to generate nonce: ").concat(e.as_str());
                assert(m@.subrange(0, "Failed to generate nonce: "@.len() as int)
                    =~= "Failed to generate nonce: "@);
                return Err(AppError::Encryption(m));
            },
        };
        MqttStorage::seal_password(password, nonce.as_slice())
    }

    /// Reads an encrypted password back. A password that `seal_password`
    /// (or `encrypt_password`) encrypted comes back unchanged.
    pub fn decrypt_password(encrypted: &EncryptedPassword) -> (r: Result<String, AppError>)
        ensures
            r is Ok <==> opened_password(encrypted.nonce@, encrypted.ciphertext@) is Some,
            r matches Ok(p) ==> opened_password(encrypted.nonce@, encrypted.ciphertext@) == Some(
                p@,
            ),
            r matches Err(e) ==> e is Encryption,
            r matches Ok(p) ==> password_read_back(encrypted.nonce@, encrypted.ciphertext@)
                == Ok::<Seq<char>, Seq<char>>(p@),
            r matches Err(AppError::Encryption(m)) ==> password_read_back(
                encrypted.nonce@,
                encrypted.ciphertext@,
            ) == Err::<Seq<char>, Seq<char>>(m@),
            base64_decoded(encrypted.nonce@) is None ==> r is Err && is_encryption_error(
                r->Err_0,
                "Failed to decode nonce: "@,
            ),
            base64_decoded(encrypted.nonce@) is Some && base64_decoded(encrypted.ciphertext@)
                is None ==> r is Err && is_encryption_error(
                r->Err_0,
                "Failed to decode ciphertext: "@,
            ),
            base64_decoded(encrypted.nonce@) matches Some(n) && base64_decoded(
                encrypted.ciphertext@,
            ) is Some && n.len() != 12 ==> (r matches Err(AppError::Encryption(m)) && m@
                == "Invalid nonce length"@),
            base64_decoded(encrypted.nonce@) matches Some(n) && base64_decoded(
                encrypted.ciphertext@,
            ) matches Some(c) && n.len() == 12 && aes256gcm_open(STORAGE_KEY@, n, c) is None ==> (
            r matches Err(AppError::Encryption(m)) && m@ == "Decryption failed: aead::Error"@),
            base64_decoded(encrypted.nonce@) matches Some(n) && base64_decoded(
                encrypted.ciphertext@,
            ) matches Some(c) && n.len() == 12 && aes256gcm_open(STORAGE_KEY@, n, c) is Some
                && !valid_utf8(aes256gcm_open(STORAGE_KEY@, n, c)->0) ==> r is Err && is_encryption_error(
                r->Err_0,
                "Invalid UTF-8 in decrypted data: "@,
            ),
            forall|password: Seq<char>, nonce: Seq<u8>|
                nonce.len() == 12 && encode_utf8(password).len() <= AES_GCM_MAX_PLAINTEXT && (
                encrypted.nonce@,
                encrypted.ciphertext@,
            ) == #[trigger] sealed_fields(password, nonce) ==> r is Ok && r->Ok_0@ == password,
    {
        proof {
            reveal_strlit("Failed to decode nonce: ");
            reveal_strlit("Failed to decode ciphertext: ");
            reveal_strlit("Decryption failed: ");
            reveal_strlit("Invalid UTF-8 in decrypted data: ");
        }
        let nonce = match base64_decode(encrypted.nonce.as_str()) {
            Ok(n) => n,
            Err(e) => {
                let m = String::from_str("Failed to decode nonce: ").concat(e.as_str());
                assert(m@.subrange(0, "Failed to decode nonce: "@.len() as int)
                    =~= "Failed to decode nonce: "@);
                return Err(AppError::Encryption(m));
            },
        };
        let ciphertext = match base64_decode(encrypted.ciphertext.as_str()) {
            Ok(c) => c,
            Err(e) => {
                let m = String::from_str("Failed to decode ciphertext: ").concat(e.as_str());
                assert(m@.subrange(0, "Failed to decode ciphertext: "@.len() as int)
                    =~= "Failed to decode ciphertext: "@);
                return Err(AppError::Encryption(m));
            },
        };
        if nonce.len() != 12 {
            return Err(AppError::Encryption(String::from_str("Invalid nonce length")));
        }
        let plaintext = match aes256gcm_decrypt(&STORAGE_KEY, nonce.as_slice(), ciphertext.as_slice()) {
            Ok(p) => p,
            Err(e) => {
                proof {
                    reveal_strlit("aead::Error");
                    reveal_strlit("Decryption failed: aead::Error");
                    assert("Decryption failed: "@ + "aead::Error"@ =~= "Decryption failed: aead::Error"@);
                }
                return Err(
                    AppError::Encryption(String::from_str("Decryption failed: ").concat(e.as_str())),
                );
            },
        };
        match string_from_utf8(plaintext) {
            Ok(s) => Ok(s),
            Err(e) => {
                let m = String::from_str("Invalid UTF-8 in decrypted data: ").concat(e.as_str());
                assert(m@.subrange(0, "Invalid UTF-8 in decrypted data: "@.len() as int)
                    =~= "Invalid UTF-8 in decrypted data: "@);
                Err(AppError::Encryption(m))
            },
        }
    }
}


/// The password a loaded file holds: none when it has no encrypted
/// password, the decrypted text otherwise (nothing when that fails).
pub open spec fn loaded_password(encrypted: Option<EncryptedPassword>) -> Option<Seq<char>> {
    match encrypted {
        None => Some(Seq::empty()),
        Some(e) => opened_password(e.nonce@, e.ciphertext@),
    }
}

/// The entries `prepare_config_file` makes of `config`, given the JSON
/// text of the encrypted password the file held before: the plain fields
/// as they are, a non-empty password sealed afresh under some 12-byte
/// nonce, an empty one keeping the previous text, if any.
pub open spec fn prepared_file(config: MqttConfig, previous: Option<String>, file: ConfigFile) -> bool {
    &&& file.host == config.host
    &&& file.port == config.port
    &&& file.username == config.username
    &&& file.client_id == config.client_id
    &&& config.password@.len() == 0 ==> match previous {
        None => file.encrypted_password is None,
        Some(t) => file.encrypted_password == Some(FilePassword::Kept(t)),
    }
    &&& config.password@.len() > 0 ==> encode_utf8(config.password@).len() <= AES_GCM_MAX_PLAINTEXT
        && (file.encrypted_password matches Some(FilePassword::Fresh(e)) && exists|nonce: Seq<u8>|
        nonce.len() == 12 && (e.nonce@, e.ciphertext@) == #[trigger] sealed_fields(
            config.password@,
            nonce,
        ))
}

/// Whether `loaded` is what the entries `file`, once written out, read
/// back as: the plain fields as they are, a freshly encrypted password as
/// itself, and a kept text as `kept`, what that text read as before.
pub open spec fn read_back(file: ConfigFile, loaded: LoadedConfigFile, kept: Option<EncryptedPassword>) -> bool {
    &&& loaded.host == file.host
    &&& loaded.port == file.port
    &&& loaded.username == file.username
    &&& loaded.client_id == file.client_id
    &&& match file.encrypted_password {
        None => loaded.encrypted_password is None,
        Some(FilePassword::Fresh(e)) => loaded.encrypted_password matches Some(l) && l.nonce@
            == e.nonce@ && l.ciphertext@ == e.ciphertext@,
        Some(FilePassword::Kept(_)) => loaded.encrypted_password == kept,
    }
}

/// What `config_from_file` gives for the loaded entries `file`.
pub open spec fn restored_config(file: LoadedConfigFile, r: Result<MqttConfig, AppError>) -> bool {
    &&& r is Ok <==> loaded_password(file.encrypted_password) is Some
    &&& r matches Ok(c) ==> c.host == file.host && c.port == file.port && c.username == file.username
        && c.client_id == file.client_id && Some(c.password@) == loaded_password(
        file.encrypted_password,
    )
    &&& forall|password: Seq<char>, nonce: Seq<u8>|
        nonce.len() == 12 && encode_utf8(password).len() <= AES_GCM_MAX_PLAINTEXT
            && file.encrypted_password is Some && (
            file.encrypted_password->0.nonce@,
            file.encrypted_password->0.ciphertext@,
        ) == #[trigger] sealed_fields(password, nonce) ==> r is Ok && r->Ok_0.password@ == password
}

/// A saved configuration loads back: the entries `prepare_config_file`
/// made of `config`, read back and turned into a configuration by
/// `config_from_file`, give `config`'s host, port, user name and client
/// identifier, and its password when it is not empty. An empty password
/// keeps the password the file held before: what the kept encrypted
/// password (`kept`) decrypts to, and the empty password when there was
/// none.
pub proof fn saved_configuration_loads_back(
    config: MqttConfig,
    previous: Option<String>,
    kept: Option<EncryptedPassword>,
    file: ConfigFile,
    loaded: LoadedConfigFile,
    r: Result<MqttConfig, AppError>,
)
    requires
        prepared_file(config, previous, file),
        read_back(file, loaded, kept),
        restored_config(loaded, r),
    ensures
        r matches Ok(c) ==> c.host == config.host && c.port == config.port && c.username
            == config.username && c.client_id == config.client_id,
        config.password@.len() > 0 ==> r is Ok && r->Ok_0.password@ == config.password@,
        config.password@.len() == 0 && previous is Some ==> (r is Ok <==> loaded_password(kept)
            is Some),
        config.password@.len() == 0 && previous is Some && r is Ok ==> Some(r->Ok_0.password@)
            == loaded_password(kept),
        config.password@.len() == 0 && previous is None ==> r is Ok && r->Ok_0.password@
            == Seq::<char>::empty(),
{
    if config.password@.len() > 0 {
        let e = file.encrypted_password->0->Fresh_0;
        let nonce = choose|nonce: Seq<u8>|
            nonce.len() == 12 && (e.nonce@, e.ciphertext@) == #[trigger] sealed_fields(
                config.password@,
                nonce,
            );
        let l = loaded.encrypted_password->0;
        assert((l.nonce@, l.ciphertext@) == sealed_fields(config.password@, nonce));
    }
}

impl MqttStorage {
    /// The file entries that keep `config`. A non-empty password is
    /// encrypted afresh; an empty one keeps the JSON text of the encrypted
    /// password the file held before (`previous_encrypted_password`), if
    /// any.
    pub fn prepare_config_file(config: &MqttConfig, previous_encrypted_password: Option<String>) -> (r:
        Result<ConfigFile, AppError>)
        ensures
            r matches Ok(f) ==> prepared_file(*config, previous_encrypted_password, f),
            config.password@.len() == 0 ==> r is Ok,
            config.password@.len() > 0 && encode_utf8(config.password@).len()
                > AES_GCM_MAX_PLAINTEXT ==> r is Err,
            r is Err ==> config.password@.len() > 0 && (is_encryption_error(
                r->Err_0,
                "Failed to generate nonce: "@,
            ) || (encode_utf8(config.password@).len() > AES_GCM_MAX_PLAINTEXT && (r->Err_0 matches AppError::Encryption(m)
                && m@ == "Encryption failed: aead::Error"@))),
    {
        let encrypted_password = if config.password.as_str().is_empty() {
            match previous_encrypted_password {
                Some(t) => Some(FilePassword::Kept(t)),
                None => None,
            }
        } else {
            match MqttStorage::encrypt_password(config.password.as_str()) {
                Ok(e) => Some(FilePassword::Fresh(e)),
                Err(e) => {
                    return Err(e);
                },
            }
        };
        Ok(
            ConfigFile {
                host: config.host.clone(),
                port: config.port,
                username: config.username.clone(),
                encrypted_password,
                client_id: match &config.client_id {
                    Some(id) => Some(id.clone()),
                    None => None,
                },
            },
        )
    }

    /// The configuration a loaded file describes, its password decrypted
    /// (empty when the file holds none). A password that `seal_password`
    /// or `encrypt_password` encrypted comes back unchanged.
    pub fn config_from_file(file: LoadedConfigFile) -> (r: Result<MqttConfig, AppError>)
        ensures
            restored_config(file, r),
            r matches Err(e) ==> e is Encryption,
    {
        let password = match &file.encrypted_password {
            Some(e) => match MqttStorage::decrypt_password(e) {
                Ok(p) => p,
                Err(err) => {
                    return Err(err);
                },
            },
            None => String::new(),
        };
        Ok(
            MqttConfig {
                host: file.host,
                port: file.port,
                username: file.username,
                password,
                client_id: file.client_id,
            },
        )
    }
}

} // verus!
