//! The calls this library makes into `aes-gcm`, `base64`, `rand`, `uuid`,
//! `rumqttc` and the parts of `std` that Verus has no specification for.
//! Each function here is trusted: Verus takes its contract as given.
use aes_gcm::aead::{Aead, KeyInit};
use aes_gcm::{Aes256Gcm, Nonce};
use base64::engine::general_purpose::STANDARD;
use base64::Engine;
use rand::rngs::OsRng;
use rand::RngCore;
use vstd::prelude::*;
use vstd::utf8::{decode_utf8, valid_utf8};

verus! {

/// The largest plaintext, in bytes, that AES-256-GCM accepts (2^36).
pub const AES_GCM_MAX_PLAINTEXT: u64 = 0x10_0000_0000;

/// The ciphertext (tag appended) that AES-256-GCM makes of `plaintext`
/// under `key` and the 12-byte `nonce`, with no associated data.
pub uninterp spec fn aes256gcm_seal(key: Seq<u8>, nonce: Seq<u8>, plaintext: Seq<u8>) -> Seq<u8>;

/// What AES-256-GCM decryption of `ciphertext` under `key` and `nonce`
/// yields: the plaintext, or nothing when the tag does not verify.
pub uninterp spec fn aes256gcm_open(key: Seq<u8>, nonce: Seq<u8>, ciphertext: Seq<u8>) -> Option<
    Seq<u8>,
>;

/// The standard, padded Base64 text of `bytes`.
pub uninterp spec fn base64_encoded(bytes: Seq<u8>) -> Seq<char>;

/// The bytes that standard, padded Base64 decoding gives of `text`, or
/// nothing when `text` is not valid Base64.
pub uninterp spec fn base64_decoded(text: Seq<char>) -> Option<Seq<u8>>;

/// `Aead::encrypt` of `aes_gcm::Aes256Gcm`, with no associated data.
/// Claimed: it succeeds exactly when the plaintext is at most 2^36 bytes
/// long; the ciphertext is the one AES-256-GCM makes (named by
/// `aes256gcm_seal`) and is 16 bytes longer than the plaintext; the error
/// prints as `aead::Error`.
#[verifier::external_body]
pub(crate) fn aes256gcm_encrypt(key: &[u8; 32], nonce: &[u8], plaintext: &[u8]) -> (r: Result<
    Vec<u8>,
    String,
>)
    requires
        nonce@.len() == 12,
    ensures
        r is Ok <==> plaintext@.len() <= AES_GCM_MAX_PLAINTEXT,
        r matches Ok(c) ==> c@ == aes256gcm_seal(key@, nonce@, plaintext@),
        r matches Ok(c) ==> c@.len() == plaintext@.len() + 16,
        r matches Err(e) ==> e@ == "aead::Error"@,
{
    let cipher = Aes256Gcm::new(key.into());
    match cipher.encrypt(Nonce::from_slice(nonce), plaintext) {
        Ok(c) => Ok(c),
        Err(e) => Err(e.to_string()),
    }
}

/// `Aead::decrypt` of `aes_gcm::Aes256Gcm`, with no associated data.
/// Claimed: the result is the one AES-256-GCM decryption gives (named by
/// `aes256gcm_open`); a ciphertext that `aes256gcm_encrypt` made of a
/// plaintext under the same key and nonce decrypts to that plaintext; the
/// error prints as `aead::Error`.
#[verifier::external_body]
pub(crate) fn aes256gcm_decrypt(key: &[u8; 32], nonce: &[u8], ciphertext: &[u8]) -> (r: Result<
    Vec<u8>,
    String,
>)
    requires
        nonce@.len() == 12,
    ensures
        r is Ok <==> aes256gcm_open(key@, nonce@, ciphertext@) is Some,
        r matches Ok(p) ==> aes256gcm_open(key@, nonce@, ciphertext@) == Some(p@),
        r matches Err(e) ==> e@ == "aead::Error"@,
        forall|p: Seq<u8>|
            p.len() <= AES_GCM_MAX_PLAINTEXT && #[trigger] aes256gcm_seal(key@, nonce@, p)
                == ciphertext@ ==> r is Ok && r->Ok_0@ == p,
{
    let cipher = Aes256Gcm::new(key.into());
    match cipher.decrypt(Nonce::from_slice(nonce), ciphertext) {
        Ok(p) => Ok(p),
        Err(e) => Err(e.to_string()),
    }
}

/// `Engine::encode` of `base64::engine::general_purpose::STANDARD`.
/// Claimed: the text is the standard padded Base64 of the bytes (named by
/// `base64_encoded`), four characters for every started group of three
/// bytes.
#[verifier::external_body]
pub(crate) fn base64_encode(bytes: &[u8]) -> (s: String)
    ensures
        s@ == base64_encoded(bytes@),
        s@.len() == 4 * ((bytes@.len() + 2) / 3),
{
    STANDARD.encode(bytes)
}

/// The text of the `DecodeError` that standard Base64 decoding reports
/// for `text`.
pub uninterp spec fn base64_decode_error(text: Seq<char>) -> Seq<char>;

/// `Engine::decode` of `base64::engine::general_purpose::STANDARD`.
/// Claimed: the result is the one standard Base64 decoding gives (named by
/// `base64_decoded`), the encoding of some bytes decodes to those bytes,
/// and the error is the text of the `DecodeError` (named by
/// `base64_decode_error`).
#[verifier::external_body]
pub(crate) fn base64_decode(text: &str) -> (r: Result<Vec<u8>, String>)
    ensures
        r is Ok <==> base64_decoded(text@) is Some,
        r matches Ok(b) ==> base64_decoded(text@) == Some(b@),
        r matches Err(e) ==> e@ == base64_decode_error(text@),
        forall|b: Seq<u8>| #[trigger] base64_encoded(b) == text@ ==> r is Ok && r->Ok_0@ == b,
{
    match STANDARD.decode(text) {
        Ok(b) => Ok(b),
        Err(e) => Err(e.to_string()),
    }
}

/// `len` bytes from the operating system generator `rand::rngs::OsRng`
/// through `RngCore::try_fill_bytes`. Claimed: on success, `len` bytes.
/// Whether it succeeds, the bytes and the error text rest on the operating
/// system and are left unstated.
#[verifier::external_body]
pub(crate) fn os_random_bytes(len: usize) -> (r: Result<Vec<u8>, String>)
    ensures
        r matches Ok(b) ==> b@.len() == len,
{
    let mut bytes = vec![0u8; len];
    match OsRng.try_fill_bytes(&mut bytes) {
        Ok(()) => Ok(bytes),
        Err(e) => Err(e.to_string()),
    }
}

/// The text of the `FromUtf8Error` that `String::from_utf8` reports for
/// `bytes`.
pub uninterp spec fn utf8_error_text(bytes: Seq<u8>) -> Seq<char>;

/// `String::from_utf8`. Claimed: it succeeds exactly on valid UTF-8, the
/// string holds the characters the bytes encode, and the error is the text
/// of the `FromUtf8Error` (named by `utf8_error_text`).
#[verifier::external_body]
pub(crate) fn string_from_utf8(bytes: Vec<u8>) -> (r: Result<String, String>)
    ensures
        r is Ok <==> valid_utf8(bytes@),
        r matches Ok(s) ==> s@ == decode_utf8(bytes@),
        r matches Err(e) ==> e@ == utf8_error_text(bytes@),
{
    match String::from_utf8(bytes) {
        Ok(s) => Ok(s),
        Err(e) => Err(e.to_string()),
    }
}


#[verifier::external_type_specification]
#[verifier::external_body]
pub struct ExMqttOptions(rumqttc::MqttOptions);

/// The client identifier that `rumqttc::MqttOptions` hold
/// (`MqttOptions::client_id`).
pub uninterp spec fn mqtt_options_client_id(options: rumqttc::MqttOptions) -> Seq<char>;

/// The broker host and port that `rumqttc::MqttOptions` hold
/// (`MqttOptions::broker_address`).
pub uninterp spec fn mqtt_options_broker(options: rumqttc::MqttOptions) -> (Seq<char>, u16);

/// The user name and password that `rumqttc::MqttOptions` hold, if any
/// (`MqttOptions::credentials`).
pub uninterp spec fn mqtt_options_credentials(options: rumqttc::MqttOptions) -> Option<
    (Seq<char>, Seq<char>),
>;

/// The keep-alive interval that `rumqttc::MqttOptions` hold, in
/// nanoseconds (`MqttOptions::keep_alive`).
pub uninterp spec fn mqtt_options_keep_alive_nanos(options: rumqttc::MqttOptions) -> nat;

/// `rumqttc::MqttOptions::new`. Claimed, as its source shows: the options
/// hold the client identifier `client_id` and the broker `host:port`, no
/// credentials, and the default keep-alive of 60 seconds.
#[verifier::external_body]
pub(crate) fn mqtt_options_new(client_id: String, host: String, port: u16) -> (o:
    rumqttc::MqttOptions)
    ensures
        mqtt_options_client_id(o) == client_id@,
        mqtt_options_broker(o) == (host@, port),
        mqtt_options_credentials(o) is None,
        mqtt_options_keep_alive_nanos(o) == 60_000_000_000,
{
    rumqttc::MqttOptions::new(client_id, host, port)
}

/// `rumqttc::MqttOptions::set_credentials`. Claimed, as its source shows:
/// the options now hold these credentials, and nothing else they hold
/// changes.
#[verifier::external_body]
pub(crate) fn mqtt_options_set_credentials(
    options: &mut rumqttc::MqttOptions,
    username: String,
    password: String,
)
    ensures
        mqtt_options_credentials(*final(options)) == Some((username@, password@)),
        mqtt_options_client_id(*final(options)) == mqtt_options_client_id(*old(options)),
        mqtt_options_broker(*final(options)) == mqtt_options_broker(*old(options)),
        mqtt_options_keep_alive_nanos(*final(options)) == mqtt_options_keep_alive_nanos(
            *old(options),
        ),
{
    options.set_credentials(username, password);
}

/// `rumqttc::MqttOptions::set_keep_alive`, with the interval given in
/// whole seconds (which it always accepts). Claimed, as its source shows:
/// the options now hold that interval, and nothing else they hold changes.
#[verifier::external_body]
pub(crate) fn mqtt_options_set_keep_alive(options: &mut rumqttc::MqttOptions, seconds: u64)
    ensures
        mqtt_options_keep_alive_nanos(*final(options)) == seconds as nat * 1_000_000_000,
        mqtt_options_client_id(*final(options)) == mqtt_options_client_id(*old(options)),
        mqtt_options_broker(*final(options)) == mqtt_options_broker(*old(options)),
        mqtt_options_credentials(*final(options)) == mqtt_options_credentials(*old(options)),
{
    options.set_keep_alive(std::time::Duration::from_secs(seconds));
}

/// The hyphenated text of the version 4 identifier that
/// `uuid::Builder::from_random_bytes` makes of 16 random bytes.
pub uninterp spec fn uuid_v4_text(random: Seq<u8>) -> Seq<char>;

/// `uuid::Builder::from_random_bytes`, as the hyphenated text of the
/// identifier. Claimed: the text depends on the bytes alone (named by
/// `uuid_v4_text`) and is 36 characters long.
#[verifier::external_body]
pub(crate) fn uuid_from_random_bytes(random: &[u8]) -> (s: String)
    requires
        random@.len() == 16,
    ensures
        s@ == uuid_v4_text(random@),
        s@.len() == 36,
{
    let mut bytes = [0u8; 16];
    bytes.copy_from_slice(random);
    uuid::Builder::from_random_bytes(bytes).into_uuid().to_string()
}

} // verus!
