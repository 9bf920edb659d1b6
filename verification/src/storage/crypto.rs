//! Password encryption for the JSON configuration store: AES-256-GCM under
//! a fixed key, a fresh 12-byte nonce per encryption, and the nonce
//! followed by the ciphertext kept as one Base64 text. The empty password
//! is kept as the empty text.
use crate::primitives::{
    aes256gcm_decrypt, aes256gcm_encrypt, aes256gcm_open, aes256gcm_seal, base64_decode,
    base64_decode_error, base64_decoded, base64_encode, base64_encoded, os_random_bytes,
    string_from_utf8, utf8_error_text,
    AES_GCM_MAX_PLAINTEXT,
};
use vstd::prelude::*;
use vstd::slice::slice_to_vec;
use vstd::string::StringSliceAdditionalSpecFns;
use vstd::utf8::{decode_utf8, encode_utf8, valid_utf8};

verus! {

broadcast use vstd::utf8::group_utf8_lib;

/// The fixed key the store encrypts passwords with
/// (`DJI_CLOUD_SIMULATION_SECRET_KEY!`).
pub const KEY: [u8; 32] = [
    68, 74, 73, 95, 67, 76, 79, 85, 68, 95, 83, 73, 77, 85, 76, 65, 84, 73, 79, 78, 95, 83, 69,
    67, 82, 69, 84, 95, 75, 69, 89, 33,
];

/// The stored text of a non-empty password sealed with `nonce`: Base64 of
/// the nonce followed by the ciphertext of the password's UTF-8 bytes.
pub open spec fn sealed_text(password: Seq<char>, nonce: Seq<u8>) -> Seq<char> {
    base64_encoded(nonce + aes256gcm_seal(KEY@, nonce, encode_utf8(password)))
}

/// The password a stored text holds, or nothing when it cannot be read
/// back: bad Base64, fewer than 12 bytes, a tag that does not verify, or
/// bytes that are not UTF-8.
pub open spec fn opened_text(text: Seq<char>) -> Option<Seq<char>> {
    if text.len() == 0 {
        Some(Seq::empty())
    } else {
        match base64_decoded(text) {
            None => None,
            Some(combined) => if combined.len() < 12 {
                None
            } else {
                match aes256gcm_open(
                    KEY@,
                    combined.subrange(0, 12),
                    combined.subrange(12, combined.len() as int),
                ) {
                    None => None,
                    Some(plain) => if valid_utf8(plain) {
                        Some(decode_utf8(plain))
                    } else {
                        None
                    },
                }
            },
        }
    }
}

/// Encrypts `password` with the given 12-byte `nonce`.
pub fn encrypt_with_nonce(password: &str, nonce: &[u8]) -> (r: Result<String, String>)
    requires
        nonce@.len() == 12,
    ensures
        password@.len() == 0 ==> r is Ok && r->Ok_0@ == Seq::<char>::empty(),
        password@.len() > 0 && password.spec_bytes().len() <= AES_GCM_MAX_PLAINTEXT ==> r is Ok
            && r->Ok_0@ == sealed_text(password@, nonce@) && r->Ok_0@.len() > 0
            && aes256gcm_seal(KEY@, nonce@, encode_utf8(password@)).len() == encode_utf8(
            password@,
        ).len() + 16 && r->Ok_0@.len() == 4 * ((12 + encode_utf8(password@).len() + 16 + 2)
            / 3),
        password@.len() > 0 && password.spec_bytes().len() > AES_GCM_MAX_PLAINTEXT ==> r is Err
            && r->Err_0@ == "aead::Error"@,
{
    if password.is_empty() {
        return Ok(String::new());
    }
    let ciphertext = match aes256gcm_encrypt(&KEY, nonce, password.as_bytes()) {
        Ok(c) => c,
        Err(e) => {
            return Err(e);
        },
    };
    let mut combined = slice_to_vec(nonce);
    let mut tail = ciphertext;
    combined.append(&mut tail);
    Ok(base64_encode(combined.as_slice()))
}

/// Encrypts `password` for storage under a fresh random nonce from the
/// operating system. The empty password stays empty. A non-empty one fails
/// when the operating system supplies no randomness (with its error text)
/// or when it is longer than AES-256-GCM accepts (`aead::Error`).
pub fn encrypt(password: &str) -> (r: Result<String, String>)
    ensures
        password@.len() == 0 ==> r is Ok && r->Ok_0@ == Seq::<char>::empty(),
        password@.len() > 0 && password.spec_bytes().len() > AES_GCM_MAX_PLAINTEXT ==> r is Err,
        password@.len() > 0 && r is Ok ==> r->Ok_0@.len() == 4 * ((12 + encode_utf8(password@).len() + 16 + 2) / 3)
            && exists|nonce: Seq<u8>|
            nonce.len() == 12 && r->Ok_0@ == #[trigger] sealed_text(password@, nonce)
                && aes256gcm_seal(KEY@, nonce, encode_utf8(password@)).len() == encode_utf8(
                password@,
            ).len() + 16,
{
    if password.is_empty() {
        return Ok(String::new());
    }
    let nonce = match os_random_bytes(12) {
        Ok(n) => n,
        Err(e) => {
            return Err(e);
        },
    };
    encrypt_with_nonce(password, nonce.as_slice())
}

/// What reading a stored text back gives: the password, or the error
/// text. The empty text is the empty password; otherwise the text must be
/// Base64 of at least 12 bytes, the nonce and then a ciphertext whose tag
/// verifies under the key, of UTF-8 bytes.
pub open spec fn decrypted(text: Seq<char>) -> Result<Seq<char>, Seq<char>> {
    if text.len() == 0 {
        Ok(Seq::empty())
    } else {
        match base64_decoded(text) {
            None => Err(base64_decode_error(text)),
            Some(combined) => if combined.len() < 12 {
                Err("Invalid encrypted data"@)
            } else {
                match aes256gcm_open(
                    KEY@,
                    combined.subrange(0, 12),
                    combined.subrange(12, combined.len() as int),
                ) {
                    None => Err("aead::Error"@),
                    Some(plain) => if valid_utf8(plain) {
                        Ok(decode_utf8(plain))
                    } else {
                        Err(utf8_error_text(plain))
                    },
                }
            },
        }
    }
}

/// Reads a stored password back. The empty text is the empty password;
/// a text that `encrypt` made of a password gives that password back.
pub fn decrypt(encrypted: &str) -> (r: Result<String, String>)
    ensures
        r is Ok <==> opened_text(encrypted@) is Some,
        r matches Ok(p) ==> opened_text(encrypted@) == Some(p@),
        r matches Ok(p) ==> decrypted(encrypted@) == Ok::<Seq<char>, Seq<char>>(p@),
        r matches Err(e) ==> decrypted(encrypted@) == Err::<Seq<char>, Seq<char>>(e@),
        encrypted@.len() > 0 ==> (base64_decoded(encrypted@) matches Some(c) && c.len() < 12 ==> r is Err
            && r->Err_0@ == "Invalid encrypted data"@),
        encrypted@.len() > 0 ==> (base64_decoded(encrypted@) matches Some(c) && c.len() >= 12
            && aes256gcm_open(
            KEY@,
            c.subrange(0, 12),
            c.subrange(12, c.len() as int),
        ) is None ==> r is Err && r->Err_0@ == "aead::Error"@),
        forall|password: Seq<char>, nonce: Seq<u8>|
            encrypted@.len() > 0 && nonce.len() == 12 && encode_utf8(password).len()
                <= AES_GCM_MAX_PLAINTEXT && encrypted@ == #[trigger] sealed_text(password, nonce)
                ==> r is Ok && r->Ok_0@ == password,
{
    if encrypted.is_empty() {
        return Ok(String::new());
    }
    let mut combined = match base64_decode(encrypted) {
        Ok(c) => c,
        Err(e) => {
            return Err(e);
        },
    };
    proof {
        reveal_strlit("Invalid encrypted data");
        reveal_strlit("aead::Error");
    }
    if combined.len() < 12 {
        return Err(String::from_str("Invalid encrypted data"));
    }
    let ghost whole = combined@;
    let ciphertext = combined.split_off(12);
    let nonce = combined;
    assert(nonce@ == whole.subrange(0, 12));
    assert(ciphertext@ == whole.subrange(12, whole.len() as int));
    proof {
        assert forall|password: Seq<char>, n: Seq<u8>|
            n.len() == 12 && encrypted@ == #[trigger] sealed_text(password, n) implies nonce@ == n
            && ciphertext@ == aes256gcm_seal(KEY@, n, encode_utf8(password)) by {
            let b = n + aes256gcm_seal(KEY@, n, encode_utf8(password));
            assert(whole == b);
            assert(b.subrange(0, 12) =~= n);
            assert(b.subrange(12, b.len() as int) =~= aes256gcm_seal(KEY@, n, encode_utf8(password)));
        }
    }
    let plaintext = match aes256gcm_decrypt(&KEY, nonce.as_slice(), ciphertext.as_slice()) {
        Ok(p) => p,
        Err(e) => {
            return Err(e);
        },
    };
    string_from_utf8(plaintext)
}

} // verus!
