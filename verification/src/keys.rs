//! Protection of the catalogue key: the key is sealed with AES-256-GCM under a key that
//! Argon2id derives from a password or recovery answer, and stored as hexadecimal text.
use vstd::prelude::*;
use crate::hexcode::{hex_decode, hex_decode_spec, hex_encode, hex_encode_spec, lemma_hex_round_trip};
use crate::library::{setup_error_is, SetupLibraryError};
use aes_gcm::aead::{Aead, KeyInit};
use rand::RngCore;

verus! {

/// Bytes in the catalogue key.
pub const KEY_BYTES: usize = 32;

/// Bytes in an Argon2 salt.
pub const SALT_BYTES: usize = 16;

/// Bytes in an AES-GCM nonce.
pub const NONCE_BYTES: usize = 12;

/// Argon2 memory cost, in KiB.
pub const ARGON2_MEMORY_KIB: u32 = 19456;

/// Argon2 passes.
pub const ARGON2_ITERATIONS: u32 = 2;

/// Argon2 lanes.
pub const ARGON2_LANES: u32 = 1;

/// The longest secret, in characters, that is sure to fit the longest password Argon2 takes
/// (`u32::MAX` bytes): a character takes at most four bytes in UTF-8.
pub const MAX_SECRET_CHARS: usize = 0x3FFF_FFFF;

/// The catalogue key, sealed under a secret: each part as lowercase hexadecimal text.
#[derive(Debug)]
pub struct KeyWrap {
    pub salt_hex: String,
    pub nonce_hex: String,
    pub ciphertext_hex: String,
}

/// What `Argon2::hash_password_into` yields for Argon2id version 0x13 with these parameters,
/// the UTF-8 bytes of `secret` as password and `salt` as salt; `None` where it refuses them.
pub uninterp spec fn argon2id_hash(
    secret: Seq<char>,
    salt: Seq<u8>,
    memory_kib: u32,
    iterations: u32,
    lanes: u32,
    output_len: usize,
) -> Option<Seq<u8>>;

/// What `Aes256Gcm::encrypt` yields for this key, nonce and plaintext, with no associated data.
pub uninterp spec fn aes256gcm_seal(key: Seq<u8>, nonce: Seq<u8>, plaintext: Seq<u8>) -> Option<
    Seq<u8>,
>;

/// What `Aes256Gcm::decrypt` yields for this key, nonce and ciphertext, with no associated data.
pub uninterp spec fn aes256gcm_open(key: Seq<u8>, nonce: Seq<u8>, ciphertext: Seq<u8>) -> Option<
    Seq<u8>,
>;

/// Argon2id (version 0x13) through `Params::new` and `Argon2::hash_password_into`: an
/// `output_len`-byte key derived from `secret` and `salt`. The result is a function of the
/// arguments, named by `argon2id_hash`. It succeeds when `Params::new` accepts the parameters
/// (at least 8 KiB and 8 KiB per lane, at least one pass and one lane, an output of 4 to
/// 64 bytes here) and `hash_password_into` the inputs (a salt of 8 to `u32::MAX` bytes, a
/// password of at most `u32::MAX` UTF-8 bytes, which a secret of at most `MAX_SECRET_CHARS`
/// characters is). `Params::new` multiplies `lanes` by 8 before it checks it against its
/// largest parallelism (`0xFF_FFFF`), so larger `lanes` are left out: they overflow there.
#[verifier::external_body]
fn argon2id_derive(
    secret: &str,
    salt: &[u8],
    memory_kib: u32,
    iterations: u32,
    lanes: u32,
    output_len: usize,
) -> (r: Option<Vec<u8>>)
    requires
        lanes <= 0xFF_FFFF,
    ensures
        match r {
            Some(key) => {
                &&& argon2id_hash(secret@, salt@, memory_kib, iterations, lanes, output_len)
                    == Some(key@)
                &&& key@.len() == output_len
            },
            None => argon2id_hash(secret@, salt@, memory_kib, iterations, lanes, output_len) is None,
        },
        (8 <= memory_kib && 8 * lanes <= memory_kib && 1 <= iterations && 1 <= lanes && 4
            <= output_len <= 64 && 8 <= salt@.len() <= 0xFFFF_FFFF && secret@.len()
            <= MAX_SECRET_CHARS) ==> r is Some,
{
    let params = argon2::Params::new(memory_kib, iterations, lanes, Some(output_len)).ok()?;
    let hasher = argon2::Argon2::new(argon2::Algorithm::Argon2id, argon2::Version::V0x13, params);
    let mut key = vec![0u8; output_len];
    hasher.hash_password_into(secret.as_bytes(), salt, &mut key).ok()?;
    Some(key)
}

/// `Aes256Gcm::encrypt` with a 32-byte key and a 12-byte nonce. Its result is named by
/// `aes256gcm_seal`; it succeeds on plaintexts of at most 2^36 bytes, and what it seals,
/// `Aes256Gcm::decrypt` opens with the same key and nonce.
#[verifier::external_body]
fn aes256gcm_encrypt(key: &[u8], nonce: &[u8], plaintext: &[u8]) -> (r: Option<Vec<u8>>)
    requires
        key@.len() == 32,
        nonce@.len() == 12,
    ensures
        match r {
            Some(sealed) => {
                &&& aes256gcm_seal(key@, nonce@, plaintext@) == Some(sealed@)
                &&& aes256gcm_open(key@, nonce@, sealed@) == Some(plaintext@)
            },
            None => aes256gcm_seal(key@, nonce@, plaintext@) is None,
        },
        plaintext@.len() <= 0x10_0000_0000 ==> r is Some,
{
    let cipher = aes_gcm::Aes256Gcm::new_from_slice(key).ok()?;
    cipher.encrypt(aes_gcm::Nonce::from_slice(nonce), plaintext).ok()
}

/// `Aes256Gcm::decrypt` with a 32-byte key and a 12-byte nonce; its result is named by
/// `aes256gcm_open`.
#[verifier::external_body]
fn aes256gcm_decrypt(key: &[u8], nonce: &[u8], ciphertext: &[u8]) -> (r: Option<Vec<u8>>)
    requires
        key@.len() == 32,
        nonce@.len() == 12,
    ensures
        match r {
            Some(plain) => aes256gcm_open(key@, nonce@, ciphertext@) == Some(plain@),
            None => aes256gcm_open(key@, nonce@, ciphertext@) is None,
        },
{
    let cipher = aes_gcm::Aes256Gcm::new_from_slice(key).ok()?;
    cipher.decrypt(aes_gcm::Nonce::from_slice(nonce), ciphertext).ok()
}

/// `OsRng::fill_bytes`: overwrites the buffer with operating-system randomness. Nothing is
/// stated of the bytes, which rest on chance; the length is kept.
#[verifier::external_body]
fn fill_random(buffer: &mut Vec<u8>)
    ensures
        final(buffer)@.len() == old(buffer)@.len(),
{
    rand::rngs::OsRng.fill_bytes(buffer.as_mut_slice());
}

/// A zero-filled buffer of `n` bytes.
fn zeroed(n: usize) -> (r: Vec<u8>)
    ensures
        r@.len() == n,
        forall|i: int| 0 <= i < n ==> r@[i] == 0u8,
{
    let mut r: Vec<u8> = Vec::new();
    let mut i: usize = 0;
    while i < n
        invariant
            i <= n,
            r@.len() == i,
            forall|k: int| 0 <= k < i ==> r@[k] == 0u8,
        decreases n - i,
    {
        r.push(0u8);
        i = i + 1;
    }
    r
}

/// Overwrites every byte with zero, so that no secret stays in the buffer.
pub fn wipe(buffer: &mut Vec<u8>)
    ensures
        final(buffer)@.len() == old(buffer)@.len(),
        forall|i: int| 0 <= i < final(buffer)@.len() ==> final(buffer)@[i] == 0u8,
{
    let n = buffer.len();
    let mut i: usize = 0;
    while i < n
        invariant
            i <= n,
            buffer@.len() == n,
            forall|k: int| 0 <= k < i ==> buffer@[k] == 0u8,
        decreases n - i,
    {
        buffer.set(i, 0u8);
        i = i + 1;
    }
}

/// The key that Argon2id derives from a secret and salt, with the library's parameters.
pub open spec fn derived_key(secret: Seq<char>, salt: Seq<u8>) -> Option<Seq<u8>> {
    argon2id_hash(secret, salt, ARGON2_MEMORY_KIB, ARGON2_ITERATIONS, ARGON2_LANES, KEY_BYTES)
}

/// The catalogue key that `wrap` yields to `secret`, if it yields one: each part must be
/// hexadecimal text, the salt 16 bytes and the nonce 12, and the opened plaintext 32 bytes.
pub open spec fn unwrap_spec(wrap: KeyWrap, secret: Seq<char>) -> Option<Seq<u8>> {
    match (
        hex_decode_spec(wrap.salt_hex@),
        hex_decode_spec(wrap.nonce_hex@),
        hex_decode_spec(wrap.ciphertext_hex@),
    ) {
        (Some(salt), Some(nonce), Some(ciphertext)) => {
            if salt.len() == SALT_BYTES && nonce.len() == NONCE_BYTES {
                match derived_key(secret, salt) {
                    Some(key) => match aes256gcm_open(key, nonce, ciphertext) {
                        Some(plain) => if plain.len() == KEY_BYTES {
                            Some(plain)
                        } else {
                            None
                        },
                        None => None,
                    },
                    None => None,
                }
            } else {
                None
            }
        },
        _ => None,
    }
}

/// The error for a password or recovery answer that does not open the catalogue key.
pub fn incorrect_credential_error() -> (r: SetupLibraryError)
    ensures
        setup_error_is(
            r,
            "incorrect_credentials"@,
            "The password or recovery answer is incorrect."@,
        ),
{
    SetupLibraryError::new("incorrect_credentials", "The password or recovery answer is incorrect.")
}

/// Decodes hexadecimal text that must hold exactly `n` bytes.
pub fn decode_fixed(value: &str, n: usize) -> (r: Result<Vec<u8>, SetupLibraryError>)
    ensures
        match r {
            Ok(bytes) => hex_decode_spec(value@) == Some(bytes@) && bytes@.len() == n,
            Err(e) => {
                &&& !(hex_decode_spec(value@) matches Some(b) && b.len() == n)
                &&& setup_error_is(
                    e,
                    "incorrect_credentials"@,
                    "The password or recovery answer is incorrect."@,
                )
            },
        },
{
    match hex_decode(value) {
        Some(bytes) => {
            if bytes.len() == n {
                Ok(bytes)
            } else {
                Err(incorrect_credential_error())
            }
        },
        None => Err(incorrect_credential_error()),
    }
}

/// Derives the protection key for a secret and salt with the library's Argon2id parameters.
pub fn derive_key(secret: &str, salt: &Vec<u8>) -> (r: Result<Vec<u8>, SetupLibraryError>)
    ensures
        salt@.len() == SALT_BYTES && secret@.len() <= MAX_SECRET_CHARS ==> r is Ok,
        match r {
            Ok(key) => derived_key(secret@, salt@) == Some(key@) && key@.len() == KEY_BYTES,
            Err(e) => {
                &&& derived_key(secret@, salt@) is None
                &&& setup_error_is(
                    e,
                    "initialization_failed"@,
                    "Could not derive a protection key."@,
                )
            },
        },
{
    match argon2id_derive(
        secret,
        salt.as_slice(),
        ARGON2_MEMORY_KIB,
        ARGON2_ITERATIONS,
        ARGON2_LANES,
        KEY_BYTES,
    ) {
        Some(key) => Ok(key),
        None => Err(
            SetupLibraryError::new("initialization_failed", "Could not derive a protection key."),
        ),
    }
}

/// Seals the catalogue key under `secret` with a fresh random salt and nonce. Whatever the
/// random parts, a wrap that is returned yields `database_key` back to `secret`.
pub fn wrap_key(database_key: &Vec<u8>, secret: &str) -> (r: Result<KeyWrap, SetupLibraryError>)
    requires
        database_key@.len() == KEY_BYTES,
    ensures
        secret@.len() <= MAX_SECRET_CHARS ==> r is Ok,
        match r {
            Ok(wrap) => unwrap_spec(wrap, secret@) == Some(database_key@),
            Err(e) => {
                ||| setup_error_is(
                    e,
                    "initialization_failed"@,
                    "Could not derive a protection key."@,
                )
                ||| setup_error_is(
                    e,
                    "initialization_failed"@,
                    "Could not protect the catalogue key."@,
                )
            },
        },
{
    let mut salt = zeroed(SALT_BYTES);
    let mut nonce = zeroed(NONCE_BYTES);
    fill_random(&mut salt);
    fill_random(&mut nonce);
    let mut derived = derive_key(secret, &salt)?;
    let sealed = aes256gcm_encrypt(derived.as_slice(), nonce.as_slice(), database_key.as_slice());
    wipe(&mut derived);
    let ciphertext = match sealed {
        Some(c) => c,
        None => {
            return Err(
                SetupLibraryError::new(
                    "initialization_failed",
                    "Could not protect the catalogue key.",
                ),
            );
        },
    };
    let wrap = KeyWrap {
        salt_hex: hex_encode(salt.as_slice()),
        nonce_hex: hex_encode(nonce.as_slice()),
        ciphertext_hex: hex_encode(ciphertext.as_slice()),
    };
    proof {
        lemma_hex_round_trip(salt@);
        lemma_hex_round_trip(nonce@);
        lemma_hex_round_trip(ciphertext@);
    }
    Ok(wrap)
}

/// Opens the catalogue key sealed in `wrap` with `secret`; every failure is reported as
/// incorrect credentials.
pub fn unwrap_key(wrap: &KeyWrap, secret: &str) -> (r: Result<Vec<u8>, SetupLibraryError>)
    ensures
        match r {
            Ok(key) => unwrap_spec(*wrap, secret@) == Some(key@),
            Err(e) => {
                &&& unwrap_spec(*wrap, secret@) is None
                &&& setup_error_is(
                    e,
                    "incorrect_credentials"@,
                    "The password or recovery answer is incorrect."@,
                )
            },
        },
{
    let salt = decode_fixed(wrap.salt_hex.as_str(), SALT_BYTES)?;
    let nonce = decode_fixed(wrap.nonce_hex.as_str(), NONCE_BYTES)?;
    let ciphertext = match hex_decode(wrap.ciphertext_hex.as_str()) {
        Some(c) => c,
        None => {
            return Err(incorrect_credential_error());
        },
    };
    let mut derived = match derive_key(secret, &salt) {
        Ok(k) => k,
        Err(_) => {
            return Err(incorrect_credential_error());
        },
    };
    let opened = aes256gcm_decrypt(derived.as_slice(), nonce.as_slice(), ciphertext.as_slice());
    wipe(&mut derived);
    match opened {
        Some(plain) => {
            if plain.len() == KEY_BYTES {
                Ok(plain)
            } else {
                Err(incorrect_credential_error())
            }
        },
        None => Err(incorrect_credential_error()),
    }
}


/// A fresh random catalogue key. Its bytes rest on chance; its length is fixed.
pub fn new_database_key() -> (r: Vec<u8>)
    ensures
        r@.len() == KEY_BYTES,
{
    let mut key = zeroed(KEY_BYTES);
    fill_random(&mut key);
    key
}


/// A random name suffix: `bytes` random bytes as lowercase hexadecimal text. Nothing is stated
/// of the bytes, which rest on chance.
pub fn random_suffix(bytes: usize) -> (r: String)
    ensures
        exists|b: Seq<u8>| b.len() == bytes && r@ == hex_encode_spec(b),
{
    let mut buffer = zeroed(bytes);
    fill_random(&mut buffer);
    hex_encode(buffer.as_slice())
}

} // verus!
