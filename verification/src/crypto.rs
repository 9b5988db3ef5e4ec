//! Config and storage encryption: password-derived AES-256-GCM with a
//! magic-tagged, versioned frame. The frame layout, its parsing and every
//! error decision are verified; the key derivation, the random generator
//! and the AEAD seal and open calls are relied upon from the `ring` crate.
//!
//! Config frames are `magic ++ salt ++ nonce ++ ciphertext-with-tag`, base64
//! encoded; storage frames use a fixed application key (enabling cross-device
//! migration) and so carry no salt: `magic ++ nonce ++ ciphertext-with-tag`.

use vstd::prelude::*;
use crate::bytes::{append_bytes, has_prefix, sub_bytes};
use vstd::string::StringSliceAdditionalSpecFns;
use crate::text::{string_from_utf8, trim_of, trim_str, utf8_of};
use crate::transport::{b64_decode, b64_decode_of, b64_of, encode_transport};

verus! {

/// Error kinds for encryption and decryption.
#[derive(Debug)]
pub enum CryptoError {
    /// Sealing failed or its key could not be built.
    EncryptionFailed(String),
    /// The frame opened but its contents could not be used.
    DecryptionFailed(String),
    /// The frame did not open under the key derived from the password.
    InvalidPassword,
    /// The data is not a well-formed encrypted frame.
    InvalidFormat,
    /// The data is not valid base64.
    Base64Error(String),
    /// The system random generator failed.
    RandomFailed,
}

/// Result type for crypto operations.
pub type CryptoResult<T> = Result<T, CryptoError>;

/// PBKDF2 iteration count for key derivation.
pub const PBKDF2_ITERATIONS: u32 = 100000;

/// Salt length in bytes.
pub const SALT_LENGTH: usize = 32;

/// Nonce length for AES-256-GCM in bytes.
pub const NONCE_LENGTH: usize = 12;

/// Authentication tag length for AES-256-GCM in bytes.
pub const TAG_LENGTH: usize = 16;

/// The magic header identifying an encrypted config frame: `ZWDCFG01`.
pub open spec fn config_magic() -> Seq<u8> {
    seq![90u8, 87u8, 68u8, 67u8, 70u8, 71u8, 48u8, 49u8]
}

fn config_magic_bytes() -> (r: Vec<u8>)
    ensures
        r@ == config_magic(),
{
    let r: Vec<u8> = vec![90u8, 87u8, 68u8, 67u8, 70u8, 71u8, 48u8, 49u8];
    proof {
        assert(r@ =~= config_magic());
    }
    r
}

/// The magic header identifying an encrypted storage frame: `ZWDST01`.
pub open spec fn storage_magic() -> Seq<u8> {
    seq![90u8, 87u8, 68u8, 83u8, 84u8, 48u8, 49u8]
}

fn storage_magic_bytes() -> (r: Vec<u8>)
    ensures
        r@ == storage_magic(),
{
    let r: Vec<u8> = vec![90u8, 87u8, 68u8, 83u8, 84u8, 48u8, 49u8];
    proof {
        assert(r@ =~= storage_magic());
    }
    r
}

/// The fixed salt of the storage key, enabling deterministic key derivation
/// across devices.
pub open spec fn storage_salt() -> Seq<u8> {
    seq![
        90u8, 87u8, 68u8, 64u8, 83u8, 64u8, 108u8, 116u8, 35u8, 50u8, 48u8, 50u8, 52u8, 33u8,
        70u8, 49u8, 120u8, 51u8, 100u8, 36u8, 67u8, 114u8, 48u8, 115u8, 115u8, 37u8, 68u8, 51u8,
        118u8, 49u8, 99u8,
    ]
}

fn storage_salt_bytes() -> (r: Vec<u8>)
    ensures
        r@ == storage_salt(),
{
    let r: Vec<u8> = vec![
        90u8, 87u8, 68u8, 64u8, 83u8, 64u8, 108u8, 116u8, 35u8, 50u8, 48u8, 50u8, 52u8, 33u8,
        70u8, 49u8, 120u8, 51u8, 100u8, 36u8, 67u8, 114u8, 48u8, 115u8, 115u8, 37u8, 68u8, 51u8,
        118u8, 49u8, 99u8,
    ];
    proof {
        assert(r@ =~= storage_salt());
    }
    r
}

/// The fixed application passphrase of the storage key.
fn storage_passphrase() -> (r: &'static str)
    ensures
        r@ == "ZWD#OpsBo7!S3cur3$K3y@2024_Pr0t3ct10n&V1.0^Encrypt10n*Stor@ge~Migr@t10n"@,
{
    "ZWD#OpsBo7!S3cur3$K3y@2024_Pr0t3ct10n&V1.0^Encrypt10n*Stor@ge~Migr@t10n"
}

#[verifier::external_type_specification]
#[verifier::external_body]
pub struct ExSystemRandom(ring::rand::SystemRandom);

/// Relies on `ring::rand::SystemRandom::new`: a handle to the system random
/// generator.
#[verifier::external_body]
fn new_system_random() -> ring::rand::SystemRandom {
    ring::rand::SystemRandom::new()
}

/// Relies on `ring::rand::SecureRandom::fill`: on success the buffer holds
/// `len` random bytes. The bytes are random, so only the length is promised.
#[verifier::external_body]
fn random_bytes(rng: &ring::rand::SystemRandom, len: usize) -> (r: Result<Vec<u8>, ()>)
    ensures
        r matches Ok(v) ==> v@.len() == len,
{
    let mut b = vec![0u8; len];
    match ring::rand::SecureRandom::fill(rng, &mut b) {
        Ok(()) => Ok(b),
        Err(_) => Err(()),
    }
}

/// What PBKDF2-HMAC-SHA256 derives as a 32-byte key: a function of the
/// iteration count, the password and the salt alone.
pub uninterp spec fn pbkdf2_key_of(iterations: u32, password: Seq<char>, salt: Seq<u8>) -> Seq<u8>;

/// Relies on `ring::pbkdf2::derive` with HMAC-SHA256: fills the 32-byte key
/// buffer deterministically from the iteration count, password and salt.
#[verifier::external_body]
fn derive_key_bytes(iterations: u32, password: &str, salt: &[u8]) -> (r: Vec<u8>)
    requires
        iterations > 0,
    ensures
        r@ == pbkdf2_key_of(iterations, password@, salt@),
        r@.len() == 32,
{
    let mut key = vec![0u8; 32];
    ring::pbkdf2::derive(
        ring::pbkdf2::PBKDF2_HMAC_SHA256,
        core::num::NonZeroU32::new(iterations).unwrap(),
        salt,
        password.as_bytes(),
        &mut key,
    );
    key
}

/// What AES-256-GCM sealing with empty additional data produces: the
/// ciphertext with its tag appended, a function of key, nonce and plaintext
/// alone.
pub uninterp spec fn gcm_seal_of(key: Seq<u8>, nonce: Seq<u8>, plaintext: Seq<u8>) -> Seq<u8>;

/// Relies on `ring::aead`'s `UnboundKey::new`, `LessSafeKey::new`,
/// `Nonce::try_assume_unique_for_key` and `seal_in_place_append_tag` with
/// `AES_256_GCM`: on success the result is the ciphertext with its 16-byte
/// tag appended, a function of key, nonce and plaintext alone.
#[verifier::external_body]
fn aead_seal(key: &[u8], nonce: &[u8], plaintext: &[u8]) -> (r: Result<Vec<u8>, ()>)
    requires
        key@.len() == 32,
        nonce@.len() == 12,
    ensures
        r matches Ok(c) ==> c@ == gcm_seal_of(key@, nonce@, plaintext@) && c@.len() == plaintext@.len()
            + 16,
{
    let unbound = ring::aead::UnboundKey::new(&ring::aead::AES_256_GCM, key).map_err(|_| ())?;
    let sealing = ring::aead::LessSafeKey::new(unbound);
    let n = ring::aead::Nonce::try_assume_unique_for_key(nonce).map_err(|_| ())?;
    let mut buf = plaintext.to_vec();
    sealing.seal_in_place_append_tag(n, ring::aead::Aad::empty(), &mut buf).map_err(|_| ())?;
    Ok(buf)
}

/// What AES-256-GCM opening with empty additional data yields: the plaintext
/// when the ciphertext-with-tag authenticates under the key and nonce,
/// nothing otherwise; a function of key, nonce and ciphertext alone.
pub uninterp spec fn gcm_open_of(key: Seq<u8>, nonce: Seq<u8>, ciphertext: Seq<u8>) -> Option<
    Seq<u8>,
>;

/// Relies on `ring::aead`'s `UnboundKey::new`, `LessSafeKey::new`,
/// `Nonce::try_assume_unique_for_key` and `open_in_place` with
/// `AES_256_GCM`: succeeds with the plaintext exactly when the
/// ciphertext-with-tag authenticates under the key and nonce.
#[verifier::external_body]
fn aead_open(key: &[u8], nonce: &[u8], ciphertext: &[u8]) -> (r: Result<Vec<u8>, ()>)
    requires
        key@.len() == 32,
        nonce@.len() == 12,
    ensures
        match r {
            Ok(p) => gcm_open_of(key@, nonce@, ciphertext@) == Some(p@),
            Err(_) => gcm_open_of(key@, nonce@, ciphertext@) is None,
        },
{
    let unbound = ring::aead::UnboundKey::new(&ring::aead::AES_256_GCM, key).map_err(|_| ())?;
    let opening = ring::aead::LessSafeKey::new(unbound);
    let n = ring::aead::Nonce::try_assume_unique_for_key(nonce).map_err(|_| ())?;
    let mut buf = ciphertext.to_vec();
    let plain = opening.open_in_place(n, ring::aead::Aad::empty(), &mut buf).map_err(|_| ())?;
    Ok(plain.to_vec())
}

/// Whether decoded bytes are a well-formed config frame: long enough for
/// magic, salt, nonce and tag, and starting with the config magic.
pub open spec fn config_frame_ok(data: Seq<u8>) -> bool {
    data.len() >= 68 && data.take(8) == config_magic()
}

/// What opening a config frame under a password yields.
pub open spec fn config_plain_of(data: Seq<u8>, password: Seq<char>) -> Option<Seq<u8>> {
    gcm_open_of(
        pbkdf2_key_of(PBKDF2_ITERATIONS, password, data.subrange(8, 40)),
        data.subrange(40, 52),
        data.skip(52),
    )
}

/// Whether decoded bytes are a well-formed storage frame: long enough for
/// magic, nonce and tag, and starting with the storage magic.
pub open spec fn storage_frame_ok(data: Seq<u8>) -> bool {
    data.len() >= 35 && data.take(7) == storage_magic()
}

/// What opening a storage frame under the fixed application key yields.
pub open spec fn storage_plain_of(data: Seq<u8>) -> Option<Seq<u8>> {
    gcm_open_of(
        pbkdf2_key_of(
            PBKDF2_ITERATIONS,
            "ZWD#OpsBo7!S3cur3$K3y@2024_Pr0t3ct10n&V1.0^Encrypt10n*Stor@ge~Migr@t10n"@,
            storage_salt(),
        ),
        data.subrange(7, 19),
        data.skip(19),
    )
}

/// Encrypts and decrypts config and storage blobs.
pub struct CryptoService {
    rng: ring::rand::SystemRandom,
}

impl CryptoService {
    /// A service holding a handle to the system random generator.
    pub fn new() -> (r: CryptoService) {
        CryptoService { rng: new_system_random() }
    }

    /// Encrypt plaintext with a password-derived key. On success the result
    /// is the base64 of a config frame: the magic header, a fresh 32-byte
    /// salt, a fresh 12-byte nonce, and the sealed plaintext.
    pub fn encrypt(&self, plaintext: &str, password: &str) -> (r: CryptoResult<String>)
        ensures
            r matches Ok(enc) ==> exists|salt: Seq<u8>, nonce: Seq<u8>|
                salt.len() == 32 && nonce.len() == 12 && enc@ == #[trigger] b64_of(
                    config_magic() + salt + nonce + gcm_seal_of(
                        pbkdf2_key_of(PBKDF2_ITERATIONS, password@, salt),
                        nonce,
                        plaintext.spec_bytes(),
                    ),
                ),
    {
        let salt = match random_bytes(&self.rng, SALT_LENGTH) {
            Ok(v) => v,
            Err(_) => {
                return Err(CryptoError::RandomFailed);
            },
        };
        let nonce = match random_bytes(&self.rng, NONCE_LENGTH) {
            Ok(v) => v,
            Err(_) => {
                return Err(CryptoError::RandomFailed);
            },
        };
        let key = derive_key_bytes(PBKDF2_ITERATIONS, password, salt.as_slice());
        let pt = plaintext.as_bytes_vec();
        let ct = match aead_seal(key.as_slice(), nonce.as_slice(), pt.as_slice()) {
            Ok(c) => c,
            Err(_) => {
                return Err(CryptoError::EncryptionFailed(String::from_str("Encryption failed")));
            },
        };
        let mut out = config_magic_bytes();
        append_bytes(&mut out, &salt);
        append_bytes(&mut out, &nonce);
        append_bytes(&mut out, &ct);
        let enc = encode_transport(&out);
        proof {
            assert(out@ =~= config_magic() + salt@ + nonce@ + gcm_seal_of(
                pbkdf2_key_of(PBKDF2_ITERATIONS, password@, salt@),
                nonce@,
                plaintext.spec_bytes(),
            ));
        }
        Ok(enc)
    }

    /// Decrypt an encrypted config blob with a password. Succeeds with the
    /// plaintext exactly when the trimmed input is valid base64 of a
    /// well-formed config frame that opens under the password-derived key to
    /// valid UTF-8; each failure reports which of those steps rejected it.
    pub fn decrypt(&self, encrypted: &str, password: &str) -> (r: CryptoResult<String>)
        ensures
            match r {
                Ok(s) => (b64_decode_of(trim_of(encrypted@)) matches Some(data) && (
                config_frame_ok(data) && (config_plain_of(data, password@) matches Some(p)
                    && utf8_of(p) == Some(s@)))),
                Err(e) => match e {
                    CryptoError::Base64Error(_) => b64_decode_of(trim_of(encrypted@)) is None,
                    CryptoError::InvalidFormat => (b64_decode_of(trim_of(encrypted@)) matches Some(
                        data,
                    ) && !config_frame_ok(data)),
                    CryptoError::InvalidPassword => (b64_decode_of(trim_of(encrypted@)) matches
                        Some(data) && config_frame_ok(data) && config_plain_of(data, password@)
                        is None),
                    CryptoError::DecryptionFailed(_) => (b64_decode_of(trim_of(encrypted@)) matches
                        Some(data) && (config_frame_ok(data) && (config_plain_of(data, password@)
                        matches Some(p) && utf8_of(p) is None))),
                    _ => false,
                },
            },
    {
        let data = match b64_decode(trim_str(encrypted)) {
            Ok(v) => v,
            Err(m) => {
                return Err(CryptoError::Base64Error(m));
            },
        };
        if data.len() < 68 {
            return Err(CryptoError::InvalidFormat);
        }
        let magic = config_magic_bytes();
        if !has_prefix(&data, &magic) {
            return Err(CryptoError::InvalidFormat);
        }
        let salt = sub_bytes(&data, 8, 40);
        let nonce = sub_bytes(&data, 40, 52);
        let ct = sub_bytes(&data, 52, data.len());
        proof {
            assert(ct@ =~= data@.skip(52));
        }
        let key = derive_key_bytes(PBKDF2_ITERATIONS, password, salt.as_slice());
        let plain = match aead_open(key.as_slice(), nonce.as_slice(), ct.as_slice()) {
            Ok(p) => p,
            Err(_) => {
                return Err(CryptoError::InvalidPassword);
            },
        };
        match string_from_utf8(plain) {
            Ok(s) => Ok(s),
            Err(m) => {
                let mut msg = String::from_str("Invalid UTF-8: ");
                msg.append(m.as_str());
                Err(CryptoError::DecryptionFailed(msg))
            },
        }
    }

    /// Whether data is an encrypted config blob: valid base64 whose decoded
    /// bytes carry the config magic header.
    pub fn is_encrypted(&self, data: &str) -> (r: bool)
        ensures
            r == (b64_decode_of(trim_of(data@)) matches Some(d) && d.len() >= 8 && d.take(8)
                == config_magic()),
    {
        match b64_decode(trim_str(data)) {
            Ok(d) => {
                let magic = config_magic_bytes();
                has_prefix(&d, &magic)
            },
            Err(_) => false,
        }
    }

    /// Encrypt plaintext with the fixed application key for device-local
    /// storage. On success the result is the base64 of a storage frame: the
    /// storage magic, a fresh 12-byte nonce, and the sealed plaintext; the
    /// key is derived from the fixed passphrase and salt, so it is the same
    /// on every device.
    pub fn encrypt_storage(&self, plaintext: &str) -> (r: CryptoResult<String>)
        ensures
            r matches Ok(enc) ==> exists|nonce: Seq<u8>|
                nonce.len() == 12 && enc@ == #[trigger] b64_of(
                    storage_magic() + nonce + gcm_seal_of(
                        pbkdf2_key_of(
                            PBKDF2_ITERATIONS,
                            "ZWD#OpsBo7!S3cur3$K3y@2024_Pr0t3ct10n&V1.0^Encrypt10n*Stor@ge~Migr@t10n"@,
                            storage_salt(),
                        ),
                        nonce,
                        plaintext.spec_bytes(),
                    ),
                ),
    {
        let nonce = match random_bytes(&self.rng, NONCE_LENGTH) {
            Ok(v) => v,
            Err(_) => {
                return Err(CryptoError::RandomFailed);
            },
        };
        let salt = storage_salt_bytes();
        let key = derive_key_bytes(PBKDF2_ITERATIONS, storage_passphrase(), salt.as_slice());
        let pt = plaintext.as_bytes_vec();
        let ct = match aead_seal(key.as_slice(), nonce.as_slice(), pt.as_slice()) {
            Ok(c) => c,
            Err(_) => {
                return Err(CryptoError::EncryptionFailed(String::from_str("Encryption failed")));
            },
        };
        let mut out = storage_magic_bytes();
        append_bytes(&mut out, &nonce);
        append_bytes(&mut out, &ct);
        let enc = encode_transport(&out);
        proof {
            assert(out@ =~= storage_magic() + nonce@ + gcm_seal_of(
                pbkdf2_key_of(
                    PBKDF2_ITERATIONS,
                    "ZWD#OpsBo7!S3cur3$K3y@2024_Pr0t3ct10n&V1.0^Encrypt10n*Stor@ge~Migr@t10n"@,
                    storage_salt(),
                ),
                nonce@,
                plaintext.spec_bytes(),
            ));
        }
        Ok(enc)
    }

    /// Decrypt a storage blob with the fixed application key. Succeeds with
    /// the plaintext exactly when the trimmed input is valid base64 of a
    /// well-formed storage frame that opens under the fixed key to valid
    /// UTF-8.
    pub fn decrypt_storage(&self, encrypted: &str) -> (r: CryptoResult<String>)
        ensures
            match r {
                Ok(s) => (b64_decode_of(trim_of(encrypted@)) matches Some(data) && (
                storage_frame_ok(data) && (storage_plain_of(data) matches Some(p) && utf8_of(p)
                    == Some(s@)))),
                Err(e) => match e {
                    CryptoError::Base64Error(_) => b64_decode_of(trim_of(encrypted@)) is None,
                    CryptoError::InvalidFormat => (b64_decode_of(trim_of(encrypted@)) matches Some(
                        data,
                    ) && !storage_frame_ok(data)),
                    CryptoError::DecryptionFailed(_) => (b64_decode_of(trim_of(encrypted@)) matches
                        Some(data) && (storage_frame_ok(data) && (storage_plain_of(data) is None
                        || (storage_plain_of(data) matches Some(p) && utf8_of(p) is None)))),
                    _ => false,
                },
            },
    {
        let data = match b64_decode(trim_str(encrypted)) {
            Ok(v) => v,
            Err(m) => {
                return Err(CryptoError::Base64Error(m));
            },
        };
        if data.len() < 35 {
            return Err(CryptoError::InvalidFormat);
        }
        let magic = storage_magic_bytes();
        if !has_prefix(&data, &magic) {
            return Err(CryptoError::InvalidFormat);
        }
        let nonce = sub_bytes(&data, 7, 19);
        let ct = sub_bytes(&data, 19, data.len());
        proof {
            assert(ct@ =~= data@.skip(19));
        }
        let salt = storage_salt_bytes();
        let key = derive_key_bytes(PBKDF2_ITERATIONS, storage_passphrase(), salt.as_slice());
        let plain = match aead_open(key.as_slice(), nonce.as_slice(), ct.as_slice()) {
            Ok(p) => p,
            Err(_) => {
                return Err(CryptoError::DecryptionFailed(String::from_str("Decryption failed")));
            },
        };
        match string_from_utf8(plain) {
            Ok(s) => Ok(s),
            Err(m) => {
                let mut msg = String::from_str("Invalid UTF-8: ");
                msg.append(m.as_str());
                Err(CryptoError::DecryptionFailed(msg))
            },
        }
    }

    /// Whether data is an encrypted storage blob: valid base64 whose decoded
    /// bytes carry the storage magic header.
    pub fn is_storage_encrypted(&self, data: &str) -> (r: bool)
        ensures
            r == (b64_decode_of(trim_of(data@)) matches Some(d) && d.len() >= 7 && d.take(7)
                == storage_magic()),
    {
        match b64_decode(trim_str(data)) {
            Ok(d) => {
                let magic = storage_magic_bytes();
                has_prefix(&d, &magic)
            },
            Err(_) => false,
        }
    }
}

} // verus!
