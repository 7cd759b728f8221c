//! Password-based encryption for the application's records: Argon2id for
//! password hashing and key derivation, AES-256-GCM for encryption at rest.
//!
//! The framing — a fixed header, a fresh 12-byte nonce, the ciphertext — and
//! every decision around it are verified; the cryptographic primitives are
//! called through trusted wrappers.
use vstd::prelude::*;
use vstd::string::*;

use aes_gcm::aead::{Aead, KeyInit};
use aes_gcm::{Aes256Gcm, Nonce};
use argon2::password_hash::rand_core::OsRng;
use argon2::password_hash::{PasswordHash, PasswordHasher, PasswordVerifier, SaltString};
use argon2::Argon2;
use base64::Engine;
use rand::Rng;

use crate::error::Error;
use crate::text::concat2;

verus! {


// ---------------------------------------------------------------------------
// Trusted wrappers around the cryptographic crates
// ---------------------------------------------------------------------------
#[verifier::external_type_specification]
#[verifier::external_body]
pub struct ExSaltString(SaltString);

/// Relies on `argon2::password_hash::SaltString::generate`: a fresh random
/// salt; nothing can be promised of its value.
#[verifier::external_body]
fn salt_string_generate() -> SaltString {
    SaltString::generate(&mut OsRng)
}

/// Relies on `argon2::Argon2::hash_password` (via the `PasswordHasher`
/// trait): a PHC-format hash string under the given salt, or the library's
/// error text. The salt is opaque here, so nothing is promised of the hash.
#[verifier::external_body]
fn argon2_hash(password: &str, salt: &SaltString) -> Result<String, String> {
    match Argon2::default().hash_password(password.as_bytes(), salt) {
        Ok(h) => Ok(h.to_string()),
        Err(e) => Err(e.to_string()),
    }
}

/// Whether this password matches this PHC hash string: a function of the
/// two alone.
pub uninterp spec fn argon2_verifies(hash: Seq<char>, password: Seq<char>) -> bool;

/// Relies on `argon2::password_hash::PasswordHash::new` and
/// `argon2::Argon2::verify_password`: an unparsable hash is the error; a
/// parsed one verifies deterministically.
#[verifier::external_body]
fn argon2_verify(hash: &str, password: &str) -> (r: Result<bool, String>)
    ensures
        r matches Ok(b) ==> b == argon2_verifies(hash@, password@),
{
    match PasswordHash::new(hash) {
        Ok(parsed) => Ok(
            Argon2::default().verify_password(password.as_bytes(), &parsed).is_ok(),
        ),
        Err(e) => Err(e.to_string()),
    }
}

/// The 32-byte key Argon2id derives from a password and a salt: a function
/// of the two alone.
pub uninterp spec fn argon2_key_of(password: Seq<char>, salt: Seq<u8>) -> Seq<u8>;

/// Relies on `argon2::Argon2::hash_password_into` with a 32-byte output
/// buffer.
#[verifier::external_body]
fn argon2_derive_key(password: &str, salt: &Vec<u8>) -> (r: Result<Vec<u8>, String>)
    ensures
        r matches Ok(k) ==> k@ == argon2_key_of(password@, salt@) && k@.len() == 32,
{
    let mut key = [0u8; 32];
    match Argon2::default().hash_password_into(password.as_bytes(), salt.as_slice(), &mut key) {
        Ok(()) => Ok(key.to_vec()),
        Err(e) => Err(e.to_string()),
    }
}

/// Relies on `rand::Rng::fill` over the operating-system generator: `n`
/// random bytes; nothing can be promised of their values.
#[verifier::external_body]
fn os_random_bytes(n: usize) -> (r: Vec<u8>)
    ensures
        r@.len() == n,
{
    let mut v = vec![0u8; n];
    rand::rngs::OsRng.fill(v.as_mut_slice());
    v
}

/// The standard base64 rendering of a byte sequence.
pub uninterp spec fn b64_of(data: Seq<u8>) -> Seq<char>;

/// What standard base64 decoding yields, when the text is valid.
pub uninterp spec fn b64_decoded(text: Seq<char>) -> Option<Seq<u8>>;

/// Relies on `base64::Engine::encode` with the standard alphabet; decoding
/// an encoding gives the bytes back, as the crate documents.
#[verifier::external_body]
fn b64_encode(data: &Vec<u8>) -> (r: String)
    ensures
        r@ == b64_of(data@),
        b64_decoded(r@) == Some(data@),
{
    base64::engine::general_purpose::STANDARD.encode(data)
}

/// Relies on `base64::Engine::decode` with the standard alphabet; the error
/// carries the crate's own text.
#[verifier::external_body]
fn b64_decode(text: &str) -> (r: Result<Vec<u8>, String>)
    ensures
        r is Ok <==> b64_decoded(text@) is Some,
        r matches Ok(v) ==> b64_decoded(text@) == Some(v@),
{
    match base64::engine::general_purpose::STANDARD.decode(text) {
        Ok(v) => Ok(v),
        Err(e) => Err(e.to_string()),
    }
}

/// The AES-256-GCM ciphertext (with its appended tag) for a key, nonce and
/// plaintext: a function of the three alone.
pub uninterp spec fn aes_gcm_sealed(key: Seq<u8>, nonce: Seq<u8>, plain: Seq<u8>) -> Seq<u8>;

/// What AES-256-GCM decryption yields for a key, nonce and ciphertext:
/// the plaintext when the tag authenticates, nothing otherwise.
pub uninterp spec fn aes_gcm_opened(key: Seq<u8>, nonce: Seq<u8>, cipher: Seq<u8>) -> Option<
    Seq<u8>,
>;

/// Relies on `aes_gcm::Aes256Gcm::new_from_slice` and `Aead::encrypt`: the
/// ciphertext is the plaintext's length plus the 16-byte tag, and
/// decrypting it with the same key and nonce gives the plaintext back, as
/// the crate documents.
#[verifier::external_body]
fn aes256_gcm_encrypt(key: &Vec<u8>, nonce: &Vec<u8>, data: &Vec<u8>) -> (r: Option<Vec<u8>>)
    requires
        key@.len() == 32,
        nonce@.len() == 12,
    ensures
        r matches Some(c) ==> {
            &&& c@ == aes_gcm_sealed(key@, nonce@, data@)
            &&& c@.len() == data@.len() + 16
            &&& aes_gcm_opened(key@, nonce@, c@) == Some(data@)
        },
{
    let cipher = match Aes256Gcm::new_from_slice(key.as_slice()) {
        Ok(c) => c,
        Err(_) => {
            return None;
        },
    };
    cipher.encrypt(Nonce::from_slice(nonce.as_slice()), data.as_slice()).ok()
}

/// Relies on `aes_gcm::Aes256Gcm::new_from_slice` and `Aead::decrypt`:
/// authenticated decryption succeeds or fails as a function of key, nonce
/// and ciphertext alone.
#[verifier::external_body]
fn aes256_gcm_decrypt(key: &Vec<u8>, nonce: &Vec<u8>, cipher_text: &Vec<u8>) -> (r: Option<
    Vec<u8>,
>)
    requires
        key@.len() == 32,
        nonce@.len() == 12,
    ensures
        r is Some <==> aes_gcm_opened(key@, nonce@, cipher_text@) is Some,
        r matches Some(p) ==> aes_gcm_opened(key@, nonce@, cipher_text@) == Some(p@),
{
    let cipher = match Aes256Gcm::new_from_slice(key.as_slice()) {
        Ok(c) => c,
        Err(_) => {
            return None;
        },
    };
    cipher.decrypt(Nonce::from_slice(nonce.as_slice()), cipher_text.as_slice()).ok()
}

/// Relies on `String::from_utf8`: the bytes back as text when they are
/// valid UTF-8.
#[verifier::external_body]
fn bytes_to_string(data: &Vec<u8>) -> (r: Result<String, String>)
    ensures
        r matches Ok(s) ==> vstd::utf8::encode_utf8(s@) == data@,
{
    match std::string::String::from_utf8(data.clone()) {
        Ok(s) => Ok(s),
        Err(e) => Err(e.to_string()),
    }
}

// ---------------------------------------------------------------------------
// Byte helpers
// ---------------------------------------------------------------------------
/// The header that marks an encrypted file: the bytes of `PVMW_ENC_V1`.
pub open spec fn spec_enc_header() -> Seq<u8> {
    seq![80u8, 86u8, 77u8, 87u8, 95u8, 69u8, 78u8, 67u8, 95u8, 86u8, 49u8]
}

fn enc_header() -> (r: Vec<u8>)
    ensures
        r@ == spec_enc_header(),
{
    let mut v: Vec<u8> = Vec::new();
    v.push(80);
    v.push(86);
    v.push(77);
    v.push(87);
    v.push(95);
    v.push(69);
    v.push(78);
    v.push(67);
    v.push(95);
    v.push(86);
    v.push(49);
    proof {
        assert(v@ =~= spec_enc_header());
    }
    v
}

fn byte_range(v: &Vec<u8>, a: usize, b: usize) -> (r: Vec<u8>)
    requires
        a <= b <= v@.len(),
    ensures
        r@ == v@.subrange(a as int, b as int),
{
    let mut out: Vec<u8> = Vec::new();
    let mut i: usize = a;
    while i < b
        invariant
            a <= i <= b <= v@.len(),
            out@ == v@.subrange(a as int, i as int),
        decreases b - i,
    {
        out.push(v[i]);
        proof {
            assert(out@ =~= v@.subrange(a as int, i + 1));
        }
        i = i + 1;
    }
    out
}

fn append_bytes(dst: &mut Vec<u8>, src: &Vec<u8>)
    ensures
        final(dst)@ == old(dst)@ + src@,
{
    let mut i: usize = 0;
    while i < src.len()
        invariant
            i <= src@.len(),
            dst@ == old(dst)@ + src@.take(i as int),
        decreases src@.len() - i,
    {
        dst.push(src[i]);
        proof {
            assert(dst@ =~= old(dst)@ + src@.take(i + 1));
        }
        i = i + 1;
    }
    proof {
        assert(old(dst)@ + src@.take(src@.len() as int) =~= old(dst)@ + src@);
    }
}

fn bytes_eq(a: &Vec<u8>, b: &Vec<u8>) -> (r: bool)
    ensures
        r == (a@ == b@),
{
    if a.len() != b.len() {
        proof {
            assert(a@ != b@);
        }
        return false;
    }
    let mut i: usize = 0;
    while i < a.len()
        invariant
            a@.len() == b@.len(),
            i <= a@.len(),
            forall|j: int| 0 <= j < i ==> a@[j] == b@[j],
        decreases a@.len() - i,
    {
        if a[i] != b[i] {
            return false;
        }
        i = i + 1;
    }
    proof {
        assert(a@ =~= b@);
    }
    true
}

// ---------------------------------------------------------------------------
// Authentication state
// ---------------------------------------------------------------------------
/// Authentication state stored on disk: the password hash and the key-
/// derivation salt, nothing sensitive.
#[derive(Debug, Clone, PartialEq)]
pub struct AuthState {
    /// Version for migration support.
    pub version: u32,
    /// Argon2 password hash, PHC string format (includes its salt).
    pub password_hash: String,
    /// Salt for key derivation, base64 encoded.
    pub key_salt: String,
}

impl AuthState {
    /// Creates a new state for the given password: a fresh password hash
    /// and a fresh 32-byte key-derivation salt.
    pub fn create(password: &str) -> (r: Result<AuthState, Error>)
        ensures
            r matches Ok(a) ==> a.version == 1 && (exists|b: Seq<u8>|
                b.len() == 32 && a.key_salt@ == b64_of(b) && b64_decoded(a.key_salt@) == Some(b)),
            r matches Err(e) ==> e is Auth,
    {
        let salt = salt_string_generate();
        let password_hash = match argon2_hash(password, &salt) {
            Ok(h) => h,
            Err(m) => {
                return Err(Error::Auth(concat2("Failed to hash password: ", m.as_str())));
            },
        };
        let key_salt_bytes = os_random_bytes(32);
        let key_salt = b64_encode(&key_salt_bytes);
        Ok(AuthState { version: 1, password_hash, key_salt })
    }

    /// Whether the password matches the stored hash; an unparsable stored
    /// hash is an authentication error.
    pub fn verify_password(&self, password: &str) -> (r: Result<bool, Error>)
        ensures
            r matches Ok(b) ==> b == argon2_verifies(self.password_hash@, password@),
            r matches Err(e) ==> e is Auth,
    {
        match argon2_verify(self.password_hash.as_str(), password) {
            Ok(b) => Ok(b),
            Err(m) => Err(Error::Auth(concat2("Invalid password hash: ", m.as_str()))),
        }
    }

    /// Derives the 32-byte encryption key from the password and the stored
    /// salt.
    pub fn derive_key(&self, password: &str) -> (r: Result<Vec<u8>, Error>)
        ensures
            r matches Ok(k) ==> (b64_decoded(self.key_salt@) matches Some(salt) && k@
                == argon2_key_of(password@, salt) && k@.len() == 32),
            r matches Err(e) ==> e is Auth,
    {
        let salt = match b64_decode(self.key_salt.as_str()) {
            Ok(s) => s,
            Err(m) => {
                return Err(Error::Auth(concat2("Invalid key salt: ", m.as_str())));
            },
        };
        match argon2_derive_key(password, &salt) {
            Ok(k) => Ok(k),
            Err(m) => Err(Error::Auth(concat2("Key derivation failed: ", m.as_str()))),
        }
    }
}

// ---------------------------------------------------------------------------
// Encryption manager
// ---------------------------------------------------------------------------
/// What decrypting a blob under a key yields: the framing checks, then
/// authenticated decryption of what follows the header and nonce.
pub open spec fn spec_decrypted(key: Seq<u8>, blob: Seq<u8>) -> Option<Seq<u8>> {
    if blob.len() < 11 + 12 + 16 {
        None
    } else if blob.take(11) != spec_enc_header() {
        None
    } else {
        aes_gcm_opened(key, blob.subrange(11, 23), blob.skip(23))
    }
}

/// Encryption manager: holds the derived 32-byte key.
#[derive(Clone)]
pub struct EncryptionManager {
    pub key: Vec<u8>,
}

impl EncryptionManager {
    /// Takes a derived 32-byte key.
    pub fn new(key: Vec<u8>) -> (r: Self)
        requires
            key@.len() == 32,
        ensures
            r.key == key,
            r.key@.len() == 32,
    {
        Self { key }
    }

    /// Derives the key from the password and the stored authentication
    /// state.
    pub fn from_password(password: &str, auth_state: &AuthState) -> (r: Result<Self, Error>)
        ensures
            r matches Ok(m) ==> m.key@.len() == 32 && (b64_decoded(auth_state.key_salt@)
                matches Some(salt) && m.key@ == argon2_key_of(password@, salt)),
            r matches Err(e) ==> e is Auth,
    {
        let key = auth_state.derive_key(password)?;
        Ok(Self::new(key))
    }

    /// Encrypts data under a fresh random nonce. The result carries the
    /// header, the nonce and the sealed bytes — and decrypting it with the
    /// same key gives the data back.
    pub fn encrypt(&self, data: &Vec<u8>) -> (r: Result<Vec<u8>, Error>)
        requires
            self.key@.len() == 32,
        ensures
            r matches Ok(blob) ==> blob@.len() == data@.len() + 39 && spec_decrypted(
                self.key@,
                blob@,
            ) == Some(data@),
            r matches Err(e) ==> (e matches Error::Auth(m) && m@ == "Encryption failed"@),
    {
        let nonce = os_random_bytes(12);
        let sealed = match aes256_gcm_encrypt(&self.key, &nonce, data) {
            Some(c) => c,
            None => {
                return Err(Error::Auth(String::from_str("Encryption failed")));
            },
        };
        let mut blob = enc_header();
        append_bytes(&mut blob, &nonce);
        append_bytes(&mut blob, &sealed);
        proof {
            assert(blob@.take(11) =~= spec_enc_header());
            assert(blob@.subrange(11, 23) =~= nonce@);
            assert(blob@.skip(23) =~= sealed@);
        }
        Ok(blob)
    }

    /// Decrypts a blob: the framing is checked, then the tag must
    /// authenticate; each failure names its reason.
    pub fn decrypt(&self, data: &Vec<u8>) -> (r: Result<Vec<u8>, Error>)
        requires
            self.key@.len() == 32,
        ensures
            r is Ok <==> spec_decrypted(self.key@, data@) is Some,
            r matches Ok(p) ==> spec_decrypted(self.key@, data@) == Some(p@),
            data@.len() < 39 ==> (r matches Err(e) && e matches Error::Auth(m) && m@
                == "Invalid encrypted data: too short"@),
            data@.len() >= 39 && data@.take(11) != spec_enc_header() ==> (r matches Err(e) && e
                matches Error::Auth(m) && m@ == "Invalid encrypted data: wrong header"@),
            data@.len() >= 39 && data@.take(11) == spec_enc_header() && aes_gcm_opened(
                self.key@,
                data@.subrange(11, 23),
                data@.skip(23),
            ) is None ==> (r matches Err(e) && e matches Error::Auth(m) && m@
                == "Decryption failed: wrong password or corrupted data"@),
    {
        if data.len() < 39 {
            return Err(Error::Auth(String::from_str("Invalid encrypted data: too short")));
        }
        let head = byte_range(data, 0, 11);
        let header = enc_header();
        proof {
            assert(data@.subrange(0, 11) =~= data@.take(11));
        }
        if !bytes_eq(&head, &header) {
            return Err(Error::Auth(String::from_str("Invalid encrypted data: wrong header")));
        }
        let nonce = byte_range(data, 11, 23);
        let cipher_text = byte_range(data, 23, data.len());
        proof {
            assert(data@.subrange(23, data@.len() as int) =~= data@.skip(23));
        }
        match aes256_gcm_decrypt(&self.key, &nonce, &cipher_text) {
            Some(p) => Ok(p),
            None => Err(
                Error::Auth(
                    String::from_str("Decryption failed: wrong password or corrupted data"),
                ),
            ),
        }
    }

    /// Whether a blob carries the encrypted-file header.
    pub fn is_encrypted(data: &Vec<u8>) -> (r: bool)
        ensures
            r == (data@.len() >= 11 && data@.take(11) == spec_enc_header()),
    {
        if data.len() < 11 {
            return false;
        }
        let head = byte_range(data, 0, 11);
        let header = enc_header();
        proof {
            assert(data@.subrange(0, 11) =~= data@.take(11));
        }
        bytes_eq(&head, &header)
    }

    /// Encrypts text and renders the blob in base64.
    pub fn encrypt_string(&self, text: &str) -> (r: Result<String, Error>)
        requires
            self.key@.len() == 32,
        ensures
            r matches Ok(s) ==> exists|blob: Seq<u8>|
                s@ == b64_of(blob) && spec_decrypted(self.key@, blob) == Some(
                    vstd::utf8::encode_utf8(text@),
                ),
            r matches Err(e) ==> e is Auth,
    {
        let bytes = text.as_bytes_vec();
        let blob = self.encrypt(&bytes)?;
        Ok(b64_encode(&blob))
    }

    /// Decodes base64 and decrypts the blob back to text.
    pub fn decrypt_string(&self, encrypted_base64: &str) -> (r: Result<String, Error>)
        requires
            self.key@.len() == 32,
        ensures
            r matches Ok(s) ==> (b64_decoded(encrypted_base64@) matches Some(blob)
                && spec_decrypted(self.key@, blob) == Some(vstd::utf8::encode_utf8(s@))),
            r matches Err(e) ==> e is Auth,
    {
        let blob = match b64_decode(encrypted_base64) {
            Ok(v) => v,
            Err(m) => {
                return Err(Error::Auth(concat2("Invalid base64: ", m.as_str())));
            },
        };
        let plain = self.decrypt(&blob)?;
        match bytes_to_string(&plain) {
            Ok(s) => Ok(s),
            Err(m) => Err(Error::Auth(concat2("Invalid UTF-8: ", m.as_str()))),
        }
    }
}

} // verus!
