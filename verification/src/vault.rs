//! Password-protected credential vault.
//!
//! A vault blob is `salt (16 bytes) ‖ nonce (12 bytes) ‖ ciphertext-and-tag`.
//! The key is derived from the password and the salt with Argon2id; the
//! payload is sealed with AES-256-GCM, whose authentication tag makes
//! tampering and wrong passwords detectable.

use vstd::prelude::*;
use aes_gcm::aead::Aead;
use aes_gcm::KeyInit;

verus! {

/// Length in bytes of the salt stored at the front of a vault blob.
pub const SALT_LEN: usize = 16;

/// Length in bytes of the nonce stored after the salt.
pub const NONCE_LEN: usize = 12;

/// Length in bytes of the AES-256-GCM authentication tag at the end of the
/// ciphertext region.
pub const TAG_LEN: usize = 16;

/// Length in bytes of the derived AES-256 key.
pub const KEY_LEN: usize = 32;

/// Errors raised by vault operations.
#[derive(Clone, Copy, Debug, PartialEq, Eq, Structural)]
pub enum VaultError {
    /// Key derivation or cipher setup could not run.
    CryptoError,
    /// The authentication tag did not verify: wrong password, truncated or
    /// corrupted blob. No partial plaintext is ever returned in this case.
    AuthenticationFailure,
}

/// The key that Argon2id derives from a password and a salt. The derivation is
/// a function of the two arguments alone.
pub uninterp spec fn key_of(password: Seq<u8>, salt: Seq<u8>) -> Seq<u8>;

/// The ciphertext-and-tag that AES-256-GCM produces from a key, a nonce and a
/// plaintext. Encryption is deterministic in the three arguments.
pub uninterp spec fn cipher_of(key: Seq<u8>, nonce: Seq<u8>, plaintext: Seq<u8>) -> Seq<u8>;

/// Relies on rand::fill over the thread RNG: a cryptographically secure
/// generator fills the buffer. Nothing can be promised of the values; only
/// the length is stated.
#[verifier::external_body]
fn random_bytes(len: usize) -> (r: Vec<u8>)
    ensures
        r@.len() == len,
{
    let mut buf = vec![0u8; len];
    rand::fill(&mut buf[..]);
    buf
}

/// Relies on argon2::Argon2::hash_password_into with the library-default
/// Argon2id parameters: on success the output is a function of the password
/// and the salt alone, written here as `key_of`. With a 16-byte salt and a
/// 32-byte output, its input validation rejects only a password longer than
/// 2^32 - 1 bytes, so success is owed below that bound (allocation of the
/// fixed working memory aside).
#[verifier::external_body]
fn derive_key(password: &Vec<u8>, salt: &Vec<u8>) -> (r: Result<Vec<u8>, VaultError>)
    requires
        salt@.len() == SALT_LEN,
    ensures
        r matches Ok(key) ==> key@ == key_of(password@, salt@) && key@.len() == KEY_LEN,
        password@.len() <= 0xFFFF_FFFF ==> r is Ok,
{
    let mut key = [0u8; 32];
    match argon2::Argon2::default().hash_password_into(password, salt, &mut key) {
        Ok(()) => Ok(key.to_vec()),
        Err(_) => Err(VaultError::CryptoError),
    }
}

/// Relies on aes_gcm::Aes256Gcm (KeyInit::new_from_slice, Aead::encrypt):
/// AES-256-GCM encryption with no associated data is deterministic in key,
/// nonce and plaintext — written here as `cipher_of` — and appends a 16-byte
/// authentication tag to the ciphertext. With a 32-byte key and 12-byte
/// nonce it rejects only a plaintext above GCM's limit of 2^36 - 32 bytes,
/// so success is owed below that bound.
#[verifier::external_body]
fn aes_gcm_encrypt(key: &Vec<u8>, nonce: &Vec<u8>, plaintext: &Vec<u8>) -> (r: Result<Vec<u8>, VaultError>)
    requires
        key@.len() == KEY_LEN,
        nonce@.len() == NONCE_LEN,
    ensures
        r matches Ok(ct) ==> ct@ == cipher_of(key@, nonce@, plaintext@) && ct@.len() == plaintext@.len()
            + TAG_LEN,
        plaintext@.len() <= 0xF_FFFF_FFE0 ==> r is Ok,
{
    let cipher = match aes_gcm::Aes256Gcm::new_from_slice(key) {
        Ok(c) => c,
        Err(_) => return Err(VaultError::CryptoError),
    };
    let nonce_arr: [u8; 12] = match nonce.as_slice().try_into() {
        Ok(a) => a,
        Err(_) => return Err(VaultError::CryptoError),
    };
    match cipher.encrypt(&aes_gcm::aead::Nonce::<aes_gcm::Aes256Gcm>::from(nonce_arr), plaintext.as_slice()) {
        Ok(ct) => Ok(ct),
        Err(_) => Err(VaultError::CryptoError),
    }
}

/// Relies on aes_gcm::Aes256Gcm (KeyInit::new_from_slice, Aead::decrypt):
/// decryption verifies the authentication tag, so it succeeds exactly on the
/// ciphertexts that encryption produces under the same key and nonce, and then
/// returns the plaintext that produced them; on a tag mismatch it fails and
/// returns no data.
#[verifier::external_body]
fn aes_gcm_decrypt(key: &Vec<u8>, nonce: &Vec<u8>, ciphertext: &Vec<u8>) -> (r: Result<Vec<u8>, VaultError>)
    requires
        key@.len() == KEY_LEN,
        nonce@.len() == NONCE_LEN,
    ensures
        r matches Ok(pt) ==> ciphertext@ == cipher_of(key@, nonce@, pt@),
        r matches Ok(pt) ==> forall|q: Seq<u8>|
            ciphertext@ == #[trigger] cipher_of(key@, nonce@, q) ==> q == pt@,
        r matches Err(e) ==> e == VaultError::AuthenticationFailure && forall|q: Seq<u8>|
            ciphertext@ != #[trigger] cipher_of(key@, nonce@, q),
{
    let cipher = match aes_gcm::Aes256Gcm::new_from_slice(key) {
        Ok(c) => c,
        Err(_) => return Err(VaultError::AuthenticationFailure),
    };
    let nonce_arr: [u8; 12] = match nonce.as_slice().try_into() {
        Ok(a) => a,
        Err(_) => return Err(VaultError::AuthenticationFailure),
    };
    match cipher.decrypt(&aes_gcm::aead::Nonce::<aes_gcm::Aes256Gcm>::from(nonce_arr), ciphertext.as_slice()) {
        Ok(pt) => Ok(pt),
        Err(_) => Err(VaultError::AuthenticationFailure),
    }
}

/// The byte layout of a vault blob built from the given password, salt, nonce
/// and plaintext.
pub open spec fn vault_blob_spec(
    password: Seq<u8>,
    salt: Seq<u8>,
    nonce: Seq<u8>,
    plaintext: Seq<u8>,
) -> Seq<u8> {
    salt + nonce + cipher_of(key_of(password, salt), nonce, plaintext)
}

/// Whether `blob` is a well-formed vault blob sealing `plaintext` under
/// `password` (for some salt and nonce of the fixed lengths).
pub open spec fn is_vault_blob_for(blob: Seq<u8>, password: Seq<u8>, plaintext: Seq<u8>) -> bool {
    exists|salt: Seq<u8>, nonce: Seq<u8>|
        salt.len() == SALT_LEN && nonce.len() == NONCE_LEN && blob == #[trigger] vault_blob_spec(
            password,
            salt,
            nonce,
            plaintext,
        )
}

/// Copies `v[start..end]` into a fresh vector.
fn subvec(v: &Vec<u8>, start: usize, end: usize) -> (r: Vec<u8>)
    requires
        start <= end <= v@.len(),
    ensures
        r@ == v@.subrange(start as int, end as int),
{
    let mut r: Vec<u8> = Vec::new();
    let mut i: usize = start;
    while i < end
        invariant
            start <= i <= end <= v@.len(),
            r@ == v@.subrange(start as int, i as int),
        decreases end - i,
    {
        r.push(v[i]);
        i = i + 1;
        proof {
            assert(v@.subrange(start as int, i as int) =~= v@.subrange(
                start as int,
                i - 1,
            ).push(v@[i - 1]));
        }
    }
    r
}

/// Encrypts `plaintext` under `password` into a vault blob.
///
/// A fresh random salt and nonce are drawn on every call, so two encryptions
/// of the same inputs are expected to produce different blobs and the same
/// (key, nonce) pair is never knowingly reused. Success is owed for every
/// password up to 2^32 - 1 bytes and plaintext up to GCM's limit of
/// 2^36 - 32 bytes; beyond those bounds the key derivation or the cipher
/// refuses to run.
pub fn encrypt(plaintext: &Vec<u8>, password: &Vec<u8>) -> (r: Result<Vec<u8>, VaultError>)
    ensures
        r matches Ok(blob) ==> is_vault_blob_for(blob@, password@, plaintext@),
        r matches Ok(blob) ==> blob@.len() == plaintext@.len() + SALT_LEN + NONCE_LEN + TAG_LEN,
        r matches Err(e) ==> e == VaultError::CryptoError,
        password@.len() <= 0xFFFF_FFFF && plaintext@.len() <= 0xF_FFFF_FFE0 ==> r is Ok,
{
    let mut salt = random_bytes(SALT_LEN);
    let ghost salt0 = salt@;
    let mut nonce = random_bytes(NONCE_LEN);
    let ghost nonce0 = nonce@;
    let key = match derive_key(password, &salt) {
        Ok(k) => k,
        Err(_) => return Err(VaultError::CryptoError),
    };
    let mut ct = match aes_gcm_encrypt(&key, &nonce, plaintext) {
        Ok(c) => c,
        Err(_) => return Err(VaultError::CryptoError),
    };
    let mut blob: Vec<u8> = Vec::new();
    blob.append(&mut salt);
    blob.append(&mut nonce);
    blob.append(&mut ct);
    proof {
        assert(blob@ == vault_blob_spec(password@, salt0, nonce0, plaintext@));
    }
    Ok(blob)
}

/// Decrypts a vault blob with the key already derived from the embedded salt.
///
/// Success is owed exactly on the blobs whose ciphertext region was produced
/// by AES-256-GCM under `key` and the embedded nonce; everything else is an
/// authentication failure.
pub fn decrypt_with_key(key: &Vec<u8>, blob: &Vec<u8>) -> (r: Result<Vec<u8>, VaultError>)
    requires
        key@.len() == KEY_LEN,
    ensures
        r matches Ok(pt) ==> blob@.len() >= SALT_LEN + NONCE_LEN && blob@.subrange(
            (SALT_LEN + NONCE_LEN) as int,
            blob@.len() as int,
        ) == cipher_of(key@, blob@.subrange(SALT_LEN as int, (SALT_LEN + NONCE_LEN) as int), pt@),
        forall|pt: Seq<u8>|
            blob@.len() >= SALT_LEN + NONCE_LEN && blob@.subrange(
                (SALT_LEN + NONCE_LEN) as int,
                blob@.len() as int,
            ) == #[trigger] cipher_of(
                key@,
                blob@.subrange(SALT_LEN as int, (SALT_LEN + NONCE_LEN) as int),
                pt,
            ) ==> (r matches Ok(p) && p@ == pt),
        r matches Err(e) ==> e == VaultError::AuthenticationFailure,
{
    if blob.len() < SALT_LEN + NONCE_LEN {
        return Err(VaultError::AuthenticationFailure);
    }
    let nonce = subvec(blob, SALT_LEN, SALT_LEN + NONCE_LEN);
    let ct = subvec(blob, SALT_LEN + NONCE_LEN, blob.len());
    aes_gcm_decrypt(key, &nonce, &ct)
}

/// Decrypts a vault blob with a password.
///
/// The blob is split at the fixed offsets 16 and 28 into salt, nonce and
/// ciphertext; the key is derived from the embedded salt and the supplied
/// password. For every password up to 2^32 - 1 bytes — below which key
/// derivation is owed to run — a genuine blob for this password decrypts to
/// exactly its plaintext, and any other blob — wrong password, truncated or
/// corrupted — fails with `AuthenticationFailure`; no partial plaintext is
/// ever returned.
pub fn decrypt(blob: &Vec<u8>, password: &Vec<u8>) -> (r: Result<Vec<u8>, VaultError>)
    ensures
        r matches Ok(pt) ==> is_vault_blob_for(blob@, password@, pt@),
        forall|pt: Seq<u8>|
            #[trigger] is_vault_blob_for(blob@, password@, pt) ==> (r matches Ok(p) && p@ == pt)
                || (r matches Err(e) && e == VaultError::CryptoError),
        password@.len() <= 0xFFFF_FFFF ==> forall|pt: Seq<u8>|
            #[trigger] is_vault_blob_for(blob@, password@, pt) ==> (r matches Ok(p) && p@ == pt),
        password@.len() <= 0xFFFF_FFFF ==> (r matches Err(e) ==> e
            == VaultError::AuthenticationFailure),
        blob@.len() < SALT_LEN + NONCE_LEN ==> (r matches Err(e) && e
            == VaultError::AuthenticationFailure),
{
    if blob.len() < SALT_LEN + NONCE_LEN {
        proof {
            assert forall|pt: Seq<u8>| !is_vault_blob_for(blob@, password@, pt) by {
                if is_vault_blob_for(blob@, password@, pt) {
                    let (s, n) = choose|s: Seq<u8>, n: Seq<u8>|
                        s.len() == SALT_LEN && n.len() == NONCE_LEN && blob@ == vault_blob_spec(
                            password@,
                            s,
                            n,
                            pt,
                        );
                    assert(blob@.len() >= SALT_LEN + NONCE_LEN);
                }
            }
        }
        return Err(VaultError::AuthenticationFailure);
    }
    let salt = subvec(blob, 0, SALT_LEN);
    let key = match derive_key(password, &salt) {
        Ok(k) => k,
        Err(_) => return Err(VaultError::CryptoError),
    };
    let r = decrypt_with_key(&key, blob);
    proof {
        lemma_decrypt_contract(blob@, password@, key@, r);
    }
    r
}

/// Relates the contract of `decrypt_with_key` back to `is_vault_blob_for`,
/// given that `key` was derived from the blob's leading 16 bytes.
proof fn lemma_decrypt_contract(
    blob: Seq<u8>,
    password: Seq<u8>,
    key: Seq<u8>,
    r: Result<Vec<u8>, VaultError>,
)
    requires
        blob.len() >= SALT_LEN + NONCE_LEN,
        key == key_of(password, blob.subrange(0, SALT_LEN as int)),
        r matches Ok(pt) ==> blob.subrange((SALT_LEN + NONCE_LEN) as int, blob.len() as int)
            == cipher_of(key, blob.subrange(SALT_LEN as int, (SALT_LEN + NONCE_LEN) as int), pt@),
        forall|pt: Seq<u8>|
            blob.subrange((SALT_LEN + NONCE_LEN) as int, blob.len() as int) == #[trigger] cipher_of(
                key,
                blob.subrange(SALT_LEN as int, (SALT_LEN + NONCE_LEN) as int),
                pt,
            ) ==> (r matches Ok(p) && p@ == pt),
    ensures
        r matches Ok(pt) ==> is_vault_blob_for(blob, password, pt@),
        forall|pt: Seq<u8>| #[trigger] is_vault_blob_for(blob, password, pt) ==> (r matches Ok(p)
            && p@ == pt),
{
    let salt0 = blob.subrange(0, SALT_LEN as int);
    let nonce0 = blob.subrange(SALT_LEN as int, (SALT_LEN + NONCE_LEN) as int);
    let ct0 = blob.subrange((SALT_LEN + NONCE_LEN) as int, blob.len() as int);
    match r {
        Ok(pt) => {
            assert(blob =~= salt0 + nonce0 + ct0);
            assert(blob == vault_blob_spec(password, salt0, nonce0, pt@));
            assert(is_vault_blob_for(blob, password, pt@));
        },
        Err(_) => {},
    }
    assert forall|pt: Seq<u8>| #[trigger] is_vault_blob_for(blob, password, pt) implies (r matches Ok(p)
        && p@ == pt) by {
        let (s, n) = choose|s: Seq<u8>, n: Seq<u8>|
            s.len() == SALT_LEN && n.len() == NONCE_LEN && blob == #[trigger] vault_blob_spec(
                password,
                s,
                n,
                pt,
            );
        let c = cipher_of(key_of(password, s), n, pt);
        assert(blob == s + n + c);
        assert(s =~= salt0);
        assert(n =~= nonce0);
        assert(c =~= ct0);
        assert(ct0 == cipher_of(key, nonce0, pt));
    }
}

/// Round-trip law at the model level: a blob assembled from a password, a
/// 16-byte salt, a 12-byte nonce and a plaintext is a vault blob for exactly
/// that password and plaintext, so `decrypt` is owed its plaintext back.
pub proof fn lemma_vault_round_trip(
    password: Seq<u8>,
    salt: Seq<u8>,
    nonce: Seq<u8>,
    plaintext: Seq<u8>,
)
    requires
        salt.len() == SALT_LEN,
        nonce.len() == NONCE_LEN,
    ensures
        is_vault_blob_for(vault_blob_spec(password, salt, nonce, plaintext), password, plaintext),
{
}

} // verus!
