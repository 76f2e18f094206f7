//! AES-256-GCM (no associated data) through the `aes-gcm` crate.
use vstd::prelude::*;

use aes_gcm::aead::{Aead, AeadCore, KeyInit, OsRng};
use aes_gcm::Aes256Gcm;

verus! {

/// Length of an AES-256 key in bytes.
pub const KEY_SIZE: usize = 32;

/// Length of an AES-GCM nonce in bytes.
pub const NONCE_SIZE: usize = 12;

/// Length of the authentication tag appended to each ciphertext.
pub const TAG_SIZE: usize = 16;

/// The longest plaintext `aes-gcm` accepts (`P_MAX`, 2^36 bytes).
pub const MAX_PLAINTEXT_LEN: u64 = 0x10_0000_0000;

/// The ciphertext (with its tag appended) that `Aes256Gcm` makes of
/// `plaintext` under `key` and `nonce`.
pub uninterp spec fn aes256gcm_ciphertext(key: Seq<u8>, nonce: Seq<u8>, plaintext: Seq<u8>) -> Seq<u8>;

/// What `Aes256Gcm` decryption makes of `ciphertext` under `key` and `nonce`
/// (`None` where authentication or a length check fails).
pub uninterp spec fn aes256gcm_plaintext(key: Seq<u8>, nonce: Seq<u8>, ciphertext: Seq<u8>) -> Option<Seq<u8>>;

/// `Aes256Gcm::generate_nonce(&mut OsRng)`: fresh random nonce bytes; only
/// their length is stated.
#[verifier::external_body]
pub(crate) fn random_nonce() -> (r: Vec<u8>)
    ensures
        r@.len() == NONCE_SIZE,
{
    Aes256Gcm::generate_nonce(&mut OsRng).to_vec()
}

/// `Aead::encrypt` of `Aes256Gcm` keyed with `key`: its source refuses a
/// plaintext longer than `MAX_PLAINTEXT_LEN` and otherwise returns the
/// ciphertext followed by the tag. `Key::from_slice` and `Nonce::from_slice`
/// panic on other lengths, which `requires` leaves out.
#[verifier::external_body]
pub(crate) fn aes256gcm_encrypt(key: &[u8], nonce: &[u8], plaintext: &[u8]) -> (r: Option<Vec<u8>>)
    requires
        key@.len() == KEY_SIZE,
        nonce@.len() == NONCE_SIZE,
    ensures
        r is Some <==> plaintext@.len() <= MAX_PLAINTEXT_LEN,
        r matches Some(c) ==> {
            &&& c@ == aes256gcm_ciphertext(key@, nonce@, plaintext@)
            &&& c@.len() == plaintext@.len() + TAG_SIZE
        },
{
    let cipher = Aes256Gcm::new(aes_gcm::Key::<Aes256Gcm>::from_slice(key));
    cipher.encrypt(aes_gcm::Nonce::from_slice(nonce), plaintext).ok()
}

/// `Aead::decrypt` of `Aes256Gcm` keyed with `key`: the result is the named
/// decryption, and (the AEAD guarantee the crate documents) decrypting what
/// `encrypt` made of a plaintext under the same key and nonce gives that
/// plaintext back.
#[verifier::external_body]
pub(crate) fn aes256gcm_decrypt(key: &[u8], nonce: &[u8], ciphertext: &[u8]) -> (r: Option<Vec<u8>>)
    requires
        key@.len() == KEY_SIZE,
        nonce@.len() == NONCE_SIZE,
    ensures
        r is Some <==> aes256gcm_plaintext(key@, nonce@, ciphertext@) is Some,
        r matches Some(v) ==> aes256gcm_plaintext(key@, nonce@, ciphertext@) == Some(v@),
        r is None ==> forall|p: Seq<u8>|
            p.len() <= MAX_PLAINTEXT_LEN ==> ciphertext@ != #[trigger] aes256gcm_ciphertext(key@, nonce@, p),
        r matches Some(v) ==> forall|p: Seq<u8>|
            p.len() <= MAX_PLAINTEXT_LEN && ciphertext@ == #[trigger] aes256gcm_ciphertext(key@, nonce@, p)
                ==> v@ == p,
{
    let cipher = Aes256Gcm::new(aes_gcm::Key::<Aes256Gcm>::from_slice(key));
    cipher.decrypt(aes_gcm::Nonce::from_slice(nonce), ciphertext).ok()
}

} // verus!
