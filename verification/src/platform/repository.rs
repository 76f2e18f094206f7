//! Encrypted storage of public keys and secret key shares.
//!
//! What is stored is `nonce ‖ AES-256-GCM(master key, nonce, bincode bytes)`,
//! the master key coming base64-encoded from the environment. Reading the
//! environment and the files is left to the caller: the functions here take
//! the variable's value and the file's contents, and hand back the bytes to
//! write.
use vstd::prelude::*;

use threshold_crypto::PublicKeySet;
use threshold_crypto::SecretKeyShare as BlsSecretKeyShare;
use vstd::string::StringExecFns;

use crate::model::key::{PublicKey, SecretKeyShare};
use crate::model::value::ShareIndex;
use crate::platform::aead::{
    aes256gcm_ciphertext, aes256gcm_decrypt, aes256gcm_encrypt, aes256gcm_plaintext, random_nonce,
    KEY_SIZE, MAX_PLAINTEXT_LEN, NONCE_SIZE, TAG_SIZE,
};
use crate::platform::encoding::{base64_decode, base64_decoding};
use crate::platform::text::{decimal, is_blank, is_blank_text, lemma_decimal_injective, push_decimal};
use crate::platform::threshold::{
    commitment_len, deserialize_public_key_set, deserialize_secret_key_share,
    public_key_set_decoding, secret_key_share_decoding, serialize_public_key_set,
    serialize_secret_key_share,
};

verus! {

/// The name of the environment variable that holds the master key.
pub const MASTER_KEY_VAR: &'static str = "DSIGN_MASTER_KEY";

/// A byte result seen through the bytes' view.
pub open spec fn bytes_result<E>(r: Result<Vec<u8>, E>) -> Result<Seq<u8>, E> {
    match r {
        Ok(v) => Ok(v@),
        Err(e) => Err(e),
    }
}

/// Encrypts and decrypts stored key material under the master key.
#[derive(Clone)]
pub struct Crypter;

#[derive(Debug)]
pub enum CrypterError {
    FailedGetEnvVar,
    FailedBase64Decode,
    InvalidKeyLength,
    FailedEncrypt,
    FailedDecrypt,
}

/// The master key that the environment variable's value (`None`: unset)
/// gives: its base64 decoding, which must be 32 bytes long.
pub open spec fn master_key_from(master_key: Option<&str>) -> Result<Seq<u8>, CrypterError> {
    match master_key {
        None => Err(CrypterError::FailedGetEnvVar),
        Some(text) => match base64_decoding(text@) {
            None => Err(CrypterError::FailedBase64Decode),
            Some(key) => if key.len() == KEY_SIZE {
                Ok(key)
            } else {
                Err(CrypterError::InvalidKeyLength)
            },
        },
    }
}

/// The stored form of `plaintext` under `key` with `nonce`: the nonce
/// followed by the AES-256-GCM ciphertext.
pub open spec fn sealed(key: Seq<u8>, nonce: Seq<u8>, plaintext: Seq<u8>) -> Seq<u8> {
    nonce + aes256gcm_ciphertext(key, nonce, plaintext)
}

/// What encrypting `plaintext` with the given nonce yields.
pub open spec fn encryption(master_key: Option<&str>, nonce: Seq<u8>, plaintext: Seq<u8>) -> Result<
    Seq<u8>,
    CrypterError,
> {
    match master_key_from(master_key) {
        Err(e) => Err(e),
        Ok(key) => if plaintext.len() <= MAX_PLAINTEXT_LEN {
            Ok(sealed(key, nonce, plaintext))
        } else {
            Err(CrypterError::FailedEncrypt)
        },
    }
}

/// What decrypting stored bytes yields: the first `NONCE_SIZE` bytes are the
/// nonce, the rest the ciphertext.
pub open spec fn decryption(master_key: Option<&str>, stored: Seq<u8>) -> Result<Seq<u8>, CrypterError> {
    match master_key_from(master_key) {
        Err(e) => Err(e),
        Ok(key) => match aes256gcm_plaintext(
            key,
            stored.take(NONCE_SIZE as int),
            stored.skip(NONCE_SIZE as int),
        ) {
            Some(p) => Ok(p),
            None => Err(CrypterError::FailedDecrypt),
        },
    }
}

/// `stored` is what encrypting `plaintext` under the master key gave, with
/// some nonce.
pub open spec fn is_encryption_of(master_key: Option<&str>, stored: Seq<u8>, plaintext: Seq<u8>) -> bool {
    exists|nonce: Seq<u8>|
        nonce.len() == NONCE_SIZE && #[trigger] encryption(master_key, nonce, plaintext) == Ok::<
            Seq<u8>,
            CrypterError,
        >(stored)
}

/// When stored bytes can be decrypted at all: under a valid master key they
/// must hold at least a whole nonce, since they are split after it (a missing
/// or bad master key is reported before any split).
pub open spec fn decryptable(master_key: Option<&str>, stored: Seq<u8>) -> bool {
    master_key_from(master_key) is Ok ==> stored.len() >= NONCE_SIZE
}

/// `stored` is what encrypting the bincode form of `public_key_set` under the
/// master key gave.
pub open spec fn holds_public_key(
    master_key: Option<&str>,
    stored: Seq<u8>,
    public_key_set: PublicKeySet,
) -> bool {
    exists|plaintext: Seq<u8>|
        #[trigger] is_encryption_of(master_key, stored, plaintext) && public_key_set_decoding(plaintext)
            == Some(public_key_set)
}

/// `stored` is what encrypting the bincode form of `share` under the master
/// key gave.
pub open spec fn holds_secret_key_share(
    master_key: Option<&str>,
    stored: Seq<u8>,
    share: BlsSecretKeyShare,
) -> bool {
    exists|plaintext: Seq<u8>|
        #[trigger] is_encryption_of(master_key, stored, plaintext) && secret_key_share_decoding(plaintext)
            == Some(share)
}

/// The public key set that the contents of a public key file (`None`: not
/// readable) give: they decrypt under the master key into bytes that decode
/// into it.
pub open spec fn stored_public_key_set(stored: Option<&[u8]>, master_key: Option<&str>) -> Option<
    PublicKeySet,
> {
    match stored {
        Some(bytes) => match decryption(master_key, bytes@) {
            Ok(plaintext) => public_key_set_decoding(plaintext),
            Err(_) => None,
        },
        None => None,
    }
}

/// The secret key share that the contents of a share file (`None`: not
/// readable) give.
pub open spec fn stored_secret_key_share(stored: Option<&[u8]>, master_key: Option<&str>) -> Option<
    BlsSecretKeyShare,
> {
    match stored {
        Some(bytes) => match decryption(master_key, bytes@) {
            Ok(plaintext) => secret_key_share_decoding(plaintext),
            Err(_) => None,
        },
        None => None,
    }
}

/// Whether the contents of a public key file give a public key set.
pub open spec fn public_key_loads(stored: Option<&[u8]>, master_key: Option<&str>) -> bool {
    stored_public_key_set(stored, master_key) is Some
}

/// Whether the contents of a share file give a secret key share.
pub open spec fn secret_key_share_loads(stored: Option<&[u8]>, master_key: Option<&str>) -> bool {
    stored_secret_key_share(stored, master_key) is Some
}

/// What an encryption stored can be decrypted: it starts with its nonce.
pub proof fn lemma_encryption_decryptable(master_key: Option<&str>, stored: Seq<u8>, plaintext: Seq<u8>)
    requires
        is_encryption_of(master_key, stored, plaintext),
    ensures
        decryptable(master_key, stored),
{
    let nonce = choose|nonce: Seq<u8>|
        nonce.len() == NONCE_SIZE && #[trigger] encryption(master_key, nonce, plaintext) == Ok::<
            Seq<u8>,
            CrypterError,
        >(stored);
    let key = master_key_from(master_key)->Ok_0;
    assert(stored == nonce + aes256gcm_ciphertext(key, nonce, plaintext));
}

/// Whether stored contents (`None`: not readable) can be handed to a
/// decryption: tests `decryptable` on them.
pub fn is_decryptable(master_key: Option<&str>, stored: Option<&[u8]>) -> (r: bool)
    ensures
        r == (stored matches Some(bytes) ==> decryptable(master_key, bytes@)),
{
    match stored {
        None => true,
        Some(bytes) => match Crypter.load_master_key(master_key) {
            Ok(_) => bytes.len() >= NONCE_SIZE,
            Err(_) => true,
        },
    }
}

impl Crypter {
    /// Reads the master key out of the environment variable's value.
    pub fn load_master_key(&self, master_key: Option<&str>) -> (r: Result<Vec<u8>, CrypterError>)
        ensures
            bytes_result(r) == master_key_from(master_key),
    {
        let text = match master_key {
            Some(text) => text,
            None => return Err(CrypterError::FailedGetEnvVar),
        };
        let key = match base64_decode(text) {
            Some(key) => key,
            None => return Err(CrypterError::FailedBase64Decode),
        };
        if key.len() != KEY_SIZE {
            return Err(CrypterError::InvalidKeyLength);
        }
        Ok(key)
    }

    /// Encrypts with a given nonce.
    pub fn encrypt_bytes_with_nonce(
        &self,
        plain_data: &[u8],
        master_key: Option<&str>,
        nonce: &[u8],
    ) -> (r: Result<Vec<u8>, CrypterError>)
        requires
            nonce@.len() == NONCE_SIZE,
        ensures
            bytes_result(r) == encryption(master_key, nonce@, plain_data@),
            r matches Ok(stored) ==> stored@.len() == NONCE_SIZE + plain_data@.len() + TAG_SIZE,
    {
        let key = self.load_master_key(master_key)?;
        let enc_data = match aes256gcm_encrypt(key.as_slice(), nonce, plain_data) {
            Some(c) => c,
            None => return Err(CrypterError::FailedEncrypt),
        };
        let mut final_bytes: Vec<u8> = Vec::new();
        final_bytes.extend_from_slice(nonce);
        final_bytes.extend_from_slice(enc_data.as_slice());
        proof {
            assert(final_bytes@ =~= nonce@ + enc_data@);
        }
        Ok(final_bytes)
    }

    /// Encrypts under a fresh random nonce.
    pub fn encrypt_bytes(&self, plain_data: &[u8], master_key: Option<&str>) -> (r: Result<
        Vec<u8>,
        CrypterError,
    >)
        ensures
            exists|nonce: Seq<u8>|
                nonce.len() == NONCE_SIZE && bytes_result(r) == #[trigger] encryption(
                    master_key,
                    nonce,
                    plain_data@,
                ),
            r matches Ok(stored) ==> stored@.len() == NONCE_SIZE + plain_data@.len() + TAG_SIZE,
    {
        let nonce = random_nonce();
        let r = self.encrypt_bytes_with_nonce(plain_data, master_key, nonce.as_slice());
        assert(bytes_result(r) == encryption(master_key, nonce@, plain_data@));
        r
    }

    /// Decrypts stored bytes. Whatever an encryption under the same master
    /// key produced decrypts to the plaintext it was made from.
    pub fn decrypt_bytes(&self, encrypted_bytes: &[u8], master_key: Option<&str>) -> (r: Result<
        Vec<u8>,
        CrypterError,
    >)
        requires
            decryptable(master_key, encrypted_bytes@),
        ensures
            bytes_result(r) == decryption(master_key, encrypted_bytes@),
            forall|plaintext: Seq<u8>|
                is_encryption_of(master_key, encrypted_bytes@, plaintext) ==> bytes_result(r) == Ok::<
                    Seq<u8>,
                    CrypterError,
                >(plaintext),
    {
        let key = self.load_master_key(master_key)?;
        let (nonce_bytes, cipher_bytes) = encrypted_bytes.split_at(NONCE_SIZE);
        let r = match aes256gcm_decrypt(key.as_slice(), nonce_bytes, cipher_bytes) {
            Some(p) => Ok(p),
            None => Err(CrypterError::FailedDecrypt),
        };
        proof {
            assert(nonce_bytes@ =~= encrypted_bytes@.take(NONCE_SIZE as int));
            assert(cipher_bytes@ =~= encrypted_bytes@.skip(NONCE_SIZE as int));
            assert forall|plaintext: Seq<u8>|
                is_encryption_of(master_key, encrypted_bytes@, plaintext) implies bytes_result(r)
                    == Ok::<Seq<u8>, CrypterError>(plaintext) by {
                let nonce = choose|nonce: Seq<u8>|
                    nonce.len() == NONCE_SIZE && #[trigger] encryption(master_key, nonce, plaintext)
                        == Ok::<Seq<u8>, CrypterError>(encrypted_bytes@);
                let c = aes256gcm_ciphertext(key@, nonce, plaintext);
                assert(encrypted_bytes@ == nonce + c);
                assert((nonce + c).take(NONCE_SIZE as int) =~= nonce);
                assert((nonce + c).skip(NONCE_SIZE as int) =~= c);
            }
        }
        r
    }
}

/// Stores the public key set, encrypted, in one file.
pub struct PublicKeyRepository {
    file_path: String,
    crypter: Crypter,
}

#[derive(Debug)]
pub enum PublicKeyRepositoryError {
    FailedSerialize,
    FailedEncryptPublicKey,
    FailedWriteRepoFile,
    FailedReadRepoFile,
    FailedDecryptPublicKey,
    FailedDeserialize,
}

impl PublicKeyRepository {
    /// The file the key is kept in.
    pub closed spec fn file_path(&self) -> Seq<char> {
        self.file_path@
    }

    pub fn new(file_path: String, crypter: Crypter) -> (r: Self)
        ensures
            r.file_path() == file_path@,
    {
        Self { file_path, crypter }
    }

    /// The file the key is kept in.
    pub fn path(&self) -> (r: &str)
        ensures
            r@ == self.file_path(),
    {
        self.file_path.as_str()
    }

    /// The bytes to write into `path()` for `public_key`: its bincode form,
    /// encrypted under the master key. A missing or bad master key fails the
    /// save with `FailedEncryptPublicKey`; otherwise it succeeds (for any key
    /// set whose bincode form `aes-gcm` accepts).
    pub fn save(&self, public_key: &PublicKey<PublicKeySet>, master_key: Option<&str>) -> (r: Result<
        Vec<u8>,
        PublicKeyRepositoryError,
    >)
        ensures
            master_key_from(master_key) is Err ==> r matches Err(
                PublicKeyRepositoryError::FailedEncryptPublicKey,
            ),
            master_key_from(master_key) is Ok && 8 + 48 * commitment_len(public_key.public_key)
                <= MAX_PLAINTEXT_LEN ==> r is Ok,
            r matches Err(e) ==> e is FailedEncryptPublicKey,
            r matches Ok(stored) ==> holds_public_key(master_key, stored@, public_key.public_key)
                && decryptable(master_key, stored@),
            r matches Ok(stored) ==> stored@.len() == NONCE_SIZE + TAG_SIZE + 8 + 48 * commitment_len(
                public_key.public_key,
            ),
    {
        let public_key_bytes = match serialize_public_key_set(&public_key.public_key) {
            Some(bytes) => bytes,
            None => return Err(PublicKeyRepositoryError::FailedSerialize),
        };
        let encrypted = self.crypter.encrypt_bytes(public_key_bytes.as_slice(), master_key);
        match encrypted {
            Ok(stored) => {
                assert(is_encryption_of(master_key, stored@, public_key_bytes@));
                proof {
                    lemma_encryption_decryptable(master_key, stored@, public_key_bytes@);
                }
                Ok(stored)
            },
            Err(_) => Err(PublicKeyRepositoryError::FailedEncryptPublicKey),
        }
    }

    /// Reads the key back from the contents of `path()` (`None`: the file
    /// could not be read). What `save` stored under the same master key reads
    /// back.
    pub fn load(&self, stored: Option<&[u8]>, master_key: Option<&str>) -> (r: Result<
        PublicKey<PublicKeySet>,
        PublicKeyRepositoryError,
    >)
        requires
            stored matches Some(bytes) ==> decryptable(master_key, bytes@),
        ensures
            stored is None <==> r matches Err(PublicKeyRepositoryError::FailedReadRepoFile),
            stored matches Some(bytes) ==> (decryption(master_key, bytes@) is Err <==> r matches Err(
                PublicKeyRepositoryError::FailedDecryptPublicKey,
            )),
            r matches Err(e) ==> (e is FailedReadRepoFile || e is FailedDecryptPublicKey
                || e is FailedDeserialize),
            r is Ok <==> public_key_loads(stored, master_key),
            r matches Ok(public_key) ==> stored_public_key_set(stored, master_key) == Some(
                public_key.public_key,
            ),
            forall|public_key_set: PublicKeySet|
                #[trigger] holds_public_key(master_key, stored->0@, public_key_set) && stored is Some
                    ==> (r matches Ok(public_key) && public_key.public_key == public_key_set),
    {
        let encrypted = match stored {
            Some(bytes) => bytes,
            None => return Err(PublicKeyRepositoryError::FailedReadRepoFile),
        };
        let plain = match self.crypter.decrypt_bytes(encrypted, master_key) {
            Ok(plain) => plain,
            Err(_) => return Err(PublicKeyRepositoryError::FailedDecryptPublicKey),
        };
        match deserialize_public_key_set(plain.as_slice()) {
            Some(public_key_set) => Ok(PublicKey::new(public_key_set)),
            None => Err(PublicKeyRepositoryError::FailedDeserialize),
        }
    }
}

/// The file that share `index` is kept in: the base path, a dash and the
/// index in decimal.
pub open spec fn indexed_path(base: Seq<char>, index: nat) -> Seq<char> {
    base + seq!['-'] + decimal(index)
}

/// Shares of distinct indices are kept in distinct files: saving one share
/// never overwrites another.
pub proof fn lemma_share_files_distinct(base: Seq<char>, i: nat, j: nat)
    requires
        i != j,
    ensures
        indexed_path(base, i) != indexed_path(base, j),
{
    if indexed_path(base, i) == indexed_path(base, j) {
        let k = base.len() + 1int;
        assert(indexed_path(base, i).skip(k) =~= decimal(i));
        assert(indexed_path(base, j).skip(k) =~= decimal(j));
        lemma_decimal_injective(i, j);
    }
}

/// Stores secret key shares, encrypted, one file per share index.
#[derive(Clone)]
pub struct SecretKeyShareRepository {
    file_path: String,
    crypter: Crypter,
}

#[derive(Debug)]
pub enum SecretKeyShareRepositoryError {
    FailedSerialize,
    FailedEncryptSecretKeyShare,
    FailedWriteRepoFile,
    FailedReadRepoFile,
    FailedDecryptSecretKeyShare,
    FailedDeserialize,
}

impl SecretKeyShareRepository {
    /// The base path of the share files.
    pub closed spec fn file_path(&self) -> Seq<char> {
        self.file_path@
    }

    /// A repository under `file_path`; `None` for a blank path.
    pub fn new(file_path: String, crypter: Crypter) -> (r: Option<Self>)
        ensures
            r is None <==> is_blank(file_path@),
            r matches Some(repo) ==> repo.file_path() == file_path@,
    {
        if is_blank_text(file_path.as_str()) {
            return None;
        }
        Some(Self { file_path, crypter })
    }

    /// The file that share `index` is kept in.
    pub fn get_file_path_with_index(&self, index: usize) -> (r: String)
        ensures
            r@ == indexed_path(self.file_path(), index as nat),
    {
        let mut path = String::from_str(self.file_path.as_str());
        proof {
            reveal_strlit("-");
        }
        path.append("-");
        push_decimal(&mut path, index);
        path
    }

    /// The file to write and the bytes to write into it for `secret_key_share`:
    /// its bincode form, encrypted under the master key, in the file of its
    /// index. Only a missing or bad master key fails the save, with
    /// `FailedEncryptSecretKeyShare`.
    pub fn save(
        &self,
        secret_key_share: &SecretKeyShare<BlsSecretKeyShare>,
        master_key: Option<&str>,
    ) -> (r: Result<(String, Vec<u8>), SecretKeyShareRepositoryError>)
        ensures
            master_key_from(master_key) is Err <==> r matches Err(
                SecretKeyShareRepositoryError::FailedEncryptSecretKeyShare,
            ),
            r matches Err(e) ==> e is FailedEncryptSecretKeyShare,
            r matches Ok((path, stored)) ==> {
                &&& path@ == indexed_path(self.file_path(), secret_key_share.index@ as nat)
                &&& holds_secret_key_share(master_key, stored@, secret_key_share.secret_key_share)
                &&& decryptable(master_key, stored@)
            },
    {
        let share_bytes = match serialize_secret_key_share(&secret_key_share.secret_key_share) {
            Some(bytes) => bytes,
            None => return Err(SecretKeyShareRepositoryError::FailedSerialize),
        };
        let encrypted = self.crypter.encrypt_bytes(share_bytes.as_slice(), master_key);
        let stored = match encrypted {
            Ok(stored) => stored,
            Err(_) => return Err(SecretKeyShareRepositoryError::FailedEncryptSecretKeyShare),
        };
        assert(is_encryption_of(master_key, stored@, share_bytes@));
        proof {
            lemma_encryption_decryptable(master_key, stored@, share_bytes@);
        }
        let path = self.get_file_path_with_index(secret_key_share.index.get());
        Ok((path, stored))
    }

    /// Reads share `index` back from the contents of its file (`None`: the
    /// file could not be read). What `save` stored under the same master key
    /// reads back.
    pub fn load(&self, index: usize, stored: Option<&[u8]>, master_key: Option<&str>) -> (r: Result<
        SecretKeyShare<BlsSecretKeyShare>,
        SecretKeyShareRepositoryError,
    >)
        requires
            stored matches Some(bytes) ==> decryptable(master_key, bytes@),
        ensures
            stored is None <==> r matches Err(SecretKeyShareRepositoryError::FailedReadRepoFile),
            stored matches Some(bytes) ==> (decryption(master_key, bytes@) is Err <==> r matches Err(
                SecretKeyShareRepositoryError::FailedDecryptSecretKeyShare,
            )),
            r matches Err(e) ==> (e is FailedReadRepoFile || e is FailedDecryptSecretKeyShare
                || e is FailedDeserialize),
            r is Ok <==> secret_key_share_loads(stored, master_key),
            r matches Ok(share) ==> share.index@ == index && stored_secret_key_share(stored, master_key)
                == Some(share.secret_key_share),
            forall|share: BlsSecretKeyShare|
                #[trigger] holds_secret_key_share(master_key, stored->0@, share) && stored is Some ==> (r matches Ok(
                    loaded,
                ) && loaded.secret_key_share == share),
    {
        let encrypted = match stored {
            Some(bytes) => bytes,
            None => return Err(SecretKeyShareRepositoryError::FailedReadRepoFile),
        };
        let plain = match self.crypter.decrypt_bytes(encrypted, master_key) {
            Ok(plain) => plain,
            Err(_) => return Err(SecretKeyShareRepositoryError::FailedDecryptSecretKeyShare),
        };
        match deserialize_secret_key_share(plain.as_slice()) {
            Some(share) => Ok(SecretKeyShare::new(ShareIndex::new(index), share)),
            None => Err(SecretKeyShareRepositoryError::FailedDeserialize),
        }
    }
}

} // verus!
