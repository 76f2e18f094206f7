use vstd::prelude::*;

use threshold_crypto::SignatureShare as BlsSignatureShare;
use vstd::string::StringExecFns;

use crate::model::key::{valid_threshold, PublicKey, SecretKey};
use crate::model::signature::{Digest, SignatureShare};
use crate::platform::digest_generator::DigestGenarator;
use crate::platform::key::key_generator::KeyGenerator;
use crate::platform::aead::MAX_PLAINTEXT_LEN;
use crate::platform::digest_generator::sha256;
use crate::platform::key::public_key::share_pairs;
use crate::platform::repository::{
    decryptable, holds_public_key, holds_secret_key_share, indexed_path, is_decryptable,
    master_key_from,
    public_key_loads, secret_key_share_loads, stored_public_key_set, stored_secret_key_share,
    PublicKeyRepository, SecretKeyShareRepository,
};
use crate::platform::threshold::{
    bls_verifies, combination, commitment_len, distinct_indices, key_share_of, master_key_of,
    public_key_set_of, share_signature, signed_by,
};
use threshold_crypto::SecretKeySet;
use threshold_crypto::SecretKeyShare as BlsSecretKeyShare;
use vstd::string::StringSliceAdditionalSpecFns;

verus! {

/// Makes a public key and a secret key for a `threshold`-of-`num_divide`
/// scheme.
pub trait GenerateKey {
    type TError;
    type TPublicKey;
    type TSecretKey;

    fn generate_keys(&self, threshold: usize, num_divide: usize) -> Result<
        (PublicKey<Self::TPublicKey>, SecretKey<Self::TSecretKey>),
        Self::TError,
    >;
}

/// Makes the digest that is signed for a message.
pub trait GenerateDigest {
    type TError;
    type TDigest;

    fn generate_digest(&self, message: &str) -> Result<Digest<Self::TDigest>, Self::TError>;
}

/// Key generation, signing and signature verification, over a public key
/// store, a secret key share store, a key generator and a digest generator.
pub struct KeyService<T, U, V, W> {
    public_key_repo: T,
    secret_key_share_repo: U,
    key_generator: V,
    digest_generator: W,
}

#[derive(Debug)]
pub enum KeyServiceError {
    FailedGenerateKeys,
    FailedCreateSecretKeyShares,
    FailedSavePublicKey,
    FailedLoadPublicKey,
    FailedSaveSecretKeyShare,
    FailedLoadSecretKeyShare,
    FailedGenerateDigest,
    FailedSignDigest,
    FailedCombineSignatureShares,
    FailedVerifySignature,
}

/// The text that reports each error.
pub open spec fn key_service_error_message(e: KeyServiceError) -> Seq<char> {
    match e {
        KeyServiceError::FailedGenerateKeys => "Failed to generate keys"@,
        KeyServiceError::FailedCreateSecretKeyShares => "Failed to create secret key shares"@,
        KeyServiceError::FailedSavePublicKey => "Failed to save public key"@,
        KeyServiceError::FailedLoadPublicKey => "Failed to load public key"@,
        KeyServiceError::FailedSaveSecretKeyShare => "Failed to save secret key share"@,
        KeyServiceError::FailedLoadSecretKeyShare => "Failed to load secret key share"@,
        KeyServiceError::FailedGenerateDigest => "Failed to generate digest"@,
        KeyServiceError::FailedSignDigest => "Failed to sign digest"@,
        KeyServiceError::FailedCombineSignatureShares => "Failed to combine signature shares"@,
        KeyServiceError::FailedVerifySignature => "Failed to verify signature"@,
    }
}

impl KeyServiceError {
    /// The text that reports the error.
    pub fn message(&self) -> (r: String)
        ensures
            r@ == key_service_error_message(*self),
    {
        match self {
            KeyServiceError::FailedGenerateKeys => String::from_str("Failed to generate keys"),
            KeyServiceError::FailedCreateSecretKeyShares => String::from_str(
                "Failed to create secret key shares",
            ),
            KeyServiceError::FailedSavePublicKey => String::from_str("Failed to save public key"),
            KeyServiceError::FailedLoadPublicKey => String::from_str("Failed to load public key"),
            KeyServiceError::FailedSaveSecretKeyShare => String::from_str(
                "Failed to save secret key share",
            ),
            KeyServiceError::FailedLoadSecretKeyShare => String::from_str(
                "Failed to load secret key share",
            ),
            KeyServiceError::FailedGenerateDigest => String::from_str("Failed to generate digest"),
            KeyServiceError::FailedSignDigest => String::from_str("Failed to sign digest"),
            KeyServiceError::FailedCombineSignatureShares => String::from_str(
                "Failed to combine signature shares",
            ),
            KeyServiceError::FailedVerifySignature => String::from_str(
                "Failed to verify signature",
            ),
        }
    }
}

/// A file to be written: where, and what.
pub struct KeyFile {
    pub path: String,
    pub contents: Vec<u8>,
}

/// The files that store a freshly generated key: the public key set, then
/// one file per secret key share, in index order.
pub struct KeyFiles {
    pub public_key: KeyFile,
    pub secret_key_shares: Vec<KeyFile>,
}

impl<T, U, V, W> KeyService<T, U, V, W> {
    pub closed spec fn public_key_repo(&self) -> T {
        self.public_key_repo
    }

    pub closed spec fn secret_key_share_repo(&self) -> U {
        self.secret_key_share_repo
    }

    pub closed spec fn key_generator(&self) -> V {
        self.key_generator
    }

    pub closed spec fn digest_generator(&self) -> W {
        self.digest_generator
    }

    pub fn new(
        public_key_repo: T,
        secret_key_share_repo: U,
        key_generator: V,
        digest_generator: W,
    ) -> (r: Self)
        ensures
            r.public_key_repo() == public_key_repo,
            r.secret_key_share_repo() == secret_key_share_repo,
            r.key_generator() == key_generator,
            r.digest_generator() == digest_generator,
    {
        Self { public_key_repo, secret_key_share_repo, key_generator, digest_generator }
    }
}

impl KeyService<PublicKeyRepository, SecretKeyShareRepository, KeyGenerator, DigestGenarator> {
    /// The file the public key set is kept in.
    pub fn public_key_path(&self) -> (r: &str)
        ensures
            r@ == self.public_key_repo().file_path(),
    {
        self.public_key_repo.path()
    }

    /// The file that share `index` is kept in.
    pub fn secret_key_share_path(&self, index: usize) -> (r: String)
        ensures
            r@ == indexed_path(self.secret_key_share_repo().file_path(), index as nat),
    {
        self.secret_key_share_repo.get_file_path_with_index(index)
    }

    /// Generates a `threshold`-of-`num_divide` key set and encrypts it for
    /// storage: the public key set into the public key file, share `i` into
    /// the `i`-th share file. Invalid parameters fail with
    /// `FailedGenerateKeys`; a missing or bad master key with
    /// `FailedSavePublicKey`; otherwise it succeeds. The files hold one key
    /// set: its public key set, whose commitment has `threshold`
    /// coefficients, and its shares `0 .. num_divide`.
    pub fn init_keys(&self, threshold: usize, num_divide: usize, master_key: Option<&str>) -> (r: Result<
        KeyFiles,
        KeyServiceError,
    >)
        ensures
            !valid_threshold(threshold as int, num_divide as int) <==> r matches Err(
                KeyServiceError::FailedGenerateKeys,
            ),
            r matches Err(KeyServiceError::FailedGenerateKeys) <==> !(1 <= threshold <= num_divide),
            1 <= threshold <= num_divide && master_key_from(master_key) is Ok && 8 + 48 * threshold
                <= MAX_PLAINTEXT_LEN ==> r is Ok,
            valid_threshold(threshold as int, num_divide as int) && master_key_from(master_key) is Err
                ==> r matches Err(KeyServiceError::FailedSavePublicKey),
            r matches Err(KeyServiceError::FailedSavePublicKey) ==> valid_threshold(
                threshold as int,
                num_divide as int,
            ) && (master_key_from(master_key) is Err || 8 + 48 * threshold > MAX_PLAINTEXT_LEN),
            valid_threshold(threshold as int, num_divide as int) && master_key_from(master_key) is Ok
                && 8 + 48 * threshold <= MAX_PLAINTEXT_LEN ==> r is Ok,
            r matches Err(e) ==> (e is FailedGenerateKeys || e is FailedSavePublicKey),
            r matches Ok(files) ==> {
                &&& valid_threshold(threshold as int, num_divide as int)
                &&& files.public_key.path@ == self.public_key_repo().file_path()
                &&& decryptable(master_key, files.public_key.contents@)
                &&& files.secret_key_shares@.len() == num_divide
                &&& forall|i: int|
                    0 <= i < num_divide ==> {
                        &&& (#[trigger] files.secret_key_shares@[i]).path@ == indexed_path(
                            self.secret_key_share_repo().file_path(),
                            i as nat,
                        )
                        &&& decryptable(master_key, files.secret_key_shares@[i].contents@)
                    }
                &&& exists|secret_key_set: SecretKeySet| holds_key_set(
                    master_key,
                    files,
                    secret_key_set,
                    threshold as nat,
                )
            },
    {
        let (public_key, secret_key) = match self.key_generator.generate_keys(threshold, num_divide) {
            Ok(keys) => keys,
            Err(_) => return Err(KeyServiceError::FailedGenerateKeys),
        };
        let ghost secret_key_set = secret_key.secret_key();
        let secret_key_shares = match secret_key.divide() {
            Ok(shares) => shares,
            Err(_) => return Err(KeyServiceError::FailedCreateSecretKeyShares),
        };
        let public_key_contents = match self.public_key_repo.save(&public_key, master_key) {
            Ok(contents) => contents,
            Err(_) => return Err(KeyServiceError::FailedSavePublicKey),
        };
        let public_key_file = KeyFile {
            path: String::from_str(self.public_key_repo.path()),
            contents: public_key_contents,
        };
        let mut share_files: Vec<KeyFile> = Vec::new();
        let mut i: usize = 0;
        while i < secret_key_shares.len()
            invariant
                i <= secret_key_shares@.len(),
                valid_threshold(threshold as int, num_divide as int),
                master_key_from(master_key) is Ok,
                secret_key_shares@.len() == num_divide,
                forall|j: int|
                    0 <= j < num_divide ==> (#[trigger] secret_key_shares@[j]).index@ == j
                        && secret_key_shares@[j].secret_key_share == key_share_of(secret_key_set, j as nat),
                share_files@.len() == i,
                forall|j: int|
                    0 <= j < i ==> {
                        &&& (#[trigger] share_files@[j]).path@ == indexed_path(
                            self.secret_key_share_repo().file_path(),
                            j as nat,
                        )
                        &&& holds_secret_key_share(
                            master_key,
                            share_files@[j].contents@,
                            key_share_of(secret_key_set, j as nat),
                        )
                        &&& decryptable(master_key, share_files@[j].contents@)
                    },
            decreases secret_key_shares@.len() - i,
        {
            let (path, contents) = match self.secret_key_share_repo.save(&secret_key_shares[i], master_key) {
                Ok(file) => file,
                Err(_) => return Err(KeyServiceError::FailedSaveSecretKeyShare),
            };
            share_files.push(KeyFile { path, contents });
            i = i + 1;
        }
        let files = KeyFiles { public_key: public_key_file, secret_key_shares: share_files };
        assert(holds_key_set(master_key, files, secret_key_set, threshold as nat));
        Ok(files)
    }

    /// Signs `message` with share `index`, read from the contents of its
    /// share file (`None`: the file could not be read): the stored share's
    /// signature share of the SHA-256 digest of the message, under `index`.
    /// A share that cannot be read, decrypted or decoded fails with
    /// `FailedLoadSecretKeyShare`; an empty message with
    /// `FailedGenerateDigest`. A share file written by `init_keys` under the
    /// same master key signs every non-empty message with the share it holds.
    pub fn sign_message(
        &self,
        index: usize,
        message: &str,
        stored_share: Option<&[u8]>,
        master_key: Option<&str>,
    ) -> (r: Result<SignatureShare<BlsSignatureShare>, KeyServiceError>)
        requires
            stored_share matches Some(bytes) ==> decryptable(master_key, bytes@),
        ensures
            r matches Err(KeyServiceError::FailedLoadSecretKeyShare) <==> !secret_key_share_loads(
                stored_share,
                master_key,
            ),
            r matches Err(e) ==> (e is FailedLoadSecretKeyShare || (e is FailedGenerateDigest
                && message@.len() == 0)),
            r is Ok <==> secret_key_share_loads(stored_share, master_key) && message@.len() > 0,
            r matches Ok(share) ==> share.index@ == index && share.signature_share == share_signature(
                stored_secret_key_share(stored_share, master_key)->0,
                sha256(message.spec_bytes()),
            ),
            forall|share: BlsSecretKeyShare|
                #[trigger] holds_secret_key_share(master_key, stored_share->0@, share) && stored_share is Some
                    && message@.len() > 0 ==> (r matches Ok(signature_share)
                    && signature_share.signature_share == share_signature(share, sha256(message.spec_bytes()))),
    {
        let secret_key_share = match self.secret_key_share_repo.load(index, stored_share, master_key) {
            Ok(share) => share,
            Err(_) => return Err(KeyServiceError::FailedLoadSecretKeyShare),
        };
        let digest = match self.digest_generator.generate_digest(message) {
            Ok(digest) => digest,
            Err(_) => return Err(KeyServiceError::FailedGenerateDigest),
        };
        match secret_key_share.sign(&digest) {
            Ok(signature_share) => Ok(signature_share),
            Err(_) => Err(KeyServiceError::FailedSignDigest),
        }
    }

    /// `sign_message`, made only where the share file's contents can be
    /// decrypted at all (`None`: under a valid master key they are shorter
    /// than a nonce).
    pub fn try_sign_message(
        &self,
        index: usize,
        message: &str,
        stored_share: Option<&[u8]>,
        master_key: Option<&str>,
    ) -> (r: Option<Result<SignatureShare<BlsSignatureShare>, KeyServiceError>>)
        ensures
            r is None <==> !(stored_share matches Some(bytes) ==> decryptable(master_key, bytes@)),
            r matches Some(result) ==> (result is Ok <==> secret_key_share_loads(stored_share, master_key)
                && message@.len() > 0),
            r matches Some(result) ==> (result matches Ok(share) ==> share.index@ == index
                && share.signature_share == share_signature(
                stored_secret_key_share(stored_share, master_key)->0,
                sha256(message.spec_bytes()),
            )),
            r matches Some(result) ==> (result matches Err(KeyServiceError::FailedLoadSecretKeyShare)
                <==> !secret_key_share_loads(stored_share, master_key)),
            r matches Some(result) ==> (result matches Err(e) ==> (e is FailedLoadSecretKeyShare || (
            e is FailedGenerateDigest && message@.len() == 0))),
            forall|share: BlsSecretKeyShare|
                #[trigger] holds_secret_key_share(master_key, stored_share->0@, share) && stored_share is Some
                    && message@.len() > 0 ==> (r matches Some(Ok(signature_share))
                    && signature_share.signature_share == share_signature(share, sha256(message.spec_bytes()))),
    {
        if !is_decryptable(master_key, stored_share) {
            return None;
        }
        Some(self.sign_message(index, message, stored_share, master_key))
    }

    /// `verify_signature`, made only where the public key file's contents can
    /// be decrypted at all (`None`: under a valid master key they are shorter
    /// than a nonce).
    pub fn try_verify_signature(
        &self,
        signature_shares: &Vec<SignatureShare<BlsSignatureShare>>,
        message: &str,
        stored_public_key: Option<&[u8]>,
        master_key: Option<&str>,
    ) -> (r: Option<Result<bool, KeyServiceError>>)
        ensures
            r is None <==> !(stored_public_key matches Some(bytes) ==> decryptable(master_key, bytes@)),
            r matches Some(result) ==> (result is Ok <==> (stored_public_key_set(
                stored_public_key,
                master_key,
            ) matches Some(public_key_set) && commitment_len(public_key_set) > 0 && combination(
                public_key_set,
                share_pairs(signature_shares@),
            ) is Some && message@.len() > 0)),
            r matches Some(result) ==> (result matches Ok(verified) ==> (stored_public_key_set(
                stored_public_key,
                master_key,
            ) matches Some(public_key_set) && combination(public_key_set, share_pairs(signature_shares@))
                matches Some(signature) && verified == bls_verifies(
                master_key_of(public_key_set),
                signature,
                sha256(message.spec_bytes()),
            ))),
    {
        if !is_decryptable(master_key, stored_public_key) {
            return None;
        }
        Some(self.verify_signature(signature_shares, message, stored_public_key, master_key))
    }

    /// Combines the signature shares (each at its own index, in order) with
    /// the public key set read from the contents of its file (`None`: the
    /// file could not be read), and answers whether the combined signature
    /// verifies for the SHA-256 digest of `message`. A key that cannot be
    /// read, decrypted or decoded fails with `FailedLoadPublicKey`; shares
    /// that do not combine with `FailedCombineSignatureShares`; an empty
    /// message with `FailedGenerateDigest`. Shares of the stored key set's
    /// signatures of the message, at least `threshold` of them at distinct
    /// indices, verify.
    pub fn verify_signature(
        &self,
        signature_shares: &Vec<SignatureShare<BlsSignatureShare>>,
        message: &str,
        stored_public_key: Option<&[u8]>,
        master_key: Option<&str>,
    ) -> (r: Result<bool, KeyServiceError>)
        requires
            stored_public_key matches Some(bytes) ==> decryptable(master_key, bytes@),
        ensures
            r matches Err(KeyServiceError::FailedLoadPublicKey) <==> !public_key_loads(
                stored_public_key,
                master_key,
            ),
            r is Ok <==> (stored_public_key_set(stored_public_key, master_key) matches Some(public_key_set)
                && commitment_len(public_key_set) > 0 && combination(
                public_key_set,
                share_pairs(signature_shares@),
            ) is Some && message@.len() > 0),
            r matches Ok(verified) ==> (stored_public_key_set(stored_public_key, master_key) matches Some(
                public_key_set,
            ) && combination(public_key_set, share_pairs(signature_shares@)) matches Some(signature)
                && verified == bls_verifies(
                master_key_of(public_key_set),
                signature,
                sha256(message.spec_bytes()),
            )),
            signature_shares@.len() == 0 ==> r is Err,
            message@.len() == 0 ==> r is Err,
            r matches Err(e) ==> (e is FailedLoadPublicKey || e is FailedCombineSignatureShares
                || (e is FailedGenerateDigest && message@.len() == 0)),
            r matches Err(KeyServiceError::FailedCombineSignatureShares) <==> (stored_public_key_set(
                stored_public_key,
                master_key,
            ) matches Some(public_key_set) && !(commitment_len(public_key_set) > 0 && combination(
                public_key_set,
                share_pairs(signature_shares@),
            ) is Some)),
            r matches Err(KeyServiceError::FailedGenerateDigest) <==> (stored_public_key_set(
                stored_public_key,
                master_key,
            ) matches Some(public_key_set) && commitment_len(public_key_set) > 0 && combination(
                public_key_set,
                share_pairs(signature_shares@),
            ) is Some && message@.len() == 0),
            forall|secret_key_set: SecretKeySet|
                #[trigger] holds_public_key(
                    master_key,
                    stored_public_key->0@,
                    public_key_set_of(secret_key_set),
                ) && stored_public_key is Some && signs_together(
                    secret_key_set,
                    signature_shares@,
                    sha256(message.spec_bytes()),
                ) && message@.len() > 0 ==> r == Ok::<bool, KeyServiceError>(true),
    {
        let public_key = match self.public_key_repo.load(stored_public_key, master_key) {
            Ok(public_key) => public_key,
            Err(_) => return Err(KeyServiceError::FailedLoadPublicKey),
        };
        let signature = match public_key.combine_signature_shares(signature_shares.as_slice()) {
            Ok(signature) => signature,
            Err(_) => return Err(KeyServiceError::FailedCombineSignatureShares),
        };
        let digest = match self.digest_generator.generate_digest(message) {
            Ok(digest) => digest,
            Err(_) => return Err(KeyServiceError::FailedGenerateDigest),
        };
        match public_key.verify(&signature, &digest) {
            Ok(is_verify) => Ok(is_verify),
            Err(_) => Err(KeyServiceError::FailedVerifySignature),
        }
    }
}

/// The key files hold one key set under the master key: the public key set
/// of `secret_key_set`, whose commitment has `threshold` coefficients, and
/// share `i` of it in the `i`-th share file.
pub open spec fn holds_key_set(
    master_key: Option<&str>,
    files: KeyFiles,
    secret_key_set: SecretKeySet,
    threshold: nat,
) -> bool {
    &&& commitment_len(public_key_set_of(secret_key_set)) == threshold
    &&& holds_public_key(master_key, files.public_key.contents@, public_key_set_of(secret_key_set))
    &&& forall|i: int|
        0 <= i < files.secret_key_shares@.len() ==> #[trigger] holds_secret_key_share(
            master_key,
            files.secret_key_shares@[i].contents@,
            key_share_of(secret_key_set, i as nat),
        )
}

/// Signature shares that nodes made with `sign_message` from the share files
/// of one key set (each the key set's share at its index signing the
/// digest), from at least `threshold` distinct indices, sign together: with
/// the public key file of the same `init_keys` run, `verify_signature` and
/// `conclude_client_sign` then answer that the signature verifies.
pub proof fn lemma_node_shares_sign_together(
    secret_key_set: SecretKeySet,
    shares: Seq<SignatureShare<BlsSignatureShare>>,
    digest: Seq<u8>,
    threshold: nat,
)
    requires
        commitment_len(public_key_set_of(secret_key_set)) == threshold,
        threshold > 0,
        shares.len() >= threshold,
        forall|i: int, j: int| 0 <= i < j < shares.len() ==> shares[i].index@ != shares[j].index@,
        forall|i: int|
            0 <= i < shares.len() ==> (#[trigger] shares[i]).signature_share == share_signature(
                key_share_of(secret_key_set, shares[i].index@ as nat),
                digest,
            ),
    ensures
        signs_together(secret_key_set, shares, digest),
{
    let pairs = share_pairs(shares);
    assert forall|i: int| 0 <= i < pairs.len() implies #[trigger] pairs[i].1 == share_signature(
        key_share_of(secret_key_set, pairs[i].0 as nat),
        digest,
    ) by {
        assert(pairs[i] == (shares[i].index@, shares[i].signature_share));
    }
    assert forall|i: int, j: int| 0 <= i < j < pairs.len() implies pairs[i].0 != pairs[j].0 by {
        assert(pairs[i].0 == shares[i].index@);
        assert(pairs[j].0 == shares[j].index@);
    }
}

/// The signature shares suffice to sign `digest` for `secret_key_set`: at
/// least `threshold` of them (as its public key set counts it), at distinct
/// indices, each the key set's share at its index signing `digest`.
pub open spec fn signs_together(
    secret_key_set: SecretKeySet,
    shares: Seq<SignatureShare<BlsSignatureShare>>,
    digest: Seq<u8>,
) -> bool {
    &&& commitment_len(public_key_set_of(secret_key_set)) > 0
    &&& shares.len() >= commitment_len(public_key_set_of(secret_key_set))
    &&& distinct_indices(share_pairs(shares))
    &&& signed_by(secret_key_set, share_pairs(shares), digest)
}

} // verus!
