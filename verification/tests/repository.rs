use base64::engine::general_purpose;
use base64::Engine;
use rand::thread_rng;
use threshold_crypto::serde_impl::SerdeSecret;
use threshold_crypto::{PublicKeySet, SecretKeySet};

use d_sign::model::key::{PublicKey, SecretKeyShare};
use d_sign::model::value::ShareIndex;
use d_sign::platform::repository::{
    Crypter, CrypterError, PublicKeyRepository, PublicKeyRepositoryError, SecretKeyShareRepository,
    SecretKeyShareRepositoryError,
};

fn master_key() -> String {
    general_purpose::STANDARD.encode([1u8; 32])
}

fn invalid_length_master_key() -> String {
    general_purpose::STANDARD.encode([1u8; 31])
}

fn different_master_key() -> String {
    general_purpose::STANDARD.encode([2u8; 32])
}

fn build_public_key() -> PublicKey<PublicKeySet> {
    let mut rng = thread_rng();
    let secret_key_set = SecretKeySet::random(1, &mut rng);
    let public_key_set = secret_key_set.public_keys();
    PublicKey::new(public_key_set)
}

fn build_public_key_repository(path: String) -> PublicKeyRepository {
    PublicKeyRepository::new(path, Crypter)
}

fn build_secret_key_share() -> SecretKeyShare<threshold_crypto::SecretKeyShare> {
    let mut rng = thread_rng();
    let secret_key_set = SecretKeySet::random(1, &mut rng);
    let secret_key_share = secret_key_set.secret_key_share(0);
    SecretKeyShare::new(ShareIndex::new(0), secret_key_share)
}

fn build_secret_key_share_repository(path: String) -> SecretKeyShareRepository {
    SecretKeyShareRepository::new(path, Crypter).unwrap()
}

#[test]
fn public_key_repository_save_success() {
    let key = master_key();
    let public_key = build_public_key();

    let public_key_repo = build_public_key_repository("test_public_key.enc".to_string());
    assert_eq!(public_key_repo.path(), "test_public_key.enc");

    let result = public_key_repo.save(&public_key, Some(&key));
    assert!(result.is_ok());

    let plain_bytes = bincode::serialize(&public_key.public_key).unwrap();
    let encrypted_bytes = result.unwrap();
    assert_ne!(plain_bytes, encrypted_bytes);
    assert_eq!(encrypted_bytes.len(), 12 + plain_bytes.len() + 16);
}

#[test]
fn public_key_repository_save_fail_when_env_var_is_not_set() {
    let public_key = build_public_key();
    let public_key_repo = build_public_key_repository("test_public_key.enc".to_string());
    let result = public_key_repo.save(&public_key, None);
    assert!(matches!(result.err().unwrap(), PublicKeyRepositoryError::FailedEncryptPublicKey,))
}

#[test]
fn public_key_repository_save_fail_when_env_var_is_invalid() {
    let key = invalid_length_master_key();
    let public_key = build_public_key();
    let public_key_repo = build_public_key_repository("test_public_key.enc".to_string());
    let result = public_key_repo.save(&public_key, Some(&key));
    assert!(matches!(result.err().unwrap(), PublicKeyRepositoryError::FailedEncryptPublicKey,))
}

#[test]
fn public_key_repository_load_success() {
    let key = master_key();
    let public_key = build_public_key();
    let public_key_repo = build_public_key_repository("test_public_key.enc".to_string());

    let stored = public_key_repo.save(&public_key, Some(&key)).unwrap();
    let result = public_key_repo.load(Some(&stored), Some(&key)).ok().unwrap();

    let original_bytes = bincode::serialize(&public_key.public_key).unwrap();
    let loaded_bytes = bincode::serialize(&result.public_key).unwrap();
    assert_eq!(original_bytes, loaded_bytes);
}

#[test]
fn public_key_repository_load_fail_when_env_var_is_not_set() {
    let key = master_key();
    let public_key = build_public_key();
    let public_key_repo = build_public_key_repository("test_public_key.enc".to_string());

    let stored = public_key_repo.save(&public_key, Some(&key)).unwrap();
    let result = public_key_repo.load(Some(&stored), None);

    assert!(matches!(result.err().unwrap(), PublicKeyRepositoryError::FailedDecryptPublicKey,));
}

#[test]
fn public_key_repository_load_fail_when_env_var_is_invalid() {
    let key = master_key();
    let public_key = build_public_key();
    let public_key_repo = build_public_key_repository("test_public_key.enc".to_string());

    let stored = public_key_repo.save(&public_key, Some(&key)).unwrap();
    let result = public_key_repo.load(Some(&stored), Some(&invalid_length_master_key()));
    assert!(matches!(result.err().unwrap(), PublicKeyRepositoryError::FailedDecryptPublicKey,));

    let result = public_key_repo.load(Some(&stored), Some(&different_master_key()));
    assert!(matches!(result.err().unwrap(), PublicKeyRepositoryError::FailedDecryptPublicKey,));
}

#[test]
fn public_key_repository_load_fail_when_repo_path_is_invalid() {
    let key = master_key();
    let public_key_repo = build_public_key_repository("invalid_path".to_string());
    let result = public_key_repo.load(None, Some(&key));
    assert!(matches!(result.err().unwrap(), PublicKeyRepositoryError::FailedReadRepoFile,));
}

#[test]
fn public_key_repository_load_fail_on_garbage() {
    let key = master_key();
    let public_key_repo = build_public_key_repository("test_public_key.enc".to_string());
    let crypter = Crypter;
    let stored = crypter.encrypt_bytes(&[7u8; 3], Some(&key)).unwrap();
    let result = public_key_repo.load(Some(&stored), Some(&key));
    assert!(matches!(result.err().unwrap(), PublicKeyRepositoryError::FailedDeserialize,));
}

#[test]
fn secret_key_share_repository_save_success() {
    let key = master_key();
    let secret_key_share = build_secret_key_share();
    let secret_key_share_repo = build_secret_key_share_repository("test_secret_key_share.enc".to_string());

    let result = secret_key_share_repo.save(&secret_key_share, Some(&key));
    assert!(result.is_ok());
    let (path, encrypted_bytes) = result.unwrap();
    assert_eq!(path, "test_secret_key_share.enc-0");

    let serde_secret_key_share = SerdeSecret(secret_key_share.secret_key_share.clone());
    let plain_bytes = bincode::serialize(&serde_secret_key_share).unwrap();
    assert_ne!(plain_bytes, encrypted_bytes);
}

#[test]
fn secret_key_share_repository_save_fail_when_env_var_is_not_set() {
    let secret_key_share = build_secret_key_share();
    let secret_key_share_repo = build_secret_key_share_repository("test_secret_key_share.enc".to_string());

    let result = secret_key_share_repo.save(&secret_key_share, None);
    assert!(matches!(
        result.err().unwrap(),
        SecretKeyShareRepositoryError::FailedEncryptSecretKeyShare
    ));
}

#[test]
fn secret_key_share_repository_save_fail_when_env_var_is_invalid() {
    let secret_key_share = build_secret_key_share();
    let secret_key_share_repo = build_secret_key_share_repository("test_secret_key_share.enc".to_string());

    let result = secret_key_share_repo.save(&secret_key_share, Some(&invalid_length_master_key()));
    assert!(matches!(
        result.err().unwrap(),
        SecretKeyShareRepositoryError::FailedEncryptSecretKeyShare
    ));
}

#[test]
fn secret_key_share_repository_created_fail_when_repo_path_is_invalid() {
    let result = SecretKeyShareRepository::new("".to_string(), Crypter);
    assert!(result.is_none());
    let result = SecretKeyShareRepository::new(" \t\n\u{3000}".to_string(), Crypter);
    assert!(result.is_none());
    let result = SecretKeyShareRepository::new(" a ".to_string(), Crypter);
    assert!(result.is_some());
}

#[test]
fn secret_key_share_repository_load_success() {
    let key = master_key();
    let secret_key_share_repo = build_secret_key_share_repository("test_secret_key_share.enc".to_string());
    let secret_key_share = build_secret_key_share();

    let (path, stored) = secret_key_share_repo.save(&secret_key_share, Some(&key)).unwrap();
    assert_eq!(path, "test_secret_key_share.enc-0");

    let result = secret_key_share_repo.load(0, Some(&stored), Some(&key)).ok().unwrap();
    assert_eq!(result.index, ShareIndex::new(0));

    let save_bytes = bincode::serialize(&SerdeSecret(secret_key_share.secret_key_share)).unwrap();
    let load_bytes = bincode::serialize(&SerdeSecret(result.secret_key_share)).unwrap();
    assert_eq!(save_bytes, load_bytes);
}

#[test]
fn secret_key_share_repository_load_fail_when_env_var_is_unset() {
    let key = master_key();
    let secret_key_share_repo = build_secret_key_share_repository("test_secret_key_share.enc".to_string());
    let secret_key_share = build_secret_key_share();
    let (_, stored) = secret_key_share_repo.save(&secret_key_share, Some(&key)).unwrap();

    let result = secret_key_share_repo.load(0, Some(&stored), None);
    assert!(matches!(
        result.err().unwrap(),
        SecretKeyShareRepositoryError::FailedDecryptSecretKeyShare
    ));
}

#[test]
fn secret_key_share_repository_load_fail_when_env_var_is_invalid() {
    let key = master_key();
    let secret_key_share_repo = build_secret_key_share_repository("test_secret_key_share.enc".to_string());
    let secret_key_share = build_secret_key_share();
    let (_, stored) = secret_key_share_repo.save(&secret_key_share, Some(&key)).unwrap();

    let result = secret_key_share_repo.load(0, Some(&stored), Some(&invalid_length_master_key()));
    assert!(matches!(
        result.err().unwrap(),
        SecretKeyShareRepositoryError::FailedDecryptSecretKeyShare
    ));
}

#[test]
fn secret_key_share_repository_load_fail_when_repository_path_is_invalid() {
    let key = master_key();
    let secret_key_share_repo = build_secret_key_share_repository("invalid.enc".to_string());
    let result = secret_key_share_repo.load(0, None, Some(&key));
    assert!(matches!(
        result.err().unwrap(),
        SecretKeyShareRepositoryError::FailedReadRepoFile
    ));
}

#[test]
fn secret_key_share_repository_paths_carry_the_index() {
    let repo = build_secret_key_share_repository("dir/share".to_string());
    assert_eq!(repo.get_file_path_with_index(0), "dir/share-0");
    assert_eq!(repo.get_file_path_with_index(10), "dir/share-10");
    assert_eq!(repo.get_file_path_with_index(987654321), "dir/share-987654321");
}

#[test]
fn crypter_round_trip() {
    let key = master_key();
    let crypter = Crypter;
    let plain = b"threshold".to_vec();
    let encrypted = crypter.encrypt_bytes(&plain, Some(&key)).unwrap();
    assert_eq!(encrypted.len(), 12 + plain.len() + 16);
    assert_eq!(crypter.decrypt_bytes(&encrypted, Some(&key)).unwrap(), plain);
}

#[test]
fn crypter_with_given_nonce_prefixes_it() {
    let key = master_key();
    let crypter = Crypter;
    let nonce = [9u8; 12];
    let a = crypter.encrypt_bytes_with_nonce(b"abc", Some(&key), &nonce).unwrap();
    let b = crypter.encrypt_bytes_with_nonce(b"abc", Some(&key), &nonce).unwrap();
    assert_eq!(a, b);
    assert_eq!(&a[..12], &nonce[..]);
}

#[test]
fn crypter_master_key_errors() {
    let crypter = Crypter;
    assert!(matches!(crypter.load_master_key(None).err().unwrap(), CrypterError::FailedGetEnvVar));
    assert!(matches!(
        crypter.load_master_key(Some("not base64!")).err().unwrap(),
        CrypterError::FailedBase64Decode
    ));
    assert!(matches!(
        crypter.load_master_key(Some(&invalid_length_master_key())).err().unwrap(),
        CrypterError::InvalidKeyLength
    ));
    assert_eq!(crypter.load_master_key(Some(&master_key())).unwrap(), vec![1u8; 32]);
}

#[test]
fn crypter_rejects_tampered_bytes() {
    let key = master_key();
    let crypter = Crypter;
    let mut encrypted = crypter.encrypt_bytes(b"payload", Some(&key)).unwrap();
    let last = encrypted.len() - 1;
    encrypted[last] ^= 1;
    assert!(matches!(
        crypter.decrypt_bytes(&encrypted, Some(&key)).err().unwrap(),
        CrypterError::FailedDecrypt
    ));
}
