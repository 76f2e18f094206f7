use rand::thread_rng;
use threshold_crypto::SecretKeySet;

use d_sign::logic::key_service::{GenerateDigest, GenerateKey};
use d_sign::model::key::{CombineSignatureShares, Divisible, Signable, Verifiable};
use d_sign::model::signature::SignatureShare;
use d_sign::model::value::ShareIndex;
use d_sign::platform::digest_generator::{DigestGenarator, DigestGenaratorError};
use d_sign::platform::key::key_generator::{KeyGenerator, KeyGeneratorError};
use d_sign::platform::key::public_key::PublicKeySetError;

#[test]
fn public_key_set_verify_success() {
    let mut rng = thread_rng();
    let secret_key_set = SecretKeySet::random(0, &mut rng);

    let public_key_set = secret_key_set.public_keys();
    let secret_key_share = secret_key_set.secret_key_share(0);

    let message = "message";
    let digest_generator = DigestGenarator;
    let digest = digest_generator.generate_digest(message).unwrap();

    let signature_share = secret_key_share.sign(&digest.digest);
    let signature_shares = vec![SignatureShare::new(ShareIndex::new(0), signature_share)];

    let signature = public_key_set.combine_signature_shares(&signature_shares).unwrap();

    let result = public_key_set.verify(&signature, &digest);
    let is_valid = result.ok().unwrap();

    assert!(is_valid);
}

#[test]
fn public_key_set_verify_failed() {
    let mut rng = thread_rng();
    let secret_key_set = SecretKeySet::random(0, &mut rng);

    let public_key_set = secret_key_set.public_keys();
    let secret_key_share = secret_key_set.secret_key_share(0);

    let digest_generator = DigestGenarator;

    let fake_message = "fake_message";
    let fake_digest = digest_generator.generate_digest(fake_message).unwrap();

    let message = "message";
    let digest = digest_generator.generate_digest(message).unwrap();

    let signature_share = secret_key_share.sign(&digest.digest);
    let signature_shares = vec![SignatureShare::new(ShareIndex::new(0), signature_share)];

    let signature = public_key_set.combine_signature_shares(&signature_shares).unwrap();

    let result = public_key_set.verify(&signature, &fake_digest);
    let is_valid = result.ok().unwrap();

    assert!(!is_valid);
}

#[test]
fn public_key_set_combine_sinature_shares_success() {
    let mut rng = thread_rng();
    let secret_key_set = SecretKeySet::random(1, &mut rng);

    let public_key_set = secret_key_set.public_keys();

    let message = "message";

    let share1 = secret_key_set.secret_key_share(0).sign(message);
    let share2 = secret_key_set.secret_key_share(1).sign(message);

    let shares = vec![
        SignatureShare::new(ShareIndex::new(0), share1),
        SignatureShare::new(ShareIndex::new(1), share2),
    ];

    let result = public_key_set.combine_signature_shares(&shares);
    assert!(result.is_ok());
}

#[test]
fn publci_key_set_combine_signature_shares_fail() {
    let mut rng = thread_rng();
    let secret_key_set = SecretKeySet::random(1, &mut rng);

    let public_key_set = secret_key_set.public_keys();

    let message = "message";

    let share1 = secret_key_set.secret_key_share(0).sign(message);

    let shares = vec![SignatureShare::new(ShareIndex::new(0), share1)];

    let result = public_key_set.combine_signature_shares(&shares);
    assert!(matches!(result.err().unwrap(), PublicKeySetError::FailedCombineSignature,));
}

#[test]
fn public_key_set_combine_no_shares_fails() {
    let secret_key_set = SecretKeySet::random(0, &mut thread_rng());
    let public_key_set = secret_key_set.public_keys();
    let shares: Vec<SignatureShare<threshold_crypto::SignatureShare>> = Vec::new();
    assert!(matches!(
        public_key_set.combine_signature_shares(&shares).err().unwrap(),
        PublicKeySetError::FailedCombineSignature
    ));
}

#[test]
fn secret_key_share_sign_success() {
    let mut rng = thread_rng();
    let secret_key_set = SecretKeySet::random(0, &mut rng);

    let secret_key_share = secret_key_set.secret_key_share(0);
    let digest_generator = DigestGenarator;
    let digest = digest_generator.generate_digest("message").unwrap();

    let result = Signable::sign(&secret_key_share, ShareIndex::new(0), &digest);
    assert!(result.is_ok());
    assert_eq!(result.unwrap().index, ShareIndex::new(0));
}

#[test]
fn secret_key_set_divides_into_indexed_shares() {
    let secret_key_set = SecretKeySet::random(1, &mut thread_rng());
    let shares = secret_key_set.divide(3).unwrap();
    assert_eq!(shares.len(), 3);
    for (i, share) in shares.iter().enumerate() {
        assert_eq!(share.index, ShareIndex::new(i));
        assert!(share.secret_key_share == secret_key_set.secret_key_share(i));
    }
}

#[test]
fn key_generator_generate_keys_success() {
    let key_generator = KeyGenerator;
    let result = key_generator.generate_keys(2, 3);
    assert!(result.is_ok());
}

#[test]
fn key_generator_generate_keys_invalid_arg_threshold_is_greater_num_divide() {
    let key_generator = KeyGenerator;
    let result = key_generator.generate_keys(3, 2);
    assert!(matches!(result.err().unwrap(), KeyGeneratorError::InvalidArgument));
}

#[test]
fn key_generator_generates_keys_invalid_arg_threshold_is_zero() {
    let key_generator = KeyGenerator;
    let result = key_generator.generate_keys(0, 2);
    assert!(matches!(result.err().unwrap(), KeyGeneratorError::InvalidArgument));
}

#[test]
fn key_generator_generates_keys_invalid_arg_num_divide_is_zero() {
    let key_generator = KeyGenerator;
    let result = key_generator.generate_keys(2, 0);
    assert!(matches!(result.err().unwrap(), KeyGeneratorError::InvalidArgument));
}

#[test]
fn key_generator_threshold_shares_sign_together() {
    let (public_key, secret_key) = KeyGenerator.generate_keys(2, 3).ok().unwrap();
    assert_eq!(public_key.public_key.threshold(), 1);
    let shares = secret_key.divide().unwrap();
    assert_eq!(shares.len(), 3);
    let digest = DigestGenarator.generate_digest("hello").unwrap();
    let signature_shares: Vec<_> = shares[1..]
        .iter()
        .map(|s| s.sign(&digest).unwrap())
        .collect();
    let signature = public_key.combine_signature_shares(&signature_shares).unwrap();
    assert!(public_key.verify(&signature, &digest).unwrap());
}

#[test]
fn digest_generator_generate_digest_success() {
    let digest_generator = DigestGenarator;

    let message = "message";
    let result = digest_generator.generate_digest(message);
    assert!(result.is_ok());
}

#[test]
fn digest_generator_generate_digest_fail_when_message_is_empty() {
    let digest_generator = DigestGenarator;

    let message = "";
    let result = digest_generator.generate_digest(message);
    assert!(result.is_err());
    assert!(matches!(result.err().unwrap(), DigestGenaratorError::MessageIsEmpty));
}

#[test]
fn digest_generator_gives_sha256_of_message() {
    let digest = DigestGenarator.generate_digest("abc").unwrap();
    assert_eq!(
        hex::encode(&digest.digest),
        "ba7816bf8f01cfea414140de5dae2223b00361a396177a9cb410ff61f20015ad"
    );
}
