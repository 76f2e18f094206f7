use std::cell::Cell;

use d_sign::model::key::{
    CombineSignatureShares, Divisible, PublicKey, SecretKey, SecretKeyShare, Signable, Verifiable,
};
use d_sign::model::signature::{Digest, Signature, SignatureShare};
use d_sign::model::value::ShareIndex;

#[derive(Debug, PartialEq)]
enum MockError {
    Verify,
    CombineSignatureShares,
    Divide,
    Sign,
}

struct MockVerifiableCombinableKey {
    verify_result: Option<Result<bool, MockError>>,
    combine_result: Option<Result<u32, MockError>>,
    verify_calls: Cell<usize>,
    combine_calls: Cell<usize>,
}

impl MockVerifiableCombinableKey {
    fn new() -> Self {
        Self {
            verify_result: None,
            combine_result: None,
            verify_calls: Cell::new(0),
            combine_calls: Cell::new(0),
        }
    }
}

impl Verifiable for MockVerifiableCombinableKey {
    type TSignature = u32;
    type TDigest = u32;
    type TError = MockError;

    fn verify(&self, _signature: &Signature<u32>, _digest: &Digest<u32>) -> Result<bool, MockError> {
        self.verify_calls.set(self.verify_calls.get() + 1);
        match &self.verify_result {
            Some(Ok(b)) => Ok(*b),
            Some(Err(_)) => Err(MockError::Verify),
            None => panic!("unexpected call to verify"),
        }
    }
}

impl CombineSignatureShares for MockVerifiableCombinableKey {
    type TSignatureShare = u32;
    type TSignature = u32;
    type TError = MockError;

    fn combine_signature_shares(
        &self,
        _signature_shares: &[SignatureShare<u32>],
    ) -> Result<Signature<u32>, MockError> {
        self.combine_calls.set(self.combine_calls.get() + 1);
        match &self.combine_result {
            Some(Ok(s)) => Ok(Signature::new(*s)),
            Some(Err(_)) => Err(MockError::CombineSignatureShares),
            None => panic!("unexpected call to combine_signature_shares"),
        }
    }
}

struct MockSignableShare {
    sign_result: Option<Result<(usize, u32), MockError>>,
    sign_calls: Cell<usize>,
}

impl MockSignableShare {
    fn new() -> Self {
        Self { sign_result: None, sign_calls: Cell::new(0) }
    }
}

impl Signable for MockSignableShare {
    type TDigest = u32;
    type TSignatureShare = u32;
    type TError = MockError;

    fn sign(&self, _index: ShareIndex, _digest: &Digest<u32>) -> Result<SignatureShare<u32>, MockError> {
        self.sign_calls.set(self.sign_calls.get() + 1);
        match &self.sign_result {
            Some(Ok((i, s))) => Ok(SignatureShare::new(ShareIndex::new(*i), *s)),
            Some(Err(_)) => Err(MockError::Sign),
            None => panic!("unexpected call to sign"),
        }
    }
}

struct MockDivisibleKey {
    fail: bool,
    divide_calls: Cell<usize>,
}

impl MockDivisibleKey {
    fn new() -> Self {
        Self { fail: false, divide_calls: Cell::new(0) }
    }
}

impl Divisible for MockDivisibleKey {
    type TSecretKeyShare = MockSignableShare;
    type TError = MockError;

    fn divide(&self, _num_divide: usize) -> Result<Vec<SecretKeyShare<MockSignableShare>>, MockError> {
        self.divide_calls.set(self.divide_calls.get() + 1);
        if self.fail {
            return Err(MockError::Divide);
        }
        Ok(vec![
            SecretKeyShare::new(ShareIndex::new(1), MockSignableShare::new()),
            SecretKeyShare::new(ShareIndex::new(2), MockSignableShare::new()),
        ])
    }
}

#[test]
fn test_public_key_verify_call_verify() {
    let mut mock = MockVerifiableCombinableKey::new();
    mock.verify_result = Some(Ok(true));

    let public_key = PublicKey::new(mock);
    let signature = Signature::new(10);
    let digest = Digest::new(10);

    let result = public_key.verify(&signature, &digest).unwrap();
    assert!(result);
    assert_eq!(public_key.public_key.verify_calls.get(), 1);
}

#[test]
fn test_public_key_verify_return_error_if_internal_verify_failed() {
    let mut mock = MockVerifiableCombinableKey::new();
    mock.verify_result = Some(Err(MockError::Verify));

    let public_key = PublicKey::new(mock);
    let signature = Signature::new(10);
    let digest = Digest::new(10);

    let result = public_key.verify(&signature, &digest);

    let err = result.err().unwrap();
    assert_eq!(err, MockError::Verify);
    assert_eq!(public_key.public_key.verify_calls.get(), 1);
}

#[test]
fn test_public_key_combine_signature_shares_call_combine_signature_shares() {
    let mut mock = MockVerifiableCombinableKey::new();
    mock.combine_result = Some(Ok(10));

    let public_key = PublicKey::new(mock);

    let signature_shares = vec![
        SignatureShare::new(ShareIndex::new(1), 10),
        SignatureShare::new(ShareIndex::new(2), 10),
    ];
    let result = public_key.combine_signature_shares(&signature_shares).unwrap();
    assert_eq!(result.signature, 10);
    assert_eq!(public_key.public_key.combine_calls.get(), 1);
}

#[test]
fn test_public_key_combine_signature_shares_return_error_if_internal_combine_signature_shares_failed() {
    let mut mock = MockVerifiableCombinableKey::new();
    mock.combine_result = Some(Err(MockError::CombineSignatureShares));

    let public_key = PublicKey::new(mock);

    let signature_shares = vec![
        SignatureShare::new(ShareIndex::new(1), 10),
        SignatureShare::new(ShareIndex::new(2), 10),
    ];
    let result = public_key.combine_signature_shares(&signature_shares);
    let err = result.err().unwrap();

    assert_eq!(err, MockError::CombineSignatureShares);
    assert_eq!(public_key.public_key.combine_calls.get(), 1);
}

#[test]
fn test_secret_key_created_in_threshold_less_num_key_shares() {
    let mock = MockDivisibleKey::new();
    let secret_key = SecretKey::new(1, 2, mock);
    assert!(secret_key.is_some());
}

#[test]
fn test_secret_key_created_in_threshold_equal_num_key_shares() {
    let mock = MockDivisibleKey::new();
    let secret_key = SecretKey::new(1, 1, mock);
    assert!(secret_key.is_some());
}

#[test]
fn test_secret_key_not_created_in_threshold_is_zero() {
    let mock = MockDivisibleKey::new();
    let secret_key = SecretKey::new(0, 1, mock);
    assert!(secret_key.is_none());
}

#[test]
fn test_secret_key_not_created_in_num_key_shares_is_zero() {
    let mock = MockDivisibleKey::new();
    let secret_key = SecretKey::new(1, 0, mock);
    assert!(secret_key.is_none());
}

#[test]
fn test_secret_key_not_created_in_threshold_greater_num_key_shares() {
    let mock = MockDivisibleKey::new();
    let secret_key = SecretKey::new(2, 1, mock);
    assert!(secret_key.is_none());
}

#[test]
fn test_secret_key_divide_call_divide() {
    let mock = MockDivisibleKey::new();

    let secret_key = SecretKey::new(1, 2, mock).unwrap();
    let result = secret_key.divide().unwrap();
    assert_eq!(result[0].index, ShareIndex::new(1));
    assert_eq!(result[1].index, ShareIndex::new(2));
}

#[test]
fn test_secret_key_divide_return_error_if_internal_divide_failed() {
    let mut mock = MockDivisibleKey::new();
    mock.fail = true;

    let secret_key = SecretKey::new(1, 2, mock).unwrap();
    let result = secret_key.divide();
    let err = result.err().unwrap();

    assert_eq!(err, MockError::Divide);
}

#[test]
fn test_secret_key_share_sign_call_sign() {
    let mut mock = MockSignableShare::new();
    mock.sign_result = Some(Ok((1, 100)));

    let secret_key_share = SecretKeyShare::new(ShareIndex::new(1), mock);
    let digest = Digest::new(100);
    let result = secret_key_share.sign(&digest).unwrap();
    assert_eq!(result.index, ShareIndex::new(1));
    assert_eq!(result.signature_share, 100);
    assert_eq!(secret_key_share.secret_key_share.sign_calls.get(), 1);
}

#[test]
fn test_secret_key_share_sign_return_error_if_internal_sign_failed() {
    let mut mock = MockSignableShare::new();
    mock.sign_result = Some(Err(MockError::Sign));
    let secret_key_share = SecretKeyShare::new(ShareIndex::new(1), mock);
    let digest = Digest::new(100);
    let result = secret_key_share.sign(&digest);

    let err = result.err().unwrap();
    assert_eq!(err, MockError::Sign);
}

#[test]
fn share_index_keeps_its_value() {
    assert_eq!(ShareIndex::new(7).get(), 7);
    assert_eq!(ShareIndex::new(0), ShareIndex::new(0));
    assert_ne!(ShareIndex::new(0), ShareIndex::new(1));
}

#[test]
fn signature_types_keep_their_fields() {
    let digest = Digest::new(vec![1u8, 2, 3]);
    assert_eq!(digest.digest, vec![1u8, 2, 3]);
    let share = SignatureShare::new(ShareIndex::new(4), 9u32);
    assert_eq!(share.index.get(), 4);
    assert_eq!(share.signature_share, 9);
    let signature = Signature::new(5u32);
    assert_eq!(signature.signature, 5);
}
