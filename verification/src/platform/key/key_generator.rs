use vstd::prelude::*;

use threshold_crypto::{PublicKeySet, SecretKeySet};

use crate::logic::key_service::GenerateKey;
use crate::model::key::{valid_threshold, PublicKey, SecretKey};
use crate::platform::threshold::{
    commitment_len, public_key_set_of, public_keys_of, random_secret_key_set,
    secret_key_set_threshold,
};

verus! {

/// Generates fresh `threshold_crypto` key sets.
pub struct KeyGenerator;

#[derive(Debug)]
pub enum KeyGeneratorError {
    InvalidArgument,
    FailedGenerateSecretKey,
}

impl GenerateKey for KeyGenerator {
    type TError = KeyGeneratorError;
    type TPublicKey = PublicKeySet;
    type TSecretKey = SecretKeySet;

    /// Draws a random key set in which any `threshold` of the `num_divide`
    /// shares sign (a polynomial of degree `threshold - 1`). Refuses a zero
    /// threshold or share count, and a threshold above the share count, with
    /// `InvalidArgument`; otherwise succeeds, with a secret key to be divided
    /// into `num_divide` shares and the public key set that belongs to it,
    /// whose commitment has `threshold` coefficients.
    fn generate_keys(&self, threshold: usize, num_divide: usize) -> (r: Result<
        (PublicKey<PublicKeySet>, SecretKey<SecretKeySet>),
        KeyGeneratorError,
    >)
        ensures
            r is Ok <==> valid_threshold(threshold as int, num_divide as int),
            r is Ok <==> 1 <= threshold <= num_divide,
            r is Err ==> r matches Err(KeyGeneratorError::InvalidArgument),
            r matches Ok((public_key, secret_key)) ==> {
                &&& secret_key.num_key_shares() == num_divide
                &&& public_key.public_key == public_key_set_of(secret_key.secret_key())
                &&& secret_key_set_threshold(secret_key.secret_key()) + 1 == threshold
                &&& commitment_len(public_key.public_key) == threshold
            },
    {
        if (threshold > num_divide) || (num_divide < 1) || (threshold < 1) {
            return Err(KeyGeneratorError::InvalidArgument);
        }
        let secret_key_set = random_secret_key_set(threshold - 1);
        let public_key_set = public_keys_of(&secret_key_set);

        let public_key = PublicKey::new(public_key_set);
        let secret_key = match SecretKey::new(threshold, num_divide, secret_key_set) {
            Some(k) => k,
            None => return Err(KeyGeneratorError::FailedGenerateSecretKey),
        };
        Ok((public_key, secret_key))
    }
}

} // verus!
