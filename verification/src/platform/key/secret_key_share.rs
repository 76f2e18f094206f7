use vstd::prelude::*;

use threshold_crypto::SecretKeyShare as BlsSecretKeyShare;
use threshold_crypto::SignatureShare as BlsSignatureShare;

use crate::model::key::Signable;
use crate::model::signature::{Digest, SignatureShare};
use crate::model::value::ShareIndex;
use crate::platform::threshold::{share_signature, sign_with_share};

verus! {

/// Why a share could not sign. Signing with a `threshold_crypto` share cannot
/// fail, so this implementation never returns it.
#[derive(Debug)]
pub enum SecretKeyShareError {
    FailedSign,
}

impl Signable for BlsSecretKeyShare {
    type TDigest = Vec<u8>;
    type TSignatureShare = BlsSignatureShare;
    type TError = SecretKeyShareError;

    open spec fn signs_infallibly() -> bool {
        true
    }

    open spec fn signature_for(&self, digest: Vec<u8>) -> Option<BlsSignatureShare> {
        Some(share_signature(*self, digest@))
    }

    /// Signs the digest bytes with this share; the signature share carries the
    /// index it was asked to sign under. What the trait states of `sign` is
    /// checked here; nothing more can be written on this method, whose name
    /// `threshold_crypto::SecretKeyShare` also has for its own `sign`.
    fn sign(&self, index: ShareIndex, digest: &Digest<Vec<u8>>) -> (r: Result<
        SignatureShare<BlsSignatureShare>,
        SecretKeyShareError,
    >) {
        let signature_share = sign_with_share(self, digest.digest.as_slice());
        Ok(SignatureShare::new(index, signature_share))
    }
}

} // verus!
