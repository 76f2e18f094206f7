use vstd::prelude::*;

use threshold_crypto::PublicKeySet;
use threshold_crypto::Signature as BlsSignature;
use threshold_crypto::SignatureShare as BlsSignatureShare;

use crate::model::key::{CombineSignatureShares, Verifiable};
use crate::model::signature::{Digest, Signature, SignatureShare};
use crate::platform::threshold::{
    bls_verifies, combination, combine_signatures_of, commitment_len, distinct_indices,
    has_commitment, master_key_of, master_public_key, pair_values, public_key_set_of, signed_by,
    verify_with_public_key,
};

verus! {

#[derive(Debug)]
pub enum PublicKeySetError {
    FailedCombineSignature,
}

/// The `(index, share)` pairs that signature shares are combined as: each
/// share at its own index, in order.
pub open spec fn share_pairs(shares: Seq<SignatureShare<BlsSignatureShare>>) -> Seq<
    (usize, BlsSignatureShare),
> {
    shares.map_values(|s: SignatureShare<BlsSignatureShare>| (s.index@, s.signature_share))
}

impl Verifiable for PublicKeySet {
    type TSignature = BlsSignature;
    type TDigest = Vec<u8>;
    type TError = PublicKeySetError;

    /// Checks the signature against the digest under the set's master public
    /// key. Never fails: the outcome is the `Ok` boolean, `threshold_crypto`'s
    /// answer. A set without a master key (an empty commitment, which
    /// decoding accepts) verifies nothing.
    fn verify(
        &self,
        signature: &Signature<BlsSignature>,
        digest: &Digest<Vec<u8>>,
    ) -> (r: Result<bool, PublicKeySetError>)
        ensures
            r == Ok::<bool, PublicKeySetError>(commitment_len(*self) > 0 && bls_verifies(
                master_key_of(*self),
                signature.signature,
                digest.digest@,
            )),
    {
        if !has_commitment(self) {
            return Ok(false);
        }
        let public_key = master_public_key(self);
        let is_valid = verify_with_public_key(&public_key, &signature.signature, digest.digest.as_slice());
        Ok(is_valid)
    }
}

impl CombineSignatureShares for PublicKeySet {
    type TSignatureShare = BlsSignatureShare;
    type TSignature = BlsSignature;
    type TError = PublicKeySetError;

    /// Interpolates the shares, each at its own index and in the given order,
    /// into a full signature (`threshold_crypto`'s combination); fails with
    /// `FailedCombineSignature` when `threshold_crypto` refuses, and so for
    /// fewer shares than `threshold + 1` or a set without a master key.
    /// Enough shares at distinct indices always combine, and shares of one
    /// key set's signatures of a message combine into a signature of that
    /// message under the master key.
    fn combine_signature_shares(
        &self,
        signature_shares: &[SignatureShare<BlsSignatureShare>],
    ) -> (r: Result<Signature<BlsSignature>, PublicKeySetError>)
        ensures
            r is Ok <==> (commitment_len(*self) > 0 && combination(*self, share_pairs(signature_shares@)) is Some),
            r matches Ok(signature) ==> combination(*self, share_pairs(signature_shares@)) == Some(
                signature.signature,
            ),
            signature_shares@.len() < commitment_len(*self) ==> r is Err,
            signature_shares@.len() == 0 ==> r is Err,
            commitment_len(*self) > 0 && signature_shares@.len() >= commitment_len(*self)
                && distinct_indices(share_pairs(signature_shares@)) ==> r is Ok,
            forall|secret_key_set: threshold_crypto::SecretKeySet, message: Seq<u8>|
                *self == public_key_set_of(secret_key_set) && #[trigger] signed_by(
                    secret_key_set,
                    share_pairs(signature_shares@),
                    message,
                ) && distinct_indices(share_pairs(signature_shares@)) ==> (r matches Ok(signature)
                    ==> bls_verifies(master_key_of(*self), signature.signature, message)),
            forall|
                secret_key_set: threshold_crypto::SecretKeySet,
                message: Seq<u8>,
                other: Seq<(usize, BlsSignatureShare)>,
            |
                *self == public_key_set_of(secret_key_set) && commitment_len(*self) > 0
                    && #[trigger] signed_by(
                    secret_key_set,
                    share_pairs(signature_shares@),
                    message,
                ) && distinct_indices(share_pairs(signature_shares@)) && signature_shares@.len()
                    >= commitment_len(*self) && #[trigger] signed_by(secret_key_set, other, message)
                    && distinct_indices(other) && other.len() >= commitment_len(*self) ==> (r matches Ok(
                    signature,
                ) && combination(*self, other) == Some(signature.signature)),
    {
        if !has_commitment(self) {
            return Err(PublicKeySetError::FailedCombineSignature);
        }
        let mut pairs: Vec<(usize, &BlsSignatureShare)> = Vec::new();
        let mut i: usize = 0;
        while i < signature_shares.len()
            invariant
                i <= signature_shares@.len(),
                pairs@.len() == i,
                forall|j: int|
                    0 <= j < i ==> (#[trigger] pairs@[j]).0 == signature_shares@[j].index@
                        && pairs@[j].1 == signature_shares@[j].signature_share,
            decreases signature_shares@.len() - i,
        {
            let share = &signature_shares[i];
            pairs.push((share.index.get(), &share.signature_share));
            i = i + 1;
        }
        assert(pair_values(pairs@) =~= share_pairs(signature_shares@));
        match combine_signatures_of(self, pairs.as_slice()) {
            Some(signature) => Ok(Signature::new(signature)),
            None => Err(PublicKeySetError::FailedCombineSignature),
        }
    }
}

} // verus!
