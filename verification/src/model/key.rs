use vstd::prelude::*;

use crate::model::signature::{Digest, Signature, SignatureShare};
use crate::model::value::ShareIndex;

verus! {

/// A public key (for threshold schemes: the public key set).
pub struct PublicKey<T> {
    pub public_key: T,
}

/// A secret key together with the number of shares it is to be divided into.
pub struct SecretKey<T> {
    num_key_shares: usize,
    secret_key: T,
}

/// One share of a divided secret key.
pub struct SecretKeyShare<T> {
    pub index: ShareIndex,
    pub secret_key_share: T,
}

/// A key that can check a full signature against a digest.
pub trait Verifiable {
    type TSignature;
    type TDigest;
    type TError;

    fn verify(
        &self,
        signature: &Signature<Self::TSignature>,
        digest: &Digest<Self::TDigest>,
    ) -> Result<bool, Self::TError>;
}

/// A secret key that can be split into `num_divide` shares.
pub trait Divisible {
    type TSecretKeyShare;
    type TError;

    fn divide(&self, num_divide: usize) -> Result<
        Vec<SecretKeyShare<Self::TSecretKeyShare>>,
        Self::TError,
    >;
}

/// A secret key share that can sign a digest under a given share index. The
/// signature share it makes carries that index; an implementation whose
/// signing cannot fail says so through `signs_infallibly`, and one whose
/// signature share is a function of the share and the digest names it
/// through `signature_for`.
pub trait Signable {
    type TDigest;
    type TSignatureShare;
    type TError;

    /// Whether `sign` never fails.
    open spec fn signs_infallibly() -> bool {
        false
    }

    /// The signature share that signing `digest` gives, where the
    /// implementation states it.
    open spec fn signature_for(&self, digest: Self::TDigest) -> Option<Self::TSignatureShare> {
        None
    }

    fn sign(&self, index: ShareIndex, digest: &Digest<Self::TDigest>) -> (r: Result<
        SignatureShare<Self::TSignatureShare>,
        Self::TError,
    >)
        ensures
            r matches Ok(share) ==> share.index == index,
            Self::signs_infallibly() ==> r is Ok,
            self.signature_for(digest.digest) matches Some(signature_share) ==> (r matches Ok(share)
                ==> share.signature_share == signature_share),
    ;
}

/// A public key that can combine signature shares into a full signature.
pub trait CombineSignatureShares {
    type TSignatureShare;
    type TSignature;
    type TError;

    fn combine_signature_shares(
        &self,
        signature_shares: &[SignatureShare<Self::TSignatureShare>],
    ) -> Result<Signature<Self::TSignature>, Self::TError>;
}

impl<T> PublicKey<T> where T: Verifiable + CombineSignatureShares {
    pub fn new(public_key: T) -> (r: Self)
        ensures
            r.public_key == public_key,
    {
        Self { public_key }
    }

    /// Checks `signature` against `digest` with the wrapped key: the result is
    /// whatever the key's own `verify` gives for these arguments.
    pub fn verify(
        &self,
        signature: &Signature<<T as Verifiable>::TSignature>,
        digest: &Digest<<T as Verifiable>::TDigest>,
    ) -> (r: Result<bool, <T as Verifiable>::TError>)
        ensures
            call_ensures(<T as Verifiable>::verify, (&self.public_key, signature, digest), r),
    {
        self.public_key.verify(signature, digest)
    }

    /// Combines `signature_shares` with the wrapped key: the result is whatever
    /// the key's own `combine_signature_shares` gives for these shares.
    pub fn combine_signature_shares(
        &self,
        signature_shares: &[SignatureShare<<T as CombineSignatureShares>::TSignatureShare>],
    ) -> (r: Result<
        Signature<<T as CombineSignatureShares>::TSignature>,
        <T as CombineSignatureShares>::TError,
    >)
        ensures
            call_ensures(
                <T as CombineSignatureShares>::combine_signature_shares,
                (&self.public_key, signature_shares),
                r,
            ),
    {
        self.public_key.combine_signature_shares(signature_shares)
    }
}

/// When a secret key can be made for a threshold scheme: a positive threshold
/// and share count, the threshold no larger than the share count.
pub open spec fn valid_threshold(threshold: int, num_key_shares: int) -> bool {
    &&& threshold != 0
    &&& num_key_shares != 0
    &&& threshold <= num_key_shares
}

/// A threshold scheme can be made exactly for `1 <= threshold <= n`: every
/// positive threshold up to the share count, the share count itself included
/// (all shares must sign), and none other.
pub proof fn lemma_valid_threshold_range(threshold: nat, num_key_shares: nat)
    ensures
        valid_threshold(threshold as int, num_key_shares as int) <==> 1 <= threshold <= num_key_shares,
        1 <= num_key_shares ==> valid_threshold(num_key_shares as int, num_key_shares as int),
        1 <= num_key_shares ==> valid_threshold(1, num_key_shares as int),
{
}

impl<T> SecretKey<T> {
    /// The number of shares this key divides into.
    pub closed spec fn num_key_shares(&self) -> usize {
        self.num_key_shares
    }

    /// The wrapped secret key.
    pub closed spec fn secret_key(&self) -> T {
        self.secret_key
    }
}

impl<T> SecretKey<T> where T: Divisible {
    /// Makes a key to be divided into `num_key_shares` shares, any `threshold`
    /// of which sign; `None` unless `valid_threshold(threshold, num_key_shares)`.
    pub fn new(threshold: usize, num_key_shares: usize, secret_key: T) -> (r: Option<Self>)
        ensures
            r is Some <==> valid_threshold(threshold as int, num_key_shares as int),
            r is Some <==> 1 <= threshold <= num_key_shares,
            r matches Some(k) ==> {
                &&& k.num_key_shares() == num_key_shares
                &&& k.secret_key() == secret_key
            },
    {
        if threshold == 0 || num_key_shares == 0 {
            return None;
        }
        if threshold > num_key_shares {
            return None;
        }
        Some(Self { num_key_shares, secret_key })
    }

    /// Divides the key into `num_key_shares()` shares: the result is whatever
    /// the key's own `divide` gives for that count.
    pub fn divide(&self) -> (r: Result<
        Vec<SecretKeyShare<<T as Divisible>::TSecretKeyShare>>,
        <T as Divisible>::TError,
    >)
        ensures
            call_ensures(
                <T as Divisible>::divide,
                (&self.secret_key(), self.num_key_shares()),
                r,
            ),
    {
        self.secret_key.divide(self.num_key_shares)
    }
}

impl<T> SecretKeyShare<T> where T: Signable {
    pub fn new(index: ShareIndex, secret_key_share: T) -> (r: Self)
        ensures
            r.index == index,
            r.secret_key_share == secret_key_share,
    {
        Self { index, secret_key_share }
    }

    /// Signs `digest` with this share under its own index: the result is
    /// whatever the share's own `sign` gives, so a signature share carries
    /// this share's index.
    pub fn sign(&self, digest: &Digest<<T as Signable>::TDigest>) -> (r: Result<
        SignatureShare<<T as Signable>::TSignatureShare>,
        <T as Signable>::TError,
    >)
        ensures
            call_ensures(
                <T as Signable>::sign,
                (&self.secret_key_share, self.index, digest),
                r,
            ),
            r matches Ok(share) ==> share.index == self.index,
            T::signs_infallibly() ==> r is Ok,
            self.secret_key_share.signature_for(digest.digest) matches Some(signature_share) ==> (r matches Ok(
                share,
            ) ==> share.signature_share == signature_share),
    {
        self.secret_key_share.sign(self.index, digest)
    }
}

} // verus!
