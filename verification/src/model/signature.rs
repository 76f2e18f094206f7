use vstd::prelude::*;

use crate::model::value::ShareIndex;

verus! {

/// The digest of a message: what is actually signed.
pub struct Digest<T> {
    pub digest: T,
}

/// The signature that one secret key share makes, tagged with its index.
pub struct SignatureShare<T> {
    pub index: ShareIndex,
    pub signature_share: T,
}

/// A full signature, combined from enough signature shares.
pub struct Signature<T> {
    pub signature: T,
}

impl<T> Digest<T> {
    pub fn new(digest: T) -> (r: Self)
        ensures
            r.digest == digest,
    {
        Self { digest }
    }
}

impl<T> SignatureShare<T> {
    pub fn new(index: ShareIndex, signature_share: T) -> (r: Self)
        ensures
            r.index == index,
            r.signature_share == signature_share,
    {
        Self { index, signature_share }
    }
}

impl<T> Signature<T> {
    pub fn new(signature: T) -> (r: Self)
        ensures
            r.signature == signature,
    {
        Self { signature }
    }
}

} // verus!
