use vstd::prelude::*;

use crate::logic::key_service::GenerateDigest;
use crate::model::signature::Digest;
use vstd::string::StringSliceAdditionalSpecFns;

verus! {

/// The SHA-256 digest of `data`, as the `sha2` crate computes it.
pub uninterp spec fn sha256(data: Seq<u8>) -> Seq<u8>;

/// `<sha2::Sha256 as sha2::Digest>::digest`: the named digest, 32 bytes long.
#[verifier::external_body]
pub(crate) fn sha256_of(data: &[u8]) -> (r: Vec<u8>)
    ensures
        r@ == sha256(data@),
        r@.len() == 32,
{
    <sha2::Sha256 as sha2::Digest>::digest(data).to_vec()
}

/// Hashes messages with SHA-256.
pub struct DigestGenarator;

#[derive(Debug)]
pub enum DigestGenaratorError {
    MessageIsEmpty,
}

/// The digest the generator makes of a message: an error for the empty
/// message, the SHA-256 of its UTF-8 bytes otherwise.
pub open spec fn message_digest(message: &str) -> Result<Seq<u8>, DigestGenaratorError> {
    if message@.len() == 0 {
        Err(DigestGenaratorError::MessageIsEmpty)
    } else {
        Ok(sha256(message.spec_bytes()))
    }
}

impl GenerateDigest for DigestGenarator {
    type TError = DigestGenaratorError;
    type TDigest = Vec<u8>;

    fn generate_digest(&self, message: &str) -> (r: Result<Digest<Vec<u8>>, DigestGenaratorError>)
        ensures
            match message_digest(message) {
                Ok(d) => r matches Ok(digest) && digest.digest@ == d && d.len() == 32,
                Err(e) => r == Err::<Digest<Vec<u8>>, DigestGenaratorError>(e),
            },
    {
        if message.is_empty() {
            return Err(DigestGenaratorError::MessageIsEmpty);
        }
        let digest = sha256_of(message.as_bytes());
        Ok(Digest::new(digest))
    }
}

} // verus!
