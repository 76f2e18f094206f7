//! The `threshold_crypto` types the library carries, and the calls it makes
//! into that crate (and into `bincode` for their byte form).
//!
//! Key sets, shares and signatures are opaque to the verifier. What a call
//! produces is given a name (a key set's public keys, a share of it, a
//! share's signature, the combination of signature shares, the master key,
//! the verification answer, what bincode reads back), and beside the names
//! stand the facts `threshold_crypto` documents: a combination of at least
//! `threshold + 1` shares, at distinct indices, of one key set's signatures of
//! a message verifies for that message under the set's master key.
use vstd::prelude::*;

use threshold_crypto::PublicKey as BlsPublicKey;
use threshold_crypto::SecretKeyShare as BlsSecretKeyShare;
use threshold_crypto::Signature as BlsSignature;
use threshold_crypto::SignatureShare as BlsSignatureShare;

verus! {

#[verifier::external_type_specification]
#[verifier::external_body]
pub struct ExPublicKeySet(threshold_crypto::PublicKeySet);

#[verifier::external_type_specification]
#[verifier::external_body]
pub struct ExSecretKeySet(threshold_crypto::SecretKeySet);

#[verifier::external_type_specification]
#[verifier::external_body]
pub struct ExBlsSecretKeyShare(BlsSecretKeyShare);

#[verifier::external_type_specification]
#[verifier::external_body]
pub struct ExBlsPublicKey(BlsPublicKey);

#[verifier::external_type_specification]
#[verifier::external_body]
pub struct ExBlsSignature(BlsSignature);

#[verifier::external_type_specification]
#[verifier::external_body]
pub struct ExBlsSignatureShare(BlsSignatureShare);

/// What `bincode::deserialize::<threshold_crypto::PublicKeySet>` reads from
/// `bytes` (`None` where it reports an error).
pub uninterp spec fn public_key_set_decoding(bytes: Seq<u8>) -> Option<threshold_crypto::PublicKeySet>;

/// What `bincode::deserialize` into a `SerdeSecret<SecretKeyShare>`,
/// unwrapped, reads from `bytes` (`None` where it reports an error).
pub uninterp spec fn secret_key_share_decoding(bytes: Seq<u8>) -> Option<BlsSecretKeyShare>;

/// What `bincode::deserialize::<threshold_crypto::SignatureShare>` reads from
/// `bytes` (`None` where it reports an error).
pub uninterp spec fn signature_share_decoding(bytes: Seq<u8>) -> Option<BlsSignatureShare>;

/// Whether `bytes` decode into a public key set.
pub open spec fn public_key_set_decodes(bytes: Seq<u8>) -> bool {
    public_key_set_decoding(bytes) is Some
}

/// Whether `bytes` decode into a secret key share.
pub open spec fn secret_key_share_decodes(bytes: Seq<u8>) -> bool {
    secret_key_share_decoding(bytes) is Some
}

/// Whether `bytes` decode into a signature share.
pub open spec fn signature_share_decodes(bytes: Seq<u8>) -> bool {
    signature_share_decoding(bytes) is Some
}

/// `SecretKeySet::threshold`: the degree of the key set's polynomial.
pub uninterp spec fn secret_key_set_threshold(secret_key_set: threshold_crypto::SecretKeySet) -> nat;

/// `SecretKeySet::public_keys`: the public key set of a secret key set.
pub uninterp spec fn public_key_set_of(
    secret_key_set: threshold_crypto::SecretKeySet,
) -> threshold_crypto::PublicKeySet;

/// The number of coefficients in a public key set's commitment
/// (`PublicKeySet::threshold` is one less, where there is at least one).
pub uninterp spec fn commitment_len(public_key_set: threshold_crypto::PublicKeySet) -> nat;

/// `SecretKeySet::secret_key_share`: the `index`-th share of a key set.
pub uninterp spec fn key_share_of(
    secret_key_set: threshold_crypto::SecretKeySet,
    index: nat,
) -> BlsSecretKeyShare;

/// `SecretKeyShare::sign`: a share's signature share of `message`.
pub uninterp spec fn share_signature(share: BlsSecretKeyShare, message: Seq<u8>) -> BlsSignatureShare;

/// `PublicKeySet::combine_signatures` of `(index, share)` pairs, taken in
/// order (`None` where it reports an error).
pub uninterp spec fn combination(
    public_key_set: threshold_crypto::PublicKeySet,
    pairs: Seq<(usize, BlsSignatureShare)>,
) -> Option<BlsSignature>;

/// `PublicKeySet::public_key`: the master public key.
pub uninterp spec fn master_key_of(public_key_set: threshold_crypto::PublicKeySet) -> BlsPublicKey;

/// `PublicKey::verify`: whether `signature` is a valid signature of `message`
/// under `public_key`.
pub uninterp spec fn bls_verifies(public_key: BlsPublicKey, signature: BlsSignature, message: Seq<u8>) -> bool;

/// No index occurs twice among the pairs.
pub open spec fn distinct_indices(pairs: Seq<(usize, BlsSignatureShare)>) -> bool {
    forall|i: int, j: int| 0 <= i < j < pairs.len() ==> pairs[i].0 != pairs[j].0
}

/// Each pair holds the signature share of `message` that the key set's share
/// at the pair's index makes.
pub open spec fn signed_by(
    secret_key_set: threshold_crypto::SecretKeySet,
    pairs: Seq<(usize, BlsSignatureShare)>,
    message: Seq<u8>,
) -> bool {
    forall|i: int|
        0 <= i < pairs.len() ==> #[trigger] pairs[i].1 == share_signature(
            key_share_of(secret_key_set, pairs[i].0 as nat),
            message,
        )
}

/// Borrowed `(index, share)` pairs seen as values.
pub open spec fn pair_values(pairs: Seq<(usize, &BlsSignatureShare)>) -> Seq<(usize, BlsSignatureShare)> {
    pairs.map_values(|p: (usize, &BlsSignatureShare)| (p.0, *p.1))
}

/// `threshold_crypto::SecretKeySet::random` with a fresh `rand::thread_rng()`:
/// a random key set whose polynomial has `threshold + 1` coefficients (degree
/// `threshold`), so its public key set's commitment has as many. It panics
/// only for `threshold == usize::MAX`, which `requires` leaves out. Of the
/// random set only this is stated.
#[verifier::external_body]
pub(crate) fn random_secret_key_set(threshold: usize) -> (r: threshold_crypto::SecretKeySet)
    requires
        threshold < usize::MAX,
    ensures
        secret_key_set_threshold(r) == threshold,
        commitment_len(public_key_set_of(r)) == threshold + 1,
{
    threshold_crypto::SecretKeySet::random(threshold, &mut rand::thread_rng())
}

/// `threshold_crypto::SecretKeySet::public_keys`: the named public key set.
#[verifier::external_body]
pub(crate) fn public_keys_of(
    secret_key_set: &threshold_crypto::SecretKeySet,
) -> (r: threshold_crypto::PublicKeySet)
    ensures
        r == public_key_set_of(*secret_key_set),
{
    secret_key_set.public_keys()
}

/// `threshold_crypto::SecretKeySet::secret_key_share`: the named `index`-th
/// share.
#[verifier::external_body]
pub(crate) fn secret_key_share_of(
    secret_key_set: &threshold_crypto::SecretKeySet,
    index: usize,
) -> (r: BlsSecretKeyShare)
    ensures
        r == key_share_of(*secret_key_set, index as nat),
{
    secret_key_set.secret_key_share(index)
}

/// `threshold_crypto::SecretKeyShare::sign`: the named signature share of
/// `message`.
#[verifier::external_body]
pub(crate) fn sign_with_share(
    share: &BlsSecretKeyShare,
    message: &[u8],
) -> (r: BlsSignatureShare)
    ensures
        r == share_signature(*share, message@),
{
    share.sign(message)
}

/// `threshold_crypto::PublicKeySet::combine_signatures`, fed the
/// `(index, share)` pairs in their order: the named combination. Its source
/// (through `Commitment::degree`) needs a commitment with a coefficient,
/// which `requires` asks for; it errs when fewer than `threshold + 1`
/// (= `commitment_len`) pairs are given, and interpolates the first
/// `threshold + 1` of them otherwise, which succeeds when their indices are
/// distinct (with a repeated index the outcome is not stated). As its
/// documentation states, the result of valid shares verifies under the
/// master key: shares of one key set's signatures of a message, at distinct
/// indices, combine into a signature of that message. Such a combination
/// interpolates the key set's polynomial at zero, so any two enough lists of
/// valid shares at distinct indices give the same signature.
#[verifier::external_body]
pub(crate) fn combine_signatures_of(
    public_key_set: &threshold_crypto::PublicKeySet,
    shares: &[(usize, &BlsSignatureShare)],
) -> (r: Option<BlsSignature>)
    requires
        commitment_len(*public_key_set) > 0,
    ensures
        r == combination(*public_key_set, pair_values(shares@)),
        shares@.len() < commitment_len(*public_key_set) ==> r is None,
        shares@.len() >= commitment_len(*public_key_set) && distinct_indices(pair_values(shares@))
            ==> r is Some,
        forall|secret_key_set: threshold_crypto::SecretKeySet, message: Seq<u8>|
            *public_key_set == public_key_set_of(secret_key_set) && #[trigger] signed_by(
                secret_key_set,
                pair_values(shares@),
                message,
            ) && distinct_indices(pair_values(shares@)) ==> (r matches Some(signature)
                ==> bls_verifies(master_key_of(*public_key_set), signature, message)),
        forall|
            secret_key_set: threshold_crypto::SecretKeySet,
            message: Seq<u8>,
            other: Seq<(usize, BlsSignatureShare)>,
        |
            *public_key_set == public_key_set_of(secret_key_set) && #[trigger] signed_by(
                secret_key_set,
                pair_values(shares@),
                message,
            ) && distinct_indices(pair_values(shares@)) && shares@.len() >= commitment_len(
                *public_key_set,
            ) && #[trigger] signed_by(secret_key_set, other, message) && distinct_indices(other)
                && other.len() >= commitment_len(*public_key_set) ==> combination(
                *public_key_set,
                other,
            ) == r,
{
    public_key_set.combine_signatures(shares.iter().copied()).ok()
}

/// `threshold_crypto::PublicKeySet::public_key`: the named master key. It
/// indexes the commitment's first coefficient, so `requires` asks for one.
#[verifier::external_body]
pub(crate) fn master_public_key(
    public_key_set: &threshold_crypto::PublicKeySet,
) -> (r: BlsPublicKey)
    requires
        commitment_len(*public_key_set) > 0,
    ensures
        r == master_key_of(*public_key_set),
{
    public_key_set.public_key()
}

/// `threshold_crypto::PublicKey::verify`: the named verification answer.
#[verifier::external_body]
pub(crate) fn verify_with_public_key(
    public_key: &BlsPublicKey,
    signature: &BlsSignature,
    message: &[u8],
) -> (r: bool)
    ensures
        r == bls_verifies(*public_key, *signature, message@),
{
    public_key.verify(signature, message)
}

/// `bincode::serialize` of a public key set. Its `Serialize` cannot fail under
/// bincode's default (unlimited) options, so the result is always `Some`: the
/// commitment's length as a little-endian `u64`, then each coefficient as a
/// 48-byte compressed point; `bincode::deserialize` reads it back. As any
/// `Vec<u8>`, it is at most `isize::MAX` long.
#[verifier::external_body]
pub(crate) fn serialize_public_key_set(
    public_key_set: &threshold_crypto::PublicKeySet,
) -> (r: Option<Vec<u8>>)
    ensures
        r is Some,
        r matches Some(bytes) ==> bytes@.len() == 8 + 48 * commitment_len(*public_key_set),
        r matches Some(bytes) ==> bytes@.len() <= isize::MAX,
        r matches Some(bytes) ==> public_key_set_decoding(bytes@) == Some(*public_key_set),
{
    bincode::serialize(public_key_set).ok()
}

/// `bincode::deserialize` into a public key set: the named decoding.
#[verifier::external_body]
pub(crate) fn deserialize_public_key_set(bytes: &[u8]) -> (r: Option<
    threshold_crypto::PublicKeySet,
>)
    ensures
        r == public_key_set_decoding(bytes@),
{
    bincode::deserialize(bytes).ok()
}

/// `bincode::serialize` of a secret key share wrapped in
/// `threshold_crypto::serde_impl::SerdeSecret`: always `Some`, the scalar's
/// four little-endian `u64` limbs (32 bytes), which `bincode::deserialize`
/// reads back.
#[verifier::external_body]
pub(crate) fn serialize_secret_key_share(
    share: &BlsSecretKeyShare,
) -> (r: Option<Vec<u8>>)
    ensures
        r is Some,
        r matches Some(bytes) ==> bytes@.len() == 32,
        r matches Some(bytes) ==> secret_key_share_decoding(bytes@) == Some(*share),
{
    bincode::serialize(&threshold_crypto::serde_impl::SerdeSecret(share)).ok()
}

/// `bincode::deserialize` into a `SerdeSecret<SecretKeyShare>`, unwrapped:
/// the named decoding.
#[verifier::external_body]
pub(crate) fn deserialize_secret_key_share(bytes: &[u8]) -> (r: Option<
    BlsSecretKeyShare,
>)
    ensures
        r == secret_key_share_decoding(bytes@),
{
    bincode::deserialize::<threshold_crypto::serde_impl::SerdeSecret<BlsSecretKeyShare>>(bytes).ok().map(|s| s.into_inner())
}

/// The bytes `bincode::serialize` makes of a signature share.
pub uninterp spec fn signature_share_encoding(share: BlsSignatureShare) -> Seq<u8>;

/// `bincode::serialize` of a signature share: always `Some`, the named bytes,
/// the 96-byte compressed point, which `bincode::deserialize` reads back.
#[verifier::external_body]
pub(crate) fn serialize_signature_share(
    share: &BlsSignatureShare,
) -> (r: Option<Vec<u8>>)
    ensures
        r is Some,
        r matches Some(bytes) ==> bytes@ == signature_share_encoding(*share),
        r matches Some(bytes) ==> bytes@.len() == 96,
        r matches Some(bytes) ==> signature_share_decoding(bytes@) == Some(*share),
{
    bincode::serialize(share).ok()
}

/// `bincode::deserialize` into a signature share: the named decoding.
#[verifier::external_body]
pub(crate) fn deserialize_signature_share(bytes: &[u8]) -> (r: Option<
    BlsSignatureShare,
>)
    ensures
        r == signature_share_decoding(bytes@),
{
    bincode::deserialize(bytes).ok()
}

/// The bytes `bincode::serialize` makes of a full signature.
pub uninterp spec fn signature_encoding(signature: BlsSignature) -> Seq<u8>;

/// `bincode::serialize` of a full signature: always `Some`, the named bytes,
/// 96 of them (the compressed point).
#[verifier::external_body]
pub(crate) fn serialize_signature(signature: &BlsSignature) -> (r: Option<Vec<u8>>)
    ensures
        r is Some,
        r matches Some(bytes) ==> bytes@ == signature_encoding(*signature),
        r matches Some(bytes) ==> bytes@.len() == 96,
{
    bincode::serialize(signature).ok()
}

/// Whether a public key set has a master key: its commitment holds a
/// coefficient. (Decoding accepts an empty commitment, on which
/// `threshold_crypto` panics when asked for the master key.)
pub fn has_commitment(public_key_set: &threshold_crypto::PublicKeySet) -> (r: bool)
    ensures
        r == (commitment_len(*public_key_set) > 0),
{
    match serialize_public_key_set(public_key_set) {
        Some(bytes) => bytes.len() > 8,
        None => false,
    }
}

} // verus!
