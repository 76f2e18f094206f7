//! A self-contained signing node and client that keep the public key set and
//! the shares unencrypted, in `pubset.key` and `share-<i>.key`, and exchange
//! the base64 message and base64 bincode signature shares.
use vstd::prelude::*;

use std::collections::BTreeMap;
use vstd::std_specs::btree::increasing_seq;
use threshold_crypto::PublicKeySet;
use threshold_crypto::SecretKeyShare as BlsSecretKeyShare;
use threshold_crypto::SecretKeySet;
use threshold_crypto::SignatureShare as BlsSignatureShare;
use vstd::string::StringExecFns;
use vstd::string::StringSliceAdditionalSpecFns;

use crate::logic::key_service::{KeyFile, KeyFiles};
use crate::platform::digest_generator::{sha256, sha256_of};
use crate::platform::encoding::{
    base64_decode, base64_decoding, base64_encodable_len, base64_encode, base64_encoding,
    lemma_base64_encodable,
};
use crate::platform::hex::{hex_encode, lower_hex};
use crate::platform::order::lemma_increasing_keys;
use crate::platform::network::{decodes_to_share, encodes_share, share_from_text};
use crate::platform::text::{decimal, lemma_decimal_injective, push_decimal};
use crate::platform::threshold::{
    bls_verifies, combination, combine_signatures_of, commitment_len, deserialize_public_key_set,
    deserialize_secret_key_share, deserialize_signature_share, distinct_indices, has_commitment,
    key_share_of, master_key_of, master_public_key, pair_values, public_key_set_decodes,
    public_key_set_decoding, public_key_set_of, public_keys_of, random_secret_key_set,
    secret_key_set_threshold, secret_key_share_decodes, secret_key_share_decoding,
    secret_key_share_of, serialize_public_key_set, serialize_secret_key_share, serialize_signature,
    serialize_signature_share, share_signature, sign_with_share, signature_encoding,
    signature_share_encoding, signed_by,
    verify_with_public_key,
};

verus! {

broadcast use vstd::std_specs::btree::group_btree_axioms, vstd::laws_cmp::group_laws_cmp;

#[derive(Debug)]
pub enum StandaloneError {
    InvalidThreshold,
    FailedSerialize,
    FailedReadShare,
    FailedDeserializeShare,
    FailedReadPubset,
    FailedDeserializePubset,
    FailedBase64Decode,
    FailedDeserializeSignatureShare,
    NotFoundPeer,
    NotEnoughSignatureShares,
    FailedCombineSignatures,
    FailedVerifySignature,
}

/// When `n` shares can be made of which any `threshold + 1` sign.
pub open spec fn valid_share_parameters(threshold: int, n: int) -> bool {
    n != 0 && threshold + 1 <= n
}

/// A sample key set can be laid out exactly when there is a share and the
/// threshold leaves at least one more share than it counts: `threshold + 1`
/// of `n` shares sign, so threshold 0 (any single share signs) is allowed
/// and `threshold >= n` is not.
pub proof fn lemma_share_parameters_range(threshold: nat, n: nat)
    ensures
        valid_share_parameters(threshold as int, n as int) <==> 1 <= n && threshold + 1 <= n,
        1 <= n ==> valid_share_parameters(0, n as int),
        1 <= n ==> valid_share_parameters(n - 1, n as int),
        !valid_share_parameters(n as int, n as int),
{
}

/// The file that share `i` is kept in: `share-<i>.key`.
pub open spec fn share_file_name(i: nat) -> Seq<char> {
    seq!['s', 'h', 'a', 'r', 'e', '-'] + decimal(i) + seq!['.', 'k', 'e', 'y']
}

/// Shares of distinct indices are kept in distinct files.
pub proof fn lemma_share_file_names_distinct(i: nat, j: nat)
    requires
        i != j,
    ensures
        share_file_name(i) != share_file_name(j),
{
    if share_file_name(i) == share_file_name(j) {
        let name_i = share_file_name(i);
        let name_j = share_file_name(j);
        assert(name_i.subrange(6, name_i.len() - 4) =~= decimal(i));
        assert(name_j.subrange(6, name_j.len() - 4) =~= decimal(j));
        lemma_decimal_injective(i, j);
    }
}

/// The file that share `index` is kept in.
pub fn share_file_path(index: usize) -> (r: String)
    ensures
        r@ == share_file_name(index as nat),
{
    proof {
        reveal_strlit("share-");
        reveal_strlit(".key");
    }
    let mut path = String::from_str("share-");
    push_decimal(&mut path, index);
    path.append(".key");
    path
}

/// The file the public key set is kept in.
pub fn pubset_file_path() -> (r: String)
    ensures
        r@ == seq!['p', 'u', 'b', 's', 'e', 't', '.', 'k', 'e', 'y'],
{
    proof {
        reveal_strlit("pubset.key");
    }
    String::from_str("pubset.key")
}

/// Draws a key set in which any `threshold + 1` of `n` shares sign, and lays
/// it out in files: the bincode public key set, then share `i` (bincode, via
/// `SerdeSecret`) in `share-<i>.key` for each `i < n`. Succeeds exactly for
/// valid parameters.
pub fn init_shares(threshold: usize, n: usize) -> (r: Result<KeyFiles, StandaloneError>)
    ensures
        !valid_share_parameters(threshold as int, n as int) <==> r matches Err(
            StandaloneError::InvalidThreshold,
        ),
        r is Ok <==> 1 <= n && threshold < n,
        r matches Err(e) ==> e is InvalidThreshold,
        r matches Ok(files) ==> {
            &&& files.public_key.path@ == seq!['p', 'u', 'b', 's', 'e', 't', '.', 'k', 'e', 'y']
            &&& files.secret_key_shares@.len() == n
            &&& forall|i: int|
                0 <= i < n ==> (#[trigger] files.secret_key_shares@[i]).path@ == share_file_name(
                    i as nat,
                )
            &&& exists|secret_key_set: SecretKeySet| lays_out(files, secret_key_set, threshold as nat)
        },
{
    if n == 0 || threshold >= n {
        return Err(StandaloneError::InvalidThreshold);
    }
    proof {
        assert(threshold < usize::MAX);
    }
    let secret_key_set = random_secret_key_set(threshold);
    let public_key_set = public_keys_of(&secret_key_set);
    let pubset_bytes = match serialize_public_key_set(&public_key_set) {
        Some(bytes) => bytes,
        None => return Err(StandaloneError::FailedSerialize),
    };
    let public_key = KeyFile { path: pubset_file_path(), contents: pubset_bytes };

    let mut share_files: Vec<KeyFile> = Vec::new();
    let mut i: usize = 0;
    while i < n
        invariant
            i <= n,
            valid_share_parameters(threshold as int, n as int),
            share_files@.len() == i,
            secret_key_set_threshold(secret_key_set) == threshold,
            commitment_len(public_key_set_of(secret_key_set)) == threshold + 1,
            public_key_set_decoding(public_key.contents@) == Some(public_key_set_of(secret_key_set)),
            forall|j: int|
                0 <= j < i ==> {
                    &&& (#[trigger] share_files@[j]).path@ == share_file_name(j as nat)
                    &&& secret_key_share_decoding(share_files@[j].contents@) == Some(
                        key_share_of(secret_key_set, j as nat),
                    )
                },
        decreases n - i,
    {
        let share = secret_key_share_of(&secret_key_set, i);
        let share_bytes = match serialize_secret_key_share(&share) {
            Some(bytes) => bytes,
            None => return Err(StandaloneError::FailedSerialize),
        };
        share_files.push(KeyFile { path: share_file_path(i), contents: share_bytes });
        i = i + 1;
    }
    let files = KeyFiles { public_key, secret_key_shares: share_files };
    assert(lays_out(files, secret_key_set, threshold as nat));
    Ok(files)
}

/// The files lay out one key set in the clear: the public key set of
/// `secret_key_set`, whose polynomial has degree `threshold`, and share `i`
/// of it in the `i`-th share file.
pub open spec fn lays_out(files: KeyFiles, secret_key_set: SecretKeySet, threshold: nat) -> bool {
    &&& secret_key_set_threshold(secret_key_set) == threshold
    &&& commitment_len(public_key_set_of(secret_key_set)) == threshold + 1
    &&& public_key_set_decoding(files.public_key.contents@) == Some(public_key_set_of(secret_key_set))
    &&& forall|i: int|
        0 <= i < files.secret_key_shares@.len() ==> #[trigger] secret_key_share_decoding(
            files.secret_key_shares@[i].contents@,
        ) == Some(key_share_of(secret_key_set, i as nat))
}

/// Reads the public key set back from the contents of `pubset.key` (`None`:
/// not readable); what `init_shares` wrote reads back.
pub fn load_pubset(pubset_file: Option<&[u8]>) -> (r: Result<PublicKeySet, StandaloneError>)
    ensures
        pubset_file is None <==> r matches Err(StandaloneError::FailedReadPubset),
        r matches Err(e) ==> (e is FailedReadPubset || e is FailedDeserializePubset),
        r is Ok <==> (pubset_file matches Some(bytes) && public_key_set_decodes(bytes@)),
        r matches Ok(public_key_set) ==> public_key_set_decoding(pubset_file->0@) == Some(public_key_set),
{
    let bytes = match pubset_file {
        Some(bytes) => bytes,
        None => return Err(StandaloneError::FailedReadPubset),
    };
    match deserialize_public_key_set(bytes) {
        Some(public_key_set) => Ok(public_key_set),
        None => Err(StandaloneError::FailedDeserializePubset),
    }
}

/// Reads a node's share and the public key set back from the contents of
/// their files; the share is read first. What `init_shares` wrote reads back.
pub fn load_share(share_file: Option<&[u8]>, pubset_file: Option<&[u8]>) -> (r: Result<
    (BlsSecretKeyShare, PublicKeySet),
    StandaloneError,
>)
    ensures
        share_file is None <==> r matches Err(StandaloneError::FailedReadShare),
        (share_file matches Some(bytes) && !secret_key_share_decodes(bytes@)) <==> r matches Err(
            StandaloneError::FailedDeserializeShare,
        ),
        (share_file matches Some(bytes) && secret_key_share_decodes(bytes@)) ==> (pubset_file is None
            <==> r matches Err(StandaloneError::FailedReadPubset)),
        (share_file matches Some(bytes) && secret_key_share_decodes(bytes@)) ==> ((pubset_file matches Some(
            bytes,
        ) && !public_key_set_decodes(bytes@)) <==> r matches Err(
            StandaloneError::FailedDeserializePubset,
        )),
        r matches Err(e) ==> (e is FailedReadShare || e is FailedDeserializeShare
            || e is FailedReadPubset || e is FailedDeserializePubset),
        r is Ok <==> {
            &&& share_file matches Some(bytes) && secret_key_share_decodes(bytes@)
            &&& pubset_file matches Some(bytes) && public_key_set_decodes(bytes@)
        },
        r matches Ok((share, public_key_set)) ==> {
            &&& secret_key_share_decoding(share_file->0@) == Some(share)
            &&& public_key_set_decoding(pubset_file->0@) == Some(public_key_set)
        },
{
    let share_bytes = match share_file {
        Some(bytes) => bytes,
        None => return Err(StandaloneError::FailedReadShare),
    };
    let share = match deserialize_secret_key_share(share_bytes) {
        Some(share) => share,
        None => return Err(StandaloneError::FailedDeserializeShare),
    };
    let public_key_set = load_pubset(pubset_file)?;
    Ok((share, public_key_set))
}

/// The public key set in base64 bincode, as nodes and clients log it. Never
/// fails; the text reads back as the key set.
pub fn pubset_base64(public_key_set: &PublicKeySet) -> (r: Result<String, StandaloneError>)
    ensures
        r is Ok,
        r matches Ok(text) ==> exists|bytes: Seq<u8>|
            text@ == #[trigger] base64_encoding(bytes) && public_key_set_decoding(bytes) == Some(
                *public_key_set,
            ),
{
    let bytes = match serialize_public_key_set(public_key_set) {
        Some(bytes) => bytes,
        None => return Err(StandaloneError::FailedSerialize),
    };
    proof {
        lemma_base64_encodable(bytes@.len() as int);
    }
    Ok(base64_encode(bytes.as_slice()))
}

/// The request a client sends: its message's UTF-8 bytes in base64.
pub fn encode_message(message: &str) -> (r: String)
    requires
        base64_encodable_len(message.spec_bytes().len() as int),
    ensures
        r@ == base64_encoding(message.spec_bytes()),
{
    base64_encode(message.as_bytes())
}

/// A node's work on a request: decode the base64 message, hash it with
/// SHA-256, sign the digest with the node's share, and answer the base64
/// bincode signature share together with the digest. For a request made by
/// `encode_message(m)`, the digest is that of `m`'s bytes. Only a text that
/// is not base64 fails.
pub fn handle_sign_request(message_base64: &str, share: &BlsSecretKeyShare) -> (r: Result<
    (String, Vec<u8>),
    StandaloneError,
>)
    ensures
        base64_decoding(message_base64@) is None <==> r matches Err(StandaloneError::FailedBase64Decode),
        r matches Err(e) ==> e is FailedBase64Decode,
        r matches Ok((encoded_share, digest)) ==> {
            &&& base64_decoding(message_base64@) matches Some(message) && digest@ == sha256(message)
            &&& forall|message: Seq<u8>|
                message_base64@ == #[trigger] base64_encoding(message) ==> digest@ == sha256(message)
            &&& encodes_share(encoded_share@, share_signature(*share, digest@))
            &&& encoded_share@ == base64_encoding(signature_share_encoding(share_signature(*share, digest@)))
        },
{
    let message = match base64_decode(message_base64) {
        Some(message) => message,
        None => return Err(StandaloneError::FailedBase64Decode),
    };
    let digest = sha256_of(message.as_slice());
    let signature_share = sign_with_share(share, digest.as_slice());
    let bytes = match serialize_signature_share(&signature_share) {
        Some(bytes) => bytes,
        None => return Err(StandaloneError::FailedSerialize),
    };
    proof {
        lemma_base64_encodable(bytes@.len() as int);
    }
    let encoded = base64_encode(bytes.as_slice());
    Ok((encoded, digest))
}

/// Reads a signature share back from its base64 bincode text; what a node's
/// `handle_sign_request` answered reads back.
pub fn decode_share(signature_share_base64: &str) -> (r: Result<BlsSignatureShare, StandaloneError>)
    ensures
        base64_decoding(signature_share_base64@) is None <==> r matches Err(
            StandaloneError::FailedBase64Decode,
        ),
        r matches Err(e) ==> (e is FailedBase64Decode || e is FailedDeserializeSignatureShare),
        r is Ok <==> decodes_to_share(signature_share_base64@),
        r matches Ok(share) ==> share_from_text(signature_share_base64@) == Some(share),
        forall|share: BlsSignatureShare|
            #[trigger] encodes_share(signature_share_base64@, share) ==> r == Ok::<
                BlsSignatureShare,
                StandaloneError,
            >(share),
{
    let bytes = match base64_decode(signature_share_base64) {
        Some(bytes) => bytes,
        None => return Err(StandaloneError::FailedBase64Decode),
    };
    match deserialize_signature_share(bytes.as_slice()) {
        Some(share) => Ok(share),
        None => Err(StandaloneError::FailedDeserializeSignatureShare),
    }
}

/// Takes one node's answer into the client's share map: an answer with an
/// error, or without both a share and an index, is passed over (`Ok(None)`);
/// otherwise its share is read from the wire text and kept under the index
/// (`Ok(Some(index))`), replacing an earlier share for it, or, where the text
/// does not read back as a share, the error of `decode_share`.
pub fn collect_response(
    shares: &mut BTreeMap<usize, BlsSignatureShare>,
    index: Option<usize>,
    signature_share_base64: Option<&str>,
    error: Option<&str>,
) -> (r: Result<Option<usize>, StandaloneError>)
    ensures
        error is Some ==> r == Ok::<Option<usize>, StandaloneError>(None),
        error is None && (index is None || signature_share_base64 is None) ==> r == Ok::<
            Option<usize>,
            StandaloneError,
        >(None),
        !(r matches Ok(Some(_))) ==> final(shares)@ == old(shares)@,
        error is None && index is Some && signature_share_base64 is Some && decodes_to_share(
            signature_share_base64->0@,
        ) ==> (r == Ok::<Option<usize>, StandaloneError>(Some(index->0)) && final(shares)@ == old(
            shares,
        )@.insert(index->0, share_from_text(signature_share_base64->0@)->0)),
        error is None && index is Some && signature_share_base64 is Some && !decodes_to_share(
            signature_share_base64->0@,
        ) ==> r is Err,
        error is None && index is Some && signature_share_base64 is Some && base64_decoding(
            signature_share_base64->0@,
        ) is None ==> r matches Err(StandaloneError::FailedBase64Decode),
        r matches Err(e) ==> (e is FailedBase64Decode || e is FailedDeserializeSignatureShare),
{
    if error.is_some() {
        return Ok(None);
    }
    match (index, signature_share_base64) {
        (Some(index), Some(text)) => {
            let share = decode_share(text)?;
            collect_share(shares, index, share);
            Ok(Some(index))
        },
        _ => Ok(None),
    }
}

/// A client needs at least one signing node to ask.
pub fn check_peers_found(num_peers: usize) -> (r: Result<(), StandaloneError>)
    ensures
        num_peers == 0 <==> r matches Err(StandaloneError::NotFoundPeer),
        r is Err ==> num_peers == 0,
{
    if num_peers == 0 {
        return Err(StandaloneError::NotFoundPeer);
    }
    Ok(())
}

/// Keeps the share a node answered under its index; a later share for the
/// same index replaces the earlier one.
pub fn collect_share(
    shares: &mut BTreeMap<usize, BlsSignatureShare>,
    index: usize,
    share: BlsSignatureShare,
)
    ensures
        final(shares)@ == old(shares)@.insert(index, share),
{
    shares.insert(index, share);
}

/// Whether the client holds shares from at least `threshold` indices.
pub fn has_enough_shares(shares: &BTreeMap<usize, BlsSignatureShare>, threshold: usize) -> (r: bool)
    ensures
        r == (shares@.len() >= threshold),
{
    shares.len() >= threshold
}

/// The `(index, share)` pairs list the entries of a share map: each once,
/// under its own index.
pub open spec fn lists_entries(
    pairs: Seq<(usize, BlsSignatureShare)>,
    shares: Map<usize, BlsSignatureShare>,
) -> bool {
    &&& pairs.len() == shares.len()
    &&& distinct_indices(pairs)
    &&& forall|i: int|
        0 <= i < pairs.len() ==> shares.contains_key(#[trigger] pairs[i].0) && shares[pairs[i].0]
            == pairs[i].1
}

/// The `(index, share)` pairs list a share map's entries in increasing
/// index order, as the map is walked.
pub open spec fn index_order(
    pairs: Seq<(usize, BlsSignatureShare)>,
    shares: Map<usize, BlsSignatureShare>,
) -> bool {
    &&& lists_entries(pairs, shares)
    &&& forall|j: int, k: int| 0 <= j < k < pairs.len() ==> pairs[j].0 < pairs[k].0
    &&& forall|index: usize|
        #[trigger] shares.contains_key(index) ==> exists|j: int|
            0 <= j < pairs.len() && #[trigger] pairs[j].0 == index
}

/// A share map has one listing in index order.
pub proof fn lemma_index_order_unique(
    pairs: Seq<(usize, BlsSignatureShare)>,
    other: Seq<(usize, BlsSignatureShare)>,
    shares: Map<usize, BlsSignatureShare>,
)
    requires
        index_order(pairs, shares),
        index_order(other, shares),
    ensures
        pairs == other,
{
    lemma_index_order_prefix(pairs, other, shares, pairs.len());
    assert(pairs =~= other);
}

proof fn lemma_index_order_prefix(
    pairs: Seq<(usize, BlsSignatureShare)>,
    other: Seq<(usize, BlsSignatureShare)>,
    shares: Map<usize, BlsSignatureShare>,
    n: nat,
)
    requires
        index_order(pairs, shares),
        index_order(other, shares),
        n <= pairs.len(),
    ensures
        forall|i: int| 0 <= i < n ==> pairs[i] == other[i],
    decreases n,
{
    if n > 0 {
        lemma_index_order_prefix(pairs, other, shares, (n - 1) as nat);
        let i = n - 1;
        let key = pairs[i].0;
        let other_key = other[i].0;
        assert(shares.contains_key(key));
        assert(shares.contains_key(other_key));
        if key < other_key {
            let j = choose|j: int| 0 <= j < other.len() && #[trigger] other[j].0 == key;
            if j < i {
                assert(pairs[j] == other[j]);
            }
        } else if other_key < key {
            let j = choose|j: int| 0 <= j < pairs.len() && #[trigger] pairs[j].0 == other_key;
            if j < i {
                assert(pairs[j] == other[j]);
            }
        }
        assert(pairs[i].0 == other[i].0);
    }
}

/// Whether the combination of the pairs verifies for `digest` under the
/// set's master key (`None`: they do not combine).
pub open spec fn combination_verifies(
    public_key_set: PublicKeySet,
    pairs: Seq<(usize, BlsSignatureShare)>,
    digest: Seq<u8>,
) -> Option<bool> {
    match combination(public_key_set, pairs) {
        Some(signature) => Some(bls_verifies(master_key_of(public_key_set), signature, digest)),
        None => None,
    }
}

/// Every share in the map is the key set's share at its index signing
/// `digest`.
pub open spec fn map_signed_by(
    secret_key_set: SecretKeySet,
    shares: Map<usize, BlsSignatureShare>,
    digest: Seq<u8>,
) -> bool {
    forall|index: usize|
        #[trigger] shares.contains_key(index) ==> shares[index] == share_signature(
            key_share_of(secret_key_set, index as nat),
            digest,
        )
}

/// The client's conclusion: with shares from fewer than `threshold` indices
/// it fails; otherwise it combines them (in index order), checks the
/// signature against the SHA-256 of the message's bytes, and answers the
/// signature's bincode bytes in lowercase hex. Shares of the key set's
/// signatures of that digest, from at least its `threshold + 1` and from
/// `threshold` indices, always conclude.
pub fn conclude_client_sign(
    public_key_set: &PublicKeySet,
    shares: &BTreeMap<usize, BlsSignatureShare>,
    threshold: usize,
    message: &str,
) -> (r: Result<String, StandaloneError>)
    ensures
        shares@.len() < threshold <==> r matches Err(StandaloneError::NotEnoughSignatureShares),
        shares@.len() >= threshold && (shares@.len() == 0 || commitment_len(*public_key_set) == 0
            || shares@.len() < commitment_len(*public_key_set)) ==> r matches Err(
            StandaloneError::FailedCombineSignatures,
        ),
        r matches Err(e) ==> (e is NotEnoughSignatureShares || e is FailedCombineSignatures
            || e is FailedVerifySignature),
        r matches Ok(_) ==> shares@.len() >= threshold && shares@.len() > 0 && commitment_len(
            *public_key_set,
        ) > 0,
        exists|pairs: Seq<(usize, BlsSignatureShare)>| #[trigger] index_order(pairs, shares@),
        forall|pairs: Seq<(usize, BlsSignatureShare)>|
            #[trigger] index_order(pairs, shares@) ==> (r is Ok <==> (shares@.len() >= threshold
                && commitment_len(*public_key_set) > 0 && combination_verifies(
                *public_key_set,
                pairs,
                sha256(message.spec_bytes()),
            ) == Some(true))),
        forall|pairs: Seq<(usize, BlsSignatureShare)>|
            #[trigger] index_order(pairs, shares@) ==> (r matches Err(
                StandaloneError::FailedVerifySignature,
            ) <==> (shares@.len() >= threshold && commitment_len(*public_key_set) > 0
                && combination_verifies(*public_key_set, pairs, sha256(message.spec_bytes())) == Some(
                false,
            ))),
        forall|pairs: Seq<(usize, BlsSignatureShare)>|
            #[trigger] index_order(pairs, shares@) ==> (r matches Err(
                StandaloneError::FailedCombineSignatures,
            ) <==> (shares@.len() >= threshold && (commitment_len(*public_key_set) == 0 || combination(
                *public_key_set,
                pairs,
            ) is None))),
        forall|pairs: Seq<(usize, BlsSignatureShare)>|
            #[trigger] index_order(pairs, shares@) ==> (r matches Ok(text) ==> text@ == lower_hex(
                signature_encoding(combination(*public_key_set, pairs)->0),
            )),
        forall|secret_key_set: SecretKeySet|
            *public_key_set == public_key_set_of(secret_key_set) && #[trigger] map_signed_by(
                secret_key_set,
                shares@,
                sha256(message.spec_bytes()),
            ) && commitment_len(*public_key_set) > 0 && shares@.len() >= commitment_len(*public_key_set)
                && shares@.len() >= threshold ==> r is Ok,
{
    let mut pairs: Vec<(usize, &BlsSignatureShare)> = Vec::new();
    for entry in it: shares.iter()
        invariant
            pairs@.len() == it.index(),
            forall|j: int|
                0 <= j < it.index() ==> shares@.contains_key(#[trigger] pairs@[j].0) && shares@[pairs@[j].0]
                    == *pairs@[j].1,
            forall|j: int|
                0 <= j < it.index() ==> (#[trigger] pairs@[j]).0 == *it.seq()[j].0 && pairs@[j].1
                    == it.seq()[j].1,
            it.seq().no_duplicates(),
            it.seq().len() == shares@.len(),
            increasing_seq(it.seq().map_values(|kv: (&usize, &BlsSignatureShare)| *kv.0)),
            forall|key: usize|
                #[trigger] shares@.contains_key(key) ==> exists|j: int|
                    0 <= j < it.seq().len() && *(#[trigger] it.seq()[j]).0 == key,
            forall|j: int, k: int| 0 <= j < k < it.index() ==> pairs@[j].0 != pairs@[k].0,
            forall|j: int, k: int| 0 <= j < k < it.index() ==> pairs@[j].0 < pairs@[k].0,
            forall|key: usize|
                #[trigger] shares@.contains_key(key) ==> (exists|j: int|
                    0 <= j < it.index() && #[trigger] pairs@[j].0 == key) || (exists|j: int|
                    it.index() <= j < it.seq().len() && *(#[trigger] it.seq()[j]).0 == key),
    {
        proof {
            let keys = it.seq().map_values(|kv: (&usize, &BlsSignatureShare)| *kv.0);
            lemma_increasing_keys(keys);
            assert forall|j: int| 0 <= j < it.index() implies pairs@[j].0 < *entry.0 by {
                assert(keys[j] == pairs@[j].0);
                assert(keys[it.index() as int] == *entry.0);
            }
            assert forall|j: int| 0 <= j < it.index() implies pairs@[j].0 != *entry.0 by {
                if pairs@[j].0 == *entry.0 {
                    assert(it.seq()[j] == it.seq()[it.index() as int]);
                }
            }
        }
        let ghost before = pairs@;
        pairs.push((*entry.0, entry.1));
        proof {
            let next = it.index() + 1;
            assert forall|key: usize| #[trigger] shares@.contains_key(key) implies (exists|j: int|
                0 <= j < next && #[trigger] pairs@[j].0 == key) || (exists|j: int|
                next <= j < it.seq().len() && *(#[trigger] it.seq()[j]).0 == key) by {
                if exists|j: int| 0 <= j < it.index() && #[trigger] before[j].0 == key {
                    let j = choose|j: int| 0 <= j < it.index() && #[trigger] before[j].0 == key;
                    assert(pairs@[j] == before[j]);
                } else {
                    let j = choose|j: int|
                        it.index() <= j < it.seq().len() && *(#[trigger] it.seq()[j]).0 == key;
                    if j == it.index() {
                        assert(pairs@[j].0 == key);
                    }
                }
            }
        }
    }
    proof {
        let values = pair_values(pairs@);
        assert(values.len() == shares@.len());
        assert(lists_entries(values, shares@));
        assert forall|index: usize| #[trigger] shares@.contains_key(index) implies exists|j: int|
            0 <= j < values.len() && #[trigger] values[j].0 == index by {
            if exists|j: int| 0 <= j < pairs@.len() && #[trigger] pairs@[j].0 == index {
                let j = choose|j: int| 0 <= j < pairs@.len() && #[trigger] pairs@[j].0 == index;
                assert(values[j].0 == index);
            }
        }
        assert forall|j: int, k: int| 0 <= j < k < values.len() implies values[j].0 < values[k].0 by {
            assert(values[j].0 == pairs@[j].0);
            assert(values[k].0 == pairs@[k].0);
        }
        assert(index_order(values, shares@));
        assert forall|other: Seq<(usize, BlsSignatureShare)>| #[trigger] index_order(
            other,
            shares@,
        ) implies other == values by {
            lemma_index_order_unique(other, values, shares@);
        }
    }
    if shares.len() < threshold {
        return Err(StandaloneError::NotEnoughSignatureShares);
    }
    if !has_commitment(public_key_set) {
        return Err(StandaloneError::FailedCombineSignatures);
    }
    let signature = match combine_signatures_of(public_key_set, pairs.as_slice()) {
        Some(signature) => signature,
        None => return Err(StandaloneError::FailedCombineSignatures),
    };
    let digest = sha256_of(message.as_bytes());
    proof {
        let values = pair_values(pairs@);
        assert forall|secret_key_set: SecretKeySet|
            *public_key_set == public_key_set_of(secret_key_set) && #[trigger] map_signed_by(
                secret_key_set,
                shares@,
                digest@,
            ) implies signed_by(secret_key_set, values, digest@) by {
            assert forall|i: int| 0 <= i < values.len() implies #[trigger] values[i].1 == share_signature(
                key_share_of(secret_key_set, values[i].0 as nat),
                digest@,
            ) by {
                assert(shares@.contains_key(values[i].0));
            }
        }
    }
    let public_key = master_public_key(public_key_set);
    if !verify_with_public_key(&public_key, &signature, digest.as_slice()) {
        return Err(StandaloneError::FailedVerifySignature);
    }
    let bytes = match serialize_signature(&signature) {
        Some(bytes) => bytes,
        None => return Err(StandaloneError::FailedSerialize),
    };
    Ok(hex_encode(bytes.as_slice()))
}

} // verus!
