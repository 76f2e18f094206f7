//! The signing protocol between signing nodes and clients.
//!
//! A client sends every node a `SignRequest`; a node answers with its
//! signature share, or with an error text. The client keeps the shares that
//! answer its own request, and once it holds `threshold` of them combines and
//! verifies them. Networking itself (discovery, transport, timers) stays with
//! the caller, which hands the library each request, response and clock
//! reading.
use vstd::prelude::*;

use threshold_crypto::SignatureShare as BlsSignatureShare;
use vstd::string::StringExecFns;

use crate::logic::key_service::{key_service_error_message, KeyService, KeyServiceError};
use crate::model::signature::SignatureShare;
use crate::model::value::{lemma_share_index_eq, ShareIndex};
use crate::platform::digest_generator::DigestGenarator;
use crate::platform::encoding::{
    base64_decode, base64_decoding, base64_encode, base64_encoding, lemma_base64_encodable,
};
use crate::platform::key::key_generator::KeyGenerator;
use crate::platform::repository::{
    decryptable, holds_public_key, holds_secret_key_share, indexed_path, is_decryptable,
    public_key_loads,
    secret_key_share_loads, stored_public_key_set, stored_secret_key_share, PublicKeyRepository,
    SecretKeyShareRepository,
};
use crate::logic::key_service::signs_together;
use crate::platform::digest_generator::sha256;
use crate::platform::key::public_key::share_pairs;
use crate::platform::threshold::{
    bls_verifies, combination, commitment_len, deserialize_signature_share, master_key_of,
    public_key_set_of, serialize_signature_share, share_signature, signature_share_decoding,
    signature_share_encoding,
};
use threshold_crypto::SecretKeySet;
use threshold_crypto::SecretKeyShare as BlsSecretKeyShare;
use vstd::utf8::encode_utf8;
use vstd::string::StringSliceAdditionalSpecFns;

verus! {

/// How long, in seconds, a request stays fresh.
pub const REQUEST_LIFETIME_SECS: u64 = 300;

/// A client's request that a node sign `message`.
pub struct SignRequest {
    pub request_id: String,
    pub timestamp: u64,
    pub message: String,
}

/// A node's answer: its share index and encoded signature share, or an error
/// text.
pub struct SignResponse {
    pub request_id: String,
    pub timestamp: u64,
    pub index: Option<usize>,
    pub sign_share: Option<String>,
    pub error: Option<String>,
}

/// Whether `text` is a version-4 UUID in `uuid`'s hyphenated lowercase form:
/// 36 characters, hyphens at 8, 13, 18 and 23, lowercase hex digits
/// elsewhere, the version digit `4` at 14 and a variant digit of `8`, `9`,
/// `a` or `b` at 19.
pub open spec fn is_v4_uuid_text(text: Seq<char>) -> bool {
    &&& text.len() == 36
    &&& forall|i: int|
        0 <= i < 36 ==> if i == 8 || i == 13 || i == 18 || i == 23 {
            text[i] == '-'
        } else {
            ('0' <= #[trigger] text[i] <= '9') || ('a' <= text[i] <= 'f')
        }
    &&& text[14] == '4'
    &&& (text[19] == '8' || text[19] == '9' || text[19] == 'a' || text[19] == 'b')
}

/// `uuid::Uuid::new_v4()` in its hyphenated text form: a fresh random
/// request id. Of the random value only its form is stated: `new_v4` sets the
/// version and variant bits, and `to_string` writes the hyphenated lowercase
/// hex form.
#[verifier::external_body]
fn new_request_id() -> (r: String)
    ensures
        is_v4_uuid_text(r@),
{
    uuid::Uuid::new_v4().to_string()
}

/// A request is stale when it was made more than `REQUEST_LIFETIME_SECS`
/// seconds before `now`.
pub open spec fn is_stale(request_timestamp: u64, now: u64) -> bool {
    request_timestamp + REQUEST_LIFETIME_SECS < now
}

/// The signature share that a wire text reads back as: its base64 decoding,
/// decoded by bincode.
pub open spec fn share_from_text(text: Seq<char>) -> Option<BlsSignatureShare> {
    match base64_decoding(text) {
        Some(bytes) => signature_share_decoding(bytes),
        None => None,
    }
}

/// A request is stale exactly when more than 300 seconds have passed since it
/// was made; one stamped at or after `now` (a node whose clock runs behind) is
/// always fresh.
pub proof fn lemma_stale_exactly_after_lifetime(request_timestamp: u64, now: u64)
    ensures
        is_stale(request_timestamp, now) <==> request_timestamp as int + 300 < now as int,
        now <= request_timestamp ==> !is_stale(request_timestamp, now),
        now <= request_timestamp as int + 300 ==> !is_stale(request_timestamp, now),
{
}

/// A response from another request is never collected: only a response to
/// the client's own request id can add a share.
pub proof fn lemma_accepts_only_own_request(request_id: Seq<char>, response: SignResponse)
    requires
        accepts_response(request_id, response),
    ensures
        response.request_id@ == request_id,
        response.error is None,
        response.index is Some,
        response.sign_share is Some,
{
}

/// Whether a request made at `request_timestamp` is stale at `now`
/// (computed without overflow).
pub fn request_is_stale(request_timestamp: u64, now: u64) -> (r: bool)
    ensures
        r == is_stale(request_timestamp, now),
        r <==> request_timestamp as int + 300 < now as int,
        now <= request_timestamp ==> !r,
{
    (request_timestamp as u128) + (REQUEST_LIFETIME_SECS as u128) < (now as u128)
}

/// Whether `text` is the wire form of a signature share: it reads back as
/// one.
pub open spec fn decodes_to_share(text: Seq<char>) -> bool {
    share_from_text(text) is Some
}

/// Whether `text` was made as the wire form of `share`: the base64 text of
/// bytes that bincode reads back as `share`.
pub open spec fn encodes_share(text: Seq<char>, share: BlsSignatureShare) -> bool {
    exists|bytes: Seq<u8>|
        text == #[trigger] base64_encoding(bytes) && signature_share_decoding(bytes) == Some(share)
}

/// Whether the client takes a response into its collection for request
/// `request_id`: it answers that request, carries no error, and carries both
/// an index and a share in wire form.
pub open spec fn accepts_response(request_id: Seq<char>, response: SignResponse) -> bool {
    &&& response.request_id@ == request_id
    &&& response.error is None
    &&& response.index is Some
    &&& response.sign_share matches Some(text) && decodes_to_share(text@)
}

/// Whether a response is a node's answer with `share` to request
/// `request_id`: no error, an index, and `share` in wire form.
pub open spec fn offers_share(request_id: Seq<char>, response: SignResponse, share: BlsSignatureShare) -> bool {
    &&& response.request_id@ == request_id
    &&& response.error is None
    &&& response.index is Some
    &&& response.sign_share matches Some(text) && encodes_share(text@, share)
}

/// The node side and the client side of the signing protocol, over a key
/// service.
pub struct P2pNetworkService<T, U, V, W> {
    key_service: KeyService<T, U, V, W>,
}

#[derive(Debug)]
pub enum P2pNetworkServiceError {
    FailedBuildSwarm,
    FailedAddrParse,
    FailedBincodeSerialize,
    NotFoundPeer,
    FailedBase64Decode,
    FailedBincodeDeserialize,
    NotEnoughSignatureShares,
    FailedVerifySignatures,
}

impl<T, U, V, W> P2pNetworkService<T, U, V, W> {
    pub closed spec fn key_service(&self) -> KeyService<T, U, V, W> {
        self.key_service
    }

    pub fn new(key_service: KeyService<T, U, V, W>) -> (r: Self)
        ensures
            r.key_service() == key_service,
    {
        Self { key_service }
    }

    /// The wire form of a signature share: its bincode bytes in base64.
    /// Never fails; the text reads back as the share.
    pub fn encode_signature_share(&self, signature_share: &BlsSignatureShare) -> (r: Result<
        String,
        P2pNetworkServiceError,
    >)
        ensures
            r matches Ok(text) && encodes_share(text@, *signature_share),
            r matches Ok(text) ==> text@ == base64_encoding(signature_share_encoding(*signature_share)),
    {
        let signature_share_bytes = match serialize_signature_share(signature_share) {
            Some(bytes) => bytes,
            None => return Err(P2pNetworkServiceError::FailedBincodeSerialize),
        };
        proof {
            lemma_base64_encodable(signature_share_bytes@.len() as int);
        }
        Ok(base64_encode(signature_share_bytes.as_slice()))
    }

    /// Reads a signature share back from its wire form: the base64 text must
    /// decode (else `FailedBase64Decode`) into bincode bytes of a share (else
    /// `FailedBincodeDeserialize`). What `encode_signature_share` made reads
    /// back.
    pub fn decode_signature_share(&self, encoded_signature_share: &str) -> (r: Result<
        BlsSignatureShare,
        P2pNetworkServiceError,
    >)
        ensures
            base64_decoding(encoded_signature_share@) is None <==> r matches Err(
                P2pNetworkServiceError::FailedBase64Decode,
            ),
            r matches Err(e) ==> (e is FailedBase64Decode || e is FailedBincodeDeserialize),
            r is Ok <==> decodes_to_share(encoded_signature_share@),
            r matches Ok(share) ==> share_from_text(encoded_signature_share@) == Some(share),
            forall|share: BlsSignatureShare|
                #[trigger] encodes_share(encoded_signature_share@, share) ==> r == Ok::<
                    BlsSignatureShare,
                    P2pNetworkServiceError,
                >(share),
    {
        let signature_share_bytes = match base64_decode(encoded_signature_share) {
            Some(bytes) => bytes,
            None => return Err(P2pNetworkServiceError::FailedBase64Decode),
        };
        match deserialize_signature_share(signature_share_bytes.as_slice()) {
            Some(share) => Ok(share),
            None => Err(P2pNetworkServiceError::FailedBincodeDeserialize),
        }
    }

    /// A fresh request, made at `timestamp`, that the nodes sign `message`.
    pub fn new_sign_request(&self, message: &str, timestamp: u64) -> (r: SignRequest)
        ensures
            r.message@ == message@,
            r.timestamp == timestamp,
            is_v4_uuid_text(r.request_id@),
    {
        SignRequest { request_id: new_request_id(), timestamp, message: String::from_str(message) }
    }

    /// A client needs at least one peer to ask.
    pub fn check_peers_found(&self, num_peers: usize) -> (r: Result<(), P2pNetworkServiceError>)
        ensures
            num_peers == 0 <==> r matches Err(P2pNetworkServiceError::NotFoundPeer),
            r is Err ==> num_peers == 0,
    {
        if num_peers == 0 {
            return Err(P2pNetworkServiceError::NotFoundPeer);
        }
        Ok(())
    }

    /// Takes one response into the client's collection of shares for request
    /// `request_id`: a response to another request, an error response, one
    /// without index or share, or one whose share does not decode is dropped;
    /// otherwise the share read from the wire text is appended under the
    /// index the node gave. Every share a node offers for this request is
    /// kept as offered.
    pub fn collect_response(
        &self,
        request_id: &str,
        response: SignResponse,
        signature_shares: &mut Vec<SignatureShare<BlsSignatureShare>>,
    )
        ensures
            response.request_id@ != request_id@ ==> final(signature_shares)@ == old(signature_shares)@,
            response.error is Some ==> final(signature_shares)@ == old(signature_shares)@,
            final(signature_shares)@ != old(signature_shares)@ ==> response.request_id@ == request_id@
                && response.error is None && response.index is Some && response.sign_share is Some,
            !accepts_response(request_id@, response) ==> final(signature_shares)@ == old(
                signature_shares,
            )@,
            accepts_response(request_id@, response) ==> {
                &&& final(signature_shares)@.len() == old(signature_shares)@.len() + 1
                &&& final(signature_shares)@.drop_last() == old(signature_shares)@
                &&& final(signature_shares)@.last().index@ == response.index->0
                &&& Some(final(signature_shares)@.last().signature_share) == share_from_text(
                    response.sign_share->0@,
                )
            },
            forall|share: BlsSignatureShare|
                #[trigger] offers_share(request_id@, response, share) ==> accepts_response(request_id@, response)
                    && final(signature_shares)@.last().signature_share == share,
    {
        let expected_request_id = String::from_str(request_id);
        if !(response.request_id == expected_request_id) {
            return;
        }
        if response.error.is_some() {
            return;
        }
        match (response.index, response.sign_share) {
            (Some(index), Some(encoded_signature_share)) => {
                match self.decode_signature_share(encoded_signature_share.as_str()) {
                    Ok(signature_share) => {
                        let ghost before = signature_shares@;
                        signature_shares.push(SignatureShare::new(ShareIndex::new(index), signature_share));
                        assert(signature_shares@.drop_last() =~= before);
                    },
                    Err(_) => {},
                }
            },
            _ => {},
        }
    }

    /// Whether the client holds enough shares to stop collecting.
    pub fn has_enough_shares(
        &self,
        signature_shares: &Vec<SignatureShare<BlsSignatureShare>>,
        threshold: usize,
    ) -> (r: bool)
        ensures
            r == (signature_shares@.len() >= threshold),
    {
        signature_shares.len() >= threshold
    }
}

impl P2pNetworkService<PublicKeyRepository, SecretKeyShareRepository, KeyGenerator, DigestGenarator> {
    /// The file a node reads the public key set from.
    pub fn public_key_path(&self) -> (r: &str)
        ensures
            r@ == self.key_service().public_key_repo().file_path(),
    {
        self.key_service.public_key_path()
    }

    /// The file a node reads share `index` from.
    pub fn secret_key_share_path(&self, index: usize) -> (r: String)
        ensures
            r@ == indexed_path(self.key_service().secret_key_share_repo().file_path(), index as nat),
    {
        self.key_service.secret_key_share_path(index)
    }

    /// A node's answer to `request`, received at `now`, signing with share
    /// `index` read from the contents of its share file (`None`: not
    /// readable). A stale request is answered "stale request"; otherwise the
    /// answer carries the node's index and encoded signature share, or the
    /// text of the key service's error. Never fails. A node whose share file
    /// `init_keys` wrote under the same master key answers every fresh
    /// request for a non-empty message with its share's signature share of
    /// the message's digest, which the client keeps.
    pub fn handle_sign_request(
        &self,
        index: ShareIndex,
        request: &SignRequest,
        now: u64,
        stored_share: Option<&[u8]>,
        master_key: Option<&str>,
    ) -> (r: Result<SignResponse, P2pNetworkServiceError>)
        requires
            !is_stale(request.timestamp, now) ==> (stored_share matches Some(bytes) ==> decryptable(
                master_key,
                bytes@,
            )),
        ensures
            r matches Ok(response) ==> {
                &&& response.request_id@ == request.request_id@
                &&& response.timestamp == now
                &&& (response.error is None <==> (response.index == Some(index@)
                    && response.sign_share is Some))
                &&& (response.error is Some ==> response.index is None && response.sign_share is None)
            },
            is_stale(request.timestamp, now) ==> (r matches Ok(response) && response.error matches Some(
                text,
            ) && text@ == "stale request"@),
            !is_stale(request.timestamp, now) && !secret_key_share_loads(stored_share, master_key) ==> (r matches Ok(
                response,
            ) && response.error matches Some(text) && text@ == key_service_error_message(
                KeyServiceError::FailedLoadSecretKeyShare,
            )),
            !is_stale(request.timestamp, now) && secret_key_share_loads(stored_share, master_key)
                && request.message@.len() == 0 ==> (r matches Ok(response) && response.error matches Some(
                text,
            ) && text@ == key_service_error_message(KeyServiceError::FailedGenerateDigest)),
            r matches Ok(response) ==> (response.error is None ==> {
                &&& !is_stale(request.timestamp, now)
                &&& request.message@.len() > 0
                &&& secret_key_share_loads(stored_share, master_key)
                &&& offers_share(
                    request.request_id@,
                    response,
                    share_signature(
                        stored_secret_key_share(stored_share, master_key)->0,
                        sha256(encode_utf8(request.message@)),
                    ),
                )
            }),
            !is_stale(request.timestamp, now) && secret_key_share_loads(stored_share, master_key)
                && request.message@.len() > 0 ==> (r matches Ok(response) && response.error is None),
            forall|share: BlsSecretKeyShare|
                #[trigger] holds_secret_key_share(master_key, stored_share->0@, share) && stored_share is Some
                    && !is_stale(request.timestamp, now) && request.message@.len() > 0 ==> (r matches Ok(
                    response,
                ) && offers_share(
                    request.request_id@,
                    response,
                    share_signature(share, sha256(encode_utf8(request.message@))),
                )),
            r is Ok,
    {
        match self.stale_reply(request, now) {
            Some(response) => Ok(response),
            None => {
                let signed = self.key_service.sign_message(
                    index.get(),
                    request.message.as_str(),
                    stored_share,
                    master_key,
                );
                self.reply_to_request(index, request, signed, now)
            },
        }
    }

    /// The answer to a stale request, received at `now`: "stale request",
    /// without index or share (`None`: the request is fresh).
    pub fn stale_reply(&self, request: &SignRequest, now: u64) -> (r: Option<SignResponse>)
        ensures
            r is Some <==> is_stale(request.timestamp, now),
            r matches Some(response) ==> {
                &&& response.request_id@ == request.request_id@
                &&& response.timestamp == now
                &&& response.index is None
                &&& response.sign_share is None
                &&& response.error matches Some(text) && text@ == "stale request"@
            },
    {
        if request_is_stale(request.timestamp, now) {
            proof {
                reveal_strlit("stale request");
            }
            return Some(SignResponse {
                request_id: request.request_id.clone(),
                timestamp: now,
                index: None,
                sign_share: None,
                error: Some(String::from_str("stale request")),
            });
        }
        None
    }

    /// A node's signing of a fresh request with share `index`, read from
    /// the contents of its share file: `KeyService::sign_message` on the
    /// request's message, made only where the contents can be decrypted at
    /// all (`None`: under a valid master key they are shorter than a nonce).
    pub fn sign_request(
        &self,
        index: ShareIndex,
        request: &SignRequest,
        stored_share: Option<&[u8]>,
        master_key: Option<&str>,
    ) -> (r: Option<Result<SignatureShare<BlsSignatureShare>, KeyServiceError>>)
        ensures
            r is None <==> !(stored_share matches Some(bytes) ==> decryptable(master_key, bytes@)),
            r matches Some(result) ==> (result is Ok <==> secret_key_share_loads(stored_share, master_key)
                && request.message@.len() > 0),
            r matches Some(result) ==> (result matches Ok(share) ==> share.index == index
                && share.signature_share == share_signature(
                stored_secret_key_share(stored_share, master_key)->0,
                sha256(encode_utf8(request.message@)),
            )),
            r matches Some(result) ==> (result matches Err(e) ==> (e is FailedLoadSecretKeyShare
                <==> !secret_key_share_loads(stored_share, master_key))),
            r matches Some(result) ==> (result matches Err(e) ==> (e is FailedLoadSecretKeyShare || (
            e is FailedGenerateDigest && request.message@.len() == 0))),
            forall|share: BlsSecretKeyShare|
                #[trigger] holds_secret_key_share(master_key, stored_share->0@, share) && stored_share is Some
                    && request.message@.len() > 0 ==> (r matches Some(Ok(signature_share))
                    && signature_share.signature_share == share_signature(
                    share,
                    sha256(encode_utf8(request.message@)),
                )),
    {
        let r = self.key_service.try_sign_message(index.get(), request.message.as_str(), stored_share, master_key);
        proof {
            assert forall|a: ShareIndex, b: ShareIndex| a@ == b@ implies a == b by {
                lemma_share_index_eq(a, b);
            }
        }
        r
    }

    /// The answer to a fresh request, built from its signing's outcome when
    /// the clock reads `now`: the node's index and its encoded signature
    /// share, or the text of the key service's error. Never fails.
    pub fn reply_to_request(
        &self,
        index: ShareIndex,
        request: &SignRequest,
        signed: Result<SignatureShare<BlsSignatureShare>, KeyServiceError>,
        now: u64,
    ) -> (r: Result<SignResponse, P2pNetworkServiceError>)
        ensures
            r matches Ok(response) && {
                &&& response.request_id@ == request.request_id@
                &&& response.timestamp == now
                &&& match signed {
                    Ok(share) => {
                        &&& response.error is None
                        &&& response.index == Some(index@)
                        &&& response.sign_share matches Some(text) && text@ == base64_encoding(
                            signature_share_encoding(share.signature_share),
                        ) && encodes_share(text@, share.signature_share)
                    },
                    Err(e) => {
                        &&& response.index is None
                        &&& response.sign_share is None
                        &&& response.error matches Some(text) && text@ == key_service_error_message(e)
                    },
                }
            },
    {
        match signed {
            Ok(signature_share) => {
                let encoded = self.encode_signature_share(&signature_share.signature_share)?;
                Ok(SignResponse {
                    request_id: request.request_id.clone(),
                    timestamp: now,
                    index: Some(index.get()),
                    sign_share: Some(encoded),
                    error: None,
                })
            },
            Err(e) => Ok(SignResponse {
                request_id: request.request_id.clone(),
                timestamp: now,
                index: None,
                sign_share: None,
                error: Some(e.message()),
            }),
        }
    }

    /// `handle_sign_request`, made only where it can be: a stale request is
    /// always answered; for a fresh one the share file's contents must be
    /// decryptable at all (`None`: under a valid master key they are shorter
    /// than a nonce).
    pub fn try_handle_sign_request(
        &self,
        index: ShareIndex,
        request: &SignRequest,
        now: u64,
        stored_share: Option<&[u8]>,
        master_key: Option<&str>,
    ) -> (r: Option<Result<SignResponse, P2pNetworkServiceError>>)
        ensures
            r is None <==> !is_stale(request.timestamp, now) && !(stored_share matches Some(bytes)
                ==> decryptable(master_key, bytes@)),
            r matches Some(result) ==> (result matches Ok(response) && response.request_id@
                == request.request_id@ && response.timestamp == now && (response.error is None <==> (
            !is_stale(request.timestamp, now) && secret_key_share_loads(stored_share, master_key)
                && request.message@.len() > 0))),
            r matches Some(Ok(response)) ==> (response.error is None ==> response.index == Some(index@)
                && offers_share(
                request.request_id@,
                response,
                share_signature(
                    stored_secret_key_share(stored_share, master_key)->0,
                    sha256(encode_utf8(request.message@)),
                ),
            )),
            r matches Some(Ok(response)) ==> (response.error is Some ==> response.index is None
                && response.sign_share is None),
            forall|share: BlsSecretKeyShare|
                #[trigger] holds_secret_key_share(master_key, stored_share->0@, share) && stored_share is Some
                    && !is_stale(request.timestamp, now) && request.message@.len() > 0 ==> (r matches Some(
                    Ok(response),
                ) && response.index == Some(index@) && offers_share(
                    request.request_id@,
                    response,
                    share_signature(share, sha256(encode_utf8(request.message@))),
                )),
    {
        if !request_is_stale(request.timestamp, now) && !is_decryptable(master_key, stored_share) {
            return None;
        }
        Some(self.handle_sign_request(index, request, now, stored_share, master_key))
    }

    /// `conclude_client_sign`, made only where it can be: too few shares are
    /// always refused; with enough, the public key file's contents must be
    /// decryptable at all (`None`: under a valid master key they are shorter
    /// than a nonce).
    pub fn try_conclude_client_sign(
        &self,
        signature_shares: &Vec<SignatureShare<BlsSignatureShare>>,
        threshold: usize,
        message: &str,
        stored_public_key: Option<&[u8]>,
        master_key: Option<&str>,
    ) -> (r: Option<Result<(), P2pNetworkServiceError>>)
        ensures
            r is None <==> signature_shares@.len() >= threshold && !(stored_public_key matches Some(bytes)
                ==> decryptable(master_key, bytes@)),
            r matches Some(result) ==> (result is Ok <==> {
                &&& signature_shares@.len() >= threshold
                &&& message@.len() > 0
                &&& stored_public_key_set(stored_public_key, master_key) matches Some(public_key_set)
                &&& commitment_len(public_key_set) > 0
                &&& combination(public_key_set, share_pairs(signature_shares@)) matches Some(signature)
                &&& bls_verifies(master_key_of(public_key_set), signature, sha256(message.spec_bytes()))
            }),
    {
        if signature_shares.len() >= threshold && !is_decryptable(master_key, stored_public_key) {
            return None;
        }
        Some(self.conclude_client_sign(signature_shares, threshold, message, stored_public_key, master_key))
    }

    /// The client's conclusion once collection has ended: fewer than
    /// `threshold` shares fail with `NotEnoughSignatureShares`; otherwise the
    /// shares must combine into a signature that verifies for `message`
    /// under the stored public key set, else `FailedVerifySignatures`.
    /// Shares of the stored key set's signatures of the message's digest, at
    /// least as many as its threshold and `threshold`, at distinct indices,
    /// always conclude.
    pub fn conclude_client_sign(
        &self,
        signature_shares: &Vec<SignatureShare<BlsSignatureShare>>,
        threshold: usize,
        message: &str,
        stored_public_key: Option<&[u8]>,
        master_key: Option<&str>,
    ) -> (r: Result<(), P2pNetworkServiceError>)
        requires
            signature_shares@.len() >= threshold ==> (stored_public_key matches Some(bytes) ==> decryptable(
                master_key,
                bytes@,
            )),
        ensures
            signature_shares@.len() < threshold <==> r matches Err(
                P2pNetworkServiceError::NotEnoughSignatureShares,
            ),
            r matches Err(e) ==> (e is NotEnoughSignatureShares || e is FailedVerifySignatures),
            r is Ok <==> {
                &&& signature_shares@.len() >= threshold
                &&& message@.len() > 0
                &&& stored_public_key_set(stored_public_key, master_key) matches Some(public_key_set)
                &&& commitment_len(public_key_set) > 0
                &&& combination(public_key_set, share_pairs(signature_shares@)) matches Some(signature)
                &&& bls_verifies(master_key_of(public_key_set), signature, sha256(message.spec_bytes()))
            },
            r is Ok ==> public_key_loads(stored_public_key, master_key) && signature_shares@.len() > 0,
            forall|secret_key_set: SecretKeySet|
                #[trigger] holds_public_key(
                    master_key,
                    stored_public_key->0@,
                    public_key_set_of(secret_key_set),
                ) && stored_public_key is Some && signs_together(
                    secret_key_set,
                    signature_shares@,
                    sha256(message.spec_bytes()),
                ) && message@.len() > 0 && signature_shares@.len() >= threshold ==> r is Ok,
    {
        if signature_shares.len() < threshold {
            return Err(P2pNetworkServiceError::NotEnoughSignatureShares);
        }
        let is_verify = match self.key_service.verify_signature(signature_shares, message, stored_public_key, master_key) {
            Ok(is_verify) => is_verify,
            Err(_) => return Err(P2pNetworkServiceError::FailedVerifySignatures),
        };
        if is_verify {
            Ok(())
        } else {
            Err(P2pNetworkServiceError::FailedVerifySignatures)
        }
    }
}

} // verus!
