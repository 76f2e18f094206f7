use base64::engine::general_purpose;
use base64::Engine;
use rand::thread_rng;
use threshold_crypto::{PublicKeySet, SecretKeySet};

use d_sign::logic::key_service_factory::BuildKeyService;
use d_sign::logic::network_service_factory::BuildNetworkService;
use d_sign::model::key::{CombineSignatureShares, Verifiable};
use d_sign::model::signature::{Digest, Signature, SignatureShare};
use d_sign::model::value::ShareIndex;
use d_sign::platform::key::public_key::PublicKeySetError;
use d_sign::platform::network::SignRequest;
use d_sign::platform::repository::is_decryptable;
use d_sign::platform::service_factory::{KeyServiceFactory, P2pNetworkServiceFactory};
use d_sign::platform::threshold::has_commitment;
use d_sign::standalone::{conclude_client_sign, init_shares, StandaloneError};

fn master_key() -> String {
    general_purpose::STANDARD.encode([1u8; 32])
}

fn empty_key_set() -> PublicKeySet {
    bincode::deserialize(&[0u8; 8]).unwrap()
}

#[test]
fn bincode_lengths_of_key_material() {
    let set = SecretKeySet::random(2, &mut thread_rng());
    let public = set.public_keys();
    assert_eq!(bincode::serialize(&public).unwrap().len(), 8 + 48 * 3);
    let share = set.secret_key_share(1);
    let share_bytes = bincode::serialize(&threshold_crypto::serde_impl::SerdeSecret(&share)).unwrap();
    assert_eq!(share_bytes.len(), 32);
    let signature_share = share.sign("m");
    assert_eq!(bincode::serialize(&signature_share).unwrap().len(), 96);
    assert_eq!(bincode::serialize(&signature_share.0).unwrap().len(), 96);
}

#[test]
fn empty_commitment_neither_panics_nor_verifies() {
    let empty = empty_key_set();
    assert!(!has_commitment(&empty));
    assert!(has_commitment(&SecretKeySet::random(0, &mut thread_rng()).public_keys()));

    let set = SecretKeySet::random(0, &mut thread_rng());
    let share = SignatureShare::new(ShareIndex::new(0), set.secret_key_share(0).sign(b"d"));
    assert!(matches!(
        empty.combine_signature_shares(&[share]).err().unwrap(),
        PublicKeySetError::FailedCombineSignature
    ));
    let signature = Signature::new(set.secret_key_share(0).sign(b"d").0);
    assert_eq!(empty.verify(&signature, &Digest::new(b"d".to_vec())).unwrap(), false);

    let mut shares = std::collections::BTreeMap::new();
    shares.insert(0usize, set.secret_key_share(0).sign(b"d"));
    assert!(matches!(
        conclude_client_sign(&empty, &shares, 1, "d").err().unwrap(),
        StandaloneError::FailedCombineSignatures
    ));
}

#[test]
fn standalone_init_lays_out_one_key_set() {
    let files = init_shares(1, 3).ok().unwrap();
    assert_eq!(files.public_key.contents.len(), 8 + 48 * 2);
    let public: PublicKeySet = bincode::deserialize(&files.public_key.contents).unwrap();
    assert_eq!(public.threshold(), 1);
    for share_file in &files.secret_key_shares {
        assert_eq!(share_file.contents.len(), 32);
    }
}

#[test]
fn decryptable_is_tested_before_the_call() {
    let key = master_key();
    assert!(is_decryptable(Some(&key), None));
    assert!(is_decryptable(Some(&key), Some(&[0u8; 12])));
    assert!(!is_decryptable(Some(&key), Some(&[0u8; 11])));
    assert!(is_decryptable(None, Some(&[0u8; 3])));

    let files = KeyServiceFactory.build().ok().unwrap().init_keys(2, 3, Some(&key)).ok().unwrap();
    let key_service = KeyServiceFactory.build().ok().unwrap();
    assert!(key_service.try_sign_message(0, "m", Some(&[1u8, 2]), Some(&key)).is_none());
    let signed = key_service
        .try_sign_message(0, "m", Some(&files.secret_key_shares[0].contents), Some(&key))
        .unwrap()
        .ok()
        .unwrap();
    assert_eq!(signed.index, ShareIndex::new(0));
    assert!(key_service.try_verify_signature(&vec![signed], "m", Some(&[0u8; 5]), Some(&key)).is_none());

    let network = P2pNetworkServiceFactory.build().ok().unwrap();
    let request = SignRequest { request_id: "r".to_string(), timestamp: 7, message: "m".to_string() };
    assert!(network.try_handle_sign_request(ShareIndex::new(0), &request, 7, Some(&[1u8]), Some(&key)).is_none());
    let response = network
        .try_handle_sign_request(ShareIndex::new(1), &request, 7, Some(&files.secret_key_shares[1].contents), Some(&key))
        .unwrap()
        .ok()
        .unwrap();
    assert!(response.error.is_none());
    assert!(network.try_conclude_client_sign(&Vec::new(), 0, "m", Some(&[2u8]), Some(&key)).is_none());
}

#[test]
fn saved_key_values_read_back() {
    let key = master_key();
    let files = KeyServiceFactory.build().ok().unwrap().init_keys(2, 3, Some(&key)).ok().unwrap();
    let key_service = KeyServiceFactory.build().ok().unwrap();
    let shares: Vec<_> = [0usize, 2]
        .iter()
        .map(|&i| key_service.sign_message(i, "hello", Some(&files.secret_key_shares[i].contents), Some(&key)).ok().unwrap())
        .collect();
    assert_eq!(
        key_service.verify_signature(&shares, "hello", Some(&files.public_key.contents), Some(&key)).ok().unwrap(),
        true
    );
    assert_eq!(
        key_service.verify_signature(&shares, "other", Some(&files.public_key.contents), Some(&key)).ok().unwrap(),
        false
    );
}

#[test]
fn stale_request_is_answered_without_reading_the_share() {
    let key = master_key();
    let network = P2pNetworkServiceFactory.build().ok().unwrap();
    let request = SignRequest { request_id: "old".to_string(), timestamp: 10, message: "m".to_string() };
    let response = network
        .try_handle_sign_request(ShareIndex::new(0), &request, 400, Some(&[1u8, 2]), Some(&key))
        .unwrap()
        .ok()
        .unwrap();
    assert_eq!(response.error.as_deref(), Some("stale request"));
    let direct = network.handle_sign_request(ShareIndex::new(0), &request, 400, Some(&[1u8]), Some(&key)).ok().unwrap();
    assert_eq!(direct.error.as_deref(), Some("stale request"));
}

#[test]
fn too_few_shares_are_refused_before_the_key_is_read() {
    let key = master_key();
    let network = P2pNetworkServiceFactory.build().ok().unwrap();
    let result = network.try_conclude_client_sign(&Vec::new(), 2, "m", Some(&[3u8]), Some(&key)).unwrap();
    assert!(matches!(
        result.err().unwrap(),
        d_sign::platform::network::P2pNetworkServiceError::NotEnoughSignatureShares
    ));
}

#[test]
fn distinct_share_sets_combine_to_one_signature() {
    let set = SecretKeySet::random(1, &mut thread_rng());
    let public = set.public_keys();
    let sign = |i: usize| SignatureShare::new(ShareIndex::new(i), set.secret_key_share(i).sign(b"digest"));
    let a = public.combine_signature_shares(&[sign(0), sign(1)]).ok().unwrap();
    let b = public.combine_signature_shares(&[sign(2), sign(1)]).ok().unwrap();
    assert!(a.signature == b.signature);
    assert!(public.verify(&a, &Digest::new(b"digest".to_vec())).unwrap());
    assert!(!public.verify(&a, &Digest::new(b"other".to_vec())).unwrap());
}

#[test]
fn standalone_needs_a_peer() {
    assert!(matches!(
        d_sign::standalone::check_peers_found(0).err().unwrap(),
        StandaloneError::NotFoundPeer
    ));
    assert!(d_sign::standalone::check_peers_found(3).is_ok());
}

#[test]
fn node_reply_in_steps_carries_its_index_and_share() {
    let key = master_key();
    let files = KeyServiceFactory.build().ok().unwrap().init_keys(2, 3, Some(&key)).ok().unwrap();
    let network = P2pNetworkServiceFactory.build().ok().unwrap();
    let request = SignRequest { request_id: "q".to_string(), timestamp: 100, message: "hello".to_string() };
    assert!(network.stale_reply(&request, 401).is_some());
    assert!(network.stale_reply(&request, 401).unwrap().error.as_deref() == Some("stale request"));
    assert!(network.stale_reply(&request, 400).is_none());

    let signed = network
        .sign_request(ShareIndex::new(2), &request, Some(&files.secret_key_shares[2].contents), Some(&key))
        .unwrap();
    let share = signed.as_ref().ok().unwrap().signature_share.clone();
    let response = network.reply_to_request(ShareIndex::new(2), &request, signed, 105).ok().unwrap();
    assert_eq!(response.timestamp, 105);
    assert_eq!(response.index, Some(2));
    assert_eq!(
        response.sign_share.unwrap(),
        general_purpose::STANDARD.encode(bincode::serialize(&share).unwrap())
    );
    assert!(network.sign_request(ShareIndex::new(0), &request, Some(&[7u8]), Some(&key)).is_none());

    let failed = network
        .sign_request(ShareIndex::new(0), &request, None, Some(&key))
        .unwrap();
    let response = network.reply_to_request(ShareIndex::new(0), &request, failed, 106).ok().unwrap();
    assert_eq!(response.error.as_deref(), Some("Failed to load secret key share"));
    assert!(response.index.is_none());
}

#[test]
fn standalone_collect_response_keeps_only_complete_answers() {
    let set = SecretKeySet::random(0, &mut thread_rng());
    let share = set.secret_key_share(0).sign(b"d");
    let text = general_purpose::STANDARD.encode(bincode::serialize(&share).unwrap());
    let mut shares = std::collections::BTreeMap::new();
    assert_eq!(d_sign::standalone::collect_response(&mut shares, Some(4), Some(&text), Some("boom")).ok().unwrap(), None);
    assert_eq!(d_sign::standalone::collect_response(&mut shares, None, Some(&text), None).ok().unwrap(), None);
    assert!(shares.is_empty());
    assert!(matches!(
        d_sign::standalone::collect_response(&mut shares, Some(4), Some("%%"), None).err().unwrap(),
        StandaloneError::FailedBase64Decode
    ));
    assert_eq!(d_sign::standalone::collect_response(&mut shares, Some(4), Some(&text), None).ok().unwrap(), Some(4));
    assert!(shares[&4] == share);
}
