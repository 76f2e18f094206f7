use std::collections::BTreeMap;

use sha2::Digest;

use d_sign::standalone::{
    collect_share, conclude_client_sign, decode_share, encode_message, handle_sign_request,
    has_enough_shares, init_shares, load_pubset, load_share, pubset_base64, share_file_path,
    StandaloneError,
};

#[test]
fn standalone_init_rejects_bad_parameters() {
    assert!(matches!(init_shares(2, 2).err().unwrap(), StandaloneError::InvalidThreshold));
    assert!(matches!(init_shares(0, 0).err().unwrap(), StandaloneError::InvalidThreshold));
    assert!(init_shares(1, 2).is_ok());
}

#[test]
fn standalone_sign_flow() {
    let files = init_shares(1, 3).ok().unwrap();
    assert_eq!(files.public_key.path, "pubset.key");
    assert_eq!(files.secret_key_shares.len(), 3);
    assert_eq!(files.secret_key_shares[2].path, "share-2.key");
    assert_eq!(share_file_path(11), "share-11.key");

    let pubset = load_pubset(Some(&files.public_key.contents)).ok().unwrap();
    assert!(pubset_base64(&pubset).is_ok());

    let request = encode_message("hello");
    assert_eq!(request, "aGVsbG8=");

    let mut shares = BTreeMap::new();
    for i in [0usize, 2] {
        let (share, _) =
            load_share(Some(&files.secret_key_shares[i].contents), Some(&files.public_key.contents))
                .ok()
                .unwrap();
        let (encoded, digest) = handle_sign_request(&request, &share).ok().unwrap();
        assert_eq!(digest, sha2::Sha256::digest(b"hello").to_vec());
        collect_share(&mut shares, i, decode_share(&encoded).ok().unwrap());
    }
    assert!(has_enough_shares(&shares, 2));
    let signature_hex = conclude_client_sign(&pubset, &shares, 2, "hello").ok().unwrap();
    assert_eq!(signature_hex.len(), 2 * 96);
    let signature = pubset.combine_signatures(&shares).unwrap();
    assert_eq!(signature_hex, hex::encode(bincode::serialize(&signature).unwrap()));
    assert!(matches!(
        conclude_client_sign(&pubset, &shares, 2, "other").err().unwrap(),
        StandaloneError::FailedVerifySignature
    ));
    assert!(matches!(
        conclude_client_sign(&pubset, &shares, 3, "hello").err().unwrap(),
        StandaloneError::NotEnoughSignatureShares
    ));
}

#[test]
fn standalone_duplicate_index_replaces() {
    let files = init_shares(1, 2).ok().unwrap();
    let (share, pubset) =
        load_share(Some(&files.secret_key_shares[0].contents), Some(&files.public_key.contents))
            .ok()
            .unwrap();
    let request = encode_message("x");
    let mut shares = BTreeMap::new();
    for _ in 0..2 {
        let (encoded, _) = handle_sign_request(&request, &share).ok().unwrap();
        collect_share(&mut shares, 0, decode_share(&encoded).ok().unwrap());
    }
    assert_eq!(shares.len(), 1);
    assert!(!has_enough_shares(&shares, 2));
    assert!(matches!(
        conclude_client_sign(&pubset, &shares, 1, "x").err().unwrap(),
        StandaloneError::FailedCombineSignatures
    ));
}

#[test]
fn standalone_load_errors() {
    assert!(matches!(load_share(None, None).err().unwrap(), StandaloneError::FailedReadShare));
    assert!(matches!(
        load_share(Some(&[1u8, 2]), None).err().unwrap(),
        StandaloneError::FailedDeserializeShare
    ));
    assert!(matches!(load_pubset(None).err().unwrap(), StandaloneError::FailedReadPubset));
    assert!(matches!(
        load_pubset(Some(&[1u8, 2, 3])).err().unwrap(),
        StandaloneError::FailedDeserializePubset
    ));
    let files = init_shares(1, 2).ok().unwrap();
    let share = Some(files.secret_key_shares[1].contents.as_slice());
    assert!(matches!(load_share(share, None).err().unwrap(), StandaloneError::FailedReadPubset));
    assert!(matches!(
        load_share(share, Some(&[9u8])).err().unwrap(),
        StandaloneError::FailedDeserializePubset
    ));
    assert!(matches!(
        handle_sign_request("%%", &threshold_crypto::SecretKeySet::random(0, &mut rand::thread_rng()).secret_key_share(0))
            .err()
            .unwrap(),
        StandaloneError::FailedBase64Decode
    ));
}
