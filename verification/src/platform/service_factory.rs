//! Assembles the key service and the network service over the file-backed
//! repositories and the `threshold_crypto` generators.
use vstd::prelude::*;

use vstd::string::StringExecFns;

use crate::logic::key_service::KeyService;
use crate::logic::key_service_factory::BuildKeyService;
use crate::logic::network_service_factory::BuildNetworkService;
use crate::platform::digest_generator::DigestGenarator;
use crate::platform::key::key_generator::KeyGenerator;
use crate::platform::network::P2pNetworkService;
use crate::platform::repository::{Crypter, PublicKeyRepository, SecretKeyShareRepository};
use crate::platform::text::{is_blank, is_unicode_whitespace};

verus! {

/// The repositories over the default files: the public key in
/// `public_key.enc`, share `i` in `secret_key_share.enc-i`.
fn default_repositories() -> (r: Option<(PublicKeyRepository, SecretKeyShareRepository)>)
    ensures
        r matches Some((public_key_repo, secret_key_share_repo)) && {
            &&& public_key_repo.file_path() == "public_key.enc"@
            &&& secret_key_share_repo.file_path() == "secret_key_share.enc"@
        },
{
    let crypter = Crypter;
    let public_key_repo = PublicKeyRepository::new(String::from_str("public_key.enc"), crypter.clone());
    proof {
        reveal_strlit("secret_key_share.enc");
        assert(!is_unicode_whitespace("secret_key_share.enc"@[0]));
        assert(!is_blank("secret_key_share.enc"@));
    }
    let secret_key_share_repo = match SecretKeyShareRepository::new(
        String::from_str("secret_key_share.enc"),
        crypter.clone(),
    ) {
        Some(repo) => repo,
        None => return None,
    };
    Some((public_key_repo, secret_key_share_repo))
}

/// Builds the key service over the default files.
pub struct KeyServiceFactory;

#[derive(Debug)]
pub enum KeyServiceFactoryError {
    FailedCreateSecretKeyShareRepository,
}

impl BuildKeyService<PublicKeyRepository, SecretKeyShareRepository, KeyGenerator, DigestGenarator> for KeyServiceFactory {
    type TError = KeyServiceFactoryError;

    /// Always succeeds: the default share path is not blank.
    fn build(&self) -> (r: Result<
        KeyService<PublicKeyRepository, SecretKeyShareRepository, KeyGenerator, DigestGenarator>,
        KeyServiceFactoryError,
    >)
        ensures
            r matches Ok(key_service) && {
                &&& key_service.public_key_repo().file_path() == "public_key.enc"@
                &&& key_service.secret_key_share_repo().file_path() == "secret_key_share.enc"@
            },
    {
        let (public_key_repo, secret_key_share_repo) = match default_repositories() {
            Some(repos) => repos,
            None => return Err(KeyServiceFactoryError::FailedCreateSecretKeyShareRepository),
        };
        Ok(KeyService::new(public_key_repo, secret_key_share_repo, KeyGenerator, DigestGenarator))
    }
}

/// Builds the network service over the default files.
pub struct P2pNetworkServiceFactory;

#[derive(Debug)]
pub enum P2pNetworkServiceFactoryError {
    FailedCreateSecretKeyShareRepository,
}

impl BuildNetworkService for P2pNetworkServiceFactory {
    type TError = P2pNetworkServiceFactoryError;
    type TNetworkService = P2pNetworkService<
        PublicKeyRepository,
        SecretKeyShareRepository,
        KeyGenerator,
        DigestGenarator,
    >;

    /// Always succeeds: the default share path is not blank.
    fn build(&self) -> (r: Result<
        P2pNetworkService<PublicKeyRepository, SecretKeyShareRepository, KeyGenerator, DigestGenarator>,
        P2pNetworkServiceFactoryError,
    >)
        ensures
            r matches Ok(network_service) && {
                &&& network_service.key_service().public_key_repo().file_path() == "public_key.enc"@
                &&& network_service.key_service().secret_key_share_repo().file_path()
                    == "secret_key_share.enc"@
            },
    {
        let (public_key_repo, secret_key_share_repo) = match default_repositories() {
            Some(repos) => repos,
            None => return Err(P2pNetworkServiceFactoryError::FailedCreateSecretKeyShareRepository),
        };
        let key_service = KeyService::new(public_key_repo, secret_key_share_repo, KeyGenerator, DigestGenarator);
        Ok(P2pNetworkService::new(key_service))
    }
}

} // verus!
