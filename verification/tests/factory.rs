use d_sign::logic::key_service_factory::BuildKeyService;
use d_sign::logic::network_service_factory::BuildNetworkService;
use d_sign::platform::service_factory::{KeyServiceFactory, P2pNetworkServiceFactory};

#[test]
fn key_service_factory_build_success() {
    let factory = KeyServiceFactory;
    let result = factory.build();
    assert!(result.is_ok());
}

#[test]
fn p2p_network_service_factory_build_success() {
    let factory = P2pNetworkServiceFactory;
    let result = factory.build();
    assert!(result.is_ok());
}

#[test]
fn key_service_factory_uses_default_files() {
    let key_service = KeyServiceFactory.build().ok().unwrap();
    assert_eq!(key_service.public_key_path(), "public_key.enc");
    assert_eq!(key_service.secret_key_share_path(2), "secret_key_share.enc-2");
}
