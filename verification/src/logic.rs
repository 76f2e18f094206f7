//! The key service and the factories that assemble services.

pub mod key_service;
pub mod key_service_factory;
pub mod network_service_factory;
