//! Implementations of the key model over `threshold_crypto`, and the
//! digest, encryption and storage machinery around them.

pub mod aead;
pub mod digest_generator;
pub mod encoding;
pub mod hex;
pub mod key;
pub mod order;
pub mod network;
pub mod repository;
pub mod service_factory;
pub mod text;
pub mod threshold;
