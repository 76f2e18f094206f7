//! The key model's traits, implemented for `threshold_crypto`'s key types.

pub mod key_generator;
pub mod public_key;
pub mod secret_key_set;
pub mod secret_key_share;
