//! Generic key and signature model.

pub mod key;
pub mod signature;
pub mod value;
