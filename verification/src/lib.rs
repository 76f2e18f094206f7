//! A distributed threshold-signature library: key model, threshold key
//! operations, encrypted key storage and the signing protocol spoken between
//! signing nodes and clients.

pub mod logic;
pub mod model;
pub mod platform;
pub mod standalone;
pub mod ui;
