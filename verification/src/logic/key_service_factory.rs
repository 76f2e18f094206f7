use vstd::prelude::*;

use crate::logic::key_service::KeyService;

verus! {

/// Builds a key service over given stores and generators.
pub trait BuildKeyService<T, U, V, W> {
    type TError;

    fn build(&self) -> Result<KeyService<T, U, V, W>, Self::TError>;
}

} // verus!
