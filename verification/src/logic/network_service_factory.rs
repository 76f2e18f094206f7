use vstd::prelude::*;

verus! {

/// Builds the network service that runs signing nodes and clients.
pub trait BuildNetworkService {
    type TError;
    type TNetworkService;

    fn build(&self) -> Result<Self::TNetworkService, Self::TError>;
}

} // verus!
