//! What the command line asks the application to do.
use vstd::prelude::*;

verus! {

/// One run of the application: make the keys, serve as signing node
/// `index`, or ask the nodes to sign `message`.
pub enum AppAction {
    Init { threshold: usize, n: usize },
    Server { index: usize },
    Client { message: String, threshold: usize },
}

#[derive(Debug)]
pub enum AppRunnerError {
    FailedBuildKeyService,
    FailedInitKeys,
    FailedBuildNetworkService,
    FailedStartServer,
    FailedClientSign,
}

} // verus!
