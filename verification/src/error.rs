//! Failure classes of the query service.

use vstd::prelude::*;

verus! {

/// Everything that can abort a request.  The distinction between the
/// variants exists for internal diagnostics only: every class is surfaced
/// to the caller as the same internal-server-error response, with no
/// partial output.
#[derive(Clone, Copy, Debug, PartialEq, Eq, Structural)]
pub enum Error {
    /// Underlying transport failure (network, serialization).
    IOError,
    /// Search-index client construction or query failure.
    StoreConnectionBroken,
    /// Chain session establishment or RPC failure.
    ChainTransportError,
    /// A search hit has no corresponding on-chain record.
    MissingOnchainRecord,
}

impl Error {
    /// The client-visible status code: identical for every failure class.
    pub fn status_code(&self) -> (code: u16)
        ensures
            code == 500,
    {
        500
    }

    /// Short diagnostic text for logs; never shown to the caller.
    pub fn message(&self) -> (m: &'static str)
        ensures
            self is IOError ==> m@ == "IO error"@,
            self is StoreConnectionBroken ==> m@ == "Connection to internal database is broken"@,
            self is ChainTransportError ==> m@ == "Chain connection failure"@,
            self is MissingOnchainRecord ==> m@ == "Bad metadata processing"@,
    {
        match self {
            Error::IOError => "IO error",
            Error::StoreConnectionBroken => "Connection to internal database is broken",
            Error::ChainTransportError => "Chain connection failure",
            Error::MissingOnchainRecord => "Bad metadata processing",
        }
    }
}

} // verus!
