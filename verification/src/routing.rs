//! Route and index selection.
//!
//! The service maps exactly one route — a GET of the root path — and
//! rejects everything else with a fixed forbidden response.  The network
//! selector of a query picks which search index is consulted.

use vstd::prelude::*;
use vstd::string::StringExecFns;

verus! {

/// HTTP request method of an incoming call.
#[derive(Clone, Copy, Debug, PartialEq, Eq, Structural)]
pub enum Method {
    Get,
    Head,
    Post,
    Put,
    Delete,
    Connect,
    Options,
    Trace,
    Patch,
}

/// Where an incoming request is routed.
#[derive(Clone, Copy, Debug, PartialEq, Eq, Structural)]
pub enum RouteDecision {
    /// The single mapped endpoint: the file-metadata query.
    FileInfo,
    /// Any other path, or any other method on the root path.
    Forbidden,
}

/// Routes a request: the file-metadata query answers a GET of the root
/// path and nothing else.
pub fn dispatch(method: Method, path: &String) -> (d: RouteDecision)
    ensures
        d == RouteDecision::FileInfo <==> (method == Method::Get && path@ == "/"@),
{
    let root = String::from_str("/");
    if method == Method::Get && *path == root {
        RouteDecision::FileInfo
    } else {
        RouteDecision::Forbidden
    }
}

/// The fixed response to every unmapped request: forbidden, empty body.
pub fn reject_unmapped() -> (r: (u16, Vec<u8>))
    ensures
        r.0 == 403,
        r.1@.len() == 0,
{
    (403, Vec::new())
}

/// The search index a query is answered from: one index per network.
pub fn index_name(mainnet: bool) -> (r: &'static str)
    ensures
        mainnet ==> r@ == "mainnet_files"@,
        !mainnet ==> r@ == "testnet_files"@,
{
    if mainnet {
        "mainnet_files"
    } else {
        "testnet_files"
    }
}

} // verus!
