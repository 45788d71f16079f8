//! Verified core of a small file-metadata query service.
//!
//! The service answers keyword searches over an index of file metadata and,
//! in its enriched variant, reconciles every search hit with the
//! authoritative on-chain record stored under the same identity key.  This
//! crate holds the parts worth proving: the fixed-point fee codec, the
//! off-chain/on-chain merge rules, the per-request reconciliation plan, and
//! the route/status decisions.  The HTTP server, the search client and the
//! chain session live outside the library and hand it plain values.

pub mod error;
pub mod fees;
pub mod handler;
pub mod reconcile;
pub mod records;
pub mod routing;
