//! The three record shapes the service works with.
//!
//! An off-chain record is a search hit: indexed metadata, fast to query and
//! possibly stale.  An on-chain record is the authoritative metadata the
//! ledger stores under the same identity key.  A normalized record is the
//! union of both, and is what a successful query returns.

use vstd::prelude::*;

verus! {

/// A 32-byte public key, also used as the on-chain account identifier.
pub type KeyBytes = [u8; 32];

/// A 32-byte content hash.
pub type HashBytes = [u8; 32];

/// One search hit, as decoded from the search index.
pub struct OffchainRecord {
    /// Identity key; the join key against the chain.
    pub id: KeyBytes,
    /// Uploader key as the index knows it (possibly stale).
    pub uploader: KeyBytes,
    /// File size as the index knows it (possibly stale).
    pub size: u64,
    /// Content hash as the index knows it (possibly stale).
    pub hash: HashBytes,
    pub filename: String,
    pub content_type: String,
    /// Upload time, in microseconds since the Unix epoch.
    pub uploaded_at: i64,
    pub download_counter: u64,
    pub descriptions: String,
}

/// The authoritative record the ledger stores under an identity key, read
/// at the most recent finalized state snapshot.
pub struct OnchainRecord {
    pub uploader: KeyBytes,
    /// The oversight/escrow role attached to the file.
    pub big_brother: KeyBytes,
    pub servicer: KeyBytes,
    pub owner: KeyBytes,
    pub attester: KeyBytes,
    /// Fixed-point transfer fee in minor units; always present on-chain.
    pub transfer_fee: u128,
    /// Fixed-point download fee; absent encodes as sixteen zero bytes.
    pub download_fee: Option<u128>,
    pub size: u64,
    pub hash: HashBytes,
}

/// The merged output record; the field set a successful query returns.
pub struct NormalizedRecord {
    pub id: KeyBytes,
    pub uploader: KeyBytes,
    pub big_brother: KeyBytes,
    pub servicer: KeyBytes,
    pub owner: KeyBytes,
    pub attester: KeyBytes,
    /// 16 little-endian bytes of the on-chain transfer fee.
    pub transfer_fee: Vec<u8>,
    /// 16 little-endian bytes of the on-chain download fee, or all zero.
    pub download_fee: Vec<u8>,
    pub size: u64,
    pub hash: HashBytes,
    pub filename: String,
    pub content_type: String,
    /// Upload time, in microseconds since the Unix epoch.
    pub uploaded_at: i64,
    pub download_counter: u64,
    pub descriptions: String,
}

} // verus!
