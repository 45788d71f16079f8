//! The metadata reconciler: merging one search hit with its on-chain
//! counterpart into one normalized record.
//!
//! The merge is a pure function with a fixed field-precedence table: for
//! every field both sources carry, the on-chain value wins; fields only the
//! index knows pass through unchanged; the identity key always comes from
//! the off-chain side, since it is the join key.  An absent on-chain record
//! is a hard failure — the reconciler never fabricates defaults for
//! required on-chain fields.

use vstd::prelude::*;
use crate::error::Error;
use crate::fees::{
    download_fee_bytes,
    encode_download_fee,
    encode_fee,
    fee_bytes_of,
    fee_value_of,
    lemma_download_fee_encoding,
};
use crate::records::{KeyBytes, NormalizedRecord, OffchainRecord, OnchainRecord};

verus! {

/// The field-precedence table: what it means for `r` to be the merge of
/// the search hit `off` and the on-chain record `on`.
pub open spec fn merged(off: OffchainRecord, on: OnchainRecord, r: NormalizedRecord) -> bool {
    &&& r.id == off.id
    &&& r.uploader == on.uploader
    &&& r.big_brother == on.big_brother
    &&& r.servicer == on.servicer
    &&& r.owner == on.owner
    &&& r.attester == on.attester
    &&& r.transfer_fee@ == fee_bytes_of(on.transfer_fee)
    &&& r.download_fee@ == download_fee_bytes(on.download_fee)
    &&& r.size == on.size
    &&& r.hash == on.hash
    &&& r.filename == off.filename
    &&& r.content_type == off.content_type
    &&& r.uploaded_at == off.uploaded_at
    &&& r.download_counter == off.download_counter
    &&& r.descriptions == off.descriptions
}

/// The on-chain lookup key for a search hit: the identity key itself,
/// reinterpreted as the chain's native account identifier.
pub fn lookup_key(off: &OffchainRecord) -> (k: KeyBytes)
    ensures
        k == off.id,
{
    off.id
}

/// Merges one search hit with its on-chain record, per the
/// field-precedence table.
pub fn merge(off: &OffchainRecord, on: &OnchainRecord) -> (r: NormalizedRecord)
    ensures
        merged(*off, *on, r),
{
    NormalizedRecord {
        id: off.id,
        uploader: on.uploader,
        big_brother: on.big_brother,
        servicer: on.servicer,
        owner: on.owner,
        attester: on.attester,
        transfer_fee: encode_fee(on.transfer_fee),
        download_fee: encode_download_fee(on.download_fee),
        size: on.size,
        hash: on.hash,
        filename: off.filename.clone(),
        content_type: off.content_type.clone(),
        uploaded_at: off.uploaded_at,
        download_counter: off.download_counter,
        descriptions: off.descriptions.clone(),
    }
}

/// Reconciles one search hit with the outcome of its on-chain lookup.  An
/// absent on-chain record is a hard failure, never a partial result.
pub fn reconcile(off: &OffchainRecord, lookup: Option<&OnchainRecord>) -> (r: Result<
    NormalizedRecord,
    Error,
>)
    ensures
        lookup is Some ==> r is Ok && merged(*off, *lookup->0, r->Ok_0),
        lookup is None ==> r is Err && r->Err_0 == Error::MissingOnchainRecord,
{
    match lookup {
        Option::Some(on) => Result::Ok(merge(off, on)),
        Option::None => Result::Err(Error::MissingOnchainRecord),
    }
}

/// Law: field-level override.  Wherever both sources carry a field, the
/// merged record holds the on-chain value (`uploader`, `size`, `hash`);
/// fields only the index knows (`filename`, `content_type`, `uploaded_at`,
/// `download_counter`, `descriptions`) hold the off-chain value; the
/// identity key comes from the off-chain side.
pub proof fn lemma_field_override(off: OffchainRecord, on: OnchainRecord, r: NormalizedRecord)
    requires
        merged(off, on, r),
    ensures
        r.uploader == on.uploader,
        r.size == on.size,
        r.hash == on.hash,
        r.filename == off.filename,
        r.content_type == off.content_type,
        r.uploaded_at == off.uploaded_at,
        r.download_counter == off.download_counter,
        r.descriptions == off.descriptions,
        r.id == off.id,
{
}

/// Law: fee fields of the merged record.  An absent on-chain download fee
/// yields sixteen zero bytes; a present one yields exactly its
/// little-endian bytes, which decode back to the on-chain amount; the
/// transfer fee always decodes back to the on-chain amount.
pub proof fn lemma_normalized_fees(off: OffchainRecord, on: OnchainRecord, r: NormalizedRecord)
    requires
        merged(off, on, r),
    ensures
        on.download_fee is None ==> forall|k: int| 0 <= k < 16 ==> r.download_fee@[k] == 0u8,
        on.download_fee is Some ==> r.download_fee@ == fee_bytes_of(on.download_fee->0),
        on.download_fee is Some ==> fee_value_of(r.download_fee@) == on.download_fee->0,
        fee_value_of(r.transfer_fee@) == on.transfer_fee,
{
    lemma_download_fee_encoding(on.download_fee);
    crate::fees::lemma_fee_round_trip(on.transfer_fee);
}

} // verus!
