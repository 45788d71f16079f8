//! Per-request orchestration decisions of the query handler.
//!
//! The handler itself lives outside the library: it reads the query, calls
//! the search client, and — in the enriched variant — opens one chain
//! session per request and fetches one on-chain record per hit, strictly in
//! hit order.  This module holds the decisions it follows: whether a chain
//! session is needed at all, and how a batch of hits and their lookup
//! outcomes becomes the response.

use vstd::prelude::*;
use crate::error::Error;
use crate::reconcile::{merge, merged};
use crate::records::{NormalizedRecord, OffchainRecord, OnchainRecord};

verus! {

/// What the enriched variant does once the search has returned.
#[derive(Clone, Copy, Debug, PartialEq, Eq, Structural)]
pub enum ChainPlan {
    /// No hits: answer with the empty list; no chain session is opened.
    RespondEmpty,
    /// At least one hit: open exactly one chain session and reconcile
    /// every hit through it, in hit order.
    EnrichHits,
}

/// Decides whether a request needs a chain session.  A search with no hits
/// is answered empty without ever touching the chain.
pub fn plan_after_search(hits: &Vec<OffchainRecord>) -> (p: ChainPlan)
    ensures
        hits@.len() == 0 ==> p == ChainPlan::RespondEmpty,
        hits@.len() > 0 ==> p == ChainPlan::EnrichHits,
{
    if hits.len() == 0 {
        ChainPlan::RespondEmpty
    } else {
        ChainPlan::EnrichHits
    }
}

/// Reconciles a whole batch of hits with their lookup outcomes, one lookup
/// per hit, in hit order.
///
/// The result is the whole response: it is `Ok` exactly when every hit
/// found its on-chain record, and then the `i`-th output record is the
/// merge of the `i`-th hit with the `i`-th lookup — output order equals
/// hit order.  One absent record fails the whole batch with zero output
/// records; there is no partial result.
pub fn reconcile_batch(
    hits: &Vec<OffchainRecord>,
    lookups: &Vec<Option<OnchainRecord>>,
) -> (r: Result<Vec<NormalizedRecord>, Error>)
    requires
        hits@.len() == lookups@.len(),
    ensures
        (r is Ok) <==> (forall|i: int| 0 <= i < lookups@.len() ==> lookups@[i] is Some),
        r is Ok ==> r->Ok_0@.len() == hits@.len(),
        r is Ok ==> forall|i: int|
            0 <= i < hits@.len() ==> merged(hits@[i], lookups@[i]->0, #[trigger] r->Ok_0@[i]),
        r is Err ==> r->Err_0 == Error::MissingOnchainRecord,
{
    let n = hits.len();
    let mut out: Vec<NormalizedRecord> = Vec::new();
    let mut i: usize = 0;
    while i < n
        invariant
            n == hits@.len(),
            hits@.len() == lookups@.len(),
            i <= n,
            out@.len() == i as int,
            forall|j: int| 0 <= j < i as int ==> lookups@[j] is Some,
            forall|j: int| 0 <= j < i as int ==> merged(hits@[j], lookups@[j]->0, #[trigger] out@[j]),
        decreases n - i,
    {
        match &lookups[i] {
            Option::Some(on) => {
                let rec = merge(&hits[i], on);
                out.push(rec);
            },
            Option::None => {
                return Result::Err(Error::MissingOnchainRecord);
            },
        }
        i += 1;
    }
    Result::Ok(out)
}

} // verus!
