//! Request struct for the Batch Upsert Catalog Objects API.

use vstd::prelude::*;
use crate::models::catalog_object_batch::CatalogObjectBatch;

verus! {

/// The request body for the batch upsert endpoint of the catalog API.
#[derive(Clone, Debug, PartialEq)]
pub struct BatchUpsertCatalogObjectsRequest {
    /// A value you specify that uniquely identifies this request among all
    /// your requests. A common way to create a valid idempotency key is to
    /// use a universally unique identifier (UUID). If you are unsure whether
    /// a particular request was successful, you can reattempt it with the
    /// same idempotency key without worrying about creating duplicate
    /// objects.
    pub idempotency_key: Option<String>,
    /// A batch of CatalogObjects to be inserted/updated atomically. The
    /// objects within a batch are inserted in an all-or-nothing fashion:
    /// if an error occurs attempting to insert or update an object within a
    /// batch, the entire batch is rejected. An error in one batch does not
    /// affect other batches within the same request.
    ///
    /// Each batch may contain up to 1,000 objects, and the total number of
    /// objects across all batches for a single request may not exceed
    /// 10,000; the server rejects the request when either limit is violated.
    pub batches: Vec<CatalogObjectBatch>,
}

impl Default for BatchUpsertCatalogObjectsRequest {
    fn default() -> (r: Self)
        ensures
            r.idempotency_key is None,
            r.batches@.len() == 0,
    {
        BatchUpsertCatalogObjectsRequest { idempotency_key: None, batches: Vec::new() }
    }
}

} // verus!
