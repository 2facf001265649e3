//! Model struct for the CatalogObjectBatch type.

use vstd::prelude::*;
use crate::models::catalog_object::CatalogObject;

verus! {

/// A batch of catalog objects.
#[derive(Clone, Debug, Hash, PartialEq)]
pub struct CatalogObjectBatch {
    /// A list of CatalogObjects belonging to this batch.
    pub objects: Vec<CatalogObject>,
}

impl Default for CatalogObjectBatch {
    fn default() -> (r: Self)
        ensures
            r.objects@.len() == 0,
    {
        CatalogObjectBatch { objects: Vec::new() }
    }
}

} // verus!
