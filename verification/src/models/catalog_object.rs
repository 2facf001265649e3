//! Model struct for the CatalogObject type, reduced to its identifying
//! fields.

use vstd::prelude::*;

verus! {

/// An object in the catalog. Only the fields that identify and version the
/// object are carried here; the endpoint-specific payloads are opaque to
/// this client.
#[derive(Clone, Debug, Hash, PartialEq)]
pub struct CatalogObject {
    /// An identifier to reference this object in the catalog. To create a
    /// new object, use an ID starting with `#`; otherwise supply the ID of
    /// an existing object.
    pub id: String,
    /// The version of the object. When updating an object, the version
    /// supplied must match the version in the database.
    pub version: Option<i64>,
    /// If `true`, the object has been deleted from the database.
    pub is_deleted: Option<bool>,
}

} // verus!
