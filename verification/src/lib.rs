//! Client-side building blocks for a payment-processing REST API: typed
//! request/response model structs, a header-assembly helper that produces a
//! validated transport header collection, and a query-string formatter for
//! the card-listing endpoint.

pub mod http;
pub mod models;
