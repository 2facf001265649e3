//! HTTP plumbing: header assembly and transport-form conversion.

pub mod headers;
pub mod transport;
