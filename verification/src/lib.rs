//! A library for OpenAPI v2.0 documents: a typed document model, a
//! decoder from a generic structured-data tree into that model, and a
//! resolver for `$ref` pointers against the document's registries.

pub mod decode;
pub mod errors;
pub mod laws;
pub mod model;
pub mod resolve;
pub mod value;
