//! The OpenAPI v2.0 document model: immutable value types mirroring the
//! specification's object graph. Maps are kept as vectors of key/value
//! pairs in document order. Positions where the specification allows
//! either an inline object or a `$ref` pointer are the `...OrRef` enums.

use vstd::prelude::*;

verus! {

/// The root document.
#[derive(Debug, PartialEq, Eq, Default)]
pub struct Spec {
    pub swagger: String,
    pub info: Info,
    pub host: Option<String>,
    pub base_path: Option<String>,
    pub schemes: Option<Vec<String>>,
    pub consumes: Option<Vec<String>>,
    pub produces: Option<Vec<String>>,
    pub paths: Vec<(String, PathItem)>,
    pub definitions: Vec<(String, SchemaOrRef)>,
    pub parameters: Vec<(String, Parameter)>,
    pub responses: Vec<(String, Response)>,
    pub tags: Option<Vec<Tag>>,
    pub external_docs: Option<ExternalDocs>,
}

/// Basic information about the API.
#[derive(Debug, PartialEq, Eq, Default)]
pub struct Info {
    pub title: String,
    pub description: Option<String>,
    pub terms_of_service: Option<String>,
    pub contact: Option<Contact>,
    pub license: Option<License>,
    pub version: String,
}

/// Contact information regarding the API.
#[derive(Debug, PartialEq, Eq, Default)]
pub struct Contact {
    pub name: Option<String>,
    pub url: Option<String>,
    pub email: Option<String>,
}

/// The API's licensing information.
#[derive(Debug, PartialEq, Eq, Default)]
pub struct License {
    pub name: String,
    pub url: Option<String>,
}

/// External documentation information.
#[derive(Debug, PartialEq, Eq, Default)]
pub struct ExternalDocs {
    pub description: Option<String>,
    pub url: String,
}

/// Additional metadata tag.
#[derive(Debug, PartialEq, Eq, Default)]
pub struct Tag {
    pub name: String,
    pub description: Option<String>,
    pub external_docs: Option<ExternalDocs>,
}

/// The operations available on a single path. When `ref_path` is present
/// the item is a pure reference and carries no operations.
#[derive(Debug, PartialEq, Eq, Default)]
pub struct PathItem {
    pub ref_path: Option<String>,
    pub get: Option<Operation>,
    pub put: Option<Operation>,
    pub post: Option<Operation>,
    pub delete: Option<Operation>,
    pub options: Option<Operation>,
    pub head: Option<Operation>,
    pub patch: Option<Operation>,
}

/// A single API operation on a path.
#[derive(Debug, PartialEq, Eq, Default)]
pub struct Operation {
    pub tags: Option<Vec<String>>,
    pub summary: Option<String>,
    pub description: Option<String>,
    pub external_docs: Option<ExternalDocs>,
    pub operation_id: Option<String>,
    pub consumes: Option<Vec<String>>,
    pub produces: Option<Vec<String>>,
    pub parameters: Option<Vec<ParameterOrRef>>,
    pub responses: Vec<(String, ResponseOrRef)>,
}

/// A single operation parameter. A `body` parameter carries a `schema`;
/// any other location carries a `param_type`.
#[derive(Debug, PartialEq, Eq, Default)]
pub struct Parameter {
    pub name: String,
    pub in_loc: String,
    pub description: Option<String>,
    pub required: Option<bool>,
    pub param_type: Option<String>,
    pub format: Option<String>,
    pub schema: Option<SchemaOrRef>,
}

/// The expected response of an operation.
#[derive(Debug, PartialEq, Eq, Default)]
pub struct Response {
    pub description: String,
    pub schema: Option<SchemaOrRef>,
    pub headers: Option<Vec<(String, Header)>>,
    pub examples: Option<Vec<(String, String)>>,
}

/// Definition of input and output data types.
#[derive(Debug, PartialEq, Eq, Default)]
pub struct Schema {
    pub schema_type: String,
    pub format: Option<String>,
    pub title: Option<String>,
    pub description: Option<String>,
    pub multiple_of: Option<i32>,
    pub maximum: Option<i32>,
    pub exclusive_maximum: Option<bool>,
    pub minimum: Option<i32>,
    pub exclusive_minimum: Option<bool>,
    pub max_length: Option<i32>,
    pub min_length: Option<i32>,
    pub pattern: Option<String>,
    pub max_items: Option<i32>,
    pub min_items: Option<i32>,
    pub unique_items: Option<bool>,
    pub max_properties: Option<i32>,
    pub min_properties: Option<i32>,
    pub required: Option<bool>,
    pub items: Option<Box<SchemaOrRef>>,
    pub all_of: Option<Vec<SchemaOrRef>>,
    pub properties: Option<Vec<(String, SchemaOrRef)>>,
    pub discriminator: Option<String>,
    pub read_only: Option<bool>,
    pub external_docs: Option<ExternalDocs>,
}

/// A response header: a constrained primitive descriptor.
#[derive(Debug, PartialEq, Eq, Default)]
pub struct Header {
    pub description: Option<String>,
    pub header_type: String,
    pub format: Option<String>,
    pub items: Option<Items>,
    pub collection_format: Option<String>,
    pub maximum: Option<i32>,
    pub exclusive_maximum: Option<bool>,
    pub minimum: Option<i32>,
    pub exclusive_minimum: Option<bool>,
    pub max_length: Option<i32>,
    pub min_length: Option<i32>,
    pub pattern: Option<String>,
    pub max_items: Option<i32>,
    pub min_items: Option<i32>,
    pub unique_items: Option<bool>,
    pub multiple_of: Option<i32>,
}

/// Limited subset of JSON-Schema's items object.
#[derive(Debug, PartialEq, Eq, Default)]
pub struct Items {
    pub item_type: String,
    pub format: Option<String>,
    pub items: Option<Box<Items>>,
    pub collection_format: Option<String>,
    pub maximum: Option<i32>,
    pub exclusive_maximum: Option<bool>,
    pub minimum: Option<i32>,
    pub exclusive_minimum: Option<bool>,
    pub max_length: Option<i32>,
    pub min_length: Option<i32>,
    pub pattern: Option<String>,
    pub max_items: Option<i32>,
    pub min_items: Option<i32>,
    pub unique_items: Option<bool>,
    pub multiple_of: Option<i32>,
}

/// An inline schema or a `$ref` pointer to one.
#[derive(Debug, PartialEq, Eq)]
pub enum SchemaOrRef {
    Reference(String),
    Inline(Box<Schema>),
}

/// An inline parameter or a `$ref` pointer to one.
#[derive(Debug, PartialEq, Eq)]
pub enum ParameterOrRef {
    Reference(String),
    Inline(Parameter),
}

/// An inline response or a `$ref` pointer to one.
#[derive(Debug, PartialEq, Eq)]
pub enum ResponseOrRef {
    Reference(String),
    Inline(Response),
}

} // verus!
