//! Laws of minimal decoding: for each entity, a mapping holding only the
//! entity's required fields decodes without error, and whatever it decodes
//! to carries the default (absent) value in every optional field.

use vstd::prelude::*;
use crate::decode::{contact_err, contact_ok, license_err, license_ok, external_docs_err,
    external_docs_ok, tag_err, tag_ok, info_err, info_ok, items_err, items_ok, header_err,
    header_ok, schema_err, schema_ok, parameter_err, parameter_ok, response_err, response_ok,
    operation_err, operation_ok, path_item_err, path_item_ok, root_err, root_ok};
use crate::errors::PathSegV;
use crate::model::{Contact, ExternalDocs, Header, Info, Items, License, Operation, Parameter,
    PathItem, Response, Schema, Spec, Tag};
use crate::value::{Value, lookup, str_at};

verus! {

/// A minimal `Contact` mapping (it has no required fields) decodes, with
/// every field absent.
pub proof fn lemma_contact_minimal(v: Value, c: Contact, path: Seq<PathSegV>)
    requires
        v matches Value::Mapping(entries) && {
            let m = entries@;
            &&& lookup(m, "name"@) is None
            &&& lookup(m, "url"@) is None
            &&& lookup(m, "email"@) is None
        },
    ensures
        contact_err(v, path) is None,
        contact_ok(v, c) ==> c.name is None && c.url is None && c.email is None,
{
}

/// A minimal `License` mapping — only `name` — decodes, with `url` absent.
pub proof fn lemma_license_minimal(v: Value, l: License, path: Seq<PathSegV>)
    requires
        v matches Value::Mapping(entries) && {
            let m = entries@;
            &&& lookup(m, "name"@) matches Some(nv) && nv is Text
            &&& lookup(m, "url"@) is None
        },
    ensures
        license_err(v, path) is None,
        license_ok(v, l) ==> l.url is None,
{
}

/// A minimal `ExternalDocs` mapping — only `url` — decodes, with
/// `description` absent.
pub proof fn lemma_external_docs_minimal(v: Value, d: ExternalDocs, path: Seq<PathSegV>)
    requires
        v matches Value::Mapping(entries) && {
            let m = entries@;
            &&& lookup(m, "url"@) matches Some(uv) && uv is Text
            &&& lookup(m, "description"@) is None
        },
    ensures
        external_docs_err(v, path) is None,
        external_docs_ok(v, d) ==> d.description is None,
{
}

/// A minimal `Tag` mapping — only `name` — decodes, with the optional
/// fields absent.
pub proof fn lemma_tag_minimal(v: Value, t: Tag, path: Seq<PathSegV>)
    requires
        v matches Value::Mapping(entries) && {
            let m = entries@;
            &&& lookup(m, "name"@) matches Some(nv) && nv is Text
            &&& lookup(m, "description"@) is None
            &&& lookup(m, "externalDocs"@) is None
        },
    ensures
        tag_err(v, path) is None,
        tag_ok(v, t) ==> t.description is None && t.external_docs is None,
{
}

/// A minimal `Info` mapping — only `title` and `version` — decodes, with
/// the optional fields absent.
pub proof fn lemma_info_minimal(v: Value, i: Info, path: Seq<PathSegV>)
    requires
        v matches Value::Mapping(entries) && {
            let m = entries@;
            &&& lookup(m, "title"@) matches Some(tv) && tv is Text
            &&& lookup(m, "version"@) matches Some(vv) && vv is Text
            &&& lookup(m, "description"@) is None
            &&& lookup(m, "termsOfService"@) is None
            &&& lookup(m, "contact"@) is None
            &&& lookup(m, "license"@) is None
        },
    ensures
        info_err(v, path) is None,
        info_ok(v, i) ==> i.description is None && i.terms_of_service is None && i.contact is None
            && i.license is None,
{
}

/// A minimal `Items` mapping — only `type` — decodes, with every
/// constraint absent.
pub proof fn lemma_items_minimal(v: Value, it: Items, path: Seq<PathSegV>)
    requires
        v matches Value::Mapping(entries) && {
            let m = entries@;
            &&& lookup(m, "type"@) matches Some(tv) && tv is Text
            &&& lookup(m, "format"@) is None
            &&& lookup(m, "items"@) is None
            &&& lookup(m, "collectionFormat"@) is None
            &&& lookup(m, "maximum"@) is None
            &&& lookup(m, "exclusiveMaximum"@) is None
            &&& lookup(m, "minimum"@) is None
            &&& lookup(m, "exclusiveMinimum"@) is None
            &&& lookup(m, "maxLength"@) is None
            &&& lookup(m, "minLength"@) is None
            &&& lookup(m, "pattern"@) is None
            &&& lookup(m, "maxItems"@) is None
            &&& lookup(m, "minItems"@) is None
            &&& lookup(m, "uniqueItems"@) is None
            &&& lookup(m, "multipleOf"@) is None
        },
    ensures
        items_err(v, path) is None,
        items_ok(v, it) ==> it.format is None && it.items is None && it.collection_format is None
            && it.maximum is None && it.exclusive_maximum is None && it.minimum is None
            && it.exclusive_minimum is None && it.max_length is None && it.min_length is None
            && it.pattern is None && it.max_items is None && it.min_items is None
            && it.unique_items is None && it.multiple_of is None,
{
}

/// A minimal `Header` mapping — only `type` — decodes, with every
/// constraint absent.
pub proof fn lemma_header_minimal(v: Value, h: Header, path: Seq<PathSegV>)
    requires
        v matches Value::Mapping(entries) && {
            let m = entries@;
            &&& lookup(m, "type"@) matches Some(tv) && tv is Text
            &&& lookup(m, "description"@) is None
            &&& lookup(m, "format"@) is None
            &&& lookup(m, "items"@) is None
            &&& lookup(m, "collectionFormat"@) is None
            &&& lookup(m, "maximum"@) is None
            &&& lookup(m, "exclusiveMaximum"@) is None
            &&& lookup(m, "minimum"@) is None
            &&& lookup(m, "exclusiveMinimum"@) is None
            &&& lookup(m, "maxLength"@) is None
            &&& lookup(m, "minLength"@) is None
            &&& lookup(m, "pattern"@) is None
            &&& lookup(m, "maxItems"@) is None
            &&& lookup(m, "minItems"@) is None
            &&& lookup(m, "uniqueItems"@) is None
            &&& lookup(m, "multipleOf"@) is None
        },
    ensures
        header_err(v, path) is None,
        header_ok(v, h) ==> h.description is None && h.format is None && h.items is None
            && h.collection_format is None && h.maximum is None && h.exclusive_maximum is None
            && h.minimum is None && h.exclusive_minimum is None && h.max_length is None
            && h.min_length is None && h.pattern is None && h.max_items is None && h.min_items
            is None && h.unique_items is None && h.multiple_of is None,
{
}

/// A minimal inline `Schema` mapping — only `type` — decodes, with every
/// optional field absent.
pub proof fn lemma_schema_minimal(v: Value, s: Schema, path: Seq<PathSegV>)
    requires
        v matches Value::Mapping(entries) && {
            let m = entries@;
            &&& lookup(m, "type"@) matches Some(tv) && tv is Text
            &&& lookup(m, "format"@) is None
            &&& lookup(m, "title"@) is None
            &&& lookup(m, "description"@) is None
            &&& lookup(m, "multipleOf"@) is None
            &&& lookup(m, "maximum"@) is None
            &&& lookup(m, "exclusiveMaximum"@) is None
            &&& lookup(m, "minimum"@) is None
            &&& lookup(m, "exclusiveMinimum"@) is None
            &&& lookup(m, "maxLength"@) is None
            &&& lookup(m, "minLength"@) is None
            &&& lookup(m, "pattern"@) is None
            &&& lookup(m, "maxItems"@) is None
            &&& lookup(m, "minItems"@) is None
            &&& lookup(m, "uniqueItems"@) is None
            &&& lookup(m, "maxProperties"@) is None
            &&& lookup(m, "minProperties"@) is None
            &&& lookup(m, "required"@) is None
            &&& lookup(m, "items"@) is None
            &&& lookup(m, "allOf"@) is None
            &&& lookup(m, "properties"@) is None
            &&& lookup(m, "discriminator"@) is None
            &&& lookup(m, "readOnly"@) is None
            &&& lookup(m, "externalDocs"@) is None
        },
    ensures
        schema_err(v, path) is None,
        schema_ok(v, s) ==> s.format is None && s.title is None && s.description is None
            && s.multiple_of is None && s.maximum is None && s.exclusive_maximum is None
            && s.minimum is None && s.exclusive_minimum is None && s.max_length is None
            && s.min_length is None && s.pattern is None && s.max_items is None && s.min_items
            is None && s.unique_items is None && s.max_properties is None && s.min_properties
            is None && s.required is None && s.items is None && s.all_of is None && s.properties
            is None && s.discriminator is None && s.read_only is None && s.external_docs is None,
{
}

/// A minimal non-body `Parameter` mapping — `name`, `in` (not `body`) and
/// `type` — decodes, with the optional fields absent.
pub proof fn lemma_parameter_minimal(v: Value, p: Parameter, path: Seq<PathSegV>)
    requires
        v matches Value::Mapping(entries) && {
            let m = entries@;
            &&& lookup(m, "name"@) matches Some(nv) && nv is Text
            &&& lookup(m, "in"@) matches Some(iv) && iv is Text
            &&& str_at(m, "in"@) != "body"@
            &&& lookup(m, "type"@) matches Some(tv) && tv is Text
            &&& lookup(m, "description"@) is None
            &&& lookup(m, "required"@) is None
            &&& lookup(m, "format"@) is None
        },
    ensures
        parameter_err(v, path) is None,
        parameter_ok(v, p) ==> p.description is None && p.required is None && p.format is None
            && p.schema is None,
{
}

/// A minimal `Response` mapping — only `description` — decodes, with the
/// optional fields absent.
pub proof fn lemma_response_minimal(v: Value, r: Response, path: Seq<PathSegV>)
    requires
        v matches Value::Mapping(entries) && {
            let m = entries@;
            &&& lookup(m, "description"@) matches Some(dv) && dv is Text
            &&& lookup(m, "schema"@) is None
            &&& lookup(m, "headers"@) is None
            &&& lookup(m, "examples"@) is None
        },
    ensures
        response_err(v, path) is None,
        response_ok(v, r) ==> r.schema is None && r.headers is None && r.examples is None,
{
}

/// A minimal `Operation` mapping — only an empty `responses` mapping —
/// decodes, with the optional fields absent and no responses.
pub proof fn lemma_operation_minimal(v: Value, o: Operation, path: Seq<PathSegV>)
    requires
        v matches Value::Mapping(entries) && {
            let m = entries@;
            &&& lookup(m, "tags"@) is None
            &&& lookup(m, "summary"@) is None
            &&& lookup(m, "description"@) is None
            &&& lookup(m, "externalDocs"@) is None
            &&& lookup(m, "operationId"@) is None
            &&& lookup(m, "consumes"@) is None
            &&& lookup(m, "produces"@) is None
            &&& lookup(m, "parameters"@) is None
            &&& lookup(m, "responses"@) matches Some(rv) && rv matches Value::Mapping(re) && re@
                =~= Seq::<(String, Value)>::empty()
        },
    ensures
        operation_err(v, path) is None,
        operation_ok(v, o) ==> o.tags is None && o.summary is None && o.description is None
            && o.external_docs is None && o.operation_id is None && o.consumes is None
            && o.produces is None && o.parameters is None && o.responses@.len() == 0,
{
}

/// A minimal `PathItem` mapping — it has no required fields — decodes,
/// with the reference and every operation absent.
pub proof fn lemma_path_item_minimal(v: Value, pi: PathItem, path: Seq<PathSegV>)
    requires
        v matches Value::Mapping(entries) && {
            let m = entries@;
            &&& lookup(m, "$ref"@) is None
            &&& lookup(m, "get"@) is None
            &&& lookup(m, "put"@) is None
            &&& lookup(m, "post"@) is None
            &&& lookup(m, "delete"@) is None
            &&& lookup(m, "options"@) is None
            &&& lookup(m, "head"@) is None
            &&& lookup(m, "patch"@) is None
        },
    ensures
        path_item_err(v, path) is None,
        path_item_ok(v, pi) ==> pi.ref_path is None && pi.get is None && pi.put is None && pi.post
            is None && pi.delete is None && pi.options is None && pi.head is None && pi.patch
            is None,
{
}

/// A minimal `Spec` mapping — only `swagger` and a decodable `info` —
/// decodes, with every optional field absent or empty.
pub proof fn lemma_spec_minimal(v: Value, s: Spec, path: Seq<PathSegV>)
    requires
        v matches Value::Mapping(entries) && {
            let m = entries@;
            &&& lookup(m, "swagger"@) matches Some(sv) && sv is Text
            &&& lookup(m, "info"@) matches Some(iv) && info_err(
                iv,
                path.push(PathSegV::Key("info"@)),
            ) is None
            &&& lookup(m, "host"@) is None
            &&& lookup(m, "basePath"@) is None
            &&& lookup(m, "schemes"@) is None
            &&& lookup(m, "consumes"@) is None
            &&& lookup(m, "produces"@) is None
            &&& lookup(m, "paths"@) is None
            &&& lookup(m, "definitions"@) is None
            &&& lookup(m, "parameters"@) is None
            &&& lookup(m, "responses"@) is None
            &&& lookup(m, "tags"@) is None
            &&& lookup(m, "externalDocs"@) is None
        },
    ensures
        root_err(v, path) is None,
        root_ok(v, s) ==> s.host is None && s.base_path is None && s.schemes is None && s.consumes
            is None && s.produces is None && s.paths@.len() == 0 && s.definitions@.len() == 0
            && s.parameters@.len() == 0 && s.responses@.len() == 0 && s.tags is None
            && s.external_docs is None,
{
}

} // verus!
