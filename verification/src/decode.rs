//! The document-model decoder: from a generic `Value` tree to the typed
//! model, field by field. Unknown keys are ignored; a missing required key
//! or a value of the wrong shape aborts the whole decode with the first
//! error met, exactly as the `..._err` spec functions state. Each entity's
//! `..._ok` spec function pins every decoded field to the value it came
//! from.

use vstd::prelude::*;
use crate::errors::{DecodeError, DecodeErrV, PathSeg, PathSegV, copy_path, path_with_key, path_with_index};
use crate::model::{Contact, ExternalDocs, Header, Info, Items, License, Operation, Parameter, ParameterOrRef, PathItem, Response, ResponseOrRef, Schema, SchemaOrRef, Spec, Tag};
use crate::value::{Value, get, kind_of, kind_name, lookup, str_at, opt_str_of, value_at, lemma_lookup_is_entry, str_eq};

verus! {

/// The first of two possible errors, in decode order.
pub open spec fn first_of(a: Option<DecodeErrV>, b: Option<DecodeErrV>) -> Option<DecodeErrV> {
    if a is Some {
        a
    } else {
        b
    }
}

/// The error of reading required string field `key`, if any: missing key,
/// or a non-string value.
pub open spec fn req_str_err(
    m: Seq<(String, Value)>,
    key: Seq<char>,
    entity: Seq<char>,
    path: Seq<PathSegV>,
) -> Option<DecodeErrV> {
    match lookup(m, key) {
        Option::None => Some(DecodeErrV::MissingField { entity, field: key }),
        Option::Some(v) => match v {
            Value::Text(_) => None,
            _ => Some(
                DecodeErrV::TypeMismatch {
                    path: path.push(PathSegV::Key(key)),
                    expected: "string"@,
                    found: kind_of(v),
                },
            ),
        },
    }
}

/// The error of reading optional string field `key`, if any: a present
/// value that is not a string.
pub open spec fn opt_str_err(
    m: Seq<(String, Value)>,
    key: Seq<char>,
    path: Seq<PathSegV>,
) -> Option<DecodeErrV> {
    match lookup(m, key) {
        Option::None => None,
        Option::Some(v) => match v {
            Value::Text(_) => None,
            _ => Some(
                DecodeErrV::TypeMismatch {
                    path: path.push(PathSegV::Key(key)),
                    expected: "string"@,
                    found: kind_of(v),
                },
            ),
        },
    }
}

/// A type-mismatch error at the node itself.
pub open spec fn node_mismatch(path: Seq<PathSegV>, expected: Seq<char>, v: Value) -> DecodeErrV {
    DecodeErrV::TypeMismatch { path, expected, found: kind_of(v) }
}

fn mismatch_here(path: &Vec<PathSeg>, expected: &str, v: &Value) -> (e: DecodeError)
    ensures
        e@ == node_mismatch(path.deep_view(), expected@, *v),
{
    DecodeError::TypeMismatch {
        path: copy_path(path),
        expected: String::from_str(expected),
        found: kind_name(v),
    }
}

fn mismatch_at_key(path: &Vec<PathSeg>, key: &str, expected: &str, v: &Value) -> (e: DecodeError)
    ensures
        e@ == node_mismatch(path.deep_view().push(PathSegV::Key(key@)), expected@, *v),
{
    DecodeError::TypeMismatch {
        path: path_with_key(path, key),
        expected: String::from_str(expected),
        found: kind_name(v),
    }
}

/// Reads required string field `key` of entity `entity`.
pub fn req_string(
    m: &Vec<(String, Value)>,
    key: &str,
    entity: &str,
    path: &Vec<PathSeg>,
) -> (r: Result<String, DecodeError>)
    ensures
        match r {
            Ok(s) => req_str_err(m@, key@, entity@, path.deep_view()) is None && s@ == str_at(
                m@,
                key@,
            ),
            Err(e) => req_str_err(m@, key@, entity@, path.deep_view()) == Some(e@),
        },
{
    match get(m, key) {
        Option::None => Err(
            DecodeError::MissingField {
                entity: String::from_str(entity),
                field: String::from_str(key),
            },
        ),
        Option::Some(v) => match v {
            Value::Text(t) => Ok(t.clone()),
            _ => Err(mismatch_at_key(path, key, "string", v)),
        },
    }
}

/// Reads optional string field `key`.
pub fn opt_string(m: &Vec<(String, Value)>, key: &str, path: &Vec<PathSeg>) -> (r: Result<
    Option<String>,
    DecodeError,
>)
    ensures
        match r {
            Ok(s) => opt_str_err(m@, key@, path.deep_view()) is None && s.deep_view() == opt_str_of(
                m@,
                key@,
            ),
            Err(e) => opt_str_err(m@, key@, path.deep_view()) == Some(e@),
        },
{
    match get(m, key) {
        Option::None => Ok(None),
        Option::Some(v) => match v {
            Value::Text(t) => Ok(Some(t.clone())),
            _ => Err(mismatch_at_key(path, key, "string", v)),
        },
    }
}

/// The first decode error of a `Contact` node, if any.
pub open spec fn contact_err(v: Value, path: Seq<PathSegV>) -> Option<DecodeErrV> {
    match v {
        Value::Mapping(entries) => {
            let m = entries@;
            first_of(
                opt_str_err(m, "name"@, path),
                first_of(opt_str_err(m, "url"@, path), opt_str_err(m, "email"@, path)),
            )
        },
        _ => Some(node_mismatch(path, "mapping"@, v)),
    }
}

/// The decoded `Contact`'s fields, pinned to the mapping's values.
pub open spec fn contact_ok(v: Value, c: Contact) -> bool {
    v matches Value::Mapping(entries) && {
        let m = entries@;
        &&& c.name.deep_view() == opt_str_of(m, "name"@)
        &&& c.url.deep_view() == opt_str_of(m, "url"@)
        &&& c.email.deep_view() == opt_str_of(m, "email"@)
    }
}

/// Decodes a `Contact` from a mapping.
pub fn decode_contact(v: &Value, path: &Vec<PathSeg>) -> (r: Result<Contact, DecodeError>)
    ensures
        match r {
            Ok(c) => contact_err(*v, path.deep_view()) is None && contact_ok(*v, c),
            Err(e) => contact_err(*v, path.deep_view()) == Some(e@),
        },
{
    let m = match v {
        Value::Mapping(entries) => entries,
        _ => {
            return Err(mismatch_here(path, "mapping", v));
        },
    };
    let name = opt_string(m, "name", path)?;
    let url = opt_string(m, "url", path)?;
    let email = opt_string(m, "email", path)?;
    Ok(Contact { name, url, email })
}

/// The first decode error of a `License` node, if any.
pub open spec fn license_err(v: Value, path: Seq<PathSegV>) -> Option<DecodeErrV> {
    match v {
        Value::Mapping(entries) => {
            let m = entries@;
            first_of(req_str_err(m, "name"@, "License"@, path), opt_str_err(m, "url"@, path))
        },
        _ => Some(node_mismatch(path, "mapping"@, v)),
    }
}

/// The decoded `License`'s fields, pinned to the mapping's values.
pub open spec fn license_ok(v: Value, l: License) -> bool {
    v matches Value::Mapping(entries) && {
        let m = entries@;
        &&& l.name@ == str_at(m, "name"@)
        &&& l.url.deep_view() == opt_str_of(m, "url"@)
    }
}

/// Decodes a `License` from a mapping; `name` is required.
pub fn decode_license(v: &Value, path: &Vec<PathSeg>) -> (r: Result<License, DecodeError>)
    ensures
        match r {
            Ok(l) => license_err(*v, path.deep_view()) is None && license_ok(*v, l),
            Err(e) => license_err(*v, path.deep_view()) == Some(e@),
        },
{
    let m = match v {
        Value::Mapping(entries) => entries,
        _ => {
            return Err(mismatch_here(path, "mapping", v));
        },
    };
    let name = req_string(m, "name", "License", path)?;
    let url = opt_string(m, "url", path)?;
    Ok(License { name, url })
}

/// The first decode error of an `ExternalDocs` node, if any.
pub open spec fn external_docs_err(v: Value, path: Seq<PathSegV>) -> Option<DecodeErrV> {
    match v {
        Value::Mapping(entries) => {
            let m = entries@;
            first_of(
                opt_str_err(m, "description"@, path),
                req_str_err(m, "url"@, "ExternalDocs"@, path),
            )
        },
        _ => Some(node_mismatch(path, "mapping"@, v)),
    }
}

/// The decoded `ExternalDocs`' fields, pinned to the mapping's values.
pub open spec fn external_docs_ok(v: Value, d: ExternalDocs) -> bool {
    v matches Value::Mapping(entries) && {
        let m = entries@;
        &&& d.description.deep_view() == opt_str_of(m, "description"@)
        &&& d.url@ == str_at(m, "url"@)
    }
}

/// Decodes an `ExternalDocs` from a mapping; `url` is required.
pub fn decode_external_docs(v: &Value, path: &Vec<PathSeg>) -> (r: Result<
    ExternalDocs,
    DecodeError,
>)
    ensures
        match r {
            Ok(d) => external_docs_err(*v, path.deep_view()) is None && external_docs_ok(*v, d),
            Err(e) => external_docs_err(*v, path.deep_view()) == Some(e@),
        },
{
    let m = match v {
        Value::Mapping(entries) => entries,
        _ => {
            return Err(mismatch_here(path, "mapping", v));
        },
    };
    let description = opt_string(m, "description", path)?;
    let url = req_string(m, "url", "ExternalDocs", path)?;
    Ok(ExternalDocs { description, url })
}

/// The error of an optional nested `ExternalDocs` field under the wire key
/// `externalDocs`, if any.
pub open spec fn opt_external_docs_err(
    m: Seq<(String, Value)>,
    path: Seq<PathSegV>,
) -> Option<DecodeErrV> {
    match lookup(m, "externalDocs"@) {
        Option::None => None,
        Option::Some(dv) => external_docs_err(dv, path.push(PathSegV::Key("externalDocs"@))),
    }
}

/// An optional nested `ExternalDocs` field, pinned: present exactly when
/// the key is, and then decoded from its value.
pub open spec fn opt_external_docs_ok(m: Seq<(String, Value)>, d: Option<ExternalDocs>) -> bool {
    match lookup(m, "externalDocs"@) {
        Option::None => d is None,
        Option::Some(dv) => d matches Some(di) && external_docs_ok(dv, di),
    }
}

fn decode_opt_external_docs(m: &Vec<(String, Value)>, path: &Vec<PathSeg>) -> (r: Result<
    Option<ExternalDocs>,
    DecodeError,
>)
    ensures
        match r {
            Ok(d) => opt_external_docs_err(m@, path.deep_view()) is None && opt_external_docs_ok(
                m@,
                d,
            ),
            Err(e) => opt_external_docs_err(m@, path.deep_view()) == Some(e@),
        },
{
    match get(m, "externalDocs") {
        Option::None => Ok(None),
        Option::Some(dv) => Ok(
            Some(decode_external_docs(dv, &path_with_key(path, "externalDocs"))?),
        ),
    }
}

/// The first decode error of a `Tag` node, if any.
pub open spec fn tag_err(v: Value, path: Seq<PathSegV>) -> Option<DecodeErrV> {
    match v {
        Value::Mapping(entries) => {
            let m = entries@;
            first_of(
                req_str_err(m, "name"@, "Tag"@, path),
                first_of(opt_str_err(m, "description"@, path), opt_external_docs_err(m, path)),
            )
        },
        _ => Some(node_mismatch(path, "mapping"@, v)),
    }
}

/// The decoded `Tag`'s fields, pinned to the mapping's values.
pub open spec fn tag_ok(v: Value, t: Tag) -> bool {
    v matches Value::Mapping(entries) && {
        let m = entries@;
        &&& t.name@ == str_at(m, "name"@)
        &&& t.description.deep_view() == opt_str_of(m, "description"@)
        &&& opt_external_docs_ok(m, t.external_docs)
    }
}

/// Decodes a `Tag` from a mapping; `name` is required.
pub fn decode_tag(v: &Value, path: &Vec<PathSeg>) -> (r: Result<Tag, DecodeError>)
    ensures
        match r {
            Ok(t) => tag_err(*v, path.deep_view()) is None && tag_ok(*v, t),
            Err(e) => tag_err(*v, path.deep_view()) == Some(e@),
        },
{
    let m = match v {
        Value::Mapping(entries) => entries,
        _ => {
            return Err(mismatch_here(path, "mapping", v));
        },
    };
    let name = req_string(m, "name", "Tag", path)?;
    let description = opt_string(m, "description", path)?;
    let external_docs = decode_opt_external_docs(m, path)?;
    Ok(Tag { name, description, external_docs })
}

/// The first decode error of an `Info` node, if any, in field order:
/// `title`, `description`, `termsOfService`, `contact`, `license`,
/// `version`.
pub open spec fn info_err(v: Value, path: Seq<PathSegV>) -> Option<DecodeErrV> {
    match v {
        Value::Mapping(entries) => {
            let m = entries@;
            first_of(
                req_str_err(m, "title"@, "Info"@, path),
                first_of(
                    opt_str_err(m, "description"@, path),
                    first_of(
                        opt_str_err(m, "termsOfService"@, path),
                        first_of(
                            match lookup(m, "contact"@) {
                                Option::None => None,
                                Option::Some(cv) => contact_err(
                                    cv,
                                    path.push(PathSegV::Key("contact"@)),
                                ),
                            },
                            first_of(
                                match lookup(m, "license"@) {
                                    Option::None => None,
                                    Option::Some(lv) => license_err(
                                        lv,
                                        path.push(PathSegV::Key("license"@)),
                                    ),
                                },
                                req_str_err(m, "version"@, "Info"@, path),
                            ),
                        ),
                    ),
                ),
            )
        },
        _ => Some(node_mismatch(path, "mapping"@, v)),
    }
}

/// The decoded `Info`'s fields, pinned to the mapping's values. The wire
/// key `termsOfService` fills the `terms_of_service` field.
pub open spec fn info_ok(v: Value, i: Info) -> bool {
    v matches Value::Mapping(entries) && {
        let m = entries@;
        &&& i.title@ == str_at(m, "title"@)
        &&& i.description.deep_view() == opt_str_of(m, "description"@)
        &&& i.terms_of_service.deep_view() == opt_str_of(m, "termsOfService"@)
        &&& (match lookup(m, "contact"@) {
            Option::None => i.contact is None,
            Option::Some(cv) => i.contact matches Some(c) && contact_ok(cv, c),
        })
        &&& (match lookup(m, "license"@) {
            Option::None => i.license is None,
            Option::Some(lv) => i.license matches Some(l) && license_ok(lv, l),
        })
        &&& i.version@ == str_at(m, "version"@)
    }
}

/// Decodes an `Info` from a mapping; `title` and `version` are required.
pub fn decode_info(v: &Value, path: &Vec<PathSeg>) -> (r: Result<Info, DecodeError>)
    ensures
        match r {
            Ok(i) => info_err(*v, path.deep_view()) is None && info_ok(*v, i),
            Err(e) => info_err(*v, path.deep_view()) == Some(e@),
        },
{
    let m = match v {
        Value::Mapping(entries) => entries,
        _ => {
            return Err(mismatch_here(path, "mapping", v));
        },
    };
    let title = req_string(m, "title", "Info", path)?;
    let description = opt_string(m, "description", path)?;
    let terms_of_service = opt_string(m, "termsOfService", path)?;
    let contact = match get(m, "contact") {
        Option::None => None,
        Option::Some(cv) => Some(decode_contact(cv, &path_with_key(path, "contact"))?),
    };
    let license = match get(m, "license") {
        Option::None => None,
        Option::Some(lv) => Some(decode_license(lv, &path_with_key(path, "license"))?),
    };
    let version = req_string(m, "version", "Info", path)?;
    Ok(Info { title, description, terms_of_service, contact, license, version })
}

/// Whether an input integer fits the model's 32-bit constraint fields.
pub open spec fn in_i32_range(i: i64) -> bool {
    i32::MIN <= i && i <= i32::MAX
}

/// The error of reading optional boolean field `key`, if any.
pub open spec fn opt_bool_err(
    m: Seq<(String, Value)>,
    key: Seq<char>,
    path: Seq<PathSegV>,
) -> Option<DecodeErrV> {
    match lookup(m, key) {
        Option::None => None,
        Option::Some(v) => match v {
            Value::Bool(_) => None,
            _ => Some(node_mismatch(path.push(PathSegV::Key(key)), "boolean"@, v)),
        },
    }
}

/// The boolean at `key`, or `None` where absent or not a boolean.
pub open spec fn opt_bool_of(m: Seq<(String, Value)>, key: Seq<char>) -> Option<bool> {
    match lookup(m, key) {
        Some(Value::Bool(b)) => Some(b),
        _ => None,
    }
}

/// Reads optional boolean field `key`.
pub fn opt_bool(m: &Vec<(String, Value)>, key: &str, path: &Vec<PathSeg>) -> (r: Result<
    Option<bool>,
    DecodeError,
>)
    ensures
        match r {
            Ok(b) => opt_bool_err(m@, key@, path.deep_view()) is None && b == opt_bool_of(m@, key@),
            Err(e) => opt_bool_err(m@, key@, path.deep_view()) == Some(e@),
        },
{
    match get(m, key) {
        Option::None => Ok(None),
        Option::Some(v) => match v {
            Value::Bool(b) => Ok(Some(*b)),
            _ => Err(mismatch_at_key(path, key, "boolean", v)),
        },
    }
}

/// The error of reading optional 32-bit integer field `key`, if any: a
/// non-integer value, or an integer outside the 32-bit range.
pub open spec fn opt_i32_err(
    m: Seq<(String, Value)>,
    key: Seq<char>,
    path: Seq<PathSegV>,
) -> Option<DecodeErrV> {
    match lookup(m, key) {
        Option::None => None,
        Option::Some(v) => match v {
            Value::Int(i) => if in_i32_range(i) {
                None
            } else {
                Some(
                    DecodeErrV::TypeMismatch {
                        path: path.push(PathSegV::Key(key)),
                        expected: "integer"@,
                        found: "integer out of range"@,
                    },
                )
            },
            _ => Some(node_mismatch(path.push(PathSegV::Key(key)), "integer"@, v)),
        },
    }
}

/// The 32-bit integer at `key`, or `None` where absent, not an integer, or
/// out of range.
pub open spec fn opt_i32_of(m: Seq<(String, Value)>, key: Seq<char>) -> Option<i32> {
    match lookup(m, key) {
        Some(Value::Int(i)) => if in_i32_range(i) {
            Some(i as i32)
        } else {
            None
        },
        _ => None,
    }
}

/// Reads optional 32-bit integer field `key`.
pub fn opt_i32(m: &Vec<(String, Value)>, key: &str, path: &Vec<PathSeg>) -> (r: Result<
    Option<i32>,
    DecodeError,
>)
    ensures
        match r {
            Ok(n) => opt_i32_err(m@, key@, path.deep_view()) is None && n == opt_i32_of(m@, key@),
            Err(e) => opt_i32_err(m@, key@, path.deep_view()) == Some(e@),
        },
{
    match get(m, key) {
        Option::None => Ok(None),
        Option::Some(v) => match v {
            Value::Int(i) => {
                if *i >= i32::MIN as i64 && *i <= i32::MAX as i64 {
                    Ok(Some(*i as i32))
                } else {
                    Err(
                        DecodeError::TypeMismatch {
                            path: path_with_key(path, key),
                            expected: String::from_str("integer"),
                            found: String::from_str("integer out of range"),
                        },
                    )
                }
            },
            _ => Err(mismatch_at_key(path, key, "integer", v)),
        },
    }
}

/// The characters of a string value; empty for any other shape.
pub open spec fn text_of(v: Value) -> Seq<char> {
    match v {
        Value::Text(t) => t@,
        _ => Seq::empty(),
    }
}

/// The characters of each element of a sequence of strings.
pub open spec fn texts_of(items: Seq<Value>) -> Seq<Seq<char>> {
    items.map_values(|v: Value| text_of(v))
}

/// The first non-string element of a sequence expected to hold strings,
/// as an error naming its index (counted from `base`), if any.
pub open spec fn str_items_err(
    items: Seq<Value>,
    base: int,
    pathk: Seq<PathSegV>,
) -> Option<DecodeErrV>
    decreases items.len(),
{
    if items.len() == 0 {
        None
    } else {
        match items[0] {
            Value::Text(_) => str_items_err(items.subrange(1, items.len() as int), base + 1, pathk),
            v => Some(
                DecodeErrV::TypeMismatch {
                    path: pathk.push(PathSegV::Index(base)),
                    expected: "string"@,
                    found: kind_of(v),
                },
            ),
        }
    }
}

proof fn lemma_str_items_skip(items: Seq<Value>, base: int, pathk: Seq<PathSegV>, i: int)
    requires
        0 <= i <= items.len(),
        forall|j: int| 0 <= j < i ==> items[j] is Text,
    ensures
        str_items_err(items, base, pathk) == str_items_err(
            items.subrange(i, items.len() as int),
            base + i,
            pathk,
        ),
    decreases i,
{
    if i > 0 {
        lemma_str_items_skip(items.subrange(1, items.len() as int), base + 1, pathk, i - 1);
        assert(items.subrange(1, items.len() as int).subrange(
            i - 1,
            items.len() as int - 1,
        ) =~= items.subrange(i, items.len() as int));
    } else {
        assert(items.subrange(0, items.len() as int) =~= items);
    }
}

/// The error of reading optional string-sequence field `key`, if any.
pub open spec fn opt_str_list_err(
    m: Seq<(String, Value)>,
    key: Seq<char>,
    path: Seq<PathSegV>,
) -> Option<DecodeErrV> {
    match lookup(m, key) {
        Option::None => None,
        Option::Some(v) => match v {
            Value::List(items) => str_items_err(items@, 0, path.push(PathSegV::Key(key))),
            _ => Some(node_mismatch(path.push(PathSegV::Key(key)), "sequence"@, v)),
        },
    }
}

/// The strings of the sequence at `key`, or `None` where the key is absent
/// or its value is not a sequence.
pub open spec fn opt_str_list_of(m: Seq<(String, Value)>, key: Seq<char>) -> Option<
    Seq<Seq<char>>,
> {
    match lookup(m, key) {
        Some(Value::List(items)) => Some(texts_of(items@)),
        _ => None,
    }
}

/// Reads optional field `key` as a sequence of strings.
pub fn opt_string_list(m: &Vec<(String, Value)>, key: &str, path: &Vec<PathSeg>) -> (r: Result<
    Option<Vec<String>>,
    DecodeError,
>)
    ensures
        match r {
            Ok(s) => opt_str_list_err(m@, key@, path.deep_view()) is None && s.deep_view()
                == opt_str_list_of(m@, key@),
            Err(e) => opt_str_list_err(m@, key@, path.deep_view()) == Some(e@),
        },
{
    match get(m, key) {
        Option::None => Ok(None),
        Option::Some(v) => match v {
            Value::List(items) => match decode_text_items(items, path, key) {
                Ok(out) => Ok(Some(out)),
                Err(e) => Err(e),
            },
            _ => Err(mismatch_at_key(path, key, "sequence", v)),
        },
    }
}

/// Decodes each element of a sequence expected to hold strings; fails at
/// the first element of another shape.
fn decode_text_items(items: &Vec<Value>, path: &Vec<PathSeg>, key: &str) -> (r: Result<
    Vec<String>,
    DecodeError,
>)
    ensures
        match r {
            Ok(out) => str_items_err(items@, 0, path.deep_view().push(PathSegV::Key(key@)))
                is None && out.deep_view() == texts_of(items@),
            Err(e) => str_items_err(items@, 0, path.deep_view().push(PathSegV::Key(key@))) == Some(
                e@,
            ),
        },
{
    let ghost pathk = path.deep_view().push(PathSegV::Key(key@));
    let mut out: Vec<String> = Vec::new();
    let mut i: usize = 0;
    while i < items.len()
        invariant
            i <= items@.len(),
            out@.len() == i,
            pathk == path.deep_view().push(PathSegV::Key(key@)),
            forall|j: int| 0 <= j < i ==> items@[j] is Text,
            forall|j: int| 0 <= j < i ==> out@[j]@ == text_of(items@[j]),
        decreases items@.len() - i,
    {
        match &items[i] {
            Value::Text(t) => {
                out.push(t.clone());
            },
            other => {
                proof {
                    lemma_str_items_skip(items@, 0, pathk, i as int);
                    assert(items@.subrange(i as int, items@.len() as int)[0] == items@[i as int]);
                }
                let mut epath = path_with_key(path, key);
                epath.push(PathSeg::Index(i));
                proof {
                    assert(epath.deep_view() =~= pathk.push(PathSegV::Index(i as int)));
                }
                return Err(
                    DecodeError::TypeMismatch {
                        path: epath,
                        expected: String::from_str("string"),
                        found: kind_name(other),
                    },
                );
            },
        }
        i += 1;
    }
    proof {
        lemma_str_items_skip(items@, 0, pathk, items@.len() as int);
        assert(out.deep_view() =~= texts_of(items@));
    }
    Ok(out)
}

/// A value looked up in a mapping is structurally below the mapping, so a
/// decoder may recurse into it.
pub proof fn lemma_lookup_decreases(v: Value, key: Seq<char>)
    requires
        v is Mapping,
        lookup(v->Mapping_0@, key) is Some,
    ensures
        decreases_to!(v => lookup(v->Mapping_0@, key)->Some_0),
{
    let entries = v->Mapping_0;
    let i = lemma_lookup_is_entry(entries@, key);
    assert(decreases_to!(v => entries));
    assert(decreases_to!(entries => entries@[i]));
    assert(decreases_to!(entries@[i] => entries@[i].1));
}

/// The first decode error of an `Items` node, if any, in field order.
pub open spec fn items_err(v: Value, path: Seq<PathSegV>) -> Option<DecodeErrV>
    decreases v,
    via items_err_dec
{
    match v {
        Value::Mapping(entries) => {
            let m = entries@;
            first_of(req_str_err(m, "type"@, "Items"@, path),
            first_of(opt_str_err(m, "format"@, path),
            first_of(match lookup(m, "items"@) {
                Option::None => None,
                Option::Some(iv) => items_err(iv, path.push(PathSegV::Key("items"@))),
            },
            first_of(opt_str_err(m, "collectionFormat"@, path),
            first_of(opt_i32_err(m, "maximum"@, path),
            first_of(opt_bool_err(m, "exclusiveMaximum"@, path),
            first_of(opt_i32_err(m, "minimum"@, path),
            first_of(opt_bool_err(m, "exclusiveMinimum"@, path),
            first_of(opt_i32_err(m, "maxLength"@, path),
            first_of(opt_i32_err(m, "minLength"@, path),
            first_of(opt_str_err(m, "pattern"@, path),
            first_of(opt_i32_err(m, "maxItems"@, path),
            first_of(opt_i32_err(m, "minItems"@, path),
            first_of(opt_bool_err(m, "uniqueItems"@, path),
                opt_i32_err(m, "multipleOf"@, path)))))))))))))))
        },
        _ => Some(node_mismatch(path, "mapping"@, v)),
    }
}

#[via_fn]
proof fn items_err_dec(v: Value, path: Seq<PathSegV>) {
    if let Value::Mapping(entries) = v {
        if lookup(entries@, "items"@) is Some {
            lemma_lookup_decreases(v, "items"@);
        }
    }
}

/// The decoded `Items`' fields, pinned to the mapping's values; the nested
/// `items` descriptor is decoded recursively.
pub open spec fn items_ok(v: Value, it: Items) -> bool
    decreases v,
    via items_ok_dec
{
    match v {
        Value::Mapping(entries) => {
            let m = entries@;
            &&& it.item_type@ == str_at(m, "type"@)
            &&& it.format.deep_view() == opt_str_of(m, "format"@)
            &&& (match lookup(m, "items"@) {
                Option::None => it.items is None,
                Option::Some(iv) => it.items matches Some(b) && items_ok(iv, *b),
            })
            &&& it.collection_format.deep_view() == opt_str_of(m, "collectionFormat"@)
            &&& it.maximum == opt_i32_of(m, "maximum"@)
            &&& it.exclusive_maximum == opt_bool_of(m, "exclusiveMaximum"@)
            &&& it.minimum == opt_i32_of(m, "minimum"@)
            &&& it.exclusive_minimum == opt_bool_of(m, "exclusiveMinimum"@)
            &&& it.max_length == opt_i32_of(m, "maxLength"@)
            &&& it.min_length == opt_i32_of(m, "minLength"@)
            &&& it.pattern.deep_view() == opt_str_of(m, "pattern"@)
            &&& it.max_items == opt_i32_of(m, "maxItems"@)
            &&& it.min_items == opt_i32_of(m, "minItems"@)
            &&& it.unique_items == opt_bool_of(m, "uniqueItems"@)
            &&& it.multiple_of == opt_i32_of(m, "multipleOf"@)
        },
        _ => false,
    }
}

#[via_fn]
proof fn items_ok_dec(v: Value, it: Items) {
    if let Value::Mapping(entries) = v {
        if lookup(entries@, "items"@) is Some {
            lemma_lookup_decreases(v, "items"@);
        }
    }
}

/// Decodes an `Items` from a mapping; `type` is required and nested
/// `items` descriptors decode recursively to any depth.
pub fn decode_items(v: &Value, path: &Vec<PathSeg>) -> (r: Result<Items, DecodeError>)
    ensures
        match r {
            Ok(it) => items_err(*v, path.deep_view()) is None && items_ok(*v, it),
            Err(e) => items_err(*v, path.deep_view()) == Some(e@),
        },
    decreases *v,
{
    match v {
        Value::Mapping(m) => {
            let item_type = req_string(m, "type", "Items", path)?;
            let format = opt_string(m, "format", path)?;
            let items = match get(m, "items") {
                Option::None => None,
                Option::Some(iv) => {
                    proof {
                        lemma_lookup_decreases(*v, "items"@);
                    }
                    Some(Box::new(decode_items(iv, &path_with_key(path, "items"))?))
                },
            };
            let collection_format = opt_string(m, "collectionFormat", path)?;
            let maximum = opt_i32(m, "maximum", path)?;
            let exclusive_maximum = opt_bool(m, "exclusiveMaximum", path)?;
            let minimum = opt_i32(m, "minimum", path)?;
            let exclusive_minimum = opt_bool(m, "exclusiveMinimum", path)?;
            let max_length = opt_i32(m, "maxLength", path)?;
            let min_length = opt_i32(m, "minLength", path)?;
            let pattern = opt_string(m, "pattern", path)?;
            let max_items = opt_i32(m, "maxItems", path)?;
            let min_items = opt_i32(m, "minItems", path)?;
            let unique_items = opt_bool(m, "uniqueItems", path)?;
            let multiple_of = opt_i32(m, "multipleOf", path)?;
            Ok(
                Items {
                    item_type,
                    format,
                    items,
                    collection_format,
                    maximum,
                    exclusive_maximum,
                    minimum,
                    exclusive_minimum,
                    max_length,
                    min_length,
                    pattern,
                    max_items,
                    min_items,
                    unique_items,
                    multiple_of,
                },
            )
        },
        _ => Err(mismatch_here(path, "mapping", v)),
    }
}

/// The first decode error of a `Header` node, if any, in field order.
pub open spec fn header_err(v: Value, path: Seq<PathSegV>) -> Option<DecodeErrV> {
    match v {
        Value::Mapping(entries) => {
            let m = entries@;
            first_of(opt_str_err(m, "description"@, path),
            first_of(req_str_err(m, "type"@, "Header"@, path),
            first_of(opt_str_err(m, "format"@, path),
            first_of(match lookup(m, "items"@) {
                Option::None => None,
                Option::Some(iv) => items_err(iv, path.push(PathSegV::Key("items"@))),
            },
            first_of(opt_str_err(m, "collectionFormat"@, path),
            first_of(opt_i32_err(m, "maximum"@, path),
            first_of(opt_bool_err(m, "exclusiveMaximum"@, path),
            first_of(opt_i32_err(m, "minimum"@, path),
            first_of(opt_bool_err(m, "exclusiveMinimum"@, path),
            first_of(opt_i32_err(m, "maxLength"@, path),
            first_of(opt_i32_err(m, "minLength"@, path),
            first_of(opt_str_err(m, "pattern"@, path),
            first_of(opt_i32_err(m, "maxItems"@, path),
            first_of(opt_i32_err(m, "minItems"@, path),
            first_of(opt_bool_err(m, "uniqueItems"@, path),
                opt_i32_err(m, "multipleOf"@, path))))))))))))))))
        },
        _ => Some(node_mismatch(path, "mapping"@, v)),
    }
}

/// The decoded `Header`'s fields, pinned to the mapping's values.
pub open spec fn header_ok(v: Value, h: Header) -> bool {
    match v {
        Value::Mapping(entries) => {
            let m = entries@;
            &&& h.description.deep_view() == opt_str_of(m, "description"@)
            &&& h.header_type@ == str_at(m, "type"@)
            &&& h.format.deep_view() == opt_str_of(m, "format"@)
            &&& (match lookup(m, "items"@) {
                Option::None => h.items is None,
                Option::Some(iv) => h.items matches Some(it) && items_ok(iv, it),
            })
            &&& h.collection_format.deep_view() == opt_str_of(m, "collectionFormat"@)
            &&& h.maximum == opt_i32_of(m, "maximum"@)
            &&& h.exclusive_maximum == opt_bool_of(m, "exclusiveMaximum"@)
            &&& h.minimum == opt_i32_of(m, "minimum"@)
            &&& h.exclusive_minimum == opt_bool_of(m, "exclusiveMinimum"@)
            &&& h.max_length == opt_i32_of(m, "maxLength"@)
            &&& h.min_length == opt_i32_of(m, "minLength"@)
            &&& h.pattern.deep_view() == opt_str_of(m, "pattern"@)
            &&& h.max_items == opt_i32_of(m, "maxItems"@)
            &&& h.min_items == opt_i32_of(m, "minItems"@)
            &&& h.unique_items == opt_bool_of(m, "uniqueItems"@)
            &&& h.multiple_of == opt_i32_of(m, "multipleOf"@)
        },
        _ => false,
    }
}

/// Decodes a `Header` from a mapping; `type` is required.
pub fn decode_header(v: &Value, path: &Vec<PathSeg>) -> (r: Result<Header, DecodeError>)
    ensures
        match r {
            Ok(h) => header_err(*v, path.deep_view()) is None && header_ok(*v, h),
            Err(e) => header_err(*v, path.deep_view()) == Some(e@),
        },
{
    match v {
        Value::Mapping(m) => {
            let description = opt_string(m, "description", path)?;
            let header_type = req_string(m, "type", "Header", path)?;
            let format = opt_string(m, "format", path)?;
            let items = match get(m, "items") {
                Option::None => None,
                Option::Some(iv) => Some(decode_items(iv, &path_with_key(path, "items"))?),
            };
            let collection_format = opt_string(m, "collectionFormat", path)?;
            let maximum = opt_i32(m, "maximum", path)?;
            let exclusive_maximum = opt_bool(m, "exclusiveMaximum", path)?;
            let minimum = opt_i32(m, "minimum", path)?;
            let exclusive_minimum = opt_bool(m, "exclusiveMinimum", path)?;
            let max_length = opt_i32(m, "maxLength", path)?;
            let min_length = opt_i32(m, "minLength", path)?;
            let pattern = opt_string(m, "pattern", path)?;
            let max_items = opt_i32(m, "maxItems", path)?;
            let min_items = opt_i32(m, "minItems", path)?;
            let unique_items = opt_bool(m, "uniqueItems", path)?;
            let multiple_of = opt_i32(m, "multipleOf", path)?;
            Ok(
                Header {
                    description,
                    header_type,
                    format,
                    items,
                    collection_format,
                    maximum,
                    exclusive_maximum,
                    minimum,
                    exclusive_minimum,
                    max_length,
                    min_length,
                    pattern,
                    max_items,
                    min_items,
                    unique_items,
                    multiple_of,
                },
            )
        },
        _ => Err(mismatch_here(path, "mapping", v)),
    }
}

/// The first decode error of a schema-or-reference node, if any. A mapping
/// holding a `$ref` key decodes that key alone — its siblings are ignored —
/// and anything else decodes as an inline schema.
pub open spec fn schema_or_ref_err(v: Value, path: Seq<PathSegV>) -> Option<DecodeErrV>
    decreases v, 3int,
{
    match v {
        Value::Mapping(entries) => {
            let m = entries@;
            match lookup(m, "$ref"@) {
                Option::Some(_) => req_str_err(m, "$ref"@, "Schema"@, path),
                Option::None => schema_err(v, path),
            }
        },
        _ => Some(node_mismatch(path, "mapping"@, v)),
    }
}

/// The decoded schema-or-reference, pinned: the `Reference` variant holding
/// the `$ref` string when that key is present, the `Inline` variant
/// otherwise.
pub open spec fn schema_or_ref_ok(v: Value, sor: SchemaOrRef) -> bool
    decreases v, 3int,
{
    match v {
        Value::Mapping(entries) => {
            let m = entries@;
            match lookup(m, "$ref"@) {
                Option::Some(_) => sor matches SchemaOrRef::Reference(p) && p@ == str_at(
                    m,
                    "$ref"@,
                ),
                Option::None => sor matches SchemaOrRef::Inline(b) && schema_ok(v, *b),
            }
        },
        _ => false,
    }
}

/// The first decode error among the elements of an `allOf` sequence, from
/// element `i` on, if any.
pub open spec fn sor_list_err(elems: Vec<Value>, i: int, pathk: Seq<PathSegV>) -> Option<
    DecodeErrV,
>
    decreases elems, elems@.len() - i,
    via sor_list_err_dec
{
    if i < 0 || i >= elems@.len() {
        None
    } else {
        match schema_or_ref_err(elems@[i], pathk.push(PathSegV::Index(i))) {
            Option::Some(e) => Some(e),
            Option::None => sor_list_err(elems, i + 1, pathk),
        }
    }
}

#[via_fn]
proof fn sor_list_err_dec(elems: Vec<Value>, i: int, pathk: Seq<PathSegV>) {
    if 0 <= i < elems@.len() {
        assert(decreases_to!(elems => elems@[i]));
    }
}

/// Each element of an `allOf` sequence, decoded.
pub open spec fn sor_list_ok(elems: Vec<Value>, out: Seq<SchemaOrRef>) -> bool
    decreases elems, 0int,
    via sor_list_ok_dec
{
    out.len() == elems@.len() && (forall|j: int|
        0 <= j < out.len() ==> schema_or_ref_ok(#[trigger] elems@[j], out[j]))
}

#[via_fn]
proof fn sor_list_ok_dec(elems: Vec<Value>, out: Seq<SchemaOrRef>) {
    assert forall|j: int| 0 <= j < elems@.len() implies decreases_to!(elems => elems@[j]) by {
        vstd::std_specs::vec::axiom_vec_index_decreases(elems, j);
    }
}

/// The first decode error among the values of a `properties` mapping, from
/// entry `i` on, if any.
pub open spec fn sor_map_err(props: Vec<(String, Value)>, i: int, pathk: Seq<PathSegV>) -> Option<
    DecodeErrV,
>
    decreases props, props@.len() - i,
    via sor_map_err_dec
{
    if i < 0 || i >= props@.len() {
        None
    } else {
        match schema_or_ref_err(props@[i].1, pathk.push(PathSegV::Key(props@[i].0@))) {
            Option::Some(e) => Some(e),
            Option::None => sor_map_err(props, i + 1, pathk),
        }
    }
}

#[via_fn]
proof fn sor_map_err_dec(props: Vec<(String, Value)>, i: int, pathk: Seq<PathSegV>) {
    if 0 <= i < props@.len() {
        assert(decreases_to!(props => props@[i]));
        assert(decreases_to!(props@[i] => props@[i].1));
    }
}

/// Each entry of a `properties` mapping, decoded, keys kept in order.
pub open spec fn sor_map_ok(props: Vec<(String, Value)>, out: Seq<(String, SchemaOrRef)>) -> bool
    decreases props, 0int,
    via sor_map_ok_dec
{
    out.len() == props@.len() && (forall|j: int|
        0 <= j < out.len() ==> (#[trigger] out[j]).0@ == props@[j].0@ && schema_or_ref_ok(
            props@[j].1,
            out[j].1,
        ))
}

#[via_fn]
proof fn sor_map_ok_dec(props: Vec<(String, Value)>, out: Seq<(String, SchemaOrRef)>) {
    assert forall|j: int| 0 <= j < props@.len() implies decreases_to!(props => props@[j].1) by {
        vstd::std_specs::vec::axiom_vec_index_decreases(props, j);
        assert(decreases_to!(props@[j] => props@[j].1));
    }
}

/// The first decode error of an inline `Schema` node, if any, in field
/// order; `items`, `allOf` and `properties` are decoded recursively.
pub open spec fn schema_err(v: Value, path: Seq<PathSegV>) -> Option<DecodeErrV>
    decreases v, 2int,
    via schema_err_dec
{
    match v {
        Value::Mapping(entries) => {
            let m = entries@;
            first_of(req_str_err(m, "type"@, "Schema"@, path),
            first_of(opt_str_err(m, "format"@, path),
            first_of(opt_str_err(m, "title"@, path),
            first_of(opt_str_err(m, "description"@, path),
            first_of(opt_i32_err(m, "multipleOf"@, path),
            first_of(opt_i32_err(m, "maximum"@, path),
            first_of(opt_bool_err(m, "exclusiveMaximum"@, path),
            first_of(opt_i32_err(m, "minimum"@, path),
            first_of(opt_bool_err(m, "exclusiveMinimum"@, path),
            first_of(opt_i32_err(m, "maxLength"@, path),
            first_of(opt_i32_err(m, "minLength"@, path),
            first_of(opt_str_err(m, "pattern"@, path),
            first_of(opt_i32_err(m, "maxItems"@, path),
            first_of(opt_i32_err(m, "minItems"@, path),
            first_of(opt_bool_err(m, "uniqueItems"@, path),
            first_of(opt_i32_err(m, "maxProperties"@, path),
            first_of(opt_i32_err(m, "minProperties"@, path),
            first_of(opt_bool_err(m, "required"@, path),
            first_of(
                match lookup(m, "items"@) {
                    Option::None => None,
                    Option::Some(iv) => schema_or_ref_err(iv, path.push(PathSegV::Key("items"@))),
                },
            first_of(
                match lookup(m, "allOf"@) {
                    Option::None => None,
                    Option::Some(av) => match av {
                        Value::List(elems) => sor_list_err(
                            elems,
                            0,
                            path.push(PathSegV::Key("allOf"@)),
                        ),
                        _ => Some(node_mismatch(path.push(PathSegV::Key("allOf"@)), "sequence"@, av)),
                    },
                },
            first_of(
                match lookup(m, "properties"@) {
                    Option::None => None,
                    Option::Some(pv) => match pv {
                        Value::Mapping(props) => sor_map_err(
                            props,
                            0,
                            path.push(PathSegV::Key("properties"@)),
                        ),
                        _ => Some(node_mismatch(path.push(PathSegV::Key("properties"@)), "mapping"@, pv)),
                    },
                },
            first_of(opt_str_err(m, "discriminator"@, path),
            first_of(opt_bool_err(m, "readOnly"@, path),
                opt_external_docs_err(m, path))))))))))))))))))))))))
        },
        _ => Some(node_mismatch(path, "mapping"@, v)),
    }
}

#[via_fn]
proof fn schema_err_dec(v: Value, path: Seq<PathSegV>) {
    schema_sub_decreases(v);
}

/// The nested positions of a schema mapping — the `items` value, the
/// `allOf` elements' vector, the `properties` entries' vector — all stand
/// structurally below the mapping.
proof fn schema_sub_decreases(v: Value)
    ensures
        v is Mapping && lookup(v->Mapping_0@, "items"@) is Some ==> decreases_to!(
            v => lookup(v->Mapping_0@, "items"@)->Some_0),
        v is Mapping && lookup(v->Mapping_0@, "allOf"@) is Some && lookup(
            v->Mapping_0@,
            "allOf"@,
        )->Some_0 is List ==> decreases_to!(
            v => lookup(v->Mapping_0@, "allOf"@)->Some_0->List_0),
        v is Mapping && lookup(v->Mapping_0@, "properties"@) is Some && lookup(
            v->Mapping_0@,
            "properties"@,
        )->Some_0 is Mapping ==> decreases_to!(
            v => lookup(v->Mapping_0@, "properties"@)->Some_0->Mapping_0),
{
    if v is Mapping {
        let m = v->Mapping_0@;
        if lookup(m, "items"@) is Some {
            lemma_lookup_decreases(v, "items"@);
        }
        if lookup(m, "allOf"@) is Some {
            lemma_lookup_decreases(v, "allOf"@);
            let av = lookup(m, "allOf"@)->Some_0;
            if av is List {
                assert(decreases_to!(av => av->List_0));
            }
        }
        if lookup(m, "properties"@) is Some {
            lemma_lookup_decreases(v, "properties"@);
            let pv = lookup(m, "properties"@)->Some_0;
            if pv is Mapping {
                assert(decreases_to!(pv => pv->Mapping_0));
            }
        }
    }
}

/// The decoded inline `Schema`'s fields, pinned to the mapping's values.
pub open spec fn schema_ok(v: Value, s: Schema) -> bool
    decreases v, 2int,
    via schema_ok_dec
{
    match v {
        Value::Mapping(entries) => {
            let m = entries@;
            &&& s.schema_type@ == str_at(m, "type"@)
            &&& s.format.deep_view() == opt_str_of(m, "format"@)
            &&& s.title.deep_view() == opt_str_of(m, "title"@)
            &&& s.description.deep_view() == opt_str_of(m, "description"@)
            &&& s.multiple_of == opt_i32_of(m, "multipleOf"@)
            &&& s.maximum == opt_i32_of(m, "maximum"@)
            &&& s.exclusive_maximum == opt_bool_of(m, "exclusiveMaximum"@)
            &&& s.minimum == opt_i32_of(m, "minimum"@)
            &&& s.exclusive_minimum == opt_bool_of(m, "exclusiveMinimum"@)
            &&& s.max_length == opt_i32_of(m, "maxLength"@)
            &&& s.min_length == opt_i32_of(m, "minLength"@)
            &&& s.pattern.deep_view() == opt_str_of(m, "pattern"@)
            &&& s.max_items == opt_i32_of(m, "maxItems"@)
            &&& s.min_items == opt_i32_of(m, "minItems"@)
            &&& s.unique_items == opt_bool_of(m, "uniqueItems"@)
            &&& s.max_properties == opt_i32_of(m, "maxProperties"@)
            &&& s.min_properties == opt_i32_of(m, "minProperties"@)
            &&& s.required == opt_bool_of(m, "required"@)
            &&& (match lookup(m, "items"@) {
                Option::None => s.items is None,
                Option::Some(iv) => s.items matches Some(b) && schema_or_ref_ok(iv, *b),
            })
            &&& (match lookup(m, "allOf"@) {
                Option::None => s.all_of is None,
                Option::Some(av) => av matches Value::List(elems) && s.all_of matches Some(os)
                    && sor_list_ok(elems, os@),
            })
            &&& (match lookup(m, "properties"@) {
                Option::None => s.properties is None,
                Option::Some(pv) => pv matches Value::Mapping(props) && s.properties matches Some(
                    op,
                ) && sor_map_ok(props, op@),
            })
            &&& s.discriminator.deep_view() == opt_str_of(m, "discriminator"@)
            &&& s.read_only == opt_bool_of(m, "readOnly"@)
            &&& opt_external_docs_ok(m, s.external_docs)
        },
        _ => false,
    }
}

#[via_fn]
proof fn schema_ok_dec(v: Value, s: Schema) {
    schema_sub_decreases(v);
}

/// Decodes a schema-or-reference: a mapping with a `$ref` key becomes a
/// `Reference` holding that pointer, siblings ignored; any other mapping
/// decodes as an inline `Schema`.
pub fn decode_schema_or_ref(v: &Value, path: &Vec<PathSeg>) -> (r: Result<
    SchemaOrRef,
    DecodeError,
>)
    ensures
        match r {
            Ok(sor) => schema_or_ref_err(*v, path.deep_view()) is None && schema_or_ref_ok(*v, sor),
            Err(e) => schema_or_ref_err(*v, path.deep_view()) == Some(e@),
        },
    decreases *v, 3int,
{
    match v {
        Value::Mapping(m) => match get(m, "$ref") {
            Option::Some(_) => {
                let p = req_string(m, "$ref", "Schema", path)?;
                Ok(SchemaOrRef::Reference(p))
            },
            Option::None => Ok(SchemaOrRef::Inline(Box::new(decode_schema(v, path)?))),
        },
        _ => Err(mismatch_here(path, "mapping", v)),
    }
}

/// Decodes each element of an `allOf` sequence; `pathk` already names the
/// sequence's own position.
fn decode_sor_list(elems: &Vec<Value>, pathk: &Vec<PathSeg>) -> (r: Result<
    Vec<SchemaOrRef>,
    DecodeError,
>)
    ensures
        match r {
            Ok(out) => sor_list_err(*elems, 0, pathk.deep_view()) is None && sor_list_ok(
                *elems,
                out@,
            ),
            Err(e) => sor_list_err(*elems, 0, pathk.deep_view()) == Some(e@),
        },
    decreases *elems, 1int,
{
    let mut out: Vec<SchemaOrRef> = Vec::new();
    let mut i: usize = 0;
    while i < elems.len()
        invariant
            i <= elems@.len(),
            out@.len() == i,
            forall|j: int| 0 <= j < i ==> schema_or_ref_ok(#[trigger] elems@[j], out@[j]),
            sor_list_err(*elems, 0, pathk.deep_view()) == sor_list_err(
                *elems,
                i as int,
                pathk.deep_view(),
            ),
        decreases elems@.len() - i,
    {
        proof {
            assert(decreases_to!(*elems => elems@[i as int]));
        }
        match decode_schema_or_ref(&elems[i], &path_with_index(pathk, i)) {
            Ok(sor) => {
                out.push(sor);
            },
            Err(e) => {
                return Err(e);
            },
        }
        i += 1;
    }
    Ok(out)
}

/// Decodes each entry of a `properties` mapping; `pathk` already names the
/// mapping's own position.
fn decode_sor_map(props: &Vec<(String, Value)>, pathk: &Vec<PathSeg>) -> (r: Result<
    Vec<(String, SchemaOrRef)>,
    DecodeError,
>)
    ensures
        match r {
            Ok(out) => sor_map_err(*props, 0, pathk.deep_view()) is None && sor_map_ok(
                *props,
                out@,
            ),
            Err(e) => sor_map_err(*props, 0, pathk.deep_view()) == Some(e@),
        },
    decreases *props, 1int,
{
    let mut out: Vec<(String, SchemaOrRef)> = Vec::new();
    let mut i: usize = 0;
    while i < props.len()
        invariant
            i <= props@.len(),
            out@.len() == i,
            forall|j: int|
                0 <= j < i ==> (#[trigger] out@[j]).0@ == props@[j].0@ && schema_or_ref_ok(
                    props@[j].1,
                    out@[j].1,
                ),
            sor_map_err(*props, 0, pathk.deep_view()) == sor_map_err(
                *props,
                i as int,
                pathk.deep_view(),
            ),
        decreases props@.len() - i,
    {
        proof {
            assert(decreases_to!(*props => props@[i as int]));
            assert(decreases_to!(props@[i as int] => props@[i as int].1));
        }
        match decode_schema_or_ref(&props[i].1, &path_with_key(pathk, props[i].0.as_str())) {
            Ok(sor) => {
                out.push((props[i].0.clone(), sor));
            },
            Err(e) => {
                return Err(e);
            },
        }
        i += 1;
    }
    Ok(out)
}

/// Decodes an inline `Schema` from a mapping; `type` is required, and
/// `items`, `allOf` and `properties` decode recursively to any depth.
pub fn decode_schema(v: &Value, path: &Vec<PathSeg>) -> (r: Result<Schema, DecodeError>)
    ensures
        match r {
            Ok(s) => schema_err(*v, path.deep_view()) is None && schema_ok(*v, s),
            Err(e) => schema_err(*v, path.deep_view()) == Some(e@),
        },
    decreases *v, 2int,
{
    match v {
        Value::Mapping(m) => {
            let schema_type = req_string(m, "type", "Schema", path)?;
            let format = opt_string(m, "format", path)?;
            let title = opt_string(m, "title", path)?;
            let description = opt_string(m, "description", path)?;
            let multiple_of = opt_i32(m, "multipleOf", path)?;
            let maximum = opt_i32(m, "maximum", path)?;
            let exclusive_maximum = opt_bool(m, "exclusiveMaximum", path)?;
            let minimum = opt_i32(m, "minimum", path)?;
            let exclusive_minimum = opt_bool(m, "exclusiveMinimum", path)?;
            let max_length = opt_i32(m, "maxLength", path)?;
            let min_length = opt_i32(m, "minLength", path)?;
            let pattern = opt_string(m, "pattern", path)?;
            let max_items = opt_i32(m, "maxItems", path)?;
            let min_items = opt_i32(m, "minItems", path)?;
            let unique_items = opt_bool(m, "uniqueItems", path)?;
            let max_properties = opt_i32(m, "maxProperties", path)?;
            let min_properties = opt_i32(m, "minProperties", path)?;
            let required = opt_bool(m, "required", path)?;
            let items = match get(m, "items") {
                Option::None => None,
                Option::Some(iv) => {
                    proof {
                        lemma_lookup_decreases(*v, "items"@);
                    }
                    Some(Box::new(decode_schema_or_ref(iv, &path_with_key(path, "items"))?))
                },
            };
            let all_of = match get(m, "allOf") {
                Option::None => None,
                Option::Some(av) => match av {
                    Value::List(elems) => {
                        proof {
                            lemma_lookup_decreases(*v, "allOf"@);
                            assert(decreases_to!(*av => *elems));
                        }
                        Some(decode_sor_list(elems, &path_with_key(path, "allOf"))?)
                    },
                    _ => {
                        return Err(mismatch_at_key(path, "allOf", "sequence", av));
                    },
                },
            };
            let properties = match get(m, "properties") {
                Option::None => None,
                Option::Some(pv) => match pv {
                    Value::Mapping(props) => {
                        proof {
                            lemma_lookup_decreases(*v, "properties"@);
                            assert(decreases_to!(*pv => *props));
                        }
                        Some(decode_sor_map(props, &path_with_key(path, "properties"))?)
                    },
                    _ => {
                        return Err(mismatch_at_key(path, "properties", "mapping", pv));
                    },
                },
            };
            let discriminator = opt_string(m, "discriminator", path)?;
            let read_only = opt_bool(m, "readOnly", path)?;
            let external_docs = decode_opt_external_docs(m, path)?;
            Ok(
                Schema {
                    schema_type,
                    format,
                    title,
                    description,
                    multiple_of,
                    maximum,
                    exclusive_maximum,
                    minimum,
                    exclusive_minimum,
                    max_length,
                    min_length,
                    pattern,
                    max_items,
                    min_items,
                    unique_items,
                    max_properties,
                    min_properties,
                    required,
                    items,
                    all_of,
                    properties,
                    discriminator,
                    read_only,
                    external_docs,
                },
            )
        },
        _ => Err(mismatch_here(path, "mapping", v)),
    }
}

/// The first decode error of a `Parameter` node, if any. A `body`
/// parameter requires a `schema`; any other location requires a `type`.
pub open spec fn parameter_err(v: Value, path: Seq<PathSegV>) -> Option<DecodeErrV> {
    match v {
        Value::Mapping(entries) => {
            let m = entries@;
            first_of(req_str_err(m, "name"@, "Parameter"@, path),
            first_of(req_str_err(m, "in"@, "Parameter"@, path),
            first_of(opt_str_err(m, "description"@, path),
            first_of(opt_bool_err(m, "required"@, path),
            first_of(
                if str_at(m, "in"@) == "body"@ {
                    match lookup(m, "schema"@) {
                        Option::None => Some(
                            DecodeErrV::MissingField { entity: "Parameter"@, field: "schema"@ },
                        ),
                        Option::Some(sv) => schema_or_ref_err(
                            sv,
                            path.push(PathSegV::Key("schema"@)),
                        ),
                    }
                } else {
                    req_str_err(m, "type"@, "Parameter"@, path)
                },
                opt_str_err(m, "format"@, path))))))
        },
        _ => Some(node_mismatch(path, "mapping"@, v)),
    }
}

/// The decoded `Parameter`'s fields, pinned. The wire key `in` fills the
/// `in_loc` field; `schema` and `param_type` are populated according to the
/// location.
pub open spec fn parameter_ok(v: Value, p: Parameter) -> bool {
    v matches Value::Mapping(entries) && {
        let m = entries@;
        &&& p.name@ == str_at(m, "name"@)
        &&& p.in_loc@ == str_at(m, "in"@)
        &&& p.description.deep_view() == opt_str_of(m, "description"@)
        &&& p.required == opt_bool_of(m, "required"@)
        &&& (if str_at(m, "in"@) == "body"@ {
            &&& p.param_type is None
            &&& p.schema matches Some(sor) && schema_or_ref_ok(value_at(m, "schema"@), sor)
        } else {
            &&& p.param_type matches Some(t) && t@ == str_at(m, "type"@)
            &&& p.schema is None
        })
        &&& p.format.deep_view() == opt_str_of(m, "format"@)
    }
}

/// Decodes a `Parameter` from a mapping; `name` and `in` are required, and
/// so is `schema` for a `body` parameter or `type` for any other.
pub fn decode_parameter(v: &Value, path: &Vec<PathSeg>) -> (r: Result<Parameter, DecodeError>)
    ensures
        match r {
            Ok(p) => parameter_err(*v, path.deep_view()) is None && parameter_ok(*v, p),
            Err(e) => parameter_err(*v, path.deep_view()) == Some(e@),
        },
{
    match v {
        Value::Mapping(m) => {
            let name = req_string(m, "name", "Parameter", path)?;
            let in_loc = req_string(m, "in", "Parameter", path)?;
            let description = opt_string(m, "description", path)?;
            let required = opt_bool(m, "required", path)?;
            let (param_type, schema) = if str_eq(in_loc.as_str(), "body") {
                match get(m, "schema") {
                    Option::None => {
                        return Err(
                            DecodeError::MissingField {
                                entity: String::from_str("Parameter"),
                                field: String::from_str("schema"),
                            },
                        );
                    },
                    Option::Some(sv) => (
                        None,
                        Some(decode_schema_or_ref(sv, &path_with_key(path, "schema"))?),
                    ),
                }
            } else {
                (Some(req_string(m, "type", "Parameter", path)?), None)
            };
            let format = opt_string(m, "format", path)?;
            Ok(Parameter { name, in_loc, description, required, param_type, format, schema })
        },
        _ => Err(mismatch_here(path, "mapping", v)),
    }
}

/// The first decode error of a parameter-or-reference node, if any.
pub open spec fn param_or_ref_err(v: Value, path: Seq<PathSegV>) -> Option<DecodeErrV> {
    match v {
        Value::Mapping(entries) => {
            let m = entries@;
            match lookup(m, "$ref"@) {
                Option::Some(_) => req_str_err(m, "$ref"@, "Parameter"@, path),
                Option::None => parameter_err(v, path),
            }
        },
        _ => Some(node_mismatch(path, "mapping"@, v)),
    }
}

/// The decoded parameter-or-reference, pinned.
pub open spec fn param_or_ref_ok(v: Value, por: ParameterOrRef) -> bool {
    match v {
        Value::Mapping(entries) => {
            let m = entries@;
            match lookup(m, "$ref"@) {
                Option::Some(_) => por matches ParameterOrRef::Reference(p) && p@ == str_at(
                    m,
                    "$ref"@,
                ),
                Option::None => por matches ParameterOrRef::Inline(ip) && parameter_ok(v, ip),
            }
        },
        _ => false,
    }
}

/// Decodes a parameter or a `$ref` to one; with a `$ref` key present its
/// siblings are ignored.
pub fn decode_param_or_ref(v: &Value, path: &Vec<PathSeg>) -> (r: Result<
    ParameterOrRef,
    DecodeError,
>)
    ensures
        match r {
            Ok(por) => param_or_ref_err(*v, path.deep_view()) is None && param_or_ref_ok(*v, por),
            Err(e) => param_or_ref_err(*v, path.deep_view()) == Some(e@),
        },
{
    match v {
        Value::Mapping(m) => match get(m, "$ref") {
            Option::Some(_) => {
                let p = req_string(m, "$ref", "Parameter", path)?;
                Ok(ParameterOrRef::Reference(p))
            },
            Option::None => Ok(ParameterOrRef::Inline(decode_parameter(v, path)?)),
        },
        _ => Err(mismatch_here(path, "mapping", v)),
    }
}

/// The first decode error among the entries of a headers mapping, from
/// entry `i` on, if any.
pub open spec fn header_map_err(
    entries: Seq<(String, Value)>,
    i: int,
    pathk: Seq<PathSegV>,
) -> Option<DecodeErrV>
    decreases entries.len() - i,
{
    if i < 0 || i >= entries.len() {
        None
    } else {
        match header_err(entries[i].1, pathk.push(PathSegV::Key(entries[i].0@))) {
            Option::Some(e) => Some(e),
            Option::None => header_map_err(entries, i + 1, pathk),
        }
    }
}

/// Each entry of a headers mapping, decoded, keys kept in order.
pub open spec fn header_map_ok(entries: Seq<(String, Value)>, out: Seq<(String, Header)>) -> bool {
    out.len() == entries.len() && (forall|j: int|
        0 <= j < out.len() ==> (#[trigger] out[j]).0@ == entries[j].0@ && header_ok(
            entries[j].1,
            out[j].1,
        ))
}

fn decode_header_map(entries: &Vec<(String, Value)>, pathk: &Vec<PathSeg>) -> (r: Result<
    Vec<(String, Header)>,
    DecodeError,
>)
    ensures
        match r {
            Ok(out) => header_map_err(entries@, 0, pathk.deep_view()) is None && header_map_ok(
                entries@,
                out@,
            ),
            Err(e) => header_map_err(entries@, 0, pathk.deep_view()) == Some(e@),
        },
{
    let mut out: Vec<(String, Header)> = Vec::new();
    let mut i: usize = 0;
    while i < entries.len()
        invariant
            i <= entries@.len(),
            out@.len() == i,
            forall|j: int|
                0 <= j < i ==> (#[trigger] out@[j]).0@ == entries@[j].0@ && header_ok(
                    entries@[j].1,
                    out@[j].1,
                ),
            header_map_err(entries@, 0, pathk.deep_view()) == header_map_err(
                entries@,
                i as int,
                pathk.deep_view(),
            ),
        decreases entries@.len() - i,
    {
        match decode_header(&entries[i].1, &path_with_key(pathk, entries[i].0.as_str())) {
            Ok(h) => {
                out.push((entries[i].0.clone(), h));
            },
            Err(e) => {
                return Err(e);
            },
        }
        i += 1;
    }
    Ok(out)
}

/// The first decode error among the entries of a mapping expected to hold
/// strings (response examples), from entry `i` on, if any.
pub open spec fn string_map_err(
    entries: Seq<(String, Value)>,
    i: int,
    pathk: Seq<PathSegV>,
) -> Option<DecodeErrV>
    decreases entries.len() - i,
{
    if i < 0 || i >= entries.len() {
        None
    } else {
        match entries[i].1 {
            Value::Text(_) => string_map_err(entries, i + 1, pathk),
            v => Some(node_mismatch(pathk.push(PathSegV::Key(entries[i].0@)), "string"@, v)),
        }
    }
}

/// Each entry of a string-valued mapping, decoded, keys kept in order.
pub open spec fn string_map_ok(entries: Seq<(String, Value)>, out: Seq<(String, String)>) -> bool {
    out.len() == entries.len() && (forall|j: int|
        0 <= j < out.len() ==> (#[trigger] out[j]).0@ == entries[j].0@ && out[j].1@ == text_of(
            entries[j].1,
        ))
}

fn decode_string_map(entries: &Vec<(String, Value)>, pathk: &Vec<PathSeg>) -> (r: Result<
    Vec<(String, String)>,
    DecodeError,
>)
    ensures
        match r {
            Ok(out) => string_map_err(entries@, 0, pathk.deep_view()) is None && string_map_ok(
                entries@,
                out@,
            ),
            Err(e) => string_map_err(entries@, 0, pathk.deep_view()) == Some(e@),
        },
{
    let mut out: Vec<(String, String)> = Vec::new();
    let mut i: usize = 0;
    while i < entries.len()
        invariant
            i <= entries@.len(),
            out@.len() == i,
            forall|j: int|
                0 <= j < i ==> (#[trigger] out@[j]).0@ == entries@[j].0@ && out@[j].1@ == text_of(
                    entries@[j].1,
                ),
            string_map_err(entries@, 0, pathk.deep_view()) == string_map_err(
                entries@,
                i as int,
                pathk.deep_view(),
            ),
        decreases entries@.len() - i,
    {
        match &entries[i].1 {
            Value::Text(t) => {
                out.push((entries[i].0.clone(), t.clone()));
            },
            other => {
                return Err(
                    DecodeError::TypeMismatch {
                        path: path_with_key(pathk, entries[i].0.as_str()),
                        expected: String::from_str("string"),
                        found: kind_name(other),
                    },
                );
            },
        }
        i += 1;
    }
    Ok(out)
}

/// The first decode error of a `Response` node, if any, in field order:
/// `description`, `schema`, `headers`, `examples`.
pub open spec fn response_err(v: Value, path: Seq<PathSegV>) -> Option<DecodeErrV> {
    match v {
        Value::Mapping(entries) => {
            let m = entries@;
            first_of(req_str_err(m, "description"@, "Response"@, path),
            first_of(
                match lookup(m, "schema"@) {
                    Option::None => None,
                    Option::Some(sv) => schema_or_ref_err(sv, path.push(PathSegV::Key("schema"@))),
                },
            first_of(
                match lookup(m, "headers"@) {
                    Option::None => None,
                    Option::Some(hv) => match hv {
                        Value::Mapping(he) => header_map_err(
                            he@,
                            0,
                            path.push(PathSegV::Key("headers"@)),
                        ),
                        _ => Some(node_mismatch(path.push(PathSegV::Key("headers"@)), "mapping"@, hv)),
                    },
                },
                match lookup(m, "examples"@) {
                    Option::None => None,
                    Option::Some(ev) => match ev {
                        Value::Mapping(ee) => string_map_err(
                            ee@,
                            0,
                            path.push(PathSegV::Key("examples"@)),
                        ),
                        _ => Some(node_mismatch(path.push(PathSegV::Key("examples"@)), "mapping"@, ev)),
                    },
                })))
        },
        _ => Some(node_mismatch(path, "mapping"@, v)),
    }
}

/// The decoded `Response`'s fields, pinned to the mapping's values.
pub open spec fn response_ok(v: Value, r: Response) -> bool {
    v matches Value::Mapping(entries) && {
        let m = entries@;
        &&& r.description@ == str_at(m, "description"@)
        &&& (match lookup(m, "schema"@) {
            Option::None => r.schema is None,
            Option::Some(sv) => r.schema matches Some(sor) && schema_or_ref_ok(sv, sor),
        })
        &&& (match lookup(m, "headers"@) {
            Option::None => r.headers is None,
            Option::Some(hv) => hv matches Value::Mapping(he) && r.headers matches Some(hs)
                && header_map_ok(he@, hs@),
        })
        &&& (match lookup(m, "examples"@) {
            Option::None => r.examples is None,
            Option::Some(ev) => ev matches Value::Mapping(ee) && r.examples matches Some(es)
                && string_map_ok(ee@, es@),
        })
    }
}

/// Decodes a `Response` from a mapping; `description` is required.
pub fn decode_response(v: &Value, path: &Vec<PathSeg>) -> (r: Result<Response, DecodeError>)
    ensures
        match r {
            Ok(resp) => response_err(*v, path.deep_view()) is None && response_ok(*v, resp),
            Err(e) => response_err(*v, path.deep_view()) == Some(e@),
        },
{
    match v {
        Value::Mapping(m) => {
            let description = req_string(m, "description", "Response", path)?;
            let schema = match get(m, "schema") {
                Option::None => None,
                Option::Some(sv) => Some(decode_schema_or_ref(sv, &path_with_key(path, "schema"))?),
            };
            let headers = match get(m, "headers") {
                Option::None => None,
                Option::Some(hv) => match hv {
                    Value::Mapping(he) => Some(
                        decode_header_map(he, &path_with_key(path, "headers"))?,
                    ),
                    _ => {
                        return Err(mismatch_at_key(path, "headers", "mapping", hv));
                    },
                },
            };
            let examples = match get(m, "examples") {
                Option::None => None,
                Option::Some(ev) => match ev {
                    Value::Mapping(ee) => Some(
                        decode_string_map(ee, &path_with_key(path, "examples"))?,
                    ),
                    _ => {
                        return Err(mismatch_at_key(path, "examples", "mapping", ev));
                    },
                },
            };
            Ok(Response { description, schema, headers, examples })
        },
        _ => Err(mismatch_here(path, "mapping", v)),
    }
}

/// The first decode error of a response-or-reference node, if any.
pub open spec fn resp_or_ref_err(v: Value, path: Seq<PathSegV>) -> Option<DecodeErrV> {
    match v {
        Value::Mapping(entries) => {
            let m = entries@;
            match lookup(m, "$ref"@) {
                Option::Some(_) => req_str_err(m, "$ref"@, "Response"@, path),
                Option::None => response_err(v, path),
            }
        },
        _ => Some(node_mismatch(path, "mapping"@, v)),
    }
}

/// The decoded response-or-reference, pinned.
pub open spec fn resp_or_ref_ok(v: Value, ror: ResponseOrRef) -> bool {
    match v {
        Value::Mapping(entries) => {
            let m = entries@;
            match lookup(m, "$ref"@) {
                Option::Some(_) => ror matches ResponseOrRef::Reference(p) && p@ == str_at(
                    m,
                    "$ref"@,
                ),
                Option::None => ror matches ResponseOrRef::Inline(ir) && response_ok(v, ir),
            }
        },
        _ => false,
    }
}

/// Decodes a response or a `$ref` to one; with a `$ref` key present its
/// siblings are ignored.
pub fn decode_resp_or_ref(v: &Value, path: &Vec<PathSeg>) -> (r: Result<
    ResponseOrRef,
    DecodeError,
>)
    ensures
        match r {
            Ok(ror) => resp_or_ref_err(*v, path.deep_view()) is None && resp_or_ref_ok(*v, ror),
            Err(e) => resp_or_ref_err(*v, path.deep_view()) == Some(e@),
        },
{
    match v {
        Value::Mapping(m) => match get(m, "$ref") {
            Option::Some(_) => {
                let p = req_string(m, "$ref", "Response", path)?;
                Ok(ResponseOrRef::Reference(p))
            },
            Option::None => Ok(ResponseOrRef::Inline(decode_response(v, path)?)),
        },
        _ => Err(mismatch_here(path, "mapping", v)),
    }
}

/// The first decode error among the elements of a parameters sequence,
/// from element `i` on, if any.
pub open spec fn por_list_err(elems: Seq<Value>, i: int, pathk: Seq<PathSegV>) -> Option<
    DecodeErrV,
>
    decreases elems.len() - i,
{
    if i < 0 || i >= elems.len() {
        None
    } else {
        match param_or_ref_err(elems[i], pathk.push(PathSegV::Index(i))) {
            Option::Some(e) => Some(e),
            Option::None => por_list_err(elems, i + 1, pathk),
        }
    }
}

/// Each element of a parameters sequence, decoded, order kept.
pub open spec fn por_list_ok(elems: Seq<Value>, out: Seq<ParameterOrRef>) -> bool {
    out.len() == elems.len() && (forall|j: int|
        0 <= j < out.len() ==> param_or_ref_ok(#[trigger] elems[j], out[j]))
}

fn decode_por_list(elems: &Vec<Value>, pathk: &Vec<PathSeg>) -> (r: Result<
    Vec<ParameterOrRef>,
    DecodeError,
>)
    ensures
        match r {
            Ok(out) => por_list_err(elems@, 0, pathk.deep_view()) is None && por_list_ok(
                elems@,
                out@,
            ),
            Err(e) => por_list_err(elems@, 0, pathk.deep_view()) == Some(e@),
        },
{
    let mut out: Vec<ParameterOrRef> = Vec::new();
    let mut i: usize = 0;
    while i < elems.len()
        invariant
            i <= elems@.len(),
            out@.len() == i,
            forall|j: int| 0 <= j < i ==> param_or_ref_ok(#[trigger] elems@[j], out@[j]),
            por_list_err(elems@, 0, pathk.deep_view()) == por_list_err(
                elems@,
                i as int,
                pathk.deep_view(),
            ),
        decreases elems@.len() - i,
    {
        match decode_param_or_ref(&elems[i], &path_with_index(pathk, i)) {
            Ok(por) => {
                out.push(por);
            },
            Err(e) => {
                return Err(e);
            },
        }
        i += 1;
    }
    Ok(out)
}

/// The first decode error among the entries of a responses mapping, from
/// entry `i` on, if any.
pub open spec fn ror_map_err(
    entries: Seq<(String, Value)>,
    i: int,
    pathk: Seq<PathSegV>,
) -> Option<DecodeErrV>
    decreases entries.len() - i,
{
    if i < 0 || i >= entries.len() {
        None
    } else {
        match resp_or_ref_err(entries[i].1, pathk.push(PathSegV::Key(entries[i].0@))) {
            Option::Some(e) => Some(e),
            Option::None => ror_map_err(entries, i + 1, pathk),
        }
    }
}

/// Each entry of a responses mapping, decoded, keys (status codes or
/// `default`) kept in order.
pub open spec fn ror_map_ok(entries: Seq<(String, Value)>, out: Seq<(String, ResponseOrRef)>) -> bool {
    out.len() == entries.len() && (forall|j: int|
        0 <= j < out.len() ==> (#[trigger] out[j]).0@ == entries[j].0@ && resp_or_ref_ok(
            entries[j].1,
            out[j].1,
        ))
}

fn decode_ror_map(entries: &Vec<(String, Value)>, pathk: &Vec<PathSeg>) -> (r: Result<
    Vec<(String, ResponseOrRef)>,
    DecodeError,
>)
    ensures
        match r {
            Ok(out) => ror_map_err(entries@, 0, pathk.deep_view()) is None && ror_map_ok(
                entries@,
                out@,
            ),
            Err(e) => ror_map_err(entries@, 0, pathk.deep_view()) == Some(e@),
        },
{
    let mut out: Vec<(String, ResponseOrRef)> = Vec::new();
    let mut i: usize = 0;
    while i < entries.len()
        invariant
            i <= entries@.len(),
            out@.len() == i,
            forall|j: int|
                0 <= j < i ==> (#[trigger] out@[j]).0@ == entries@[j].0@ && resp_or_ref_ok(
                    entries@[j].1,
                    out@[j].1,
                ),
            ror_map_err(entries@, 0, pathk.deep_view()) == ror_map_err(
                entries@,
                i as int,
                pathk.deep_view(),
            ),
        decreases entries@.len() - i,
    {
        match decode_resp_or_ref(&entries[i].1, &path_with_key(pathk, entries[i].0.as_str())) {
            Ok(ror) => {
                out.push((entries[i].0.clone(), ror));
            },
            Err(e) => {
                return Err(e);
            },
        }
        i += 1;
    }
    Ok(out)
}

/// The first decode error of an `Operation` node, if any, in field order;
/// `responses` is required.
pub open spec fn operation_err(v: Value, path: Seq<PathSegV>) -> Option<DecodeErrV> {
    match v {
        Value::Mapping(entries) => {
            let m = entries@;
            first_of(opt_str_list_err(m, "tags"@, path),
            first_of(opt_str_err(m, "summary"@, path),
            first_of(opt_str_err(m, "description"@, path),
            first_of(opt_external_docs_err(m, path),
            first_of(opt_str_err(m, "operationId"@, path),
            first_of(opt_str_list_err(m, "consumes"@, path),
            first_of(opt_str_list_err(m, "produces"@, path),
            first_of(
                match lookup(m, "parameters"@) {
                    Option::None => None,
                    Option::Some(pv) => match pv {
                        Value::List(elems) => por_list_err(
                            elems@,
                            0,
                            path.push(PathSegV::Key("parameters"@)),
                        ),
                        _ => Some(node_mismatch(path.push(PathSegV::Key("parameters"@)), "sequence"@, pv)),
                    },
                },
                match lookup(m, "responses"@) {
                    Option::None => Some(
                        DecodeErrV::MissingField { entity: "Operation"@, field: "responses"@ },
                    ),
                    Option::Some(rv) => match rv {
                        Value::Mapping(re) => ror_map_err(
                            re@,
                            0,
                            path.push(PathSegV::Key("responses"@)),
                        ),
                        _ => Some(node_mismatch(path.push(PathSegV::Key("responses"@)), "mapping"@, rv)),
                    },
                }))))))))
        },
        _ => Some(node_mismatch(path, "mapping"@, v)),
    }
}

/// The decoded `Operation`'s fields, pinned. The wire key `operationId`
/// fills the `operation_id` field.
pub open spec fn operation_ok(v: Value, o: Operation) -> bool {
    v matches Value::Mapping(entries) && {
        let m = entries@;
        &&& o.tags.deep_view() == opt_str_list_of(m, "tags"@)
        &&& o.summary.deep_view() == opt_str_of(m, "summary"@)
        &&& o.description.deep_view() == opt_str_of(m, "description"@)
        &&& opt_external_docs_ok(m, o.external_docs)
        &&& o.operation_id.deep_view() == opt_str_of(m, "operationId"@)
        &&& o.consumes.deep_view() == opt_str_list_of(m, "consumes"@)
        &&& o.produces.deep_view() == opt_str_list_of(m, "produces"@)
        &&& (match lookup(m, "parameters"@) {
            Option::None => o.parameters is None,
            Option::Some(pv) => pv matches Value::List(elems) && o.parameters matches Some(ps)
                && por_list_ok(elems@, ps@),
        })
        &&& (match lookup(m, "responses"@) {
            Option::Some(rv) => rv matches Value::Mapping(re) && ror_map_ok(re@, o.responses@),
            Option::None => false,
        })
    }
}

/// Decodes an `Operation` from a mapping; `responses` is required.
pub fn decode_operation(v: &Value, path: &Vec<PathSeg>) -> (r: Result<Operation, DecodeError>)
    ensures
        match r {
            Ok(o) => operation_err(*v, path.deep_view()) is None && operation_ok(*v, o),
            Err(e) => operation_err(*v, path.deep_view()) == Some(e@),
        },
{
    match v {
        Value::Mapping(m) => {
            let tags = opt_string_list(m, "tags", path)?;
            let summary = opt_string(m, "summary", path)?;
            let description = opt_string(m, "description", path)?;
            let external_docs = decode_opt_external_docs(m, path)?;
            let operation_id = opt_string(m, "operationId", path)?;
            let consumes = opt_string_list(m, "consumes", path)?;
            let produces = opt_string_list(m, "produces", path)?;
            let parameters = match get(m, "parameters") {
                Option::None => None,
                Option::Some(pv) => match pv {
                    Value::List(elems) => Some(
                        decode_por_list(elems, &path_with_key(path, "parameters"))?,
                    ),
                    _ => {
                        return Err(mismatch_at_key(path, "parameters", "sequence", pv));
                    },
                },
            };
            let responses = match get(m, "responses") {
                Option::None => {
                    return Err(
                        DecodeError::MissingField {
                            entity: String::from_str("Operation"),
                            field: String::from_str("responses"),
                        },
                    );
                },
                Option::Some(rv) => match rv {
                    Value::Mapping(re) => decode_ror_map(re, &path_with_key(path, "responses"))?,
                    _ => {
                        return Err(mismatch_at_key(path, "responses", "mapping", rv));
                    },
                },
            };
            Ok(
                Operation {
                    tags,
                    summary,
                    description,
                    external_docs,
                    operation_id,
                    consumes,
                    produces,
                    parameters,
                    responses,
                },
            )
        },
        _ => Err(mismatch_here(path, "mapping", v)),
    }
}

/// The error of an optional operation under `key`, if any.
pub open spec fn opt_operation_err(
    m: Seq<(String, Value)>,
    key: Seq<char>,
    path: Seq<PathSegV>,
) -> Option<DecodeErrV> {
    match lookup(m, key) {
        Option::None => None,
        Option::Some(ov) => operation_err(ov, path.push(PathSegV::Key(key))),
    }
}

/// An optional operation under `key`, pinned: present exactly when the key
/// is.
pub open spec fn opt_operation_ok(
    m: Seq<(String, Value)>,
    key: Seq<char>,
    o: Option<Operation>,
) -> bool {
    match lookup(m, key) {
        Option::None => o is None,
        Option::Some(ov) => o matches Some(op) && operation_ok(ov, op),
    }
}

fn decode_opt_operation(m: &Vec<(String, Value)>, key: &str, path: &Vec<PathSeg>) -> (r: Result<
    Option<Operation>,
    DecodeError,
>)
    ensures
        match r {
            Ok(o) => opt_operation_err(m@, key@, path.deep_view()) is None && opt_operation_ok(
                m@,
                key@,
                o,
            ),
            Err(e) => opt_operation_err(m@, key@, path.deep_view()) == Some(e@),
        },
{
    match get(m, key) {
        Option::None => Ok(None),
        Option::Some(ov) => Ok(Some(decode_operation(ov, &path_with_key(path, key))?)),
    }
}

/// The first decode error of a `PathItem` node, if any. A `$ref` key makes
/// the item a pure reference: only that key is decoded and the operations
/// are left empty.
pub open spec fn path_item_err(v: Value, path: Seq<PathSegV>) -> Option<DecodeErrV> {
    match v {
        Value::Mapping(entries) => {
            let m = entries@;
            match lookup(m, "$ref"@) {
                Option::Some(_) => req_str_err(m, "$ref"@, "PathItem"@, path),
                Option::None => first_of(opt_operation_err(m, "get"@, path),
                first_of(opt_operation_err(m, "put"@, path),
                first_of(opt_operation_err(m, "post"@, path),
                first_of(opt_operation_err(m, "delete"@, path),
                first_of(opt_operation_err(m, "options"@, path),
                first_of(opt_operation_err(m, "head"@, path),
                    opt_operation_err(m, "patch"@, path))))))),
            }
        },
        _ => Some(node_mismatch(path, "mapping"@, v)),
    }
}

/// The decoded `PathItem`'s fields, pinned: with a `$ref` present only the
/// reference is filled, otherwise each present verb key fills its
/// operation.
pub open spec fn path_item_ok(v: Value, pi: PathItem) -> bool {
    match v {
        Value::Mapping(entries) => {
            let m = entries@;
            match lookup(m, "$ref"@) {
                Option::Some(_) => {
                    &&& pi.ref_path matches Some(p) && p@ == str_at(m, "$ref"@)
                    &&& pi.get is None
                    &&& pi.put is None
                    &&& pi.post is None
                    &&& pi.delete is None
                    &&& pi.options is None
                    &&& pi.head is None
                    &&& pi.patch is None
                },
                Option::None => {
                    &&& pi.ref_path is None
                    &&& opt_operation_ok(m, "get"@, pi.get)
                    &&& opt_operation_ok(m, "put"@, pi.put)
                    &&& opt_operation_ok(m, "post"@, pi.post)
                    &&& opt_operation_ok(m, "delete"@, pi.delete)
                    &&& opt_operation_ok(m, "options"@, pi.options)
                    &&& opt_operation_ok(m, "head"@, pi.head)
                    &&& opt_operation_ok(m, "patch"@, pi.patch)
                },
            }
        },
        _ => false,
    }
}

/// Decodes a `PathItem` from a mapping. A `$ref` key is mutually exclusive
/// with inline operations: when present, siblings are ignored.
pub fn decode_path_item(v: &Value, path: &Vec<PathSeg>) -> (r: Result<PathItem, DecodeError>)
    ensures
        match r {
            Ok(pi) => path_item_err(*v, path.deep_view()) is None && path_item_ok(*v, pi),
            Err(e) => path_item_err(*v, path.deep_view()) == Some(e@),
        },
{
    match v {
        Value::Mapping(m) => match get(m, "$ref") {
            Option::Some(_) => {
                let p = req_string(m, "$ref", "PathItem", path)?;
                Ok(
                    PathItem {
                        ref_path: Some(p),
                        get: None,
                        put: None,
                        post: None,
                        delete: None,
                        options: None,
                        head: None,
                        patch: None,
                    },
                )
            },
            Option::None => {
                let op_get = decode_opt_operation(m, "get", path)?;
                let op_put = decode_opt_operation(m, "put", path)?;
                let op_post = decode_opt_operation(m, "post", path)?;
                let op_delete = decode_opt_operation(m, "delete", path)?;
                let op_options = decode_opt_operation(m, "options", path)?;
                let op_head = decode_opt_operation(m, "head", path)?;
                let op_patch = decode_opt_operation(m, "patch", path)?;
                Ok(
                    PathItem {
                        ref_path: None,
                        get: op_get,
                        put: op_put,
                        post: op_post,
                        delete: op_delete,
                        options: op_options,
                        head: op_head,
                        patch: op_patch,
                    },
                )
            },
        },
        _ => Err(mismatch_here(path, "mapping", v)),
    }
}

/// The first decode error among the entries of the `paths` mapping, from
/// entry `i` on, if any.
pub open spec fn path_item_map_err(
    entries: Seq<(String, Value)>,
    i: int,
    pathk: Seq<PathSegV>,
) -> Option<DecodeErrV>
    decreases entries.len() - i,
{
    if i < 0 || i >= entries.len() {
        None
    } else {
        match path_item_err(entries[i].1, pathk.push(PathSegV::Key(entries[i].0@))) {
            Option::Some(e) => Some(e),
            Option::None => path_item_map_err(entries, i + 1, pathk),
        }
    }
}

/// Each entry of the `paths` mapping, decoded, URL templates kept in
/// order.
pub open spec fn path_item_map_ok(entries: Seq<(String, Value)>, out: Seq<(String, PathItem)>) -> bool {
    out.len() == entries.len() && (forall|j: int|
        0 <= j < out.len() ==> (#[trigger] out[j]).0@ == entries[j].0@ && path_item_ok(
            entries[j].1,
            out[j].1,
        ))
}

fn decode_path_item_map(entries: &Vec<(String, Value)>, pathk: &Vec<PathSeg>) -> (r: Result<
    Vec<(String, PathItem)>,
    DecodeError,
>)
    ensures
        match r {
            Ok(out) => path_item_map_err(entries@, 0, pathk.deep_view()) is None
                && path_item_map_ok(entries@, out@),
            Err(e) => path_item_map_err(entries@, 0, pathk.deep_view()) == Some(e@),
        },
{
    let mut out: Vec<(String, PathItem)> = Vec::new();
    let mut i: usize = 0;
    while i < entries.len()
        invariant
            i <= entries@.len(),
            out@.len() == i,
            forall|j: int|
                0 <= j < i ==> (#[trigger] out@[j]).0@ == entries@[j].0@ && path_item_ok(
                    entries@[j].1,
                    out@[j].1,
                ),
            path_item_map_err(entries@, 0, pathk.deep_view()) == path_item_map_err(
                entries@,
                i as int,
                pathk.deep_view(),
            ),
        decreases entries@.len() - i,
    {
        match decode_path_item(&entries[i].1, &path_with_key(pathk, entries[i].0.as_str())) {
            Ok(pi) => {
                out.push((entries[i].0.clone(), pi));
            },
            Err(e) => {
                return Err(e);
            },
        }
        i += 1;
    }
    Ok(out)
}

/// The first decode error among the elements of the `tags` sequence, from
/// element `i` on, if any.
pub open spec fn tag_list_err(elems: Seq<Value>, i: int, pathk: Seq<PathSegV>) -> Option<
    DecodeErrV,
>
    decreases elems.len() - i,
{
    if i < 0 || i >= elems.len() {
        None
    } else {
        match tag_err(elems[i], pathk.push(PathSegV::Index(i))) {
            Option::Some(e) => Some(e),
            Option::None => tag_list_err(elems, i + 1, pathk),
        }
    }
}

/// Each element of the `tags` sequence, decoded, order kept.
pub open spec fn tag_list_ok(elems: Seq<Value>, out: Seq<Tag>) -> bool {
    out.len() == elems.len() && (forall|j: int|
        0 <= j < out.len() ==> tag_ok(#[trigger] elems[j], out[j]))
}

fn decode_tag_list(elems: &Vec<Value>, pathk: &Vec<PathSeg>) -> (r: Result<Vec<Tag>, DecodeError>)
    ensures
        match r {
            Ok(out) => tag_list_err(elems@, 0, pathk.deep_view()) is None && tag_list_ok(
                elems@,
                out@,
            ),
            Err(e) => tag_list_err(elems@, 0, pathk.deep_view()) == Some(e@),
        },
{
    let mut out: Vec<Tag> = Vec::new();
    let mut i: usize = 0;
    while i < elems.len()
        invariant
            i <= elems@.len(),
            out@.len() == i,
            forall|j: int| 0 <= j < i ==> tag_ok(#[trigger] elems@[j], out@[j]),
            tag_list_err(elems@, 0, pathk.deep_view()) == tag_list_err(
                elems@,
                i as int,
                pathk.deep_view(),
            ),
        decreases elems@.len() - i,
    {
        match decode_tag(&elems[i], &path_with_index(pathk, i)) {
            Ok(t) => {
                out.push(t);
            },
            Err(e) => {
                return Err(e);
            },
        }
        i += 1;
    }
    Ok(out)
}

/// The first decode error among the entries of the `parameters` registry,
/// from entry `i` on, if any.
pub open spec fn param_map_err(
    entries: Seq<(String, Value)>,
    i: int,
    pathk: Seq<PathSegV>,
) -> Option<DecodeErrV>
    decreases entries.len() - i,
{
    if i < 0 || i >= entries.len() {
        None
    } else {
        match parameter_err(entries[i].1, pathk.push(PathSegV::Key(entries[i].0@))) {
            Option::Some(e) => Some(e),
            Option::None => param_map_err(entries, i + 1, pathk),
        }
    }
}

/// Each entry of the `parameters` registry, decoded, keys kept in order.
pub open spec fn param_map_ok(entries: Seq<(String, Value)>, out: Seq<(String, Parameter)>) -> bool {
    out.len() == entries.len() && (forall|j: int|
        0 <= j < out.len() ==> (#[trigger] out[j]).0@ == entries[j].0@ && parameter_ok(
            entries[j].1,
            out[j].1,
        ))
}

fn decode_param_map(entries: &Vec<(String, Value)>, pathk: &Vec<PathSeg>) -> (r: Result<
    Vec<(String, Parameter)>,
    DecodeError,
>)
    ensures
        match r {
            Ok(out) => param_map_err(entries@, 0, pathk.deep_view()) is None && param_map_ok(
                entries@,
                out@,
            ),
            Err(e) => param_map_err(entries@, 0, pathk.deep_view()) == Some(e@),
        },
{
    let mut out: Vec<(String, Parameter)> = Vec::new();
    let mut i: usize = 0;
    while i < entries.len()
        invariant
            i <= entries@.len(),
            out@.len() == i,
            forall|j: int|
                0 <= j < i ==> (#[trigger] out@[j]).0@ == entries@[j].0@ && parameter_ok(
                    entries@[j].1,
                    out@[j].1,
                ),
            param_map_err(entries@, 0, pathk.deep_view()) == param_map_err(
                entries@,
                i as int,
                pathk.deep_view(),
            ),
        decreases entries@.len() - i,
    {
        match decode_parameter(&entries[i].1, &path_with_key(pathk, entries[i].0.as_str())) {
            Ok(p) => {
                out.push((entries[i].0.clone(), p));
            },
            Err(e) => {
                return Err(e);
            },
        }
        i += 1;
    }
    Ok(out)
}

/// The first decode error among the entries of the `responses` registry,
/// from entry `i` on, if any.
pub open spec fn resp_map_err(
    entries: Seq<(String, Value)>,
    i: int,
    pathk: Seq<PathSegV>,
) -> Option<DecodeErrV>
    decreases entries.len() - i,
{
    if i < 0 || i >= entries.len() {
        None
    } else {
        match response_err(entries[i].1, pathk.push(PathSegV::Key(entries[i].0@))) {
            Option::Some(e) => Some(e),
            Option::None => resp_map_err(entries, i + 1, pathk),
        }
    }
}

/// Each entry of the `responses` registry, decoded, keys kept in order.
pub open spec fn resp_map_ok(entries: Seq<(String, Value)>, out: Seq<(String, Response)>) -> bool {
    out.len() == entries.len() && (forall|j: int|
        0 <= j < out.len() ==> (#[trigger] out[j]).0@ == entries[j].0@ && response_ok(
            entries[j].1,
            out[j].1,
        ))
}

fn decode_resp_map(entries: &Vec<(String, Value)>, pathk: &Vec<PathSeg>) -> (r: Result<
    Vec<(String, Response)>,
    DecodeError,
>)
    ensures
        match r {
            Ok(out) => resp_map_err(entries@, 0, pathk.deep_view()) is None && resp_map_ok(
                entries@,
                out@,
            ),
            Err(e) => resp_map_err(entries@, 0, pathk.deep_view()) == Some(e@),
        },
{
    let mut out: Vec<(String, Response)> = Vec::new();
    let mut i: usize = 0;
    while i < entries.len()
        invariant
            i <= entries@.len(),
            out@.len() == i,
            forall|j: int|
                0 <= j < i ==> (#[trigger] out@[j]).0@ == entries@[j].0@ && response_ok(
                    entries@[j].1,
                    out@[j].1,
                ),
            resp_map_err(entries@, 0, pathk.deep_view()) == resp_map_err(
                entries@,
                i as int,
                pathk.deep_view(),
            ),
        decreases entries@.len() - i,
    {
        match decode_response(&entries[i].1, &path_with_key(pathk, entries[i].0.as_str())) {
            Ok(resp) => {
                out.push((entries[i].0.clone(), resp));
            },
            Err(e) => {
                return Err(e);
            },
        }
        i += 1;
    }
    Ok(out)
}

/// The first decode error of the root `Spec` node, if any, in field order:
/// `swagger`, `info`, `host`, `basePath`, `schemes`, `consumes`,
/// `produces`, `paths`, `definitions`, `parameters`, `responses`, `tags`,
/// `externalDocs`. `swagger` and `info` are required.
/// The error of the required `info` field, if any.
pub open spec fn info_field_err(m: Seq<(String, Value)>, path: Seq<PathSegV>) -> Option<
    DecodeErrV,
> {
    match lookup(m, "info"@) {
        Option::None => Some(DecodeErrV::MissingField { entity: "Spec"@, field: "info"@ }),
        Option::Some(iv) => info_err(iv, path.push(PathSegV::Key("info"@))),
    }
}

/// The error of the optional `paths` field, if any; an absent `paths`
/// decodes to an empty path map.
pub open spec fn paths_field_err(m: Seq<(String, Value)>, path: Seq<PathSegV>) -> Option<
    DecodeErrV,
> {
    match lookup(m, "paths"@) {
        Option::None => None,
        Option::Some(pv) => match pv {
            Value::Mapping(pe) => path_item_map_err(pe@, 0, path.push(PathSegV::Key("paths"@))),
            _ => Some(node_mismatch(path.push(PathSegV::Key("paths"@)), "mapping"@, pv)),
        },
    }
}

/// The error of the optional `definitions` registry, if any.
pub open spec fn definitions_field_err(m: Seq<(String, Value)>, path: Seq<PathSegV>) -> Option<
    DecodeErrV,
> {
    match lookup(m, "definitions"@) {
        Option::None => None,
        Option::Some(dv) => match dv {
            Value::Mapping(de) => sor_map_err(de, 0, path.push(PathSegV::Key("definitions"@))),
            _ => Some(node_mismatch(path.push(PathSegV::Key("definitions"@)), "mapping"@, dv)),
        },
    }
}

/// The error of the optional `parameters` registry, if any.
pub open spec fn parameters_field_err(m: Seq<(String, Value)>, path: Seq<PathSegV>) -> Option<
    DecodeErrV,
> {
    match lookup(m, "parameters"@) {
        Option::None => None,
        Option::Some(pv) => match pv {
            Value::Mapping(pe) => param_map_err(pe@, 0, path.push(PathSegV::Key("parameters"@))),
            _ => Some(node_mismatch(path.push(PathSegV::Key("parameters"@)), "mapping"@, pv)),
        },
    }
}

/// The error of the optional `responses` registry, if any.
pub open spec fn responses_field_err(m: Seq<(String, Value)>, path: Seq<PathSegV>) -> Option<
    DecodeErrV,
> {
    match lookup(m, "responses"@) {
        Option::None => None,
        Option::Some(rv) => match rv {
            Value::Mapping(re) => resp_map_err(re@, 0, path.push(PathSegV::Key("responses"@))),
            _ => Some(node_mismatch(path.push(PathSegV::Key("responses"@)), "mapping"@, rv)),
        },
    }
}

/// The error of the optional `tags` sequence, if any.
pub open spec fn tags_field_err(m: Seq<(String, Value)>, path: Seq<PathSegV>) -> Option<
    DecodeErrV,
> {
    match lookup(m, "tags"@) {
        Option::None => None,
        Option::Some(tv) => match tv {
            Value::List(te) => tag_list_err(te@, 0, path.push(PathSegV::Key("tags"@))),
            _ => Some(node_mismatch(path.push(PathSegV::Key("tags"@)), "sequence"@, tv)),
        },
    }
}

/// The first decode error of the root `Spec` node, if any, in field order:
/// `swagger`, `info`, `host`, `basePath`, `schemes`, `consumes`,
/// `produces`, `paths`, `definitions`, `parameters`, `responses`, `tags`,
/// `externalDocs`. `swagger` and `info` are required.
pub open spec fn root_err(v: Value, path: Seq<PathSegV>) -> Option<DecodeErrV> {
    match v {
        Value::Mapping(entries) => {
            let m = entries@;
            first_of(req_str_err(m, "swagger"@, "Spec"@, path),
            first_of(info_field_err(m, path),
            first_of(opt_str_err(m, "host"@, path),
            first_of(opt_str_err(m, "basePath"@, path),
            first_of(opt_str_list_err(m, "schemes"@, path),
            first_of(opt_str_list_err(m, "consumes"@, path),
            first_of(opt_str_list_err(m, "produces"@, path),
            first_of(paths_field_err(m, path),
            first_of(definitions_field_err(m, path),
            first_of(parameters_field_err(m, path),
            first_of(responses_field_err(m, path),
            first_of(tags_field_err(m, path),
                opt_external_docs_err(m, path)))))))))))))
        },
        _ => Some(node_mismatch(path, "mapping"@, v)),
    }
}

/// The decoded `Spec`'s fields, pinned. The wire key `basePath` fills the
/// `base_path` field; absent registries decode to empty ones.
pub open spec fn root_ok(v: Value, s: Spec) -> bool {
    v matches Value::Mapping(entries) && {
        let m = entries@;
        &&& s.swagger@ == str_at(m, "swagger"@)
        &&& (match lookup(m, "info"@) {
            Option::Some(iv) => info_ok(iv, s.info),
            Option::None => false,
        })
        &&& s.host.deep_view() == opt_str_of(m, "host"@)
        &&& s.base_path.deep_view() == opt_str_of(m, "basePath"@)
        &&& s.schemes.deep_view() == opt_str_list_of(m, "schemes"@)
        &&& s.consumes.deep_view() == opt_str_list_of(m, "consumes"@)
        &&& s.produces.deep_view() == opt_str_list_of(m, "produces"@)
        &&& (match lookup(m, "paths"@) {
            Option::Some(pv) => pv matches Value::Mapping(pe) && path_item_map_ok(pe@, s.paths@),
            Option::None => s.paths@ == Seq::<(String, PathItem)>::empty(),
        })
        &&& (match lookup(m, "definitions"@) {
            Option::None => s.definitions@ == Seq::<(String, SchemaOrRef)>::empty(),
            Option::Some(dv) => dv matches Value::Mapping(de) && sor_map_ok(de, s.definitions@),
        })
        &&& (match lookup(m, "parameters"@) {
            Option::None => s.parameters@ == Seq::<(String, Parameter)>::empty(),
            Option::Some(pv) => pv matches Value::Mapping(pe) && param_map_ok(pe@, s.parameters@),
        })
        &&& (match lookup(m, "responses"@) {
            Option::None => s.responses@ == Seq::<(String, Response)>::empty(),
            Option::Some(rv) => rv matches Value::Mapping(re) && resp_map_ok(re@, s.responses@),
        })
        &&& (match lookup(m, "tags"@) {
            Option::None => s.tags is None,
            Option::Some(tv) => tv matches Value::List(te) && s.tags matches Some(ts)
                && tag_list_ok(te@, ts@),
        })
        &&& opt_external_docs_ok(m, s.external_docs)
    }
}

/// Decodes a `Spec` from a mapping; `swagger` and `info` are required and
/// every other field is optional.
pub fn decode_spec(v: &Value, path: &Vec<PathSeg>) -> (r: Result<Spec, DecodeError>)
    ensures
        match r {
            Ok(s) => root_err(*v, path.deep_view()) is None && root_ok(*v, s),
            Err(e) => root_err(*v, path.deep_view()) == Some(e@),
        },
{
    match v {
        Value::Mapping(m) => {
            let swagger = req_string(m, "swagger", "Spec", path)?;
            let info = match get(m, "info") {
                Option::None => {
                    return Err(
                        DecodeError::MissingField {
                            entity: String::from_str("Spec"),
                            field: String::from_str("info"),
                        },
                    );
                },
                Option::Some(iv) => decode_info(iv, &path_with_key(path, "info"))?,
            };
            let host = opt_string(m, "host", path)?;
            let base_path = opt_string(m, "basePath", path)?;
            let schemes = opt_string_list(m, "schemes", path)?;
            let consumes = opt_string_list(m, "consumes", path)?;
            let produces = opt_string_list(m, "produces", path)?;
            let paths = match get(m, "paths") {
                Option::None => Vec::new(),
                Option::Some(pv) => match pv {
                    Value::Mapping(pe) => decode_path_item_map(pe, &path_with_key(path, "paths"))?,
                    _ => {
                        return Err(mismatch_at_key(path, "paths", "mapping", pv));
                    },
                },
            };
            let definitions = match get(m, "definitions") {
                Option::None => Vec::new(),
                Option::Some(dv) => match dv {
                    Value::Mapping(de) => decode_sor_map(de, &path_with_key(path, "definitions"))?,
                    _ => {
                        return Err(mismatch_at_key(path, "definitions", "mapping", dv));
                    },
                },
            };
            let parameters = match get(m, "parameters") {
                Option::None => Vec::new(),
                Option::Some(pv) => match pv {
                    Value::Mapping(pe) => decode_param_map(pe, &path_with_key(path, "parameters"))?,
                    _ => {
                        return Err(mismatch_at_key(path, "parameters", "mapping", pv));
                    },
                },
            };
            let responses = match get(m, "responses") {
                Option::None => Vec::new(),
                Option::Some(rv) => match rv {
                    Value::Mapping(re) => decode_resp_map(re, &path_with_key(path, "responses"))?,
                    _ => {
                        return Err(mismatch_at_key(path, "responses", "mapping", rv));
                    },
                },
            };
            let tags = match get(m, "tags") {
                Option::None => None,
                Option::Some(tv) => match tv {
                    Value::List(te) => Some(decode_tag_list(te, &path_with_key(path, "tags"))?),
                    _ => {
                        return Err(mismatch_at_key(path, "tags", "sequence", tv));
                    },
                },
            };
            let external_docs = decode_opt_external_docs(m, path)?;
            Ok(
                Spec {
                    swagger,
                    info,
                    host,
                    base_path,
                    schemes,
                    consumes,
                    produces,
                    paths,
                    definitions,
                    parameters,
                    responses,
                    tags,
                    external_docs,
                },
            )
        },
        _ => Err(mismatch_here(path, "mapping", v)),
    }
}

/// The single decode entry point: turns a generic structured-data tree
/// into a `Spec`, or fails with the first structural error, whose path
/// starts at the document root.
pub fn decode(v: &Value) -> (r: Result<Spec, DecodeError>)
    ensures
        match r {
            Ok(s) => root_err(*v, Seq::empty()) is None && root_ok(*v, s),
            Err(e) => root_err(*v, Seq::empty()) == Some(e@),
        },
{
    let root: Vec<PathSeg> = Vec::new();
    proof {
        assert(root.deep_view() =~= Seq::<PathSegV>::empty());
    }
    decode_spec(v, &root)
}

} // verus!
