use openapi_parser::decode::{decode, decode_header, decode_items, decode_parameter,
    decode_schema_or_ref};
use openapi_parser::errors::{DecodeError, PathSeg};
use openapi_parser::model::{Contact, ExternalDocs, Header, Info, License, Operation, Parameter,
    ParameterOrRef, PathItem, Response, ResponseOrRef, SchemaOrRef, Spec, Tag};
use openapi_parser::value::Value;

fn txt(s: &str) -> Value {
    Value::Text(s.to_string())
}

fn map_v(entries: Vec<(&str, Value)>) -> Value {
    Value::Mapping(entries.into_iter().map(|(k, v)| (k.to_string(), v)).collect())
}

fn list_v(items: Vec<Value>) -> Value {
    Value::List(items)
}

fn minimal_info_doc() -> Value {
    map_v(vec![
        ("swagger", txt("2.0")),
        ("info", map_v(vec![("title", txt("Hello")), ("version", txt("2.0"))])),
    ])
}

#[test]
fn minimal_info_deserialize() {
    assert_eq!(
        decode(&minimal_info_doc()),
        Ok(Spec {
            swagger: "2.0".to_string(),
            info: Info {
                title: "Hello".to_string(),
                version: "2.0".to_string(),
                ..Default::default()
            },
            ..Default::default()
        })
    )
}

#[test]
fn info_deserialize() {
    let doc = map_v(vec![
        ("swagger", txt("2.0")),
        ("host", txt("localhost:8080")),
        ("basePath", txt("/api/")),
        ("schemes", list_v(vec![txt("http"), txt("https"), txt("ws")])),
        ("consumes", list_v(vec![txt("application/json"), txt("text/plain; charset=utf-8")])),
        ("produces", list_v(vec![txt("application/json")])),
        (
            "info",
            map_v(vec![
                ("title", txt("Test Title")),
                ("description", txt("A test API")),
                ("termsOfService", txt("Example terms")),
                (
                    "contact",
                    map_v(vec![
                        ("name", txt("John Doe")),
                        ("url", txt("https://johndoe.com")),
                        ("email", txt("john@doe.com")),
                    ]),
                ),
                ("license", map_v(vec![("name", txt("MIT")), ("url", txt("https://mit.com"))])),
                ("version", txt("1.0")),
            ]),
        ),
        (
            "tags",
            list_v(vec![
                map_v(vec![
                    ("name", txt("Tag1")),
                    ("description", txt("Tag1 desc")),
                    (
                        "externalDocs",
                        map_v(vec![
                            ("description", txt("Tag1 extern docs desc")),
                            ("url", txt("https://tag1.com")),
                        ]),
                    ),
                ]),
                map_v(vec![("name", txt("Tag2")), ("description", txt("Tag2 desc"))]),
            ]),
        ),
        (
            "externalDocs",
            map_v(vec![("description", txt("External docs desc")), ("url", txt("https://swagger.io"))]),
        ),
    ]);
    assert_eq!(
        decode(&doc),
        Ok(Spec {
            swagger: "2.0".to_string(),
            host: Some("localhost:8080".to_string()),
            base_path: Some("/api/".to_string()),
            schemes: Some(vec!["http".to_string(), "https".to_string(), "ws".to_string()]),
            consumes: Some(vec![
                "application/json".to_string(),
                "text/plain; charset=utf-8".to_string(),
            ]),
            produces: Some(vec!["application/json".to_string()]),
            info: Info {
                title: "Test Title".to_string(),
                description: Some("A test API".to_string()),
                terms_of_service: Some("Example terms".to_string()),
                contact: Some(Contact {
                    name: Some("John Doe".to_string()),
                    url: Some("https://johndoe.com".to_string()),
                    email: Some("john@doe.com".to_string()),
                }),
                license: Some(License {
                    name: "MIT".to_string(),
                    url: Some("https://mit.com".to_string()),
                }),
                version: "1.0".to_string(),
            },
            tags: Some(vec![
                Tag {
                    name: "Tag1".to_string(),
                    description: Some("Tag1 desc".to_string()),
                    external_docs: Some(ExternalDocs {
                        description: Some("Tag1 extern docs desc".to_string()),
                        url: "https://tag1.com".to_string(),
                    }),
                },
                Tag {
                    name: "Tag2".to_string(),
                    description: Some("Tag2 desc".to_string()),
                    external_docs: None,
                },
            ]),
            external_docs: Some(ExternalDocs {
                description: Some("External docs desc".to_string()),
                url: "https://swagger.io".to_string(),
            }),
            ..Default::default()
        })
    )
}

#[test]
fn minimal_paths_deserialize() {
    let doc = map_v(vec![
        ("swagger", txt("2.0")),
        ("info", map_v(vec![("title", txt("Test Title")), ("version", txt("1.0"))])),
        (
            "paths",
            map_v(vec![(
                "/campaigns",
                map_v(vec![(
                    "get",
                    map_v(vec![
                        ("tags", list_v(vec![txt("fetch"), txt("data"), txt("rest")])),
                        ("summary", txt("A short summary of this operation")),
                        ("description", txt("A short description of this operation")),
                        (
                            "externalDocs",
                            map_v(vec![
                                ("description", txt("External docs desc")),
                                ("url", txt("https://swagger.io")),
                            ]),
                        ),
                        ("operationId", txt("getData")),
                        (
                            "consumes",
                            list_v(vec![txt("application/json"), txt("text/plain; charset=utf-8")]),
                        ),
                        ("produces", list_v(vec![txt("application/json")])),
                        (
                            "parameters",
                            list_v(vec![map_v(vec![
                                ("name", txt("param1")),
                                ("in", txt("query")),
                                ("description", txt("Description of param1")),
                                ("required", Value::Bool(true)),
                                ("type", txt("string")),
                                ("format", txt("email")),
                            ])]),
                        ),
                        ("responses", map_v(vec![])),
                    ]),
                )]),
            )]),
        ),
    ]);
    let path_map = vec![(
        "/campaigns".to_string(),
        PathItem {
            get: Some(Operation {
                tags: Some(vec!["fetch".to_string(), "data".to_string(), "rest".to_string()]),
                summary: Some("A short summary of this operation".to_string()),
                description: Some("A short description of this operation".to_string()),
                external_docs: Some(ExternalDocs {
                    description: Some("External docs desc".to_string()),
                    url: "https://swagger.io".to_string(),
                }),
                operation_id: Some("getData".to_string()),
                consumes: Some(vec![
                    "application/json".to_string(),
                    "text/plain; charset=utf-8".to_string(),
                ]),
                produces: Some(vec!["application/json".to_string()]),
                parameters: Some(vec![ParameterOrRef::Inline(Parameter {
                    name: "param1".to_string(),
                    in_loc: "query".to_string(),
                    description: Some("Description of param1".to_string()),
                    required: Some(true),
                    param_type: Some("string".to_string()),
                    format: Some("email".to_string()),
                    schema: None,
                })]),
                ..Default::default()
            }),
            ..Default::default()
        },
    )];
    assert_eq!(
        decode(&doc),
        Ok(Spec {
            swagger: "2.0".to_string(),
            info: Info {
                title: "Test Title".to_string(),
                version: "1.0".to_string(),
                ..Default::default()
            },
            paths: path_map,
            ..Default::default()
        })
    )
}

#[test]
fn minimal_response_deserialize() {
    let doc = map_v(vec![
        ("swagger", txt("2.0")),
        ("info", map_v(vec![("title", txt("Test Title")), ("version", txt("1.0"))])),
        (
            "paths",
            map_v(vec![(
                "/campaigns",
                map_v(vec![(
                    "get",
                    map_v(vec![(
                        "responses",
                        map_v(vec![(
                            "200",
                            map_v(vec![
                                ("description", txt("Get a list of campaigns")),
                                (
                                    "headers",
                                    map_v(vec![(
                                        "X-Rate-Limit-Limit",
                                        map_v(vec![
                                            ("type", txt("integer")),
                                            (
                                                "description",
                                                txt("The number of allowed requests in a period"),
                                            ),
                                            ("minimum", Value::Int(0)),
                                            ("maximum", Value::Int(300)),
                                        ]),
                                    )]),
                                ),
                            ]),
                        )]),
                    )]),
                )]),
            )]),
        ),
    ]);
    let spec = decode(&doc).expect("Failed to deserialize Spec");
    let (_, item) = spec
        .paths
        .into_iter()
        .find(|(k, _)| k == "/campaigns")
        .expect("No '/campaigns' path");
    let op = item.get.expect("No 'get' operation on path");
    let (_, ror) = op
        .responses
        .into_iter()
        .find(|(k, _)| k == "200")
        .expect("No '200' reponse on operation");
    let result = match ror {
        ResponseOrRef::Inline(r) => r,
        ResponseOrRef::Reference(_) => panic!("expected an inline response"),
    };
    let mut headers = Vec::new();
    headers.push((
        "X-Rate-Limit-Limit".to_string(),
        Header {
            header_type: "integer".to_string(),
            description: Some("The number of allowed requests in a period".to_string()),
            minimum: Some(0),
            maximum: Some(300),
            ..Default::default()
        },
    ));
    assert_eq!(
        result,
        Response {
            description: "Get a list of campaigns".to_string(),
            headers: Some(headers),
            ..Default::default()
        }
    )
}

#[test]
fn base_path_key_populates_base_path_field() {
    let doc = map_v(vec![
        ("swagger", txt("2.0")),
        ("info", map_v(vec![("title", txt("T")), ("version", txt("1"))])),
        ("basePath", txt("/api/v1")),
    ]);
    let spec = decode(&doc).unwrap();
    assert_eq!(spec.base_path, Some("/api/v1".to_string()));
}

#[test]
fn ref_and_in_keys_decode_exactly() {
    let item = map_v(vec![("$ref", txt("#/definitions/Common"))]);
    let doc = map_v(vec![
        ("swagger", txt("2.0")),
        ("info", map_v(vec![("title", txt("T")), ("version", txt("1"))])),
        ("paths", map_v(vec![("/a", item)])),
    ]);
    let spec = decode(&doc).unwrap();
    assert_eq!(spec.paths[0].1.ref_path, Some("#/definitions/Common".to_string()));
    assert_eq!(spec.paths[0].1.get, None);

    let pv = map_v(vec![("name", txt("p")), ("in", txt("header")), ("type", txt("string"))]);
    let p = decode_parameter(&pv, &Vec::new()).unwrap();
    assert_eq!(p.in_loc, "header".to_string());
}

#[test]
fn header_constraints_exactly_populated() {
    let hv = map_v(vec![
        ("type", txt("integer")),
        ("minimum", Value::Int(0)),
        ("maximum", Value::Int(300)),
    ]);
    let h = decode_header(&hv, &Vec::new()).unwrap();
    assert_eq!(
        h,
        Header {
            header_type: "integer".to_string(),
            minimum: Some(0),
            maximum: Some(300),
            ..Default::default()
        }
    );
}

#[test]
fn parameter_missing_name_fails() {
    let pv = map_v(vec![("in", txt("query")), ("type", txt("string"))]);
    assert_eq!(
        decode_parameter(&pv, &Vec::new()),
        Err(DecodeError::MissingField {
            entity: "Parameter".to_string(),
            field: "name".to_string(),
        })
    );
}

#[test]
fn type_mismatch_carries_path_from_root() {
    let doc = map_v(vec![("swagger", Value::Int(7))]);
    assert_eq!(
        decode(&doc),
        Err(DecodeError::TypeMismatch {
            path: vec![PathSeg::Key("swagger".to_string())],
            expected: "string".to_string(),
            found: "integer".to_string(),
        })
    );
}

#[test]
fn nested_type_mismatch_carries_full_path() {
    let doc = map_v(vec![
        ("swagger", txt("2.0")),
        (
            "info",
            map_v(vec![
                ("title", txt("T")),
                ("version", txt("1")),
                ("license", txt("MIT")),
            ]),
        ),
    ]);
    assert_eq!(
        decode(&doc),
        Err(DecodeError::TypeMismatch {
            path: vec![
                PathSeg::Key("info".to_string()),
                PathSeg::Key("license".to_string()),
            ],
            expected: "mapping".to_string(),
            found: "string".to_string(),
        })
    );
}

#[test]
fn integer_out_of_range_is_reported() {
    let hv = map_v(vec![("type", txt("integer")), ("maximum", Value::Int(99_999_999_999))]);
    assert_eq!(
        decode_header(&hv, &Vec::new()),
        Err(DecodeError::TypeMismatch {
            path: vec![PathSeg::Key("maximum".to_string())],
            expected: "integer".to_string(),
            found: "integer out of range".to_string(),
        })
    );
}

#[test]
fn operation_requires_responses() {
    let doc = map_v(vec![
        ("swagger", txt("2.0")),
        ("info", map_v(vec![("title", txt("T")), ("version", txt("1"))])),
        ("paths", map_v(vec![("/a", map_v(vec![("get", map_v(vec![]))]))])),
    ]);
    assert_eq!(
        decode(&doc),
        Err(DecodeError::MissingField {
            entity: "Operation".to_string(),
            field: "responses".to_string(),
        })
    );
}

#[test]
fn string_list_element_mismatch_names_index() {
    let doc = map_v(vec![
        ("swagger", txt("2.0")),
        ("info", map_v(vec![("title", txt("T")), ("version", txt("1"))])),
        ("schemes", list_v(vec![txt("http"), Value::Int(5)])),
    ]);
    assert_eq!(
        decode(&doc),
        Err(DecodeError::TypeMismatch {
            path: vec![PathSeg::Key("schemes".to_string()), PathSeg::Index(1)],
            expected: "string".to_string(),
            found: "integer".to_string(),
        })
    );
}

#[test]
fn ref_siblings_are_ignored() {
    let sv = map_v(vec![("$ref", txt("#/definitions/Pet")), ("type", txt("object"))]);
    assert_eq!(
        decode_schema_or_ref(&sv, &Vec::new()),
        Ok(SchemaOrRef::Reference("#/definitions/Pet".to_string()))
    );
}

#[test]
fn body_parameter_carries_schema() {
    let pv = map_v(vec![
        ("name", txt("payload")),
        ("in", txt("body")),
        ("schema", map_v(vec![("$ref", txt("#/definitions/Pet"))])),
    ]);
    let p = decode_parameter(&pv, &Vec::new()).unwrap();
    assert_eq!(p.schema, Some(SchemaOrRef::Reference("#/definitions/Pet".to_string())));
    assert_eq!(p.param_type, None);

    let missing = map_v(vec![("name", txt("payload")), ("in", txt("body"))]);
    assert_eq!(
        decode_parameter(&missing, &Vec::new()),
        Err(DecodeError::MissingField {
            entity: "Parameter".to_string(),
            field: "schema".to_string(),
        })
    );
}

#[test]
fn minimal_mappings_leave_optional_fields_default() {
    let it = decode_items(&map_v(vec![("type", txt("string"))]), &Vec::new()).unwrap();
    assert_eq!(it, openapi_parser::model::Items {
        item_type: "string".to_string(),
        ..Default::default()
    });
    let h = decode_header(&map_v(vec![("type", txt("integer"))]), &Vec::new()).unwrap();
    assert_eq!(h, Header { header_type: "integer".to_string(), ..Default::default() });
    let p = decode_parameter(
        &map_v(vec![("name", txt("q")), ("in", txt("query")), ("type", txt("string"))]),
        &Vec::new(),
    )
    .unwrap();
    assert_eq!(p, Parameter {
        name: "q".to_string(),
        in_loc: "query".to_string(),
        param_type: Some("string".to_string()),
        ..Default::default()
    });
}

#[test]
fn items_decode_recursively() {
    let iv = map_v(vec![
        ("type", txt("array")),
        ("items", map_v(vec![("type", txt("string")), ("maxLength", Value::Int(10))])),
    ]);
    let it = decode_items(&iv, &Vec::new()).unwrap();
    assert_eq!(it.item_type, "array".to_string());
    let inner = it.items.expect("nested items");
    assert_eq!(inner.item_type, "string".to_string());
    assert_eq!(inner.max_length, Some(10));
}
