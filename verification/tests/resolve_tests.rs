use openapi_parser::decode::decode;
use openapi_parser::errors::{PathSeg, ResolutionError};
use openapi_parser::resolve::{parse_pointer, resolve, resolve_pointer, Registry, Target};
use openapi_parser::value::Value;

fn txt_r(s: &str) -> Value {
    Value::Text(s.to_string())
}

fn map_r(entries: Vec<(&str, Value)>) -> Value {
    Value::Mapping(entries.into_iter().map(|(k, v)| (k.to_string(), v)).collect())
}

fn doc_with_definitions(defs: Vec<(&str, Value)>) -> Value {
    map_r(vec![
        ("swagger", txt_r("2.0")),
        ("info", map_r(vec![("title", txt_r("T")), ("version", txt_r("1"))])),
        ("definitions", map_r(defs)),
    ])
}

#[test]
fn parse_pointer_supported_forms() {
    assert_eq!(
        parse_pointer("#/definitions/Pet"),
        Some((Registry::Definitions, "Pet".to_string()))
    );
    assert_eq!(
        parse_pointer("#/parameters/limit"),
        Some((Registry::Parameters, "limit".to_string()))
    );
    assert_eq!(
        parse_pointer("#/responses/NotFound"),
        Some((Registry::Responses, "NotFound".to_string()))
    );
    assert_eq!(parse_pointer("other.yaml#/definitions/Pet"), None);
    assert_eq!(parse_pointer("#/unknown/Pet"), None);
}

#[test]
fn resolution_yields_shared_registry_target() {
    let doc = doc_with_definitions(vec![("Pet", map_r(vec![("type", txt_r("object"))]))]);
    let spec = decode(&doc).unwrap();
    let first = match resolve_pointer(&spec, "#/definitions/Pet") {
        Ok(Target::Definition(sor)) => sor,
        other => panic!("expected a definition target, got {:?}", other),
    };
    assert_eq!(first, &spec.definitions[0].1);
    let second = match resolve_pointer(&spec, "#/definitions/Pet") {
        Ok(Target::Definition(sor)) => sor,
        other => panic!("expected a definition target, got {:?}", other),
    };
    assert_eq!(first, second);
}

#[test]
fn dangling_pointer_names_missing_key() {
    let doc = doc_with_definitions(vec![("Pet", map_r(vec![("type", txt_r("object"))]))]);
    let spec = decode(&doc).unwrap();
    assert_eq!(
        resolve_pointer(&spec, "#/definitions/Missing"),
        Err(ResolutionError::DanglingReference {
            pointer: "#/definitions/Missing".to_string(),
            location: vec![],
        })
    );
}

#[test]
fn unsupported_pointer_is_refused() {
    let doc = doc_with_definitions(vec![]);
    let spec = decode(&doc).unwrap();
    assert_eq!(
        resolve_pointer(&spec, "http://elsewhere#/definitions/Pet"),
        Err(ResolutionError::UnsupportedReference {
            pointer: "http://elsewhere#/definitions/Pet".to_string(),
        })
    );
}

#[test]
fn self_referential_definition_is_cyclic() {
    let doc = doc_with_definitions(vec![(
        "Pet",
        map_r(vec![("$ref", txt_r("#/definitions/Pet"))]),
    )]);
    let spec = decode(&doc).unwrap();
    assert_eq!(
        resolve(spec),
        Err(ResolutionError::CyclicReference {
            chain: vec!["#/definitions/Pet".to_string(), "#/definitions/Pet".to_string()],
        })
    );
}

#[test]
fn nested_self_reference_is_cyclic() {
    let doc = doc_with_definitions(vec![(
        "Pet",
        map_r(vec![
            ("type", txt_r("array")),
            ("items", map_r(vec![("$ref", txt_r("#/definitions/Pet"))])),
        ]),
    )]);
    let spec = decode(&doc).unwrap();
    match resolve(spec) {
        Err(ResolutionError::CyclicReference { chain }) => {
            assert_eq!(
                chain,
                vec!["#/definitions/Pet".to_string(), "#/definitions/Pet".to_string()]
            );
        },
        other => panic!("expected a cyclic reference, got {:?}", other),
    }
}

#[test]
fn reference_chains_are_followed_without_false_cycles() {
    let doc = doc_with_definitions(vec![
        ("A", map_r(vec![("$ref", txt_r("#/definitions/B"))])),
        ("B", map_r(vec![("type", txt_r("string"))])),
    ]);
    let spec = decode(&doc).unwrap();
    let resolved = resolve(spec).expect("an acyclic chain resolves");
    assert_eq!(resolved.spec.definitions.len(), 2);
}

#[test]
fn dangling_inside_definition_names_its_location() {
    let doc = doc_with_definitions(vec![(
        "A",
        map_r(vec![
            ("type", txt_r("array")),
            ("items", map_r(vec![("$ref", txt_r("#/definitions/Missing"))])),
        ]),
    )]);
    let spec = decode(&doc).unwrap();
    assert_eq!(
        resolve(spec),
        Err(ResolutionError::DanglingReference {
            pointer: "#/definitions/Missing".to_string(),
            location: vec![
                PathSeg::Key("definitions".to_string()),
                PathSeg::Key("A".to_string()),
            ],
        })
    );
}

#[test]
fn references_under_paths_resolve_end_to_end() {
    let doc = map_r(vec![
        ("swagger", txt_r("2.0")),
        ("info", map_r(vec![("title", txt_r("T")), ("version", txt_r("1"))])),
        ("definitions", map_r(vec![("Pet", map_r(vec![("type", txt_r("object"))]))])),
        (
            "paths",
            map_r(vec![(
                "/pets",
                map_r(vec![(
                    "get",
                    map_r(vec![(
                        "responses",
                        map_r(vec![(
                            "200",
                            map_r(vec![
                                ("description", txt_r("ok")),
                                ("schema", map_r(vec![("$ref", txt_r("#/definitions/Pet"))])),
                            ]),
                        )]),
                    )]),
                )]),
            )]),
        ),
    ]);
    let spec = decode(&doc).unwrap();
    let swagger_before = spec.swagger.clone();
    let resolved = resolve(spec).expect("all pointers resolve");
    assert_eq!(resolved.spec.swagger, swagger_before);
    assert_eq!(resolved.spec.paths.len(), 1);
}

#[test]
fn dangling_under_paths_is_reported() {
    let doc = map_r(vec![
        ("swagger", txt_r("2.0")),
        ("info", map_r(vec![("title", txt_r("T")), ("version", txt_r("1"))])),
        (
            "paths",
            map_r(vec![(
                "/pets",
                map_r(vec![(
                    "get",
                    map_r(vec![(
                        "responses",
                        map_r(vec![(
                            "200",
                            map_r(vec![
                                ("description", txt_r("ok")),
                                ("schema", map_r(vec![("$ref", txt_r("#/definitions/Pet"))])),
                            ]),
                        )]),
                    )]),
                )]),
            )]),
        ),
    ]);
    let spec = decode(&doc).unwrap();
    assert_eq!(
        resolve(spec),
        Err(ResolutionError::DanglingReference {
            pointer: "#/definitions/Pet".to_string(),
            location: vec![
                PathSeg::Key("paths".to_string()),
                PathSeg::Key("/pets".to_string()),
            ],
        })
    );
}
