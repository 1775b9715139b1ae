use elasticsearch::action::Do;
use elasticsearch::body::{BodyLine, BodyLiteral};
use elasticsearch::call::{ApiCall, PartsLiteral};
use elasticsearch::coerce::coerce;
use elasticsearch::error::CallError;
use elasticsearch::literal::{EnumLiteral, Literal};
use elasticsearch::raw::RawValue;
use elasticsearch::schema::{Api, BodyContract, DeclaredType, Endpoint, Param, UrlTemplate};

fn s(x: &str) -> String {
    x.to_string()
}

fn param(name: &str, ty: DeclaredType) -> Param {
    Param { name: s(name), ty }
}

fn template(names: &[&str]) -> UrlTemplate {
    UrlTemplate { params: names.iter().map(|n| param(n, DeclaredType::Str)).collect() }
}

fn wildcard_options() -> Vec<String> {
    vec![s("open"), s("closed"), s("hidden"), s("all")]
}

fn schema() -> Api {
    Api {
        endpoints: vec![
            Endpoint {
                name: s("get"),
                templates: vec![template(&["index", "id"])],
                params: vec![param("refresh", DeclaredType::Enum(vec![s("true"), s("false"), s("wait_for")]))],
                body: None,
            },
            Endpoint {
                name: s("indices.get_mapping"),
                templates: vec![template(&[]), template(&["index"]), template(&["index", "type"])],
                params: vec![
                    param("expand_wildcards", DeclaredType::Enum(wildcard_options())),
                    param("local", DeclaredType::Boolean),
                ],
                body: None,
            },
            Endpoint {
                name: s("bulk"),
                templates: vec![template(&[]), template(&["index"])],
                params: vec![param("timeout", DeclaredType::Str)],
                body: Some(BodyContract::Multi),
            },
            Endpoint {
                name: s("cluster.health"),
                templates: vec![template(&[])],
                params: vec![param("wait_for_nodes", DeclaredType::Integer)],
                body: None,
            },
        ],
        common_params: vec![param("human", DeclaredType::Boolean), param("size", DeclaredType::Long)],
    }
}

fn args(entries: Vec<(&str, RawValue)>) -> Vec<(String, RawValue)> {
    entries.into_iter().map(|(k, v)| (s(k), v)).collect()
}

fn call(name: &str, entries: Vec<(&str, RawValue)>) -> Result<ApiCall, Vec<CallError>> {
    let api = schema();
    let ep = api.endpoint_for_api_call(name).unwrap();
    ApiCall::try_from(&api, ep, &args(entries))
}

fn doc(pairs: Vec<(&str, RawValue)>) -> RawValue {
    RawValue::Hash(args(pairs))
}

fn enum_lit(e: &str, v: &str) -> EnumLiteral {
    EnumLiteral { enum_name: s(e), variant: s(v) }
}

#[test]
fn single_template_parts_follow_template_order() {
    let c = call("get", vec![("id", RawValue::Str(s("1"))), ("index", RawValue::Str(s("a")))]).unwrap();
    assert_eq!(
        c.parts,
        Some(PartsLiteral {
            enum_name: s("GetParts"),
            variant: s("IndexId"),
            values: vec![Literal::Str(s("a")), Literal::Str(s("1"))],
        })
    );
    assert_eq!(c.namespace, None);
    assert_eq!(c.function, s("get"));
}

#[test]
fn single_template_missing_part_fails() {
    let e = call("get", vec![("index", RawValue::Str(s("a")))]).unwrap_err();
    assert_eq!(
        e,
        vec![CallError::AmbiguousOrMissingTemplate { operation: s("get"), parts: vec![s("index")] }]
    );
}

#[test]
fn multi_template_selects_matching_variant() {
    let c = call(
        "indices.get_mapping",
        vec![("type", RawValue::Str(s("t"))), ("index", RawValue::Str(s("x")))],
    )
    .unwrap();
    let p = c.parts.unwrap();
    assert_eq!(p.enum_name, s("IndicesGetMappingParts"));
    assert_eq!(p.variant, s("IndexType"));
    assert_eq!(p.values, vec![Literal::Str(s("x")), Literal::Str(s("t"))]);
    assert_eq!(c.namespace, Some(s("indices")));
    assert_eq!(c.function, s("get_mapping"));

    let c = call("indices.get_mapping", vec![("index", RawValue::Str(s("x")))]).unwrap();
    assert_eq!(c.parts.unwrap().variant, s("Index"));
}

#[test]
fn multi_template_without_parts_selects_empty_variant() {
    let c = call("indices.get_mapping", vec![]).unwrap();
    let p = c.parts.unwrap();
    assert_eq!(p.variant, s("None"));
    assert!(p.values.is_empty());
}

#[test]
fn single_template_without_parts_has_no_selector() {
    let c = call("cluster.health", vec![]).unwrap();
    assert_eq!(c.parts, None);
    assert_eq!(c.namespace, Some(s("cluster")));
    assert_eq!(c.function, s("health"));
}

#[test]
fn unmatched_name_set_fails_with_missing_template() {
    let e = call("indices.get_mapping", vec![("name", RawValue::Str(s("n")))]).unwrap_err();
    assert_eq!(
        e,
        vec![
            CallError::AmbiguousOrMissingTemplate {
                operation: s("indices.get_mapping"),
                parts: vec![s("name")],
            },
            CallError::UnresolvedArgument(s("name")),
        ]
    );
}

#[test]
fn ambiguous_templates_are_an_error() {
    let api = Api {
        endpoints: vec![Endpoint {
            name: s("x"),
            templates: vec![template(&["a", "b"]), template(&["b", "a"])],
            params: vec![],
            body: None,
        }],
        common_params: vec![],
    };
    let r = ApiCall::try_from(
        &api,
        &api.endpoints[0],
        &args(vec![("a", RawValue::Str(s("1"))), ("b", RawValue::Str(s("2")))]),
    );
    assert_eq!(
        r.unwrap_err(),
        vec![CallError::AmbiguousOrMissingTemplate { operation: s("x"), parts: vec![s("a"), s("b")] }]
    );
}

#[test]
fn enum_option_outside_set_fails() {
    let r = coerce("refresh", &RawValue::Str(s("sometimes")), &DeclaredType::Enum(vec![s("true"), s("false")]));
    assert_eq!(
        r.unwrap_err(),
        vec![CallError::EnumValidationFailure {
            options: vec![s("true"), s("false")],
            value: s("sometimes"),
        }]
    );
}

#[test]
fn enum_option_inside_set_gives_variant() {
    let r = coerce("level", &RawValue::Str(s("indices")), &DeclaredType::Enum(vec![s("cluster"), s("indices")]));
    assert_eq!(r.unwrap(), Literal::Enum(enum_lit("Level", "Indices")));
}

#[test]
fn enum_empty_value_defaults() {
    let opts = DeclaredType::Enum(vec![s("true")]);
    assert_eq!(coerce("refresh", &RawValue::Str(s("")), &opts).unwrap(), Literal::Enum(enum_lit("Refresh", "True")));
    assert_eq!(coerce("size", &RawValue::Str(s("")), &opts).unwrap(), Literal::Enum(enum_lit("Size", "Unspecified")));
    assert_eq!(
        coerce("level", &RawValue::Str(s("")), &opts).unwrap_err(),
        vec![CallError::TypeCoercionFailure(s("level"))]
    );
}

#[test]
fn enum_from_boolean() {
    let r = coerce("refresh", &RawValue::Bool(true), &DeclaredType::Enum(vec![s("true")]));
    assert_eq!(r.unwrap(), Literal::Enum(enum_lit("Refresh", "True")));
}

#[test]
fn string_to_integer_and_integer_to_string() {
    assert_eq!(coerce("size", &RawValue::Str(s("42")), &DeclaredType::Integer).unwrap(), Literal::Int(42));
    assert_eq!(coerce("name", &RawValue::Int(42), &DeclaredType::Str).unwrap(), Literal::Str(s("42")));
    assert_eq!(coerce("name", &RawValue::Int(-7), &DeclaredType::Str).unwrap(), Literal::Str(s("-7")));
}

#[test]
fn integer_parsing_limits() {
    assert_eq!(coerce("n", &RawValue::Str(s("-2147483648")), &DeclaredType::Integer).unwrap(), Literal::Int(-2147483648));
    assert_eq!(
        coerce("n", &RawValue::Str(s("2147483648")), &DeclaredType::Number).unwrap_err(),
        vec![CallError::TypeCoercionFailure(s("n"))]
    );
    assert_eq!(coerce("n", &RawValue::Str(s("2147483648")), &DeclaredType::Long).unwrap(), Literal::Int(2147483648));
    assert_eq!(coerce("n", &RawValue::Str(s("+15")), &DeclaredType::Long).unwrap(), Literal::Int(15));
    assert!(coerce("n", &RawValue::Str(s("1x")), &DeclaredType::Integer).is_err());
    assert!(coerce("n", &RawValue::Str(s("")), &DeclaredType::Integer).is_err());
    assert!(coerce("n", &RawValue::Str(s("-")), &DeclaredType::Long).is_err());
    assert!(coerce("n", &RawValue::Str(s("99999999999999999999")), &DeclaredType::Long).is_err());
}

#[test]
fn boolean_parsing() {
    assert_eq!(coerce("b", &RawValue::Str(s("true")), &DeclaredType::Boolean).unwrap(), Literal::Bool(true));
    assert_eq!(coerce("b", &RawValue::Str(s("false")), &DeclaredType::Boolean).unwrap(), Literal::Bool(false));
    assert_eq!(
        coerce("b", &RawValue::Str(s("yes")), &DeclaredType::Boolean).unwrap_err(),
        vec![CallError::TypeCoercionFailure(s("b"))]
    );
    assert_eq!(coerce("b", &RawValue::Bool(false), &DeclaredType::Str).unwrap(), Literal::Bool(false));
}

#[test]
fn float_kinds() {
    assert_eq!(coerce("f", &RawValue::Int(3), &DeclaredType::Float).unwrap(), Literal::Float(3));
    assert_eq!(coerce("f", &RawValue::Int(3), &DeclaredType::Double).unwrap(), Literal::Double(3));
    assert!(coerce("f", &RawValue::Str(s("3.5")), &DeclaredType::Double).is_err());
    assert!(coerce("f", &RawValue::Int(3), &DeclaredType::Boolean).is_err());
}

#[test]
fn list_kinds() {
    assert_eq!(
        coerce("fields", &RawValue::Str(s("a,b,,c")), &DeclaredType::List).unwrap(),
        Literal::StrList(vec![s("a"), s("b"), s(""), s("c")])
    );
    assert_eq!(
        coerce("fields", &RawValue::Bool(true), &DeclaredType::List).unwrap(),
        Literal::StrList(vec![s("true")])
    );
    let arr = RawValue::Array(vec![RawValue::Str(s("a")), RawValue::Str(s("b"))]);
    assert_eq!(coerce("fields", &arr, &DeclaredType::List).unwrap(), Literal::StrList(vec![s("a"), s("b")]));
    assert_eq!(coerce("name", &arr, &DeclaredType::Str).unwrap(), Literal::Str(s("a,b")));
    assert!(coerce("n", &arr, &DeclaredType::Integer).is_err());
    let mixed = RawValue::Array(vec![RawValue::Str(s("a")), RawValue::Int(1)]);
    assert_eq!(
        coerce("fields", &mixed, &DeclaredType::List).unwrap_err(),
        vec![CallError::UnsupportedValueShape(s("fields"))]
    );
    assert_eq!(
        coerce("fields", &doc(vec![]), &DeclaredType::List).unwrap_err(),
        vec![CallError::UnsupportedValueShape(s("fields"))]
    );
}

#[test]
fn wildcard_string_expands_to_variants() {
    let r = coerce("expand_wildcards", &RawValue::Str(s("open,closed")), &DeclaredType::Enum(wildcard_options()));
    assert_eq!(
        r.unwrap(),
        Literal::EnumList(vec![enum_lit("ExpandWildcards", "Open"), enum_lit("ExpandWildcards", "Closed")])
    );
}

#[test]
fn wildcard_string_with_unknown_value_fails() {
    let r = coerce("expand_wildcards", &RawValue::Str(s("open,bogus")), &DeclaredType::Enum(wildcard_options()));
    assert_eq!(
        r.unwrap_err(),
        vec![CallError::EnumValidationFailure { options: wildcard_options(), value: s("bogus") }]
    );
}

#[test]
fn enum_sequence_reports_every_failure() {
    let arr = RawValue::Array(vec![RawValue::Str(s("x")), RawValue::Str(s("open")), RawValue::Str(s("y"))]);
    let r = coerce("expand_wildcards", &arr, &DeclaredType::Enum(wildcard_options()));
    assert_eq!(
        r.unwrap_err(),
        vec![
            CallError::EnumValidationFailure { options: wildcard_options(), value: s("x") },
            CallError::EnumValidationFailure { options: wildcard_options(), value: s("y") },
        ]
    );
}

#[test]
fn multi_body_gives_one_entry_per_document() {
    let body = RawValue::Array(vec![
        doc(vec![("index", doc(vec![("_id", RawValue::Int(1))]))]),
        doc(vec![("a", RawValue::Bool(true)), ("b", RawValue::Str(s("x")))]),
    ]);
    let c = call("bulk", vec![("body", body)]).unwrap();
    assert_eq!(
        c.body,
        Some(BodyLiteral::Lines(vec![
            BodyLine::Document(s("{\"index\":{\"_id\":1}}")),
            BodyLine::Document(s("{\"a\":true,\"b\":\"x\"}")),
        ]))
    );
}

#[test]
fn multi_body_passes_strings_through() {
    let body = RawValue::Array(vec![RawValue::Str(s("{\"delete\":{}}")), RawValue::Array(vec![RawValue::Int(1)])]);
    let c = call("bulk", vec![("body", body)]).unwrap();
    assert_eq!(
        c.body,
        Some(BodyLiteral::Lines(vec![BodyLine::Text(s("{\"delete\":{}}")), BodyLine::Document(s("[1]"))]))
    );
    let c = call("bulk", vec![("body", RawValue::Str(s("line")))]).unwrap();
    assert_eq!(c.body, Some(BodyLiteral::Lines(vec![BodyLine::Text(s("line"))])));
}

#[test]
fn single_body_encodes_one_document() {
    let body = RawValue::Array(vec![doc(vec![("a", RawValue::Int(1))]), doc(vec![("b", RawValue::Int(2))])]);
    let c = call("get", vec![("index", RawValue::Str(s("i"))), ("id", RawValue::Str(s("1"))), ("body", body)]).unwrap();
    assert_eq!(c.body, Some(BodyLiteral::Document(s("[{\"a\":1},{\"b\":2}]"))));
    let c = call("cluster.health", vec![("body", RawValue::Str(s("raw \"text\"")))]).unwrap();
    assert_eq!(c.body, Some(BodyLiteral::Text(s("raw \"text\""))));
}

#[test]
fn query_parameters_keep_record_order() {
    let c = call(
        "indices.get_mapping",
        vec![
            ("local", RawValue::Str(s("true"))),
            ("index", RawValue::Str(s("x"))),
            ("size", RawValue::Int(5)),
            ("human", RawValue::Bool(false)),
        ],
    )
    .unwrap();
    assert_eq!(
        c.params,
        vec![(s("local"), Literal::Bool(true)), (s("size"), Literal::Int(5)), (s("human"), Literal::Bool(false))]
    );
}

#[test]
fn errors_of_a_record_are_reported_together() {
    let e = call(
        "indices.get_mapping",
        vec![
            ("name", RawValue::Str(s("n"))),
            ("local", RawValue::Str(s("maybe"))),
            ("expand_wildcards", RawValue::Str(s("nope"))),
            ("ignore", RawValue::Str(s("404"))),
        ],
    )
    .unwrap_err();
    assert_eq!(
        e,
        vec![
            CallError::AmbiguousOrMissingTemplate { operation: s("indices.get_mapping"), parts: vec![s("name")] },
            CallError::UnresolvedArgument(s("name")),
            CallError::TypeCoercionFailure(s("local")),
            CallError::EnumValidationFailure { options: wildcard_options(), value: s("nope") },
            CallError::TypeCoercionFailure(s("ignore")),
        ]
    );
}

#[test]
fn ignore_takes_first_status() {
    let c = call("cluster.health", vec![("ignore", RawValue::Int(404))]).unwrap();
    assert_eq!(c.ignore, Some(404));
    let c = call("cluster.health", vec![("ignore", RawValue::Array(vec![RawValue::Int(400), RawValue::Int(404)]))]).unwrap();
    assert_eq!(c.ignore, Some(400));
    assert!(call("cluster.health", vec![("ignore", RawValue::Array(vec![]))]).is_err());
}

#[test]
fn generation_is_repeatable() {
    let entries = || {
        vec![
            ("expand_wildcards", RawValue::Str(s("open,hidden"))),
            ("index", RawValue::Str(s("x"))),
            ("local", RawValue::Bool(true)),
        ]
    };
    let first = call("indices.get_mapping", entries()).unwrap();
    let second = call("indices.get_mapping", entries()).unwrap();
    assert_eq!(first, second);
}

#[test]
fn action_parses_call_and_companions() {
    let api = schema();
    let step = doc(vec![
        ("catch", RawValue::Str(s("missing"))),
        ("headers", doc(vec![("Content-Type", RawValue::Str(s("application/json")))])),
        ("warnings", RawValue::Array(vec![RawValue::Str(s("deprecated"))])),
        ("node_selector", doc(vec![])),
        ("cluster.health", doc(vec![("wait_for_nodes", RawValue::Str(s("3")))])),
    ]);
    let d = Do::try_parse(&api, &step).unwrap();
    assert_eq!(d.catch, Some(s("missing")));
    assert_eq!(d.headers, vec![(s("Content-Type"), s("application/json"))]);
    assert_eq!(d.warnings, vec![s("deprecated")]);
    assert_eq!(d.api_call.params, vec![(s("wait_for_nodes"), Literal::Int(3))]);
}

#[test]
fn action_errors() {
    let api = schema();
    let e = Do::try_parse(&api, &doc(vec![("nope.call", doc(vec![]))])).unwrap_err();
    assert_eq!(e, vec![CallError::UnknownOperation(s("nope.call"))]);
    let e = Do::try_parse(&api, &doc(vec![("catch", RawValue::Str(s("x")))])).unwrap_err();
    assert_eq!(e, vec![CallError::MissingCall]);
    let e = Do::try_parse(&api, &RawValue::Int(1)).unwrap_err();
    assert_eq!(e, vec![CallError::UnsupportedValueShape(s("do"))]);
    let e = Do::try_parse(
        &api,
        &doc(vec![("warnings", RawValue::Int(1)), ("cluster.health", RawValue::Int(2))]),
    )
    .unwrap_err();
    assert_eq!(
        e,
        vec![CallError::UnsupportedValueShape(s("warnings")), CallError::UnsupportedValueShape(s("cluster.health"))]
    );
}

#[test]
fn batch_reads_each_action_alone() {
    let api = schema();
    let steps = vec![
        doc(vec![("cluster.health", doc(vec![("wait_for_nodes", RawValue::Str(s("x")))]))]),
        doc(vec![("cluster.health", doc(vec![]))]),
    ];
    let r = Do::try_parse_all(&api, &steps);
    assert_eq!(r.len(), 2);
    assert_eq!(r[0].as_ref().unwrap_err(), &vec![CallError::TypeCoercionFailure(s("wait_for_nodes"))]);
    assert!(r[1].is_ok());
}

#[test]
fn error_messages() {
    assert_eq!(CallError::UnknownOperation(s("x.y")).message(), s("no API found for x.y"));
    assert_eq!(
        CallError::AmbiguousOrMissingTemplate { operation: s("get"), parts: vec![] }.message(),
        s("no path for get with no URL parts")
    );
    assert_eq!(
        CallError::EnumValidationFailure { options: vec![s("a"), s("b")], value: s("c") }.message(),
        s("options a,b does not contain value c")
    );
    assert_eq!(
        CallError::AmbiguousOrMissingTemplate { operation: s("get"), parts: vec![s("a"), s("b")] }.message(),
        s("no path for get with URL parts a,b")
    );
    assert_eq!(CallError::UnresolvedArgument(s("p")).message(), s("no URL part found for p"));
}
