use layered_config::example::{Conf, Headers, Http, LogConfig};
use layered_config::finalize::{finalize, FinalConfig, FinalField, MissingValue, Resolved};
use layered_config::merge::{fold_layers, merge_with_fallback, mergeable};
use layered_config::partial::{default_partial, empty_partial, PartialField, PartialValue, Slot};
use layered_config::schema::{FieldSpec, Schema};
use layered_config::value::Value;

fn text(s: &str) -> Value {
    Value::Text(s.to_string())
}

fn leaf(name: &str, value: Value) -> PartialField {
    PartialField { name: name.to_string(), slot: Slot::Leaf(value) }
}

fn absent(name: &str) -> PartialField {
    PartialField { name: name.to_string(), slot: Slot::Absent }
}

fn nested(name: &str, fields: Vec<PartialField>) -> PartialField {
    PartialField { name: name.to_string(), slot: Slot::Nested(PartialValue { fields }) }
}

/// `Top { http: Http { log: Log { stdout: bool = true, file: Option<path> } } }`
fn top_schema() -> Schema {
    let mut log = Schema::new("Log");
    log.push(FieldSpec::leaf("stdout", Some(Value::Boolean(true)), false));
    log.push(FieldSpec::leaf("file", None, true));
    let mut http = Schema::new("Http");
    http.push(FieldSpec::nested("log", log, false));
    let mut top = Schema::new("Top");
    top.push(FieldSpec::nested("http", http, false));
    top
}

fn expected_defaults() -> Conf {
    Conf {
        http: Http {
            headers: Headers {
                username: "x-username".to_string(),
                display_name: "x-display-name".to_string(),
            },
            log: LogConfig { stdout: true, file: None },
        },
    }
}

#[test]
fn defaults_alone_resolve_the_sample() {
    let schema = Conf::schema();
    let defaults = default_partial(&schema);
    assert!(defaults.conforms_to(&schema));
    let resolved = finalize(&defaults, &schema).expect("the defaults are complete");
    assert_eq!(Conf::from_config(&resolved), Some(expected_defaults()));
}

#[test]
fn a_higher_layer_sets_the_log_file() {
    let schema = Conf::schema();
    let layer = PartialValue {
        fields: vec![nested(
            "http",
            vec![
                nested("headers", vec![absent("username"), absent("display_name")]),
                nested("log", vec![absent("stdout"), leaf("file", text("/var/log/app.log"))]),
            ],
        )],
    };
    assert!(layer.conforms_to(&schema));
    let defaults = default_partial(&schema);
    assert!(mergeable(&layer, &defaults));
    let merged = merge_with_fallback(&layer, &defaults);
    assert!(merged.conforms_to(&schema));
    let resolved = finalize(&merged, &schema).expect("the defaults fill the rest");
    let mut expected = expected_defaults();
    expected.http.log.file = Some("/var/log/app.log".to_string());
    assert_eq!(Conf::from_config(&resolved), Some(expected));
}

#[test]
fn missing_stdout_is_reported_by_its_full_path() {
    let schema = top_schema();
    let layers = vec![empty_partial(&schema), empty_partial(&schema)];
    let merged = fold_layers(&layers);
    assert!(merged.conforms_to(&schema));
    assert_eq!(
        finalize(&merged, &schema),
        Err(MissingValue { path: "http.log.stdout".to_string() })
    );
}

#[test]
fn absent_optional_file_resolves_to_absent() {
    let mut schema = Schema::new("Log");
    schema.push(FieldSpec::leaf("file", None, true));
    let layers = vec![empty_partial(&schema), default_partial(&schema)];
    let merged = fold_layers(&layers);
    assert_eq!(
        finalize(&merged, &schema),
        Ok(FinalConfig {
            fields: vec![FinalField { name: "file".to_string(), value: Resolved::Absent }],
        })
    );
}

#[test]
fn defaults_resolve_only_where_every_required_leaf_has_one() {
    // complete: required leaf with default, optional leaf without
    let mut complete = Schema::new("Complete");
    complete.push(FieldSpec::leaf("port", Some(Value::Integer(8080)), false));
    complete.push(FieldSpec::leaf("note", None, true));
    assert!(finalize(&default_partial(&complete), &complete).is_ok());

    // incomplete two levels down
    let mut inner = Schema::new("Inner");
    inner.push(FieldSpec::leaf("ok", Some(Value::Boolean(false)), false));
    inner.push(FieldSpec::leaf("token", None, false));
    let mut outer = Schema::new("Outer");
    outer.push(FieldSpec::leaf("first", Some(text("a")), false));
    outer.push(FieldSpec::nested("inner", inner, false));
    assert_eq!(
        finalize(&default_partial(&outer), &outer),
        Err(MissingValue { path: "inner.token".to_string() })
    );
}

#[test]
fn empty_over_defaults_finalizes_as_defaults() {
    let schema = Conf::schema();
    let defaults = default_partial(&schema);
    let merged = merge_with_fallback(&empty_partial(&schema), &defaults);
    assert_eq!(merged, defaults);
    assert_eq!(finalize(&merged, &schema), finalize(&defaults, &schema));

    let top = top_schema();
    let merged = merge_with_fallback(&empty_partial(&top), &default_partial(&top));
    assert_eq!(finalize(&merged, &top), finalize(&default_partial(&top), &top));
}

#[test]
fn first_missing_field_in_schema_order_is_reported() {
    let mut schema = Schema::new("Three");
    schema.push(FieldSpec::leaf("a", Some(Value::Integer(1)), false));
    schema.push(FieldSpec::leaf("b", None, false));
    schema.push(FieldSpec::leaf("c", None, false));
    let merged = default_partial(&schema);
    assert_eq!(finalize(&merged, &schema), Err(MissingValue { path: "b".to_string() }));
}

#[test]
fn missing_leaf_three_levels_deep() {
    let mut c = Schema::new("C");
    c.push(FieldSpec::leaf("c", None, false));
    let mut b = Schema::new("B");
    b.push(FieldSpec::nested("b", c, false));
    let mut a = Schema::new("A");
    a.push(FieldSpec::nested("a", b, false));
    assert_eq!(
        finalize(&empty_partial(&a), &a),
        Err(MissingValue { path: "a.b.c".to_string() })
    );
}

#[test]
fn nested_under_prefixes_once() {
    let e = MissingValue { path: "file".to_string() };
    let e = e.nested_under("log");
    assert_eq!(e.path, "log.file");
    let e = e.nested_under("http");
    assert_eq!(e.path, "http.log.file");
}

#[test]
fn optional_nested_field_may_be_absent() {
    let mut tls = Schema::new("Tls");
    tls.push(FieldSpec::leaf("cert", None, false));
    let mut server = Schema::new("Server");
    server.push(FieldSpec::leaf("port", Some(Value::Integer(80)), false));
    server.push(FieldSpec::nested("tls", tls, true));

    // no layer says anything of `tls`
    let layer = PartialValue { fields: vec![absent("port"), absent("tls")] };
    assert!(layer.conforms_to(&server));
    let only_port = PartialValue { fields: vec![leaf("port", Value::Integer(80)), absent("tls")] };
    let merged = merge_with_fallback(&layer, &only_port);
    assert_eq!(
        finalize(&merged, &server),
        Ok(FinalConfig {
            fields: vec![
                FinalField { name: "port".to_string(), value: Resolved::Leaf(Value::Integer(80)) },
                FinalField { name: "tls".to_string(), value: Resolved::Absent },
            ],
        })
    );

    // the defaults hold the nested tree, whose required leaf has no default
    assert_eq!(
        finalize(&default_partial(&server), &server),
        Err(MissingValue { path: "tls.cert".to_string() })
    );
}

#[test]
fn required_nested_field_may_not_be_absent() {
    let mut inner = Schema::new("Inner");
    inner.push(FieldSpec::leaf("x", None, true));
    let mut outer = Schema::new("Outer");
    outer.push(FieldSpec::nested("inner", inner, false));
    let layer = PartialValue { fields: vec![absent("inner")] };
    assert!(!layer.conforms_to(&outer));
}

#[test]
fn conformance_checks_names_count_and_kinds() {
    let schema = Headers::schema();
    assert!(empty_partial(&schema).conforms_to(&schema));
    assert!(default_partial(&schema).conforms_to(&schema));
    let short = PartialValue { fields: vec![absent("username")] };
    assert!(!short.conforms_to(&schema));
    let renamed = PartialValue { fields: vec![absent("username"), absent("displayname")] };
    assert!(!renamed.conforms_to(&schema));
    let swapped = PartialValue { fields: vec![absent("display_name"), absent("username")] };
    assert!(!swapped.conforms_to(&schema));
    let nested_leaf =
        PartialValue { fields: vec![nested("username", vec![]), absent("display_name")] };
    assert!(!nested_leaf.conforms_to(&schema));
    let http = Http::schema();
    let leaf_for_nested = PartialValue {
        fields: vec![leaf("headers", Value::Boolean(true)), nested("log", vec![])],
    };
    assert!(!leaf_for_nested.conforms_to(&http));
}

#[test]
fn empty_schema_resolves_to_empty_config() {
    let schema = Schema::new("Nothing");
    let empty = empty_partial(&schema);
    assert_eq!(empty, PartialValue { fields: vec![] });
    assert_eq!(default_partial(&schema), PartialValue { fields: vec![] });
    assert_eq!(finalize(&empty, &schema), Ok(FinalConfig { fields: vec![] }));
}

#[test]
fn empty_and_default_partials_of_the_log_schema() {
    let schema = LogConfig::schema();
    assert_eq!(
        empty_partial(&schema),
        PartialValue { fields: vec![absent("stdout"), absent("file")] }
    );
    assert_eq!(
        default_partial(&schema),
        PartialValue { fields: vec![leaf("stdout", Value::Boolean(true)), absent("file")] }
    );
}

#[test]
fn typed_reading_rejects_other_shapes() {
    let cfg = FinalConfig {
        fields: vec![
            FinalField { name: "stdout".to_string(), value: Resolved::Leaf(Value::Integer(1)) },
            FinalField { name: "file".to_string(), value: Resolved::Absent },
        ],
    };
    assert_eq!(LogConfig::from_config(&cfg), None);
    let cfg = FinalConfig {
        fields: vec![
            FinalField { name: "stdout".to_string(), value: Resolved::Leaf(Value::Boolean(false)) },
            FinalField { name: "file".to_string(), value: Resolved::Leaf(text("/tmp/log")) },
        ],
    };
    assert_eq!(
        LogConfig::from_config(&cfg),
        Some(LogConfig { stdout: false, file: Some("/tmp/log".to_string()) })
    );
    assert_eq!(Headers::from_config(&cfg), None);
    assert_eq!(Conf::from_config(&cfg), None);
    assert!(cfg.field(0, "stdout").is_some());
    assert!(cfg.field(0, "file").is_none());
    assert!(cfg.field(2, "file").is_none());
}

#[test]
fn sample_schemas_are_well_formed() {
    assert!(Conf::schema().is_well_formed());
    let twice = Schema {
        name: "Twice".to_string(),
        fields: vec![FieldSpec::leaf("a", None, true), FieldSpec::leaf("a", None, true)],
    };
    assert!(!twice.is_well_formed());
    let mut outer = Schema::new("Outer");
    outer.push(FieldSpec::nested("inner", twice, false));
    assert!(!outer.is_well_formed());
}

#[test]
fn empty_over_a_layer_gives_that_layer() {
    let schema = Conf::schema();
    let layer = PartialValue {
        fields: vec![nested(
            "http",
            vec![
                nested("headers", vec![leaf("username", text("u")), absent("display_name")]),
                nested("log", vec![absent("stdout"), leaf("file", text("/tmp/x"))]),
            ],
        )],
    };
    assert!(layer.conforms_to(&schema));
    let merged = merge_with_fallback(&empty_partial(&schema), &layer);
    assert_eq!(merged, layer);
    assert_eq!(finalize(&merged, &schema), finalize(&layer, &schema));
    assert_eq!(
        finalize(&layer, &schema),
        Err(MissingValue { path: "http.headers.display_name".to_string() })
    );
}

#[test]
fn a_higher_layer_keeps_what_the_defaults_resolve() {
    let schema = Conf::schema();
    let defaults = default_partial(&schema);
    assert!(finalize(&defaults, &schema).is_ok());
    let merged = merge_with_fallback(&empty_partial(&schema), &defaults);
    assert!(finalize(&merged, &schema).is_ok());
}

#[test]
fn empty_over_an_absent_nested_field_holds_the_empty_nested_value() {
    let mut tls = Schema::new("Tls");
    tls.push(FieldSpec::leaf("cert", None, false));
    let mut server = Schema::new("Server");
    server.push(FieldSpec::nested("tls", tls, true));
    let layer = PartialValue { fields: vec![absent("tls")] };
    assert!(layer.conforms_to(&server));
    assert!(finalize(&layer, &server).is_ok());
    let merged = merge_with_fallback(&empty_partial(&server), &layer);
    assert_eq!(merged, PartialValue { fields: vec![nested("tls", vec![absent("cert")])] });
    assert_eq!(finalize(&merged, &server), Err(MissingValue { path: "tls.cert".to_string() }));
}
