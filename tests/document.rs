use glean_parser::document::{decode_catalog, decode_metric, encode_metric, DecodeError};
use glean_parser::literal::{swift_ty, Value};
use glean_parser::metrics::{HistogramType, Lifetime, Metric, TimeUnit};

fn s(text: &str) -> Value {
    Value::Str(text.to_string())
}

fn strs(items: &[&str]) -> Value {
    Value::List(items.iter().map(|t| s(t)).collect())
}

fn map(entries: Vec<(&str, Value)>) -> Value {
    Value::Mapping(entries.into_iter().map(|(k, v)| (k.to_string(), v)).collect())
}

fn metric_doc(kind: &str, extra: Vec<(&str, Value)>) -> Value {
    let mut entries = vec![
        ("type", s(kind)),
        ("description", s("A metric.")),
        ("bugs", strs(&["https://bugs.example/1"])),
        ("data_reviews", strs(&["https://reviews.example/1"])),
        ("notification_emails", strs(&["owner@example.com"])),
        ("expires", s("never")),
    ];
    entries.extend(extra);
    map(entries)
}

fn describe(m: &Metric) -> String {
    let mut out = format!("{}|{}", m.kind_name(), m.common().description);
    for (k, v) in m.common_metric_data().iter().chain(m.extra().iter()) {
        let text = swift_ty(v).unwrap_or_else(|_| "-".to_string());
        out.push_str(&format!("|{}={}", k, text));
    }
    out
}

#[test]
fn counter_scenario_decodes() {
    let doc = map(vec![
        ("$schema", s("moz://mozilla.org/schemas/glean/metrics/2-0-0")),
        ("core", map(vec![("baseline_count", metric_doc("counter", vec![]))])),
    ]);
    let content = decode_catalog(doc).unwrap();
    assert_eq!(content.schema, "moz://mozilla.org/schemas/glean/metrics/2-0-0");
    let catalog = content.categories;
    assert_eq!(catalog.len(), 1);
    assert_eq!(catalog[0].0, "core");
    assert_eq!(catalog[0].1.len(), 1);
    assert_eq!(catalog[0].1[0].0, "baseline_count");
    let metric = &catalog[0].1[0].1;
    assert!(matches!(metric, Metric::Counter(_)));
    assert_eq!(metric.kind_name(), "counter");
    assert_eq!(metric.common().lifetime, Lifetime::Ping);
}

#[test]
fn custom_distribution_scenario_decodes() {
    let doc = metric_doc(
        "custom_distribution",
        vec![
            ("range_min", Value::Number(1)),
            ("range_max", Value::Number(100)),
            ("bucket_count", Value::Number(10)),
            ("histogram_type", s("linear")),
        ],
    );
    let metric = decode_metric(doc).unwrap();
    match &metric {
        Metric::CustomDistribution(d) => {
            assert_eq!((d.range_min, d.range_max, d.bucket_count), (1, 100, 10));
            assert_eq!(d.histogram_type, HistogramType::Linear);
        }
        _ => panic!("wrong kind"),
    }
    let extra: Vec<String> = metric.extra().iter().map(|(k, v)| format!("{}={}", k, swift_ty(v).unwrap())).collect();
    assert_eq!(extra, vec!["bucket_count=10", "histogram_type=.linear", "range_max=100", "range_min=1"]);
}

#[test]
fn categories_keep_document_order() {
    let doc = map(vec![
        ("$schema", s("x")),
        ("zeta", map(vec![("b", metric_doc("boolean", vec![])), ("a", metric_doc("text", vec![]))])),
        ("alpha", map(vec![("c", metric_doc("uuid", vec![]))])),
    ]);
    let catalog = decode_catalog(doc).unwrap().categories;
    let names: Vec<(&str, Vec<&str>)> = catalog
        .iter()
        .map(|(c, l)| (c.as_str(), l.iter().map(|(n, _)| n.as_str()).collect()))
        .collect();
    assert_eq!(names, vec![("zeta", vec!["b", "a"]), ("alpha", vec!["c"])]);
}

#[test]
fn explicit_lifetime_and_time_unit() {
    let doc = metric_doc("timespan", vec![("lifetime", s("application")), ("time_unit", s("second"))]);
    let metric = decode_metric(doc).unwrap();
    assert_eq!(metric.common().lifetime, Lifetime::Application);
    match metric {
        Metric::Timespan(t) => assert_eq!(t.time_unit, TimeUnit::Second),
        _ => panic!("wrong kind"),
    }
}

#[test]
fn unknown_kind_is_refused() {
    assert_eq!(decode_metric(metric_doc("not_a_kind", vec![])).err(), Some(DecodeError));
}

#[test]
fn missing_required_field_is_refused() {
    let doc = map(vec![("type", s("counter")), ("description", s("d"))]);
    assert_eq!(decode_metric(doc).err(), Some(DecodeError));
    assert_eq!(decode_metric(metric_doc("timespan", vec![])).err(), Some(DecodeError));
}

#[test]
fn wrong_shape_is_refused() {
    let doc = metric_doc("counter", vec![("lifetime", s("forever"))]);
    assert_eq!(decode_metric(doc).err(), Some(DecodeError));
    let doc = metric_doc("custom_distribution", vec![
        ("range_min", s("1")),
        ("range_max", Value::Number(100)),
        ("bucket_count", Value::Number(10)),
        ("histogram_type", s("linear")),
    ]);
    assert_eq!(decode_metric(doc).err(), Some(DecodeError));
    assert_eq!(decode_metric(s("counter")).err(), Some(DecodeError));
}

#[test]
fn catalog_without_schema_is_refused() {
    let doc = map(vec![("core", map(vec![("c", metric_doc("counter", vec![]))]))]);
    assert_eq!(decode_catalog(doc).err(), Some(DecodeError));
}

#[test]
fn catalog_with_bad_metric_is_refused() {
    let doc = map(vec![
        ("$schema", s("x")),
        ("core", map(vec![("ok", metric_doc("counter", vec![])), ("bad", metric_doc("not_a_kind", vec![]))])),
    ]);
    assert_eq!(decode_catalog(doc).err(), Some(DecodeError));
}

#[test]
fn every_kind_round_trips() {
    let cases: Vec<(&str, Vec<(&str, Value)>)> = vec![
        ("boolean", vec![]),
        ("labeled_boolean", vec![("labels", strs(&["a", "b"]))]),
        ("counter", vec![]),
        ("labeled_counter", vec![]),
        ("string", vec![]),
        ("labeled_string", vec![("labels", strs(&["x"]))]),
        ("string_list", vec![]),
        ("timespan", vec![("time_unit", s("millisecond"))]),
        ("timing_distribution", vec![("time_unit", s("hour"))]),
        ("memory_distribution", vec![("memory_unit", s("kilobyte"))]),
        ("custom_distribution", vec![
            ("range_min", Value::Number(0)),
            ("range_max", Value::Number(5)),
            ("bucket_count", Value::Number(3)),
            ("histogram_type", s("exponential")),
        ]),
        ("uuid", vec![]),
        ("url", vec![]),
        ("datetime", vec![("time_unit", s("day"))]),
        ("event", vec![("extra_keys", map(vec![("key", map(vec![("type", s("string"))]))]))]),
        ("rate", vec![]),
        ("rate_external", vec![("denominator_metric", s("core.total"))]),
        ("text", vec![("lifetime", s("user"))]),
        ("quantity", vec![("unit", s("pixels"))]),
    ];
    assert_eq!(cases.len(), 19);
    for (kind, extra) in cases {
        let first = decode_metric(metric_doc(kind, extra)).unwrap();
        let text = describe(&first);
        let again = decode_metric(encode_metric(first)).unwrap();
        assert_eq!(describe(&again), text, "kind {}", kind);
    }
}

#[test]
fn identical_input_gives_identical_output() {
    let build = || {
        map(vec![
            ("$schema", s("x")),
            ("core", map(vec![
                ("baseline_count", metric_doc("counter", vec![])),
                ("load", metric_doc("timing_distribution", vec![("time_unit", s("millisecond"))])),
            ])),
        ])
    };
    let render = |doc: Value| -> Vec<String> {
        let catalog = decode_catalog(doc).unwrap().categories;
        catalog.iter().flat_map(|(_, l)| l.iter().map(|(n, m)| format!("{}:{}", n, describe(m)))).collect()
    };
    assert_eq!(render(build()), render(build()));
}
