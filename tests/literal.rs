use glean_parser::casing::{lower_camelize, metric_type, upper_camelize};
use glean_parser::literal::{swift_ty, UnsupportedValue, Value};
use glean_parser::metrics::{
    CommonMetricData, CustomDistribution, HistogramType, LabeledData, Lifetime, MemoryDistribution,
    MemoryUnit, Metric, Quantity, RateExternal, TimeUnit, Timespan,
};

fn common(description: &str) -> CommonMetricData {
    CommonMetricData {
        lifetime: Lifetime::default(),
        description: description.to_string(),
        bugs: vec!["https://bugs.example/1".to_string()],
        data_reviews: vec!["https://reviews.example/1".to_string()],
        notification_emails: vec!["owner@example.com".to_string()],
        expires: "never".to_string(),
    }
}

fn lit(v: Value) -> String {
    swift_ty(&v).unwrap()
}

fn s(text: &str) -> Value {
    Value::Str(text.to_string())
}

#[test]
fn string_literal_plain() {
    assert_eq!(lit(s("metrics")), "\"metrics\"");
}

#[test]
fn string_literal_empty() {
    assert_eq!(lit(s("")), "\"\"");
}

#[test]
fn string_literal_escapes_quotes_and_backslash() {
    assert_eq!(lit(s("say \"hi\" \\ now")), "\"say \\\"hi\\\" \\\\ now\"");
}

#[test]
fn string_literal_escapes_control_characters() {
    assert_eq!(lit(s("a\nb\tc\rd\0e")), "\"a\\nb\\tc\\rd\\0e\"");
    assert_eq!(lit(s("\u{1}\u{1f}\u{7f}")), "\"\\u{01}\\u{1f}\\u{7f}\"");
}

#[test]
fn string_literal_keeps_unicode() {
    assert_eq!(lit(s("héllo ✓ 日本")), "\"héllo ✓ 日本\"");
}

#[test]
fn number_literals() {
    assert_eq!(lit(Value::Number(0)), "0");
    assert_eq!(lit(Value::Number(7)), "7");
    assert_eq!(lit(Value::Number(100)), "100");
    assert_eq!(lit(Value::Number(u64::MAX)), "18446744073709551615");
}

#[test]
fn enum_literals() {
    assert_eq!(lit(Value::Lifetime(Lifetime::Ping)), ".ping");
    assert_eq!(lit(Value::Lifetime(Lifetime::Application)), ".application");
    assert_eq!(lit(Value::Lifetime(Lifetime::User)), ".user");
    assert_eq!(lit(Value::MemoryUnit(MemoryUnit::Kilobyte)), ".kilobyte");
    assert_eq!(lit(Value::TimeUnit(TimeUnit::Millisecond)), ".millisecond");
    assert_eq!(lit(Value::HistogramType(HistogramType::Exponential)), ".exponential");
}

#[test]
fn enum_literals_distinct_within_type() {
    let units = [
        MemoryUnit::Byte,
        MemoryUnit::Kilobyte,
        MemoryUnit::Megabyte,
        MemoryUnit::Gigabyte,
    ];
    let lits: Vec<String> = units.iter().map(|u| lit(Value::MemoryUnit(*u))).collect();
    for i in 0..lits.len() {
        assert!(lits[i].len() > 1);
        for j in 0..lits.len() {
            if i != j {
                assert_ne!(lits[i], lits[j]);
            }
        }
    }
    let times = [TimeUnit::Millisecond, TimeUnit::Second, TimeUnit::Minute, TimeUnit::Hour, TimeUnit::Day];
    let lits: Vec<String> = times.iter().map(|u| lit(Value::TimeUnit(*u))).collect();
    assert_eq!(lits, vec![".millisecond", ".second", ".minute", ".hour", ".day"]);
}

#[test]
fn list_literals_by_length() {
    assert_eq!(lit(Value::List(vec![])), "[]");
    assert_eq!(lit(Value::List(vec![s("metrics")])), "[\"metrics\"]");
    assert_eq!(
        lit(Value::List(vec![s("a"), Value::Number(2), Value::TimeUnit(TimeUnit::Day)])),
        "[\"a\", 2, .day]"
    );
}

#[test]
fn nested_list_literal() {
    let inner = Value::List(vec![Value::Number(1), Value::Number(2)]);
    assert_eq!(lit(Value::List(vec![inner, Value::List(vec![])])), "[[1, 2], []]");
}

#[test]
fn unsupported_shapes_fault() {
    assert_eq!(swift_ty(&Value::Null), Err(UnsupportedValue));
    assert_eq!(swift_ty(&Value::Mapping(vec![])), Err(UnsupportedValue));
    assert_eq!(
        swift_ty(&Value::Mapping(vec![("k".to_string(), s("v"))])),
        Err(UnsupportedValue)
    );
    assert_eq!(swift_ty(&Value::Bool(false)), Err(UnsupportedValue));
    assert_eq!(swift_ty(&Value::List(vec![s("ok"), Value::Null])), Err(UnsupportedValue));
}

#[test]
fn literal_is_deterministic() {
    let v = Value::List(vec![s("x\"y"), Value::Number(42), Value::Lifetime(Lifetime::User)]);
    assert_eq!(swift_ty(&v), swift_ty(&v));
}

#[test]
fn camel_case_conversions() {
    assert_eq!(lower_camelize("baseline_count"), "baselineCount");
    assert_eq!(upper_camelize("baseline_count"), "BaselineCount");
    assert_eq!(lower_camelize("ping"), "ping");
}

#[test]
fn metric_type_names() {
    assert_eq!(metric_type(&Metric::Counter(common("c"))), "Counter");
    let labeled = LabeledData { common_metric_data: common("l"), labels: None };
    assert_eq!(metric_type(&Metric::LabeledCounter(labeled)), "LabeledCounter");
}

#[test]
fn kind_names_of_variants() {
    assert_eq!(Metric::Counter(common("c")).kind_name(), "counter");
    assert_eq!(Metric::Rate(common("r")).kind_name(), "rate");
    let ext = RateExternal { common_metric_data: common("r"), denominator_metric: "core.total".to_string() };
    assert_eq!(Metric::RateExternal(ext).kind_name(), "rate");
    let q = Quantity { common_metric_data: common("q"), unit: Some("pixels".to_string()) };
    assert_eq!(Metric::Quantity(q).kind_name(), "quantity");
    assert_eq!(Metric::StringList(common("s")).kind_name(), "string_list");
    let m = Metric::Text(common("t"));
    assert_eq!(m.kind_name(), m.kind_name());
}

#[test]
fn common_fields_view() {
    let m = Metric::Counter(common("Counts \"things\""));
    let view = m.common_metric_data();
    let keys: Vec<&str> = view.iter().map(|(k, _)| *k).collect();
    assert_eq!(keys, vec!["category", "description", "disabled", "lifetime", "name", "send_in_pings"]);
    assert_eq!(swift_ty(&view[1].1).unwrap(), "\"Counts \\\"things\\\"\"");
    assert_eq!(swift_ty(&view[3].1).unwrap(), ".ping");
    assert_eq!(swift_ty(&view[5].1).unwrap(), "[\"metrics\"]");
    assert!(matches!(view[2].1, Value::Bool(false)));
}

#[test]
fn custom_distribution_extra_fields() {
    let d = CustomDistribution {
        common_metric_data: common("d"),
        range_min: 1,
        range_max: 100,
        bucket_count: 10,
        histogram_type: HistogramType::Linear,
    };
    let view = Metric::CustomDistribution(d).extra();
    let rendered: Vec<(&str, String)> = view.iter().map(|(k, v)| (*k, swift_ty(v).unwrap())).collect();
    assert_eq!(
        rendered,
        vec![
            ("bucket_count", "10".to_string()),
            ("histogram_type", ".linear".to_string()),
            ("range_max", "100".to_string()),
            ("range_min", "1".to_string()),
        ]
    );
}

#[test]
fn unit_extra_fields() {
    let t = Timespan { common_metric_data: common("t"), time_unit: TimeUnit::Second };
    let view = Metric::Timespan(t).extra();
    assert_eq!(view.len(), 1);
    assert_eq!(view[0].0, "time_unit");
    assert_eq!(swift_ty(&view[0].1).unwrap(), ".second");
    let m = MemoryDistribution { common_metric_data: common("m"), memory_unit: MemoryUnit::Megabyte };
    let view = Metric::MemoryDistribution(m).extra();
    assert_eq!(view[0].0, "memory_unit");
    assert_eq!(swift_ty(&view[0].1).unwrap(), ".megabyte");
    assert!(Metric::Boolean(common("b")).extra().is_empty());
}
