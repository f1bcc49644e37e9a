use vstd::prelude::*;
use vstd::string::*;

use crate::literal::Value;

verus! {

/// How long a metric's recorded data is kept.
#[derive(Clone, Copy, Debug, PartialEq, Eq, Structural)]
pub enum Lifetime {
    Ping,
    Application,
    User,
}

impl Lifetime {
    /// The case's canonical lowercase name, as the definition document spells it.
    pub open spec fn name_spec(self) -> Seq<char> {
        match self {
            Lifetime::Ping => "ping"@,
            Lifetime::Application => "application"@,
            Lifetime::User => "user"@,
        }
    }

    pub fn name(&self) -> (r: &'static str)
        ensures
            r@ == self.name_spec(),
    {
        match self {
            Lifetime::Ping => "ping",
            Lifetime::Application => "application",
            Lifetime::User => "user",
        }
    }
}

impl Default for Lifetime {
    fn default() -> (r: Self)
        ensures
            r == Lifetime::Ping,
    {
        Lifetime::Ping
    }
}

/// Unit of a memory distribution's samples.
#[derive(Clone, Copy, Debug, PartialEq, Eq, Structural)]
pub enum MemoryUnit {
    Byte,
    Kilobyte,
    Megabyte,
    Gigabyte,
}

impl MemoryUnit {
    pub open spec fn name_spec(self) -> Seq<char> {
        match self {
            MemoryUnit::Byte => "byte"@,
            MemoryUnit::Kilobyte => "kilobyte"@,
            MemoryUnit::Megabyte => "megabyte"@,
            MemoryUnit::Gigabyte => "gigabyte"@,
        }
    }

    pub fn name(&self) -> (r: &'static str)
        ensures
            r@ == self.name_spec(),
    {
        match self {
            MemoryUnit::Byte => "byte",
            MemoryUnit::Kilobyte => "kilobyte",
            MemoryUnit::Megabyte => "megabyte",
            MemoryUnit::Gigabyte => "gigabyte",
        }
    }
}

/// Unit of a time-based metric's samples.
#[derive(Clone, Copy, Debug, PartialEq, Eq, Structural)]
pub enum TimeUnit {
    Millisecond,
    Second,
    Minute,
    Hour,
    Day,
}

impl TimeUnit {
    pub open spec fn name_spec(self) -> Seq<char> {
        match self {
            TimeUnit::Millisecond => "millisecond"@,
            TimeUnit::Second => "second"@,
            TimeUnit::Minute => "minute"@,
            TimeUnit::Hour => "hour"@,
            TimeUnit::Day => "day"@,
        }
    }

    pub fn name(&self) -> (r: &'static str)
        ensures
            r@ == self.name_spec(),
    {
        match self {
            TimeUnit::Millisecond => "millisecond",
            TimeUnit::Second => "second",
            TimeUnit::Minute => "minute",
            TimeUnit::Hour => "hour",
            TimeUnit::Day => "day",
        }
    }
}

/// Bucketing scheme of a custom distribution.
#[derive(Clone, Copy, Debug, PartialEq, Eq, Structural)]
pub enum HistogramType {
    Linear,
    Exponential,
}

impl HistogramType {
    pub open spec fn name_spec(self) -> Seq<char> {
        match self {
            HistogramType::Linear => "linear"@,
            HistogramType::Exponential => "exponential"@,
        }
    }

    pub fn name(&self) -> (r: &'static str)
        ensures
            r@ == self.name_spec(),
    {
        match self {
            HistogramType::Linear => "linear",
            HistogramType::Exponential => "exponential",
        }
    }
}

/// The attributes that every metric carries, whatever its kind.
#[derive(Clone, Debug)]
pub struct CommonMetricData {
    pub lifetime: Lifetime,
    pub description: String,
    pub bugs: Vec<String>,
    pub data_reviews: Vec<String>,
    pub notification_emails: Vec<String>,
    pub expires: String,
}

/// Payload of the labeled kinds: the common data and an optional label list.
#[derive(Clone, Debug)]
pub struct LabeledData {
    pub common_metric_data: CommonMetricData,
    pub labels: Option<Vec<String>>,
}

#[derive(Clone, Debug)]
pub struct Timespan {
    pub common_metric_data: CommonMetricData,
    pub time_unit: TimeUnit,
}

#[derive(Clone, Debug)]
pub struct Datetime {
    pub common_metric_data: CommonMetricData,
    pub time_unit: TimeUnit,
}

/// Payload of an event: its extra keys, each with the document value declared for it.
#[derive(Debug)]
pub struct Event {
    pub common_metric_data: CommonMetricData,
    pub extra_keys: Vec<(String, Value)>,
}

#[derive(Clone, Debug)]
pub struct TimingDistribution {
    pub common_metric_data: CommonMetricData,
    pub time_unit: TimeUnit,
}

#[derive(Clone, Debug)]
pub struct MemoryDistribution {
    pub common_metric_data: CommonMetricData,
    pub memory_unit: MemoryUnit,
}

#[derive(Clone, Debug)]
pub struct CustomDistribution {
    pub common_metric_data: CommonMetricData,
    pub range_min: usize,
    pub range_max: usize,
    pub bucket_count: usize,
    pub histogram_type: HistogramType,
}

/// Payload of a rate whose denominator is another metric, named here.
#[derive(Clone, Debug)]
pub struct RateExternal {
    pub common_metric_data: CommonMetricData,
    pub denominator_metric: String,
}

#[derive(Clone, Debug)]
pub struct Quantity {
    pub common_metric_data: CommonMetricData,
    pub unit: Option<String>,
}

/// One metric definition: its kind, and that kind's payload.
#[derive(Debug)]
pub enum Metric {
    Boolean(CommonMetricData),
    LabeledBoolean(LabeledData),
    Counter(CommonMetricData),
    LabeledCounter(LabeledData),
    String(CommonMetricData),
    LabeledString(LabeledData),
    StringList(CommonMetricData),
    Timespan(Timespan),
    TimingDistribution(TimingDistribution),
    MemoryDistribution(MemoryDistribution),
    CustomDistribution(CustomDistribution),
    Uuid(CommonMetricData),
    Url(CommonMetricData),
    Datetime(Datetime),
    Event(Event),
    Rate(CommonMetricData),
    RateExternal(RateExternal),
    Text(CommonMetricData),
    Quantity(Quantity),
}

impl Metric {
    /// The kind's name as the definition document writes it in `type`.
    pub open spec fn kind_name_spec(self) -> Seq<char> {
        match self {
            Metric::Counter(_) => "counter"@,
            Metric::LabeledCounter(_) => "labeled_counter"@,
            Metric::Boolean(_) => "boolean"@,
            Metric::LabeledBoolean(_) => "labeled_boolean"@,
            Metric::String(_) => "string"@,
            Metric::LabeledString(_) => "labeled_string"@,
            Metric::StringList(_) => "string_list"@,
            Metric::Timespan(_) => "timespan"@,
            Metric::TimingDistribution(_) => "timing_distribution"@,
            Metric::MemoryDistribution(_) => "memory_distribution"@,
            Metric::CustomDistribution(_) => "custom_distribution"@,
            Metric::Uuid(_) => "uuid"@,
            Metric::Url(_) => "url"@,
            Metric::Datetime(_) => "datetime"@,
            Metric::Event(_) => "event"@,
            Metric::Rate(_) | Metric::RateExternal(_) => "rate"@,
            Metric::Text(_) => "text"@,
            Metric::Quantity(_) => "quantity"@,
        }
    }

    /// The common data embedded in the metric's payload.
    pub open spec fn common_spec(self) -> CommonMetricData {
        match self {
            Metric::Counter(cm) | Metric::Boolean(cm) | Metric::String(cm) | Metric::StringList(
                cm,
            ) | Metric::Uuid(cm) | Metric::Url(cm) | Metric::Rate(cm) | Metric::Text(cm) => cm,
            Metric::LabeledCounter(d) | Metric::LabeledBoolean(d) | Metric::LabeledString(d) => {
                d.common_metric_data
            },
            Metric::Timespan(d) => d.common_metric_data,
            Metric::TimingDistribution(d) => d.common_metric_data,
            Metric::MemoryDistribution(d) => d.common_metric_data,
            Metric::CustomDistribution(d) => d.common_metric_data,
            Metric::Datetime(d) => d.common_metric_data,
            Metric::Event(d) => d.common_metric_data,
            Metric::RateExternal(d) => d.common_metric_data,
            Metric::Quantity(d) => d.common_metric_data,
        }
    }

    pub fn kind_name(&self) -> (r: &'static str)
        ensures
            r@ == self.kind_name_spec(),
    {
        match self {
            Metric::Counter(_) => "counter",
            Metric::LabeledCounter(_) => "labeled_counter",
            Metric::Boolean(_) => "boolean",
            Metric::LabeledBoolean(_) => "labeled_boolean",
            Metric::String(_) => "string",
            Metric::LabeledString(_) => "labeled_string",
            Metric::StringList(_) => "string_list",
            Metric::Timespan(_) => "timespan",
            Metric::TimingDistribution(_) => "timing_distribution",
            Metric::MemoryDistribution(_) => "memory_distribution",
            Metric::CustomDistribution(_) => "custom_distribution",
            Metric::Uuid(_) => "uuid",
            Metric::Url(_) => "url",
            Metric::Datetime(_) => "datetime",
            Metric::Event(_) => "event",
            Metric::Rate(_) | Metric::RateExternal(_) => "rate",
            Metric::Text(_) => "text",
            Metric::Quantity(_) => "quantity",
        }
    }

    pub fn common(&self) -> (r: &CommonMetricData)
        ensures
            *r == self.common_spec(),
    {
        match self {
            Metric::Counter(cm) | Metric::Boolean(cm) | Metric::String(cm) | Metric::StringList(
                cm,
            ) | Metric::Uuid(cm) | Metric::Url(cm) | Metric::Rate(cm) | Metric::Text(cm) => cm,
            Metric::LabeledCounter(d) | Metric::LabeledBoolean(d) | Metric::LabeledString(d) => {
                &d.common_metric_data
            },
            Metric::Timespan(d) => &d.common_metric_data,
            Metric::TimingDistribution(d) => &d.common_metric_data,
            Metric::MemoryDistribution(d) => &d.common_metric_data,
            Metric::CustomDistribution(d) => &d.common_metric_data,
            Metric::Datetime(d) => &d.common_metric_data,
            Metric::Event(d) => &d.common_metric_data,
            Metric::RateExternal(d) => &d.common_metric_data,
            Metric::Quantity(d) => &d.common_metric_data,
        }
    }

    /// The view of the fields that every kind shares, keys in ascending order.
    /// `category` and `name` are left empty: they come from the metric's place
    /// in the catalog, which the metric itself does not hold.
    pub fn common_metric_data(&self) -> (r: Vec<(&'static str, Value)>)
        ensures
            common_view(r@, self.common_spec()),
    {
        let cm = self.common();
        let mut pings: Vec<Value> = Vec::new();
        pings.push(Value::Str(String::from_str("metrics")));
        let mut r: Vec<(&'static str, Value)> = Vec::new();
        r.push(("category", Value::Str(String::new())));
        r.push(("description", Value::Str(cm.description.clone())));
        r.push(("disabled", Value::Bool(false)));
        r.push(("lifetime", Value::Lifetime(cm.lifetime)));
        r.push(("name", Value::Str(String::new())));
        r.push(("send_in_pings", Value::List(pings)));
        r
    }

    /// The view of the kind's own fields, keys in ascending order: a unit for the
    /// time and memory kinds, the bucketing for a custom distribution, nothing else.
    pub fn extra(&self) -> (r: Vec<(&'static str, Value)>)
        ensures
            extra_view(r@, *self),
    {
        let mut r: Vec<(&'static str, Value)> = Vec::new();
        match self {
            Metric::Timespan(d) => r.push(("time_unit", Value::TimeUnit(d.time_unit))),
            Metric::Datetime(d) => r.push(("time_unit", Value::TimeUnit(d.time_unit))),
            Metric::TimingDistribution(d) => r.push(("time_unit", Value::TimeUnit(d.time_unit))),
            Metric::MemoryDistribution(d) => r.push(
                ("memory_unit", Value::MemoryUnit(d.memory_unit)),
            ),
            Metric::CustomDistribution(d) => {
                r.push(("bucket_count", Value::Number(d.bucket_count as u64)));
                r.push(("histogram_type", Value::HistogramType(d.histogram_type)));
                r.push(("range_max", Value::Number(d.range_max as u64)));
                r.push(("range_min", Value::Number(d.range_min as u64)));
            },
            _ => {},
        }
        r
    }
}

/// `v` is the string value `s`.
pub open spec fn is_str(v: Value, s: Seq<char>) -> bool {
    match v {
        Value::Str(t) => t@ == s,
        _ => false,
    }
}

/// The entry of `view` at `i` has key `k`.
pub open spec fn key_at(view: Seq<(&'static str, Value)>, i: int, k: Seq<char>) -> bool {
    0 <= i < view.len() && view[i].0@ == k
}

/// `view` is the shared-field view of a metric whose common data is `cm`.
pub open spec fn common_view(view: Seq<(&'static str, Value)>, cm: CommonMetricData) -> bool {
    &&& view.len() == 6
    &&& key_at(view, 0, "category"@) && is_str(view[0].1, seq![])
    &&& key_at(view, 1, "description"@) && is_str(view[1].1, cm.description@)
    &&& key_at(view, 2, "disabled"@) && view[2].1 == Value::Bool(false)
    &&& key_at(view, 3, "lifetime"@) && view[3].1 == Value::Lifetime(cm.lifetime)
    &&& key_at(view, 4, "name"@) && is_str(view[4].1, seq![])
    &&& key_at(view, 5, "send_in_pings"@) && match view[5].1 {
        Value::List(items) => items@.len() == 1 && is_str(items@[0], "metrics"@),
        _ => false,
    }
}

/// `view` is the kind-specific view of `m`.
pub open spec fn extra_view(view: Seq<(&'static str, Value)>, m: Metric) -> bool {
    match m {
        Metric::Timespan(d) => view.len() == 1 && key_at(view, 0, "time_unit"@) && view[0].1
            == Value::TimeUnit(d.time_unit),
        Metric::Datetime(d) => view.len() == 1 && key_at(view, 0, "time_unit"@) && view[0].1
            == Value::TimeUnit(d.time_unit),
        Metric::TimingDistribution(d) => view.len() == 1 && key_at(view, 0, "time_unit"@)
            && view[0].1 == Value::TimeUnit(d.time_unit),
        Metric::MemoryDistribution(d) => view.len() == 1 && key_at(view, 0, "memory_unit"@)
            && view[0].1 == Value::MemoryUnit(d.memory_unit),
        Metric::CustomDistribution(d) => {
            &&& view.len() == 4
            &&& key_at(view, 0, "bucket_count"@) && view[0].1 == Value::Number(
                d.bucket_count as u64,
            )
            &&& key_at(view, 1, "histogram_type"@) && view[1].1 == Value::HistogramType(
                d.histogram_type,
            )
            &&& key_at(view, 2, "range_max"@) && view[2].1 == Value::Number(d.range_max as u64)
            &&& key_at(view, 3, "range_min"@) && view[3].1 == Value::Number(d.range_min as u64)
        },
        _ => view.len() == 0,
    }
}

/// The names of the metric kinds, one per kind, a rate of either form being `rate`.
pub open spec fn kind_names() -> Seq<Seq<char>> {
    seq![
        "counter"@,
        "labeled_counter"@,
        "boolean"@,
        "labeled_boolean"@,
        "string"@,
        "labeled_string"@,
        "string_list"@,
        "timespan"@,
        "timing_distribution"@,
        "memory_distribution"@,
        "custom_distribution"@,
        "uuid"@,
        "url"@,
        "datetime"@,
        "event"@,
        "rate"@,
        "text"@,
        "quantity"@,
    ]
}

/// `kind_name` depends on the metric's kind alone, always yields one of `kind_names`,
/// yields each of them for some metric, and those eighteen names are distinct.
pub proof fn lemma_kind_names(m1: Metric, m2: Metric)
    ensures
        m1 == m2 ==> m1.kind_name_spec() == m2.kind_name_spec(),
        kind_names().contains(m1.kind_name_spec()),
        kind_names().len() == 18,
        kind_names().no_duplicates(),
        forall|i: int|
            0 <= i < kind_names().len() ==> exists|m: Metric| #[trigger] kind_names()[i] == m.kind_name_spec(),
{
    reveal_strlit("counter");
    reveal_strlit("labeled_counter");
    reveal_strlit("boolean");
    reveal_strlit("labeled_boolean");
    reveal_strlit("string");
    reveal_strlit("labeled_string");
    reveal_strlit("string_list");
    reveal_strlit("timespan");
    reveal_strlit("timing_distribution");
    reveal_strlit("memory_distribution");
    reveal_strlit("custom_distribution");
    reveal_strlit("uuid");
    reveal_strlit("url");
    reveal_strlit("datetime");
    reveal_strlit("event");
    reveal_strlit("rate");
    reveal_strlit("text");
    reveal_strlit("quantity");
    let names = kind_names();
    assert(names[0] == "counter"@);
    assert(names[1] == "labeled_counter"@);
    assert(names[2] == "boolean"@);
    assert(names[3] == "labeled_boolean"@);
    assert(names[4] == "string"@);
    assert(names[5] == "labeled_string"@);
    assert(names[6] == "string_list"@);
    assert(names[7] == "timespan"@);
    assert(names[8] == "timing_distribution"@);
    assert(names[9] == "memory_distribution"@);
    assert(names[10] == "custom_distribution"@);
    assert(names[11] == "uuid"@);
    assert(names[12] == "url"@);
    assert(names[13] == "datetime"@);
    assert(names[14] == "event"@);
    assert(names[15] == "rate"@);
    assert(names[16] == "text"@);
    assert(names[17] == "quantity"@);
    assert(names.contains(m1.kind_name_spec()));
    assert(names[0] == Metric::Counter(arbitrary()).kind_name_spec());
    assert(names[1] == Metric::LabeledCounter(arbitrary()).kind_name_spec());
    assert(names[2] == Metric::Boolean(arbitrary()).kind_name_spec());
    assert(names[3] == Metric::LabeledBoolean(arbitrary()).kind_name_spec());
    assert(names[4] == Metric::String(arbitrary()).kind_name_spec());
    assert(names[5] == Metric::LabeledString(arbitrary()).kind_name_spec());
    assert(names[6] == Metric::StringList(arbitrary()).kind_name_spec());
    assert(names[7] == Metric::Timespan(arbitrary()).kind_name_spec());
    assert(names[8] == Metric::TimingDistribution(arbitrary()).kind_name_spec());
    assert(names[9] == Metric::MemoryDistribution(arbitrary()).kind_name_spec());
    assert(names[10] == Metric::CustomDistribution(arbitrary()).kind_name_spec());
    assert(names[11] == Metric::Uuid(arbitrary()).kind_name_spec());
    assert(names[12] == Metric::Url(arbitrary()).kind_name_spec());
    assert(names[13] == Metric::Datetime(arbitrary()).kind_name_spec());
    assert(names[14] == Metric::Event(arbitrary()).kind_name_spec());
    assert(names[15] == Metric::Rate(arbitrary()).kind_name_spec());
    assert(names[16] == Metric::Text(arbitrary()).kind_name_spec());
    assert(names[17] == Metric::Quantity(arbitrary()).kind_name_spec());
    assert forall|i: int, j: int| 0 <= i < names.len() && 0 <= j < names.len() && i != j implies names[i] != names[j] by {
        if names[i] == names[j] {
            assert(names[i].len() == names[j].len());
            assert(names[i][0] == names[j][0]);
            if names[i].len() > 8 {
                assert(names[i][8] == names[j][8]);
            }
        }
    }
}

} // verus!
