use vstd::prelude::*;
use vstd::string::*;

use crate::literal::Value;
use crate::metrics::{
    CommonMetricData, CustomDistribution, Datetime, Event, HistogramType, LabeledData, Lifetime,
    MemoryDistribution, MemoryUnit, Metric, Quantity, RateExternal, TimeUnit, Timespan,
    TimingDistribution,
};

verus! {

/// The common data of a metric, as plain values.
pub struct CommonModel {
    pub lifetime: Lifetime,
    pub description: Seq<char>,
    pub bugs: Seq<Seq<char>>,
    pub data_reviews: Seq<Seq<char>>,
    pub notification_emails: Seq<Seq<char>>,
    pub expires: Seq<char>,
}

/// The kind-specific data of a metric, as plain values.
pub enum ExtraModel {
    Plain,
    Labels(Option<Seq<Seq<char>>>),
    Time(TimeUnit),
    Memory(MemoryUnit),
    Custom(usize, usize, usize, HistogramType),
    Keys(Seq<(String, Value)>),
    Denominator(Seq<char>),
    Unit(Option<Seq<char>>),
}

/// A metric as plain values: the tag that the document gives its kind, its
/// common data and its kind-specific data.
pub struct MetricModel {
    pub tag: Seq<char>,
    pub common: CommonModel,
    pub extra: ExtraModel,
}

pub open spec fn texts(v: Seq<String>) -> Seq<Seq<char>> {
    v.map_values(|s: String| s@)
}

pub open spec fn common_model(c: CommonMetricData) -> CommonModel {
    CommonModel {
        lifetime: c.lifetime,
        description: c.description@,
        bugs: texts(c.bugs@),
        data_reviews: texts(c.data_reviews@),
        notification_emails: texts(c.notification_emails@),
        expires: c.expires@,
    }
}

pub open spec fn opt_texts(v: Option<Vec<String>>) -> Option<Seq<Seq<char>>> {
    match v {
        Some(l) => Some(texts(l@)),
        None => None,
    }
}

pub open spec fn opt_text(v: Option<String>) -> Option<Seq<char>> {
    match v {
        Some(s) => Some(s@),
        None => None,
    }
}

/// The tag that a definition document writes in `type` for the metric's kind.
pub open spec fn tag_of(m: Metric) -> Seq<char> {
    match m {
        Metric::RateExternal(_) => "rate_external"@,
        _ => m.kind_name_spec(),
    }
}

pub open spec fn extra_model(m: Metric) -> ExtraModel {
    match m {
        Metric::LabeledCounter(d) | Metric::LabeledBoolean(d) | Metric::LabeledString(d) => {
            ExtraModel::Labels(opt_texts(d.labels))
        },
        Metric::Timespan(d) => ExtraModel::Time(d.time_unit),
        Metric::Datetime(d) => ExtraModel::Time(d.time_unit),
        Metric::TimingDistribution(d) => ExtraModel::Time(d.time_unit),
        Metric::MemoryDistribution(d) => ExtraModel::Memory(d.memory_unit),
        Metric::CustomDistribution(d) => ExtraModel::Custom(
            d.range_min,
            d.range_max,
            d.bucket_count,
            d.histogram_type,
        ),
        Metric::Event(d) => ExtraModel::Keys(d.extra_keys@),
        Metric::RateExternal(d) => ExtraModel::Denominator(d.denominator_metric@),
        Metric::Quantity(d) => ExtraModel::Unit(opt_text(d.unit)),
        _ => ExtraModel::Plain,
    }
}

pub open spec fn metric_model(m: Metric) -> MetricModel {
    MetricModel { tag: tag_of(m), common: common_model(m.common_spec()), extra: extra_model(m) }
}

/// Why a document fragment does not describe a metric: an unknown kind, a missing
/// required field, or a field of the wrong shape.
#[derive(Debug, PartialEq, Eq, Structural)]
pub struct DecodeError;

/// The value of the first entry whose key is `key`.
pub open spec fn lookup(entries: Seq<(String, Value)>, key: Seq<char>) -> Option<Value>
    decreases entries.len(),
{
    if entries.len() == 0 {
        None
    } else if entries[0].0@ == key {
        Some(entries[0].1)
    } else {
        lookup(entries.skip(1), key)
    }
}

pub open spec fn str_view(v: Value) -> Seq<char> {
    match v {
        Value::Str(s) => s@,
        _ => seq![],
    }
}

/// A required string field.
pub open spec fn text_of(v: Option<Value>) -> Option<Seq<char>> {
    match v {
        Some(Value::Str(s)) => Some(s@),
        _ => None,
    }
}

pub open spec fn all_texts(items: Seq<Value>) -> bool {
    forall|i: int| 0 <= i < items.len() ==> #[trigger] items[i] is Str
}

/// A required list of strings.
pub open spec fn texts_of(v: Option<Value>) -> Option<Seq<Seq<char>>> {
    match v {
        Some(Value::List(items)) => if all_texts(items@) {
            Some(items@.map_values(|x: Value| str_view(x)))
        } else {
            None
        },
        _ => None,
    }
}

/// An optional list of strings: absent or null is `None`.
pub open spec fn opt_texts_of(v: Option<Value>) -> Option<Option<Seq<Seq<char>>>> {
    match v {
        None => Some(None),
        Some(Value::Null) => Some(None),
        _ => match texts_of(v) {
            Some(t) => Some(Some(t)),
            None => None,
        },
    }
}

/// An optional string: absent or null is `None`.
pub open spec fn opt_text_of(v: Option<Value>) -> Option<Option<Seq<char>>> {
    match v {
        None => Some(None),
        Some(Value::Null) => Some(None),
        Some(Value::Str(s)) => Some(Some(s@)),
        _ => None,
    }
}

/// The lifetime, `Ping` where the field is absent.
pub open spec fn lifetime_of(v: Option<Value>) -> Option<Lifetime> {
    match v {
        None => Some(Lifetime::Ping),
        Some(Value::Str(s)) => if s@ == "ping"@ {
            Some(Lifetime::Ping)
        } else if s@ == "application"@ {
            Some(Lifetime::Application)
        } else if s@ == "user"@ {
            Some(Lifetime::User)
        } else {
            None
        },
        _ => None,
    }
}

pub open spec fn time_unit_of(v: Option<Value>) -> Option<TimeUnit> {
    match v {
        Some(Value::Str(s)) => if s@ == "millisecond"@ {
            Some(TimeUnit::Millisecond)
        } else if s@ == "second"@ {
            Some(TimeUnit::Second)
        } else if s@ == "minute"@ {
            Some(TimeUnit::Minute)
        } else if s@ == "hour"@ {
            Some(TimeUnit::Hour)
        } else if s@ == "day"@ {
            Some(TimeUnit::Day)
        } else {
            None
        },
        _ => None,
    }
}

pub open spec fn memory_unit_of(v: Option<Value>) -> Option<MemoryUnit> {
    match v {
        Some(Value::Str(s)) => if s@ == "byte"@ {
            Some(MemoryUnit::Byte)
        } else if s@ == "kilobyte"@ {
            Some(MemoryUnit::Kilobyte)
        } else if s@ == "megabyte"@ {
            Some(MemoryUnit::Megabyte)
        } else if s@ == "gigabyte"@ {
            Some(MemoryUnit::Gigabyte)
        } else {
            None
        },
        _ => None,
    }
}

pub open spec fn histogram_type_of(v: Option<Value>) -> Option<HistogramType> {
    match v {
        Some(Value::Str(s)) => if s@ == "linear"@ {
            Some(HistogramType::Linear)
        } else if s@ == "exponential"@ {
            Some(HistogramType::Exponential)
        } else {
            None
        },
        _ => None,
    }
}

/// A required unsigned integer that fits a `usize`.
pub open spec fn size_of(v: Option<Value>) -> Option<usize> {
    match v {
        Some(Value::Number(n)) => if n <= usize::MAX {
            Some(n as usize)
        } else {
            None
        },
        _ => None,
    }
}

pub open spec fn common_of(e: Seq<(String, Value)>) -> Option<CommonModel> {
    let lifetime = lifetime_of(lookup(e, "lifetime"@));
    let description = text_of(lookup(e, "description"@));
    let bugs = texts_of(lookup(e, "bugs"@));
    let data_reviews = texts_of(lookup(e, "data_reviews"@));
    let emails = texts_of(lookup(e, "notification_emails"@));
    let expires = text_of(lookup(e, "expires"@));
    if lifetime is Some && description is Some && bugs is Some && data_reviews is Some
        && emails is Some && expires is Some {
        Some(
            CommonModel {
                lifetime: lifetime.unwrap(),
                description: description.unwrap(),
                bugs: bugs.unwrap(),
                data_reviews: data_reviews.unwrap(),
                notification_emails: emails.unwrap(),
                expires: expires.unwrap(),
            },
        )
    } else {
        None
    }
}

/// The tags of the kinds whose payload is the common data alone.
pub open spec fn is_plain_tag(t: Seq<char>) -> bool {
    t == "boolean"@ || t == "counter"@ || t == "string"@ || t == "string_list"@ || t == "uuid"@
        || t == "url"@ || t == "rate"@ || t == "text"@
}

pub open spec fn is_labeled_tag(t: Seq<char>) -> bool {
    t == "labeled_boolean"@ || t == "labeled_counter"@ || t == "labeled_string"@
}

pub open spec fn is_time_tag(t: Seq<char>) -> bool {
    t == "timespan"@ || t == "timing_distribution"@ || t == "datetime"@
}

/// The kind-specific data that the tag `t` asks for, or `None` where the tag is
/// unknown or a field it needs is missing or malformed.
pub open spec fn extra_of(t: Seq<char>, e: Seq<(String, Value)>) -> Option<ExtraModel> {
    if is_plain_tag(t) {
        Some(ExtraModel::Plain)
    } else if is_labeled_tag(t) {
        match opt_texts_of(lookup(e, "labels"@)) {
            Some(l) => Some(ExtraModel::Labels(l)),
            None => None,
        }
    } else if is_time_tag(t) {
        match time_unit_of(lookup(e, "time_unit"@)) {
            Some(u) => Some(ExtraModel::Time(u)),
            None => None,
        }
    } else if t == "memory_distribution"@ {
        match memory_unit_of(lookup(e, "memory_unit"@)) {
            Some(u) => Some(ExtraModel::Memory(u)),
            None => None,
        }
    } else if t == "custom_distribution"@ {
        let lo = size_of(lookup(e, "range_min"@));
        let hi = size_of(lookup(e, "range_max"@));
        let n = size_of(lookup(e, "bucket_count"@));
        let h = histogram_type_of(lookup(e, "histogram_type"@));
        if lo is Some && hi is Some && n is Some && h is Some {
            Some(ExtraModel::Custom(lo.unwrap(), hi.unwrap(), n.unwrap(), h.unwrap()))
        } else {
            None
        }
    } else if t == "event"@ {
        match lookup(e, "extra_keys"@) {
            Some(Value::Mapping(keys)) => Some(ExtraModel::Keys(keys@)),
            _ => None,
        }
    } else if t == "rate_external"@ {
        match text_of(lookup(e, "denominator_metric"@)) {
            Some(d) => Some(ExtraModel::Denominator(d)),
            None => None,
        }
    } else if t == "quantity"@ {
        match opt_text_of(lookup(e, "unit"@)) {
            Some(u) => Some(ExtraModel::Unit(u)),
            None => None,
        }
    } else {
        None
    }
}

/// The metric that a document fragment describes, or `None` where it describes none.
pub open spec fn decode_spec(doc: Value) -> Option<MetricModel> {
    match doc {
        Value::Mapping(entries) => {
            let tag = text_of(lookup(entries@, "type"@));
            let common = common_of(entries@);
            if tag is Some && common is Some {
                match extra_of(tag.unwrap(), entries@) {
                    Some(extra) => Some(
                        MetricModel { tag: tag.unwrap(), common: common.unwrap(), extra },
                    ),
                    None => None,
                }
            } else {
                None
            }
        },
        _ => None,
    }
}

fn text_is(s: &String, lit: &str) -> (r: bool)
    ensures
        r == (s@ == lit@),
{
    let t = String::from_str(lit);
    *s == t
}

/// Index of the first entry whose key is `key`.
fn find(entries: &Vec<(String, Value)>, key: &str) -> (r: Option<usize>)
    ensures
        match r {
            Some(i) => i < entries@.len() && lookup(entries@, key@) == Some(entries@[i as int].1),
            None => lookup(entries@, key@) is None,
        },
{
    let k = String::from_str(key);
    let mut i: usize = 0;
    assert(entries@.skip(0) =~= entries@);
    while i < entries.len()
        invariant
            0 <= i <= entries@.len(),
            k@ == key@,
            lookup(entries@, key@) == lookup(entries@.skip(i as int), key@),
        decreases entries@.len() - i,
    {
        assert(entries@.skip(i as int)[0] == entries@[i as int]);
        if entries[i].0 == k {
            return Some(i);
        }
        assert(entries@.skip(i as int).skip(1) =~= entries@.skip(i + 1));
        i = i + 1;
    }
    None
}

fn req_text(entries: &Vec<(String, Value)>, key: &str) -> (r: Result<String, DecodeError>)
    ensures
        match text_of(lookup(entries@, key@)) {
            Some(t) => r is Ok && r.unwrap()@ == t,
            None => r is Err,
        },
{
    match find(entries, key) {
        Some(i) => match &entries[i].1 {
            Value::Str(s) => Ok(s.clone()),
            _ => Err(DecodeError),
        },
        None => Err(DecodeError),
    }
}

fn texts_of_list(items: &Vec<Value>) -> (r: Result<Vec<String>, DecodeError>)
    ensures
        match r {
            Ok(l) => all_texts(items@) && texts(l@) == items@.map_values(|x: Value| str_view(x)),
            Err(_) => !all_texts(items@),
        },
{
    let mut out: Vec<String> = Vec::new();
    let mut i: usize = 0;
    while i < items.len()
        invariant
            0 <= i <= items@.len(),
            out@.len() == i,
            forall|j: int| 0 <= j < i ==> #[trigger] items@[j] is Str,
            forall|j: int| 0 <= j < i ==> (#[trigger] out@[j])@ == str_view(items@[j]),
        decreases items@.len() - i,
    {
        match &items[i] {
            Value::Str(s) => out.push(s.clone()),
            _ => return Err(DecodeError),
        }
        i = i + 1;
    }
    assert(texts(out@) =~= items@.map_values(|x: Value| str_view(x)));
    Ok(out)
}

fn req_texts(entries: &Vec<(String, Value)>, key: &str) -> (r: Result<Vec<String>, DecodeError>)
    ensures
        match texts_of(lookup(entries@, key@)) {
            Some(t) => r is Ok && texts(r.unwrap()@) == t,
            None => r is Err,
        },
{
    match find(entries, key) {
        Some(i) => match &entries[i].1 {
            Value::List(items) => texts_of_list(items),
            _ => Err(DecodeError),
        },
        None => Err(DecodeError),
    }
}

fn opt_texts_field(entries: &Vec<(String, Value)>, key: &str) -> (r: Result<
    Option<Vec<String>>,
    DecodeError,
>)
    ensures
        match opt_texts_of(lookup(entries@, key@)) {
            Some(t) => r is Ok && opt_texts(r.unwrap()) == t,
            None => r is Err,
        },
{
    match find(entries, key) {
        Some(i) => match &entries[i].1 {
            Value::Null => Ok(None),
            Value::List(items) => match texts_of_list(items) {
                Ok(l) => Ok(Some(l)),
                Err(e) => Err(e),
            },
            _ => Err(DecodeError),
        },
        None => Ok(None),
    }
}

fn opt_text_field(entries: &Vec<(String, Value)>, key: &str) -> (r: Result<Option<String>, DecodeError>)
    ensures
        match opt_text_of(lookup(entries@, key@)) {
            Some(t) => r is Ok && opt_text(r.unwrap()) == t,
            None => r is Err,
        },
{
    match find(entries, key) {
        Some(i) => match &entries[i].1 {
            Value::Null => Ok(None),
            Value::Str(s) => Ok(Some(s.clone())),
            _ => Err(DecodeError),
        },
        None => Ok(None),
    }
}

fn lifetime_field(entries: &Vec<(String, Value)>) -> (r: Result<Lifetime, DecodeError>)
    ensures
        match lifetime_of(lookup(entries@, "lifetime"@)) {
            Some(l) => r == Ok::<Lifetime, DecodeError>(l),
            None => r is Err,
        },
{
    match find(entries, "lifetime") {
        Some(i) => match &entries[i].1 {
            Value::Str(s) => if text_is(s, "ping") {
                Ok(Lifetime::Ping)
            } else if text_is(s, "application") {
                Ok(Lifetime::Application)
            } else if text_is(s, "user") {
                Ok(Lifetime::User)
            } else {
                Err(DecodeError)
            },
            _ => Err(DecodeError),
        },
        None => Ok(Lifetime::Ping),
    }
}

fn time_unit_field(entries: &Vec<(String, Value)>) -> (r: Result<TimeUnit, DecodeError>)
    ensures
        match time_unit_of(lookup(entries@, "time_unit"@)) {
            Some(u) => r == Ok::<TimeUnit, DecodeError>(u),
            None => r is Err,
        },
{
    match find(entries, "time_unit") {
        Some(i) => match &entries[i].1 {
            Value::Str(s) => if text_is(s, "millisecond") {
                Ok(TimeUnit::Millisecond)
            } else if text_is(s, "second") {
                Ok(TimeUnit::Second)
            } else if text_is(s, "minute") {
                Ok(TimeUnit::Minute)
            } else if text_is(s, "hour") {
                Ok(TimeUnit::Hour)
            } else if text_is(s, "day") {
                Ok(TimeUnit::Day)
            } else {
                Err(DecodeError)
            },
            _ => Err(DecodeError),
        },
        None => Err(DecodeError),
    }
}

fn memory_unit_field(entries: &Vec<(String, Value)>) -> (r: Result<MemoryUnit, DecodeError>)
    ensures
        match memory_unit_of(lookup(entries@, "memory_unit"@)) {
            Some(u) => r == Ok::<MemoryUnit, DecodeError>(u),
            None => r is Err,
        },
{
    match find(entries, "memory_unit") {
        Some(i) => match &entries[i].1 {
            Value::Str(s) => if text_is(s, "byte") {
                Ok(MemoryUnit::Byte)
            } else if text_is(s, "kilobyte") {
                Ok(MemoryUnit::Kilobyte)
            } else if text_is(s, "megabyte") {
                Ok(MemoryUnit::Megabyte)
            } else if text_is(s, "gigabyte") {
                Ok(MemoryUnit::Gigabyte)
            } else {
                Err(DecodeError)
            },
            _ => Err(DecodeError),
        },
        None => Err(DecodeError),
    }
}

fn histogram_type_field(entries: &Vec<(String, Value)>) -> (r: Result<HistogramType, DecodeError>)
    ensures
        match histogram_type_of(lookup(entries@, "histogram_type"@)) {
            Some(h) => r == Ok::<HistogramType, DecodeError>(h),
            None => r is Err,
        },
{
    match find(entries, "histogram_type") {
        Some(i) => match &entries[i].1 {
            Value::Str(s) => if text_is(s, "linear") {
                Ok(HistogramType::Linear)
            } else if text_is(s, "exponential") {
                Ok(HistogramType::Exponential)
            } else {
                Err(DecodeError)
            },
            _ => Err(DecodeError),
        },
        None => Err(DecodeError),
    }
}

fn size_field(entries: &Vec<(String, Value)>, key: &str) -> (r: Result<usize, DecodeError>)
    ensures
        match size_of(lookup(entries@, key@)) {
            Some(n) => r == Ok::<usize, DecodeError>(n),
            None => r is Err,
        },
{
    match find(entries, key) {
        Some(i) => match &entries[i].1 {
            Value::Number(n) => if *n <= usize::MAX as u64 {
                Ok(*n as usize)
            } else {
                Err(DecodeError)
            },
            _ => Err(DecodeError),
        },
        None => Err(DecodeError),
    }
}

fn common_field(entries: &Vec<(String, Value)>) -> (r: Result<CommonMetricData, DecodeError>)
    ensures
        match common_of(entries@) {
            Some(c) => r is Ok && common_model(r.unwrap()) == c,
            None => r is Err,
        },
{
    let lifetime = lifetime_field(entries);
    let description = req_text(entries, "description");
    let bugs = req_texts(entries, "bugs");
    let data_reviews = req_texts(entries, "data_reviews");
    let notification_emails = req_texts(entries, "notification_emails");
    let expires = req_text(entries, "expires");
    match (lifetime, description, bugs, data_reviews, notification_emails, expires) {
        (Ok(lifetime), Ok(description), Ok(bugs), Ok(data_reviews), Ok(notification_emails), Ok(expires)) => {
            Ok(CommonMetricData { lifetime, description, bugs, data_reviews, notification_emails, expires })
        },
        _ => Err(DecodeError),
    }
}

/// Removes the first entry whose key is `key` and hands out its mapping.
fn take_mapping(entries: &mut Vec<(String, Value)>, key: &str) -> (r: Result<
    Vec<(String, Value)>,
    DecodeError,
>)
    ensures
        match lookup(old(entries)@, key@) {
            Some(Value::Mapping(keys)) => r == Ok::<Vec<(String, Value)>, DecodeError>(keys),
            _ => r is Err,
        },
{
    match find(entries, key) {
        Some(i) => {
            let (_, v) = entries.remove(i);
            match v {
                Value::Mapping(keys) => Ok(keys),
                _ => Err(DecodeError),
            }
        },
        None => Err(DecodeError),
    }
}

/// Decodes one metric definition, a mapping with its kind under `type`. Fails where
/// the kind is unknown, or a field that the kind requires is missing or malformed;
/// `lifetime` defaults to `ping`, and keys that the kind does not use are ignored.
pub fn decode_metric(doc: Value) -> (r: Result<Metric, DecodeError>)
    ensures
        match decode_spec(doc) {
            Some(m) => r is Ok && metric_model(r.unwrap()) == m,
            None => r is Err,
        },
{
    let mut entries = match doc {
        Value::Mapping(entries) => entries,
        _ => return Err(DecodeError),
    };
    let tag = match req_text(&entries, "type") {
        Ok(t) => t,
        Err(err) => return Err(err),
    };
    let common = match common_field(&entries) {
        Ok(c) => c,
        Err(err) => return Err(err),
    };
    if text_is(&tag, "boolean") {
        Ok(Metric::Boolean(common))
    } else if text_is(&tag, "counter") {
        Ok(Metric::Counter(common))
    } else if text_is(&tag, "string") {
        Ok(Metric::String(common))
    } else if text_is(&tag, "string_list") {
        Ok(Metric::StringList(common))
    } else if text_is(&tag, "uuid") {
        Ok(Metric::Uuid(common))
    } else if text_is(&tag, "url") {
        Ok(Metric::Url(common))
    } else if text_is(&tag, "rate") {
        Ok(Metric::Rate(common))
    } else if text_is(&tag, "text") {
        Ok(Metric::Text(common))
    } else if text_is(&tag, "labeled_boolean") {
        match opt_texts_field(&entries, "labels") {
            Ok(labels) => Ok(Metric::LabeledBoolean(LabeledData { common_metric_data: common, labels })),
            Err(e) => Err(e),
        }
    } else if text_is(&tag, "labeled_counter") {
        match opt_texts_field(&entries, "labels") {
            Ok(labels) => Ok(Metric::LabeledCounter(LabeledData { common_metric_data: common, labels })),
            Err(e) => Err(e),
        }
    } else if text_is(&tag, "labeled_string") {
        match opt_texts_field(&entries, "labels") {
            Ok(labels) => Ok(Metric::LabeledString(LabeledData { common_metric_data: common, labels })),
            Err(e) => Err(e),
        }
    } else if text_is(&tag, "timespan") {
        match time_unit_field(&entries) {
            Ok(time_unit) => Ok(Metric::Timespan(Timespan { common_metric_data: common, time_unit })),
            Err(e) => Err(e),
        }
    } else if text_is(&tag, "timing_distribution") {
        match time_unit_field(&entries) {
            Ok(time_unit) => Ok(Metric::TimingDistribution(TimingDistribution { common_metric_data: common, time_unit })),
            Err(e) => Err(e),
        }
    } else if text_is(&tag, "datetime") {
        match time_unit_field(&entries) {
            Ok(time_unit) => Ok(Metric::Datetime(Datetime { common_metric_data: common, time_unit })),
            Err(e) => Err(e),
        }
    } else if text_is(&tag, "memory_distribution") {
        match memory_unit_field(&entries) {
            Ok(memory_unit) => Ok(
                Metric::MemoryDistribution(MemoryDistribution { common_metric_data: common, memory_unit }),
            ),
            Err(e) => Err(e),
        }
    } else if text_is(&tag, "custom_distribution") {
        let range_min = size_field(&entries, "range_min");
        let range_max = size_field(&entries, "range_max");
        let bucket_count = size_field(&entries, "bucket_count");
        let histogram_type = histogram_type_field(&entries);
        match (range_min, range_max, bucket_count, histogram_type) {
            (Ok(range_min), Ok(range_max), Ok(bucket_count), Ok(histogram_type)) => Ok(
                Metric::CustomDistribution(
                    CustomDistribution {
                        common_metric_data: common,
                        range_min,
                        range_max,
                        bucket_count,
                        histogram_type,
                    },
                ),
            ),
            _ => Err(DecodeError),
        }
    } else if text_is(&tag, "event") {
        match take_mapping(&mut entries, "extra_keys") {
            Ok(extra_keys) => Ok(Metric::Event(Event { common_metric_data: common, extra_keys })),
            Err(e) => Err(e),
        }
    } else if text_is(&tag, "rate_external") {
        match req_text(&entries, "denominator_metric") {
            Ok(denominator_metric) => Ok(
                Metric::RateExternal(RateExternal { common_metric_data: common, denominator_metric }),
            ),
            Err(e) => Err(e),
        }
    } else if text_is(&tag, "quantity") {
        match opt_text_field(&entries, "unit") {
            Ok(unit) => Ok(Metric::Quantity(Quantity { common_metric_data: common, unit })),
            Err(e) => Err(e),
        }
    } else {
        Err(DecodeError)
    }
}

proof fn lemma_lookup_push(s: Seq<(String, Value)>, x: (String, Value), k: Seq<char>)
    ensures
        lookup(s.push(x), k) == (if lookup(s, k) is Some {
            lookup(s, k)
        } else if x.0@ == k {
            Some(x.1)
        } else {
            None
        }),
    decreases s.len(),
{
    if s.len() > 0 {
        lemma_lookup_push(s.skip(1), x, k);
        assert(s.push(x).skip(1) =~= s.skip(1).push(x));
    } else {
        assert(s.push(x).skip(1) =~= s);
    }
}

/// Keys of the common fields, and of the kind, in a definition document.
pub open spec fn is_common_key(k: Seq<char>) -> bool {
    k == "type"@ || k == "lifetime"@ || k == "description"@ || k == "bugs"@ || k
        == "data_reviews"@ || k == "notification_emails"@ || k == "expires"@
}

proof fn lemma_key_lengths()
    ensures
        "type"@.len() == 4,
        "lifetime"@.len() == 8,
        "description"@.len() == 11,
        "bugs"@.len() == 4,
        "data_reviews"@.len() == 12,
        "notification_emails"@.len() == 19,
        "expires"@.len() == 7,
        "labels"@.len() == 6,
        "time_unit"@.len() == 9,
        "memory_unit"@.len() == 11,
        "range_min"@.len() == 9,
        "range_max"@.len() == 9,
        "bucket_count"@.len() == 12,
        "histogram_type"@.len() == 14,
        "extra_keys"@.len() == 10,
        "denominator_metric"@.len() == 18,
        "unit"@.len() == 4,
        "type"@ != "bugs"@,
{
    reveal_strlit("type");
    reveal_strlit("lifetime");
    reveal_strlit("description");
    reveal_strlit("bugs");
    reveal_strlit("data_reviews");
    reveal_strlit("notification_emails");
    reveal_strlit("expires");
    reveal_strlit("labels");
    reveal_strlit("time_unit");
    reveal_strlit("memory_unit");
    reveal_strlit("range_min");
    reveal_strlit("range_max");
    reveal_strlit("bucket_count");
    reveal_strlit("histogram_type");
    reveal_strlit("extra_keys");
    reveal_strlit("denominator_metric");
    reveal_strlit("unit");
    assert("type"@[0] != "bugs"@[0]);
}

proof fn lemma_extra_keys_not_common()
    ensures
        !is_common_key("labels"@),
        !is_common_key("time_unit"@),
        !is_common_key("memory_unit"@),
        !is_common_key("range_min"@),
        !is_common_key("range_max"@),
        !is_common_key("bucket_count"@),
        !is_common_key("histogram_type"@),
        !is_common_key("extra_keys"@),
        !is_common_key("denominator_metric"@),
        !is_common_key("unit"@),
        "range_min"@ != "range_max"@,
        "range_min"@ != "bucket_count"@,
        "range_min"@ != "histogram_type"@,
        "range_max"@ != "bucket_count"@,
        "range_max"@ != "histogram_type"@,
        "bucket_count"@ != "histogram_type"@,
{
    lemma_key_lengths();
    reveal_strlit("time_unit");
    reveal_strlit("memory_unit");
    reveal_strlit("unit");
    reveal_strlit("type");
    reveal_strlit("bugs");
    reveal_strlit("description");
    reveal_strlit("range_min");
    reveal_strlit("range_max");
    assert("memory_unit"@[0] != "description"@[0]);
    assert("unit"@[0] != "type"@[0]);
    assert("unit"@[0] != "bugs"@[0]);
    assert("range_min"@[7] != "range_max"@[7]);
    reveal_strlit("bucket_count");
    reveal_strlit("data_reviews");
    assert("bucket_count"@[0] != "data_reviews"@[0]);
}

fn texts_value(l: &Vec<String>) -> (r: Value)
    ensures
        texts_of(Some(r)) == Some(texts(l@)),
{
    let mut items: Vec<Value> = Vec::new();
    let mut i: usize = 0;
    while i < l.len()
        invariant
            0 <= i <= l@.len(),
            items@.len() == i,
            forall|j: int| 0 <= j < i ==> #[trigger] items@[j] is Str,
            forall|j: int| 0 <= j < i ==> str_view(#[trigger] items@[j]) == l@[j]@,
        decreases l@.len() - i,
    {
        items.push(Value::Str(l[i].clone()));
        i = i + 1;
    }
    assert(items@.map_values(|x: Value| str_view(x)) =~= texts(l@));
    Value::List(items)
}

fn push_entry(entries: &mut Vec<(String, Value)>, key: &str, v: Value)
    ensures
        final(entries)@ == old(entries)@.push((final(entries)@.last().0, v)),
        final(entries)@.last().0@ == key@,
        forall|k: Seq<char>|
            #![trigger lookup(final(entries)@, k)]
            lookup(final(entries)@, k) == (if lookup(old(entries)@, k) is Some {
                lookup(old(entries)@, k)
            } else if k == key@ {
                Some(v)
            } else {
                None
            }),
{
    let ghost before = entries@;
    entries.push((String::from_str(key), v));
    proof {
        assert forall|k: Seq<char>| #![trigger lookup(entries@, k)]
            lookup(entries@, k) == (if lookup(before, k) is Some {
                lookup(before, k)
            } else if k == key@ {
                Some(v)
            } else {
                None
            }) by {
            lemma_lookup_push(before, entries@.last(), k);
            assert(before.push(entries@.last()) =~= entries@);
        }
    }
}

proof fn lemma_lifetime_parse(s: String, l: Lifetime)
    requires
        s@ == l.name_spec(),
    ensures
        lifetime_of(Some(Value::Str(s))) == Some(l),
{
    reveal_strlit("ping");
    reveal_strlit("application");
    reveal_strlit("user");
    assert("ping"@[0] != "user"@[0]);
}

proof fn lemma_time_unit_parse(s: String, t: TimeUnit)
    requires
        s@ == t.name_spec(),
    ensures
        time_unit_of(Some(Value::Str(s))) == Some(t),
{
    reveal_strlit("millisecond");
    reveal_strlit("second");
    reveal_strlit("minute");
    reveal_strlit("hour");
    reveal_strlit("day");
    assert("millisecond"@.len() == 11);
    assert("second"@.len() == 6);
    assert("minute"@.len() == 6);
    assert("hour"@.len() == 4);
    assert("day"@.len() == 3);
    assert("second"@[1] != "minute"@[1]);
}

proof fn lemma_memory_unit_parse(s: String, m: MemoryUnit)
    requires
        s@ == m.name_spec(),
    ensures
        memory_unit_of(Some(Value::Str(s))) == Some(m),
{
    reveal_strlit("byte");
    reveal_strlit("kilobyte");
    reveal_strlit("megabyte");
    reveal_strlit("gigabyte");
    assert("kilobyte"@[0] != "megabyte"@[0]);
    assert("kilobyte"@[0] != "gigabyte"@[0]);
    assert("megabyte"@[0] != "gigabyte"@[0]);
}

proof fn lemma_histogram_type_parse(s: String, h: HistogramType)
    requires
        s@ == h.name_spec(),
    ensures
        histogram_type_of(Some(Value::Str(s))) == Some(h),
{
    reveal_strlit("linear");
    reveal_strlit("exponential");
    assert("linear"@.len() == 6);
    assert("exponential"@.len() == 11);
}

/// The entries for the kind's tag and the common data.
fn common_entries(tag: &str, cm: CommonMetricData) -> (r: Vec<(String, Value)>)
    ensures
        text_of(lookup(r@, "type"@)) == Some(tag@),
        common_of(r@) == Some(common_model(cm)),
        forall|k: Seq<char>| !is_common_key(k) ==> #[trigger] lookup(r@, k) is None,
{
    let mut r: Vec<(String, Value)> = Vec::new();
    let ghost s0 = r@;
    proof {
        assert forall|k: Seq<char>| #[trigger] lookup(s0, k) is None by {}
        lemma_key_lengths();
    }
    let lifetime = String::from_str(cm.lifetime.name());
    proof {
        lemma_lifetime_parse(lifetime, cm.lifetime);
    }
    let bugs = texts_value(&cm.bugs);
    let data_reviews = texts_value(&cm.data_reviews);
    let emails = texts_value(&cm.notification_emails);
    push_entry(&mut r, "type", Value::Str(String::from_str(tag)));
    push_entry(&mut r, "lifetime", Value::Str(lifetime));
    push_entry(&mut r, "description", Value::Str(cm.description));
    push_entry(&mut r, "bugs", bugs);
    push_entry(&mut r, "data_reviews", data_reviews);
    push_entry(&mut r, "notification_emails", emails);
    push_entry(&mut r, "expires", Value::Str(cm.expires));
    r
}

/// Each tag falls in exactly the branch of `extra_of` that its kind is decoded by.
proof fn lemma_tag_classes()
    ensures
        is_plain_tag("boolean"@),
        is_plain_tag("counter"@),
        is_plain_tag("string"@),
        is_plain_tag("string_list"@),
        is_plain_tag("uuid"@),
        is_plain_tag("url"@),
        is_plain_tag("rate"@),
        is_plain_tag("text"@),
        is_labeled_tag("labeled_boolean"@),
        !(is_plain_tag("labeled_boolean"@)),
        is_labeled_tag("labeled_counter"@),
        !(is_plain_tag("labeled_counter"@)),
        is_labeled_tag("labeled_string"@),
        !(is_plain_tag("labeled_string"@)),
        is_time_tag("timespan"@),
        !(is_plain_tag("timespan"@)),
        !(is_labeled_tag("timespan"@)),
        is_time_tag("timing_distribution"@),
        !(is_plain_tag("timing_distribution"@)),
        !(is_labeled_tag("timing_distribution"@)),
        is_time_tag("datetime"@),
        !(is_plain_tag("datetime"@)),
        !(is_labeled_tag("datetime"@)),
        "memory_distribution"@ == "memory_distribution"@,
        !(is_plain_tag("memory_distribution"@)),
        !(is_labeled_tag("memory_distribution"@)),
        !(is_time_tag("memory_distribution"@)),
        "custom_distribution"@ == "custom_distribution"@,
        !(is_plain_tag("custom_distribution"@)),
        !(is_labeled_tag("custom_distribution"@)),
        !(is_time_tag("custom_distribution"@)),
        !("custom_distribution"@ == "memory_distribution"@),
        "event"@ == "event"@,
        !(is_plain_tag("event"@)),
        !(is_labeled_tag("event"@)),
        !(is_time_tag("event"@)),
        !("event"@ == "memory_distribution"@),
        !("event"@ == "custom_distribution"@),
        "rate_external"@ == "rate_external"@,
        !(is_plain_tag("rate_external"@)),
        !(is_labeled_tag("rate_external"@)),
        !(is_time_tag("rate_external"@)),
        !("rate_external"@ == "memory_distribution"@),
        !("rate_external"@ == "custom_distribution"@),
        !("rate_external"@ == "event"@),
        "quantity"@ == "quantity"@,
        !(is_plain_tag("quantity"@)),
        !(is_labeled_tag("quantity"@)),
        !(is_time_tag("quantity"@)),
        !("quantity"@ == "memory_distribution"@),
        !("quantity"@ == "custom_distribution"@),
        !("quantity"@ == "event"@),
        !("quantity"@ == "rate_external"@),
{
    reveal_strlit("boolean");
    reveal_strlit("counter");
    reveal_strlit("string");
    reveal_strlit("string_list");
    reveal_strlit("uuid");
    reveal_strlit("url");
    reveal_strlit("rate");
    reveal_strlit("text");
    reveal_strlit("labeled_boolean");
    reveal_strlit("labeled_counter");
    reveal_strlit("labeled_string");
    reveal_strlit("timespan");
    reveal_strlit("timing_distribution");
    reveal_strlit("datetime");
    reveal_strlit("memory_distribution");
    reveal_strlit("custom_distribution");
    reveal_strlit("event");
    reveal_strlit("rate_external");
    reveal_strlit("quantity");
    assert("boolean"@.len() == 7);
    assert("boolean"@[0] == 'b');
    assert("counter"@.len() == 7);
    assert("counter"@[0] == 'c');
    assert("string"@.len() == 6);
    assert("string"@[0] == 's');
    assert("string_list"@.len() == 11);
    assert("string_list"@[0] == 's');
    assert("uuid"@.len() == 4);
    assert("uuid"@[0] == 'u');
    assert("url"@.len() == 3);
    assert("url"@[0] == 'u');
    assert("rate"@.len() == 4);
    assert("rate"@[0] == 'r');
    assert("text"@.len() == 4);
    assert("text"@[0] == 't');
    assert("labeled_boolean"@.len() == 15);
    assert("labeled_boolean"@[0] == 'l');
    assert("labeled_counter"@.len() == 15);
    assert("labeled_counter"@[0] == 'l');
    assert("labeled_string"@.len() == 14);
    assert("labeled_string"@[0] == 'l');
    assert("timespan"@.len() == 8);
    assert("timespan"@[0] == 't');
    assert("timing_distribution"@.len() == 19);
    assert("timing_distribution"@[0] == 't');
    assert("datetime"@.len() == 8);
    assert("datetime"@[0] == 'd');
    assert("memory_distribution"@.len() == 19);
    assert("memory_distribution"@[0] == 'm');
    assert("custom_distribution"@.len() == 19);
    assert("custom_distribution"@[0] == 'c');
    assert("event"@.len() == 5);
    assert("event"@[0] == 'e');
    assert("rate_external"@.len() == 13);
    assert("rate_external"@[0] == 'r');
    assert("quantity"@.len() == 8);
    assert("quantity"@[0] == 'q');
    assert("labeled_boolean"@[8] == 'b');
    assert("labeled_counter"@[8] == 'c');
}

fn labels_value(labels: Option<Vec<String>>) -> (r: Value)
    ensures
        opt_texts_of(Some(r)) == Some(opt_texts(labels)),
{
    match labels {
        Some(l) => texts_value(&l),
        None => Value::Null,
    }
}

fn unit_value(unit: Option<String>) -> (r: Value)
    ensures
        opt_text_of(Some(r)) == Some(opt_text(unit)),
{
    match unit {
        Some(u) => Value::Str(u),
        None => Value::Null,
    }
}

/// Writes a metric back as a definition document fragment: its tag under `type`,
/// its common fields, and its kind's own fields. Decoding the fragment gives the
/// metric back, whatever the kind.
pub fn encode_metric(m: Metric) -> (r: Value)
    ensures
        decode_spec(r) == Some(metric_model(m)),
{
    proof {
        lemma_tag_classes();
        lemma_extra_keys_not_common();
        lemma_key_lengths();
    }
    match m {
        Metric::Boolean(cm) => Value::Mapping(common_entries("boolean", cm)),
        Metric::Counter(cm) => Value::Mapping(common_entries("counter", cm)),
        Metric::String(cm) => Value::Mapping(common_entries("string", cm)),
        Metric::StringList(cm) => Value::Mapping(common_entries("string_list", cm)),
        Metric::Uuid(cm) => Value::Mapping(common_entries("uuid", cm)),
        Metric::Url(cm) => Value::Mapping(common_entries("url", cm)),
        Metric::Rate(cm) => Value::Mapping(common_entries("rate", cm)),
        Metric::Text(cm) => Value::Mapping(common_entries("text", cm)),
        Metric::LabeledBoolean(d) => {
            let mut e = common_entries("labeled_boolean", d.common_metric_data);
            push_entry(&mut e, "labels", labels_value(d.labels));
            Value::Mapping(e)
        },
        Metric::LabeledCounter(d) => {
            let mut e = common_entries("labeled_counter", d.common_metric_data);
            push_entry(&mut e, "labels", labels_value(d.labels));
            Value::Mapping(e)
        },
        Metric::LabeledString(d) => {
            let mut e = common_entries("labeled_string", d.common_metric_data);
            push_entry(&mut e, "labels", labels_value(d.labels));
            Value::Mapping(e)
        },
        Metric::Timespan(d) => {
            let mut e = common_entries("timespan", d.common_metric_data);
            let u = String::from_str(d.time_unit.name());
            proof {
                lemma_time_unit_parse(u, d.time_unit);
            }
            push_entry(&mut e, "time_unit", Value::Str(u));
            Value::Mapping(e)
        },
        Metric::TimingDistribution(d) => {
            let mut e = common_entries("timing_distribution", d.common_metric_data);
            let u = String::from_str(d.time_unit.name());
            proof {
                lemma_time_unit_parse(u, d.time_unit);
            }
            push_entry(&mut e, "time_unit", Value::Str(u));
            Value::Mapping(e)
        },
        Metric::Datetime(d) => {
            let mut e = common_entries("datetime", d.common_metric_data);
            let u = String::from_str(d.time_unit.name());
            proof {
                lemma_time_unit_parse(u, d.time_unit);
            }
            push_entry(&mut e, "time_unit", Value::Str(u));
            Value::Mapping(e)
        },
        Metric::MemoryDistribution(d) => {
            let mut e = common_entries("memory_distribution", d.common_metric_data);
            let u = String::from_str(d.memory_unit.name());
            proof {
                lemma_memory_unit_parse(u, d.memory_unit);
            }
            push_entry(&mut e, "memory_unit", Value::Str(u));
            Value::Mapping(e)
        },
        Metric::CustomDistribution(d) => {
            let mut e = common_entries("custom_distribution", d.common_metric_data);
            let h = String::from_str(d.histogram_type.name());
            proof {
                lemma_histogram_type_parse(h, d.histogram_type);
            }
            push_entry(&mut e, "range_min", Value::Number(d.range_min as u64));
            push_entry(&mut e, "range_max", Value::Number(d.range_max as u64));
            push_entry(&mut e, "bucket_count", Value::Number(d.bucket_count as u64));
            push_entry(&mut e, "histogram_type", Value::Str(h));
            Value::Mapping(e)
        },
        Metric::Event(d) => {
            let mut e = common_entries("event", d.common_metric_data);
            push_entry(&mut e, "extra_keys", Value::Mapping(d.extra_keys));
            Value::Mapping(e)
        },
        Metric::RateExternal(d) => {
            let mut e = common_entries("rate_external", d.common_metric_data);
            push_entry(&mut e, "denominator_metric", Value::Str(d.denominator_metric));
            Value::Mapping(e)
        },
        Metric::Quantity(d) => {
            let mut e = common_entries("quantity", d.common_metric_data);
            push_entry(&mut e, "unit", unit_value(d.unit));
            Value::Mapping(e)
        },
    }
}

/// The metrics of one category, in document order.
pub type MetricList = Vec<(String, Metric)>;

/// The categories of a document, in document order, each with its metrics.
pub type CategoryList = Vec<(String, MetricList)>;

pub open spec fn list_model(l: Seq<(String, Metric)>) -> Seq<(Seq<char>, MetricModel)> {
    l.map_values(|x: (String, Metric)| (x.0@, metric_model(x.1)))
}

pub open spec fn catalog_model(c: Seq<(String, MetricList)>) -> Seq<
    (Seq<char>, Seq<(Seq<char>, MetricModel)>),
> {
    c.map_values(|x: (String, MetricList)| (x.0@, list_model(x.1@)))
}

/// The metrics that the entries of one category describe, or `None` where one of
/// them describes none.
pub open spec fn category_spec(e: Seq<(String, Value)>) -> Option<Seq<(Seq<char>, MetricModel)>>
    decreases e.len(),
{
    if e.len() == 0 {
        Some(seq![])
    } else {
        match (decode_spec(e[0].1), category_spec(e.skip(1))) {
            (Some(m), Some(rest)) => Some(seq![(e[0].0@, m)] + rest),
            _ => None,
        }
    }
}

/// The categories that the top-level entries describe; the `$schema` entry is none.
pub open spec fn categories_spec(e: Seq<(String, Value)>) -> Option<
    Seq<(Seq<char>, Seq<(Seq<char>, MetricModel)>)>,
>
    decreases e.len(),
{
    if e.len() == 0 {
        Some(seq![])
    } else if e[0].0@ == "$schema"@ {
        categories_spec(e.skip(1))
    } else {
        match e[0].1 {
            Value::Mapping(metrics) => match (
                category_spec(metrics@),
                categories_spec(e.skip(1)),
            ) {
                (Some(c), Some(rest)) => Some(seq![(e[0].0@, c)] + rest),
                _ => None,
            },
            _ => None,
        }
    }
}

/// The catalog that a whole definition document describes: a mapping with a
/// `$schema` string, every other key naming a category.
pub open spec fn catalog_spec(doc: Value) -> Option<Seq<(Seq<char>, Seq<(Seq<char>, MetricModel)>)>> {
    match doc {
        Value::Mapping(entries) => if text_of(lookup(entries@, "$schema"@)) is Some {
            categories_spec(entries@)
        } else {
            None
        },
        _ => None,
    }
}

fn decode_category(metrics: Vec<(String, Value)>) -> (r: Result<MetricList, DecodeError>)
    ensures
        match category_spec(metrics@) {
            Some(c) => r is Ok && list_model(r.unwrap()@) == c,
            None => r is Err,
        },
{
    let ghost orig = metrics@;
    let mut rest = metrics;
    let mut out: MetricList = Vec::new();
    while rest.len() > 0
        invariant
            orig == metrics@,
            match category_spec(rest@) {
                Some(tail) => category_spec(orig) == Some(list_model(out@) + tail),
                None => category_spec(orig) is None,
            },
        decreases rest@.len(),
    {
        let ghost before = rest@;
        let (name, doc) = rest.remove(0);
        assert(rest@ =~= before.skip(1));
        match decode_metric(doc) {
            Ok(m) => {
                let ghost prev = out@;
                out.push((name, m));
                assert(list_model(out@) =~= list_model(prev) + seq![(name@, metric_model(m))]);
                proof {
                    if let Some(tail) = category_spec(rest@) {
                        assert(list_model(out@) + tail =~= list_model(prev) + (seq![(name@, metric_model(m))] + tail));
                    }
                }
            },
            Err(e) => {
                assert(category_spec(before) is None);
                return Err(e);
            },
        }
    }
    assert(list_model(out@) + seq![] =~= list_model(out@));
    Ok(out)
}

fn decode_categories(entries: Vec<(String, Value)>) -> (r: Result<CategoryList, DecodeError>)
    ensures
        match categories_spec(entries@) {
            Some(c) => r is Ok && catalog_model(r.unwrap()@) == c,
            None => r is Err,
        },
{
    let ghost orig = entries@;
    let mut rest = entries;
    let mut out: CategoryList = Vec::new();
    let schema_key = String::from_str("$schema");
    while rest.len() > 0
        invariant
            orig == entries@,
            schema_key@ == "$schema"@,
            match categories_spec(rest@) {
                Some(tail) => categories_spec(orig) == Some(catalog_model(out@) + tail),
                None => categories_spec(orig) is None,
            },
        decreases rest@.len(),
    {
        let ghost before = rest@;
        let (name, doc) = rest.remove(0);
        assert(rest@ =~= before.skip(1));
        if name == schema_key {
            continue;
        }
        match doc {
            Value::Mapping(metrics) => match decode_category(metrics) {
                Ok(list) => {
                    let ghost prev = out@;
                    out.push((name, list));
                    assert(catalog_model(out@) =~= catalog_model(prev) + seq![(name@, list_model(list@))]);
                    proof {
                        if let Some(tail) = categories_spec(rest@) {
                            assert(catalog_model(out@) + tail =~= catalog_model(prev) + (seq![(name@, list_model(list@))] + tail));
                        }
                    }
                },
                Err(e) => {
                    assert(categories_spec(before) is None);
                    return Err(e);
                },
            },
            _ => {
                assert(categories_spec(before) is None);
                return Err(DecodeError);
            },
        }
    }
    assert(catalog_model(out@) + seq![] =~= catalog_model(out@));
    Ok(out)
}

/// A decoded definition document: the schema it names, and its catalog.
#[derive(Debug)]
pub struct Content {
    pub schema: String,
    pub categories: CategoryList,
}

/// The schema that a whole definition document names under `$schema`.
pub open spec fn schema_of(doc: Value) -> Option<Seq<char>> {
    match doc {
        Value::Mapping(entries) => text_of(lookup(entries@, "$schema"@)),
        _ => None,
    }
}

/// Decodes a whole definition document into its catalog: categories and their
/// metrics in document order. Fails where `$schema` is not a string, a category is
/// not a mapping, or one metric fails to decode.
pub fn decode_catalog(doc: Value) -> (r: Result<Content, DecodeError>)
    ensures
        match catalog_spec(doc) {
            Some(c) => r is Ok && catalog_model(r.unwrap().categories@) == c && Some(
                r.unwrap().schema@,
            ) == schema_of(doc),
            None => r is Err,
        },
{
    match doc {
        Value::Mapping(entries) => {
            let schema = match req_text(&entries, "$schema") {
                Ok(s) => s,
                Err(e) => return Err(e),
            };
            match decode_categories(entries) {
                Ok(categories) => Ok(Content { schema, categories }),
                Err(e) => Err(e),
            }
        },
        _ => Err(DecodeError),
    }
}

} // verus!
