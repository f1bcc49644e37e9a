use vstd::prelude::*;

use heck::{ToLowerCamelCase, ToUpperCamelCase};

use crate::metrics::Metric;

verus! {

/// What heck's lower-camel conversion makes of a text.
pub uninterp spec fn lower_camel_of(s: Seq<char>) -> Seq<char>;

/// What heck's upper-camel conversion makes of a text.
pub uninterp spec fn upper_camel_of(s: Seq<char>) -> Seq<char>;

/// `s` is one non-empty word of lowercase ASCII letters.
pub open spec fn is_lower_word(s: Seq<char>) -> bool {
    s.len() > 0 && forall|i: int| 0 <= i < s.len() ==> 'a' <= #[trigger] s[i] <= 'z'
}

/// Relies on heck's `ToLowerCamelCase::to_lower_camel_case`: its result depends on
/// the text alone, and a single lowercase word is one word that stays lowercase.
#[verifier::external_body]
pub(crate) fn lower_camel(s: &str) -> (r: String)
    ensures
        r@ == lower_camel_of(s@),
        is_lower_word(s@) ==> r@ == s@,
{
    s.to_lower_camel_case()
}

/// Relies on heck's `ToUpperCamelCase::to_upper_camel_case`: its result depends on
/// the text alone.
#[verifier::external_body]
fn upper_camel(s: &str) -> (r: String)
    ensures
        r@ == upper_camel_of(s@),
{
    s.to_upper_camel_case()
}

/// Converts an identifier to upper camel case (`labeled_counter` to `LabeledCounter`).
pub fn upper_camelize(value: &str) -> (r: String)
    ensures
        r@ == upper_camel_of(value@),
{
    upper_camel(value)
}

/// Converts an identifier to lower camel case (`baseline_count` to `baselineCount`).
pub fn lower_camelize(value: &str) -> (r: String)
    ensures
        r@ == lower_camel_of(value@),
{
    lower_camel(value)
}

/// The name of the metric's kind as a type name of the generated code.
pub fn metric_type(metric: &Metric) -> (r: String)
    ensures
        r@ == upper_camel_of(metric.kind_name_spec()),
{
    upper_camel(metric.kind_name())
}

} // verus!
