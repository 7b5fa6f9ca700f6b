use vstd::prelude::*;

use crate::types::{EventEnvelope, EventField, FieldValue, FieldValueView};

verus! {

/// Every character of `s` is a decimal digit.
pub open spec fn all_digits(s: Seq<char>) -> bool {
    forall|i: int| 0 <= i < s.len() ==> '0' <= #[trigger] s[i] && s[i] <= '9'
}

/// A year as RFC 3339 text writes it: four digits, or, past 9999, a plus sign
/// and five or more digits.
pub open spec fn year_text(y: Seq<char>) -> bool {
    (y.len() == 4 && all_digits(y)) || (y.len() >= 6 && y[0] == '+' && all_digits(y.skip(1)))
}

/// The rest of a date and time: `-MM-DDTHH:MM:SS`.
pub open spec fn clock_text(t: Seq<char>) -> bool {
    &&& t.len() == 15
    &&& t[0] == '-' && t[3] == '-' && t[6] == 'T' && t[9] == ':' && t[12] == ':'
    &&& all_digits(t.subrange(1, 3)) && all_digits(t.subrange(4, 6))
    &&& all_digits(t.subrange(7, 9)) && all_digits(t.subrange(10, 12))
    &&& all_digits(t.subrange(13, 15))
}

/// Fractional seconds: none, or a dot and 3, 6 or 9 digits.
pub open spec fn fraction_text(f: Seq<char>) -> bool {
    f.len() == 0 || ((f.len() == 4 || f.len() == 7 || f.len() == 10) && f[0] == '.'
        && all_digits(f.skip(1)))
}

/// An RFC 3339 timestamp in UTC as chrono writes it: year, date and time,
/// optional fractional seconds, and the offset `+00:00`.
pub open spec fn is_rfc3339_utc_text(s: Seq<char>) -> bool {
    exists|y: Seq<char>, t: Seq<char>, f: Seq<char>|
        #![trigger year_text(y), clock_text(t), fraction_text(f)]
        year_text(y) && clock_text(t) && fraction_text(f) && s == y + t + f + "+00:00"@
}

/// The current time, as `chrono::Utc::now().to_rfc3339()` formats it. The
/// value depends on the clock; claimed is only its form, which chrono's
/// `write_rfc3339` gives every UTC time after the epoch.
#[verifier::external_body]
pub(crate) fn now_rfc3339() -> (at: String)
    ensures
        is_rfc3339_utc_text(at@),
{
    chrono::Utc::now().to_rfc3339()
}

/// A payload field holding text.
pub fn text_field(key: &str, value: String) -> (f: EventField)
    ensures
        f@ == (key@, FieldValueView::Text(value@)),
{
    EventField { key: key.to_string(), value: FieldValue::Text(value) }
}

/// A payload field holding a flag.
pub fn flag_field(key: &str, value: bool) -> (f: EventField)
    ensures
        f@ == (key@, FieldValueView::Flag(value)),
{
    EventField { key: key.to_string(), value: FieldValue::Flag(value) }
}

/// A payload field holding a number.
pub fn number_field(key: &str, value: u64) -> (f: EventField)
    ensures
        f@ == (key@, FieldValueView::Number(value)),
{
    EventField { key: key.to_string(), value: FieldValue::Number(value) }
}

/// An event of the daemon, stamped with `at`.
pub fn daemon_event(event: &str, at: String, data: Vec<EventField>) -> (e: EventEnvelope)
    ensures
        e.event@ == event@,
        e.at@ == at@,
        e.source@ == "core-daemon"@,
        e.data@ == data@,
{
    EventEnvelope { event: event.to_string(), at, source: "core-daemon", data }
}

} // verus!
