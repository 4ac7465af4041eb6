//! Instants, as the API's timestamps denote them.

use vstd::prelude::*;

verus! {

/// An instant on the UTC time line: whole seconds since the start of 1970,
/// and the nanoseconds into that second. During a leap second the
/// nanoseconds run from 1,000,000,000 on.
#[derive(Debug, Clone, Copy, PartialEq, Eq)]
pub struct Timestamp {
    pub seconds: i64,
    pub nanoseconds: u32,
}

impl DeepView for Timestamp {
    type V = Timestamp;

    open spec fn deep_view(&self) -> Timestamp {
        *self
    }
}

/// The instant that `chrono` reads from the text of a timestamp, or `None`
/// where it refuses the text.
pub uninterp spec fn timestamp_text(text: Seq<char>) -> Option<Timestamp>;

/// `chrono`'s `FromStr` for `DateTime<FixedOffset>`, which reads timestamps
/// in the form of RFC 3339. The instant is handed out as
/// `DateTime::timestamp` and `DateTime::timestamp_subsec_nanos` give it. The
/// contract claims that the outcome depends on the text alone. Nothing is
/// claimed of which texts are read.
#[verifier::external_body]
pub(crate) fn parse_timestamp(text: &str) -> (r: Option<Timestamp>)
    ensures
        r == timestamp_text(text@),
{
    match text.parse::<chrono::DateTime<chrono::FixedOffset>>() {
        Ok(t) => Some(
            Timestamp { seconds: t.timestamp(), nanoseconds: t.timestamp_subsec_nanos() },
        ),
        Err(_) => None,
    }
}

} // verus!
