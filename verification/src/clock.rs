//! Points in time, read and subtracted by `chrono`.
use crate::text::owned;
use crate::types::{empty_config, empty_runtime, APWConfigV1, APWRuntimeConfig};
use vstd::prelude::*;

verus! {

/// The start of 1970 as stored text.
pub const EPOCH_TEXT: &'static str = "1970-01-01T00:00:00+00:00";

/// A point in time: seconds since the start of 1970, and nanoseconds of that second, which run on
/// beyond a whole second in a leap second.
#[derive(Debug, Clone, Copy, PartialEq, Eq, Structural)]
pub struct Moment {
    pub secs: i64,
    pub nanos: u32,
}

/// The seconds and nanoseconds of the point in time that RFC 3339 text writes, where it is such
/// text.
pub uninterp spec fn rfc3339_moment(text: Seq<char>) -> Option<(i64, u32)>;

/// The whole milliseconds from one point in time to another, where both are in the calendar's
/// range.
pub uninterp spec fn elapsed_millis(from: (i64, u32), to: (i64, u32)) -> Option<i64>;

/// `chrono::DateTime::parse_from_rfc3339`, as the point in time of the result.
#[verifier::external_body]
fn chrono_parse(text: &str) -> (r: Option<(i64, u32)>)
    ensures
        r == rfc3339_moment(text@),
{
    let parsed = chrono::DateTime::parse_from_rfc3339(text).ok();
    parsed.map(|value| (value.timestamp(), value.timestamp_subsec_nanos()))
}

/// Whether `chrono::DateTime::from_timestamp` knows a point in time: from the start of the year
/// -262143 to the end of the year 262142, with nanoseconds beyond a whole second only in the last
/// second of a minute.
pub open spec fn in_calendar(at: (i64, u32)) -> bool {
    &&& -8_334_601_228_800 <= at.0 <= 8_210_266_876_799
    &&& at.1 < 1_000_000_000 || at.1 < 2_000_000_000 && at.0 % 60 == 59
}

/// `-` of two `chrono::DateTime<Utc>` and `num_milliseconds` of the difference. There is a result
/// where both points are in the calendar's range, and only there. Outside a leap second, where the
/// first point is not behind the second, this is the difference of the two counts of nanoseconds
/// in whole milliseconds.
#[verifier::external_body]
fn chrono_elapsed(from: (i64, u32), to: (i64, u32)) -> (r: Option<i64>)
    ensures
        r == elapsed_millis(from, to),
        r is Some == (in_calendar(from) && in_calendar(to)),
        r matches Some(ms) ==> (from.1 < 1_000_000_000 && to.1 < 1_000_000_000 && (from.0 < to.0
            || from.0 == to.0 && from.1 <= to.1) ==> ms == ((to.0 - from.0) * 1_000_000_000 + to.1
            - from.1) / 1_000_000),
{
    let start = chrono::DateTime::<chrono::Utc>::from_timestamp(from.0, from.1)?;
    let end = chrono::DateTime::<chrono::Utc>::from_timestamp(to.0, to.1)?;
    Some((end - start).num_milliseconds())
}

/// `chrono::Utc::now` in RFC 3339 form.
#[verifier::external_body]
fn chrono_now_text() -> String {
    chrono::Utc::now().to_rfc3339()
}

/// The point in time that RFC 3339 text writes.
pub open spec fn moment_of(text: Seq<char>) -> Option<Moment> {
    match rfc3339_moment(text) {
        Some((secs, nanos)) => Some(Moment { secs, nanos }),
        None => None,
    }
}

impl Moment {
    /// The point in time that RFC 3339 text writes, where it is such text.
    pub fn parse(text: &str) -> (r: Option<Moment>)
        ensures
            r == moment_of(text@),
    {
        match chrono_parse(text) {
            Some((secs, nanos)) => Some(Moment { secs, nanos }),
            None => None,
        }
    }

    /// Whether this comes after `other`.
    pub open spec fn after(self, other: Moment) -> bool {
        self.secs > other.secs || self.secs == other.secs && self.nanos > other.nanos
    }

    /// Whether this comes after `other`.
    pub fn is_after(&self, other: &Moment) -> (r: bool)
        ensures
            r == self.after(*other),
    {
        self.secs > other.secs || self.secs == other.secs && self.nanos > other.nanos
    }
}

/// Whether something created at `created` is too old at `now`: it is from the future, or older
/// than `max_age_ms`, or its time is not known.
pub open spec fn stale(created: Option<Moment>, now: Moment, max_age_ms: u64) -> bool {
    match created {
        Some(created) => created.after(now) || match elapsed_millis(
            (created.secs, created.nanos),
            (now.secs, now.nanos),
        ) {
            Some(age) => age > max_age_ms as i64,
            None => true,
        },
        None => true,
    }
}

/// Whether something created at the time that the text writes is too old at `now`.
pub fn stale_config(created_at: &str, now: &Moment, max_age_ms: u64) -> (r: bool)
    ensures
        r == stale(moment_of(created_at@), *now, max_age_ms),
        moment_of(created_at@) matches Some(created) ==> (!created.after(*now) && in_calendar(
            (created.secs, created.nanos),
        ) && in_calendar((now.secs, now.nanos)) && created.nanos < 1_000_000_000 && now.nanos
            < 1_000_000_000 ==> r == (((now.secs - created.secs) * 1_000_000_000 + now.nanos
            - created.nanos) / 1_000_000 > max_age_ms as i64)),
{
    match Moment::parse(created_at) {
        Some(created) => {
            if created.is_after(now) {
                true
            } else {
                match chrono_elapsed((created.secs, created.nanos), (now.secs, now.nanos)) {
                    Some(age) => age > max_age_ms as i64,
                    None => true,
                }
            }
        },
        None => true,
    }
}

impl Default for APWConfigV1 {
    fn default() -> (r: APWConfigV1)
        ensures
            r@ == empty_config(r.created_at@),
    {
        APWConfigV1::empty(chrono_now_text())
    }
}

impl Default for APWRuntimeConfig {
    fn default() -> (r: APWRuntimeConfig)
        ensures
            r@ == empty_runtime(r.created_at@),
    {
        APWRuntimeConfig::empty(chrono_now_text())
    }
}

/// The start of 1970 as stored text.
pub fn epoch_text() -> (r: String)
    ensures
        r@ == EPOCH_TEXT@,
{
    owned(EPOCH_TEXT)
}

} // verus!
