//! Date-times as second counts, fixed offsets, and the calls into `chrono`
//! that read and write them as text.

use vstd::prelude::*;

verus! {

/// Seconds in one hour of offset.
pub const SECONDS_PER_HOUR: i32 = 3600;

/// A wall-clock reading without a zone: whole seconds since 1970-01-01 00:00:00
/// on that same wall clock, and nanoseconds into the second. A leap second is
/// written with `nanos` of a thousand million or more.
#[derive(Clone, Copy, Debug, PartialEq, Eq, Structural)]
pub struct LocalDateTime {
    pub seconds: i64,
    pub nanos: u32,
}

/// An instant on the UTC time line: whole seconds since 1970-01-01 00:00:00 UTC
/// and nanoseconds into the second.
#[derive(Clone, Copy, Debug, PartialEq, Eq, Structural)]
pub struct UtcDateTime {
    pub seconds: i64,
    pub nanos: u32,
}

/// The hour offsets that make a fixed offset: less than a day either way.
pub open spec fn valid_offset_hours(hours: int) -> bool {
    -23 <= hours <= 23
}

/// The instant that a wall clock `offset_seconds` ahead of UTC shows as `local`,
/// where its second count fits the machine's range.
pub open spec fn utc_of(local: LocalDateTime, offset_seconds: int) -> Option<UtcDateTime> {
    if i64::MIN <= local.seconds - offset_seconds <= i64::MAX {
        Some(UtcDateTime { seconds: (local.seconds - offset_seconds) as i64, nanos: local.nanos })
    } else {
        None
    }
}

/// The reading that a wall clock `offset_seconds` ahead of UTC shows at `utc`.
pub open spec fn local_of(utc: UtcDateTime, offset_seconds: int) -> Option<LocalDateTime> {
    if i64::MIN <= utc.seconds + offset_seconds <= i64::MAX {
        Some(LocalDateTime { seconds: (utc.seconds + offset_seconds) as i64, nanos: utc.nanos })
    } else {
        None
    }
}

/// `chrono::FixedOffset::east_opt`, handed back as its second count: an offset
/// exists exactly for counts strictly between minus and plus one day, and it
/// holds the count it was made from.
#[verifier::external_body]
fn fixed_offset_seconds(seconds: i32) -> (r: Option<i32>)
    ensures
        r == if -86_400 < seconds < 86_400 { Some(seconds) } else { None::<i32> },
{
    chrono::FixedOffset::east_opt(seconds).map(|offset| offset.local_minus_utc())
}

/// The fixed offset of `hours` whole hours east of UTC, in seconds; `None`
/// where no such offset exists.
pub fn offset_seconds(hours: i32) -> (r: Option<i32>)
    ensures
        r == if valid_offset_hours(hours as int) {
            Some((hours * SECONDS_PER_HOUR) as i32)
        } else {
            None::<i32>
        },
{
    match hours.checked_mul(SECONDS_PER_HOUR) {
        Some(seconds) => fixed_offset_seconds(seconds),
        None => None,
    }
}

/// Moves a wall-clock reading taken `offset_seconds` east of UTC onto the UTC
/// time line. The instant is the same; only the clock it is read on changes.
pub fn to_utc(local: LocalDateTime, offset_seconds: i32) -> (r: Option<UtcDateTime>)
    ensures
        r == utc_of(local, offset_seconds as int),
{
    match local.seconds.checked_sub(offset_seconds as i64) {
        Some(seconds) => Some(UtcDateTime { seconds, nanos: local.nanos }),
        None => None,
    }
}

/// What `chrono::NaiveDateTime::parse_from_str` makes of `text` under
/// `pattern`: the reading, or the words in which chrono refuses the text.
pub uninterp spec fn parsed_datetime(text: Seq<char>, pattern: Seq<char>) -> Result<
    LocalDateTime,
    Seq<char>,
>;

/// What `chrono::DateTime::format` writes for the instant `utc` under
/// `pattern`; `None` where chrono cannot hold the instant or refuses the
/// pattern.
pub uninterp spec fn formatted_datetime(utc: UtcDateTime, pattern: Seq<char>) -> Option<Seq<char>>;

/// `chrono::NaiveDateTime::parse_from_str`. The whole text must match the
/// pattern. A reading comes back as the second count and the nanoseconds that
/// chrono gives for it, a refusal as chrono's message.
#[verifier::external_body]
pub(crate) fn parse_local(text: &str, pattern: &str) -> (r: Result<LocalDateTime, String>)
    ensures
        match r {
            Ok(local) => parsed_datetime(text@, pattern@) == Ok::<LocalDateTime, Seq<char>>(local),
            Err(reason) => parsed_datetime(text@, pattern@) == Err::<LocalDateTime, Seq<char>>(
                reason@,
            ),
        },
{
    match chrono::NaiveDateTime::parse_from_str(text, pattern) {
        Ok(naive) => Ok(
            LocalDateTime {
                seconds: naive.and_utc().timestamp(),
                nanos: naive.and_utc().timestamp_subsec_nanos(),
            },
        ),
        Err(error) => Err(error.to_string()),
    }
}

/// `chrono::DateTime::format`, written out through `DelayedFormat::write_to`.
/// The instant is handed to chrono by `DateTime::from_timestamp`; nothing comes
/// back where chrono has no such instant or reports a formatting error.
#[verifier::external_body]
pub(crate) fn format_utc(utc: UtcDateTime, pattern: &str) -> (r: Option<String>)
    ensures
        match r {
            Some(text) => formatted_datetime(utc, pattern@) == Some(text@),
            None => formatted_datetime(utc, pattern@) is None,
        },
{
    let instant = chrono::DateTime::from_timestamp(utc.seconds, utc.nanos)?;
    let mut text = String::new();
    instant.format(pattern).write_to(&mut text).ok()?;
    Some(text)
}

/// Going to UTC and back with one offset gives the reading that one started
/// from.
pub proof fn lemma_offset_round_trip(local: LocalDateTime, offset_seconds: int)
    requires
        utc_of(local, offset_seconds) is Some,
    ensures
        local_of(utc_of(local, offset_seconds)->0, offset_seconds) == Some(local),
{
}

} // verus!
