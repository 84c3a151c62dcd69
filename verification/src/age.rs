//! How long ago an object was created, as the one-unit text of the age
//! column.

use vstd::prelude::*;
use crate::decimal::{decimal, push_decimal};

verus! {

pub const NANOS_PER_SECOND: i128 = 1_000_000_000;

pub const SECONDS_PER_MINUTE: i128 = 60;

pub const SECONDS_PER_HOUR: i128 = 3_600;

pub const SECONDS_PER_DAY: i128 = 86_400;

/// An instant on the UTC time line: whole seconds since the Unix epoch and
/// the nanoseconds past that second.
#[derive(Debug, Clone, Copy, PartialEq, Eq, Structural)]
pub struct Timestamp {
    pub seconds: i64,
    pub nanos: u32,
}

impl Timestamp {
    /// The instant as a count of nanoseconds since the epoch.
    pub open spec fn total_nanos(self) -> int {
        self.seconds * 1_000_000_000 + self.nanos
    }
}

/// Division that rounds toward zero, for a positive divisor.
pub open spec fn div_toward_zero(a: int, b: int) -> int
    recommends
        b > 0,
{
    if a >= 0 {
        a / b
    } else {
        -((-a) / b)
    }
}

/// The whole seconds from `then` to `now`: the exact difference with its
/// fraction of a second dropped. Negative when `then` lies after `now`.
pub open spec fn elapsed_seconds(now: Timestamp, then: Timestamp) -> int {
    div_toward_zero(now.total_nanos() - then.total_nanos(), 1_000_000_000)
}

/// The age text for a number of elapsed seconds: whole days if there is at
/// least one, else whole hours, else whole minutes, else the seconds
/// themselves.
pub open spec fn age_text(elapsed: int) -> Seq<char> {
    if elapsed >= 86_400 {
        decimal(elapsed / 86_400).push('d')
    } else if elapsed >= 3_600 {
        decimal(elapsed / 3_600).push('h')
    } else if elapsed >= 60 {
        decimal(elapsed / 60).push('m')
    } else {
        decimal(elapsed).push('s')
    }
}

/// An age is written in one unit: days from one day on, else hours from one
/// hour on, else minutes from one minute on, else seconds. Before the unit
/// stands the whole number of such units that have elapsed.
pub proof fn lemma_age_unit(elapsed: int)
    ensures
        elapsed >= 86_400 ==> age_text(elapsed).last() == 'd' && age_text(elapsed).drop_last()
            == decimal(elapsed / 86_400) && elapsed / 86_400 >= 1,
        3_600 <= elapsed < 86_400 ==> age_text(elapsed).last() == 'h' && age_text(
            elapsed,
        ).drop_last() == decimal(elapsed / 3_600) && 1 <= elapsed / 3_600 < 24,
        60 <= elapsed < 3_600 ==> age_text(elapsed).last() == 'm' && age_text(elapsed).drop_last()
            == decimal(elapsed / 60) && 1 <= elapsed / 60 < 60,
        elapsed < 60 ==> age_text(elapsed).last() == 's' && age_text(elapsed).drop_last()
            == decimal(elapsed),
{
    assert(age_text(elapsed).drop_last() =~= if elapsed >= 86_400 {
        decimal(elapsed / 86_400)
    } else if elapsed >= 3_600 {
        decimal(elapsed / 3_600)
    } else if elapsed >= 60 {
        decimal(elapsed / 60)
    } else {
        decimal(elapsed)
    });
}

/// The age text of something created at `then`, read at `now`.
pub open spec fn age_between(now: Timestamp, then: Timestamp) -> Seq<char> {
    age_text(elapsed_seconds(now, then))
}

/// Whole seconds from `then` to `now`.
pub fn seconds_between(now: &Timestamp, then: &Timestamp) -> (elapsed: i128)
    ensures
        elapsed == elapsed_seconds(*now, *then),
{
    let whole: i128 = now.seconds as i128 - then.seconds as i128;
    let fraction: i128 = now.nanos as i128 - then.nanos as i128;
    assert(-18_446_744_073_709_551_616 < whole < 18_446_744_073_709_551_616);
    assert(whole * 1_000_000_000 == now.seconds * 1_000_000_000 - then.seconds * 1_000_000_000)
        by (nonlinear_arith)
        requires
            whole == now.seconds - then.seconds,
    ;
    let total: i128 = whole * NANOS_PER_SECOND + fraction;
    if total >= 0 {
        ((total as u128) / 1_000_000_000u128) as i128
    } else {
        -((((-total) as u128) / 1_000_000_000u128) as i128)
    }
}

/// Formats a number of elapsed seconds as an age.
pub fn format_elapsed(elapsed: i128) -> (text: String)
    ensures
        text@ == age_text(elapsed as int),
{
    let mut text = String::new();
    if elapsed >= SECONDS_PER_DAY {
        proof {
            reveal_strlit("d");
        }
        push_decimal(&mut text, ((elapsed as u128) / 86_400u128) as i128);
        text.append("d");
    } else if elapsed >= SECONDS_PER_HOUR {
        proof {
            reveal_strlit("h");
        }
        push_decimal(&mut text, ((elapsed as u128) / 3_600u128) as i128);
        text.append("h");
    } else if elapsed >= SECONDS_PER_MINUTE {
        proof {
            reveal_strlit("m");
        }
        push_decimal(&mut text, ((elapsed as u128) / 60u128) as i128);
        text.append("m");
    } else {
        proof {
            reveal_strlit("s");
        }
        push_decimal(&mut text, elapsed);
        text.append("s");
    }
    assert(text@ =~= age_text(elapsed as int));
    text
}

/// The age, read at `now`, of something created at `timestamp`.
pub fn format_age_at(timestamp: &Timestamp, now: &Timestamp) -> (text: String)
    ensures
        text@ == age_between(*now, *timestamp),
{
    format_elapsed(seconds_between(now, timestamp))
}

/// Reads the wall clock and hands the instant back as seconds and
/// nanoseconds since the epoch: `std::time::SystemTime::now`, turned into a
/// `chrono::DateTime<Utc>` by chrono's `From<SystemTime>`, which also takes
/// a clock that stands before the epoch, and read with `DateTime::timestamp`
/// and `DateTime::timestamp_subsec_nanos`. Nothing is claimed of the
/// instant: it is whatever the machine's clock says.
#[verifier::external_body]
pub(crate) fn clock_now() -> (now: Timestamp) {
    let instant = chrono::DateTime::<chrono::Utc>::from(std::time::SystemTime::now());
    Timestamp { seconds: instant.timestamp(), nanos: instant.timestamp_subsec_nanos() }
}

/// The age of something created at `timestamp`, read at the present moment.
/// Whatever the clock says, the text is the age between that reading and
/// `timestamp`.
pub fn format_age(timestamp: &Timestamp) -> (text: String)
    ensures
        exists|now: Timestamp| text@ == age_between(now, *timestamp),
{
    let now = clock_now();
    format_age_at(timestamp, &now)
}

} // verus!
