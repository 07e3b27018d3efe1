//! The calendar side of generated performance series: how far back a
//! period reaches, how sample points are spaced, and the date printed for
//! each sample.

use vstd::prelude::*;
use crate::text::same_text;

verus! {

/// Seconds in a day.
pub const SECONDS_PER_DAY: i64 = 86400;

/// The earliest instant (in seconds since 1970-01-01 UTC) that chrono's
/// `DateTime<Utc>` represents: the start of January 1st of year -262143.
pub const MIN_TIMESTAMP: i64 = -8334601228800;

/// The last whole second chrono's `DateTime<Utc>` represents: 23:59:59 on
/// December 31st of year 262142.
pub const MAX_TIMESTAMP: i64 = 8210266876799;

/// The calendar date (`YYYY-MM-DD`, as chrono prints `%Y-%m-%d`) of the
/// instant `secs` seconds after 1970-01-01 00:00:00 UTC.
pub uninterp spec fn calendar_date_text(secs: int) -> Seq<char>;

/// Formats a timestamp as a calendar date.
///
/// Calls `chrono::DateTime::<Utc>::from_timestamp(secs, 0)`, which is `Some`
/// for every timestamp in chrono's range, and formats it with `%Y-%m-%d`.
/// The contract claims only that the text is a function of the timestamp.
#[verifier::external_body]
fn calendar_date(secs: i64) -> (s: String)
    requires
        MIN_TIMESTAMP <= secs <= MAX_TIMESTAMP,
    ensures
        s@ == calendar_date_text(secs as int),
{
    chrono::DateTime::<chrono::Utc>::from_timestamp(secs, 0).unwrap().format("%Y-%m-%d").to_string()
}

/// The number of days a period name covers; unknown names mean one year.
pub open spec fn days_in(period: Seq<char>) -> int {
    if period == "1mo"@ {
        30
    } else if period == "3mo"@ {
        90
    } else if period == "6mo"@ {
        180
    } else if period == "1y"@ {
        365
    } else if period == "2y"@ {
        730
    } else {
        365
    }
}

/// The spacing, in days, of `num_points` samples over `total_days` days:
/// an even split when there are more days than points, one day otherwise.
pub open spec fn step_days(total_days: int, num_points: int) -> int {
    if total_days > num_points {
        total_days / num_points
    } else {
        1
    }
}

/// The instant of the `i`-th sample of a series that ends at `end_secs`.
pub open spec fn sample_instant(end_secs: int, period: Seq<char>, num_points: int, i: int) -> int {
    end_secs - days_in(period) * SECONDS_PER_DAY + i * step_days(days_in(period), num_points) * SECONDS_PER_DAY
}

/// The number of days a period covers.
pub fn period_days(period: &str) -> (d: i64)
    ensures
        d == days_in(period@),
{
    proof {
        reveal_strlit("1mo");
        reveal_strlit("3mo");
        reveal_strlit("6mo");
        reveal_strlit("1y");
        reveal_strlit("2y");
    }
    if same_text(period, "1mo") {
        30
    } else if same_text(period, "3mo") {
        90
    } else if same_text(period, "6mo") {
        180
    } else if same_text(period, "1y") {
        365
    } else if same_text(period, "2y") {
        730
    } else {
        365
    }
}

/// The spacing, in days, of `num_points` samples over `total_days` days.
pub fn sample_step(total_days: usize, num_points: usize) -> (step: usize)
    requires
        total_days > num_points ==> num_points > 0,
    ensures
        step == step_days(total_days as int, num_points as int),
        1 <= step,
        total_days > num_points ==> step <= total_days,
{
    if total_days > num_points {
        assert(1 <= total_days / num_points <= total_days) by (nonlinear_arith)
            requires
                total_days > num_points,
                num_points > 0;
        total_days / num_points
    } else {
        1
    }
}

/// The dates of `num_points` samples spaced `sample_step` days apart,
/// starting one period before `end_secs` (seconds since 1970-01-01 UTC).
pub fn sample_dates(end_secs: i64, period: &str, num_points: usize) -> (dates: Vec<String>)
    requires
        num_points > 0,
        MIN_TIMESTAMP <= sample_instant(end_secs as int, period@, num_points as int, 0),
        sample_instant(end_secs as int, period@, num_points as int, num_points - 1) <= MAX_TIMESTAMP,
    ensures
        dates@.len() == num_points,
        forall|i: int| 0 <= i < num_points ==>
            #[trigger] dates@[i]@ == calendar_date_text(sample_instant(end_secs as int, period@, num_points as int, i)),
{
    let total_days = period_days(period);
    let step = sample_step(total_days as usize, num_points);
    let ghost st = step as int;
    let start = end_secs - total_days * SECONDS_PER_DAY;
    let mut dates: Vec<String> = Vec::new();
    let mut i: usize = 0;
    while i < num_points
        invariant
            num_points > 0,
            total_days == days_in(period@),
            step as int == step_days(total_days as int, num_points as int),
            1 <= step <= 730,
            start == end_secs - total_days * SECONDS_PER_DAY,
            MIN_TIMESTAMP <= start,
            start + (num_points - 1) * st * SECONDS_PER_DAY <= MAX_TIMESTAMP,
            st == step as int,
            i <= num_points,
            dates@.len() == i,
            forall|j: int| 0 <= j < i ==>
                #[trigger] dates@[j]@ == calendar_date_text(sample_instant(end_secs as int, period@, num_points as int, j)),
        decreases num_points - i,
    {
        proof {
            assert(0 <= i * st * SECONDS_PER_DAY <= (num_points - 1) * st * SECONDS_PER_DAY) by (nonlinear_arith)
                requires
                    i <= num_points - 1,
                    st >= 1;
            assert(i * st <= (num_points - 1) * st) by (nonlinear_arith)
                requires
                    i <= num_points - 1,
                    st >= 1;
        }
        let offset_days = (i as i64) * (step as i64);
        let t = start + offset_days * SECONDS_PER_DAY;
        proof {
            assert(t == sample_instant(end_secs as int, period@, num_points as int, i as int));
        }
        dates.push(calendar_date(t));
        i = i + 1;
    }
    dates
}

} // verus!
