use chrono::{Datelike, TimeZone};
use vstd::prelude::*;

verus! {

/// Short English name of a weekday counted from Monday, as chrono's
/// `Weekday` displays it.
pub open spec fn weekday_name_spec(days_from_monday: u32) -> Seq<char> {
    if days_from_monday == 0 {
        "Mon"@
    } else if days_from_monday == 1 {
        "Tue"@
    } else if days_from_monday == 2 {
        "Wed"@
    } else if days_from_monday == 3 {
        "Thu"@
    } else if days_from_monday == 4 {
        "Fri"@
    } else if days_from_monday == 5 {
        "Sat"@
    } else {
        "Sun"@
    }
}

/// The label of a forecast day: "Today" when its day of the month is
/// today's, else its weekday.
pub open spec fn day_label_spec(day_of_month: u32, today_day_of_month: u32, days_from_monday: u32) -> Seq<char> {
    if day_of_month == today_day_of_month {
        "Today"@
    } else {
        weekday_name_spec(days_from_monday)
    }
}

/// Relies on chrono's `DateTime::from_timestamp`, with `Datelike::day` and
/// `Weekday::num_days_from_monday` on the UTC date it gives: the day of the
/// month (1 to 31) and the weekday (0 for Monday to 6), or `None` for a
/// timestamp out of chrono's range.
#[verifier::external_body]
fn utc_calendar_parts(timestamp: i64) -> (r: Option<(u32, u32)>)
    ensures
        r is Some ==> 1 <= r.unwrap().0 <= 31 && r.unwrap().1 < 7,
{
    match chrono::DateTime::from_timestamp(timestamp, 0) {
        Some(d) => Some((d.day(), d.weekday().num_days_from_monday())),
        None => None,
    }
}

/// Relies on chrono's `Local::now`, read once: the current time in seconds
/// since the epoch, with today's day of the month (1 to 31, by
/// `Datelike::day`) in the machine's time zone. Nothing else is known of
/// either value.
#[verifier::external_body]
pub(crate) fn local_now() -> (r: (i64, u32))
    ensures
        1 <= r.1 <= 31,
{
    let now = chrono::offset::Local::now();
    (now.timestamp(), now.day())
}

/// Relies on chrono's `TimeZone::timestamp_opt` for `Local` and the
/// `Display` of the local time it gives; `None` where the time is out of
/// range or ambiguous. The text depends on the machine's time zone.
#[verifier::external_body]
fn local_time_text(timestamp: i64) -> (r: Option<String>) {
    match chrono::Local.timestamp_opt(timestamp, 0).single() {
        Some(t) => Some(t.to_string()),
        None => None,
    }
}

pub fn weekday_name(days_from_monday: u32) -> (r: String)
    requires
        days_from_monday < 7,
    ensures
        r@ == weekday_name_spec(days_from_monday),
{
    let name = if days_from_monday == 0 {
        "Mon"
    } else if days_from_monday == 1 {
        "Tue"
    } else if days_from_monday == 2 {
        "Wed"
    } else if days_from_monday == 3 {
        "Thu"
    } else if days_from_monday == 4 {
        "Fri"
    } else if days_from_monday == 5 {
        "Sat"
    } else {
        "Sun"
    };
    String::from_str(name)
}

pub fn day_label(day_of_month: u32, today_day_of_month: u32, days_from_monday: u32) -> (r: String)
    requires
        days_from_monday < 7,
    ensures
        r@ == day_label_spec(day_of_month, today_day_of_month, days_from_monday),
{
    if day_of_month == today_day_of_month {
        String::from_str("Today")
    } else {
        weekday_name(days_from_monday)
    }
}

/// The label of the forecast day that starts at `timestamp` (UTC): "Today"
/// or a weekday; `None` for a timestamp that chrono cannot represent.
pub fn get_day_from_datetime(timestamp: i64) -> (r: Option<String>)
    ensures
        r is Some ==> exists|d: u32, t: u32, w: u32|
            w < 7 && r.unwrap()@ == #[trigger] day_label_spec(d, t, w),
{
    match utc_calendar_parts(timestamp) {
        Some((day, weekday)) => {
            let (_, today) = local_now();
            let label = day_label(day, today, weekday);
            Some(label)
        },
        None => None,
    }
}

/// The shown update time: the formatted time, or "Unknown" when there is
/// none.
pub fn update_time_label(formatted: Option<String>) -> (r: String)
    ensures
        formatted is Some ==> r@ == formatted.unwrap()@,
        formatted is None ==> r@ == "Unknown"@,
{
    match formatted {
        Some(text) => text,
        None => String::from_str("Unknown"),
    }
}

/// The local time of `timestamp` as text, or "Unknown".
pub fn timestamp_to_string(timestamp: i64) -> (r: String) {
    update_time_label(local_time_text(timestamp))
}

} // verus!
