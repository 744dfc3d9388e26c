//! The date and time of the scenario, and the id of the mission session.
use time::format_description::well_known::Rfc3339;
use vstd::prelude::*;

use crate::status::{refused_with, Code, RpcStatus};

verus! {

/// A date and a time of day of the scenario, in UTC.
#[derive(Clone, Copy, Debug, PartialEq, Eq, Structural)]
pub struct ScenarioDateTime {
    pub year: i32,
    pub month: u8,
    pub day: u8,
    pub hour: u8,
    pub minute: u8,
    pub second: u8,
}

/// Whether `year` is a leap year of the proleptic Gregorian calendar.
pub open spec fn is_leap_year(year: int) -> bool {
    year % 4 == 0 && (year % 100 != 0 || year % 400 == 0)
}

/// The number of days of a month.
pub open spec fn days_in_month(year: int, month: int) -> int {
    if month == 2 {
        if is_leap_year(year) {
            29
        } else {
            28
        }
    } else if month == 4 || month == 6 || month == 9 || month == 11 {
        30
    } else {
        31
    }
}

/// The years that the calendar covers.
pub open spec fn year_in_range(year: int) -> bool {
    -9999 <= year <= 9999
}

/// Whether a year, month and day make a date of the calendar.
pub open spec fn date_valid(year: int, month: int, day: int) -> bool {
    year_in_range(year) && 1 <= day <= days_in_month(year, month)
}

/// How the calendar refuses a date of the year `year`: the year first, then the day.
pub open spec fn date_refusal(year: int) -> Seq<char> {
    if !year_in_range(year) {
        "year was not in range"@
    } else {
        "day was not in range"@
    }
}

/// Calls `time::Month::try_from(u8)`: a month number is accepted exactly when it is in
/// `1..=12`; the refusal reads "month was not in range".
#[verifier::external_body]
fn check_month(month: u8) -> (r: Result<(), String>)
    ensures
        r is Ok <==> 1 <= month <= 12,
        r matches Err(e) ==> e@ == "month was not in range"@,
{
    time::Month::try_from(month).map(|_| ()).map_err(|e| e.to_string())
}

/// Calls `time::Date::from_calendar_date`: the date is accepted exactly when the year is in
/// `-9999..=9999` and the day is one of the month; the refusal names the year first, then
/// the day.
#[verifier::external_body]
fn check_calendar_date(year: i32, month: u8, day: u8) -> (r: Result<(), String>)
    requires
        1 <= month <= 12,
    ensures
        r is Ok <==> date_valid(year as int, month as int, day as int),
        r matches Err(e) ==> e@ == date_refusal(year as int),
{
    time::Date::from_calendar_date(year, time::Month::try_from(month).unwrap(), day).map(
        |_| (),
    ).map_err(|e| e.to_string())
}

/// The two-digit text of a number below 100.
pub open spec fn two_digits(n: int) -> Seq<char> {
    seq![crate::decimal::digit_char((n / 10) as nat), crate::decimal::digit_char((n % 10) as nat)]
}

/// The four-digit text of a number below 10000.
pub open spec fn four_digits(n: int) -> Seq<char> {
    two_digits(n / 100) + two_digits(n % 100)
}

/// The RFC 3339 text of a date and time of day in UTC.
pub open spec fn rfc3339_text(dt: ScenarioDateTime) -> Seq<char> {
    four_digits(dt.year as int) + "-"@ + two_digits(dt.month as int) + "-"@ + two_digits(
        dt.day as int,
    ) + "T"@ + two_digits(dt.hour as int) + ":"@ + two_digits(dt.minute as int) + ":"@
        + two_digits(dt.second as int) + "Z"@
}

/// Whether a date and time of day is a valid one.
pub open spec fn valid_datetime(dt: ScenarioDateTime) -> bool {
    &&& year_in_range(dt.year as int)
    &&& 1 <= dt.month <= 12
    &&& 1 <= dt.day <= days_in_month(dt.year as int, dt.month as int)
    &&& dt.hour < 24
    &&& dt.minute < 60
    &&& dt.second < 60
}

/// Calls `format(&Rfc3339)` of the `time::OffsetDateTime` in UTC that `dt` stands for. As
/// the crate's source shows, the text is `YYYY-MM-DDTHH:MM:SSZ`, and years outside
/// `0..=9999` are refused.
#[verifier::external_body]
fn format_rfc3339_utc(dt: &ScenarioDateTime) -> (r: Result<String, String>)
    requires
        valid_datetime(*dt),
    ensures
        r is Ok <==> 0 <= dt.year <= 9999,
        r matches Ok(s) ==> s@ == rfc3339_text(*dt),
        r matches Err(e) ==> e@
            == "The year component cannot be formatted into the requested format."@,
{
    let date = time::Date::from_calendar_date(dt.year, time::Month::try_from(dt.month).unwrap(), dt.day).unwrap();
    let time = time::Time::from_hms(dt.hour, dt.minute, dt.second).unwrap();
    time::PrimitiveDateTime::new(date, time).assume_utc().format(&Rfc3339).map_err(|e| e.to_string())
}

/// The refusal of a date component that DCS reported, as the server answers it.
pub open spec fn invalid_component(what: Seq<char>, reason: Seq<char>) -> Seq<char> {
    "received invalid "@ + what + ": "@ + reason
}

/// The reason that std gives for a number that does not fit the narrower integer type.
pub open spec fn int_conversion_failure() -> Seq<char> {
    "out of range integral type conversion attempted"@
}

fn internal(what: &str, reason: &str) -> (r: RpcStatus)
    ensures
        r.code == Code::Internal,
        r.message@ == invalid_component(what@, reason@),
{
    let mut m = String::from_str("received invalid ");
    m.append(what);
    m.append(": ");
    m.append(reason);
    RpcStatus { code: Code::Internal, message: m }
}

/// The time of day that `seconds` after midnight reach: the duration wraps around days, in
/// either direction.
pub open spec fn wrapped_second_of_day(seconds: int) -> int {
    seconds % 86400
}

/// The scenario date and time that DCS reports as a calendar date and the seconds since
/// midnight of that date. A month, day or year that does not make a date is refused with
/// `Internal`, naming the component.
pub fn to_datetime(year: i32, month: u32, day: u32, seconds: i64) -> (r: Result<
    ScenarioDateTime,
    RpcStatus,
>)
    ensures
        month > 255 ==> refused_with(r, Code::Internal, invalid_component("month"@, int_conversion_failure())),
        month <= 255 && !(1 <= month <= 12) ==> refused_with(r, Code::Internal, invalid_component("month"@, "month was not in range"@)),
        1 <= month <= 12 && day > 255 ==> refused_with(r, Code::Internal, invalid_component("day"@, int_conversion_failure())),
        1 <= month <= 12 && day <= 255 && !year_in_range(year as int) ==> refused_with(r, Code::Internal, invalid_component("date"@, "year was not in range"@)),
        1 <= month <= 12 && day <= 255 && year_in_range(year as int) && !date_valid(year as int, month as int, day as int) ==> refused_with(r, Code::Internal, invalid_component("date"@, "day was not in range"@)),
        1 <= month <= 12 && year_in_range(year as int) && 1 <= day <= days_in_month(
            year as int,
            month as int,
        ) ==> r == Ok::<ScenarioDateTime, RpcStatus>(
            ScenarioDateTime {
                year,
                month: month as u8,
                day: day as u8,
                hour: (wrapped_second_of_day(seconds as int) / 3600) as u8,
                minute: (wrapped_second_of_day(seconds as int) % 3600 / 60) as u8,
                second: (wrapped_second_of_day(seconds as int) % 60) as u8,
            },
        ),
        r matches Ok(dt) ==> valid_datetime(dt),
{
    if month > 255 {
        return Err(internal("month", "out of range integral type conversion attempted"));
    }
    let month = month as u8;
    if let Err(reason) = check_month(month) {
        return Err(internal("month", reason.as_str()));
    }
    if day > 255 {
        return Err(internal("day", "out of range integral type conversion attempted"));
    }
    let day = day as u8;
    if let Err(reason) = check_calendar_date(year, month, day) {
        return Err(internal("date", reason.as_str()));
    }
    let sod: i64 = seconds % 86400;
    let sod: i64 = if sod < 0 {
        sod + 86400
    } else {
        sod
    };
    assert(sod as int == wrapped_second_of_day(seconds as int));
    assert(0 <= sod < 86400);
    let hour = (sod / 3600) as u8;
    let minute = (sod % 3600 / 60) as u8;
    let second = (sod % 60) as u8;
    Ok(ScenarioDateTime { year, month, day, hour, minute, second })
}

/// The RFC 3339 text of a scenario date and time, as the server answers it; a year outside
/// `0..=9999` is refused with `Internal`.
pub fn format_datetime(dt: &ScenarioDateTime) -> (r: Result<String, RpcStatus>)
    requires
        valid_datetime(*dt),
    ensures
        0 <= dt.year <= 9999 ==> (r matches Ok(s) && s@ == rfc3339_text(*dt)),
        !(0 <= dt.year <= 9999) ==> refused_with(r, Code::Internal, "failed to format date as ISO 8601 string: "@
            + "The year component cannot be formatted into the requested format."@),
{
    match format_rfc3339_utc(dt) {
        Ok(s) => Ok(s),
        Err(e) => {
            let mut m = String::from_str("failed to format date as ISO 8601 string: ");
            m.append(e.as_str());
            Err(RpcStatus { code: Code::Internal, message: m })
        },
    }
}

/// The name of the user flag that keeps the session id in the mission.
pub open spec fn session_flag() -> Seq<char> {
    "dcs_grpc_session_id"@
}

/// The name of the user flag that keeps the session id in the mission.
pub fn session_flag_name() -> (r: String)
    ensures
        r@ == session_flag(),
{
    String::from_str("dcs_grpc_session_id")
}

/// The session id, and the flag value to store when a new session starts.
#[derive(Clone, Copy, Debug, PartialEq, Eq, Structural)]
pub struct SessionId {
    pub session_id: i64,
    pub store_flag: Option<u32>,
}

/// The id of the mission session: the one the flag keeps, else a new one, the current Unix
/// time, which the flag then keeps (as a 32-bit number).
pub fn session_id(flag_value: u32, now_unix: i64) -> (r: SessionId)
    ensures
        flag_value == 0 ==> r == (SessionId {
            session_id: now_unix,
            store_flag: Some((now_unix as int % 0x1_0000_0000) as u32),
        }),
        flag_value != 0 ==> r == (SessionId { session_id: flag_value as i64, store_flag: None }),
{
    if flag_value == 0 {
        let low: i64 = now_unix % 0x1_0000_0000;
        let low: i64 = if low < 0 {
            low + 0x1_0000_0000
        } else {
            low
        };
        SessionId { session_id: now_unix, store_flag: Some(low as u32) }
    } else {
        SessionId { session_id: flag_value as i64, store_flag: None }
    }
}

} // verus!
