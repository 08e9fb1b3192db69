//! One step of the position sensor. The great-circle advance itself is
//! trigonometry and is computed by the caller between the two halves of the
//! step: [`begin_position_step`] fixes speed and course and says how far the
//! vessel travels, [`complete_position_step`] takes the raw destination and
//! brings it back into range.
use vstd::prelude::*;
use chrono::Datelike;
use crate::gps_data::GpsData;
use crate::units::{
    clamp_latitude, clamp_speed, clamped, course_of, longitude_of, normalize_course,
    normalize_longitude, HALF_TURN, MAX_SPEED, QUARTER_TURN,
};

verus! {

/// Metres per second in one knot, in millionths.
pub const KNOT_MICRO_MPS: u128 = 514_444;

/// The mean Earth radius in metres that the advance uses.
pub const EARTH_RADIUS_M: u64 = 6_371_000;

/// The first year the geomagnetic model covers.
pub const MODEL_FIRST_YEAR: i32 = 2020;

/// The last year the geomagnetic model covers.
pub const MODEL_LAST_YEAR: i32 = 2029;

/// What one step travels: the course (microdegrees, in `[0, 360)`) and the
/// distance over ground in millimetres.
#[derive(Clone, Copy, Debug, PartialEq, Eq, Structural)]
pub struct Leg {
    pub course: i64,
    pub distance_mm: u128,
}

/// Distance in millimetres covered in `dt_ms` milliseconds at `sog` thousandths
/// of a knot, rounded down.
pub open spec fn leg_distance(sog: int, dt_ms: int) -> int {
    sog * (KNOT_MICRO_MPS as int) * dt_ms / 1_000_000_000
}

/// The state with its speed held to the ceiling and its course normalised.
pub open spec fn began(d: GpsData) -> GpsData {
    GpsData {
        sog: clamped(d.sog as int, 0, MAX_SPEED as int) as i64,
        cog: course_of(d.cog as int) as i64,
        ..d
    }
}

/// The state moved to the raw destination `(lat, lon)`, brought back into range,
/// with a fresh variation and timestamp.
pub open spec fn completed(d: GpsData, lat: i64, lon: i64, variation: i64, now_ms: i64) -> GpsData {
    GpsData {
        latitude: clamped(lat as int, -QUARTER_TURN as int, QUARTER_TURN as int) as i64,
        longitude: longitude_of(lon as int) as i64,
        variation,
        last_update: now_ms,
        ..d
    }
}

/// Holds the speed to `[0, 102.2]` knots, normalises the course, and returns
/// the leg travelled in `dt_ms` milliseconds.
pub fn begin_position_step(gps_data: &mut GpsData, dt_ms: u64) -> (leg: Leg)
    ensures
        *final(gps_data) == began(*old(gps_data)),
        leg.course == final(gps_data).cog,
        leg.distance_mm == leg_distance(final(gps_data).sog as int, dt_ms as int),
{
    gps_data.sog = clamp_speed(gps_data.sog);
    gps_data.cog = normalize_course(gps_data.cog);
    let sog = gps_data.sog as u128;
    assert(sog * KNOT_MICRO_MPS <= 102_200 * 514_444) by (nonlinear_arith)
        requires
            sog <= 102_200,
    ;
    assert(sog * KNOT_MICRO_MPS * (dt_ms as u128) <= 102_200 * 514_444 * 0xffff_ffff_ffff_ffffu128)
        by (nonlinear_arith)
        requires
            sog * KNOT_MICRO_MPS <= 102_200 * 514_444,
            dt_ms <= 0xffff_ffff_ffff_ffffu64,
    ;
    let distance_mm = sog * KNOT_MICRO_MPS * (dt_ms as u128) / 1_000_000_000;
    Leg { course: gps_data.cog, distance_mm }
}

/// Moves the state to the raw great-circle destination `(lat, lon)`
/// (microdegrees), holding the latitude to `[-90, 90]` and normalising the
/// longitude to `(-180, 180]`, and records the variation and the tick time.
pub fn complete_position_step(
    gps_data: &mut GpsData,
    lat: i64,
    lon: i64,
    variation: i64,
    now_ms: i64,
)
    ensures
        *final(gps_data) == completed(*old(gps_data), lat, lon, variation, now_ms),
        -QUARTER_TURN <= final(gps_data).latitude <= QUARTER_TURN,
        -HALF_TURN < final(gps_data).longitude <= HALF_TURN,
{
    gps_data.latitude = clamp_latitude(lat);
    gps_data.longitude = normalize_longitude(lon);
    gps_data.variation = variation;
    gps_data.last_update = now_ms;
}

/// Whatever the starting state and wherever the great-circle advance lands, a
/// whole step leaves latitude in `[-90, 90]`, longitude in `(-180, 180]`, and
/// the state well formed.
pub proof fn lemma_step_stays_in_range(
    d: GpsData,
    lat: i64,
    lon: i64,
    variation: i64,
    now_ms: i64,
)
    ensures
        ({
            let e = completed(began(d), lat, lon, variation, now_ms);
            &&& -QUARTER_TURN <= e.latitude <= QUARTER_TURN
            &&& -HALF_TURN < e.longitude <= HALF_TURN
            &&& e.wf()
        }),
{
    crate::units::lemma_longitude_idempotent(lon as int);
}

/// The year the geomagnetic model is evaluated at: `y` held to the years the
/// model covers.
pub open spec fn model_year(y: i32) -> i32 {
    if y < MODEL_FIRST_YEAR {
        MODEL_FIRST_YEAR
    } else if y > MODEL_LAST_YEAR {
        MODEL_LAST_YEAR
    } else {
        y
    }
}

/// A calendar date with its year clamped into the years the geomagnetic model
/// covers; month and day are kept, except that 29 February becomes the 28th
/// when the clamped year is not a leap year.
pub open spec fn model_date_clamped(y: i32, m: u32, d: u32) -> (i32, u32, u32) {
    let cy = model_year(y);
    if m == 2 && d == 29 && !leap_year(cy as int) {
        (cy, 2, 28)
    } else {
        (cy, m, d)
    }
}

/// Whether `y` is a leap year of the proleptic Gregorian calendar.
pub open spec fn leap_year(y: int) -> bool {
    y % 4 == 0 && (y % 100 != 0 || y % 400 == 0)
}

/// The number of days in month `m` (1 to 12) of year `y`.
pub open spec fn days_in_month(y: int, m: int) -> int {
    if m == 2 {
        if leap_year(y) { 29 } else { 28 }
    } else if m == 4 || m == 6 || m == 9 || m == 11 {
        30
    } else {
        31
    }
}

/// Whether (year, month, day) names a day of the calendar.
pub open spec fn is_calendar_date(y: int, m: int, d: int) -> bool {
    1 <= m <= 12 && 1 <= d <= days_in_month(y, m)
}

#[verifier::external_type_specification]
#[verifier::external_body]
pub struct ExDate(time::Date);

/// Relies on time's `Date::from_calendar_date`, with `Month::try_from` turning
/// the month number into a `Month`: a date is made exactly for the valid
/// (year, month, day) triples, for every year in `-9999..=9999`.
#[verifier::external_body]
fn calendar_date(y: i32, m: u32, d: u32) -> (r: Option<time::Date>)
    requires
        1 <= m <= 12,
        1 <= d <= 31,
    ensures
        r.is_some() ==> is_calendar_date(y as int, m as int, d as int),
        is_calendar_date(y as int, m as int, d as int) && -9999 <= y <= 9999 ==> r.is_some(),
{
    time::Date::from_calendar_date(y, time::Month::try_from(m as u8).ok()?, d as u8).ok()
}

/// Milliseconds in a day.
pub const DAY_MS: i64 = 86_400_000;

/// The number of days from 1970-01-01 to the date (year, month, day) of the
/// proleptic Gregorian calendar (negative before it).
pub open spec fn days_from_civil(y: int, m: int, d: int) -> int {
    let y2 = if m <= 2 { y - 1 } else { y };
    let era = y2 / 400;
    let yoe = y2 - era * 400;
    let mp = if m > 2 { m - 3 } else { m + 9 };
    let doy = (153 * mp + 2) / 5 + d - 1;
    let doe = yoe * 365 + yoe / 4 - yoe / 100 + doy;
    era * 146097 + doe - 719468
}

/// Whether the day of the timestamp `ms` lies between the years -262000 and
/// 262000, well inside the calendar's range.
pub open spec fn day_in_range(ms: i64) -> bool {
    days_from_civil(-262_000, 1, 1) <= ms / DAY_MS <= days_from_civil(262_000, 12, 31)
}

/// Relies on chrono's `DateTime::from_timestamp_millis` and its `Datelike`
/// accessors: the UTC calendar date of a timestamp, which is the day the
/// timestamp falls on, counted from 1970-01-01; `None` only outside chrono's
/// range (years -262143 to 262142).
#[verifier::external_body]
fn civil_date(ms: i64) -> (r: Option<(i32, u32, u32)>)
    ensures
        r matches Some((y, m, d)) ==> is_calendar_date(y as int, m as int, d as int)
            && days_from_civil(y as int, m as int, d as int) == ms / DAY_MS,
        day_in_range(ms) ==> r.is_some(),
{
    chrono::DateTime::from_timestamp_millis(ms).map(|t| (t.year(), t.month(), t.day()))
}

/// Clamps the year of a date into the years the geomagnetic model covers,
/// keeping month and day (29 February becomes the 28th in a common year).
pub fn clamp_model_date(y: i32, m: u32, d: u32) -> (r: (i32, u32, u32))
    ensures
        r == model_date_clamped(y, m, d),
{
    let cy = if y < MODEL_FIRST_YEAR {
        MODEL_FIRST_YEAR
    } else if y > MODEL_LAST_YEAR {
        MODEL_LAST_YEAR
    } else {
        y
    };
    let leap = cy % 4 == 0 && (cy % 100 != 0 || cy % 400 == 0);
    if m == 2 && d == 29 && !leap {
        (cy, 2, 28)
    } else {
        (cy, m, d)
    }
}

/// The date the geomagnetic model is evaluated at for a tick at `ms`: the
/// tick's UTC date with its year clamped into the model's span. A timestamp
/// beyond the years -262000 to 262000 still gives a day of the span.
pub fn model_date(ms: i64) -> (r: (i32, u32, u32))
    ensures
        day_in_range(ms) ==> exists|y: i32, m: u32, d: u32|
            is_calendar_date(y as int, m as int, d as int) && days_from_civil(
                y as int,
                m as int,
                d as int,
            ) == ms / DAY_MS && r == #[trigger] model_date_clamped(y, m, d),
        MODEL_FIRST_YEAR <= r.0 <= MODEL_LAST_YEAR,
        is_calendar_date(r.0 as int, r.1 as int, r.2 as int),
{
    match civil_date(ms) {
        Some((y, m, d)) => clamp_model_date(y, m, d),
        None => if ms < 0 {
            (MODEL_FIRST_YEAR, 1, 1)
        } else {
            (MODEL_LAST_YEAR, 12, 31)
        },
    }
}

/// The day the geomagnetic model is evaluated at for a tick at `ms` (see
/// [`model_date`]). It always exists.
pub fn model_day(ms: i64) -> (r: Option<time::Date>)
    ensures
        r.is_some(),
{
    let (y, m, d) = model_date(ms);
    calendar_date(y, m, d)
}

} // verus!
