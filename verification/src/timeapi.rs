//! The bridge to chrono: breaking an epoch timestamp into civil
//! components, either under the machine's local time zone or under a
//! fixed UTC offset, and formatting the result to the second.

use vstd::prelude::*;
use crate::timefmt::{format_timestamp, spec_timestamp};
use chrono::Datelike;
use chrono::TimeZone;
use chrono::Timelike;

verus! {

// Chrono represents civil dates over a span of roughly half a million
// years. This band of epoch seconds covers about 253 000 years on each
// side of the epoch and stays far enough from chrono's edge that
// adding a time-zone offset of less than a day cannot leave it.
pub const CIVIL_SECS_MIN: i64 = -8_000_000_000_000;

pub const CIVIL_SECS_MAX: i64 = 8_000_000_000_000;

/// The epoch seconds for which a civil conversion is attempted.
pub open spec fn spec_secs_supported(secs: i64) -> bool {
    CIVIL_SECS_MIN <= secs <= CIVIL_SECS_MAX
}

// The instants whose civil year stays within 0..=9999 under every
// time-zone offset: one day inside the span from 0000-01-01T00:00:00
// (epoch second -62_167_219_200) to 9999-12-31T23:59:59 (epoch second
// 253_402_300_799), since every offset is below a day in magnitude.
pub const RENDERABLE_SECS_MIN: i64 = -62_167_132_800;

pub const RENDERABLE_SECS_MAX: i64 = 253_402_214_399;

/// The epoch seconds whose rendering succeeds whatever zone the
/// machine is in.
pub open spec fn spec_secs_renderable(secs: i64) -> bool {
    RENDERABLE_SECS_MIN <= secs <= RENDERABLE_SECS_MAX
}

/// The civil date-time `[year, month, day, hour, minute, second]` that
/// chrono assigns to `secs` seconds past the Unix epoch under a fixed
/// UTC offset of `offset_secs` seconds, or `None` where chrono deems
/// the instant out of range. A function of its two arguments alone.
pub uninterp spec fn civil_of(secs: int, offset_secs: int) -> Option<Seq<int>>;

/// Six civil components in their documented ranges: month `1..=12`,
/// day `1..=31`, hour below 24, minute and second below 60.
pub open spec fn valid_civil(p: Seq<int>) -> bool {
    p.len() == 6 && 1 <= p[1] <= 12 && 1 <= p[2] <= 31 && 0 <= p[3] < 24 && 0 <= p[4] < 60 && 0
        <= p[5] < 60
}

/// Relies on chrono's `FixedOffset::east_opt` and
/// `TimeZone::timestamp_opt` together with the `Datelike`/`Timelike`
/// accessors: under a fixed offset the civil components depend on the
/// two arguments alone; the accessor ranges are documented, and within
/// the supported band of seconds the conversion always succeeds.
#[verifier::external_body]
fn civil_parts_fixed(secs: i64, offset_secs: i32) -> (r: Option<(i32, u32, u32, u32, u32, u32)>)
    requires
        -86400 < offset_secs < 86400,
        spec_secs_supported(secs),
    ensures
        r is Some,
        r matches Some(p) ==> civil_of(secs as int, offset_secs as int) == Some(
            seq![p.0 as int, p.1 as int, p.2 as int, p.3 as int, p.4 as int, p.5 as int],
        ),
        r matches Some(p) ==> 1 <= p.1 <= 12 && 1 <= p.2 <= 31 && p.3 < 24 && p.4 < 60 && p.5
            < 60,
{
    let off = chrono::FixedOffset::east_opt(offset_secs).unwrap();
    match off.timestamp_opt(secs, 0) {
        chrono::MappedLocalTime::Single(dt) => Some(
            (dt.year(), dt.month(), dt.day(), dt.hour(), dt.minute(), dt.second()),
        ),
        _ => None,
    }
}

/// Relies on chrono's `Local::timestamp_opt` together with the
/// `Datelike`/`Timelike` accessors. The machine's zone picks the
/// offset, so which offset applies is left open; but the offset it
/// picks is a `FixedOffset` built through the checked constructors
/// (strictly within a day of UTC), and the accessors run through the
/// same naive-UTC-plus-offset path as the fixed-offset conversion, so
/// the components are those of *some* such offset. Within the
/// supported band the conversion succeeds, and one day inside the
/// four-digit-year span the civil year fits `YYYY` under every offset.
#[verifier::external_body]
fn civil_parts_local(secs: i64) -> (r: Option<(i32, u32, u32, u32, u32, u32)>)
    requires
        spec_secs_supported(secs),
    ensures
        r is Some,
        r matches Some(p) ==> 1 <= p.1 <= 12 && 1 <= p.2 <= 31 && p.3 < 24 && p.4 < 60 && p.5
            < 60,
        r matches Some(p) ==> exists|off: int|
            #![auto]
            -86400 < off < 86400 && civil_of(secs as int, off) == Some(
                seq![p.0 as int, p.1 as int, p.2 as int, p.3 as int, p.4 as int, p.5 as int],
            ),
        r matches Some(p) ==> (spec_secs_renderable(secs) ==> 0 <= p.0 < 10000),
{
    match chrono::Local.timestamp_opt(secs, 0) {
        chrono::MappedLocalTime::Single(dt) => Some(
            (dt.year(), dt.month(), dt.day(), dt.hour(), dt.minute(), dt.second()),
        ),
        _ => None,
    }
}

/// A year the `YYYY`-form rendering can carry.
pub open spec fn spec_year_formattable(y: int) -> bool {
    0 <= y < 10000
}

/// Format the instant `secs` seconds past the Unix epoch under a fixed
/// UTC offset, to the second, as `YYYY-MM-DD HH:MM:SS`. `None` exactly
/// where the seconds lie outside the supported band or the civil year
/// does not fit the four-digit form.
pub fn format_timestamp_fixed(secs: i64, offset_secs: i32) -> (r: Option<String>)
    requires
        -86400 < offset_secs < 86400,
    ensures
        r matches Some(t) ==> spec_secs_supported(secs) && (civil_of(
            secs as int,
            offset_secs as int,
        ) matches Some(p) && valid_civil(p) && spec_year_formattable(p[0]) && t@ == spec_timestamp(
            p[0],
            p[1],
            p[2],
            p[3],
            p[4],
            p[5],
        )),
        r is None ==> !spec_secs_supported(secs) || (civil_of(
            secs as int,
            offset_secs as int,
        ) matches Some(p) && !spec_year_formattable(p[0])),
{
    if secs < CIVIL_SECS_MIN || secs > CIVIL_SECS_MAX {
        return None;
    }
    match civil_parts_fixed(secs, offset_secs) {
        Some((y, mo, d, h, mi, s)) => {
            if 0 <= y && y < 10000 {
                Some(format_timestamp(y as u32, mo, d, h, mi, s))
            } else {
                None
            }
        },
        None => None,
    }
}

/// The string is the exact rendering of the civil date-time that some
/// time-zone offset below a day in magnitude assigns to the instant:
/// what a local-time rendering may return.
pub open spec fn spec_local_rendering(secs: int, t: Seq<char>) -> bool {
    exists|off: int, p: Seq<int>|
        #![auto]
        -86400 < off < 86400 && civil_of(secs, off) == Some(p) && valid_civil(p)
            && spec_year_formattable(p[0]) && t == spec_timestamp(p[0], p[1], p[2], p[3], p[4], p[5])
}

/// Format the instant `secs` seconds past the Unix epoch in the
/// machine's local time zone, to the second, as `YYYY-MM-DD HH:MM:SS`.
/// A returned string is exactly the rendering of the civil date-time
/// some sub-day offset assigns to the instant; seconds outside the
/// supported band are refused, and within the band where every zone's
/// civil year fits `YYYY`, success is owed.
pub fn format_timestamp_local(secs: i64) -> (r: Option<String>)
    ensures
        r matches Some(t) ==> spec_local_rendering(secs as int, t@),
        !spec_secs_supported(secs) ==> r is None,
        spec_secs_renderable(secs) ==> r is Some,
{
    if secs < CIVIL_SECS_MIN || secs > CIVIL_SECS_MAX {
        return None;
    }
    match civil_parts_local(secs) {
        Some((y, mo, d, h, mi, s)) => {
            if 0 <= y && y < 10000 {
                let t = format_timestamp(y as u32, mo, d, h, mi, s);
                proof {
                    let p = seq![y as int, mo as int, d as int, h as int, mi as int, s as int];
                    let off = choose|off: int|
                        #![auto]
                        -86400 < off < 86400 && civil_of(secs as int, off) == Some(p);
                    assert(-86400 < off < 86400 && civil_of(secs as int, off) == Some(p)
                        && valid_civil(p) && spec_year_formattable(p[0]) && t@ == spec_timestamp(
                        p[0],
                        p[1],
                        p[2],
                        p[3],
                        p[4],
                        p[5],
                    ));
                }
                Some(t)
            } else {
                None
            }
        },
        None => None,
    }
}

} // verus!
