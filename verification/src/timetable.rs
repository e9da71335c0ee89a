//! A scraped mosque timetable — today's times, a year calendar and iqama
//! offsets — and the assembly of one day's verified schedule from it.

use vstd::prelude::*;
use crate::prayer::{spec_is_friday_day, Prayer, PrayerTimes, MAX_TIMESTAMP, SECS_PER_DAY};
use crate::provider::ProviderError;
use crate::text::{clock_text, spec_clock_text};
use crate::timeparse::{
    parse_clock_minutes, parse_offset_minutes, spec_clock_minutes, spec_clock_ok,
    spec_offset_minutes, spec_offset_ok,
};

verus! {

/// One month of a timetable: the recorded entries, indexed by day of month
/// minus one.
#[derive(Debug)]
pub struct MonthTable {
    pub days: Vec<Option<Vec<String>>>,
}

/// The data scraped once per mosque page: display name, today's times, the
/// year calendars, and iqama settings.
#[derive(Debug)]
pub struct MosqueTimetable {
    pub name: String,
    /// Today's adhan times: Fajr, Dhuhr, Asr, Maghrib, Isha.
    pub times: Vec<String>,
    pub shuruq: Option<String>,
    pub jumua: Option<String>,
    /// Adhan times for the whole year, one table per month.
    pub calendar: Vec<MonthTable>,
    /// Iqama offsets for the whole year, one table per month.
    pub iqama_calendar: Vec<MonthTable>,
    pub iqama_enabled: Option<bool>,
}

/// The entry a calendar holds for a month and day, if any.
pub open spec fn spec_calendar_entry(cal: Seq<MonthTable>, month: int, day: int) -> Option<
    Seq<String>,
> {
    if 1 <= month <= cal.len() && 1 <= day <= cal[month - 1].days@.len() && cal[month
        - 1].days@[day - 1] is Some {
        Some(cal[month - 1].days@[day - 1]->Some_0@)
    } else {
        None
    }
}

fn clone_string_vec(v: &Vec<String>) -> (r: Vec<String>)
    ensures
        r@ == v@,
{
    let mut out: Vec<String> = Vec::new();
    let n = v.len();
    let mut i: usize = 0;
    while i < n
        invariant
            n == v@.len(),
            0 <= i <= n,
            out@ =~= v@.take(i as int),
        decreases n - i,
    {
        out.push(v[i].clone());
        i = i + 1;
    }
    proof {
        assert(v@.take(n as int) =~= v@);
    }
    out
}

/// Looks a month and day up in a calendar.
pub fn calendar_lookup(cal: &Vec<MonthTable>, month: i64, day: i64) -> (r: Option<Vec<String>>)
    requires
        1 <= month <= 12,
        1 <= day <= 31,
    ensures
        (r is Some) == (spec_calendar_entry(cal@, month as int, day as int) is Some),
        r is Some ==> r->Some_0@ == spec_calendar_entry(cal@, month as int, day as int)->Some_0,
{
    if (month as usize) > cal.len() {
        return None;
    }
    let table = &cal[(month - 1) as usize];
    if (day as usize) > table.days.len() {
        return None;
    }
    match &table.days[(day - 1) as usize] {
        Some(entry) => Some(clone_string_vec(entry)),
        None => None,
    }
}

/// The iqama offsets assumed when a day has none recorded.
pub fn default_iqama_offsets() -> (r: Vec<String>)
    ensures
        r@.len() == 5,
        r@[0]@ == "+30"@,
        r@[1]@ == "+15"@,
        r@[2]@ == "+15"@,
        r@[3]@ == "+10"@,
        r@[4]@ == "+15"@,
{
    let mut v: Vec<String> = Vec::new();
    v.push(String::from_str("+30"));
    v.push(String::from_str("+15"));
    v.push(String::from_str("+15"));
    v.push(String::from_str("+10"));
    v.push(String::from_str("+15"));
    v
}

/// Adhan times and iqama offsets for one calendar day: the times must be
/// recorded; missing offsets fall back to the defaults.
pub fn day_times_with_offsets(t: &MosqueTimetable, month: i64, day: i64) -> (r: Option<
    (Vec<String>, Vec<String>),
>)
    requires
        1 <= month <= 12,
        1 <= day <= 31,
    ensures
        (r is Some) == (spec_calendar_entry(t.calendar@, month as int, day as int) is Some),
        r is Some ==> r->Some_0.0@ == spec_calendar_entry(
            t.calendar@,
            month as int,
            day as int,
        )->Some_0,
        r is Some && spec_calendar_entry(t.iqama_calendar@, month as int, day as int) is Some
            ==> r->Some_0.1@ == spec_calendar_entry(
            t.iqama_calendar@,
            month as int,
            day as int,
        )->Some_0,
        r is Some && spec_calendar_entry(t.iqama_calendar@, month as int, day as int) is None
            ==> {
            &&& r->Some_0.1@.len() == 5
            &&& r->Some_0.1@[0]@ == "+30"@
            &&& r->Some_0.1@[1]@ == "+15"@
            &&& r->Some_0.1@[2]@ == "+15"@
            &&& r->Some_0.1@[3]@ == "+10"@
            &&& r->Some_0.1@[4]@ == "+15"@
        },
{
    let times = match calendar_lookup(&t.calendar, month, day) {
        Some(v) => v,
        None => {
            return None;
        },
    };
    let offsets = match calendar_lookup(&t.iqama_calendar, month, day) {
        Some(v) => v,
        None => default_iqama_offsets(),
    };
    Some((times, offsets))
}

/// The sunrise entry inserted when today's five page times are expanded to
/// the six-entry calendar shape: the reported sunrise when there is one,
/// else an hour after Fajr, else a fixed morning placeholder.
pub open spec fn spec_shuruq_entry(fajr: Seq<char>, shuruq: Option<String>) -> Seq<char> {
    match shuruq {
        Some(s) => s@,
        None => if spec_clock_ok(fajr) {
            spec_clock_text((spec_clock_minutes(fajr) + 60) % 1440)
        } else {
            "06:00"@
        },
    }
}

/// Expands today's page times — Fajr, Dhuhr, Asr, Maghrib, Isha — to the
/// six-entry day-order shape the calendars use, the sunrise entry inserted
/// second. Fewer than five times cannot be expanded; six or more pass
/// through unchanged.
pub fn expand_today_times(times: &Vec<String>, shuruq: &Option<String>) -> (r: Option<
    Vec<String>,
>)
    ensures
        (r is Some) == (times@.len() >= 5),
        times@.len() >= 6 ==> r is Some && r->Some_0@ == times@,
        times@.len() == 5 ==> r is Some && {
            let v = r->Some_0@;
            &&& v.len() == 6
            &&& v[0] == times@[0]
            &&& v[1]@ == spec_shuruq_entry(times@[0]@, *shuruq)
            &&& v[2] == times@[1]
            &&& v[3] == times@[2]
            &&& v[4] == times@[3]
            &&& v[5] == times@[4]
        },
{
    if times.len() < 5 {
        return None;
    }
    if times.len() >= 6 {
        return Some(clone_string_vec(times));
    }
    let sunrise: String = match shuruq {
        Some(s) => s.clone(),
        None => {
            match parse_clock_minutes(times[0].as_str()) {
                Some(m) => clock_text((m + 60) % 1440),
                None => String::from_str("06:00"),
            }
        },
    };
    let mut out: Vec<String> = Vec::new();
    out.push(times[0].clone());
    out.push(sunrise);
    out.push(times[1].clone());
    out.push(times[2].clone());
    out.push(times[3].clone());
    out.push(times[4].clone());
    Some(out)
}

/// Whether the six day-order adhan texts parse and are chronologically
/// non-decreasing (the sunrise entry at position one is not a prayer and is
/// left out).
pub open spec fn spec_day_times_ok(times: Seq<String>) -> bool {
    &&& times.len() >= 6
    &&& spec_clock_ok(times[0]@)
    &&& spec_clock_ok(times[2]@)
    &&& spec_clock_ok(times[3]@)
    &&& spec_clock_ok(times[4]@)
    &&& spec_clock_ok(times[5]@)
    &&& spec_clock_minutes(times[0]@) <= spec_clock_minutes(times[2]@)
    &&& spec_clock_minutes(times[2]@) <= spec_clock_minutes(times[3]@)
    &&& spec_clock_minutes(times[3]@) <= spec_clock_minutes(times[4]@)
    &&& spec_clock_minutes(times[4]@) <= spec_clock_minutes(times[5]@)
}

/// The iqama minute of the day-order prayer at `slot`, if one is recorded:
/// offsets apply only when iqama reporting is enabled, parse as signed
/// minutes, and only a non-negative offset yields an iqama.
pub open spec fn spec_iqama_minute(
    adhan_minute: int,
    offsets: Seq<String>,
    enabled: bool,
    slot: int,
) -> Option<int> {
    if enabled && 0 <= slot < offsets.len() && spec_offset_ok(offsets[slot]@)
        && spec_offset_minutes(offsets[slot]@) >= 0 {
        Some(adhan_minute + spec_offset_minutes(offsets[slot]@))
    } else {
        None
    }
}

fn iqama_for(adhan_minute: u32, offsets: &Vec<String>, enabled: bool, slot: usize) -> (r: Option<
    i64,
>)
    requires
        adhan_minute < 1440,
    ensures
        (r is Some) == (spec_iqama_minute(adhan_minute as int, offsets@, enabled, slot as int)
            is Some),
        r is Some ==> r->Some_0 == spec_iqama_minute(
            adhan_minute as int,
            offsets@,
            enabled,
            slot as int,
        )->Some_0,
        r is Some ==> 0 <= r->Some_0 <= 1440 + 9999,
{
    if !enabled || slot >= offsets.len() {
        return None;
    }
    match parse_offset_minutes(offsets[slot].as_str()) {
        Some(off) => {
            if off >= 0 {
                Some(adhan_minute as i64 + off as i64)
            } else {
                None
            }
        },
        None => None,
    }
}

/// Whether the whole day assembles: the times parse in order, and on a
/// Friday a recorded Jumuah time parses too.
pub open spec fn spec_day_assembles(
    times: Seq<String>,
    jumua: Option<String>,
    date_midnight: int,
) -> bool {
    &&& spec_day_times_ok(times)
    &&& (jumua is Some && spec_is_friday_day(date_midnight / (SECS_PER_DAY as int))
        ==> spec_clock_ok(jumua->0@))
}

/// Assembles one day's schedule from a timetable day: six adhan texts (with
/// the sunrise entry second), the iqama offsets, and the optional Jumuah
/// time, anchored at the day's midnight. Malformed or unordered times are a
/// parse failure; the result is a well-formed schedule.
pub fn build_prayer_times(
    mosque_id: &str,
    mosque_name: &str,
    date_midnight: i64,
    times: &Vec<String>,
    offsets: &Vec<String>,
    iqama_enabled: bool,
    jumua: &Option<String>,
    cached_at: i64,
) -> (r: Result<PrayerTimes, ProviderError>)
    requires
        0 <= date_midnight,
        date_midnight + 2 * SECS_PER_DAY * 60 <= MAX_TIMESTAMP,
        0 <= cached_at <= MAX_TIMESTAMP,
    ensures
        (r is Ok) == spec_day_assembles(times@, *jumua, date_midnight as int),
        r is Err ==> r->Err_0 is Parse,
        r is Ok ==> {
            let s = r->Ok_0;
            &&& s.wf()
            &&& s.date == date_midnight
            &&& s.fajr.name@ == "Fajr"@
            &&& s.dhuhr.name@ == "Dhuhr"@
            &&& s.asr.name@ == "Asr"@
            &&& s.maghrib.name@ == "Maghrib"@
            &&& s.isha.name@ == "Isha"@
            &&& s.fajr.adhan == date_midnight + spec_clock_minutes(times@[0]@) * 60
            &&& s.dhuhr.adhan == date_midnight + spec_clock_minutes(times@[2]@) * 60
            &&& s.asr.adhan == date_midnight + spec_clock_minutes(times@[3]@) * 60
            &&& s.maghrib.adhan == date_midnight + spec_clock_minutes(times@[4]@) * 60
            &&& s.isha.adhan == date_midnight + spec_clock_minutes(times@[5]@) * 60
            &&& iqama_matches(s.fajr, date_midnight as int, times@[0]@, offsets@, iqama_enabled, 0)
            &&& iqama_matches(s.dhuhr, date_midnight as int, times@[2]@, offsets@, iqama_enabled, 1)
            &&& iqama_matches(s.asr, date_midnight as int, times@[3]@, offsets@, iqama_enabled, 2)
            &&& iqama_matches(
                s.maghrib,
                date_midnight as int,
                times@[4]@,
                offsets@,
                iqama_enabled,
                3,
            )
            &&& iqama_matches(s.isha, date_midnight as int, times@[5]@, offsets@, iqama_enabled, 4)
            &&& s.fajr.custom_rakah_count == Some(2i64)
            &&& s.dhuhr.custom_rakah_count == Some(4i64)
            &&& s.asr.custom_rakah_count == Some(4i64)
            &&& s.maghrib.custom_rakah_count == Some(3i64)
            &&& s.isha.custom_rakah_count == Some(4i64)
            &&& (s.jumuah is Some) == (jumua is Some && spec_is_friday_day(
                date_midnight as int / (SECS_PER_DAY as int),
            ))
            &&& (s.jumuah is Some ==> s.jumuah->Some_0.name@ == "Jumuah"@
                && s.jumuah->Some_0.adhan == date_midnight + spec_clock_minutes(jumua->0@) * 60
                && s.jumuah->Some_0.iqama is None && s.jumuah->Some_0.custom_rakah_count == Some(
                2i64,
            ))
            &&& (s.mosque_id is Some && s.mosque_id->0@ == mosque_id@)
            &&& (s.mosque_name is Some && s.mosque_name->0@ == mosque_name@)
            &&& s.cached_at == Some(cached_at)
        },
{
    if times.len() < 6 {
        return Err(ProviderError::Parse(String::from_str("expected six day times")));
    }
    let fajr_min = match parse_clock_minutes(times[0].as_str()) {
        Some(v) => v,
        None => {
            return Err(ProviderError::Parse(String::from_str("unreadable time of day")));
        },
    };
    let dhuhr_min = match parse_clock_minutes(times[2].as_str()) {
        Some(v) => v,
        None => {
            return Err(ProviderError::Parse(String::from_str("unreadable time of day")));
        },
    };
    let asr_min = match parse_clock_minutes(times[3].as_str()) {
        Some(v) => v,
        None => {
            return Err(ProviderError::Parse(String::from_str("unreadable time of day")));
        },
    };
    let maghrib_min = match parse_clock_minutes(times[4].as_str()) {
        Some(v) => v,
        None => {
            return Err(ProviderError::Parse(String::from_str("unreadable time of day")));
        },
    };
    let isha_min = match parse_clock_minutes(times[5].as_str()) {
        Some(v) => v,
        None => {
            return Err(ProviderError::Parse(String::from_str("unreadable time of day")));
        },
    };
    if !(fajr_min <= dhuhr_min && dhuhr_min <= asr_min && asr_min <= maghrib_min && maghrib_min
        <= isha_min) {
        return Err(ProviderError::Parse(String::from_str("day times out of order")));
    }

    let day: i64 = ((date_midnight as u64) / (SECS_PER_DAY as u64)) as i64;
    let friday = (((day as u64) + 3) % 7) == 4;
    let jumuah: Option<Prayer> = match jumua {
        Some(j) => {
            if friday {
                match parse_clock_minutes(j.as_str()) {
                    Some(jm) => Some(
                        Prayer {
                            name: String::from_str("Jumuah"),
                            adhan: date_midnight + (jm as i64) * 60,
                            iqama: None,
                            custom_rakah_count: Some(2),
                        },
                    ),
                    None => {
                        return Err(ProviderError::Parse(String::from_str(
                            "unreadable Jumuah time",
                        )));
                    },
                }
            } else {
                None
            }
        },
        None => None,
    };

    let fajr = build_prayer("Fajr", date_midnight, fajr_min, offsets, iqama_enabled, 0, 2);
    let dhuhr = build_prayer("Dhuhr", date_midnight, dhuhr_min, offsets, iqama_enabled, 1, 4);
    let asr = build_prayer("Asr", date_midnight, asr_min, offsets, iqama_enabled, 2, 4);
    let maghrib = build_prayer("Maghrib", date_midnight, maghrib_min, offsets, iqama_enabled, 3, 3);
    let isha = build_prayer("Isha", date_midnight, isha_min, offsets, iqama_enabled, 4, 4);

    Ok(
        PrayerTimes {
            date: date_midnight,
            fajr,
            dhuhr,
            asr,
            maghrib,
            isha,
            jumuah,
            mosque_id: Some(mosque_id.to_owned()),
            mosque_name: Some(mosque_name.to_owned()),
            cached_at: Some(cached_at),
        },
    )
}

/// Whether a built prayer's iqama field follows the offset rule.
pub open spec fn iqama_matches(
    p: Prayer,
    date_midnight: int,
    time_text: Seq<char>,
    offsets: Seq<String>,
    enabled: bool,
    slot: int,
) -> bool {
    match spec_iqama_minute(spec_clock_minutes(time_text), offsets, enabled, slot) {
        Some(m) => p.iqama == Some((date_midnight + m * 60) as i64),
        None => p.iqama is None,
    }
}

fn build_prayer(
    name: &str,
    date_midnight: i64,
    adhan_minute: u32,
    offsets: &Vec<String>,
    iqama_enabled: bool,
    slot: usize,
    rakah: i64,
) -> (r: Prayer)
    requires
        0 <= date_midnight,
        date_midnight + 2 * SECS_PER_DAY * 60 <= MAX_TIMESTAMP,
        adhan_minute < 1440,
        1 <= rakah <= 10,
    ensures
        r.name@ == name@,
        r.adhan == date_midnight + adhan_minute * 60,
        match spec_iqama_minute(adhan_minute as int, offsets@, iqama_enabled, slot as int) {
            Some(m) => r.iqama == Some((date_midnight + m * 60) as i64),
            None => r.iqama is None,
        },
        r.custom_rakah_count == Some(rakah),
        r.wf(),
{
    let iqama = match iqama_for(adhan_minute, offsets, iqama_enabled, slot) {
        Some(m) => Some(date_midnight + m * 60),
        None => None,
    };
    Prayer {
        name: name.to_owned(),
        adhan: date_midnight + (adhan_minute as i64) * 60,
        iqama,
        custom_rakah_count: Some(rakah),
    }
}

} // verus!
