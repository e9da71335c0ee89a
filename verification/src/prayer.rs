//! Value types of the schedule data model: a single prayer, a day's schedule,
//! the engine configuration, and the derived per-query results.

use vstd::prelude::*;

verus! {

/// Latest instant the library reasons about: 10000-01-01T00:00:00Z.
pub const MAX_TIMESTAMP: i64 = 253_402_300_800;

/// Largest accepted configured duration, in seconds (366 days).
pub const MAX_DURATION: i64 = 31_622_400;

/// Largest accepted configured window, in minutes (366 days).
pub const MAX_WINDOW_MINUTES: i64 = 527_040;

/// Largest accepted rakah count for a single prayer.
pub const MAX_RAKAH: i64 = 100;

pub const SECS_PER_DAY: i64 = 86_400;

/// One prayer of the day: its name, the adhan instant, the optional iqama
/// instant, and an optional explicit rakah count overriding the defaults.
#[derive(Debug)]
pub struct Prayer {
    pub name: String,
    pub adhan: i64,
    pub iqama: Option<i64>,
    pub custom_rakah_count: Option<i64>,
}

impl Prayer {
    /// Validity: instants are in range, the iqama (when recorded) does not
    /// precede the adhan, and an explicit rakah count is positive.
    pub open spec fn wf(&self) -> bool {
        &&& 0 <= self.adhan <= MAX_TIMESTAMP
        &&& match self.iqama {
            Some(q) => self.adhan <= q <= MAX_TIMESTAMP,
            None => true,
        }
        &&& match self.custom_rakah_count {
            Some(c) => 1 <= c <= MAX_RAKAH,
            None => true,
        }
    }

    pub fn has_iqama(&self) -> (r: bool)
        ensures
            r == (self.iqama is Some),
    {
        self.iqama.is_some()
    }
}

/// Copies a prayer field by field; the result equals the original.
pub fn clone_prayer(p: &Prayer) -> (r: Prayer)
    ensures
        r == *p,
{
    Prayer {
        name: p.name.clone(),
        adhan: p.adhan,
        iqama: p.iqama,
        custom_rakah_count: p.custom_rakah_count,
    }
}

/// Default rakah counts keyed by prayer name.
#[derive(Debug)]
pub struct RakahCountTable {
    pub fajr: i64,
    pub dhuhr: i64,
    pub asr: i64,
    pub maghrib: i64,
    pub isha: i64,
    pub jumuah: i64,
}

impl RakahCountTable {
    pub open spec fn wf(&self) -> bool {
        &&& 1 <= self.fajr <= MAX_RAKAH
        &&& 1 <= self.dhuhr <= MAX_RAKAH
        &&& 1 <= self.asr <= MAX_RAKAH
        &&& 1 <= self.maghrib <= MAX_RAKAH
        &&& 1 <= self.isha <= MAX_RAKAH
        &&& 1 <= self.jumuah <= MAX_RAKAH
    }

    /// The count recorded for a prayer name, if the name is a known one.
    pub open spec fn spec_count_for(&self, name: Seq<char>) -> Option<i64> {
        if name == "Fajr"@ {
            Some(self.fajr)
        } else if name == "Dhuhr"@ {
            Some(self.dhuhr)
        } else if name == "Asr"@ {
            Some(self.asr)
        } else if name == "Maghrib"@ {
            Some(self.maghrib)
        } else if name == "Isha"@ {
            Some(self.isha)
        } else if name == "Jumuah"@ {
            Some(self.jumuah)
        } else {
            None
        }
    }

    pub fn count_for(&self, name: &str) -> (r: Option<i64>)
        ensures
            r == self.spec_count_for(name@),
    {
        let n = name.to_owned();
        if n == String::from_str("Fajr") {
            Some(self.fajr)
        } else if n == String::from_str("Dhuhr") {
            Some(self.dhuhr)
        } else if n == String::from_str("Asr") {
            Some(self.asr)
        } else if n == String::from_str("Maghrib") {
            Some(self.maghrib)
        } else if n == String::from_str("Isha") {
            Some(self.isha)
        } else if n == String::from_str("Jumuah") {
            Some(self.jumuah)
        } else {
            None
        }
    }
}

/// Rakah count resolution: explicit override, then the per-name default
/// table, then a global fallback of four.
pub open spec fn spec_rakah_count(p: Prayer, table: RakahCountTable) -> i64 {
    match p.custom_rakah_count {
        Some(c) => c,
        None => match table.spec_count_for(p.name@) {
            Some(c) => c,
            None => 4,
        },
    }
}

impl Prayer {
    pub fn get_rakah_count(&self, defaults: &RakahCountTable) -> (r: i64)
        ensures
            r == spec_rakah_count(*self, *defaults),
    {
        match self.custom_rakah_count {
            Some(c) => c,
            None => match defaults.count_for(self.name.as_str()) {
                Some(c) => c,
                None => 4,
            },
        }
    }
}

/// Engine configuration; every duration is non-negative and the per-rakah
/// duration is positive.
#[derive(Debug)]
pub struct PrayerEngineConfig {
    pub rakah_duration_seconds: i64,
    pub start_lag_seconds: i64,
    pub buffer_before_start_seconds: i64,
    /// Grace allowance after the estimated end. The post-display comparison
    /// is made first, so a grace period no longer than the post-display
    /// window (as in the defaults) never reaches its own phase.
    pub grace_seconds: i64,
    /// How long the "recently finished" report stays available after the
    /// estimated end.
    pub post_prayer_display_minutes: i64,
    /// Window after the estimated end in which the prayer can still be caught.
    pub catch_up_minutes: i64,
    pub default_rakah_counts: RakahCountTable,
}

impl PrayerEngineConfig {
    /// The stock configuration the engine is built with by default.
    pub open spec fn spec_default() -> PrayerEngineConfig {
        PrayerEngineConfig {
            rakah_duration_seconds: 144,
            start_lag_seconds: 0,
            buffer_before_start_seconds: 30,
            grace_seconds: 60,
            post_prayer_display_minutes: 28,
            catch_up_minutes: 3,
            default_rakah_counts: RakahCountTable {
                fajr: 2,
                dhuhr: 4,
                asr: 4,
                maghrib: 3,
                isha: 4,
                jumuah: 2,
            },
        }
    }

    pub open spec fn wf(&self) -> bool {
        &&& 1 <= self.rakah_duration_seconds <= MAX_DURATION
        &&& 0 <= self.start_lag_seconds <= MAX_DURATION
        &&& 0 <= self.buffer_before_start_seconds <= MAX_DURATION
        &&& 0 <= self.grace_seconds <= MAX_DURATION
        &&& 0 <= self.post_prayer_display_minutes <= MAX_WINDOW_MINUTES
        &&& 0 <= self.catch_up_minutes <= MAX_WINDOW_MINUTES
        &&& self.default_rakah_counts.wf()
    }
}

impl Default for PrayerEngineConfig {
    fn default() -> (r: Self)
        ensures
            r == PrayerEngineConfig::spec_default(),
            r.wf(),
    {
        PrayerEngineConfig {
            rakah_duration_seconds: 144,
            start_lag_seconds: 0,
            buffer_before_start_seconds: 30,
            grace_seconds: 60,
            post_prayer_display_minutes: 28,
            catch_up_minutes: 3,
            default_rakah_counts: RakahCountTable {
                fajr: 2,
                dhuhr: 4,
                asr: 4,
                maghrib: 3,
                isha: 4,
                jumuah: 2,
            },
        }
    }
}

/// A day's schedule: the five mandatory prayers, an optional Jumuah on
/// Fridays, and provenance fields.
#[derive(Debug)]
pub struct PrayerTimes {
    /// Midnight opening the schedule's calendar day.
    pub date: i64,
    pub fajr: Prayer,
    pub dhuhr: Prayer,
    pub asr: Prayer,
    pub maghrib: Prayer,
    pub isha: Prayer,
    pub jumuah: Option<Prayer>,
    pub mosque_id: Option<String>,
    pub mosque_name: Option<String>,
    pub cached_at: Option<i64>,
}

/// Whether an epoch day number falls on a Friday (day zero was a Thursday).
pub open spec fn spec_is_friday_day(epoch_day: int) -> bool {
    (epoch_day + 3) % 7 == 4
}

impl PrayerTimes {
    /// The mandatory prayer at a day-order position, zero through four.
    pub open spec fn spec_prayer_at(&self, i: int) -> Prayer {
        if i == 0 {
            self.fajr
        } else if i == 1 {
            self.dhuhr
        } else if i == 2 {
            self.asr
        } else if i == 3 {
            self.maghrib
        } else {
            self.isha
        }
    }

    /// Validity: every prayer is valid, the mandatory adhans are
    /// chronologically non-decreasing, and Jumuah appears only on a Friday.
    pub open spec fn wf(&self) -> bool {
        &&& 0 <= self.date <= MAX_TIMESTAMP
        &&& self.fajr.wf()
        &&& self.dhuhr.wf()
        &&& self.asr.wf()
        &&& self.maghrib.wf()
        &&& self.isha.wf()
        &&& self.fajr.adhan <= self.dhuhr.adhan
        &&& self.dhuhr.adhan <= self.asr.adhan
        &&& self.asr.adhan <= self.maghrib.adhan
        &&& self.maghrib.adhan <= self.isha.adhan
        &&& match self.jumuah {
            Some(j) => j.wf() && spec_is_friday_day(self.date / SECS_PER_DAY),
            None => true,
        }
    }

    /// Runtime check of `wf`, for callers that assemble a schedule from
    /// unchecked data.
    pub fn well_formed(&self) -> (r: bool)
        ensures
            r == self.wf(),
    {
        let dates_ok = 0 <= self.date && self.date <= MAX_TIMESTAMP;
        let prayers_ok = prayer_wf_check(&self.fajr) && prayer_wf_check(&self.dhuhr)
            && prayer_wf_check(&self.asr) && prayer_wf_check(&self.maghrib)
            && prayer_wf_check(&self.isha);
        let sorted_ok = self.fajr.adhan <= self.dhuhr.adhan && self.dhuhr.adhan <= self.asr.adhan
            && self.asr.adhan <= self.maghrib.adhan && self.maghrib.adhan <= self.isha.adhan;
        let jumuah_ok = match &self.jumuah {
            Some(j) => {
                let d = ((self.date as u64) / (SECS_PER_DAY as u64)) as i64;
                if dates_ok {
                    prayer_wf_check(j) && ((d + 3) % 7 == 4)
                } else {
                    false
                }
            },
            None => true,
        };
        dates_ok && prayers_ok && sorted_ok && jumuah_ok
    }

    /// The five mandatory prayers in day order.
    pub fn all_prayers(&self) -> (r: Vec<Prayer>)
        ensures
            r@.len() == 5,
            forall|i: int| 0 <= i < 5 ==> r@[i] == self.spec_prayer_at(i),
    {
        let mut v: Vec<Prayer> = Vec::new();
        v.push(clone_prayer(&self.fajr));
        v.push(clone_prayer(&self.dhuhr));
        v.push(clone_prayer(&self.asr));
        v.push(clone_prayer(&self.maghrib));
        v.push(clone_prayer(&self.isha));
        v
    }

    pub fn get_prayer_by_name(&self, name: &str) -> (r: Option<&Prayer>)
        ensures
            name@ == "Fajr"@ ==> r == Some(&self.fajr),
            name@ == "Dhuhr"@ ==> r == Some(&self.dhuhr),
            name@ == "Asr"@ ==> r == Some(&self.asr),
            name@ == "Maghrib"@ ==> r == Some(&self.maghrib),
            name@ == "Isha"@ ==> r == Some(&self.isha),
            name@ == "Jumuah"@ ==> ((r is Some) == (self.jumuah is Some)),
            name@ == "Jumuah"@ && self.jumuah is Some ==> *r->Some_0 == self.jumuah->Some_0,
            (name@ != "Fajr"@ && name@ != "Dhuhr"@ && name@ != "Asr"@ && name@ != "Maghrib"@
                && name@ != "Isha"@ && name@ != "Jumuah"@) ==> r is None,
    {
        proof {
            prayer_name_literals_distinct();
            reveal_strlit("Fajr");
            reveal_strlit("Dhuhr");
            reveal_strlit("Asr");
            reveal_strlit("Maghrib");
            reveal_strlit("Isha");
            reveal_strlit("Jumuah");
        }
        let n = name.to_owned();
        if n == String::from_str("Fajr") {
            Some(&self.fajr)
        } else if n == String::from_str("Dhuhr") {
            Some(&self.dhuhr)
        } else if n == String::from_str("Asr") {
            Some(&self.asr)
        } else if n == String::from_str("Maghrib") {
            Some(&self.maghrib)
        } else if n == String::from_str("Isha") {
            Some(&self.isha)
        } else if n == String::from_str("Jumuah") {
            self.jumuah.as_ref()
        } else {
            None
        }
    }
}


/// The six prayer-name literals are pairwise distinct.
proof fn prayer_name_literals_distinct()
    ensures
        "Fajr"@ != "Dhuhr"@,
        "Fajr"@ != "Asr"@,
        "Fajr"@ != "Maghrib"@,
        "Fajr"@ != "Isha"@,
        "Fajr"@ != "Jumuah"@,
        "Dhuhr"@ != "Asr"@,
        "Dhuhr"@ != "Maghrib"@,
        "Dhuhr"@ != "Isha"@,
        "Dhuhr"@ != "Jumuah"@,
        "Asr"@ != "Maghrib"@,
        "Asr"@ != "Isha"@,
        "Asr"@ != "Jumuah"@,
        "Maghrib"@ != "Isha"@,
        "Maghrib"@ != "Jumuah"@,
        "Isha"@ != "Jumuah"@,
{
    reveal_strlit("Fajr");
    reveal_strlit("Dhuhr");
    reveal_strlit("Asr");
    reveal_strlit("Maghrib");
    reveal_strlit("Isha");
    reveal_strlit("Jumuah");
    assert("Fajr"@.len() == 4);
    assert("Dhuhr"@.len() == 5);
    assert("Asr"@.len() == 3);
    assert("Maghrib"@.len() == 7);
    assert("Isha"@.len() == 4);
    assert("Jumuah"@.len() == 6);
    assert("Fajr"@[0] == 'F');
    assert("Isha"@[0] == 'I');
}

fn prayer_wf_check(p: &Prayer) -> (r: bool)
    ensures
        r == p.wf(),
{
    let adhan_ok = 0 <= p.adhan && p.adhan <= MAX_TIMESTAMP;
    let iqama_ok = match p.iqama {
        Some(q) => p.adhan <= q && q <= MAX_TIMESTAMP,
        None => true,
    };
    let rakah_ok = match p.custom_rakah_count {
        Some(c) => 1 <= c && c <= MAX_RAKAH,
        None => true,
    };
    adhan_ok && iqama_ok && rakah_ok
}

/// Answer to "which prayer comes next".
#[derive(Debug)]
pub struct NextPrayerResult {
    pub prayer: Prayer,
    pub time_until_adhan_secs: i64,
    pub time_until_iqama_secs: Option<i64>,
    pub is_tomorrow: bool,
}

impl NextPrayerResult {
    pub fn has_iqama(&self) -> (r: bool)
        ensures
            r == (self.time_until_iqama_secs is Some),
    {
        self.time_until_iqama_secs.is_some()
    }
}

/// Phase of a prayer's communal recitation relative to a given instant.
#[derive(Debug, Clone, Copy, PartialEq, Eq, Structural)]
pub enum RakahStatus {
    NotAvailable,
    NotStarted,
    InProgress,
    RecentlyFinished,
    LikelyFinished,
}

impl RakahStatus {
    pub fn label(&self) -> (r: String)
        ensures
            *self is NotAvailable ==> r@ == "not_available"@,
            *self is NotStarted ==> r@ == "not_started"@,
            *self is InProgress ==> r@ == "in_progress"@,
            *self is RecentlyFinished ==> r@ == "recently_finished"@,
            *self is LikelyFinished ==> r@ == "likely_finished"@,
    {
        match self {
            RakahStatus::NotAvailable => String::from_str("not_available"),
            RakahStatus::NotStarted => String::from_str("not_started"),
            RakahStatus::InProgress => String::from_str("in_progress"),
            RakahStatus::RecentlyFinished => String::from_str("recently_finished"),
            RakahStatus::LikelyFinished => String::from_str("likely_finished"),
        }
    }
}

/// Rakah estimation result. `progress` is in ten-thousandths: zero is the
/// start of the recitation, ten thousand its estimated end.
#[derive(Debug)]
pub struct RakahEstimate {
    pub status: RakahStatus,
    pub current_rakah: Option<i64>,
    pub total_rakah: i64,
    pub elapsed_secs: Option<i64>,
    pub remaining_secs: Option<i64>,
    pub progress: i64,
    pub is_estimate: bool,
    /// Whole minutes since the estimated end, rounded up; reported only while
    /// the status is `RecentlyFinished`.
    pub ended_minutes_ago: Option<i64>,
    /// Whether the catch-up window after the estimated end is still open.
    pub can_still_catch: bool,
}

impl RakahEstimate {
    pub fn not_available(total_rakah: i64) -> (r: Self)
        ensures
            r.status is NotAvailable,
            r.current_rakah is None,
            r.total_rakah == total_rakah,
            r.elapsed_secs is None,
            r.remaining_secs is None,
            r.progress == 0,
            r.is_estimate == false,
            r.ended_minutes_ago is None,
            r.can_still_catch == false,
    {
        RakahEstimate {
            status: RakahStatus::NotAvailable,
            current_rakah: None,
            total_rakah,
            elapsed_secs: None,
            remaining_secs: None,
            progress: 0,
            is_estimate: false,
            ended_minutes_ago: None,
            can_still_catch: false,
        }
    }
}

/// Classification of a predicted arrival relative to the prayer's start.
#[derive(Debug, Clone, Copy, PartialEq, Eq, Structural)]
pub enum ArrivalStatus {
    IqamaUnavailable,
    BeforeStart,
    InProgress,
    AfterEstimatedEnd,
}

impl ArrivalStatus {
    pub fn label(&self) -> (r: String)
        ensures
            *self is IqamaUnavailable ==> r@ == "iqama_unavailable"@,
            *self is BeforeStart ==> r@ == "before_start"@,
            *self is InProgress ==> r@ == "in_progress"@,
            *self is AfterEstimatedEnd ==> r@ == "after_estimated_end"@,
    {
        match self {
            ArrivalStatus::IqamaUnavailable => String::from_str("iqama_unavailable"),
            ArrivalStatus::BeforeStart => String::from_str("before_start"),
            ArrivalStatus::InProgress => String::from_str("in_progress"),
            ArrivalStatus::AfterEstimatedEnd => String::from_str("after_estimated_end"),
        }
    }
}

/// Travel guidance toward a prayer's start.
#[derive(Debug)]
pub struct TravelPrediction {
    pub recommended_leave_time: i64,
    pub arrival_time: i64,
    pub arrival_rakah: Option<i64>,
    pub arrival_status: ArrivalStatus,
    pub should_leave_now: bool,
    pub time_until_leave_secs: Option<i64>,
    pub is_late: bool,
}

/// Per-prayer countdown record.
#[derive(Debug)]
pub struct PrayerCountdown {
    pub prayer_name: String,
    pub adhan_time: i64,
    pub iqama_time: Option<i64>,
    pub time_until_adhan_secs: i64,
    pub time_until_iqama_secs: Option<i64>,
    pub is_active: bool,
}

} // verus!

