//! The time-state engine: pure queries over a day's schedule, a
//! configuration and a clock reading. Nothing here performs I/O.

use vstd::prelude::*;
use crate::prayer::{
    clone_prayer, spec_rakah_count, ArrivalStatus, NextPrayerResult, Prayer, PrayerCountdown,
    PrayerEngineConfig, PrayerTimes, RakahEstimate, RakahStatus, TravelPrediction, MAX_DURATION,
    MAX_RAKAH, MAX_TIMESTAMP, SECS_PER_DAY,
};
use crate::text::{render_duration, spec_format_duration};

verus! {

/// Truncating division of non-negative machine integers agrees with the
/// mathematical quotient.
pub fn div_nn(a: i64, b: i64) -> (r: i64)
    requires
        0 <= a,
        1 <= b,
    ensures
        r == a as int / b as int,
        0 <= r <= a,
{
    ((a as u64) / (b as u64)) as i64
}

/// Remainder counterpart of `div_nn`.
pub fn mod_nn(a: i64, b: i64) -> (r: i64)
    requires
        0 <= a,
        1 <= b,
    ensures
        r == a as int % b as int,
        0 <= r < b,
{
    ((a as u64) % (b as u64)) as i64
}

/// Instant the communal recitation starts: the iqama plus the configured lag.
pub open spec fn rk_start(c: PrayerEngineConfig, p: Prayer) -> int
    recommends
        p.iqama is Some,
{
    p.iqama->Some_0 + c.start_lag_seconds
}

/// Total rakah count the estimate is based on.
pub open spec fn rk_total(c: PrayerEngineConfig, p: Prayer) -> int {
    spec_rakah_count(p, c.default_rakah_counts) as int
}

/// Estimated end of the recitation.
pub open spec fn rk_end(c: PrayerEngineConfig, p: Prayer) -> int {
    rk_start(c, p) + rk_total(c, p) * c.rakah_duration_seconds
}

/// End of the window in which a finished prayer is still reported.
pub open spec fn rk_post_end(c: PrayerEngineConfig, p: Prayer) -> int {
    rk_end(c, p) + c.post_prayer_display_minutes * 60
}

/// End of the window in which the prayer can still be caught.
pub open spec fn rk_catch_end(c: PrayerEngineConfig, p: Prayer) -> int {
    rk_end(c, p) + c.catch_up_minutes * 60
}

/// Phase of the recitation at `now`. The post-display comparison is made
/// before the grace comparison, so the post-display windows decide the
/// whole region after the estimated end; a grace period longer than the
/// post-display window still never produces a phase of its own.
pub open spec fn rk_status(c: PrayerEngineConfig, p: Prayer, now: int) -> RakahStatus {
    if p.iqama is None {
        RakahStatus::NotAvailable
    } else if now < rk_start(c, p) {
        RakahStatus::NotStarted
    } else if now > rk_end(c, p) && now <= rk_post_end(c, p) {
        RakahStatus::RecentlyFinished
    } else if now > rk_post_end(c, p) {
        RakahStatus::LikelyFinished
    } else {
        RakahStatus::InProgress
    }
}

/// Rakah reached at `now` during the recitation: one more than the number of
/// whole per-rakah durations elapsed, clamped to the total.
pub open spec fn rk_current(c: PrayerEngineConfig, p: Prayer, now: int) -> int {
    let raw = (now - rk_start(c, p)) / (c.rakah_duration_seconds as int) + 1;
    if raw < 1 {
        1
    } else if raw > rk_total(c, p) {
        rk_total(c, p)
    } else {
        raw
    }
}

/// Progress through the recitation at `now`, in ten-thousandths.
pub open spec fn rk_progress(c: PrayerEngineConfig, p: Prayer, now: int) -> int {
    (now - rk_start(c, p)) * 10000 / (rk_total(c, p) * c.rakah_duration_seconds)
}

/// Whole minutes since the estimated end, rounded up.
pub open spec fn rk_ended_minutes_ago(c: PrayerEngineConfig, p: Prayer, now: int) -> int {
    (now - rk_end(c, p) + 59) / 60
}

/// Whether a prayer is picked as "next": its adhan is still ahead, or `now`
/// lies strictly between its adhan and its iqama.
pub open spec fn np_selects(p: Prayer, now: int) -> bool {
    p.adhan > now || (p.iqama is Some && p.adhan < now < p.iqama->Some_0)
}

/// Day-order position of the next prayer, five when the day is over.
pub open spec fn np_index(s: PrayerTimes, now: int) -> int {
    if np_selects(s.fajr, now) {
        0
    } else if np_selects(s.dhuhr, now) {
        1
    } else if np_selects(s.asr, now) {
        2
    } else if np_selects(s.maghrib, now) {
        3
    } else if np_selects(s.isha, now) {
        4
    } else {
        5
    }
}

/// An instant of the following day carrying the same wall-clock hour and
/// minute as `t` (times are whole minutes; seconds are dropped).
pub open spec fn np_tomorrow_time(now: int, t: int) -> int {
    ((now + SECS_PER_DAY) / (SECS_PER_DAY as int)) * SECS_PER_DAY + (t % (
        SECS_PER_DAY as int
    )) / 60 * 60
}

/// Day-order position of the current prayer: the one whose adhan has passed
/// while the following adhan has not; five when there is none.
pub open spec fn cp_index(s: PrayerTimes, now: int) -> int {
    if now > s.fajr.adhan && now < s.dhuhr.adhan {
        0
    } else if now > s.dhuhr.adhan && now < s.asr.adhan {
        1
    } else if now > s.asr.adhan && now < s.maghrib.adhan {
        2
    } else if now > s.maghrib.adhan && now < s.isha.adhan {
        3
    } else if now > s.isha.adhan {
        4
    } else {
        5
    }
}

/// Countdown to the iqama: seconds left, floored at zero once passed.
pub open spec fn cd_value(p: Prayer, now: int) -> int
    recommends
        p.iqama is Some,
{
    if now > p.iqama->Some_0 {
        0
    } else {
        p.iqama->Some_0 - now
    }
}

/// Core prayer calculation engine: pure, stateless, configured once.
#[derive(Debug)]
pub struct PrayerEngine {
    pub config: PrayerEngineConfig,
}

impl PrayerEngine {
    pub open spec fn wf(&self) -> bool {
        self.config.wf()
    }

    pub fn new(config: PrayerEngineConfig) -> (r: Self)
        requires
            config.wf(),
        ensures
            r.config == config,
            r.wf(),
    {
        PrayerEngine { config }
    }

    pub fn with_defaults() -> (r: Self)
        ensures
            r.wf(),
            r.config == PrayerEngineConfig::spec_default(),
    {
        PrayerEngine { config: PrayerEngineConfig::default() }
    }

    /// The next prayer of the schedule at `now`: the first mandatory prayer
    /// whose adhan is ahead, or the one whose iqama is still awaited; after
    /// the last, tomorrow's Fajr at the same wall-clock time.
    pub fn get_next_prayer(&self, schedule: &PrayerTimes, now: i64) -> (r: NextPrayerResult)
        requires
            schedule.wf(),
            0 <= now <= MAX_TIMESTAMP,
        ensures
            r.is_tomorrow == (np_index(*schedule, now as int) == 5),
            np_index(*schedule, now as int) < 5 ==> {
                let p = schedule.spec_prayer_at(np_index(*schedule, now as int));
                &&& r.prayer == p
                &&& r.time_until_adhan_secs == (if p.adhan > now { p.adhan - now } else { 0 })
                &&& (r.time_until_iqama_secs is Some) == (p.iqama is Some)
                &&& (p.iqama is Some ==> r.time_until_iqama_secs->Some_0 == p.iqama->Some_0
                    - now)
            },
            np_index(*schedule, now as int) == 5 ==> {
                let f = schedule.fajr;
                &&& r.prayer.name == f.name
                &&& r.prayer.adhan == np_tomorrow_time(now as int, f.adhan as int)
                &&& (r.prayer.iqama is Some) == (f.iqama is Some)
                &&& (f.iqama is Some ==> r.prayer.iqama->Some_0 == np_tomorrow_time(
                    now as int,
                    f.iqama->Some_0 as int,
                ))
                &&& r.prayer.custom_rakah_count == f.custom_rakah_count
                &&& r.time_until_adhan_secs == r.prayer.adhan - now
                &&& r.time_until_adhan_secs > 0
                &&& (r.time_until_iqama_secs is Some) == (f.iqama is Some)
                &&& (f.iqama is Some ==> r.time_until_iqama_secs->Some_0 == r.prayer.iqama->Some_0
                    - now)
            },
    {
        if np_check(&schedule.fajr, now) {
            return np_build_today(&schedule.fajr, now);
        }
        if np_check(&schedule.dhuhr, now) {
            return np_build_today(&schedule.dhuhr, now);
        }
        if np_check(&schedule.asr, now) {
            return np_build_today(&schedule.asr, now);
        }
        if np_check(&schedule.maghrib, now) {
            return np_build_today(&schedule.maghrib, now);
        }
        if np_check(&schedule.isha, now) {
            return np_build_today(&schedule.isha, now);
        }
        np_build_tomorrow(&schedule.fajr, now)
    }

    /// Rakah estimate for one prayer at `now`. See the `rk_` definitions for
    /// the exact windows; without a recorded iqama only the total is
    /// reported.
    pub fn estimate_rakah(&self, prayer: &Prayer, now: i64) -> (r: RakahEstimate)
        requires
            self.wf(),
            prayer.wf(),
            0 <= now <= MAX_TIMESTAMP,
        ensures
            r.status == rk_status(self.config, *prayer, now as int),
            r.total_rakah == rk_total(self.config, *prayer),
            r.is_estimate == !(r.status is NotAvailable),
            r.can_still_catch == (r.status is RecentlyFinished && now
                <= rk_catch_end(self.config, *prayer)),
            0 <= r.progress <= 10000,
            r.status is NotAvailable ==> {
                &&& r.current_rakah is None
                &&& r.elapsed_secs is None
                &&& r.remaining_secs is None
                &&& r.progress == 0
                &&& r.ended_minutes_ago is None
            },
            r.status is NotStarted ==> {
                &&& r.current_rakah is None
                &&& r.elapsed_secs is None
                &&& r.remaining_secs is Some
                &&& r.remaining_secs->Some_0 == rk_start(self.config, *prayer) - now
                &&& r.progress == 0
                &&& r.ended_minutes_ago is None
            },
            r.status is InProgress ==> {
                &&& r.current_rakah is Some
                &&& r.current_rakah->Some_0 == rk_current(self.config, *prayer, now as int)
                &&& r.elapsed_secs is Some
                &&& r.elapsed_secs->Some_0 == now - rk_start(self.config, *prayer)
                &&& (now < rk_end(self.config, *prayer) ==> r.remaining_secs is Some
                    && r.remaining_secs->Some_0 == rk_end(self.config, *prayer) - now)
                &&& (now >= rk_end(self.config, *prayer) ==> r.remaining_secs is None)
                &&& r.progress == rk_progress(self.config, *prayer, now as int)
                &&& r.ended_minutes_ago is None
            },
            r.status is RecentlyFinished ==> {
                &&& r.current_rakah is Some
                &&& r.current_rakah->Some_0 == rk_total(self.config, *prayer)
                &&& r.elapsed_secs is Some
                &&& r.elapsed_secs->Some_0 == now - rk_start(self.config, *prayer)
                &&& r.remaining_secs is None
                &&& r.progress == 10000
                &&& r.ended_minutes_ago is Some
                &&& r.ended_minutes_ago->Some_0 == rk_ended_minutes_ago(
                    self.config,
                    *prayer,
                    now as int,
                )
            },
            r.status is LikelyFinished ==> {
                &&& r.current_rakah is Some
                &&& r.current_rakah->Some_0 == rk_total(self.config, *prayer)
                &&& r.elapsed_secs is Some
                &&& r.elapsed_secs->Some_0 == now - rk_start(self.config, *prayer)
                &&& r.remaining_secs is None
                &&& r.progress == 10000
                &&& r.ended_minutes_ago is None
            },
    {
        let total: i64 = prayer.get_rakah_count(&self.config.default_rakah_counts);
        let iqama: i64 = match prayer.iqama {
            None => {
                return RakahEstimate::not_available(total);
            },
            Some(q) => q,
        };
        let dur: i64 = self.config.rakah_duration_seconds;
        proof {
            vstd::arithmetic::mul::lemma_mul_upper_bound(
                total as int,
                MAX_RAKAH as int,
                dur as int,
                MAX_DURATION as int,
            );
            vstd::arithmetic::mul::lemma_mul_strictly_positive(total as int, dur as int);
        }
        let start: i64 = iqama + self.config.start_lag_seconds;
        let est_duration: i64 = total * dur;
        let end: i64 = start + est_duration;
        let post_end: i64 = end + self.config.post_prayer_display_minutes * 60;

        if now < start {
            return RakahEstimate {
                status: RakahStatus::NotStarted,
                current_rakah: None,
                total_rakah: total,
                elapsed_secs: None,
                remaining_secs: Some(start - now),
                progress: 0,
                is_estimate: true,
                ended_minutes_ago: None,
                can_still_catch: false,
            };
        }
        if now > end && now <= post_end {
            let ended_minutes_ago: i64 = div_nn(now - end + 59, 60);
            let catch_end: i64 = end + self.config.catch_up_minutes * 60;
            return RakahEstimate {
                status: RakahStatus::RecentlyFinished,
                current_rakah: Some(total),
                total_rakah: total,
                elapsed_secs: Some(now - start),
                remaining_secs: None,
                progress: 10000,
                is_estimate: true,
                ended_minutes_ago: Some(ended_minutes_ago),
                can_still_catch: now <= catch_end,
            };
        }
        if now > post_end {
            return RakahEstimate {
                status: RakahStatus::LikelyFinished,
                current_rakah: Some(total),
                total_rakah: total,
                elapsed_secs: Some(now - start),
                remaining_secs: None,
                progress: 10000,
                is_estimate: true,
                ended_minutes_ago: None,
                can_still_catch: false,
            };
        }

        let elapsed: i64 = now - start;
        let raw_rakah: i64 = div_nn(elapsed, dur) + 1;
        let current: i64 = if raw_rakah > total {
            total
        } else {
            raw_rakah
        };
        let progress: i64 = div_nn(elapsed * 10000, est_duration);
        proof {
            vstd::arithmetic::mul::lemma_mul_inequality(
                elapsed as int,
                est_duration as int,
                10000,
            );
            vstd::arithmetic::div_mod::lemma_div_is_ordered(
                elapsed as int * 10000,
                est_duration as int * 10000,
                est_duration as int,
            );
            vstd::arithmetic::div_mod::lemma_div_multiples_vanish(
                10000,
                est_duration as int,
            );
        }
        RakahEstimate {
            status: RakahStatus::InProgress,
            current_rakah: Some(current),
            total_rakah: total,
            elapsed_secs: Some(elapsed),
            remaining_secs: if end > now {
                Some(end - now)
            } else {
                None
            },
            progress,
            is_estimate: true,
            ended_minutes_ago: None,
            can_still_catch: false,
        }
    }

    /// Countdown to a prayer's iqama, floored at zero once passed; absent
    /// when no iqama is recorded.
    pub fn get_countdown(&self, prayer: &Prayer, now: i64) -> (r: Option<i64>)
        requires
            prayer.wf(),
            0 <= now <= MAX_TIMESTAMP,
        ensures
            (r is Some) == (prayer.iqama is Some),
            prayer.iqama is Some ==> r->Some_0 == cd_value(*prayer, now as int),
            prayer.iqama is Some ==> r->Some_0 >= 0,
    {
        match prayer.iqama {
            Some(q) => {
                if now > q {
                    Some(0)
                } else {
                    Some(q - now)
                }
            },
            None => None,
        }
    }

    /// The prayer currently in its window: its adhan has passed and the next
    /// adhan has not.
    pub fn get_current_prayer<'a>(&self, schedule: &'a PrayerTimes, now: i64) -> (r: Option<
        &'a Prayer,
    >)
        requires
            schedule.wf(),
            0 <= now <= MAX_TIMESTAMP,
        ensures
            (r is Some) == (cp_index(*schedule, now as int) < 5),
            cp_index(*schedule, now as int) < 5 ==> *r->Some_0 == schedule.spec_prayer_at(
                cp_index(*schedule, now as int),
            ),
    {
        if now > schedule.fajr.adhan && now < schedule.dhuhr.adhan {
            Some(&schedule.fajr)
        } else if now > schedule.dhuhr.adhan && now < schedule.asr.adhan {
            Some(&schedule.dhuhr)
        } else if now > schedule.asr.adhan && now < schedule.maghrib.adhan {
            Some(&schedule.asr)
        } else if now > schedule.maghrib.adhan && now < schedule.isha.adhan {
            Some(&schedule.maghrib)
        } else if now > schedule.isha.adhan {
            Some(&schedule.isha)
        } else {
            None
        }
    }

    /// Countdown records for the five mandatory prayers. A prayer is active
    /// exactly when its adhan has passed and its iqama has not.
    pub fn get_all_countdowns(&self, schedule: &PrayerTimes, now: i64) -> (r: Vec<
        PrayerCountdown,
    >)
        requires
            schedule.wf(),
            0 <= now <= MAX_TIMESTAMP,
        ensures
            r@.len() == 5,
            forall|i: int|
                0 <= i < 5 ==> {
                    let p = schedule.spec_prayer_at(i);
                    &&& #[trigger] r@[i].prayer_name == p.name
                    &&& r@[i].adhan_time == p.adhan
                    &&& r@[i].iqama_time == p.iqama
                    &&& r@[i].time_until_adhan_secs == (if p.adhan - now >= 0 {
                        p.adhan - now
                    } else {
                        0
                    })
                    &&& (r@[i].time_until_iqama_secs is Some) == (p.iqama is Some)
                    &&& (p.iqama is Some ==> r@[i].time_until_iqama_secs->Some_0 == cd_value(
                        p,
                        now as int,
                    ))
                    &&& r@[i].is_active == (p.adhan <= now && p.iqama is Some && now
                        < p.iqama->Some_0)
                },
    {
        let mut v: Vec<PrayerCountdown> = Vec::new();
        v.push(build_countdown(&schedule.fajr, now));
        v.push(build_countdown(&schedule.dhuhr, now));
        v.push(build_countdown(&schedule.asr, now));
        v.push(build_countdown(&schedule.maghrib, now));
        v.push(build_countdown(&schedule.isha, now));
        v
    }

    /// Travel guidance: when to leave to arrive one buffer before the start,
    /// and the rakah expected on arrival.
    pub fn calculate_travel_prediction(
        &self,
        prayer: &Prayer,
        travel_time_secs: i64,
        now: i64,
    ) -> (r: TravelPrediction)
        requires
            self.wf(),
            prayer.wf(),
            0 <= now <= MAX_TIMESTAMP,
            0 <= travel_time_secs <= MAX_DURATION,
        ensures
            prayer.iqama is None ==> {
                &&& r.recommended_leave_time == now
                &&& r.arrival_time == now + travel_time_secs
                &&& r.arrival_rakah is None
                &&& r.arrival_status is IqamaUnavailable
                &&& r.should_leave_now == false
                &&& r.time_until_leave_secs is None
                &&& r.is_late == false
            },
            prayer.iqama is Some ==> {
                let start = rk_start(self.config, *prayer);
                let leave = start - self.config.buffer_before_start_seconds - travel_time_secs;
                let arrival = now + travel_time_secs;
                let raw = (arrival - start) / (self.config.rakah_duration_seconds as int) + 1;
                &&& r.recommended_leave_time == leave
                &&& r.arrival_time == arrival
                &&& r.should_leave_now == (now >= leave)
                &&& r.is_late == (now > start)
                &&& (now < leave ==> r.time_until_leave_secs is Some
                    && r.time_until_leave_secs->Some_0 == leave - now)
                &&& (now >= leave ==> r.time_until_leave_secs is None)
                &&& (arrival < start ==> r.arrival_rakah == Some(0i64)
                    && r.arrival_status is BeforeStart)
                &&& (arrival >= start && raw <= rk_total(self.config, *prayer)
                    ==> r.arrival_rakah is Some && r.arrival_rakah->Some_0 == raw
                    && r.arrival_status is InProgress)
                &&& (arrival >= start && raw > rk_total(self.config, *prayer)
                    ==> r.arrival_rakah is None && r.arrival_status is AfterEstimatedEnd)
            },
    {
        let iqama: i64 = match prayer.iqama {
            None => {
                return TravelPrediction {
                    recommended_leave_time: now,
                    arrival_time: now + travel_time_secs,
                    arrival_rakah: None,
                    arrival_status: ArrivalStatus::IqamaUnavailable,
                    should_leave_now: false,
                    time_until_leave_secs: None,
                    is_late: false,
                };
            },
            Some(q) => q,
        };
        let total: i64 = prayer.get_rakah_count(&self.config.default_rakah_counts);
        let start: i64 = iqama + self.config.start_lag_seconds;
        let desired_arrival: i64 = start - self.config.buffer_before_start_seconds;
        let recommended_leave: i64 = desired_arrival - travel_time_secs;
        let arrival_time: i64 = now + travel_time_secs;

        let should_leave_now = now >= recommended_leave;
        let is_late = now > start;

        let (arrival_rakah, arrival_status) = if arrival_time < start {
            (Some(0i64), ArrivalStatus::BeforeStart)
        } else {
            let raw: i64 = div_nn(arrival_time - start, self.config.rakah_duration_seconds) + 1;
            if raw > total {
                (None, ArrivalStatus::AfterEstimatedEnd)
            } else {
                (Some(raw), ArrivalStatus::InProgress)
            }
        };

        TravelPrediction {
            recommended_leave_time: recommended_leave,
            arrival_time,
            arrival_rakah,
            arrival_status,
            should_leave_now,
            time_until_leave_secs: if now < recommended_leave {
                Some(recommended_leave - now)
            } else {
                None
            },
            is_late,
        }
    }

    /// Renders a second count as hours and minutes, minutes and seconds, or
    /// seconds alone.
    pub fn format_duration(&self, seconds: i64) -> (r: String)
        requires
            0 <= seconds,
        ensures
            r@ == spec_format_duration(seconds as int),
    {
        render_duration(seconds)
    }
}

fn np_check(p: &Prayer, now: i64) -> (r: bool)
    ensures
        r == np_selects(*p, now as int),
{
    if p.adhan > now {
        true
    } else {
        match p.iqama {
            Some(q) => p.adhan < now && now < q,
            None => false,
        }
    }
}

fn np_build_today(p: &Prayer, now: i64) -> (r: NextPrayerResult)
    requires
        p.wf(),
        0 <= now <= MAX_TIMESTAMP,
    ensures
        r.prayer == *p,
        r.is_tomorrow == false,
        r.time_until_adhan_secs == (if p.adhan > now { p.adhan - now } else { 0 }),
        (r.time_until_iqama_secs is Some) == (p.iqama is Some),
        p.iqama is Some ==> r.time_until_iqama_secs->Some_0 == p.iqama->Some_0 - now,
{
    NextPrayerResult {
        prayer: clone_prayer(p),
        time_until_adhan_secs: if p.adhan > now {
            p.adhan - now
        } else {
            0
        },
        time_until_iqama_secs: match p.iqama {
            Some(q) => Some(q - now),
            None => None,
        },
        is_tomorrow: false,
    }
}

fn np_build_tomorrow(fajr: &Prayer, now: i64) -> (r: NextPrayerResult)
    requires
        fajr.wf(),
        0 <= now <= MAX_TIMESTAMP,
    ensures
        r.prayer.name == fajr.name,
        r.prayer.adhan == np_tomorrow_time(now as int, fajr.adhan as int),
        (r.prayer.iqama is Some) == (fajr.iqama is Some),
        fajr.iqama is Some ==> r.prayer.iqama->Some_0 == np_tomorrow_time(
            now as int,
            fajr.iqama->Some_0 as int,
        ),
        r.prayer.custom_rakah_count == fajr.custom_rakah_count,
        r.is_tomorrow == true,
        r.time_until_adhan_secs == r.prayer.adhan - now,
        r.time_until_adhan_secs > 0,
        (r.time_until_iqama_secs is Some) == (fajr.iqama is Some),
        fajr.iqama is Some ==> r.time_until_iqama_secs->Some_0 == r.prayer.iqama->Some_0 - now,
{
    let tomorrow_day: i64 = div_nn(now + SECS_PER_DAY, SECS_PER_DAY);
    let tomorrow_midnight: i64 = tomorrow_day * SECS_PER_DAY;
    let adhan_minute_of_day: i64 = div_nn(mod_nn(fajr.adhan, SECS_PER_DAY), 60) * 60;
    let tomorrow_adhan: i64 = tomorrow_midnight + adhan_minute_of_day;
    let tomorrow_iqama: Option<i64> = match fajr.iqama {
        Some(q) => {
            let iqama_minute_of_day: i64 = div_nn(mod_nn(q, SECS_PER_DAY), 60) * 60;
            Some(tomorrow_midnight + iqama_minute_of_day)
        },
        None => None,
    };
    NextPrayerResult {
        prayer: Prayer {
            name: fajr.name.clone(),
            adhan: tomorrow_adhan,
            iqama: tomorrow_iqama,
            custom_rakah_count: fajr.custom_rakah_count,
        },
        time_until_adhan_secs: tomorrow_adhan - now,
        time_until_iqama_secs: match tomorrow_iqama {
            Some(q) => Some(q - now),
            None => None,
        },
        is_tomorrow: true,
    }
}

fn build_countdown(p: &Prayer, now: i64) -> (r: PrayerCountdown)
    requires
        p.wf(),
        0 <= now <= MAX_TIMESTAMP,
    ensures
        r.prayer_name == p.name,
        r.adhan_time == p.adhan,
        r.iqama_time == p.iqama,
        r.time_until_adhan_secs == (if p.adhan - now >= 0 { p.adhan - now } else { 0 }),
        (r.time_until_iqama_secs is Some) == (p.iqama is Some),
        p.iqama is Some ==> r.time_until_iqama_secs->Some_0 == cd_value(*p, now as int),
        r.is_active == (p.adhan <= now && p.iqama is Some && now < p.iqama->Some_0),
{
    let time_until_adhan: i64 = p.adhan - now;
    let time_until_iqama: Option<i64> = match p.iqama {
        Some(q) => {
            if now > q {
                Some(0)
            } else {
                Some(q - now)
            }
        },
        None => None,
    };
    let iqama_pending = match time_until_iqama {
        Some(t) => t > 0,
        None => false,
    };
    PrayerCountdown {
        prayer_name: p.name.clone(),
        adhan_time: p.adhan,
        iqama_time: p.iqama,
        time_until_adhan_secs: if time_until_adhan >= 0 {
            time_until_adhan
        } else {
            0
        },
        time_until_iqama_secs: time_until_iqama,
        is_active: time_until_adhan <= 0 && iqama_pending,
    }
}

/// Law: at any instant before Fajr's adhan, the next prayer is Fajr and it
/// is not tomorrow's.
pub proof fn lemma_next_prayer_before_fajr(s: PrayerTimes, now: int)
    requires
        s.wf(),
        0 <= now < s.fajr.adhan,
    ensures
        np_index(s, now) == 0,
{
}

/// Law: once the day is over — Isha's adhan has passed and every recorded
/// iqama has passed — the next prayer rolls over to tomorrow's Fajr. An
/// instant strictly between Isha's adhan and its iqama still selects
/// today's Isha, so those instants are excluded here.
pub proof fn lemma_next_prayer_after_day(s: PrayerTimes, now: int)
    requires
        s.wf(),
        now > s.isha.adhan,
        s.fajr.iqama is Some ==> now >= s.fajr.iqama->Some_0,
        s.dhuhr.iqama is Some ==> now >= s.dhuhr.iqama->Some_0,
        s.asr.iqama is Some ==> now >= s.asr.iqama->Some_0,
        s.maghrib.iqama is Some ==> now >= s.maghrib.iqama->Some_0,
        s.isha.iqama is Some ==> now >= s.isha.iqama->Some_0,
    ensures
        np_index(s, now) == 5,
        now < np_tomorrow_time(now, s.fajr.adhan as int) <= now + 2 * SECS_PER_DAY,
{
}

/// Law: within the in-progress window the estimated rakah is between one
/// and the total, and never decreases as time advances.
pub proof fn lemma_rakah_monotonic(c: PrayerEngineConfig, p: Prayer, t1: int, t2: int)
    requires
        c.wf(),
        p.wf(),
        rk_status(c, p, t1) is InProgress,
        rk_status(c, p, t2) is InProgress,
        t1 <= t2,
    ensures
        1 <= rk_current(c, p, t1),
        rk_current(c, p, t1) <= rk_current(c, p, t2),
        rk_current(c, p, t2) <= rk_total(c, p),
{
    let start = rk_start(c, p);
    let dur = c.rakah_duration_seconds as int;
    vstd::arithmetic::div_mod::lemma_div_is_ordered(t1 - start, t2 - start, dur);
    vstd::arithmetic::div_mod::lemma_div_pos_is_pos(t1 - start, dur);
    vstd::arithmetic::div_mod::lemma_div_pos_is_pos(t2 - start, dur);
}

/// Law: at an elapsed time of exactly `k` whole per-rakah durations,
/// progress equals `k * 10000 / total` — the share `k / total` in
/// ten-thousandths.
pub proof fn lemma_progress_at_rakah_boundary(c: PrayerEngineConfig, p: Prayer, k: int)
    requires
        c.wf(),
        p.wf(),
        p.iqama is Some,
        0 <= k <= rk_total(c, p),
    ensures
        rk_progress(c, p, rk_start(c, p) + k * c.rakah_duration_seconds) == k * 10000 / rk_total(
            c,
            p,
        ),
{
    let dur = c.rakah_duration_seconds as int;
    let total = rk_total(c, p);
    assert(k * 10000 >= 0) by (nonlinear_arith)
        requires
            k >= 0,
    ;
    vstd::arithmetic::div_mod::lemma_div_multiples_vanish_quotient(dur, k * 10000, total);
    assert(k * dur * 10000 == dur * (k * 10000)) by (nonlinear_arith);
    assert(total * dur == dur * total);
}

} // verus!
