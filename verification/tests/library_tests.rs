use iqamah::cache::MosqueDirectoryCache;
use iqamah::engine::PrayerEngine;
use iqamah::mosque::Mosque;
use iqamah::notify::{NotificationConfig, NotificationScheduler};
use iqamah::prayer::{Prayer, PrayerTimes};
use iqamah::provider::{available_providers, ProviderError, ProviderTestResult};
use iqamah::resolver::{
    combine_test_results, resolve_outcomes, resolve_with_cache, FallbackState,
};
use iqamah::search::{filter_favorites_by_query, filter_mosques_by_query, merge_search_results};
use iqamah::timeparse::{
    clock_minutes_or_zero, epoch_day_from_ymd, find_time_in_text, is_friday_epoch_day,
    parse_clock_minutes, parse_date_ymd, parse_offset_minutes,
};
use iqamah::timetable::{
    build_prayer_times, calendar_lookup, day_times_with_offsets, expand_today_times, MonthTable,
    MosqueTimetable,
};

const DAY: i64 = 86_400;
const HOUR: i64 = 3_600;
const MINUTE: i64 = 60;
const FRIDAY: i64 = 20_000 * DAY; // 2024-10-04
const SATURDAY: i64 = 20_001 * DAY;

fn prayer(name: &str, adhan: i64, iqama: Option<i64>) -> Prayer {
    Prayer {
        name: name.to_string(),
        adhan,
        iqama,
        custom_rakah_count: None,
    }
}

fn schedule() -> PrayerTimes {
    let date = SATURDAY;
    PrayerTimes {
        date,
        mosque_id: Some("m1".to_string()),
        mosque_name: Some("M1".to_string()),
        fajr: prayer("Fajr", date + 5 * HOUR, Some(date + 5 * HOUR + 15 * MINUTE)),
        dhuhr: prayer("Dhuhr", date + 12 * HOUR, Some(date + 12 * HOUR + 15 * MINUTE)),
        asr: prayer("Asr", date + 15 * HOUR, Some(date + 15 * HOUR + 15 * MINUTE)),
        maghrib: prayer("Maghrib", date + 18 * HOUR, Some(date + 18 * HOUR + 5 * MINUTE)),
        isha: prayer(
            "Isha",
            date + 19 * HOUR + 30 * MINUTE,
            Some(date + 19 * HOUR + 45 * MINUTE),
        ),
        jumuah: None,
        cached_at: Some(date),
    }
}

fn mosque(id: &str, name: &str, city: Option<&str>) -> Mosque {
    let mut m = Mosque::new(id.to_string(), name.to_string());
    m.city = city.map(|c| c.to_string());
    m
}

#[test]
fn format_duration_exact_shapes() {
    let engine = PrayerEngine::with_defaults();
    assert_eq!(engine.format_duration(7500), "2h 5m");
    assert_eq!(engine.format_duration(3600), "1h 0m");
    assert_eq!(engine.format_duration(330), "5m 30s");
    assert_eq!(engine.format_duration(45), "45s");
    assert_eq!(engine.format_duration(0), "0s");
}

#[test]
fn countdown_never_negative_and_zero_after_iqama() {
    let engine = PrayerEngine::with_defaults();
    let s = schedule();
    let iqama = s.dhuhr.iqama.unwrap();

    assert_eq!(engine.get_countdown(&s.dhuhr, iqama - 90), Some(90));
    assert_eq!(engine.get_countdown(&s.dhuhr, iqama), Some(0));
    assert_eq!(engine.get_countdown(&s.dhuhr, iqama + 1), Some(0));
    assert_eq!(engine.get_countdown(&s.dhuhr, iqama + DAY), Some(0));

    let bare = prayer("Dhuhr", s.dhuhr.adhan, None);
    assert_eq!(engine.get_countdown(&bare, iqama), None);
}

#[test]
fn next_prayer_before_fajr_is_today_fajr() {
    let engine = PrayerEngine::with_defaults();
    let s = schedule();
    let result = engine.get_next_prayer(&s, s.date + 1 * HOUR);
    assert_eq!(result.prayer.name, "Fajr");
    assert!(!result.is_tomorrow);
    assert_eq!(result.time_until_adhan_secs, 4 * HOUR);
    assert_eq!(result.time_until_iqama_secs, Some(4 * HOUR + 15 * MINUTE));
}

#[test]
fn next_prayer_between_adhan_and_iqama_is_that_prayer() {
    let engine = PrayerEngine::with_defaults();
    let s = schedule();
    let result = engine.get_next_prayer(&s, s.asr.adhan + 2 * MINUTE);
    assert_eq!(result.prayer.name, "Asr");
    assert!(!result.is_tomorrow);
    assert_eq!(result.time_until_adhan_secs, 0);
    assert_eq!(result.time_until_iqama_secs, Some(13 * MINUTE));
}

#[test]
fn next_prayer_after_isha_rolls_over_a_full_day() {
    let engine = PrayerEngine::with_defaults();
    let s = schedule();
    let now = s.date + 21 * HOUR;
    let result = engine.get_next_prayer(&s, now);
    assert!(result.is_tomorrow);
    assert_eq!(result.prayer.name, "Fajr");
    assert_eq!(result.prayer.adhan, s.date + DAY + 5 * HOUR);
    assert_eq!(result.prayer.iqama, Some(s.date + DAY + 5 * HOUR + 15 * MINUTE));
    assert_eq!(result.time_until_adhan_secs, 8 * HOUR);
}

#[test]
fn current_prayer_window_detection() {
    let engine = PrayerEngine::with_defaults();
    let s = schedule();
    assert!(engine.get_current_prayer(&s, s.date + 1 * HOUR).is_none());
    let cur = engine.get_current_prayer(&s, s.date + 13 * HOUR).unwrap();
    assert_eq!(cur.name, "Dhuhr");
    let cur = engine.get_current_prayer(&s, s.date + 23 * HOUR).unwrap();
    assert_eq!(cur.name, "Isha");
}

#[test]
fn travel_prediction_without_iqama() {
    let engine = PrayerEngine::with_defaults();
    let s = schedule();
    let bare = prayer("Dhuhr", s.dhuhr.adhan, None);
    let p = engine.calculate_travel_prediction(&bare, 600, s.date + 11 * HOUR);
    assert_eq!(p.arrival_status.label(), "iqama_unavailable");
    assert_eq!(p.recommended_leave_time, s.date + 11 * HOUR);
    assert_eq!(p.arrival_time, s.date + 11 * HOUR + 600);
    assert!(p.arrival_rakah.is_none());
    assert!(!p.should_leave_now);
    assert!(!p.is_late);
}

#[test]
fn travel_prediction_arrives_before_start() {
    let engine = PrayerEngine::with_defaults();
    let s = schedule();
    // Iqama 12:15, start lag 0, buffer 30s; leaving from 11:00 with 10 min travel.
    let now = s.date + 11 * HOUR;
    let p = engine.calculate_travel_prediction(&s.dhuhr, 600, now);
    assert_eq!(p.arrival_status.label(), "before_start");
    assert_eq!(p.arrival_rakah, Some(0));
    let start = s.dhuhr.iqama.unwrap();
    assert_eq!(p.recommended_leave_time, start - 30 - 600);
    assert!(!p.should_leave_now);
    assert_eq!(p.time_until_leave_secs, Some(start - 30 - 600 - now));
    assert!(!p.is_late);
}

#[test]
fn travel_prediction_arrives_mid_prayer() {
    let engine = PrayerEngine::with_defaults();
    let s = schedule();
    // Arrive 300 s after the start: third rakah (two whole rakah durations passed).
    let start = s.dhuhr.iqama.unwrap();
    let p = engine.calculate_travel_prediction(&s.dhuhr, 300, start);
    assert_eq!(p.arrival_status.label(), "in_progress");
    assert_eq!(p.arrival_rakah, Some(3));
    assert!(p.should_leave_now);
    assert!(p.time_until_leave_secs.is_none());
}

#[test]
fn travel_prediction_arrives_after_estimated_end() {
    let engine = PrayerEngine::with_defaults();
    let s = schedule();
    let start = s.dhuhr.iqama.unwrap();
    // 4 rakahs x 144 s = 576 s; arriving 1000 s in is past the end.
    let p = engine.calculate_travel_prediction(&s.dhuhr, 1000, start + 1);
    assert_eq!(p.arrival_status.label(), "after_estimated_end");
    assert!(p.arrival_rakah.is_none());
    assert!(p.is_late);
}

#[test]
fn resolver_uses_first_success() {
    let outcomes: Vec<Result<i64, ProviderError>> = vec![
        Err(ProviderError::Network("down".to_string())),
        Ok(7),
        Ok(9),
    ];
    assert_eq!(resolve_outcomes(outcomes).unwrap(), 7);
}

#[test]
fn resolver_surfaces_last_error_when_all_fail() {
    let outcomes: Vec<Result<i64, ProviderError>> = vec![
        Err(ProviderError::Network("down".to_string())),
        Err(ProviderError::Server {
            status_code: 503,
            message: "unavailable".to_string(),
        }),
    ];
    let err = resolve_outcomes(outcomes).unwrap_err();
    assert!(matches!(err, ProviderError::Server { status_code: 503, .. }));
}

#[test]
fn resolver_reports_empty_chain() {
    let outcomes: Vec<Result<i64, ProviderError>> = vec![];
    let err = resolve_outcomes(outcomes).unwrap_err();
    assert!(matches!(err, ProviderError::Other(m) if m == "No providers available"));
}

#[test]
fn fallback_state_keeps_last_failure() {
    let mut st = FallbackState::new();
    st.record_failure(ProviderError::Network("a".to_string()));
    st.record_failure(ProviderError::NotFound("b".to_string()));
    let err = st.conclude();
    assert!(matches!(err, ProviderError::NotFound(m) if m == "b"));

    let fresh = FallbackState::new();
    assert!(matches!(fresh.conclude(), ProviderError::Other(m) if m == "No providers available"));
}

#[test]
fn cached_schedule_short_circuits_resolution() {
    let outcomes: Vec<Result<i64, ProviderError>> =
        vec![Err(ProviderError::Network("down".to_string()))];
    let (r, write) = resolve_with_cache(Some(42), outcomes);
    assert_eq!(r.unwrap(), 42);
    assert!(!write);

    let (r, write) = resolve_with_cache(None, vec![Ok(5)]);
    assert_eq!(r.unwrap(), 5);
    assert!(write);

    let (r, write) = resolve_with_cache::<i64>(
        None,
        vec![Err(ProviderError::Parse("bad".to_string()))],
    );
    assert!(r.is_err());
    assert!(!write);
}

#[test]
fn connection_test_aggregation() {
    let results = vec![
        (
            "A".to_string(),
            Ok(ProviderTestResult {
                success: true,
                message: "ok".to_string(),
                latency_ms: Some(12),
            }),
        ),
        (
            "B".to_string(),
            Err(ProviderError::Network("down".to_string())),
        ),
    ];
    let combined = combine_test_results(results);
    assert!(!combined.success);
    assert_eq!(combined.message, "A: ok; B: Failed - Network error: down");
    assert!(combined.latency_ms.is_none());

    let all_ok = vec![(
        "A".to_string(),
        Ok(ProviderTestResult {
            success: true,
            message: "ok".to_string(),
            latency_ms: None,
        }),
    )];
    assert!(combine_test_results(all_ok).success);
}

#[test]
fn provider_error_description() {
    let e = ProviderError::Server {
        status_code: 503,
        message: "bad".to_string(),
    };
    assert_eq!(e.describe(), "Server error: 503 - bad");
    assert_eq!(
        ProviderError::InvalidConfig("missing token".to_string()).describe(),
        "Invalid configuration: missing token"
    );
}

#[test]
fn clock_time_parsing() {
    assert_eq!(parse_clock_minutes("05:30"), Some(330));
    assert_eq!(parse_clock_minutes("5:30"), Some(330));
    assert_eq!(parse_clock_minutes("23:59"), Some(1439));
    assert_eq!(parse_clock_minutes("24:00"), None);
    assert_eq!(parse_clock_minutes("12:60"), None);
    assert_eq!(parse_clock_minutes("ab"), None);
    assert_eq!(parse_clock_minutes(""), None);
}

#[test]
fn offset_parsing() {
    assert_eq!(parse_offset_minutes("+30"), Some(30));
    assert_eq!(parse_offset_minutes("15"), Some(15));
    assert_eq!(parse_offset_minutes("-5"), Some(-5));
    assert_eq!(parse_offset_minutes("abc"), None);
    assert_eq!(parse_offset_minutes("+12345"), None);
    assert_eq!(parse_offset_minutes(""), None);
}

#[test]
fn date_parsing_and_validity() {
    assert_eq!(parse_date_ymd("2026-10-11"), Some((2026, 10, 11)));
    assert_eq!(parse_date_ymd("2024-02-29"), Some((2024, 2, 29)));
    assert_eq!(parse_date_ymd("2026-02-29"), None);
    assert_eq!(parse_date_ymd("2026-13-01"), None);
    assert_eq!(parse_date_ymd("2026-00-10"), None);
    assert_eq!(parse_date_ymd("garbage"), None);
    assert_eq!(parse_date_ymd("2026/10/11"), None);
}

#[test]
fn epoch_day_conversion() {
    assert_eq!(epoch_day_from_ymd(1970, 1, 1), 0);
    assert_eq!(epoch_day_from_ymd(2000, 3, 1), 11017);
    assert_eq!(epoch_day_from_ymd(2024, 1, 1), 19723);
    assert_eq!(epoch_day_from_ymd(2024, 10, 4), 20000);
    assert_eq!(epoch_day_from_ymd(2026, 10, 11), 20737);
}

#[test]
fn friday_detection() {
    assert!(is_friday_epoch_day(20000)); // 2024-10-04
    assert!(!is_friday_epoch_day(20001));
    assert!(is_friday_epoch_day(20007));
    assert!(!is_friday_epoch_day(0)); // the epoch began on a Thursday
}

#[test]
fn time_found_in_free_text() {
    assert_eq!(find_time_in_text("Fajr at 05:30 AM"), Some((5, 30)));
    assert_eq!(find_time_in_text("prayer 5:07 pm"), Some((5, 7)));
    assert_eq!(find_time_in_text("17:45"), Some((17, 45)));
    assert_eq!(find_time_in_text("no time here"), None);
    assert_eq!(find_time_in_text(""), None);
}

fn timetable_fixture() -> MosqueTimetable {
    // One month, two recorded days.
    let mut days: Vec<Option<Vec<String>>> = vec![None; 31];
    days[3] = Some(vec![
        "05:30".to_string(),
        "06:45".to_string(),
        "12:15".to_string(),
        "15:30".to_string(),
        "18:05".to_string(),
        "19:40".to_string(),
    ]);
    let mut iqama_days: Vec<Option<Vec<String>>> = vec![None; 31];
    iqama_days[3] = Some(vec![
        "+20".to_string(),
        "+10".to_string(),
        "+10".to_string(),
        "+5".to_string(),
        "+10".to_string(),
    ]);
    MosqueTimetable {
        name: "Test Mosque".to_string(),
        times: vec![
            "05:30".to_string(),
            "12:15".to_string(),
            "15:30".to_string(),
            "18:05".to_string(),
            "19:40".to_string(),
        ],
        shuruq: Some("06:45".to_string()),
        jumua: Some("13:30".to_string()),
        calendar: vec![MonthTable { days }],
        iqama_calendar: vec![MonthTable { days: iqama_days }],
        iqama_enabled: Some(true),
    }
}

#[test]
fn calendar_lookup_hits_and_misses() {
    let t = timetable_fixture();
    let entry = calendar_lookup(&t.calendar, 1, 4).unwrap();
    assert_eq!(entry[0], "05:30");
    assert!(calendar_lookup(&t.calendar, 1, 5).is_none());
    assert!(calendar_lookup(&t.calendar, 2, 4).is_none());
}

#[test]
fn day_lookup_falls_back_to_default_offsets() {
    let t = timetable_fixture();
    let (times, offsets) = day_times_with_offsets(&t, 1, 4).unwrap();
    assert_eq!(times.len(), 6);
    assert_eq!(offsets[0], "+20");

    // A day with times but no offsets gets the defaults.
    let mut t2 = timetable_fixture();
    t2.iqama_calendar[0].days[3] = None;
    let (_, offsets) = day_times_with_offsets(&t2, 1, 4).unwrap();
    assert_eq!(offsets, vec!["+30", "+15", "+15", "+10", "+15"]);

    assert!(day_times_with_offsets(&t, 1, 6).is_none());
}

#[test]
fn builds_a_well_formed_day_schedule() {
    let times = vec![
        "05:30".to_string(),
        "06:45".to_string(),
        "12:15".to_string(),
        "15:30".to_string(),
        "18:05".to_string(),
        "19:40".to_string(),
    ];
    let offsets = vec![
        "+30".to_string(),
        "+15".to_string(),
        "+15".to_string(),
        "+10".to_string(),
        "+15".to_string(),
    ];
    let s = build_prayer_times(
        "m1",
        "Test Mosque",
        SATURDAY,
        &times,
        &offsets,
        true,
        &None,
        SATURDAY,
    )
    .unwrap();
    assert!(s.well_formed());
    assert_eq!(s.fajr.adhan, SATURDAY + 5 * HOUR + 30 * MINUTE);
    assert_eq!(s.fajr.iqama, Some(SATURDAY + 6 * HOUR));
    assert_eq!(s.isha.adhan, SATURDAY + 19 * HOUR + 40 * MINUTE);
    assert_eq!(s.isha.iqama, Some(SATURDAY + 19 * HOUR + 55 * MINUTE));
    assert_eq!(s.dhuhr.custom_rakah_count, Some(4));
    assert!(s.jumuah.is_none());
    assert_eq!(s.mosque_id.as_deref(), Some("m1"));
}

#[test]
fn builds_jumuah_only_on_friday() {
    let times = vec![
        "05:30".to_string(),
        "06:45".to_string(),
        "12:15".to_string(),
        "15:30".to_string(),
        "18:05".to_string(),
        "19:40".to_string(),
    ];
    let offsets: Vec<String> = vec![];
    let jumua = Some("13:30".to_string());

    let friday = build_prayer_times("m1", "M", FRIDAY, &times, &offsets, false, &jumua, FRIDAY)
        .unwrap();
    assert!(friday.well_formed());
    let j = friday.jumuah.unwrap();
    assert_eq!(j.name, "Jumuah");
    assert_eq!(j.adhan, FRIDAY + 13 * HOUR + 30 * MINUTE);

    let saturday =
        build_prayer_times("m1", "M", SATURDAY, &times, &offsets, false, &jumua, SATURDAY)
            .unwrap();
    assert!(saturday.jumuah.is_none());
}

#[test]
fn rejects_malformed_or_unordered_day_times() {
    let offsets: Vec<String> = vec![];
    let short = vec!["05:30".to_string()];
    let r = build_prayer_times("m", "M", SATURDAY, &short, &offsets, false, &None, SATURDAY);
    assert!(matches!(r.unwrap_err(), ProviderError::Parse(_)));

    let unordered = vec![
        "12:30".to_string(),
        "06:45".to_string(),
        "05:15".to_string(),
        "15:30".to_string(),
        "18:05".to_string(),
        "19:40".to_string(),
    ];
    let r = build_prayer_times("m", "M", SATURDAY, &unordered, &offsets, false, &None, SATURDAY);
    assert!(matches!(r.unwrap_err(), ProviderError::Parse(_)));

    let garbled = vec![
        "bad".to_string(),
        "06:45".to_string(),
        "12:15".to_string(),
        "15:30".to_string(),
        "18:05".to_string(),
        "19:40".to_string(),
    ];
    let r = build_prayer_times("m", "M", SATURDAY, &garbled, &offsets, false, &None, SATURDAY);
    assert!(matches!(r.unwrap_err(), ProviderError::Parse(_)));
}

#[test]
fn directory_cache_freshness_and_overwrite() {
    let mut cache = MosqueDirectoryCache::new();
    let t0 = FRIDAY;
    cache.put("mosque-a", timetable_fixture(), t0);

    let hit = cache.get_fresh("mosque-a", t0 + 3599).unwrap();
    assert_eq!(hit.name, "Test Mosque");
    assert!(cache.get_fresh("mosque-a", t0 + 3600).is_none());
    assert!(cache.get_fresh("mosque-b", t0).is_none());

    let mut newer = timetable_fixture();
    newer.name = "Renamed".to_string();
    cache.put("mosque-a", newer, t0 + 5000);
    let hit = cache.get_fresh("mosque-a", t0 + 5001).unwrap();
    assert_eq!(hit.name, "Renamed");
    assert_eq!(cache.entries.len(), 1);
}

#[test]
fn query_filter_is_case_insensitive() {
    let mosques = vec![
        mosque("1", "Grand Mosque", Some("Paris")),
        mosque("2", "Masjid An-Nur", Some("Lyon")),
        mosque("3", "Small Hall", Some("Nice")),
    ];
    let hits = filter_mosques_by_query(mosques, "MOSQUE");
    assert_eq!(hits.len(), 1);
    assert_eq!(hits[0].id, "1");

    let mosques = vec![
        mosque("1", "Grand Mosque", Some("Paris")),
        mosque("2", "Masjid An-Nur", Some("Lyon")),
    ];
    let hits = filter_mosques_by_query(mosques, "lyo");
    assert_eq!(hits.len(), 1);
    assert_eq!(hits[0].id, "2");
}

#[test]
fn merge_deduplicates_and_flags_favorites() {
    let external = vec![mosque("1", "A", None), mosque("2", "B", None)];
    let favorites = vec![mosque("2", "B", None), mosque("9", "C", None)];
    let merged = merge_search_results(external, &favorites, &favorites);
    assert_eq!(merged.total, 3);
    let ids: Vec<&str> = merged.mosques.iter().map(|m| m.id.as_str()).collect();
    assert_eq!(ids, vec!["1", "2", "9"]);
    assert!(!merged.mosques[0].is_favorite);
    assert!(merged.mosques[1].is_favorite);
    assert!(merged.mosques[2].is_favorite);
}

#[test]
fn favorites_filter_ignores_addresses() {
    // This favorite matches the query only through its address.
    let mut by_address = mosque("7", "Small Hall", Some("Nice"));
    by_address.address = Some("10 Mosque Road".to_string());
    let by_name = mosque("8", "Grand Mosque", None);
    let favorites = vec![by_address, by_name];

    let matching = filter_favorites_by_query(&favorites, "mosque");
    assert_eq!(matching.len(), 1);
    assert_eq!(matching[0].id, "8");

    // The address-only favorite is not appended, but an external result
    // carrying its identifier is still flagged as a favorite.
    let external = vec![mosque("7", "Small Hall", Some("Nice"))];
    let merged = merge_search_results(external, &matching, &favorites);
    let ids: Vec<&str> = merged.mosques.iter().map(|m| m.id.as_str()).collect();
    assert_eq!(ids, vec!["7", "8"]);
    assert!(merged.mosques[0].is_favorite);
    assert!(merged.mosques[1].is_favorite);
}

#[test]
fn today_times_expansion() {
    let five = vec![
        "05:30".to_string(),
        "12:15".to_string(),
        "15:30".to_string(),
        "18:05".to_string(),
        "19:40".to_string(),
    ];

    let with_sunrise = expand_today_times(&five, &Some("06:45".to_string())).unwrap();
    assert_eq!(
        with_sunrise,
        vec!["05:30", "06:45", "12:15", "15:30", "18:05", "19:40"]
    );

    // Without a reported sunrise it is estimated an hour after Fajr.
    let estimated = expand_today_times(&five, &None).unwrap();
    assert_eq!(estimated[1], "06:30");

    let short = vec!["05:30".to_string()];
    assert!(expand_today_times(&short, &None).is_none());

    let six = vec![
        "05:30".to_string(),
        "06:45".to_string(),
        "12:15".to_string(),
        "15:30".to_string(),
        "18:05".to_string(),
        "19:40".to_string(),
    ];
    assert_eq!(expand_today_times(&six, &None).unwrap(), six);
}

#[test]
fn lenient_clock_reading_defaults_to_zero() {
    assert_eq!(clock_minutes_or_zero("05:30"), 330);
    assert_eq!(clock_minutes_or_zero("bad"), 0);
    assert_eq!(clock_minutes_or_zero(""), 0);
}

#[test]
fn provider_descriptors_are_listed() {
    let providers = available_providers();
    assert_eq!(providers.len(), 4);
    assert_eq!(providers[0].id, "mawaqit");
    assert_eq!(providers[1].id, "official_api");
    assert_eq!(providers[2].id, "community_wrapper");
    assert_eq!(providers[3].id, "scraping");
    assert!(providers[1].config_schema[0].required);
}

#[test]
fn reminder_policy() {
    let scheduler = NotificationScheduler::new(NotificationConfig::default());
    assert!(scheduler.should_notify(15));
    assert!(scheduler.should_notify(1));
    assert!(!scheduler.should_notify(7));

    let mut config = NotificationConfig::default();
    config.enabled = false;
    let off = NotificationScheduler::new(config);
    assert!(!off.should_notify(15));
}

#[test]
fn well_formedness_check_catches_violations() {
    let good = schedule();
    assert!(good.well_formed());

    let mut unordered = schedule();
    unordered.dhuhr.adhan = unordered.asr.adhan + HOUR;
    assert!(!unordered.well_formed());

    let mut early_iqama = schedule();
    early_iqama.fajr.iqama = Some(early_iqama.fajr.adhan - 1);
    assert!(!early_iqama.well_formed());

    let mut weekday_jumuah = schedule();
    weekday_jumuah.jumuah = Some(prayer("Jumuah", SATURDAY + 13 * HOUR, None));
    assert!(!weekday_jumuah.well_formed());

    let mut friday_jumuah = schedule();
    friday_jumuah.date = FRIDAY;
    friday_jumuah.jumuah = Some(prayer("Jumuah", FRIDAY + 13 * HOUR, None));
    assert!(friday_jumuah.well_formed());
}

#[test]
fn prayer_lookup_by_name() {
    let s = schedule();
    assert_eq!(s.get_prayer_by_name("Fajr").unwrap().adhan, s.fajr.adhan);
    assert_eq!(s.get_prayer_by_name("Isha").unwrap().adhan, s.isha.adhan);
    assert!(s.get_prayer_by_name("Jumuah").is_none());
    assert!(s.get_prayer_by_name("Vespers").is_none());
    assert_eq!(s.all_prayers().len(), 5);
}

#[test]
fn rakah_estimate_is_monotonic_while_in_progress() {
    let engine = PrayerEngine::with_defaults();
    let s = schedule();
    let start = s.dhuhr.iqama.unwrap();

    let mut previous = 0;
    // The whole in-progress window, sampled every 30 seconds.
    for step in 0..=19 {
        let estimate = engine.estimate_rakah(&s.dhuhr, start + step * 30);
        assert_eq!(estimate.status.label(), "in_progress");
        let current = estimate.current_rakah.unwrap();
        assert!(current >= 1 && current <= estimate.total_rakah);
        assert!(current >= previous);
        previous = current;
    }
}
