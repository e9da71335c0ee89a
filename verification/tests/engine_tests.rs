use iqamah::engine::PrayerEngine;
use iqamah::prayer::{Prayer, PrayerTimes};

const DAY: i64 = 86_400;
const HOUR: i64 = 3_600;
const MINUTE: i64 = 60;

// Midnight of 2024-10-04 UTC.
const DATE: i64 = 20_000 * DAY;

fn prayer(name: &str, adhan: i64, iqama: Option<i64>) -> Prayer {
    Prayer {
        name: name.to_string(),
        adhan,
        iqama,
        custom_rakah_count: None,
    }
}

fn create_test_schedule() -> PrayerTimes {
    let date = DATE;
    PrayerTimes {
        date,
        mosque_id: Some("test-mosque".to_string()),
        mosque_name: Some("Test Mosque".to_string()),
        fajr: prayer("Fajr", date + 5 * HOUR, Some(date + 5 * HOUR + 15 * MINUTE)),
        dhuhr: prayer("Dhuhr", date + 12 * HOUR, Some(date + 12 * HOUR + 15 * MINUTE)),
        asr: prayer("Asr", date + 15 * HOUR, Some(date + 15 * HOUR + 15 * MINUTE)),
        maghrib: prayer("Maghrib", date + 18 * HOUR, Some(date + 18 * HOUR + 5 * MINUTE)),
        isha: prayer(
            "Isha",
            date + 19 * HOUR + 30 * MINUTE,
            Some(date + 19 * HOUR + 45 * MINUTE),
        ),
        jumuah: None,
        cached_at: Some(date),
    }
}

#[test]
fn test_get_next_prayer() {
    let engine = PrayerEngine::with_defaults();
    let schedule = create_test_schedule();
    let now = schedule.date + 10 * HOUR; // Before Dhuhr

    let result = engine.get_next_prayer(&schedule, now);

    assert_eq!(result.prayer.name, "Dhuhr");
    assert!(!result.is_tomorrow);
}

#[test]
fn test_estimate_rakah() {
    let engine = PrayerEngine::with_defaults();
    let schedule = create_test_schedule();
    let prayer = &schedule.dhuhr;

    // 2 minutes after iqama (in first or second rakah - 2 min / 2.4 min per rakah)
    let now = prayer.iqama.unwrap() + 2 * MINUTE;
    let estimate = engine.estimate_rakah(prayer, now);

    assert_eq!(estimate.status.label(), "in_progress");
    // 2 min = 120 sec / 144 sec per rakah = 0.83 -> floor(0.83) + 1 = 1st rakah
    assert!(estimate.current_rakah.unwrap() >= 1);
    assert!(estimate.current_rakah.unwrap() <= 2);
}

#[test]
fn test_live_status_before_iqama() {
    let engine = PrayerEngine::with_defaults();
    let schedule = create_test_schedule();
    let prayer = &schedule.dhuhr;

    // 10 minutes before iqama
    let now = prayer.iqama.unwrap() - 10 * MINUTE;
    let estimate = engine.estimate_rakah(prayer, now);

    assert_eq!(estimate.status.label(), "not_started");
    assert!(estimate.remaining_secs.is_some());
    assert_eq!(estimate.remaining_secs.unwrap(), 600); // 10 minutes in seconds
    assert_eq!(estimate.progress, 0);
}

#[test]
fn test_live_status_at_iqama_start() {
    let engine = PrayerEngine::with_defaults();
    let schedule = create_test_schedule();
    let prayer = &schedule.dhuhr;

    // Exactly at iqama time
    let now = prayer.iqama.unwrap();
    let estimate = engine.estimate_rakah(prayer, now);

    assert_eq!(estimate.status.label(), "in_progress");
    assert_eq!(estimate.current_rakah, Some(1));
    assert_eq!(estimate.elapsed_secs, Some(0));
    assert_eq!(estimate.progress, 0);
}

#[test]
fn test_live_status_during_first_rakah() {
    let engine = PrayerEngine::with_defaults();
    let schedule = create_test_schedule();
    let prayer = &schedule.dhuhr;

    // 2 minutes after iqama (within first 2.4 min = first rakah)
    let now = prayer.iqama.unwrap() + 2 * MINUTE;
    let estimate = engine.estimate_rakah(prayer, now);

    assert_eq!(estimate.status.label(), "in_progress");
    assert_eq!(estimate.current_rakah, Some(1));
    assert!(estimate.elapsed_secs.unwrap() >= 120);
    let progress = estimate.progress as f64 / 10000.0;
    assert!(progress > 0.0 && progress < 0.25); // Less than 1/4 of 4 rakahs
}

#[test]
fn test_live_status_during_third_rakah() {
    let engine = PrayerEngine::with_defaults();
    let schedule = create_test_schedule();
    let prayer = &schedule.dhuhr; // 4 rakahs

    // 6 minutes after iqama (within third rakah)
    // 6 min / 2.4 min per rakah = 2.5 -> 3rd rakah
    let now = prayer.iqama.unwrap() + 6 * MINUTE;
    let estimate = engine.estimate_rakah(prayer, now);

    assert_eq!(estimate.status.label(), "in_progress");
    assert_eq!(estimate.current_rakah, Some(3));
    let progress = estimate.progress as f64 / 10000.0;
    assert!(progress > 0.5 && progress < 0.75);
}

#[test]
fn test_live_status_at_last_rakah() {
    let engine = PrayerEngine::with_defaults();
    let schedule = create_test_schedule();
    let prayer = &schedule.maghrib; // 3 rakahs = ~7.2 min

    // 6 minutes after iqama (within last rakah for maghrib)
    // 6 min / 2.4 min per rakah = 2.5 -> 3rd (last) rakah
    let now = prayer.iqama.unwrap() + 6 * MINUTE;
    let estimate = engine.estimate_rakah(prayer, now);

    assert_eq!(estimate.status.label(), "in_progress");
    assert_eq!(estimate.current_rakah, Some(3));
    let progress = estimate.progress as f64 / 10000.0;
    assert!(progress > 0.6);
}

#[test]
fn test_live_status_prayer_finished() {
    let engine = PrayerEngine::with_defaults();
    let schedule = create_test_schedule();
    let prayer = &schedule.fajr; // 2 rakahs = ~4.8 minutes

    // 6 minutes after iqama (finished ~1.2 min ago, within post-prayer window)
    // Should show "recently_finished" with can_still_catch = true (within 3 min)
    let now = prayer.iqama.unwrap() + 6 * MINUTE;
    let estimate = engine.estimate_rakah(prayer, now);

    assert_eq!(estimate.status.label(), "recently_finished");
    assert_eq!(estimate.current_rakah, Some(2)); // Last rakah
    assert_eq!(estimate.progress, 10000);
    assert!(estimate.elapsed_secs.unwrap() >= 360);
    assert!(estimate.can_still_catch); // Within 3-min catch-up window
    assert_eq!(estimate.ended_minutes_ago, Some(2)); // 6 - 4.8 ≈ 2 min ago
}

#[test]
fn test_live_status_prayer_finished_long_ago() {
    let engine = PrayerEngine::with_defaults();
    let schedule = create_test_schedule();
    let prayer = &schedule.fajr; // 2 rakahs = ~4.8 minutes

    // 35 minutes after iqama (well past the 28-min post-prayer window)
    let now = prayer.iqama.unwrap() + 35 * MINUTE;
    let estimate = engine.estimate_rakah(prayer, now);

    assert_eq!(estimate.status.label(), "likely_finished");
    assert_eq!(estimate.current_rakah, Some(2));
    assert!(!estimate.can_still_catch);
}

#[test]
fn test_live_status_recently_finished_catch_up() {
    let engine = PrayerEngine::with_defaults();
    let schedule = create_test_schedule();
    let prayer = &schedule.dhuhr; // 4 rakahs = ~9.6 minutes

    // 12 minutes after iqama (ended ~2.4 min ago, within catch-up window)
    let now = prayer.iqama.unwrap() + 12 * MINUTE;
    let estimate = engine.estimate_rakah(prayer, now);

    assert_eq!(estimate.status.label(), "recently_finished");
    assert!(estimate.can_still_catch); // Within 3-min catch-up window
    assert_eq!(estimate.ended_minutes_ago, Some(3)); // 12 - 9.6 ≈ 3 min ago
}

#[test]
fn test_live_status_recently_finished_missed() {
    let engine = PrayerEngine::with_defaults();
    let schedule = create_test_schedule();
    let prayer = &schedule.dhuhr; // 4 rakahs = ~9.6 minutes

    // 15 minutes after iqama (ended ~5.4 min ago, past catch-up window)
    let now = prayer.iqama.unwrap() + 15 * MINUTE;
    let estimate = engine.estimate_rakah(prayer, now);

    assert_eq!(estimate.status.label(), "recently_finished");
    assert!(!estimate.can_still_catch); // Past 3-min catch-up window
}

#[test]
fn test_live_status_fajr_2_rakahs() {
    let engine = PrayerEngine::with_defaults();
    let schedule = create_test_schedule();
    let prayer = &schedule.fajr;

    // Should have 2 rakahs
    assert_eq!(prayer.get_rakah_count(&engine.config.default_rakah_counts), 2);

    // 3 minutes after iqama - should be in 2nd rakah
    let now = prayer.iqama.unwrap() + 3 * MINUTE;
    let estimate = engine.estimate_rakah(prayer, now);

    assert_eq!(estimate.total_rakah, 2);
    assert_eq!(estimate.current_rakah, Some(2));
}

#[test]
fn test_live_status_maghrib_3_rakahs() {
    let engine = PrayerEngine::with_defaults();
    let schedule = create_test_schedule();
    let prayer = &schedule.maghrib;

    // Should have 3 rakahs
    assert_eq!(prayer.get_rakah_count(&engine.config.default_rakah_counts), 3);

    // 5 minutes after iqama - should be in 3rd rakah
    let now = prayer.iqama.unwrap() + 5 * MINUTE;
    let estimate = engine.estimate_rakah(prayer, now);

    assert_eq!(estimate.total_rakah, 3);
    assert_eq!(estimate.current_rakah, Some(3));
}

#[test]
fn test_live_status_no_iqama() {
    let engine = PrayerEngine::with_defaults();
    let _schedule = create_test_schedule();

    // Create prayer without iqama
    let prayer_without_iqama = Prayer {
        name: "Test".to_string(),
        adhan: DATE + 13 * HOUR,
        iqama: None,
        custom_rakah_count: Some(4),
    };

    let estimate = engine.estimate_rakah(&prayer_without_iqama, DATE + 13 * HOUR);

    assert_eq!(estimate.status.label(), "not_available");
    assert!(estimate.current_rakah.is_none());
}

#[test]
fn test_elapsed_time_accuracy() {
    let engine = PrayerEngine::with_defaults();
    let schedule = create_test_schedule();
    let prayer = &schedule.dhuhr;

    let test_cases = vec![(1 * MINUTE, 60), (5 * MINUTE, 300), (10 * MINUTE, 600)];

    for (duration, expected_seconds) in test_cases {
        let now = prayer.iqama.unwrap() + duration;
        let estimate = engine.estimate_rakah(prayer, now);

        assert_eq!(
            estimate.elapsed_secs,
            Some(expected_seconds),
            "Elapsed time should be {} seconds",
            expected_seconds
        );
    }
}

#[test]
fn test_countdown_updates_correctly() {
    let engine = PrayerEngine::with_defaults();
    let schedule = create_test_schedule();

    // Test countdown for next prayer
    let now = schedule.date + 10 * HOUR; // 10 AM
    let result = engine.get_next_prayer(&schedule, now);

    assert_eq!(result.prayer.name, "Dhuhr");
    assert_eq!(result.time_until_adhan_secs, 7200); // 2 hours

    // Test with time closer to prayer
    let now = schedule.date + 11 * HOUR + 30 * MINUTE;
    let result = engine.get_next_prayer(&schedule, now);

    assert_eq!(result.prayer.name, "Dhuhr");
    assert_eq!(result.time_until_adhan_secs, 1800); // 30 minutes
}

#[test]
fn test_midnight_crossover_next_prayer() {
    let engine = PrayerEngine::with_defaults();
    let schedule = create_test_schedule();

    // After Isha (night time)
    let now = schedule.date + 22 * HOUR;
    let result = engine.get_next_prayer(&schedule, now);

    // Should return tomorrow's Fajr
    assert_eq!(result.prayer.name, "Fajr");
    assert!(result.is_tomorrow);
    assert!(result.time_until_adhan_secs > 3600); // More than 1 hour
}

#[test]
fn test_get_all_countdowns() {
    let engine = PrayerEngine::with_defaults();
    let schedule = create_test_schedule();
    let now = schedule.date + 10 * HOUR; // 10 AM

    let countdowns = engine.get_all_countdowns(&schedule, now);

    // Should have 5 countdowns (Fajr, Dhuhr, Asr, Maghrib, Isha)
    assert_eq!(countdowns.len(), 5);

    // Fajr should be marked as passed (negative or zero time)
    let fajr_countdown = countdowns.iter().find(|c| c.prayer_name == "Fajr").unwrap();
    assert!(fajr_countdown.time_until_adhan_secs == 0);

    // Dhuhr should have 2 hours remaining
    let dhuhr_countdown = countdowns.iter().find(|c| c.prayer_name == "Dhuhr").unwrap();
    assert_eq!(dhuhr_countdown.time_until_adhan_secs, 7200);
}

#[test]
fn test_active_prayer_detection() {
    let engine = PrayerEngine::with_defaults();
    let schedule = create_test_schedule();

    // Between adhan and iqama of Dhuhr (active)
    let now = schedule.dhuhr.adhan + 5 * MINUTE;
    let countdowns = engine.get_all_countdowns(&schedule, now);

    let dhuhr_countdown = countdowns.iter().find(|c| c.prayer_name == "Dhuhr").unwrap();
    assert!(dhuhr_countdown.is_active);
    assert_eq!(dhuhr_countdown.time_until_adhan_secs, 0);

    // After iqama (not active anymore)
    let now = schedule.dhuhr.iqama.unwrap() + 5 * MINUTE;
    let countdowns = engine.get_all_countdowns(&schedule, now);

    let dhuhr_countdown = countdowns.iter().find(|c| c.prayer_name == "Dhuhr").unwrap();
    assert!(!dhuhr_countdown.is_active);
}

#[test]
fn test_rakah_progress_percentage() {
    let engine = PrayerEngine::with_defaults();
    let schedule = create_test_schedule();
    let prayer = &schedule.dhuhr; // 4 rakahs

    // Test progress at various points
    let test_cases = vec![
        (0, 0.0),   // Start
        (144, 0.25), // After 1st rakah (2.4 min)
        (288, 0.5),  // After 2nd rakah (4.8 min)
        (432, 0.75), // After 3rd rakah (7.2 min)
        (576, 1.0),  // After 4th rakah (9.6 min)
    ];

    for (seconds, expected_progress) in test_cases {
        let now = prayer.iqama.unwrap() + seconds;
        let estimate = engine.estimate_rakah(prayer, now);

        let progress = estimate.progress as f64 / 10000.0;
        let tolerance = 0.01; // 1% tolerance
        assert!(
            (progress - expected_progress).abs() < tolerance,
            "Progress should be approximately {} at {} seconds, got {}",
            expected_progress,
            seconds,
            progress
        );
    }
}
