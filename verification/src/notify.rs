//! Reminder policy: which lead times before a prayer warrant a notification.

use vstd::prelude::*;

verus! {

/// Notification preferences.
#[derive(Debug, Clone)]
pub struct NotificationConfig {
    pub enabled: bool,
    /// Lead times, in whole minutes, at which a reminder is due.
    pub reminder_minutes_before: Vec<i64>,
    pub show_system_notifications: bool,
    pub play_sound: bool,
}

impl Default for NotificationConfig {
    fn default() -> (r: Self)
        ensures
            r.enabled == true,
            r.reminder_minutes_before@ =~= seq![15i64, 10i64, 5i64, 2i64, 1i64],
            r.show_system_notifications == true,
            r.play_sound == true,
    {
        NotificationConfig {
            enabled: true,
            reminder_minutes_before: vec![15, 10, 5, 2, 1],
            show_system_notifications: true,
            play_sound: true,
        }
    }
}

/// The moments a notification can mark.
#[derive(Debug, Clone, Copy, PartialEq, Eq, Structural)]
pub enum NotificationType {
    AdhanReminder,
    IqamaReminder,
    PrayerStart,
}

/// Decides, from the preferences, whether a reminder is due at a lead time.
#[derive(Debug)]
pub struct NotificationScheduler {
    pub config: NotificationConfig,
}

impl NotificationScheduler {
    pub fn new(config: NotificationConfig) -> (r: Self)
        ensures
            r.config == config,
    {
        NotificationScheduler { config }
    }

    /// A reminder is due exactly when notifications are enabled and the lead
    /// time is one of the configured ones.
    pub fn should_notify(&self, minutes_until: i64) -> (r: bool)
        ensures
            r == (self.config.enabled && self.config.reminder_minutes_before@.contains(
                minutes_until,
            )),
    {
        if !self.config.enabled {
            return false;
        }
        let n = self.config.reminder_minutes_before.len();
        let mut i: usize = 0;
        while i < n
            invariant
                self.config.enabled,
                n == self.config.reminder_minutes_before@.len(),
                0 <= i <= n,
                forall|j: int|
                    0 <= j < i ==> self.config.reminder_minutes_before@[j] != minutes_until,
            decreases n - i,
        {
            if self.config.reminder_minutes_before[i] == minutes_until {
                proof {
                    assert(self.config.reminder_minutes_before@[i as int] == minutes_until);
                    assert(self.config.reminder_minutes_before@.contains(minutes_until));
                }
                return true;
            }
            i = i + 1;
        }
        false
    }
}

} // verus!
