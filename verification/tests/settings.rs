use pulsodoro::settings::{default_true, AppSettings};
use pulsodoro::timer::{PomodoroTimer, TimerDurations, TimerState, MAX_MINUTES};

#[test]
fn default_settings() {
    let settings = AppSettings::default();
    assert_eq!(
        settings,
        AppSettings {
            focus_minutes: 25,
            short_break_minutes: 5,
            long_break_minutes: 15,
            change_wallpaper: false,
            focus_background: String::new(),
            break_background: String::new(),
            sound_enabled: true,
            custom_youtube_id: String::new(),
            always_on_top: false,
        }
    );
}

#[test]
fn default_true_is_true() {
    assert!(default_true());
}

#[test]
fn default_settings_ask_for_the_standard_durations() {
    let mut timer =
        PomodoroTimer::with_durations(TimerDurations { focus: 1, short_break: 2, long_break: 3 });
    assert!(AppSettings::default().apply_to(&mut timer));
    assert_eq!(timer.get_durations(), TimerDurations::default());
    assert_eq!(timer.get_durations(), PomodoroTimer::new().get_durations());
}

#[test]
fn settings_configure_the_timer_in_minutes() {
    let mut timer = PomodoroTimer::new();
    let settings = AppSettings {
        focus_minutes: 50,
        short_break_minutes: 10,
        long_break_minutes: 30,
        ..AppSettings::default()
    };
    assert!(settings.apply_to(&mut timer));
    assert_eq!(
        timer.get_durations(),
        TimerDurations { focus: 3000, short_break: 600, long_break: 1800 }
    );
    assert_eq!(timer.get_status().remaining_secs, 1500);
    timer.start();
    assert_eq!(timer.get_status().state, TimerState::Focus);
    assert_eq!(timer.get_status().remaining_secs, 3000);
}

#[test]
fn settings_that_do_not_fit_leave_the_timer_alone() {
    let too_long: [(u32, u32, u32); 4] = [
        (MAX_MINUTES + 1, 5, 15),
        (25, MAX_MINUTES + 1, 15),
        (25, 5, MAX_MINUTES + 1),
        (u32::MAX, u32::MAX, u32::MAX),
    ];
    for (focus_minutes, short_break_minutes, long_break_minutes) in too_long {
        let mut timer = PomodoroTimer::new();
        let settings = AppSettings {
            focus_minutes,
            short_break_minutes,
            long_break_minutes,
            ..AppSettings::default()
        };
        assert!(!settings.apply_to(&mut timer));
        assert_eq!(timer.get_durations(), TimerDurations::default());
        assert_eq!(timer.get_status(), PomodoroTimer::new().get_status());
    }
}

#[test]
fn the_largest_minutes_fit() {
    let mut timer = PomodoroTimer::new();
    let settings = AppSettings {
        focus_minutes: MAX_MINUTES,
        short_break_minutes: MAX_MINUTES,
        long_break_minutes: MAX_MINUTES,
        ..AppSettings::default()
    };
    assert!(settings.apply_to(&mut timer));
    assert_eq!(timer.get_durations().long_break, 4_294_967_280);
}
