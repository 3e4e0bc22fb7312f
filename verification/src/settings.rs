//! The user's settings, as a flat record of plain values.

use crate::model::DurationsModel;
use crate::timer::{PomodoroTimer, MAX_MINUTES};
use vstd::prelude::*;

verus! {

/// Everything the user can configure.
#[derive(Debug, Clone, PartialEq, Eq)]
pub struct AppSettings {
    pub focus_minutes: u32,
    pub short_break_minutes: u32,
    pub long_break_minutes: u32,
    pub change_wallpaper: bool,
    pub focus_background: String,
    pub break_background: String,
    pub sound_enabled: bool,
    pub custom_youtube_id: String,
    pub always_on_top: bool,
}

/// The settings with numbers as naturals and texts as sequences of characters.
pub struct AppSettingsView {
    pub focus_minutes: nat,
    pub short_break_minutes: nat,
    pub long_break_minutes: nat,
    pub change_wallpaper: bool,
    pub focus_background: Seq<char>,
    pub break_background: Seq<char>,
    pub sound_enabled: bool,
    pub custom_youtube_id: Seq<char>,
    pub always_on_top: bool,
}

impl AppSettingsView {
    /// The settings of a fresh installation: 25, 5 and 15 minutes, sound on,
    /// everything else off or empty.
    pub open spec fn standard() -> AppSettingsView {
        AppSettingsView {
            focus_minutes: 25,
            short_break_minutes: 5,
            long_break_minutes: 15,
            change_wallpaper: false,
            focus_background: Seq::empty(),
            break_background: Seq::empty(),
            sound_enabled: true,
            custom_youtube_id: Seq::empty(),
            always_on_top: false,
        }
    }
}

impl AppSettingsView {
    /// Whether each interval length, taken in seconds, fits a `u32`.
    pub open spec fn durations_fit(self) -> bool {
        &&& self.focus_minutes <= MAX_MINUTES
        &&& self.short_break_minutes <= MAX_MINUTES
        &&& self.long_break_minutes <= MAX_MINUTES
    }

    /// The interval lengths that these settings ask for.
    pub open spec fn durations(self) -> DurationsModel {
        DurationsModel::from_minutes(
            self.focus_minutes,
            self.short_break_minutes,
            self.long_break_minutes,
        )
    }
}

impl View for AppSettings {
    type V = AppSettingsView;

    open spec fn view(&self) -> AppSettingsView {
        AppSettingsView {
            focus_minutes: self.focus_minutes as nat,
            short_break_minutes: self.short_break_minutes as nat,
            long_break_minutes: self.long_break_minutes as nat,
            change_wallpaper: self.change_wallpaper,
            focus_background: self.focus_background@,
            break_background: self.break_background@,
            sound_enabled: self.sound_enabled,
            custom_youtube_id: self.custom_youtube_id@,
            always_on_top: self.always_on_top,
        }
    }
}

/// The value of a switch that is on unless the user turned it off.
pub fn default_true() -> (on: bool)
    ensures
        on,
{
    true
}

impl Default for AppSettings {
    /// The settings of a fresh installation.
    fn default() -> (settings: Self)
        ensures
            settings@ == AppSettingsView::standard(),
    {
        AppSettings {
            focus_minutes: 25,
            short_break_minutes: 5,
            long_break_minutes: 15,
            change_wallpaper: false,
            focus_background: String::new(),
            break_background: String::new(),
            sound_enabled: default_true(),
            custom_youtube_id: String::new(),
            always_on_top: false,
        }
    }
}

impl AppSettings {
    /// Configures `timer` with the interval lengths of these settings, where
    /// each of them fits in seconds; says whether it did. Where one does not
    /// fit, the timer stays as it is.
    pub fn apply_to(&self, timer: &mut PomodoroTimer) -> (applied: bool)
        ensures
            applied == self@.durations_fit(),
            applied ==> final(timer)@ == old(timer)@.set_durations(self@.durations()),
            !applied ==> final(timer)@ == old(timer)@,
    {
        if self.focus_minutes <= MAX_MINUTES && self.short_break_minutes <= MAX_MINUTES
            && self.long_break_minutes <= MAX_MINUTES {
            timer.set_durations(
                self.focus_minutes,
                self.short_break_minutes,
                self.long_break_minutes,
            );
            true
        } else {
            false
        }
    }
}

} // verus!
