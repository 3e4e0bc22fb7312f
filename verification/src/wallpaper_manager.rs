//! Which image the desktop should show for each state of the timer.
//!
//! Nothing here touches the desktop: the manager decides, and its caller
//! carries the decision out.

use crate::timer::TimerState;
use vstd::prelude::*;

verus! {

/// The bundled image shown during focus intervals, below the resource directory.
pub const FOCUS_WALLPAPER: &'static str = "resources/wallpapers/focus.jpg";

/// The bundled image shown during breaks, below the resource directory.
pub const BREAK_WALLPAPER: &'static str = "resources/wallpapers/break.jpg";

/// What to do with the desktop wallpaper.
#[derive(Debug, PartialEq, Eq)]
pub enum WallpaperAction {
    /// Leave it as it is.
    Keep,
    /// Show the bundled image at this path below the resource directory.
    ShowResource(&'static str),
    /// Show the image file at this path.
    ShowFile(String),
}

/// A wallpaper action with its paths as sequences of characters.
pub enum WallpaperActionView {
    Keep,
    ShowResource(Seq<char>),
    ShowFile(Seq<char>),
}

impl View for WallpaperAction {
    type V = WallpaperActionView;

    open spec fn view(&self) -> WallpaperActionView {
        match self {
            WallpaperAction::Keep => WallpaperActionView::Keep,
            WallpaperAction::ShowResource(path) => WallpaperActionView::ShowResource(path@),
            WallpaperAction::ShowFile(path) => WallpaperActionView::ShowFile(path@),
        }
    }
}

/// Going back to the wallpaper that was found at startup: shows it where one
/// was found, and otherwise leaves the desktop alone.
pub open spec fn spec_restore_action(found: Option<Seq<char>>) -> WallpaperActionView {
    match found {
        Some(path) => WallpaperActionView::ShowFile(path),
        None => WallpaperActionView::Keep,
    }
}

/// The wallpaper that goes with a state: the focus image during focus, the
/// break image during either break, and for an idle timer the wallpaper that
/// was found at startup.
pub open spec fn spec_action_for_state(
    found: Option<Seq<char>>,
    state: TimerState,
) -> WallpaperActionView {
    match state {
        TimerState::Focus => WallpaperActionView::ShowResource(FOCUS_WALLPAPER@),
        TimerState::ShortBreak => WallpaperActionView::ShowResource(BREAK_WALLPAPER@),
        TimerState::LongBreak => WallpaperActionView::ShowResource(BREAK_WALLPAPER@),
        TimerState::Idle => spec_restore_action(found),
    }
}

/// Remembers the wallpaper that the desktop had at startup.
pub struct WallpaperManager {
    original_wallpaper: Option<String>,
}

impl View for WallpaperManager {
    type V = Option<Seq<char>>;

    closed spec fn view(&self) -> Option<Seq<char>> {
        match self.original_wallpaper {
            Some(path) => Some(path@),
            None => None,
        }
    }
}

impl WallpaperManager {
    /// A manager that remembers `original_wallpaper`, the path of the
    /// wallpaper found at startup, if there was one.
    pub fn new(original_wallpaper: Option<String>) -> (manager: Self)
        ensures
            manager@ == (match original_wallpaper {
                Some(path) => Some(path@),
                None => None,
            }),
    {
        WallpaperManager { original_wallpaper }
    }

    /// What to show when the timer enters `state`.
    pub fn action_for_state(&self, state: TimerState) -> (action: WallpaperAction)
        ensures
            action@ == spec_action_for_state(self@, state),
    {
        match state {
            TimerState::Focus => WallpaperAction::ShowResource(FOCUS_WALLPAPER),
            TimerState::ShortBreak => WallpaperAction::ShowResource(BREAK_WALLPAPER),
            TimerState::LongBreak => WallpaperAction::ShowResource(BREAK_WALLPAPER),
            TimerState::Idle => self.restore_action(),
        }
    }

    /// What to show to bring back the wallpaper found at startup.
    pub fn restore_action(&self) -> (action: WallpaperAction)
        ensures
            action@ == spec_restore_action(self@),
    {
        match &self.original_wallpaper {
            Some(path) => WallpaperAction::ShowFile(path.clone()),
            None => WallpaperAction::Keep,
        }
    }
}

} // verus!
