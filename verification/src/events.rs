//! What the application does in answer to a tick of the clock or a choice
//! from the tray menu.
//!
//! The functions here change the timer and decide; they return what is left
//! to do outside: the status to publish, the wallpaper to show, the message
//! to display, and whether to quit.

use crate::model::TimerModel;
use crate::text::str_equal;
use crate::timer::{PomodoroTimer, TimerState, TimerStatus};
use crate::wallpaper_manager::{
    spec_action_for_state, spec_restore_action, WallpaperAction, WallpaperActionView,
    WallpaperManager,
};
use vstd::prelude::*;

verus! {

/// The message shown when the timer enters `state`.
pub open spec fn notification_text(state: TimerState) -> Seq<char> {
    match state {
        TimerState::Focus => "Focus time! Let's get to work."@,
        TimerState::ShortBreak => "Short break! Take a breather."@,
        TimerState::LongBreak => "Long break! You've earned it."@,
        TimerState::Idle => "Timer stopped."@,
    }
}

/// The message shown when the timer enters `state`.
pub fn notification_message(state: TimerState) -> (message: &'static str)
    ensures
        message@ == notification_text(state),
{
    match state {
        TimerState::Focus => "Focus time! Let's get to work.",
        TimerState::ShortBreak => "Short break! Take a breather.",
        TimerState::LongBreak => "Long break! You've earned it.",
        TimerState::Idle => "Timer stopped.",
    }
}

/// What is left to do after a tick.
#[derive(Debug, PartialEq, Eq)]
pub struct TickOutcome {
    /// The status after the tick, to be published on every tick.
    pub status: TimerStatus,
    /// The state that the tick entered, if it ended an interval.
    pub transition: Option<TimerState>,
    /// What to do with the wallpaper.
    pub wallpaper: WallpaperAction,
    /// The message to display, if the tick ended an interval.
    pub notification: Option<&'static str>,
}

impl TickOutcome {
    /// The message to display, as a sequence of characters.
    pub open spec fn notification_view(&self) -> Option<Seq<char>> {
        match self.notification {
            Some(message) => Some(message@),
            None => None,
        }
    }
}

/// The wallpaper action that follows a tick: the wallpaper of the state that
/// was entered, where one was entered and the user wants wallpapers changed.
pub open spec fn tick_wallpaper(
    found: Option<Seq<char>>,
    transition: Option<TimerState>,
    change_wallpaper: bool,
) -> WallpaperActionView {
    match transition {
        Some(state) if change_wallpaper => spec_action_for_state(found, state),
        _ => WallpaperActionView::Keep,
    }
}

/// The message that follows a tick: that of the state that was entered.
pub open spec fn tick_notification(transition: Option<TimerState>) -> Option<Seq<char>> {
    match transition {
        Some(state) => Some(notification_text(state)),
        None => None,
    }
}

/// One second has passed: ticks the timer and says what is left to do.
pub fn handle_tick(
    timer: &mut PomodoroTimer,
    wallpaper: &WallpaperManager,
    change_wallpaper: bool,
) -> (outcome: TickOutcome)
    ensures
        final(timer)@ == old(timer)@.tick(),
        outcome.status@ == final(timer)@.status,
        outcome.transition == old(timer)@.tick_transition(),
        outcome.wallpaper@ == tick_wallpaper(wallpaper@, outcome.transition, change_wallpaper),
        outcome.notification_view() == tick_notification(outcome.transition),
{
    let transition = timer.tick();
    let status = timer.get_status();
    match transition {
        Some(state) => {
            let action = if change_wallpaper {
                wallpaper.action_for_state(state)
            } else {
                WallpaperAction::Keep
            };
            TickOutcome {
                status,
                transition,
                wallpaper: action,
                notification: Some(notification_message(state)),
            }
        },
        None => TickOutcome {
            status,
            transition,
            wallpaper: WallpaperAction::Keep,
            notification: None,
        },
    }
}

/// A choice from the tray menu.
#[derive(Debug, Clone, Copy, PartialEq, Eq, Structural)]
pub enum MenuCommand {
    Start,
    Pause,
    Reset,
    Quit,
}

/// The command behind the id of a menu item; none for an id that the menu
/// does not have.
pub open spec fn menu_command_of(id: Seq<char>) -> Option<MenuCommand> {
    if id == "start"@ {
        Some(MenuCommand::Start)
    } else if id == "pause"@ {
        Some(MenuCommand::Pause)
    } else if id == "reset"@ {
        Some(MenuCommand::Reset)
    } else if id == "quit"@ {
        Some(MenuCommand::Quit)
    } else {
        None
    }
}

/// The command behind the id of a menu item; none for an id that the menu
/// does not have.
pub fn parse_menu_id(id: &str) -> (command: Option<MenuCommand>)
    ensures
        command == menu_command_of(id@),
{
    if str_equal(id, "start") {
        Some(MenuCommand::Start)
    } else if str_equal(id, "pause") {
        Some(MenuCommand::Pause)
    } else if str_equal(id, "reset") {
        Some(MenuCommand::Reset)
    } else if str_equal(id, "quit") {
        Some(MenuCommand::Quit)
    } else {
        None
    }
}

/// What is left to do after a menu command.
#[derive(Debug, PartialEq, Eq)]
pub struct MenuOutcome {
    /// What to do with the wallpaper.
    pub wallpaper: WallpaperAction,
    /// Whether the application ends.
    pub quit: bool,
}

/// What a menu command does to the timer. Quitting leaves it alone.
pub open spec fn menu_timer(command: MenuCommand, timer: TimerModel) -> TimerModel {
    match command {
        MenuCommand::Start => timer.start(),
        MenuCommand::Pause => timer.pause(),
        MenuCommand::Reset => timer.reset(),
        MenuCommand::Quit => timer,
    }
}

/// The wallpaper action that follows a menu command. Starting shows the
/// wallpaper of the state the timer is then in, where the user wants
/// wallpapers changed; resetting and quitting bring back the wallpaper found
/// at startup, whatever the user wants; pausing leaves the desktop alone.
pub open spec fn menu_wallpaper(
    command: MenuCommand,
    timer: TimerModel,
    found: Option<Seq<char>>,
    change_wallpaper: bool,
) -> WallpaperActionView {
    match command {
        MenuCommand::Start => if change_wallpaper {
            spec_action_for_state(found, timer.start().status.state)
        } else {
            WallpaperActionView::Keep
        },
        MenuCommand::Pause => WallpaperActionView::Keep,
        MenuCommand::Reset => spec_restore_action(found),
        MenuCommand::Quit => spec_restore_action(found),
    }
}

/// Carries out a menu command on the timer and says what is left to do.
pub fn handle_menu_command(
    command: MenuCommand,
    timer: &mut PomodoroTimer,
    wallpaper: &WallpaperManager,
    change_wallpaper: bool,
) -> (outcome: MenuOutcome)
    ensures
        final(timer)@ == menu_timer(command, old(timer)@),
        outcome.wallpaper@ == menu_wallpaper(command, old(timer)@, wallpaper@, change_wallpaper),
        outcome.quit == (command is Quit),
{
    match command {
        MenuCommand::Start => {
            timer.start();
            let action = if change_wallpaper {
                wallpaper.action_for_state(timer.get_status().state)
            } else {
                WallpaperAction::Keep
            };
            MenuOutcome { wallpaper: action, quit: false }
        },
        MenuCommand::Pause => {
            timer.pause();
            MenuOutcome { wallpaper: WallpaperAction::Keep, quit: false }
        },
        MenuCommand::Reset => {
            timer.reset();
            MenuOutcome { wallpaper: wallpaper.restore_action(), quit: false }
        },
        MenuCommand::Quit => MenuOutcome { wallpaper: wallpaper.restore_action(), quit: true },
    }
}

} // verus!
