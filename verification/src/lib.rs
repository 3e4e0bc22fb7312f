//! A Pomodoro interval timer: a tick-driven state machine that cycles through
//! focus intervals, short breaks and long breaks, together with the decisions
//! that an application around it has to take.
//!
//! - [`timer`] holds the timer itself, [`model`] its mathematical model and
//!   [`laws`] what is proved of that model.
//! - [`events`] answers ticks and menu commands, [`wallpaper_manager`] picks
//!   the wallpaper that goes with a state, [`settings`] holds what the user
//!   configures, and [`image`] turns an image file into a `data:` URL.

pub mod events;
pub mod image;
pub mod laws;
pub mod model;
pub mod settings;
pub mod text;
pub mod timer;
pub mod wallpaper_manager;
