//! The interval timer and the plain values it works on.

use crate::model::{DurationsModel, StatusModel, TimerModel};
use vstd::prelude::*;

verus! {

/// The phase the timer is in.
#[derive(Debug, Clone, Copy, PartialEq, Eq, Structural)]
pub enum TimerState {
    Idle,
    Focus,
    ShortBreak,
    LongBreak,
}

/// Number of focus intervals in one round; the last one is followed by a long break.
pub const FOCUS_INTERVALS_PER_ROUND: u32 = 4;

/// The largest number of minutes whose length in seconds fits a `u32`.
pub const MAX_MINUTES: u32 = 71_582_788;

/// A snapshot of the timer.
#[derive(Debug, Clone, Copy, PartialEq, Eq, Structural)]
pub struct TimerStatus {
    pub state: TimerState,
    pub remaining_secs: u32,
    pub cycle: u32,
    pub is_running: bool,
}

/// Configured interval lengths, in seconds.
#[derive(Debug, Clone, Copy, PartialEq, Eq, Structural)]
pub struct TimerDurations {
    pub focus: u32,
    pub short_break: u32,
    pub long_break: u32,
}

impl View for TimerStatus {
    type V = StatusModel;

    open spec fn view(&self) -> StatusModel {
        StatusModel {
            state: self.state,
            remaining: self.remaining_secs as nat,
            cycle: self.cycle as nat,
            running: self.is_running,
        }
    }
}

impl View for TimerDurations {
    type V = DurationsModel;

    open spec fn view(&self) -> DurationsModel {
        DurationsModel {
            focus: self.focus as nat,
            short_break: self.short_break as nat,
            long_break: self.long_break as nat,
        }
    }
}

impl Default for TimerDurations {
    /// 25 minutes of focus, 5 minutes of short break, 15 minutes of long break.
    fn default() -> (durations: Self)
        ensures
            durations@ == DurationsModel::standard(),
    {
        TimerDurations { focus: 25 * 60, short_break: 5 * 60, long_break: 15 * 60 }
    }
}

impl TimerDurations {
    /// The configured length of an interval spent in `state`.
    pub fn of(&self, state: TimerState) -> (secs: u32)
        ensures
            secs == self@.of(state),
    {
        match state {
            TimerState::Idle => self.focus,
            TimerState::Focus => self.focus,
            TimerState::ShortBreak => self.short_break,
            TimerState::LongBreak => self.long_break,
        }
    }
}

/// The interval timer. It is driven from outside: one call of `tick` per
/// second, and the commands `start`, `pause`, `reset` and `skip`.
///
/// Its fields are private, so every timer was made by `new` or
/// `with_durations` and changed only by the operations below; each of them
/// keeps the status well-formed.
pub struct PomodoroTimer {
    status: TimerStatus,
    durations: TimerDurations,
}

impl View for PomodoroTimer {
    type V = TimerModel;

    closed spec fn view(&self) -> TimerModel {
        TimerModel { status: self.status@, durations: self.durations@ }
    }
}

impl PomodoroTimer {
    /// Holds of every timer there is: its status is well-formed.
    #[verifier::type_invariant]
    spec fn inv(&self) -> bool {
        self.status@.wf()
    }

    /// An idle timer with the standard durations.
    pub fn new() -> (timer: Self)
        ensures
            timer@ == TimerModel::idle(DurationsModel::standard()),
            timer@.wf(),
    {
        PomodoroTimer::with_durations(TimerDurations::default())
    }

    /// An idle timer with the given durations, which may be any number of seconds.
    pub fn with_durations(durations: TimerDurations) -> (timer: Self)
        ensures
            timer@ == TimerModel::idle(durations@),
            timer@.wf(),
    {
        PomodoroTimer {
            status: TimerStatus {
                state: TimerState::Idle,
                remaining_secs: durations.focus,
                cycle: 1,
                is_running: false,
            },
            durations,
        }
    }

    /// From `Idle`, enters a focus interval of the configured length. In every
    /// state, sets the clock running; on a timer that is already running this
    /// changes nothing.
    pub fn start(&mut self)
        ensures
            final(self)@ == old(self)@.start(),
            final(self)@.wf(),
            final(self)@.status.running,
            old(self)@.status.state is Idle ==> {
                &&& final(self)@.status.state is Focus
                &&& final(self)@.status.remaining == old(self)@.durations.focus
            },
            !(old(self)@.status.state is Idle) ==> {
                &&& final(self)@.status.state == old(self)@.status.state
                &&& final(self)@.status.remaining == old(self)@.status.remaining
            },
            final(self)@.status.cycle == old(self)@.status.cycle,
            final(self)@.durations == old(self)@.durations,
    {
        proof {
            use_type_invariant(&*self);
        }
        if self.status.state == TimerState::Idle {
            self.status = TimerStatus {
                state: TimerState::Focus,
                remaining_secs: self.durations.focus,
                cycle: self.status.cycle,
                is_running: true,
            };
        } else {
            self.status = TimerStatus { is_running: true, ..self.status };
        }
    }

    /// Stops the clock. State, remaining seconds and cycle stay as they are.
    pub fn pause(&mut self)
        ensures
            final(self)@ == old(self)@.pause(),
            final(self)@.wf(),
    {
        proof {
            use_type_invariant(&*self);
        }
        self.status = TimerStatus { is_running: false, ..self.status };
    }

    /// Discards the interval in progress: the timer is idle again, stopped, at
    /// the start of a round, showing a full focus interval.
    pub fn reset(&mut self)
        ensures
            final(self)@ == old(self)@.reset(),
            final(self)@.wf(),
            final(self)@.status == (StatusModel {
                state: TimerState::Idle,
                remaining: old(self)@.durations.focus,
                cycle: 1,
                running: false,
            }),
            final(self)@.durations == old(self)@.durations,
    {
        self.status = TimerStatus {
            state: TimerState::Idle,
            remaining_secs: self.durations.focus,
            cycle: 1,
            is_running: false,
        };
    }

    /// One second has passed. Returns the state that was entered, if this
    /// tick ended an interval.
    ///
    /// A stopped timer ignores the tick. A running one counts one second
    /// down; with no second left it takes the next step of the transition
    /// table and loads the configured length of the state it enters.
    pub fn tick(&mut self) -> (transition: Option<TimerState>)
        ensures
            final(self)@ == old(self)@.tick(),
            final(self)@.wf(),
            transition == old(self)@.tick_transition(),
    {
        proof {
            use_type_invariant(&*self);
        }
        if !self.status.is_running {
            return None;
        }
        if self.status.remaining_secs > 0 {
            self.status = TimerStatus {
                remaining_secs: self.status.remaining_secs - 1,
                ..self.status
            };
            return None;
        }
        self.advance()
    }

    /// Ends the interval in progress at once, as a tick with no second left
    /// would, whether or not the clock is running. Returns the state that was
    /// entered; an idle timer stays idle and returns `None`.
    pub fn skip(&mut self) -> (transition: Option<TimerState>)
        ensures
            final(self)@ == old(self)@.skip(),
            final(self)@.wf(),
            transition == old(self)@.skip_transition(),
    {
        self.advance()
    }

    /// A copy of the current status.
    pub fn get_status(&self) -> (status: TimerStatus)
        ensures
            status@ == self@.status,
            status@.wf(),
    {
        proof {
            use_type_invariant(self);
        }
        self.status
    }

    /// A copy of the configured durations.
    pub fn get_durations(&self) -> (durations: TimerDurations)
        ensures
            durations@ == self@.durations,
    {
        self.durations
    }

    /// Configures the durations, given in minutes. The interval in progress
    /// keeps its remaining seconds; the new lengths are used from the next
    /// interval on.
    pub fn set_durations(&mut self, focus_mins: u32, short_break_mins: u32, long_break_mins: u32)
        requires
            focus_mins <= MAX_MINUTES,
            short_break_mins <= MAX_MINUTES,
            long_break_mins <= MAX_MINUTES,
        ensures
            final(self)@ == old(self)@.set_durations(
                DurationsModel::from_minutes(
                    focus_mins as nat,
                    short_break_mins as nat,
                    long_break_mins as nat,
                ),
            ),
            final(self)@.wf(),
    {
        proof {
            use_type_invariant(&*self);
        }
        self.durations = TimerDurations {
            focus: focus_mins * 60,
            short_break: short_break_mins * 60,
            long_break: long_break_mins * 60,
        };
    }

    /// The step of the transition table that `tick` and `skip` share.
    fn advance(&mut self) -> (transition: Option<TimerState>)
        ensures
            final(self)@ == old(self)@.advance(),
            final(self)@.wf(),
            transition == old(self)@.skip_transition(),
    {
        proof {
            use_type_invariant(&*self);
        }
        let cycle: u32 = self.status.cycle;
        let (state, cycle): (TimerState, u32) = match self.status.state {
            TimerState::Focus => {
                if cycle >= FOCUS_INTERVALS_PER_ROUND {
                    (TimerState::LongBreak, cycle)
                } else {
                    (TimerState::ShortBreak, cycle)
                }
            },
            TimerState::ShortBreak => (TimerState::Focus, cycle + 1),
            TimerState::LongBreak => (TimerState::Focus, 1),
            TimerState::Idle => {
                return None;
            },
        };
        self.status = TimerStatus {
            state,
            remaining_secs: self.durations.of(state),
            cycle,
            is_running: self.status.is_running,
        };
        Some(state)
    }
}

} // verus!
