//! The timer as a mathematical state machine.
//!
//! Everything here is ghost code: natural numbers instead of machine
//! integers, and one pure function per operation of the timer. The executable
//! timer states its contracts over these functions.

use crate::timer::{TimerState, FOCUS_INTERVALS_PER_ROUND};
use vstd::prelude::*;

verus! {

/// Configured interval lengths, in seconds.
pub struct DurationsModel {
    pub focus: nat,
    pub short_break: nat,
    pub long_break: nat,
}

/// What the timer shows: the phase, the seconds left in it, the number of the
/// current focus interval within the round, and whether the clock is running.
pub struct StatusModel {
    pub state: TimerState,
    pub remaining: nat,
    pub cycle: nat,
    pub running: bool,
}

/// A timer: its status together with the durations it is configured with.
pub struct TimerModel {
    pub status: StatusModel,
    pub durations: DurationsModel,
}

/// The transition table, state part. A focus interval is followed by a short
/// break, except the last of a round, which is followed by the long break;
/// every break is followed by a focus interval. `Idle` is left only by starting.
pub open spec fn next_state(state: TimerState, cycle: nat) -> TimerState {
    match state {
        TimerState::Focus => if cycle >= FOCUS_INTERVALS_PER_ROUND {
            TimerState::LongBreak
        } else {
            TimerState::ShortBreak
        },
        TimerState::ShortBreak => TimerState::Focus,
        TimerState::LongBreak => TimerState::Focus,
        TimerState::Idle => TimerState::Idle,
    }
}

/// The transition table, cycle part. Only leaving a short break counts up, and
/// leaving the long break starts the next round at 1.
pub open spec fn next_cycle(state: TimerState, cycle: nat) -> nat {
    match state {
        TimerState::Focus => cycle,
        TimerState::ShortBreak => cycle + 1,
        TimerState::LongBreak => 1,
        TimerState::Idle => cycle,
    }
}

impl DurationsModel {
    /// 25 minutes of focus, 5 minutes of short break, 15 minutes of long break.
    pub open spec fn standard() -> DurationsModel {
        DurationsModel { focus: 1500, short_break: 300, long_break: 900 }
    }

    /// Durations given in whole minutes.
    pub open spec fn from_minutes(focus: nat, short_break: nat, long_break: nat) -> DurationsModel {
        DurationsModel {
            focus: focus * 60,
            short_break: short_break * 60,
            long_break: long_break * 60,
        }
    }

    /// The length of an interval spent in `state`. An idle timer shows a full
    /// focus interval.
    pub open spec fn of(self, state: TimerState) -> nat {
        match state {
            TimerState::Idle => self.focus,
            TimerState::Focus => self.focus,
            TimerState::ShortBreak => self.short_break,
            TimerState::LongBreak => self.long_break,
        }
    }
}

impl StatusModel {
    /// What every status that the operations can produce satisfies: the cycle
    /// stays within a round, a short break never follows the last focus
    /// interval, the long break only follows the last one, and an idle timer
    /// is stopped at the start of a round.
    pub open spec fn wf(self) -> bool {
        &&& 1 <= self.cycle <= FOCUS_INTERVALS_PER_ROUND
        &&& self.state is ShortBreak ==> self.cycle < FOCUS_INTERVALS_PER_ROUND
        &&& self.state is LongBreak ==> self.cycle == FOCUS_INTERVALS_PER_ROUND
        &&& self.state is Idle ==> self.cycle == 1 && !self.running
    }
}

impl TimerModel {
    /// A stopped timer at the start of a round, showing a full focus interval.
    pub open spec fn idle(durations: DurationsModel) -> TimerModel {
        TimerModel {
            status: StatusModel {
                state: TimerState::Idle,
                remaining: durations.focus,
                cycle: 1,
                running: false,
            },
            durations,
        }
    }

    /// A timer is well-formed when its status is; any durations will do.
    pub open spec fn wf(self) -> bool {
        self.status.wf()
    }

    /// The seconds left do not exceed the configured length of the current
    /// interval. Reconfiguring the durations can break this until the next
    /// interval is loaded; no other operation can.
    pub open spec fn within_interval(self) -> bool {
        self.status.remaining <= self.durations.of(self.status.state)
    }

    /// Leaves `Idle` for a fresh focus interval, and sets the clock running.
    pub open spec fn start(self) -> TimerModel {
        let status = if self.status.state is Idle {
            StatusModel {
                state: TimerState::Focus,
                remaining: self.durations.focus,
                cycle: self.status.cycle,
                running: true,
            }
        } else {
            StatusModel { running: true, ..self.status }
        };
        TimerModel { status, ..self }
    }

    /// Stops the clock where it is.
    pub open spec fn pause(self) -> TimerModel {
        TimerModel { status: StatusModel { running: false, ..self.status }, ..self }
    }

    /// Back to the idle timer, keeping the configured durations.
    pub open spec fn reset(self) -> TimerModel {
        TimerModel::idle(self.durations)
    }

    /// Replaces the configured durations. The interval in progress keeps its
    /// remaining seconds.
    pub open spec fn set_durations(self, durations: DurationsModel) -> TimerModel {
        TimerModel { durations, ..self }
    }

    /// One step of the transition table: enters the next state with its full
    /// configured length. An idle timer stays as it is.
    pub open spec fn advance(self) -> TimerModel {
        if self.status.state is Idle {
            self
        } else {
            let state = next_state(self.status.state, self.status.cycle);
            TimerModel {
                status: StatusModel {
                    state,
                    remaining: self.durations.of(state),
                    cycle: next_cycle(self.status.state, self.status.cycle),
                    running: self.status.running,
                },
                ..self
            }
        }
    }

    /// Whether a tick ends the current interval: the clock is running and no
    /// second is left.
    pub open spec fn interval_over(self) -> bool {
        self.status.running && self.status.remaining == 0 && !(self.status.state is Idle)
    }

    /// One second passes. A stopped clock ignores it; a running one counts
    /// down, and at zero moves on through the transition table.
    pub open spec fn tick(self) -> TimerModel {
        if !self.status.running {
            self
        } else if self.status.remaining > 0 {
            TimerModel {
                status: StatusModel {
                    remaining: (self.status.remaining - 1) as nat,
                    ..self.status
                },
                ..self
            }
        } else {
            self.advance()
        }
    }

    /// The state that a tick enters, if it ends the interval.
    pub open spec fn tick_transition(self) -> Option<TimerState> {
        if self.interval_over() {
            Some(next_state(self.status.state, self.status.cycle))
        } else {
            None
        }
    }

    /// Ends the current interval at once, whatever is left of it.
    pub open spec fn skip(self) -> TimerModel {
        self.advance()
    }

    /// The state that skipping enters; none from `Idle`.
    pub open spec fn skip_transition(self) -> Option<TimerState> {
        if self.status.state is Idle {
            None
        } else {
            Some(next_state(self.status.state, self.status.cycle))
        }
    }

    /// `n` ticks in a row.
    pub open spec fn ticks(self, n: nat) -> TimerModel
        decreases n,
    {
        if n == 0 {
            self
        } else {
            self.tick().ticks((n - 1) as nat)
        }
    }

    /// The states entered by `n` ticks in a row, in the order they are entered.
    pub open spec fn tick_transitions(self, n: nat) -> Seq<TimerState>
        decreases n,
    {
        if n == 0 {
            Seq::empty()
        } else {
            let later = self.tick().tick_transitions((n - 1) as nat);
            match self.tick_transition() {
                Some(state) => seq![state] + later,
                None => later,
            }
        }
    }

    /// `n` steps of the transition table in a row.
    pub open spec fn advances(self, n: nat) -> TimerModel
        decreases n,
    {
        if n == 0 {
            self
        } else {
            self.advance().advances((n - 1) as nat)
        }
    }
}

} // verus!
