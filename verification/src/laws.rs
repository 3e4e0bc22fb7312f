//! What holds of every timer: properties of the state machine, each proved
//! from the definitions of the operations.

use crate::model::{next_state, DurationsModel, StatusModel, TimerModel};
use crate::timer::TimerState;
use vstd::prelude::*;

verus! {

/// The number of steps of the transition table in one round: four focus
/// intervals, three short breaks and the long break.
pub open spec fn steps_per_round() -> nat {
    8
}

/// A fresh timer is well-formed, and every operation keeps a well-formed
/// timer well-formed. In particular the cycle stays between 1 and 4.
pub proof fn lemma_operations_preserve_wf(t: TimerModel, durations: DurationsModel)
    requires
        t.wf(),
    ensures
        TimerModel::idle(durations).wf(),
        t.start().wf(),
        t.pause().wf(),
        t.reset().wf(),
        t.tick().wf(),
        t.skip().wf(),
        t.set_durations(durations).wf(),
        1 <= t.status.cycle <= 4,
{
}

/// Starting an idle timer enters a focus interval of the configured length,
/// whatever that length is, with the clock running.
pub proof fn lemma_start_from_idle(t: TimerModel)
    requires
        t.status.state is Idle,
    ensures
        t.start().status == (StatusModel {
            state: TimerState::Focus,
            remaining: t.durations.focus,
            cycle: t.status.cycle,
            running: true,
        }),
        t.start().durations == t.durations,
{
}

/// Starting a timer that is not idle only sets the clock running, so
/// starting twice is starting once.
pub proof fn lemma_start_is_idempotent(t: TimerModel)
    ensures
        !(t.status.state is Idle) ==> t.start() == (TimerModel {
            status: StatusModel { running: true, ..t.status },
            ..t
        }),
        t.start().start() == t.start(),
{
}

/// From every state and cycle, reset leads to the idle timer: stopped, at
/// cycle 1, showing the configured focus length.
pub proof fn lemma_reset_from_anywhere(t: TimerModel)
    ensures
        t.reset().status == (StatusModel {
            state: TimerState::Idle,
            remaining: t.durations.focus,
            cycle: 1,
            running: false,
        }),
        t.reset().durations == t.durations,
        t.reset().wf(),
{
}

/// Any number of ticks keeps a well-formed timer well-formed.
pub proof fn lemma_ticks_preserve_wf(t: TimerModel, n: nat)
    requires
        t.wf(),
    ensures
        t.ticks(n).wf(),
        1 <= t.ticks(n).status.cycle <= 4,
    decreases n,
{
    if n > 0 {
        lemma_ticks_preserve_wf(t.tick(), (n - 1) as nat);
    }
}

/// Any number of steps of the transition table keeps a well-formed timer
/// well-formed, and never leaves or enters `Idle`.
pub proof fn lemma_advances_preserve_wf(t: TimerModel, n: nat)
    requires
        t.wf(),
    ensures
        t.advances(n).wf(),
        1 <= t.advances(n).status.cycle <= 4,
        t.advances(n).status.state is Idle <==> t.status.state is Idle,
    decreases n,
{
    if n > 0 {
        lemma_advances_preserve_wf(t.advance(), (n - 1) as nat);
    }
}

/// As long as the timer is not reconfigured, the seconds left never exceed
/// the configured length of the current interval. Reconfiguring keeps this
/// exactly when the new length of the current interval still covers them.
pub proof fn lemma_remaining_stays_within_interval(t: TimerModel, durations: DurationsModel)
    requires
        t.within_interval(),
    ensures
        TimerModel::idle(durations).within_interval(),
        t.start().within_interval(),
        t.pause().within_interval(),
        t.reset().within_interval(),
        t.tick().within_interval(),
        t.skip().within_interval(),
        t.set_durations(durations).within_interval() <==> t.status.remaining <= durations.of(
            t.status.state,
        ),
{
}

/// Ticking `a + b` times is ticking `a` times and then `b` times, and the
/// states entered are those of the first `a` ticks followed by those of the
/// next `b`.
pub proof fn lemma_ticks_split(t: TimerModel, a: nat, b: nat)
    ensures
        t.ticks(a + b) == t.ticks(a).ticks(b),
        t.tick_transitions(a + b) == t.tick_transitions(a) + t.ticks(a).tick_transitions(b),
    decreases a,
{
    if a == 0 {
        assert(t.tick_transitions(b) =~= Seq::<TimerState>::empty() + t.tick_transitions(b));
    } else {
        let before = (a - 1) as nat;
        lemma_ticks_split(t.tick(), before, b);
        assert((a + b - 1) as nat == before + b);
        let first = t.tick().tick_transitions(before);
        let second = t.tick().ticks(before).tick_transitions(b);
        match t.tick_transition() {
            Some(state) => {
                assert(seq![state] + (first + second) =~= (seq![state] + first) + second);
            },
            None => {},
        }
    }
}

/// A running timer with `k` or more seconds left spends `k` ticks counting
/// down: nothing but the remaining seconds changes, and no state is entered.
pub proof fn lemma_countdown(t: TimerModel, k: nat)
    requires
        t.status.running,
        k <= t.status.remaining,
    ensures
        t.ticks(k) == (TimerModel {
            status: StatusModel { remaining: (t.status.remaining - k) as nat, ..t.status },
            ..t
        }),
        t.tick_transitions(k) == Seq::<TimerState>::empty(),
    decreases k,
{
    if k > 0 {
        lemma_countdown(t.tick(), (k - 1) as nat);
    }
}

/// A running interval with `r` seconds left ends with tick number `r + 1`.
/// The first `r` ticks count down to zero and enter no state; the next tick
/// takes exactly one step of the transition table, and the state it enters is
/// the only one entered by all `r + 1` ticks.
pub proof fn lemma_interval_ends_with_one_transition(t: TimerModel)
    requires
        t.status.running,
        !(t.status.state is Idle),
    ensures
        t.ticks(t.status.remaining).status == (StatusModel { remaining: 0, ..t.status }),
        t.tick_transitions(t.status.remaining) == Seq::<TimerState>::empty(),
        t.ticks(t.status.remaining + 1) == t.advance(),
        t.tick_transitions(t.status.remaining + 1) == seq![
            next_state(t.status.state, t.status.cycle),
        ],
{
    let r = t.status.remaining;
    lemma_countdown(t, r);
    lemma_ticks_split(t, r, 1);
    let at_zero = t.ticks(r);
    assert(at_zero.ticks(1) == at_zero.tick()) by {
        assert(at_zero.tick().ticks(0) == at_zero.tick());
    }
    assert(at_zero.tick_transitions(1) =~= seq![next_state(t.status.state, t.status.cycle)]) by {
        assert(at_zero.tick().tick_transitions(0) == Seq::<TimerState>::empty());
    }
    assert(t.tick_transitions(r + 1) =~= seq![next_state(t.status.state, t.status.cycle)]);
}

/// A stopped timer ignores ticks.
pub proof fn lemma_stopped_timer_ignores_ticks(t: TimerModel, n: nat)
    requires
        !t.status.running,
    ensures
        t.ticks(n) == t,
        t.tick_transitions(n) == Seq::<TimerState>::empty(),
    decreases n,
{
    if n > 0 {
        lemma_stopped_timer_ignores_ticks(t, (n - 1) as nat);
    }
}

/// After a pause, any number of ticks leaves the timer as the pause left it:
/// state, remaining seconds and cycle are those from before the pause.
pub proof fn lemma_paused_timer_ignores_ticks(t: TimerModel, n: nat)
    ensures
        t.pause().ticks(n) == t.pause(),
        t.pause().ticks(n).status.state == t.status.state,
        t.pause().ticks(n).status.remaining == t.status.remaining,
        t.pause().ticks(n).status.cycle == t.status.cycle,
        t.pause().tick_transitions(n) == Seq::<TimerState>::empty(),
{
    lemma_stopped_timer_ignores_ticks(t.pause(), n);
}

/// Taking `a + b` steps of the transition table is taking `a` and then `b`.
pub proof fn lemma_advances_split(t: TimerModel, a: nat, b: nat)
    ensures
        t.advances(a + b) == t.advances(a).advances(b),
    decreases a,
{
    if a > 0 {
        lemma_advances_split(t.advance(), (a - 1) as nat, b);
        assert((a + b - 1) as nat == (a - 1) as nat + b);
    }
}

/// The steps of the transition table do not depend on the seconds left: two
/// timers that agree in everything else are in the same state and cycle after
/// the same number of steps.
pub proof fn lemma_advances_ignore_remaining(a: TimerModel, b: TimerModel, n: nat)
    requires
        a.durations == b.durations,
        a.status.state == b.status.state,
        a.status.cycle == b.status.cycle,
        a.status.running == b.status.running,
    ensures
        a.advances(n).durations == b.advances(n).durations,
        a.advances(n).status.state == b.advances(n).status.state,
        a.advances(n).status.cycle == b.advances(n).status.cycle,
        a.advances(n).status.running == b.advances(n).status.running,
    decreases n,
{
    if n > 0 {
        lemma_advances_ignore_remaining(a.advance(), b.advance(), (n - 1) as nat);
    }
}

/// Ticking moves along the transition table and nowhere else. The states
/// entered by any number of ticks are, in order, the states that the steps of
/// the table lead through: the `k`-th state entered is the state after `k`
/// steps. After the ticks the timer is in the state and cycle that as many
/// steps as states were entered lead to.
pub proof fn lemma_ticks_follow_the_table(t: TimerModel, n: nat)
    ensures
        forall|k: nat|
            1 <= k <= t.tick_transitions(n).len() ==> t.tick_transitions(n)[k - 1] == (
            #[trigger] t.advances(k)).status.state,
        t.ticks(n).status.state == t.advances(t.tick_transitions(n).len()).status.state,
        t.ticks(n).status.cycle == t.advances(t.tick_transitions(n).len()).status.cycle,
    decreases n,
{
    if n > 0 {
        let next = t.tick();
        let later = next.tick_transitions((n - 1) as nat);
        lemma_ticks_follow_the_table(next, (n - 1) as nat);
        match t.tick_transition() {
            Some(state) => {
                assert(next == t.advance());
                assert(t.tick_transitions(n) == seq![state] + later);
                assert forall|k: nat| 1 <= k <= t.tick_transitions(n).len() implies t.tick_transitions(
                    n,
                )[k - 1] == (#[trigger] t.advances(k)).status.state by {
                    let before = (k - 1) as nat;
                    assert(t.advances(k) == next.advances(before));
                    if k == 1 {
                        assert(next.advances(0) == next);
                    } else {
                        assert(t.tick_transitions(n)[k - 1] == later[before - 1]);
                    }
                }
                assert(next.advances(later.len()) == t.advances(later.len() + 1));
            },
            None => {
                assert(t.tick_transitions(n) == later);
                assert forall|k: nat| 1 <= k <= later.len() implies later[k - 1] == (
                #[trigger] t.advances(k)).status.state by {
                    lemma_advances_ignore_remaining(next, t, k);
                }
                lemma_advances_ignore_remaining(next, t, later.len());
            },
        }
    }
}

/// One round, step by step. From the first focus interval the timer passes
/// through four focus intervals, numbered 1 to 4, with a short break after
/// each of the first three and the long break after the fourth; leaving the
/// long break starts the next round at cycle 1.
pub proof fn lemma_round_from_first_focus(t: TimerModel)
    requires
        t.status.state is Focus,
        t.status.cycle == 1,
    ensures
        t.advances(1).status.state is ShortBreak && t.advances(1).status.cycle == 1,
        t.advances(2).status.state is Focus && t.advances(2).status.cycle == 2,
        t.advances(3).status.state is ShortBreak && t.advances(3).status.cycle == 2,
        t.advances(4).status.state is Focus && t.advances(4).status.cycle == 3,
        t.advances(5).status.state is ShortBreak && t.advances(5).status.cycle == 3,
        t.advances(6).status.state is Focus && t.advances(6).status.cycle == 4,
        t.advances(7).status.state is LongBreak && t.advances(7).status.cycle == 4,
        t.advances(8).status.state is Focus && t.advances(8).status.cycle == 1,
{
    reveal_with_fuel(TimerModel::advances, 9);
}

/// Leaving the long break enters a focus interval with the cycle back at 1.
pub proof fn lemma_cycle_restarts_after_long_break(t: TimerModel)
    requires
        t.status.state is LongBreak,
    ensures
        t.advance().status.state is Focus,
        t.advance().status.cycle == 1,
        t.status.running && t.status.remaining == 0 ==> t.tick() == t.advance(),
{
}

/// Steps of the transition table change neither the configured durations
/// nor whether the clock is running, and each of them loads the full length
/// of the interval it enters.
pub proof fn lemma_advances_load_full_intervals(t: TimerModel, n: nat)
    requires
        !(t.status.state is Idle),
    ensures
        t.advances(n).durations == t.durations,
        t.advances(n).status.running == t.status.running,
        !(t.advances(n).status.state is Idle),
        n >= 1 ==> t.advances(n).status.remaining == t.durations.of(t.advances(n).status.state),
    decreases n,
{
    if n > 0 {
        lemma_advances_load_full_intervals(t.advance(), (n - 1) as nat);
        assert(t.advance().advances(0) == t.advance());
    }
}

/// One round of steps brings a well-formed timer back to the state and the
/// cycle it is in, with a full interval loaded.
pub proof fn lemma_round_returns_to_same_step(t: TimerModel)
    requires
        t.wf(),
        !(t.status.state is Idle),
    ensures
        t.advances(steps_per_round()).status == (StatusModel {
            remaining: t.durations.of(t.status.state),
            ..t.status
        }),
        t.advances(steps_per_round()).durations == t.durations,
{
    reveal_with_fuel(TimerModel::advances, 9);
}

/// The sequence of states and cycles that the transition table runs through
/// repeats with every round: `n` steps and `n` steps plus one round lead to
/// the same state and cycle, and from the first step on to the same timer.
pub proof fn lemma_advances_are_periodic(t: TimerModel, n: nat)
    requires
        t.wf(),
        !(t.status.state is Idle),
    ensures
        t.advances(n + steps_per_round()).status.state == t.advances(n).status.state,
        t.advances(n + steps_per_round()).status.cycle == t.advances(n).status.cycle,
        n >= 1 ==> t.advances(n + steps_per_round()) == t.advances(n),
{
    lemma_advances_split(t, n, steps_per_round());
    lemma_advances_preserve_wf(t, n);
    lemma_advances_load_full_intervals(t, n);
    lemma_round_returns_to_same_step(t.advances(n));
}

} // verus!
