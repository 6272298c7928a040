//! What holds of the machine, proved from its definition.

use vstd::prelude::*;
use crate::blinky_fsm::{
    entry_actions, entry_context, process_actions, process_context, step, transition, Action,
    BlinkyEvent, BlinkyFsm, ContextModel, Outcome, COOLDOWN_TICKS, HIGH_VALUE_THRESHOLD,
};

verus! {

/// Every pair of state and event has exactly one outcome, and it is the one
/// of the table: the state that follows, the context that follows and the
/// commands issued, for each of the six pairs.
pub proof fn law_step_follows_table(c: ContextModel, v: u16)
    ensures
        step(BlinkyFsm::LedOff, c, BlinkyEvent::TimerTick) == (Outcome {
            state: BlinkyFsm::LedOn,
            ctx: c,
            actions: seq![Action::SetLedHigh, Action::StartConversion],
        }),
        step(BlinkyFsm::LedOff, c, BlinkyEvent::AdcResult(v)) == (Outcome {
            state: BlinkyFsm::LedOff,
            ctx: c,
            actions: Seq::empty(),
        }),
        step(BlinkyFsm::LedOn, c, BlinkyEvent::TimerTick) == (Outcome {
            state: BlinkyFsm::LedOff,
            ctx: c,
            actions: seq![Action::SetLedLow],
        }),
        v > 70 ==> step(BlinkyFsm::LedOn, c, BlinkyEvent::AdcResult(v)) == (Outcome {
            state: BlinkyFsm::HighValueWait,
            ctx: ContextModel { wait_ticks: 0, last_sample: c.last_sample },
            actions: seq![Action::SetLedLow],
        }),
        v <= 70 ==> step(BlinkyFsm::LedOn, c, BlinkyEvent::AdcResult(v)) == (Outcome {
            state: BlinkyFsm::LedOn,
            ctx: c,
            actions: Seq::empty(),
        }),
        c.wait_ticks + 1 >= 10 && c.last_sample <= 70 ==> step(
            BlinkyFsm::HighValueWait,
            c,
            BlinkyEvent::TimerTick,
        ) == (Outcome {
            state: BlinkyFsm::LedOff,
            ctx: ContextModel { wait_ticks: c.wait_ticks + 1, last_sample: c.last_sample },
            actions: seq![Action::StartConversion, Action::SetLedLow],
        }),
        !(c.wait_ticks + 1 >= 10 && c.last_sample <= 70) ==> step(
            BlinkyFsm::HighValueWait,
            c,
            BlinkyEvent::TimerTick,
        ) == (Outcome {
            state: BlinkyFsm::HighValueWait,
            ctx: ContextModel { wait_ticks: c.wait_ticks + 1, last_sample: c.last_sample },
            actions: seq![Action::StartConversion],
        }),
        step(BlinkyFsm::HighValueWait, c, BlinkyEvent::AdcResult(v)) == (Outcome {
            state: BlinkyFsm::HighValueWait,
            ctx: ContextModel { wait_ticks: c.wait_ticks, last_sample: v as nat },
            actions: Seq::empty(),
        }),
{
    assert(Seq::<Action>::empty() + seq![Action::SetLedHigh, Action::StartConversion]
        =~= seq![Action::SetLedHigh, Action::StartConversion]);
    assert(Seq::<Action>::empty() + seq![Action::SetLedLow] =~= seq![Action::SetLedLow]);
    assert(seq![Action::StartConversion] + seq![Action::SetLedLow]
        =~= seq![Action::StartConversion, Action::SetLedLow]);
}

/// Whenever an event makes a state active, that state's entry action runs
/// and nothing runs after it: the commands of the step end with the entry
/// commands, and the context is what the entry action makes of the context
/// that the previous state left.
pub proof fn law_entry_runs_on_every_transition(s: BlinkyFsm, c: ContextModel, e: BlinkyEvent)
    requires
        transition(s, c, e) is Some,
    ensures
        step(s, c, e).state == transition(s, c, e)->0,
        step(s, c, e).actions == process_actions(s, e) + entry_actions(step(s, c, e).state),
        step(s, c, e).ctx == entry_context(step(s, c, e).state, process_context(s, c, e)),
{
}

/// What entering each state does, whatever came before: `LedOff` drives the
/// LED low; `LedOn` drives it high and starts one conversion; the cooldown
/// drives it low and starts counting from zero. No entry action touches the
/// recorded sample, and only the cooldown's touches the counter.
pub proof fn law_entry_is_determined(c: ContextModel)
    ensures
        entry_actions(BlinkyFsm::LedOff) == seq![Action::SetLedLow],
        entry_actions(BlinkyFsm::LedOn) == seq![Action::SetLedHigh, Action::StartConversion],
        entry_actions(BlinkyFsm::HighValueWait) == seq![Action::SetLedLow],
        entry_context(BlinkyFsm::LedOff, c) == c,
        entry_context(BlinkyFsm::LedOn, c) == c,
        entry_context(BlinkyFsm::HighValueWait, c).wait_ticks == 0,
        entry_context(BlinkyFsm::HighValueWait, c).last_sample == c.last_sample,
{
}

/// The rising edge is strict: from `LedOn` a sample leads into the cooldown
/// exactly when it is above the threshold, so 70 stays and 71 goes.
pub proof fn law_rising_edge_is_strict(c: ContextModel, v: u16)
    ensures
        HIGH_VALUE_THRESHOLD == 70,
        v > 70 <==> step(BlinkyFsm::LedOn, c, BlinkyEvent::AdcResult(v)).state
            == BlinkyFsm::HighValueWait,
        v <= 70 <==> step(BlinkyFsm::LedOn, c, BlinkyEvent::AdcResult(v)).state == BlinkyFsm::LedOn,
        v <= 70 <==> transition(BlinkyFsm::LedOn, c, BlinkyEvent::AdcResult(v)) is None,
{
}

/// The cooldown ends on a tick exactly when the counter, that tick counted,
/// has reached ten and the sample recorded last is at most the threshold, so
/// 70 ends it and 71 does not. The sample asked for on that tick plays no
/// part: the decision reads what was recorded before. A tick that does not
/// end the cooldown is still counted.
pub proof fn law_cooldown_exit(c: ContextModel)
    ensures
        COOLDOWN_TICKS == 10,
        step(BlinkyFsm::HighValueWait, c, BlinkyEvent::TimerTick).state == BlinkyFsm::LedOff <==> (
        c.wait_ticks + 1 >= 10 && c.last_sample <= 70),
        step(BlinkyFsm::HighValueWait, c, BlinkyEvent::TimerTick).state == BlinkyFsm::HighValueWait
            <==> !(c.wait_ticks + 1 >= 10 && c.last_sample <= 70),
        step(BlinkyFsm::HighValueWait, c, BlinkyEvent::TimerTick).ctx.wait_ticks == c.wait_ticks
            + 1,
        step(BlinkyFsm::HighValueWait, c, BlinkyEvent::TimerTick).ctx.last_sample == c.last_sample,
{
}

/// The counter changes in two ways only. A tick taken in the cooldown adds
/// exactly one. A step that makes the cooldown active sets it to zero. Every
/// other step leaves it alone.
pub proof fn law_counter(s: BlinkyFsm, c: ContextModel, e: BlinkyEvent)
    ensures
        s == BlinkyFsm::HighValueWait && e == BlinkyEvent::TimerTick ==> step(s, c, e).ctx.wait_ticks
            == c.wait_ticks + 1,
        transition(s, c, e) == Some(BlinkyFsm::HighValueWait) ==> step(s, c, e).ctx.wait_ticks == 0,
        !(s == BlinkyFsm::HighValueWait && e == BlinkyEvent::TimerTick) && transition(s, c, e) != Some(
            BlinkyFsm::HighValueWait,
        ) ==> step(s, c, e).ctx.wait_ticks == c.wait_ticks,
{
}

/// The recorded sample changes in one way only: a sample that arrives during
/// the cooldown replaces it. No other step changes it, and none resets it.
pub proof fn law_sample(s: BlinkyFsm, c: ContextModel, e: BlinkyEvent, v: u16)
    ensures
        step(BlinkyFsm::HighValueWait, c, BlinkyEvent::AdcResult(v)).ctx.last_sample == v,
        !(s == BlinkyFsm::HighValueWait && e is AdcResult) ==> step(s, c, e).ctx.last_sample
            == c.last_sample,
{
}

/// The machine after `n` ticks in a row.
pub open spec fn after_ticks(s: BlinkyFsm, c: ContextModel, n: nat) -> (BlinkyFsm, ContextModel)
    decreases n,
{
    if n == 0 {
        (s, c)
    } else {
        let before = after_ticks(s, c, (n - 1) as nat);
        let next = step(before.0, before.1, BlinkyEvent::TimerTick);
        (next.state, next.ctx)
    }
}

/// While the sample recorded last is above the threshold, ticks do not end
/// the cooldown however many there are, and each of them is counted.
pub proof fn law_cooldown_holds_while_sample_is_high(c: ContextModel, n: nat)
    requires
        c.last_sample > 70,
    ensures
        after_ticks(BlinkyFsm::HighValueWait, c, n) == (
            BlinkyFsm::HighValueWait,
            ContextModel { wait_ticks: c.wait_ticks + n, last_sample: c.last_sample },
        ),
    decreases n,
{
    if n > 0 {
        law_cooldown_holds_while_sample_is_high(c, (n - 1) as nat);
    }
}

/// A cooldown that starts with a sample at or below the threshold on record
/// lasts exactly ten ticks: the machine is still in it after any fewer, with
/// each tick counted, and `LedOff` is active after the tenth.
pub proof fn law_cooldown_lasts_ten_ticks(c: ContextModel, n: nat)
    requires
        c.wait_ticks == 0,
        c.last_sample <= 70,
        n <= 10,
    ensures
        n < 10 ==> after_ticks(BlinkyFsm::HighValueWait, c, n) == (
            BlinkyFsm::HighValueWait,
            ContextModel { wait_ticks: n, last_sample: c.last_sample },
        ),
        n == 10 ==> after_ticks(BlinkyFsm::HighValueWait, c, n) == (
            BlinkyFsm::LedOff,
            ContextModel { wait_ticks: 10, last_sample: c.last_sample },
        ),
    decreases n,
{
    if n > 0 {
        law_cooldown_lasts_ten_ticks(c, (n - 1) as nat);
    }
}

} // verus!
