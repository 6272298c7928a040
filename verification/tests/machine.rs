use blinky::blinky_fsm::{
    Action, AppState, BlinkyContext, BlinkyEvent, BlinkyFsm, COOLDOWN_TICKS, HIGH_VALUE_THRESHOLD,
};

fn ctx(wait_ticks: u32, last_adc_value: u16) -> BlinkyContext {
    BlinkyContext { wait_ticks, last_adc_value }
}

/// Dispatches one event and returns state, context and commands.
fn run(
    state: BlinkyFsm,
    context: BlinkyContext,
    event: BlinkyEvent,
) -> (BlinkyFsm, BlinkyContext, Vec<Action>) {
    let mut fsm = state;
    let mut c = context;
    assert!(fsm.can_take(&c, &event));
    let actions = fsm.dispatch(&mut c, &event);
    (fsm, c, actions)
}

#[test]
fn constants_have_their_values() {
    assert_eq!(HIGH_VALUE_THRESHOLD, 70);
    assert_eq!(COOLDOWN_TICKS, 10);
}

#[test]
fn new_context_is_zeroed() {
    assert_eq!(BlinkyContext::new(), ctx(0, 0));
}

#[test]
fn trigger_adc_appends_one_command() {
    let c = ctx(3, 4);
    let mut out = vec![Action::SetLedHigh];
    c.trigger_adc(&mut out);
    assert_eq!(out, vec![Action::SetLedHigh, Action::StartConversion]);
}

#[test]
fn led_off_tick_turns_led_on() {
    let (s, c, a) = run(BlinkyFsm::LedOff, ctx(5, 33), BlinkyEvent::TimerTick);
    assert_eq!(s, BlinkyFsm::LedOn);
    assert_eq!(c, ctx(5, 33));
    assert_eq!(a, vec![Action::SetLedHigh, Action::StartConversion]);
}

#[test]
fn led_off_ignores_samples() {
    for v in [0u16, 70, 71, 1023, u16::MAX] {
        let (s, c, a) = run(BlinkyFsm::LedOff, ctx(5, 33), BlinkyEvent::AdcResult(v));
        assert_eq!(s, BlinkyFsm::LedOff);
        assert_eq!(c, ctx(5, 33));
        assert_eq!(a, Vec::<Action>::new());
    }
}

#[test]
fn led_on_tick_turns_led_off() {
    let (s, c, a) = run(BlinkyFsm::LedOn, ctx(5, 33), BlinkyEvent::TimerTick);
    assert_eq!(s, BlinkyFsm::LedOff);
    assert_eq!(c, ctx(5, 33));
    assert_eq!(a, vec![Action::SetLedLow]);
}

#[test]
fn led_on_high_sample_starts_cooldown() {
    let (s, c, a) = run(BlinkyFsm::LedOn, ctx(5, 33), BlinkyEvent::AdcResult(500));
    assert_eq!(s, BlinkyFsm::HighValueWait);
    // The counter starts over; the sample is judged, not recorded.
    assert_eq!(c, ctx(0, 33));
    assert_eq!(a, vec![Action::SetLedLow]);
}

#[test]
fn led_on_low_sample_changes_nothing() {
    let (s, c, a) = run(BlinkyFsm::LedOn, ctx(5, 33), BlinkyEvent::AdcResult(12));
    assert_eq!(s, BlinkyFsm::LedOn);
    assert_eq!(c, ctx(5, 33));
    assert_eq!(a, Vec::<Action>::new());
}

#[test]
fn cooldown_tick_counts_and_samples() {
    let (s, c, a) = run(BlinkyFsm::HighValueWait, ctx(3, 20), BlinkyEvent::TimerTick);
    assert_eq!(s, BlinkyFsm::HighValueWait);
    assert_eq!(c, ctx(4, 20));
    assert_eq!(a, vec![Action::StartConversion]);
}

#[test]
fn cooldown_tick_ends_cooldown() {
    let (s, c, a) = run(BlinkyFsm::HighValueWait, ctx(9, 20), BlinkyEvent::TimerTick);
    assert_eq!(s, BlinkyFsm::LedOff);
    // Entering LedOff does not reset the counter.
    assert_eq!(c, ctx(10, 20));
    assert_eq!(a, vec![Action::StartConversion, Action::SetLedLow]);
}

#[test]
fn cooldown_records_samples() {
    for v in [0u16, 70, 71, 1023] {
        let (s, c, a) = run(BlinkyFsm::HighValueWait, ctx(7, 500), BlinkyEvent::AdcResult(v));
        assert_eq!(s, BlinkyFsm::HighValueWait);
        assert_eq!(c, ctx(7, v));
        assert_eq!(a, Vec::<Action>::new());
    }
}

#[test]
fn entry_actions_of_each_state() {
    let mut c = ctx(4, 90);
    let mut out = Vec::new();
    BlinkyFsm::LedOff.on_entry(&mut c, &mut out);
    assert_eq!((c, out), (ctx(4, 90), vec![Action::SetLedLow]));

    let mut out = Vec::new();
    BlinkyFsm::LedOn.on_entry(&mut c, &mut out);
    assert_eq!((c, out.clone()), (ctx(4, 90), vec![Action::SetLedHigh, Action::StartConversion]));
    assert_eq!(out.iter().filter(|a| **a == Action::StartConversion).count(), 1);

    let mut out = Vec::new();
    BlinkyFsm::HighValueWait.on_entry(&mut c, &mut out);
    assert_eq!((c, out), (ctx(0, 90), vec![Action::SetLedLow]));
}

#[test]
fn entry_appends_to_what_is_there() {
    let mut c = ctx(0, 0);
    let mut out = vec![Action::StartConversion];
    BlinkyFsm::LedOn.on_entry(&mut c, &mut out);
    assert_eq!(
        out,
        vec![Action::StartConversion, Action::SetLedHigh, Action::StartConversion]
    );
}

#[test]
fn on_process_decides_without_entering() {
    let mut c = ctx(9, 70);
    let mut out = Vec::new();
    let t = BlinkyFsm::HighValueWait.on_process(&mut c, &BlinkyEvent::TimerTick, &mut out);
    assert_eq!(t, Some(BlinkyFsm::LedOff));
    assert_eq!(c, ctx(10, 70));
    assert_eq!(out, vec![Action::StartConversion]);

    let mut c = ctx(2, 70);
    let mut out = Vec::new();
    let t = BlinkyFsm::LedOn.on_process(&mut c, &BlinkyEvent::AdcResult(71), &mut out);
    assert_eq!(t, Some(BlinkyFsm::HighValueWait));
    assert_eq!(c, ctx(2, 70));
    assert!(out.is_empty());

    let t = BlinkyFsm::LedOff.on_process(&mut c, &BlinkyEvent::AdcResult(71), &mut out);
    assert_eq!(t, None);
}

#[test]
fn init_makes_led_off_active() {
    for start in [BlinkyFsm::LedOff, BlinkyFsm::LedOn, BlinkyFsm::HighValueWait] {
        let mut fsm = start;
        let mut c = ctx(6, 80);
        let actions = fsm.init(&mut c);
        assert_eq!(fsm, BlinkyFsm::LedOff);
        assert_eq!(c, ctx(6, 80));
        assert_eq!(actions, vec![Action::SetLedLow]);
    }
}

#[test]
fn start_gives_a_started_machine() {
    let (app, actions) = AppState::start();
    assert_eq!(app, AppState { fsm: BlinkyFsm::LedOff, ctx: ctx(0, 0) });
    assert_eq!(actions, vec![Action::SetLedLow]);
}

#[test]
fn rising_edge_is_strict() {
    let (s, _, _) = run(BlinkyFsm::LedOn, ctx(0, 0), BlinkyEvent::AdcResult(70));
    assert_eq!(s, BlinkyFsm::LedOn);
    let (s, _, _) = run(BlinkyFsm::LedOn, ctx(0, 0), BlinkyEvent::AdcResult(71));
    assert_eq!(s, BlinkyFsm::HighValueWait);
}

#[test]
fn cooldown_exit_is_inclusive() {
    let (s, c, _) = run(BlinkyFsm::HighValueWait, ctx(9, 70), BlinkyEvent::TimerTick);
    assert_eq!((s, c), (BlinkyFsm::LedOff, ctx(10, 70)));
    let (s, c, _) = run(BlinkyFsm::HighValueWait, ctx(9, 71), BlinkyEvent::TimerTick);
    assert_eq!((s, c), (BlinkyFsm::HighValueWait, ctx(10, 71)));
}

#[test]
fn cooldown_needs_ten_ticks() {
    let (s, c, _) = run(BlinkyFsm::HighValueWait, ctx(8, 0), BlinkyEvent::TimerTick);
    assert_eq!((s, c), (BlinkyFsm::HighValueWait, ctx(9, 0)));
}

#[test]
fn cooldown_keeps_counting_while_sample_is_high() {
    let mut fsm = BlinkyFsm::HighValueWait;
    let mut c = ctx(0, 71);
    for n in 1..=25u32 {
        let actions = fsm.dispatch(&mut c, &BlinkyEvent::TimerTick);
        assert_eq!(fsm, BlinkyFsm::HighValueWait);
        assert_eq!(c, ctx(n, 71));
        assert_eq!(actions, vec![Action::StartConversion]);
    }
    // Once a low sample is on record the next tick ends the cooldown.
    fsm.dispatch(&mut c, &BlinkyEvent::AdcResult(70));
    assert_eq!((fsm, c), (BlinkyFsm::HighValueWait, ctx(25, 70)));
    fsm.dispatch(&mut c, &BlinkyEvent::TimerTick);
    assert_eq!((fsm, c), (BlinkyFsm::LedOff, ctx(26, 70)));
}

#[test]
fn exit_reads_the_sample_recorded_before_the_tick() {
    // The tick asks for a fresh sample but decides on the old one.
    let (s, _, a) = run(BlinkyFsm::HighValueWait, ctx(30, 900), BlinkyEvent::TimerTick);
    assert_eq!(s, BlinkyFsm::HighValueWait);
    assert_eq!(a, vec![Action::StartConversion]);
}

#[test]
fn counter_restarts_on_every_entry() {
    let mut fsm = BlinkyFsm::LedOn;
    let mut c = ctx(0, 0);
    fsm.dispatch(&mut c, &BlinkyEvent::AdcResult(200));
    for _ in 0..10 {
        fsm.dispatch(&mut c, &BlinkyEvent::TimerTick);
    }
    assert_eq!((fsm, c), (BlinkyFsm::LedOff, ctx(10, 0)));
    fsm.dispatch(&mut c, &BlinkyEvent::TimerTick);
    assert_eq!((fsm, c), (BlinkyFsm::LedOn, ctx(10, 0)));
    fsm.dispatch(&mut c, &BlinkyEvent::AdcResult(200));
    assert_eq!((fsm, c), (BlinkyFsm::HighValueWait, ctx(0, 0)));
}

#[test]
fn full_counter_is_refused_only_for_a_cooldown_tick() {
    let full = ctx(u32::MAX, 0);
    assert!(!BlinkyFsm::HighValueWait.can_take(&full, &BlinkyEvent::TimerTick));
    assert!(BlinkyFsm::HighValueWait.can_take(&full, &BlinkyEvent::AdcResult(1)));
    assert!(BlinkyFsm::LedOff.can_take(&full, &BlinkyEvent::TimerTick));
    assert!(BlinkyFsm::LedOn.can_take(&full, &BlinkyEvent::TimerTick));
    assert!(BlinkyFsm::HighValueWait.can_take(&ctx(u32::MAX - 1, 0), &BlinkyEvent::TimerTick));
    let (s, c, _) = run(BlinkyFsm::HighValueWait, ctx(u32::MAX - 1, 71), BlinkyEvent::TimerTick);
    assert_eq!((s, c), (BlinkyFsm::HighValueWait, ctx(u32::MAX, 71)));
}

#[test]
fn state_names() {
    assert_eq!(BlinkyFsm::LedOff.name(), "OFF");
    assert_eq!(BlinkyFsm::LedOn.name(), "ON");
    assert_eq!(BlinkyFsm::HighValueWait.name(), "WAIT_HIGH_VALUE");
}

#[test]
fn end_to_end() {
    let (mut app, actions) = AppState::start();
    assert_eq!(app.fsm, BlinkyFsm::LedOff);
    assert_eq!(actions, vec![Action::SetLedLow]);

    let actions = app.fsm.dispatch(&mut app.ctx, &BlinkyEvent::TimerTick);
    assert_eq!(app.fsm, BlinkyFsm::LedOn);
    assert_eq!(actions.iter().filter(|a| **a == Action::StartConversion).count(), 1);

    app.fsm.dispatch(&mut app.ctx, &BlinkyEvent::AdcResult(80));
    assert_eq!(app.fsm, BlinkyFsm::HighValueWait);
    assert_eq!(app.ctx.wait_ticks, 0);
    // A sample that starts the cooldown is not recorded.
    assert_eq!(app.ctx.last_adc_value, 0);

    for _ in 0..9 {
        app.fsm.dispatch(&mut app.ctx, &BlinkyEvent::TimerTick);
    }
    assert_eq!(app.fsm, BlinkyFsm::HighValueWait);
    assert_eq!(app.ctx.wait_ticks, 9);

    app.fsm.dispatch(&mut app.ctx, &BlinkyEvent::AdcResult(60));
    assert_eq!(app.fsm, BlinkyFsm::HighValueWait);
    assert_eq!(app.ctx.last_adc_value, 60);

    let actions = app.fsm.dispatch(&mut app.ctx, &BlinkyEvent::TimerTick);
    assert_eq!(app.ctx.wait_ticks, 10);
    assert!(app.ctx.last_adc_value <= 70);
    assert_eq!(app.fsm, BlinkyFsm::LedOff);
    assert_eq!(actions, vec![Action::StartConversion, Action::SetLedLow]);
}
