//! The state machine: states, events, context, and the step function.

use vstd::prelude::*;

verus! {

/// A sample above this value sends the machine from `LedOn` into the cooldown;
/// a last sample at or below it lets the cooldown end.
pub const HIGH_VALUE_THRESHOLD: u16 = 70;

/// Number of ticks the cooldown lasts at least.
pub const COOLDOWN_TICKS: u32 = 10;

/// A command for the hardware. The machine never touches a pin or a register:
/// it hands these back to its caller, who carries them out in the order given.
#[derive(Clone, Copy, Debug, PartialEq, Eq, Structural)]
pub enum Action {
    /// Drive the LED output low.
    SetLedLow,
    /// Drive the LED output high.
    SetLedHigh,
    /// Start one analog-to-digital conversion.
    StartConversion,
}

/// What the machine reacts to.
#[derive(Clone, Copy, Debug, PartialEq, Eq, Structural)]
pub enum BlinkyEvent {
    /// The periodic tick of the main loop.
    TimerTick,
    /// A finished conversion with its sample.
    AdcResult(u16),
}

/// The states. Exactly one is active.
#[derive(Clone, Copy, Debug, PartialEq, Eq, Structural)]
pub enum BlinkyFsm {
    LedOff,
    LedOn,
    /// Cooldown after a high sample.
    HighValueWait,
}

/// The variables the machine keeps besides its state.
#[derive(Clone, Copy, Debug, PartialEq, Eq, Structural)]
pub struct BlinkyContext {
    /// Ticks seen since the cooldown began.
    pub wait_ticks: u32,
    /// The sample recorded last during a cooldown.
    pub last_adc_value: u16,
}

/// The context as unbounded numbers.
pub struct ContextModel {
    pub wait_ticks: nat,
    pub last_sample: nat,
}

impl View for BlinkyContext {
    type V = ContextModel;

    open spec fn view(&self) -> ContextModel {
        ContextModel { wait_ticks: self.wait_ticks as nat, last_sample: self.last_adc_value as nat }
    }
}

/// The commands a state issues when it becomes active.
pub open spec fn entry_actions(s: BlinkyFsm) -> Seq<Action> {
    match s {
        BlinkyFsm::LedOff => seq![Action::SetLedLow],
        BlinkyFsm::LedOn => seq![Action::SetLedHigh, Action::StartConversion],
        BlinkyFsm::HighValueWait => seq![Action::SetLedLow],
    }
}

/// The context after a state has become active: the cooldown starts counting
/// from zero, the other states leave the context alone.
pub open spec fn entry_context(s: BlinkyFsm, c: ContextModel) -> ContextModel {
    match s {
        BlinkyFsm::HighValueWait => ContextModel { wait_ticks: 0, ..c },
        _ => c,
    }
}

/// The state an event leads to, or `None` where the machine stays.
///
/// | state           | `TimerTick`                                   | `AdcResult(v)`       |
/// |-----------------|-----------------------------------------------|----------------------|
/// | `LedOff`        | `LedOn`                                       | stays                |
/// | `LedOn`         | `LedOff`                                      | `HighValueWait` if `v > 70` |
/// | `HighValueWait` | `LedOff` once the counter, this tick included, has reached 10 and the last sample is `<= 70` | stays |
pub open spec fn transition(s: BlinkyFsm, c: ContextModel, e: BlinkyEvent) -> Option<BlinkyFsm> {
    match (s, e) {
        (BlinkyFsm::LedOff, BlinkyEvent::TimerTick) => Some(BlinkyFsm::LedOn),
        (BlinkyFsm::LedOff, BlinkyEvent::AdcResult(_)) => None,
        (BlinkyFsm::LedOn, BlinkyEvent::TimerTick) => Some(BlinkyFsm::LedOff),
        (BlinkyFsm::LedOn, BlinkyEvent::AdcResult(v)) => if v > HIGH_VALUE_THRESHOLD {
            Some(BlinkyFsm::HighValueWait)
        } else {
            None
        },
        (BlinkyFsm::HighValueWait, BlinkyEvent::TimerTick) => if c.wait_ticks + 1 >= COOLDOWN_TICKS
            && c.last_sample <= HIGH_VALUE_THRESHOLD {
            Some(BlinkyFsm::LedOff)
        } else {
            None
        },
        (BlinkyFsm::HighValueWait, BlinkyEvent::AdcResult(_)) => None,
    }
}

/// The context after the active state has looked at an event, before any
/// entry action: only the cooldown changes it, counting a tick or recording
/// a sample.
pub open spec fn process_context(s: BlinkyFsm, c: ContextModel, e: BlinkyEvent) -> ContextModel {
    match (s, e) {
        (BlinkyFsm::HighValueWait, BlinkyEvent::TimerTick) => ContextModel {
            wait_ticks: c.wait_ticks + 1,
            ..c
        },
        (BlinkyFsm::HighValueWait, BlinkyEvent::AdcResult(v)) => ContextModel {
            last_sample: v as nat,
            ..c
        },
        _ => c,
    }
}

/// The commands the active state issues while it looks at an event: the
/// cooldown asks for a fresh sample on every tick.
pub open spec fn process_actions(s: BlinkyFsm, e: BlinkyEvent) -> Seq<Action> {
    match (s, e) {
        (BlinkyFsm::HighValueWait, BlinkyEvent::TimerTick) => seq![Action::StartConversion],
        _ => Seq::empty(),
    }
}

/// What one event does to the machine.
pub struct Outcome {
    pub state: BlinkyFsm,
    pub ctx: ContextModel,
    pub actions: Seq<Action>,
}

/// One step of the machine: the active state looks at the event; where that
/// leads to a state, the state becomes active and its entry action runs.
pub open spec fn step(s: BlinkyFsm, c: ContextModel, e: BlinkyEvent) -> Outcome {
    let seen = process_context(s, c, e);
    match transition(s, c, e) {
        Some(t) => Outcome {
            state: t,
            ctx: entry_context(t, seen),
            actions: process_actions(s, e) + entry_actions(t),
        },
        None => Outcome { state: s, ctx: seen, actions: process_actions(s, e) },
    }
}

/// Whether the machine can take the event: the tick counter must have room
/// for a tick that the cooldown counts.
pub open spec fn accepts(s: BlinkyFsm, c: BlinkyContext, e: BlinkyEvent) -> bool {
    s == BlinkyFsm::HighValueWait && e == BlinkyEvent::TimerTick ==> c.wait_ticks < u32::MAX
}

/// The name under which a state is reported.
pub open spec fn state_name(s: BlinkyFsm) -> Seq<char> {
    match s {
        BlinkyFsm::LedOff => "OFF"@,
        BlinkyFsm::LedOn => "ON"@,
        BlinkyFsm::HighValueWait => "WAIT_HIGH_VALUE"@,
    }
}

impl BlinkyContext {
    /// A context with both variables at zero.
    pub fn new() -> (c: BlinkyContext)
        ensures
            c@ == (ContextModel { wait_ticks: 0, last_sample: 0 }),
    {
        BlinkyContext { wait_ticks: 0, last_adc_value: 0 }
    }

    /// Asks for one conversion by appending the command to `out`.
    pub fn trigger_adc(&self, out: &mut Vec<Action>)
        ensures
            final(out)@ == old(out)@.push(Action::StartConversion),
    {
        out.push(Action::StartConversion);
    }
}

impl BlinkyFsm {
    /// The name under which the state is reported.
    pub fn name(&self) -> (r: &'static str)
        ensures
            r@ == state_name(*self),
    {
        match self {
            BlinkyFsm::LedOff => "OFF",
            BlinkyFsm::LedOn => "ON",
            BlinkyFsm::HighValueWait => "WAIT_HIGH_VALUE",
        }
    }

    /// Tests whether the machine can take the event, see [`accepts`].
    pub fn can_take(&self, ctx: &BlinkyContext, event: &BlinkyEvent) -> (b: bool)
        ensures
            b == accepts(*self, *ctx, *event),
    {
        match (self, event) {
            (BlinkyFsm::HighValueWait, BlinkyEvent::TimerTick) => ctx.wait_ticks < u32::MAX,
            _ => true,
        }
    }

    /// Runs the entry action of `self`: appends its commands to `out` and
    /// resets the tick counter where the state is the cooldown.
    pub fn on_entry(&self, ctx: &mut BlinkyContext, out: &mut Vec<Action>)
        ensures
            final(ctx)@ == entry_context(*self, old(ctx)@),
            final(out)@ == old(out)@ + entry_actions(*self),
    {
        match self {
            BlinkyFsm::LedOff => {
                out.push(Action::SetLedLow);
            },
            BlinkyFsm::LedOn => {
                out.push(Action::SetLedHigh);
                ctx.trigger_adc(out);
            },
            BlinkyFsm::HighValueWait => {
                out.push(Action::SetLedLow);
                ctx.wait_ticks = 0;
            },
        }
    }

    /// Lets the active state look at an event. Returns the state to go to, or
    /// `None` to stay; the context and `out` take what the state did meanwhile.
    pub fn on_process(&self, ctx: &mut BlinkyContext, event: &BlinkyEvent, out: &mut Vec<Action>) -> (t:
        Option<BlinkyFsm>)
        requires
            accepts(*self, *old(ctx), *event),
        ensures
            t == transition(*self, old(ctx)@, *event),
            final(ctx)@ == process_context(*self, old(ctx)@, *event),
            final(out)@ == old(out)@ + process_actions(*self, *event),
    {
        match self {
            BlinkyFsm::LedOff => match event {
                BlinkyEvent::TimerTick => Some(BlinkyFsm::LedOn),
                BlinkyEvent::AdcResult(_) => None,
            },
            BlinkyFsm::LedOn => match event {
                BlinkyEvent::TimerTick => Some(BlinkyFsm::LedOff),
                BlinkyEvent::AdcResult(val) => {
                    if *val > HIGH_VALUE_THRESHOLD {
                        Some(BlinkyFsm::HighValueWait)
                    } else {
                        None
                    }
                },
            },
            BlinkyFsm::HighValueWait => match event {
                BlinkyEvent::TimerTick => {
                    ctx.wait_ticks = ctx.wait_ticks + 1;
                    ctx.trigger_adc(out);
                    if ctx.wait_ticks >= COOLDOWN_TICKS && ctx.last_adc_value
                        <= HIGH_VALUE_THRESHOLD {
                        Some(BlinkyFsm::LedOff)
                    } else {
                        None
                    }
                },
                BlinkyEvent::AdcResult(val) => {
                    ctx.last_adc_value = *val;
                    None
                },
            },
        }
    }

    /// Starts the machine: makes `LedOff` the active state and runs its entry
    /// action. Returns the commands of that action.
    pub fn init(&mut self, ctx: &mut BlinkyContext) -> (actions: Vec<Action>)
        ensures
            *final(self) == BlinkyFsm::LedOff,
            final(ctx)@ == entry_context(BlinkyFsm::LedOff, old(ctx)@),
            actions@ == entry_actions(BlinkyFsm::LedOff),
    {
        let mut out: Vec<Action> = Vec::new();
        *self = BlinkyFsm::LedOff;
        self.on_entry(ctx, &mut out);
        out
    }

    /// Takes one event. The active state looks at it; where that leads to a
    /// state, that state becomes active and its entry action runs. Returns the
    /// commands issued on the way, in order. The tick counter must have room
    /// for the event, see [`accepts`]; [`BlinkyFsm::can_take`] tests it.
    pub fn dispatch(&mut self, ctx: &mut BlinkyContext, event: &BlinkyEvent) -> (actions: Vec<Action>)
        requires
            accepts(*old(self), *old(ctx), *event),
        ensures
            *final(self) == step(*old(self), old(ctx)@, *event).state,
            final(ctx)@ == step(*old(self), old(ctx)@, *event).ctx,
            actions@ == step(*old(self), old(ctx)@, *event).actions,
    {
        let mut out: Vec<Action> = Vec::new();
        match self.on_process(ctx, event, &mut out) {
            Some(new_state) => {
                new_state.on_entry(ctx, &mut out);
                *self = new_state;
            },
            None => {},
        }
        out
    }
}

/// The machine together with its context: the one value that the main loop
/// and the interrupt handler share.
#[derive(Clone, Copy, Debug, PartialEq, Eq, Structural)]
pub struct AppState {
    pub fsm: BlinkyFsm,
    pub ctx: BlinkyContext,
}

impl AppState {
    /// A started machine: `LedOff` is active, its entry action has run on a
    /// fresh context. Returns the commands of that action beside it.
    pub fn start() -> (r: (AppState, Vec<Action>))
        ensures
            r.0.fsm == BlinkyFsm::LedOff,
            r.0.ctx@ == (ContextModel { wait_ticks: 0, last_sample: 0 }),
            r.1@ == entry_actions(BlinkyFsm::LedOff),
    {
        let mut ctx = BlinkyContext::new();
        let mut fsm = BlinkyFsm::LedOff;
        let actions = fsm.init(&mut ctx);
        (AppState { fsm, ctx }, actions)
    }
}

} // verus!
