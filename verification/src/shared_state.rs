//! The slot that the main loop and the interrupt handler share.
//!
//! The slot is an `Option<AppState>`: empty until the started machine is
//! installed, occupied from then on. The functions here take the slot by
//! exclusive reference, so each of them is one undivided step on it. The
//! caller owns the lock around the slot and holds it for the call and for
//! carrying out the commands that come back.

use vstd::prelude::*;
use crate::blinky_fsm::{accepts, step, Action, AppState, BlinkyEvent, BlinkyFsm, state_name};

verus! {

/// Why a machine could not be installed.
#[derive(Clone, Copy, Debug, PartialEq, Eq, Structural)]
pub enum InstallError {
    /// The slot already holds a machine.
    Occupied,
}

/// What a dispatch through the slot did.
#[derive(Debug)]
pub struct Dispatched {
    /// The state that is active after the event.
    pub state: BlinkyFsm,
    /// The commands to carry out, in order.
    pub actions: Vec<Action>,
}

/// Whether the machine in the slot, if there is one, can take the event.
pub open spec fn slot_accepts(slot: Option<AppState>, e: BlinkyEvent) -> bool {
    slot matches Some(app) ==> accepts(app.fsm, app.ctx, e)
}

/// Tests whether the machine in the slot, if there is one, can take the
/// event, see [`slot_accepts`].
pub fn slot_can_take(slot: &Option<AppState>, event: &BlinkyEvent) -> (b: bool)
    ensures
        b == slot_accepts(*slot, *event),
{
    match slot {
        Some(app) => app.fsm.can_take(&app.ctx, event),
        None => true,
    }
}

/// Puts the started machine into the empty slot. An occupied slot is left as
/// it is and the call fails.
pub fn install(slot: &mut Option<AppState>, app: AppState) -> (r: Result<(), InstallError>)
    ensures
        *old(slot) is None ==> r is Ok && *final(slot) == Some(app),
        *old(slot) is Some ==> r == Err::<(), InstallError>(InstallError::Occupied) && *final(slot) == *old(
            slot,
        ),
{
    match slot {
        Some(_) => Err(InstallError::Occupied),
        None => {
            *slot = Some(app);
            Ok(())
        },
    }
}

/// Hands the event to the machine in the slot. An empty slot stays empty and
/// nothing is returned; otherwise the machine takes exactly one step.
pub fn dispatch_shared(slot: &mut Option<AppState>, event: &BlinkyEvent) -> (r: Option<Dispatched>)
    requires
        slot_accepts(*old(slot), *event),
    ensures
        *old(slot) is None ==> r is None && *final(slot) is None,
        *old(slot) matches Some(before) ==> {
            let next = step(before.fsm, before.ctx@, *event);
            &&& r matches Some(done)
            &&& done.state == next.state
            &&& done.actions@ == next.actions
            &&& *final(slot) matches Some(after)
            &&& after.fsm == next.state
            &&& after.ctx@ == next.ctx
        },
{
    match slot {
        Some(app) => {
            let actions = app.fsm.dispatch(&mut app.ctx, event);
            Some(Dispatched { state: app.fsm, actions })
        },
        None => None,
    }
}

/// The text of a status line: `State: ` and the name of the state, or
/// `State: Unknown` where there is no state to report.
pub open spec fn status_text(state: Option<BlinkyFsm>) -> Seq<char> {
    "State: "@ + match state {
        Some(s) => state_name(s),
        None => "Unknown"@,
    }
}

/// The status line for the state that is active, or for the empty slot.
pub fn status_line(state: Option<BlinkyFsm>) -> (line: &'static str)
    ensures
        line@ == status_text(state),
{
    proof {
        reveal_strlit("State: ");
        reveal_strlit("OFF");
        reveal_strlit("ON");
        reveal_strlit("WAIT_HIGH_VALUE");
        reveal_strlit("Unknown");
        reveal_strlit("State: OFF");
        reveal_strlit("State: ON");
        reveal_strlit("State: WAIT_HIGH_VALUE");
        reveal_strlit("State: Unknown");
    }
    match state {
        Some(BlinkyFsm::LedOff) => "State: OFF",
        Some(BlinkyFsm::LedOn) => "State: ON",
        Some(BlinkyFsm::HighValueWait) => "State: WAIT_HIGH_VALUE",
        None => "State: Unknown",
    }
}

} // verus!
