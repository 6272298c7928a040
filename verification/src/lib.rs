//! Control core of a blinking LED with an analog cooldown.
//!
//! The crate holds the decisions of the controller and nothing of the
//! hardware: a three-state machine that reacts to a periodic tick and to
//! analog samples, and the single slot through which the main loop and the
//! interrupt handler reach it. Each step returns the commands that the
//! caller has to carry out on the LED and on the converter, in order.

pub mod blinky_fsm;
pub mod laws;
pub mod shared_state;
