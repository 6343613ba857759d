//! Control logic of a small automated teller machine, written as a pure
//! transition function over a machine state and one input event.

pub mod amount;
pub mod atm;
pub mod keypad;
pub mod laws;
