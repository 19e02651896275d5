//! A verified core for a DMX512-over-UDP bridge.
//!
//! The library holds the logic of the bridge: the DMX frame buffer and its
//! update policy, the serial-configuration planning (termios flag
//! computation, custom-divisor arithmetic, and the reversal record that
//! teardown replays), the transmit step sequence with its break timing, and
//! the dispatcher state machine that turns readiness events into actions.
//! The surrounding binary performs the actual system calls and feeds plain
//! values in and out of these functions.

pub mod config;
pub mod dispatch;
pub mod errors;
pub mod frame;
pub mod transmit;
