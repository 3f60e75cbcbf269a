//! Core logic of a duty-cycle heater controller driving a solid-state relay.
//!
//! The crate holds the pure, verified part of the controller: the generator
//! that turns a duty percentage into an evenly distributed on/off switching
//! pattern, the ownership state machine that arbitrates who may set the duty
//! (local/manual control versus a remote holding a renewable lease), the
//! scheduler state that walks the active pattern and reacts to lock/unlock
//! commands and duty updates, the temperature hysteresis policy that issues
//! those commands, and the in-memory log store. All I/O — timers, the relay
//! pin, the network and the sensor bus — stays outside; callers pass plain
//! values (the current time in milliseconds, temperature readings) in and
//! carry the returned decisions out.

pub mod futures;
pub mod memlog;
pub mod pattern;
pub mod remote;
pub mod ssr_control;
pub mod state;
pub mod temp_sensor;
