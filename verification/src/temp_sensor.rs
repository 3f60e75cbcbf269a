//! Temperature-driven safety policy for the relay scheduler.
//!
//! The sensor bus is the caller's business; each successful reading is handed
//! in here as a plain temperature in hundredths of a degree Celsius. The
//! policy locks the scheduler when a reading reaches the high threshold and
//! unlocks it only once a reading falls below a distinct, lower threshold:
//! the gap between the two keeps the relay from chattering around a single
//! boundary. A failed reading never changes anything, so the controller errs
//! toward the last known safety state.

use crate::ssr_control::SsrCommand;
use vstd::prelude::*;

verus! {

/// Readings at or above this temperature (hundredths of a degree Celsius)
/// lock the relay.
pub const TEMP_LIMIT_HIGH_CENTI: i32 = 7000;

/// Once locked, only a reading below this temperature (hundredths of a
/// degree Celsius) unlocks the relay again.
pub const TEMP_LIMIT_LOW_CENTI: i32 = 3000;

/// Whether the monitor considers the temperature exceeded after seeing the
/// reading `t`, starting from state `exceeded`.
pub open spec fn hysteresis_next(exceeded: bool, t: int) -> bool {
    if exceeded && t < TEMP_LIMIT_LOW_CENTI {
        false
    } else if !exceeded && t >= TEMP_LIMIT_HIGH_CENTI {
        true
    } else {
        exceeded
    }
}

/// The command the monitor issues on seeing the reading `t` in state
/// `exceeded`: a command goes out exactly when the state flips.
pub open spec fn hysteresis_command(exceeded: bool, t: int) -> Option<SsrCommand> {
    if exceeded && t < TEMP_LIMIT_LOW_CENTI {
        Some(SsrCommand::Unlock)
    } else if !exceeded && t >= TEMP_LIMIT_HIGH_CENTI {
        Some(SsrCommand::Lock)
    } else {
        None
    }
}

/// The hysteresis state: whether the last lock-relevant reading left the
/// temperature exceeded.
pub struct SafetyMonitor {
    temperature_exceeded: bool,
}

impl SafetyMonitor {
    /// Whether the monitor currently considers the temperature exceeded.
    pub closed spec fn spec_exceeded(&self) -> bool {
        self.temperature_exceeded
    }

    /// A fresh monitor: the temperature is not considered exceeded.
    pub fn new() -> (monitor: Self)
        ensures
            !monitor.spec_exceeded(),
    {
        SafetyMonitor { temperature_exceeded: false }
    }

    /// Whether the monitor currently considers the temperature exceeded.
    pub fn temperature_exceeded(&self) -> (exceeded: bool)
        ensures
            exceeded == self.spec_exceeded(),
    {
        self.temperature_exceeded
    }

    /// Evaluates one successful temperature reading, in hundredths of a
    /// degree Celsius, and returns the lock or unlock command to send, if
    /// any. Crossing the high threshold issues exactly one Lock until the
    /// temperature has come back below the low threshold; readings between
    /// the thresholds change nothing.
    pub fn on_reading(&mut self, temperature_centi: i32) -> (command: Option<SsrCommand>)
        ensures
            final(self).spec_exceeded() == hysteresis_next(
                old(self).spec_exceeded(),
                temperature_centi as int,
            ),
            command == hysteresis_command(old(self).spec_exceeded(), temperature_centi as int),
    {
        if self.temperature_exceeded && temperature_centi < TEMP_LIMIT_LOW_CENTI {
            self.temperature_exceeded = false;
            Some(SsrCommand::Unlock)
        } else if !self.temperature_exceeded && temperature_centi >= TEMP_LIMIT_HIGH_CENTI {
            self.temperature_exceeded = true;
            Some(SsrCommand::Lock)
        } else {
            None
        }
    }

    /// Evaluates the outcome of one measurement attempt. A successful
    /// reading is handled as by [`Self::on_reading`]; a failed reading
    /// (`None`) changes nothing and issues no command.
    pub fn on_sample(&mut self, reading: Option<i32>) -> (command: Option<SsrCommand>)
        ensures
            match reading {
                Some(t) => final(self).spec_exceeded() == hysteresis_next(
                    old(self).spec_exceeded(),
                    t as int,
                ) && command == hysteresis_command(old(self).spec_exceeded(), t as int),
                None => final(self).spec_exceeded() == old(self).spec_exceeded() && command
                    is None,
            },
    {
        match reading {
            Some(temperature_centi) => self.on_reading(temperature_centi),
            None => None,
        }
    }
}

} // verus!
