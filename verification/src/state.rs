//! Ownership arbitration for the heater duty cycle.
//!
//! At any moment the heater is either off, driven manually, or driven by a
//! remote that holds a renewable, time-bounded lease. Manual control and
//! switching off are always possible; a remote must first be initialized and
//! must then renew its lease with every accepted duty update, or a periodic
//! monitor expires the lease and shuts the heater off.
//!
//! Policy for uninitialized remotes: a duty update from a remote while the
//! heater is off or under manual control is rejected with
//! [`StateError::RemoteNotInitialized`]; ownership is claimed only through an
//! explicit [`HeaterControlState::transition_to_remote`] call.
//!
//! All functions take the current time as a plain millisecond count, and none
//! of them publishes the new duty value anywhere: the caller broadcasts the
//! accepted duty after releasing whatever lock guards this state, so that no
//! broadcast happens under the lock.

use vstd::prelude::*;

verus! {

/// A remote must check in again within this interval (milliseconds) or its
/// lease expires and the heater shuts off.
pub const REMOTE_CHECKIN_INTERVAL_MS: u64 = 60_000;

/// Period (milliseconds) at which an expired remote lease is looked for.
pub const CHECKIN_EXPIRE_INTERVAL_MS: u64 = 10_000;

/// Who currently controls the heater.
#[derive(Clone, Debug)]
pub enum HeaterState {
    /// Nobody is driving the heater.
    Off,
    /// The heater is being controlled by a remote.
    Remote {
        /// Identifier of the remote that is actively controlling the heater:
        /// a short token of at most eight characters.
        remote_id: String,
        /// The lease runs out at this time (milliseconds); the heater is
        /// turned off automatically if the remote has not been seen by then.
        expires: u64,
    },
    /// The heater is being controlled manually.
    Manual,
}

/// Why a remote duty update was rejected.
#[derive(Clone, Copy, Debug, PartialEq, Eq, Structural)]
pub enum StateError {
    /// No remote has been initialized, so no remote may update the duty.
    RemoteNotInitialized,
    /// Another remote currently owns the heater.
    RemoteMismatch,
    /// The requesting remote failed to check in on time and has expired.
    RemoteExpired,
}

impl StateError {
    /// A human-readable description of the error.
    pub fn message(&self) -> (text: &'static str)
        ensures
            self is RemoteNotInitialized ==> text@ == "no remote has been initialized"@,
            self is RemoteMismatch ==> text@ == "the heater is being controlled by another remote"@,
            self is RemoteExpired ==> text@ == "the remote failed to check in and has expired"@,
    {
        match self {
            StateError::RemoteNotInitialized => "no remote has been initialized",
            StateError::RemoteMismatch => "the heater is being controlled by another remote",
            StateError::RemoteExpired => "the remote failed to check in and has expired",
        }
    }
}

/// Whether a duty update from the remote identified by `id`, arriving at
/// time `now_ms`, is accepted under ownership `state`, and with which error
/// it is rejected otherwise: only an initialized, matching, unexpired remote
/// may update the duty.
pub open spec fn remote_update_decision(state: HeaterState, id: Seq<char>, now_ms: u64) -> Result<
    (),
    StateError,
> {
    match state {
        HeaterState::Off => Err(StateError::RemoteNotInitialized),
        HeaterState::Manual => Err(StateError::RemoteNotInitialized),
        HeaterState::Remote { remote_id, expires } => {
            if remote_id@ != id {
                Err(StateError::RemoteMismatch)
            } else if now_ms >= expires {
                Err(StateError::RemoteExpired)
            } else {
                Ok(())
            }
        },
    }
}

/// The shared control state: the last accepted duty and the current owner.
pub struct HeaterControlState {
    duty: u8,
    state: HeaterState,
}

impl HeaterControlState {
    /// The last duty value this state machine accepted.
    pub closed spec fn spec_duty(&self) -> u8 {
        self.duty
    }

    /// The current ownership.
    pub closed spec fn spec_state(&self) -> HeaterState {
        self.state
    }

    /// Validity: the duty is a percentage and a controlling remote has a
    /// short identifier.
    pub open spec fn wf(&self) -> bool {
        &&& self.spec_duty() <= 100
        &&& (self.spec_state() matches HeaterState::Remote { remote_id, .. } ==> remote_id@.len()
            <= 8)
    }

    /// A fresh state: off, duty zero.
    pub fn new() -> (state: Self)
        ensures
            state.wf(),
            state.spec_state() is Off,
            state.spec_duty() == 0,
    {
        HeaterControlState { duty: 0, state: HeaterState::Off }
    }

    /// Whether a remote currently controls the heater.
    pub fn is_remote(&self) -> (r: bool)
        ensures
            r == (self.spec_state() is Remote),
    {
        matches!(self.state, HeaterState::Remote { .. })
    }

    /// Whether the heater is under manual control.
    pub fn is_manual(&self) -> (r: bool)
        ensures
            r == (self.spec_state() is Manual),
    {
        matches!(self.state, HeaterState::Manual)
    }

    /// Whether the heater is off.
    pub fn is_off(&self) -> (r: bool)
        ensures
            r == (self.spec_state() is Off),
    {
        matches!(self.state, HeaterState::Off)
    }

    /// The last duty value this state machine accepted.
    pub fn duty(&self) -> (duty: u8)
        ensures
            duty == self.spec_duty(),
    {
        self.duty
    }

    /// Returns the ID of the currently controlling remote, if any.
    pub fn remote_id(&self) -> (r: Option<&str>)
        ensures
            match self.spec_state() {
                HeaterState::Remote { remote_id, .. } => r matches Some(id) && id@ == remote_id@,
                _ => r is None,
            },
    {
        if let HeaterState::Remote { remote_id, .. } = &self.state {
            Some(remote_id.as_str())
        } else {
            None
        }
    }

    /// Returns the time at which the current remote lease runs out, if a
    /// remote controls the heater.
    pub fn remote_expires(&self) -> (r: Option<u64>)
        ensures
            match self.spec_state() {
                HeaterState::Remote { expires, .. } => r == Some(expires),
                _ => r is None,
            },
    {
        if let HeaterState::Remote { expires, .. } = &self.state {
            Some(*expires)
        } else {
            None
        }
    }

    /// Transition to Off.
    ///
    /// This transition is always possible. The last accepted duty is kept; a
    /// caller that wants the relay released also broadcasts a duty of zero.
    pub fn transition_to_off(&mut self)
        requires
            old(self).wf(),
        ensures
            final(self).wf(),
            final(self).spec_state() is Off,
            final(self).spec_duty() == old(self).spec_duty(),
    {
        self.state = HeaterState::Off;
    }

    /// Transition to Manual and set a duty cycle.
    ///
    /// This transition is always possible; the duty is accepted
    /// unconditionally. The caller validates the percentage range first and
    /// broadcasts the accepted duty afterwards.
    pub fn transition_to_manual(&mut self, heater_duty: u8)
        requires
            old(self).wf(),
            heater_duty <= 100,
        ensures
            final(self).wf(),
            final(self).spec_state() is Manual,
            final(self).spec_duty() == heater_duty,
    {
        self.duty = heater_duty;
        self.state = HeaterState::Manual;
    }

    /// Hand control to the remote named `remote_id`, overriding any prior
    /// owner, with a fresh lease running until `now_ms` plus the check-in
    /// interval. A previously controlling remote is evicted without notice;
    /// its next update fails.
    pub fn transition_to_remote(&mut self, remote_id: String, now_ms: u64)
        requires
            old(self).wf(),
            remote_id@.len() <= 8,
            now_ms + REMOTE_CHECKIN_INTERVAL_MS <= u64::MAX,
        ensures
            final(self).wf(),
            final(self).spec_state() matches HeaterState::Remote { remote_id: id, expires }
                && id@ == remote_id@ && expires == now_ms + REMOTE_CHECKIN_INTERVAL_MS,
            final(self).spec_duty() == old(self).spec_duty(),
    {
        self.state = HeaterState::Remote {
            remote_id,
            expires: now_ms + REMOTE_CHECKIN_INTERVAL_MS,
        };
    }

    /// Updates the duty cycle set by a remote.
    ///
    /// Succeeds exactly when a remote is initialized, it is the requesting
    /// remote, and its lease has not yet run out (`now_ms` is still before
    /// the expiry time); success records the duty and renews the lease.
    /// Every failure leaves the state unchanged and names its cause. The
    /// caller broadcasts the duty after a success.
    pub fn remote_update_duty(&mut self, remote_id: String, heater_duty: u8, now_ms: u64) -> (result:
        Result<(), StateError>)
        requires
            old(self).wf(),
            heater_duty <= 100,
            now_ms + REMOTE_CHECKIN_INTERVAL_MS <= u64::MAX,
        ensures
            final(self).wf(),
            result == remote_update_decision(old(self).spec_state(), remote_id@, now_ms),
            result is Err ==> *final(self) == *old(self),
            result is Ok ==> final(self).spec_duty() == heater_duty && (final(self).spec_state()
                matches HeaterState::Remote { remote_id: id, expires } && id@ == remote_id@
                && expires == now_ms + REMOTE_CHECKIN_INTERVAL_MS),
    {
        let decision: Result<(), StateError> = match &self.state {
            HeaterState::Off => Err(StateError::RemoteNotInitialized),
            HeaterState::Manual => Err(StateError::RemoteNotInitialized),
            HeaterState::Remote { remote_id: current_remote, expires } => {
                if !(*current_remote == remote_id) {
                    // Another remote is controlling the heater.
                    Err(StateError::RemoteMismatch)
                } else if now_ms >= *expires {
                    // The lease has elapsed; the remote must initialize again.
                    Err(StateError::RemoteExpired)
                } else {
                    Ok(())
                }
            },
        };
        if decision.is_ok() {
            self.duty = heater_duty;
            self.state = HeaterState::Remote {
                remote_id,
                expires: now_ms + REMOTE_CHECKIN_INTERVAL_MS,
            };
        }
        decision
    }
}

impl Default for HeaterControlState {
    /// Same as [`HeaterControlState::new`]: off, duty zero.
    fn default() -> (state: Self)
        ensures
            state.wf(),
            state.spec_state() is Off,
            state.spec_duty() == 0,
    {
        HeaterControlState::new()
    }
}

/// One tick of the lease monitor: if a remote controls the heater and its
/// lease has run out, ownership is reset to Off, the recorded duty is forced
/// to zero, and the expired remote's identifier is returned so the caller can
/// broadcast the zero duty and log a warning. In every other case nothing
/// changes.
pub fn expire_remote(state: &mut HeaterControlState, now_ms: u64) -> (expired: Option<String>)
    requires
        old(state).wf(),
    ensures
        final(state).wf(),
        match old(state).spec_state() {
            HeaterState::Remote { remote_id, expires } => {
                if now_ms >= expires {
                    expired matches Some(id) && id@ == remote_id@ && final(state).spec_state()
                        is Off && final(state).spec_duty() == 0
                } else {
                    expired is None && *final(state) == *old(state)
                }
            },
            _ => expired is None && *final(state) == *old(state),
        },
{
    let expired: Option<String> = match &state.state {
        HeaterState::Remote { remote_id, expires } => {
            if now_ms >= *expires {
                Some(remote_id.clone())
            } else {
                None
            }
        },
        _ => None,
    };
    if expired.is_some() {
        state.duty = 0;
        state.state = HeaterState::Off;
    }
    expired
}

} // verus!
