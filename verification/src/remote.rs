//! The remote-control protocol, as plain values.
//!
//! A remote talks to the controller through short requests — a ping, an
//! initialization naming the remote, or a duty update — and receives either
//! an acknowledgement or a structured error. The wire encoding (JSON over
//! HTTP, or an MQTT topic) is the transport adapter's business; this module
//! dispatches an already decoded request against the ownership state machine
//! and reports which duty value, if any, the caller must broadcast to the
//! scheduler afterwards.

use crate::state::HeaterControlState;
use crate::state::HeaterState;
use crate::state::REMOTE_CHECKIN_INTERVAL_MS;
use crate::state::StateError;
use crate::state::remote_update_decision;
use vstd::prelude::*;

verus! {

/// A request from a remote. The identifier is a short token of at most
/// eight characters.
#[derive(Clone, Debug)]
pub enum RemoteControlRequest {
    /// Liveness probe; changes nothing.
    Ping,
    /// Claim control of the heater under the given identifier.
    Init { id: String },
    /// Update the duty cycle, renewing the lease of the named remote.
    UpdateDuty { id: String, duty: u8 },
}

/// The controller's answer to a remote request.
#[derive(Clone, Copy, Debug, PartialEq, Eq, Structural)]
pub enum RemoteControlResponse {
    /// The request was accepted.
    Accepted,
    /// The request was rejected; the payload names the cause.
    Rejected(StateError),
}

/// Whether every byte of `text` is an ASCII decimal digit.
pub open spec fn all_decimal_digits(text: Seq<u8>) -> bool {
    forall|i: int| 0 <= i < text.len() ==> 48 <= #[trigger] text[i] <= 57
}

/// Numeric value of a string of ASCII decimal digits.
pub open spec fn decimal_value(digits: Seq<u8>) -> int
    decreases digits.len(),
{
    if digits.len() == 0 {
        0
    } else {
        decimal_value(digits.drop_last()) * 10 + (digits.last() - 48)
    }
}

/// Once a prefix of a digit string exceeds 100, the whole string does too.
proof fn lemma_decimal_value_grows(text: Seq<u8>, k: int)
    requires
        0 <= k <= text.len(),
        all_decimal_digits(text),
        decimal_value(text.take(k)) > 100,
    ensures
        decimal_value(text) > 100,
    decreases text.len() - k,
{
    if k < text.len() {
        assert(text.take(k + 1).drop_last() =~= text.take(k));
        assert(text.take(k + 1).last() == text[k]);
        lemma_decimal_value_grows(text, k + 1);
    } else {
        assert(text.take(k) =~= text);
    }
}

/// Reads a duty percentage from the text the command sources carry: the
/// bytes must be decimal digits spelling a value of at most 100. Anything
/// else — an empty string, a stray character, a value out of range — is
/// rejected, so out-of-range input never reaches the pattern generator.
pub fn parse_duty(text: &[u8]) -> (duty: Option<u8>)
    ensures
        match duty {
            Some(value) => {
                &&& text@.len() > 0
                &&& all_decimal_digits(text@)
                &&& value == decimal_value(text@)
                &&& value <= 100
            },
            None => text@.len() == 0 || !all_decimal_digits(text@) || decimal_value(text@) > 100,
        },
{
    if text.len() == 0 {
        return None;
    }
    let mut value: u32 = 0;
    let mut i: usize = 0;
    while i < text.len()
        invariant
            0 < text@.len(),
            i <= text@.len(),
            all_decimal_digits(text@.take(i as int)),
            value == decimal_value(text@.take(i as int)),
            value <= 100,
        decreases text@.len() - i,
    {
        let byte: u8 = text[i];
        if byte < 48 || byte > 57 {
            return None;
        }
        let grown: u32 = value * 10 + (byte - 48) as u32;
        proof {
            assert(text@.take(i as int + 1).drop_last() =~= text@.take(i as int));
            assert(text@.take(i as int + 1).last() == text@[i as int]);
            assert(all_decimal_digits(text@.take(i as int + 1)));
        }
        if grown > 100 {
            proof {
                if all_decimal_digits(text@) {
                    lemma_decimal_value_grows(text@, i as int + 1);
                }
            }
            return None;
        }
        value = grown;
        i = i + 1;
    }
    proof {
        assert(text@.take(i as int) =~= text@);
    }
    Some(value as u8)
}

/// Looks up the first name/value pair carrying the given name, as a message
/// transport hands them over: this is how a duty update announces that its
/// sender is a remote rather than a manual control surface.
pub fn find_user_property<'a>(
    properties: &'a Vec<(String, String)>,
    name: &String,
) -> (found: Option<&'a (String, String)>)
    ensures
        match found {
            Some(pair) => exists|i: int|
                0 <= i < properties@.len() && properties@[i] == *pair && properties@[i].0@ == name@
                    && (forall|j: int| 0 <= j < i ==> properties@[j].0@ != name@),
            None => forall|i: int| 0 <= i < properties@.len() ==> properties@[i].0@ != name@,
        },
{
    let mut i: usize = 0;
    while i < properties.len()
        invariant
            i <= properties@.len(),
            forall|j: int| 0 <= j < i ==> properties@[j].0@ != name@,
        decreases properties@.len() - i,
    {
        if properties[i].0 == *name {
            return Some(&properties[i]);
        }
        i = i + 1;
    }
    None
}

/// Dispatches one decoded remote request against the ownership state.
///
/// Returns the response to send back and, where a duty update was accepted,
/// the duty value the caller must broadcast to the scheduler after releasing
/// the state lock. A ping changes nothing; an initialization always claims
/// control for the named remote; a duty update succeeds exactly when that
/// remote is the initialized, unexpired owner.
pub fn handle_remote_request(
    state: &mut HeaterControlState,
    request: RemoteControlRequest,
    now_ms: u64,
) -> (outcome: (RemoteControlResponse, Option<u8>))
    requires
        old(state).wf(),
        now_ms + REMOTE_CHECKIN_INTERVAL_MS <= u64::MAX,
        request matches RemoteControlRequest::Init { id } ==> id@.len() <= 8,
        request matches RemoteControlRequest::UpdateDuty { id, duty } ==> id@.len() <= 8 && duty
            <= 100,
    ensures
        final(state).wf(),
        match request {
            RemoteControlRequest::Ping => {
                &&& outcome.0 is Accepted
                &&& outcome.1 is None
                &&& *final(state) == *old(state)
            },
            RemoteControlRequest::Init { id } => {
                &&& outcome.0 is Accepted
                &&& outcome.1 is None
                &&& final(state).spec_duty() == old(state).spec_duty()
                &&& final(state).spec_state() matches HeaterState::Remote { remote_id, expires }
                    && remote_id@ == id@ && expires == now_ms + REMOTE_CHECKIN_INTERVAL_MS
            },
            RemoteControlRequest::UpdateDuty { id, duty } => {
                match remote_update_decision(old(state).spec_state(), id@, now_ms) {
                    Ok(()) => {
                        &&& outcome.0 is Accepted
                        &&& outcome.1 == Some(duty)
                        &&& final(state).spec_duty() == duty
                        &&& final(state).spec_state() matches HeaterState::Remote {
                            remote_id,
                            expires,
                        } && remote_id@ == id@ && expires == now_ms + REMOTE_CHECKIN_INTERVAL_MS
                    },
                    Err(cause) => {
                        &&& outcome.0 == RemoteControlResponse::Rejected(cause)
                        &&& outcome.1 is None
                        &&& *final(state) == *old(state)
                    },
                }
            },
        },
{
    match request {
        RemoteControlRequest::Ping => (RemoteControlResponse::Accepted, None),
        RemoteControlRequest::Init { id } => {
            state.transition_to_remote(id, now_ms);
            (RemoteControlResponse::Accepted, None)
        },
        RemoteControlRequest::UpdateDuty { id, duty } => {
            match state.remote_update_duty(id, duty, now_ms) {
                Ok(()) => (RemoteControlResponse::Accepted, Some(duty)),
                Err(cause) => (RemoteControlResponse::Rejected(cause), None),
            }
        },
    }
}

} // verus!
