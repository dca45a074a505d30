//! Telemetry: single-value queries and the refresh that folds them into the
//! drone's state.

use crate::command::{CommandError, Exchange, TelemetryField};
use crate::state::{DroneState, TelemetryData};
use crate::text::{parse_i32, parsed_i32, read_reply};
use vstd::prelude::*;

verus! {

/// The integer that an exchange reports: the trimmed reply read as a decimal
/// number. A fault, or a reply that is no number, reports none.
pub open spec fn reading(outcome: Exchange) -> Option<i32> {
    match outcome.text() {
        Some(text) => parsed_i32(text),
        None => None,
    }
}

/// A mandatory reading, which degrades to zero where it is missing.
pub open spec fn reading_or_zero(outcome: Exchange) -> i32 {
    match reading(outcome) {
        Some(value) => value,
        None => 0,
    }
}

/// Reads the integer that a query's exchange reports.
pub fn query_value(outcome: &Exchange) -> (r: Option<i32>)
    ensures
        r == reading(*outcome),
{
    match outcome {
        Exchange::Reply(bytes) => {
            let text = read_reply(bytes.as_slice());
            parse_i32(text.as_str())
        },
        _ => None,
    }
}

/// Takes in the outcome of a battery query. A reading is recorded in the
/// state and returned; without one the state stays as it was.
pub fn get_battery(drone: &mut DroneState, outcome: Exchange) -> (r: Result<i32, CommandError>)
    ensures
        match r {
            Ok(level) => reading(outcome) == Some(level) && *final(drone) == (DroneState {
                battery: level,
                ..*old(drone)
            }),
            Err(e) => *final(drone) == *old(drone) && if outcome is Reply {
                reading(outcome) is None && e == CommandError::BatteryUnreadable
            } else {
                outcome.fails_with(e)
            },
        },
{
    let value = query_value(&outcome);
    match outcome {
        Exchange::NoSocket => Err(CommandError::NotConnected),
        Exchange::SendFailed(detail) => Err(CommandError::SendFailed(detail)),
        Exchange::ReceiveFailed(detail) => Err(CommandError::Timeout(detail)),
        Exchange::Reply(_) => match value {
            Some(level) => {
                drone.battery = level;
                Ok(level)
            },
            None => Err(CommandError::BatteryUnreadable),
        },
    }
}

/// A reading where there is one, and `fallback` where there is none.
pub open spec fn reading_or(outcome: Exchange, fallback: i32) -> i32 {
    match reading(outcome) {
        Some(value) => value,
        None => fallback,
    }
}

/// The readings of one refresh, in the order in which they are asked for:
/// the six mandatory ones, then the distance to the ground.
pub open spec fn query_sequence() -> Seq<TelemetryField> {
    seq![
        TelemetryField::Battery,
        TelemetryField::Temperature,
        TelemetryField::Height,
        TelemetryField::Pitch,
        TelemetryField::Roll,
        TelemetryField::Yaw,
        TelemetryField::Tof,
    ]
}

/// The readings to ask for, first to last. Each is asked on its own: one
/// send and one bounded receive, before the next goes out.
pub fn query_order() -> (order: [TelemetryField; 7])
    ensures
        order@ == query_sequence(),
{
    let order = [
        TelemetryField::Battery,
        TelemetryField::Temperature,
        TelemetryField::Height,
        TelemetryField::Pitch,
        TelemetryField::Roll,
        TelemetryField::Yaw,
        TelemetryField::Tof,
    ];
    assert(order@ =~= query_sequence());
    order
}

/// The outcomes of the queries of one refresh, each under its reading's
/// name.
#[derive(Clone, Debug, PartialEq, Eq)]
pub struct TelemetryReplies {
    pub battery: Exchange,
    pub temperature: Exchange,
    pub height: Exchange,
    pub pitch: Exchange,
    pub roll: Exchange,
    pub yaw: Exchange,
    pub tof: Exchange,
}

impl TelemetryReplies {
    /// The outcome of the query for `field`.
    pub open spec fn of(&self, field: TelemetryField) -> Exchange {
        match field {
            TelemetryField::Battery => self.battery,
            TelemetryField::Temperature => self.temperature,
            TelemetryField::Height => self.height,
            TelemetryField::Pitch => self.pitch,
            TelemetryField::Roll => self.roll,
            TelemetryField::Yaw => self.yaw,
            TelemetryField::Tof => self.tof,
        }
    }

    /// Files the outcomes of one refresh, given in the order in which the
    /// queries went out, each under the reading that was asked for. There
    /// is one outcome for each query, or nothing is filed.
    pub fn in_order(outcomes: Vec<Exchange>) -> (filed: Option<TelemetryReplies>)
        ensures
            match filed {
                Some(replies) => outcomes@.len() == query_sequence().len() && forall|i: int|
                    0 <= i < outcomes@.len() ==> replies.of(#[trigger] query_sequence()[i])
                        == outcomes@[i],
                None => outcomes@.len() != query_sequence().len(),
            },
    {
        if outcomes.len() != 7 {
            return None;
        }
        let mut rest = outcomes;
        let tof = rest.pop().unwrap();
        let yaw = rest.pop().unwrap();
        let roll = rest.pop().unwrap();
        let pitch = rest.pop().unwrap();
        let height = rest.pop().unwrap();
        let temperature = rest.pop().unwrap();
        let battery = rest.pop().unwrap();
        Some(TelemetryReplies { battery, temperature, height, pitch, roll, yaw, tof })
    }

    /// The snapshot that these outcomes make: each mandatory reading or zero,
    /// and the distance to the ground where it was reported.
    pub open spec fn snapshot(&self) -> TelemetryData {
        TelemetryData {
            battery: reading_or_zero(self.battery),
            temperature: reading_or_zero(self.temperature),
            height: reading_or_zero(self.height),
            pitch: reading_or_zero(self.pitch),
            roll: reading_or_zero(self.roll),
            yaw: reading_or_zero(self.yaw),
            tof: reading(self.tof),
        }
    }

    /// `state` after these outcomes: each of the six mandatory fields holds
    /// its reading where there is one, and what it held before where there
    /// is none. Nothing else changes.
    pub open spec fn refresh(&self, state: DroneState) -> DroneState {
        DroneState {
            battery: reading_or(self.battery, state.battery),
            temperature: reading_or(self.temperature, state.temperature),
            height: reading_or(self.height, state.height),
            pitch: reading_or(self.pitch, state.pitch),
            roll: reading_or(self.roll, state.roll),
            yaw: reading_or(self.yaw, state.yaw),
            ..state
        }
    }
}

fn or_zero(reading: Option<i32>) -> (v: i32)
    ensures
        v == match reading {
            Some(value) => value,
            None => 0,
        },
{
    match reading {
        Some(value) => value,
        None => 0,
    }
}

/// Folds one refresh into the state.
///
/// Without a socket (`replies` is `None`) the refresh fails and the state
/// stays as it was. Otherwise it never fails. The snapshot that is returned
/// holds zero for a mandatory reading that went wrong, and no distance where
/// none was reported. The state takes in the readings that there are: a
/// field whose query went wrong keeps what it held.
pub fn get_telemetry(drone: &mut DroneState, replies: Option<&TelemetryReplies>) -> (r: Result<
    TelemetryData,
    CommandError,
>)
    ensures
        match replies {
            Some(given) => r == Ok::<TelemetryData, CommandError>(given.snapshot())
                && *final(drone) == given.refresh(*old(drone)),
            None => r == Err::<TelemetryData, CommandError>(CommandError::TelemetryUnavailable)
                && *final(drone) == *old(drone),
        },
{
    match replies {
        None => Err(CommandError::TelemetryUnavailable),
        Some(given) => {
            let battery = query_value(&given.battery);
            let temperature = query_value(&given.temperature);
            let height = query_value(&given.height);
            let pitch = query_value(&given.pitch);
            let roll = query_value(&given.roll);
            let yaw = query_value(&given.yaw);
            let tof = query_value(&given.tof);
            if let Some(value) = battery {
                drone.battery = value;
            }
            if let Some(value) = temperature {
                drone.temperature = value;
            }
            if let Some(value) = height {
                drone.height = value;
            }
            if let Some(value) = pitch {
                drone.pitch = value;
            }
            if let Some(value) = roll {
                drone.roll = value;
            }
            if let Some(value) = yaw {
                drone.yaw = value;
            }
            Ok(
                TelemetryData {
                    battery: or_zero(battery),
                    temperature: or_zero(temperature),
                    height: or_zero(height),
                    pitch: or_zero(pitch),
                    roll: or_zero(roll),
                    yaw: or_zero(yaw),
                    tof,
                },
            )
        },
    }
}

} // verus!
