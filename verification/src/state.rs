//! The last-known state of the drone and the values that exchanges yield.

use vstd::prelude::*;

verus! {

/// Speed setting, in cm/s, that a fresh connection starts with.
pub const DEFAULT_SPEED: i32 = 50;

/// Last-known telemetry and the connection and flight flags.
///
/// Every field is a best-effort snapshot, refreshed on its own by whichever
/// exchange last succeeded.
#[derive(Clone, Copy, Debug, PartialEq, Eq, Structural)]
pub struct DroneState {
    pub connected: bool,
    pub flying: bool,
    pub battery: i32,
    pub temperature: i32,
    pub height: i32,
    pub pitch: i32,
    pub roll: i32,
    pub yaw: i32,
    pub speed: i32,
    pub video_active: bool,
}

impl DroneState {
    /// The state before any exchange: not connected, on the ground, every
    /// reading zero.
    pub open spec fn initial() -> DroneState {
        DroneState {
            connected: false,
            flying: false,
            battery: 0,
            temperature: 0,
            height: 0,
            pitch: 0,
            roll: 0,
            yaw: 0,
            speed: 0,
            video_active: false,
        }
    }

    /// A state with nothing known yet.
    pub fn new() -> (s: DroneState)
        ensures
            s == DroneState::initial(),
    {
        DroneState {
            connected: false,
            flying: false,
            battery: 0,
            temperature: 0,
            height: 0,
            pitch: 0,
            roll: 0,
            yaw: 0,
            speed: 0,
            video_active: false,
        }
    }
}

impl DroneState {
    /// A copy of the state as it is now. Its fields were refreshed at
    /// different times and need not be consistent with each other.
    pub fn snapshot(&self) -> (copy: DroneState)
        ensures
            copy == *self,
    {
        *self
    }
}

impl Default for DroneState {
    fn default() -> (s: DroneState)
        ensures
            s == DroneState::initial(),
    {
        DroneState::new()
    }
}

/// What one command exchange came to.
#[derive(Clone, Debug, PartialEq, Eq)]
pub struct CommandResult {
    /// Whether the drone acknowledged.
    pub success: bool,
    /// The reply, trimmed, or a note from this library.
    pub message: String,
}

/// A stick vector for continuous control, each axis in the drone's own unit.
#[derive(Clone, Copy, Debug, PartialEq, Eq, Structural)]
pub struct RCControl {
    pub left_right: i32,
    pub forward_back: i32,
    pub up_down: i32,
    pub yaw: i32,
}

/// One telemetry refresh.
#[derive(Clone, Copy, Debug, PartialEq, Eq, Structural)]
pub struct TelemetryData {
    pub battery: i32,
    pub temperature: i32,
    pub height: i32,
    pub pitch: i32,
    pub roll: i32,
    pub yaw: i32,
    /// Distance to the ground, where the drone reported one.
    pub tof: Option<i32>,
}

} // verus!
