//! Commands of the wire protocol, and what an exchange with the drone
//! yields.

use crate::state::{CommandResult, DroneState, RCControl};
use crate::text::{
    append_decimal, decimal_text, is_ok, lemma_decoded_text_of_utf8, ok_token, read_reply,
    reply_text, trimmed,
};
use vstd::prelude::*;

verus! {

/// A single-value telemetry reading that the drone answers by a query.
#[derive(Clone, Copy, Debug, PartialEq, Eq, Structural)]
pub enum TelemetryField {
    Battery,
    Temperature,
    Height,
    Pitch,
    Roll,
    Yaw,
    /// Distance to the ground; not every firmware answers it.
    Tof,
}

/// A command or query, before it is put on the wire.
#[derive(Clone, Debug, PartialEq, Eq)]
pub enum Command {
    /// Switches the drone into command-accepting mode.
    CommandMode,
    Takeoff,
    Land,
    Emergency,
    StreamOn,
    StreamOff,
    /// Sets the speed, in cm/s.
    Speed(i32),
    /// Flips in the direction that the text names.
    Flip(String),
    /// One sample of a continuous control stream.
    Rc(RCControl),
    /// Sets the video bitrate.
    Bitrate(i32),
    /// Asks for one reading.
    Query(TelemetryField),
    /// Text that the caller wrote.
    Raw(String),
}

impl TelemetryField {
    /// The query that asks for this reading.
    pub open spec fn query_text(self) -> Seq<char> {
        match self {
            TelemetryField::Battery => "battery?"@,
            TelemetryField::Temperature => "temp?"@,
            TelemetryField::Height => "height?"@,
            TelemetryField::Pitch => "pitch?"@,
            TelemetryField::Roll => "roll?"@,
            TelemetryField::Yaw => "yaw?"@,
            TelemetryField::Tof => "tof?"@,
        }
    }
}

impl Command {
    /// The text that goes on the wire for this command.
    pub open spec fn text(&self) -> Seq<char> {
        match self {
            Command::CommandMode => "command"@,
            Command::Takeoff => "takeoff"@,
            Command::Land => "land"@,
            Command::Emergency => "emergency"@,
            Command::StreamOn => "streamon"@,
            Command::StreamOff => "streamoff"@,
            Command::Speed(n) => "speed "@ + decimal_text(*n as int),
            Command::Flip(direction) => "flip "@ + direction@,
            Command::Rc(c) => "rc "@ + decimal_text(c.left_right as int) + " "@ + decimal_text(
                c.forward_back as int,
            ) + " "@ + decimal_text(c.up_down as int) + " "@ + decimal_text(c.yaw as int),
            Command::Bitrate(n) => "setbitrate "@ + decimal_text(*n as int),
            Command::Query(field) => field.query_text(),
            Command::Raw(text) => text@,
        }
    }

    /// Writes the command as it is sent.
    pub fn wire_text(&self) -> (s: String)
        ensures
            s@ == self.text(),
    {
        match self {
            Command::CommandMode => String::from_str("command"),
            Command::Takeoff => String::from_str("takeoff"),
            Command::Land => String::from_str("land"),
            Command::Emergency => String::from_str("emergency"),
            Command::StreamOn => String::from_str("streamon"),
            Command::StreamOff => String::from_str("streamoff"),
            Command::Speed(n) => {
                let mut s = String::from_str("speed ");
                append_decimal(&mut s, *n);
                s
            },
            Command::Flip(direction) => {
                let mut s = String::from_str("flip ");
                s.append(direction.as_str());
                s
            },
            Command::Rc(c) => {
                let mut s = String::from_str("rc ");
                append_decimal(&mut s, c.left_right);
                s.append(" ");
                append_decimal(&mut s, c.forward_back);
                s.append(" ");
                append_decimal(&mut s, c.up_down);
                s.append(" ");
                append_decimal(&mut s, c.yaw);
                s
            },
            Command::Bitrate(n) => {
                let mut s = String::from_str("setbitrate ");
                append_decimal(&mut s, *n);
                s
            },
            Command::Query(field) => match field {
                TelemetryField::Battery => String::from_str("battery?"),
                TelemetryField::Temperature => String::from_str("temp?"),
                TelemetryField::Height => String::from_str("height?"),
                TelemetryField::Pitch => String::from_str("pitch?"),
                TelemetryField::Roll => String::from_str("roll?"),
                TelemetryField::Yaw => String::from_str("yaw?"),
                TelemetryField::Tof => String::from_str("tof?"),
            },
            Command::Raw(text) => text.clone(),
        }
    }
}

/// How one send-then-receive on the command socket went.
#[derive(Clone, Debug, PartialEq, Eq)]
pub enum Exchange {
    /// There was no socket: nothing was sent.
    NoSocket,
    /// The send failed; the text describes the fault.
    SendFailed(String),
    /// No datagram came before the timeout, or the receive failed.
    ReceiveFailed(String),
    /// The payload of the datagram that came back.
    Reply(Vec<u8>),
}

/// Why an exchange yields no result.
#[derive(Clone, Debug, PartialEq, Eq)]
pub enum CommandError {
    NotConnected,
    SendFailed(String),
    Timeout(String),
    /// The reply to a battery query is no integer.
    BatteryUnreadable,
    /// A telemetry refresh was asked for without a socket.
    TelemetryUnavailable,
}

impl CommandError {
    /// The description shown to the user.
    pub open spec fn text(&self) -> Seq<char> {
        match self {
            CommandError::NotConnected => "Not connected to drone"@,
            CommandError::SendFailed(detail) => "Send failed: "@ + detail@,
            CommandError::Timeout(detail) => "Command timeout: "@ + detail@,
            CommandError::BatteryUnreadable => "Failed to parse battery"@,
            CommandError::TelemetryUnavailable => "Not connected"@,
        }
    }

    /// Describes the error for the user.
    pub fn message(&self) -> (s: String)
        ensures
            s@ == self.text(),
    {
        match self {
            CommandError::NotConnected => String::from_str("Not connected to drone"),
            CommandError::SendFailed(detail) => {
                let mut s = String::from_str("Send failed: ");
                s.append(detail.as_str());
                s
            },
            CommandError::Timeout(detail) => {
                let mut s = String::from_str("Command timeout: ");
                s.append(detail.as_str());
                s
            },
            CommandError::BatteryUnreadable => String::from_str("Failed to parse battery"),
            CommandError::TelemetryUnavailable => String::from_str("Not connected"),
        }
    }
}

impl Exchange {
    /// The trimmed text of the reply, where one came.
    pub open spec fn text(&self) -> Option<Seq<char>> {
        match self {
            Exchange::Reply(bytes) => Some(reply_text(bytes@)),
            _ => None,
        }
    }

    /// Whether the drone answered with the acknowledgement token, letter for
    /// letter.
    pub open spec fn acknowledged(&self) -> bool {
        self.text() == Some(ok_token())
    }

    /// Whether `e` is the error that this outcome stands for.
    pub open spec fn fails_with(&self, e: CommandError) -> bool {
        match (self, e) {
            (Exchange::NoSocket, CommandError::NotConnected) => true,
            (Exchange::SendFailed(d), CommandError::SendFailed(x)) => x@ == d@,
            (Exchange::ReceiveFailed(d), CommandError::Timeout(x)) => x@ == d@,
            _ => false,
        }
    }

    /// Whether `r` is what this outcome yields: for a reply, its trimmed text
    /// and whether it acknowledges; otherwise the error of the fault.
    pub open spec fn yields(&self, r: Result<CommandResult, CommandError>) -> bool {
        match r {
            Ok(result) => self.text() == Some(result.message@) && result.success
                == self.acknowledged(),
            Err(e) => self.fails_with(e),
        }
    }
}

/// A reply that carries text as UTF-8 reads as that text, trimmed: it
/// acknowledges exactly where the trimmed text is `ok`.
pub proof fn lemma_reply_of_text(payload: Vec<u8>, text: Seq<char>)
    requires
        payload@ == vstd::utf8::encode_utf8(text),
    ensures
        Exchange::Reply(payload).text() == Some(trimmed(text)),
        Exchange::Reply(payload).acknowledged() == (trimmed(text) == ok_token()),
{
    lemma_decoded_text_of_utf8(text);
}

/// Reads the outcome of one exchange.
///
/// A reply always gives a result, whose message is the trimmed reply and
/// whose success says that the reply was exactly `ok`. A fault is reported and
/// never retried.
pub fn send_command(outcome: Exchange) -> (r: Result<CommandResult, CommandError>)
    ensures
        outcome.yields(r),
{
    match outcome {
        Exchange::NoSocket => Err(CommandError::NotConnected),
        Exchange::SendFailed(detail) => Err(CommandError::SendFailed(detail)),
        Exchange::ReceiveFailed(detail) => Err(CommandError::Timeout(detail)),
        Exchange::Reply(bytes) => {
            let message = read_reply(bytes.as_slice());
            let success = is_ok(message.as_str());
            Ok(CommandResult { success, message })
        },
    }
}

/// Takes in the outcome of a `takeoff` command: the drone counts as flying
/// once it has acknowledged.
pub fn takeoff(drone: &mut DroneState, outcome: Exchange) -> (r: Result<
    CommandResult,
    CommandError,
>)
    ensures
        outcome.yields(r),
        *final(drone) == if outcome.acknowledged() {
            (DroneState { flying: true, ..*old(drone) })
        } else {
            *old(drone)
        },
{
    let result = send_command(outcome)?;
    if result.success {
        drone.flying = true;
    }
    Ok(result)
}

/// Takes in the outcome of a `land` command: the drone counts as landed once
/// it has acknowledged.
pub fn land(drone: &mut DroneState, outcome: Exchange) -> (r: Result<CommandResult, CommandError>)
    ensures
        outcome.yields(r),
        *final(drone) == if outcome.acknowledged() {
            (DroneState { flying: false, ..*old(drone) })
        } else {
            *old(drone)
        },
{
    let result = send_command(outcome)?;
    if result.success {
        drone.flying = false;
    }
    Ok(result)
}

/// Takes in the outcome of an `emergency` command: the drone counts as down
/// once it has acknowledged.
pub fn emergency(drone: &mut DroneState, outcome: Exchange) -> (r: Result<
    CommandResult,
    CommandError,
>)
    ensures
        outcome.yields(r),
        *final(drone) == if outcome.acknowledged() {
            (DroneState { flying: false, ..*old(drone) })
        } else {
            *old(drone)
        },
{
    let result = send_command(outcome)?;
    if result.success {
        drone.flying = false;
    }
    Ok(result)
}

/// Takes in the outcome of a `speed` command: the setting is recorded once
/// the drone has acknowledged it.
pub fn set_speed(drone: &mut DroneState, speed: i32, outcome: Exchange) -> (r: Result<
    CommandResult,
    CommandError,
>)
    ensures
        outcome.yields(r),
        *final(drone) == if outcome.acknowledged() {
            (DroneState { speed, ..*old(drone) })
        } else {
            *old(drone)
        },
{
    let result = send_command(outcome)?;
    if result.success {
        drone.speed = speed;
    }
    Ok(result)
}

/// Takes in the outcome of a stick sample. Continuous control tolerates a
/// dropped sample, so no fault is reported.
pub fn send_rc_control(outcome: Exchange) -> (r: Result<(), CommandError>)
    ensures
        r == Ok::<(), CommandError>(()),
{
    let _ = send_command(outcome);
    Ok(())
}

} // verus!
