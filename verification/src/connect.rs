//! Setting up and tearing down the session: the network check, the
//! handshake with its bounded retries, and the disconnect that always
//! succeeds.

use crate::command::Exchange;
use crate::state::{CommandResult, DroneState, DEFAULT_SPEED};
use crate::text::{
    append_natural, contains, decode, decoded_text, find, is_ok_any_case, is_ok_ignoring_case,
    natural_text, occurs_at, read_reply,
};
use vstd::prelude::*;

verus! {

/// Address of the drone on its own network.
pub const DRONE_HOST: &'static str = "192.168.10.1";

/// Port of the command socket, on the drone and on this host alike.
pub const COMMAND_PORT: u16 = 8889;

/// Read timeout of the command socket, in milliseconds.
pub const COMMAND_READ_TIMEOUT_MS: u64 = 5000;

/// Pause after an old command socket was released and before the port is
/// bound again, in milliseconds.
pub const RELEASE_DELAY_MS: u64 = 100;

/// Pause between two handshake attempts, in milliseconds.
pub const RETRY_DELAY_MS: u64 = 300;

/// Pause after a landing was asked for at disconnect, in milliseconds.
pub const LAND_SETTLE_MS: u64 = 2000;

/// Handshake attempts before the connection is given up.
pub const MAX_ATTEMPTS: u32 = 3;

/// What most often keeps the drone from answering: it has no power, the
/// host is on another network, or another client holds the drone.
pub const LIKELY_CAUSES: &'static str =
    " Make sure:\n1. Drone is powered on\n2. You're connected to TELLO-XXXXXX WiFi\n3. No other apps are using the drone";

/// Why a connection was not made.
#[derive(Clone, Debug, PartialEq, Eq)]
pub enum ConnectError {
    /// The host has no address in the drone's subnet.
    WrongNetwork,
    /// The command port could not be bound.
    BindFailed(String),
    /// The read timeout could not be set.
    TimeoutNotSet(String),
    /// The handshake could not be sent.
    SendFailed(String),
    /// The attempts are used up, so many of them, and the last went
    /// unanswered.
    NoResponse(u32),
    /// The attempts are used up, so many of them, and the last was answered,
    /// but not with an acknowledgement.
    UnexpectedResponse(u32),
}

impl ConnectError {
    /// Whether the connection was given up because the attempts were used
    /// up.
    pub open spec fn exhausted(&self) -> bool {
        self is NoResponse || self is UnexpectedResponse
    }

    /// The description shown to the user, with the likely causes.
    pub open spec fn text(&self) -> Seq<char> {
        match self {
            ConnectError::WrongNetwork =>
                "Not connected to Tello WiFi network. Please connect to TELLO-XXXXXX WiFi and try again."@,
            ConnectError::BindFailed(detail) => "Failed to bind socket: "@ + detail@
                + ". Port 8889 may be in use. Close other Tello apps and try again."@,
            ConnectError::TimeoutNotSet(detail) => "Failed to set timeout: "@ + detail@,
            ConnectError::SendFailed(detail) => "Failed to send command: "@ + detail@,
            ConnectError::NoResponse(attempts) => "No response from drone after "@ + natural_text(
                *attempts as nat,
            ) + " attempts."@ + LIKELY_CAUSES@,
            ConnectError::UnexpectedResponse(attempts) =>
                "Failed to get valid response from drone after "@ + natural_text(
                    *attempts as nat,
                ) + " attempts."@ + LIKELY_CAUSES@,
        }
    }

    /// Describes the error for the user.
    pub fn message(&self) -> (s: String)
        ensures
            s@ == self.text(),
    {
        match self {
            ConnectError::WrongNetwork => String::from_str(
                "Not connected to Tello WiFi network. Please connect to TELLO-XXXXXX WiFi and try again.",
            ),
            ConnectError::BindFailed(detail) => {
                let mut s = String::from_str("Failed to bind socket: ");
                s.append(detail.as_str());
                s.append(". Port 8889 may be in use. Close other Tello apps and try again.");
                s
            },
            ConnectError::TimeoutNotSet(detail) => {
                let mut s = String::from_str("Failed to set timeout: ");
                s.append(detail.as_str());
                s
            },
            ConnectError::SendFailed(detail) => {
                let mut s = String::from_str("Failed to send command: ");
                s.append(detail.as_str());
                s
            },
            ConnectError::NoResponse(attempts) => {
                let mut s = String::from_str("No response from drone after ");
                append_natural(&mut s, *attempts);
                s.append(" attempts.");
                s.append(LIKELY_CAUSES);
                s
            },
            ConnectError::UnexpectedResponse(attempts) => {
                let mut s = String::from_str("Failed to get valid response from drone after ");
                append_natural(&mut s, *attempts);
                s.append(" attempts.");
                s.append(LIKELY_CAUSES);
                s
            },
        }
    }
}

/// However the attempts were used up, by silence or by replies that do not
/// acknowledge, the description ends with the list of likely causes.
pub proof fn lemma_exhausted_text_lists_causes(e: ConnectError)
    requires
        e.exhausted(),
    ensures
        e.text().len() >= LIKELY_CAUSES@.len(),
        e.text().skip(e.text().len() - LIKELY_CAUSES@.len()) == LIKELY_CAUSES@,
        contains(e.text(), LIKELY_CAUSES@),
{
    let text = e.text();
    let start = text.len() - LIKELY_CAUSES@.len();
    assert(text.skip(start) =~= LIKELY_CAUSES@);
    assert(text.subrange(start, start + LIKELY_CAUSES@.len()) =~= LIKELY_CAUSES@);
    assert(occurs_at(text, LIKELY_CAUSES@, start));
}

/// The prefix of every address in the drone's subnet.
pub open spec fn subnet_prefix() -> Seq<char> {
    "192.168.10."@
}

/// Whether a report of the host's network configuration shows an address in
/// the drone's subnet.
pub open spec fn on_drone_network(report: Seq<u8>) -> bool {
    contains(decoded_text(report), subnet_prefix())
}

/// Judges the host's network before any socket is touched.
///
/// `report` is what an inspection of the host's network configuration
/// printed, or `None` where the host offers no such inspection. Only a
/// report that shows no address in the drone's subnet stops the connection;
/// without a report it goes on.
pub fn check_network(report: Option<&[u8]>) -> (r: Result<(), ConnectError>)
    ensures
        match report {
            Some(bytes) if !on_drone_network(bytes@) => r == Err::<(), ConnectError>(
                ConnectError::WrongNetwork,
            ),
            _ => r is Ok,
        },
{
    match report {
        Some(bytes) => {
            let text = decode(bytes);
            if find(text.as_str(), "192.168.10.") {
                Ok(())
            } else {
                Err(ConnectError::WrongNetwork)
            }
        },
        None => Ok(()),
    }
}

/// Why the command socket could not be made ready.
#[derive(Clone, Debug, PartialEq, Eq)]
pub enum OpenFault {
    /// Binding the port failed; the text describes the fault.
    Bind(String),
    /// The socket was bound, but its read timeout could not be set.
    ReadTimeout(String),
}

/// A handshake in progress on a freshly bound command socket.
#[derive(Debug)]
pub struct Handshake {
    attempt: u32,
}

/// Where the handshake stands after one exchange.
#[derive(Debug)]
pub enum HandshakeStep {
    /// The drone acknowledged: the caller keeps the socket for the session.
    Connected(CommandResult),
    /// The attempt failed and another is due after the pause, given in
    /// milliseconds.
    Retry(Handshake, u64),
    /// The connection is given up: the caller releases the socket.
    Failed(ConnectError),
}

impl View for Handshake {
    type V = nat;

    /// The number of the attempt that is due, counted from one.
    closed spec fn view(&self) -> nat {
        self.attempt as nat
    }
}

/// Whether the drone answered the handshake: its trimmed reply is `ok` in
/// any case of the letters.
pub open spec fn handshake_acknowledged(outcome: Exchange) -> bool {
    outcome.text() matches Some(text) && is_ok_any_case(text)
}

impl Handshake {
    #[verifier::type_invariant]
    closed spec fn within_bounds(&self) -> bool {
        1 <= self.attempt <= MAX_ATTEMPTS
    }

    /// The number of the attempt that is due, counted from one.
    pub fn attempt(&self) -> (n: u32)
        ensures
            n == self@,
            1 <= n <= MAX_ATTEMPTS,
    {
        proof {
            use_type_invariant(self);
        }
        self.attempt
    }

    /// Takes in the outcome of sending `command` and waiting for one reply.
    ///
    /// An acknowledgement, in any case of its letters, makes the connection:
    /// the state is marked connected and the speed set to its default. A
    /// send that failed ends the connection at once. Any other reply, and no
    /// reply, leads to the next attempt after a pause, or to failure where
    /// this was the last attempt; that failure's description lists the
    /// likely causes. The state changes on success only.
    pub fn on_exchange(self, drone: &mut DroneState, outcome: Exchange) -> (step: HandshakeStep)
        ensures
            match step {
                HandshakeStep::Connected(result) => {
                    &&& handshake_acknowledged(outcome)
                    &&& result.success
                    &&& result.message@ == "Connected to drone"@
                    &&& *final(drone) == (DroneState {
                        connected: true,
                        speed: DEFAULT_SPEED,
                        ..*old(drone)
                    })
                },
                HandshakeStep::Retry(next, pause) => {
                    &&& !handshake_acknowledged(outcome)
                    &&& (outcome is Reply || outcome is ReceiveFailed)
                    &&& self@ < MAX_ATTEMPTS
                    &&& next@ == self@ + 1
                    &&& pause == RETRY_DELAY_MS
                    &&& *final(drone) == *old(drone)
                },
                HandshakeStep::Failed(e) => {
                    &&& *final(drone) == *old(drone)
                    &&& match outcome {
                        Exchange::NoSocket => e matches ConnectError::SendFailed(d) && d@
                            == "Not connected to drone"@,
                        Exchange::SendFailed(detail) => e matches ConnectError::SendFailed(d)
                            && d@ == detail@,
                        Exchange::ReceiveFailed(_) => self@ == MAX_ATTEMPTS && e
                            == ConnectError::NoResponse(MAX_ATTEMPTS),
                        Exchange::Reply(_) => !handshake_acknowledged(outcome) && self@
                            == MAX_ATTEMPTS && e == ConnectError::UnexpectedResponse(
                            MAX_ATTEMPTS,
                        ),
                    }
                },
            },
    {
        proof {
            use_type_invariant(&self);
        }
        let last = self.attempt >= MAX_ATTEMPTS;
        match outcome {
            Exchange::NoSocket => HandshakeStep::Failed(
                ConnectError::SendFailed(String::from_str("Not connected to drone")),
            ),
            Exchange::SendFailed(detail) => HandshakeStep::Failed(ConnectError::SendFailed(detail)),
            Exchange::ReceiveFailed(_) => {
                if last {
                    HandshakeStep::Failed(ConnectError::NoResponse(self.attempt))
                } else {
                    HandshakeStep::Retry(Handshake { attempt: self.attempt + 1 }, RETRY_DELAY_MS)
                }
            },
            Exchange::Reply(bytes) => {
                let reply = read_reply(bytes.as_slice());
                if is_ok_ignoring_case(reply.as_str()) {
                    drone.connected = true;
                    drone.speed = DEFAULT_SPEED;
                    HandshakeStep::Connected(
                        CommandResult {
                            success: true,
                            message: String::from_str("Connected to drone"),
                        },
                    )
                } else if last {
                    HandshakeStep::Failed(ConnectError::UnexpectedResponse(self.attempt))
                } else {
                    HandshakeStep::Retry(Handshake { attempt: self.attempt + 1 }, RETRY_DELAY_MS)
                }
            },
        }
    }
}

/// Takes in whether the command socket was bound and given its read
/// timeout, after any socket of an earlier session was released. A fault
/// ends the connection at once: a port in use mostly means a stale process,
/// which no retry mends.
pub fn socket_opened(opened: Result<(), OpenFault>) -> (r: Result<Handshake, ConnectError>)
    ensures
        match opened {
            Ok(_) => r matches Ok(handshake) && handshake@ == 1,
            Err(OpenFault::Bind(detail)) => r matches Err(ConnectError::BindFailed(d)) && d@
                == detail@,
            Err(OpenFault::ReadTimeout(detail)) => r matches Err(ConnectError::TimeoutNotSet(d))
                && d@ == detail@,
        },
{
    match opened {
        Ok(_) => Ok(Handshake { attempt: 1 }),
        Err(OpenFault::Bind(detail)) => Err(ConnectError::BindFailed(detail)),
        Err(OpenFault::ReadTimeout(detail)) => Err(ConnectError::TimeoutNotSet(detail)),
    }
}

/// Whether a disconnect first asks the drone to land, and then waits for it
/// to settle: it does where the drone counts as flying.
pub fn landing_due(drone: &DroneState) -> (due: bool)
    ensures
        due == drone.flying,
{
    drone.flying
}

/// Ends the session in the state.
///
/// `landing` is the outcome of the landing that was asked for, if one was
/// due. It is a courtesy and no condition: whatever it came to, the state
/// ends up disconnected, on the ground and without video, and the
/// disconnect succeeds.
pub fn disconnect_drone(drone: &mut DroneState, landing: Option<Exchange>) -> (r: CommandResult)
    ensures
        *final(drone) == (DroneState {
            connected: false,
            flying: false,
            video_active: false,
            ..*old(drone)
        }),
        r.success,
        r.message@ == "Disconnected"@,
{
    drone.connected = false;
    drone.flying = false;
    drone.video_active = false;
    CommandResult { success: true, message: String::from_str("Disconnected") }
}

} // verus!
