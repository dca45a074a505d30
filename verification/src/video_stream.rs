//! The forwarding side of the video stream: at a fixed cadence the latest
//! packet is encoded and handed on.

use crate::command::{send_command, CommandError, Exchange};
use crate::state::CommandResult;
use crate::video_capture::{CaptureState, TelloVideoCapture};
use base64::Engine;
use vstd::prelude::*;

verus! {

/// Time between two forwarding ticks, in milliseconds: about thirty a
/// second.
pub const FORWARD_PERIOD_MS: u64 = 33;

/// The padded Base64 text of `bytes` in the standard alphabet.
pub uninterp spec fn base64_standard(bytes: Seq<u8>) -> Seq<char>;

/// Length of the padded Base64 text of `n` bytes.
pub open spec fn base64_len(n: nat) -> nat {
    4 * ((n + 2) / 3)
}

/// Encodes with `Engine::encode` of `base64`'s `STANDARD` engine. Taken on
/// trust: the result is the padded standard Base64 text of exactly these
/// bytes. The encoder fails where the text would not fit in memory, which
/// the precondition rules out.
#[verifier::external_body]
fn encode_base64(bytes: &[u8]) -> (text: String)
    requires
        base64_len(bytes@.len()) <= isize::MAX,
    ensures
        text@ == base64_standard(bytes@),
{
    base64::engine::general_purpose::STANDARD.encode(bytes)
}

/// What a request to start the stream came to.
#[derive(Debug)]
pub struct StreamStart {
    /// The drone's answer to `streamon`.
    pub result: CommandResult,
    /// A started receiver, where the drone acknowledged.
    pub capture: Option<TelloVideoCapture>,
}

/// Takes in the outcome of a `streamon` command. Where the drone
/// acknowledged, a fresh receiver is made and started, for the caller to run
/// the receive loop and the forwarding loop on; where it did not, there is
/// none, and the answer is handed on as it is.
pub fn start_video_stream(outcome: Exchange) -> (r: Result<StreamStart, CommandError>)
    ensures
        match r {
            Ok(started) => {
                &&& outcome.yields(Ok(started.result))
                &&& match started.capture {
                    Some(capture) => outcome.acknowledged() && capture@ == (CaptureState {
                        running: true,
                        latest: None,
                        faults: 0,
                    }),
                    None => !outcome.acknowledged(),
                }
            },
            Err(e) => outcome.fails_with(e),
        },
{
    let result = send_command(outcome)?;
    if result.success {
        let mut capture = TelloVideoCapture::new();
        capture.start();
        Ok(StreamStart { result, capture: Some(capture) })
    } else {
        Ok(StreamStart { result, capture: None })
    }
}

/// What the forwarder does at one tick.
#[derive(Clone, Debug, PartialEq, Eq)]
pub enum Forward {
    /// The receiver is gone: the forwarding loop ends.
    Stop,
    /// No packet has arrived yet: nothing is emitted.
    Idle,
    /// The latest packet, encoded, is emitted.
    Emit(String),
}

/// What a tick does, given the receiver's state if there still is a
/// receiver.
pub open spec fn forwarded(capture: Option<CaptureState>, action: Forward) -> bool {
    match capture {
        None => action is Stop,
        Some(state) => match state.latest {
            None => action is Idle,
            Some(packet) => action matches Forward::Emit(text) && text@ == base64_standard(
                packet,
            ),
        },
    }
}

/// Decides one tick of the forwarding loop.
///
/// The tick never waits for data. Without a receiver the loop ends; with an
/// empty slot nothing is emitted; otherwise the packet in the slot is
/// emitted, and emitted again at the next tick if no newer one has replaced
/// it by then.
pub fn forward_tick(capture: Option<&TelloVideoCapture>) -> (action: Forward)
    ensures
        forwarded(
            match capture {
                Some(c) => Some(c@),
                None => None,
            },
            action,
        ),
{
    match capture {
        None => Forward::Stop,
        Some(receiver) => match receiver.get_packet() {
            None => Forward::Idle,
            Some(packet) => {
                Forward::Emit(encode_base64(packet.as_slice()))
            },
        },
    }
}

} // verus!
