//! The receiving side of the video stream: a single slot that holds the most
//! recent datagram, and the rules of the loop that fills it.

use vstd::prelude::*;

verus! {

/// Port of the video socket, on the drone and on this host alike.
pub const VIDEO_PORT: u16 = 11111;

/// The byte of the datagram that asks the drone to start streaming: some
/// firmware sends nothing before the client has sent something.
pub const KICK_START: u8 = 0x01;

/// Largest datagram payload that is received, in bytes.
pub const MAX_DATAGRAM: usize = 65536;

/// Read timeout of the video socket, in milliseconds: how often the loop
/// looks at the running flag while nothing arrives.
pub const VIDEO_READ_TIMEOUT_MS: u64 = 500;

/// Consecutive receive faults that the loop sits out before it gives up.
pub const FAULT_LIMIT: u32 = 60;

/// Code by which one platform reports a timed-out receive.
pub const OS_TIMED_OUT: i32 = 10060;

/// The kind of a failed receive, as the caller's socket reports it.
#[derive(Clone, Copy, Debug, PartialEq, Eq, Structural)]
pub enum FaultKind {
    WouldBlock,
    TimedOut,
    Other,
}

/// Whether a failed receive only means that nothing arrived in time.
pub open spec fn is_timeout(kind: FaultKind, os_code: Option<i32>) -> bool {
    kind is WouldBlock || kind is TimedOut || os_code == Some(OS_TIMED_OUT)
}

/// Tells a timed-out receive from a fault, whatever the platform calls it.
pub fn is_receive_timeout(kind: FaultKind, os_code: Option<i32>) -> (b: bool)
    ensures
        b == is_timeout(kind, os_code),
{
    match kind {
        FaultKind::WouldBlock => true,
        FaultKind::TimedOut => true,
        FaultKind::Other => match os_code {
            Some(code) => code == OS_TIMED_OUT,
            None => false,
        },
    }
}

/// What one receive on the video socket came to.
#[derive(Clone, Debug, PartialEq, Eq)]
pub enum Received {
    /// The payload of a datagram.
    Datagram(Vec<u8>),
    /// Nothing arrived before the read timeout.
    TimedOut,
    /// The receive failed for another reason.
    Failed,
}

/// The state of a receiver, as contracts see it.
pub struct CaptureState {
    /// Whether the receive loop is meant to run.
    pub running: bool,
    /// The payload of the most recent datagram.
    pub latest: Option<Seq<u8>>,
    /// Receive faults since the last datagram.
    pub faults: nat,
}

impl CaptureState {
    /// The state after one receive came to `event`: a datagram takes the
    /// slot and ends the run of faults, a timeout changes nothing, a fault
    /// is counted, up to one past the limit.
    pub open spec fn after(self, event: Received) -> CaptureState {
        match event {
            Received::Datagram(payload) => CaptureState {
                latest: Some(payload@),
                faults: 0,
                ..self
            },
            Received::TimedOut => self,
            Received::Failed => CaptureState {
                faults: if self.faults <= FAULT_LIMIT {
                    self.faults + 1
                } else {
                    self.faults
                },
                ..self
            },
        }
    }

    /// The state after the receives of `events`, taken in order.
    pub open spec fn after_all(self, events: Seq<Received>) -> CaptureState
        decreases events.len(),
    {
        if events.len() == 0 {
            self
        } else {
            self.after_all(events.drop_last()).after(events.last())
        }
    }

    /// Whether the receive loop goes on: it is meant to run, and no more
    /// faults than the limit came in a row.
    pub open spec fn receiving(self) -> bool {
        self.running && self.faults <= FAULT_LIMIT
    }
}

/// The payload of the last datagram among `events`, if there is one.
pub open spec fn last_datagram(events: Seq<Received>) -> Option<Seq<u8>>
    decreases events.len(),
{
    if events.len() == 0 {
        None
    } else {
        match events.last() {
            Received::Datagram(payload) => Some(payload@),
            _ => last_datagram(events.drop_last()),
        }
    }
}

/// The slot is no queue. After any run of receives it holds the payload of
/// the last datagram among them, whole and nothing else; where none of them
/// was a datagram it holds what it held before. Timeouts and faults never
/// touch it, and no receive changes the running flag.
pub proof fn lemma_slot_holds_last_datagram(state: CaptureState, events: Seq<Received>)
    ensures
        state.after_all(events).latest == match last_datagram(events) {
            Some(payload) => Some(payload),
            None => state.latest,
        },
        state.after_all(events).running == state.running,
    decreases events.len(),
{
    if events.len() > 0 {
        lemma_slot_holds_last_datagram(state, events.drop_last());
    }
}

/// Whether every one of `events` is a fault.
pub open spec fn all_failed(events: Seq<Received>) -> bool {
    forall|i: int| 0 <= i < events.len() ==> (#[trigger] events[i]) is Failed
}

/// The loop does not spin on a dead socket: once more faults than the limit
/// have come in a row, it no longer goes on. Fewer are sat out.
pub proof fn lemma_faults_end_the_loop(state: CaptureState, events: Seq<Received>)
    requires
        all_failed(events),
        state.faults == 0,
    ensures
        state.after_all(events).faults == if events.len() <= FAULT_LIMIT {
            events.len()
        } else {
            (FAULT_LIMIT + 1) as nat
        },
        state.after_all(events).receiving() == (state.running && events.len() <= FAULT_LIMIT),
    decreases events.len(),
{
    if events.len() > 0 {
        let earlier = events.drop_last();
        assert forall|i: int| 0 <= i < earlier.len() implies (#[trigger] earlier[i]) is Failed by {
            assert(earlier[i] == events[i]);
        }
        lemma_faults_end_the_loop(state, earlier);
        lemma_slot_holds_last_datagram(state, earlier);
        assert(events.last() == events[events.len() - 1]);
    }
}

/// Receiver of the video stream. It keeps the latest datagram only: a new
/// one replaces the old, whether or not anybody read it.
#[derive(Debug)]
pub struct TelloVideoCapture {
    running: bool,
    latest_packet: Option<Vec<u8>>,
    faults: u32,
}

impl View for TelloVideoCapture {
    type V = CaptureState;

    closed spec fn view(&self) -> CaptureState {
        CaptureState {
            running: self.running,
            latest: match self.latest_packet {
                Some(packet) => Some(packet@),
                None => None,
            },
            faults: self.faults as nat,
        }
    }
}

impl TelloVideoCapture {
    #[verifier::type_invariant]
    closed spec fn well_formed(&self) -> bool {
        &&& self.faults <= FAULT_LIMIT + 1
        &&& match self.latest_packet {
            Some(packet) => packet@.len() <= MAX_DATAGRAM,
            None => true,
        }
    }

    /// A receiver that is not running and holds no packet.
    pub fn new() -> (capture: Self)
        ensures
            capture@ == (CaptureState { running: false, latest: None, faults: 0 }),
    {
        TelloVideoCapture { running: false, latest_packet: None, faults: 0 }
    }

    /// Marks the receive loop as running, with no fault counted. A packet
    /// from an earlier run stays in the slot.
    pub fn start(&mut self)
        ensures
            final(self)@ == (CaptureState { running: true, faults: 0, ..old(self)@ }),
    {
        proof {
            use_type_invariant(&*self);
        }
        self.running = true;
        self.faults = 0;
    }

    /// Whether the receive loop is meant to run.
    pub fn is_running(&self) -> (b: bool)
        ensures
            b == self@.running,
    {
        self.running
    }

    /// The latest packet, if one has arrived. The slot keeps it: asking again
    /// gives the same packet until a newer one arrives.
    pub fn get_packet(&self) -> (packet: Option<Vec<u8>>)
        ensures
            match packet {
                Some(bytes) => self@.latest == Some(bytes@) && bytes@.len() <= MAX_DATAGRAM,
                None => self@.latest is None,
            },
    {
        proof {
            use_type_invariant(self);
        }
        match &self.latest_packet {
            Some(bytes) => Some(bytes.clone()),
            None => None,
        }
    }

    /// Asks the receive loop to end. The slot keeps its packet.
    pub fn stop(&mut self)
        ensures
            final(self)@ == (CaptureState { running: false, ..old(self)@ }),
    {
        proof {
            use_type_invariant(&*self);
        }
        self.running = false;
    }

    /// Takes in what one receive came to, and says whether the loop goes on.
    ///
    /// A datagram replaces the packet in the slot. A timeout is no fault: it
    /// is how the loop gets to look at the running flag. Faults are sat out
    /// until more than the limit have come without a datagram in between.
    pub fn record(&mut self, event: Received) -> (go_on: bool)
        requires
            event matches Received::Datagram(payload) ==> payload@.len() <= MAX_DATAGRAM,
        ensures
            final(self)@ == old(self)@.after(event),
            go_on == final(self)@.receiving(),
    {
        proof {
            use_type_invariant(&*self);
        }
        match event {
            Received::Datagram(payload) => {
                self.faults = 0;
                self.latest_packet = Some(payload);
            },
            Received::TimedOut => {},
            Received::Failed => {
                if self.faults <= FAULT_LIMIT {
                    self.faults = self.faults + 1;
                }
            },
        }
        self.running && self.faults <= FAULT_LIMIT
    }
}

} // verus!
