//! The pairing state machine and the protocol engine's decision logic.
//!
//! The engine races three event sources — a freshly published frame, the
//! idle deadline, and a completed OUT transfer — and handles exactly one per
//! iteration. Everything it decides is here and verified; the surrounding
//! I/O loop performs the endpoint writes, arms the timer from the deadline
//! field, and feeds the next event back in.

use vstd::prelude::*;

use crate::channel::State;
use crate::channel::set_rumble_spec;
use crate::codec::ControllerData;
use crate::messages::InMessage;
use crate::out_data::OutData;
use crate::out_data::matches_ack;
use crate::out_data::matches_connection_status;
use crate::out_data::matches_rumble;

verus! {

/// Time units a gamepad-data send arms the idle deadline for.
pub const IDLE_DELAY: u64 = 11;

/// Handshake progress of one virtual controller.
#[derive(Clone, Copy, Debug, PartialEq, Eq, Structural)]
pub enum PairingState {
    /// No controller announced to the host.
    Disconnected,
    /// "Connected" status sent; the first acknowledgment is outstanding.
    AwaitingAck1,
    /// Controller info sent; the second acknowledgment is outstanding.
    AwaitingAck2,
    /// Handshake done; gamepad data is accepted as valid.
    Paired,
}

/// The idle keep-alive deadline: armed for an instant, or never firing.
#[derive(Clone, Copy, Debug, PartialEq, Eq, Structural)]
pub enum IdleDeadline {
    /// No keep-alive is due.
    Never,
    /// A keep-alive is due at this instant unless a frame arrives first.
    At(u64),
}

/// One of the three event sources, as the I/O loop saw it complete.
#[derive(Debug, PartialEq, Eq)]
pub enum EngineEvent {
    /// The producer published a frame and the channel handed it over.
    FramePublished(ControllerData),
    /// The idle deadline elapsed.
    IdleElapsed,
    /// An OUT transfer completed with this payload.
    OutReceived(Vec<u8>),
    /// An OUT transfer failed; transient, the loop pauses briefly.
    OutError,
}

/// What one engine step asks the I/O loop to do.
pub struct EngineOutput {
    /// Messages for the interrupt-IN endpoint, in order, best effort.
    pub messages: Vec<InMessage>,
    /// Pause one time unit before the next iteration.
    pub pause: bool,
}

/// The pairing state after a classified OUT command is dispatched.
pub open spec fn pairing_after_out(p: PairingState, cmd: OutData) -> PairingState {
    match cmd {
        OutData::ConnectionStatus => if p is Disconnected {
            PairingState::Disconnected
        } else {
            PairingState::AwaitingAck1
        },
        OutData::Ack => match p {
            PairingState::Disconnected => PairingState::Disconnected,
            PairingState::AwaitingAck1 => PairingState::AwaitingAck2,
            PairingState::AwaitingAck2 => PairingState::Paired,
            PairingState::Paired => PairingState::Paired,
        },
        _ => p,
    }
}

/// The reply a classified OUT command provokes, if any.
pub open spec fn reply_after_out(p: PairingState, cmd: OutData) -> Option<InMessage> {
    match cmd {
        OutData::ConnectionStatus => Some(InMessage::ConnectionStatus(!(p is Disconnected))),
        OutData::Ack => if p is AwaitingAck1 {
            Some(InMessage::ControllerInfo)
        } else {
            Option::None
        },
        _ => Option::None,
    }
}

/// The pairing state after a raw OUT payload is classified and dispatched.
pub open spec fn pairing_after_raw(p: PairingState, raw: Seq<u8>) -> PairingState {
    if matches_connection_status(raw) {
        if p is Disconnected {
            PairingState::Disconnected
        } else {
            PairingState::AwaitingAck1
        }
    } else if matches_ack(raw) {
        match p {
            PairingState::Disconnected => PairingState::Disconnected,
            PairingState::AwaitingAck1 => PairingState::AwaitingAck2,
            PairingState::AwaitingAck2 => PairingState::Paired,
            PairingState::Paired => PairingState::Paired,
        }
    } else {
        p
    }
}

/// The replies a raw OUT payload provokes.
pub open spec fn replies_after_raw(p: PairingState, raw: Seq<u8>) -> Seq<InMessage> {
    if matches_connection_status(raw) {
        seq![InMessage::ConnectionStatus(!(p is Disconnected))]
    } else if matches_ack(raw) && p is AwaitingAck1 {
        seq![InMessage::ControllerInfo]
    } else {
        Seq::empty()
    }
}

/// How one event moves the idle deadline, whatever else it does: a data send
/// arms it, an elapsed deadline disarms it, everything else leaves it alone.
pub open spec fn deadline_step(d: IdleDeadline, event: EngineEvent, now: u64) -> IdleDeadline {
    match event {
        EngineEvent::FramePublished(_) => IdleDeadline::At((now + IDLE_DELAY) as u64),
        EngineEvent::IdleElapsed => IdleDeadline::Never,
        _ => d,
    }
}

/// The protocol engine of one virtual controller: the handshake state and
/// the idle deadline. The I/O around it lives outside the library.
pub struct XInput {
    /// Handshake progress.
    pub pairing_state: PairingState,
    /// When the next keep-alive is due.
    pub idle_deadline: IdleDeadline,
}

impl XInput {
    /// A fresh engine: disconnected, no keep-alive due.
    pub fn new() -> (r: XInput)
        ensures
            r.pairing_state is Disconnected,
            r.idle_deadline is Never,
    {
        XInput { pairing_state: PairingState::Disconnected, idle_deadline: IdleDeadline::Never }
    }

    /// Announces the controller as available or gone: moves the handshake to
    /// its first step or back to disconnected and returns the status frame
    /// to send.
    pub fn send_connection_status(&mut self, available: bool) -> (m: InMessage)
        ensures
            m == InMessage::ConnectionStatus(available),
            final(self).pairing_state == if available {
                PairingState::AwaitingAck1
            } else {
                PairingState::Disconnected
            },
            final(self).idle_deadline == old(self).idle_deadline,
    {
        if available {
            self.pairing_state = PairingState::AwaitingAck1;
        } else {
            self.pairing_state = PairingState::Disconnected;
        }
        InMessage::ConnectionStatus(available)
    }

    /// Dispatches one classified OUT command: a status query re-announces the
    /// controller (or reports it disconnected), acknowledgments walk the
    /// handshake forward, rumble lands in the channel's register, LED data
    /// and unrecognized payloads change nothing. An acknowledgment that no
    /// state expects is ignored rather than fatal.
    pub fn handle_out_data(&mut self, chan: &mut State, out_data: OutData) -> (reply: Option<
        InMessage,
    >)
        ensures
            final(self).pairing_state == pairing_after_out(old(self).pairing_state, out_data),
            reply == reply_after_out(old(self).pairing_state, out_data),
            final(self).idle_deadline == old(self).idle_deadline,
            out_data matches OutData::Rumble(strong, weak) ==> *final(chan) == set_rumble_spec(
                *old(chan),
                strong,
                weak,
            ),
            !(out_data is Rumble) ==> *final(chan) == *old(chan),
    {
        match out_data {
            OutData::ConnectionStatus => {
                let available = !matches!(self.pairing_state, PairingState::Disconnected);
                Some(self.send_connection_status(available))
            },
            OutData::Ack => {
                match self.pairing_state {
                    PairingState::Disconnected | PairingState::Paired => {
                        // Protocol violation by the host; not fatal.
                        None
                    },
                    PairingState::AwaitingAck1 => {
                        self.pairing_state = PairingState::AwaitingAck2;
                        Some(InMessage::ControllerInfo)
                    },
                    PairingState::AwaitingAck2 => {
                        self.pairing_state = PairingState::Paired;
                        None
                    },
                }
            },
            OutData::Led(_led) => None,
            OutData::Rumble(strong, weak) => {
                chan.set_rumble(strong, weak);
                None
            },
            OutData::Unknown(_raw) => None,
        }
    }

    /// One iteration of the engine: handles exactly the event that won the
    /// race. A fresh frame announces the controller first if it was
    /// disconnected, then goes out as gamepad data and arms the idle
    /// deadline; an elapsed deadline sends one keep-alive and disarms; an OUT
    /// payload is classified and dispatched; a transfer error only asks the
    /// loop to pause briefly.
    pub fn handle_event(&mut self, chan: &mut State, now: u64, event: EngineEvent) -> (out:
        EngineOutput)
        requires
            event is FramePublished ==> now + IDLE_DELAY <= u64::MAX,
        ensures
            final(self).idle_deadline == deadline_step(old(self).idle_deadline, event, now),
            event matches EngineEvent::FramePublished(data) ==> {
                &&& final(self).pairing_state == if old(self).pairing_state is Disconnected {
                    PairingState::AwaitingAck1
                } else {
                    old(self).pairing_state
                }
                &&& final(self).idle_deadline == IdleDeadline::At((now + IDLE_DELAY) as u64)
                &&& out.messages@ == if old(self).pairing_state is Disconnected {
                    seq![
                        InMessage::ConnectionStatus(true),
                        InMessage::GamepadData(data),
                    ]
                } else {
                    seq![InMessage::GamepadData(data)]
                }
                &&& *final(chan) == *old(chan)
                &&& !out.pause
            },
            event is IdleElapsed ==> {
                &&& final(self).pairing_state == old(self).pairing_state
                &&& final(self).idle_deadline is Never
                &&& out.messages@ == seq![InMessage::Idle]
                &&& *final(chan) == *old(chan)
                &&& !out.pause
            },
            event matches EngineEvent::OutReceived(raw) ==> {
                &&& final(self).pairing_state == pairing_after_raw(
                    old(self).pairing_state,
                    raw@,
                )
                &&& final(self).idle_deadline == old(self).idle_deadline
                &&& out.messages@ == replies_after_raw(old(self).pairing_state, raw@)
                &&& matches_rumble(raw@) ==> *final(chan) == set_rumble_spec(
                    *old(chan),
                    raw@[5],
                    raw@[6],
                )
                &&& !matches_rumble(raw@) ==> *final(chan) == *old(chan)
                &&& !out.pause
            },
            event is OutError ==> {
                &&& *final(self) == *old(self)
                &&& out.messages@ == Seq::<InMessage>::empty()
                &&& *final(chan) == *old(chan)
                &&& out.pause
            },
    {
        let mut messages: Vec<InMessage> = Vec::new();
        let mut pause = false;
        match event {
            EngineEvent::FramePublished(data) => {
                if matches!(self.pairing_state, PairingState::Disconnected) {
                    let m = self.send_connection_status(true);
                    messages.push(m);
                }
                messages.push(InMessage::GamepadData(data));
                self.idle_deadline = IdleDeadline::At(now + IDLE_DELAY);
                proof {
                    if old(self).pairing_state is Disconnected {
                        assert(messages@ =~= seq![
                            InMessage::ConnectionStatus(true),
                            InMessage::GamepadData(data),
                        ]);
                    } else {
                        assert(messages@ =~= seq![InMessage::GamepadData(data)]);
                    }
                }
            },
            EngineEvent::IdleElapsed => {
                messages.push(InMessage::Idle);
                self.idle_deadline = IdleDeadline::Never;
                proof {
                    assert(messages@ =~= seq![InMessage::Idle]);
                }
            },
            EngineEvent::OutReceived(raw) => {
                let cmd = OutData::from_raw(raw.as_slice());
                let reply = self.handle_out_data(chan, cmd);
                if let Some(m) = reply {
                    messages.push(m);
                }
                proof {
                    assert(messages@ =~= replies_after_raw(old(self).pairing_state, raw@));
                }
            },
            EngineEvent::OutError => {
                pause = true;
            },
        }
        EngineOutput { messages, pause }
    }
}

/// A trace of events the I/O loop can actually deliver: the idle deadline
/// only elapses while it is armed (a disarmed timer never fires).
pub open spec fn idle_trace_ok(d: IdleDeadline, events: Seq<EngineEvent>, nows: Seq<u64>) -> bool
    decreases events.len(),
{
    events.len() == 0 || {
        &&& (events[0] is IdleElapsed ==> d is At)
        &&& idle_trace_ok(
            deadline_step(d, events[0], nows[0]),
            events.subrange(1, events.len() as int),
            nows.subrange(1, nows.len() as int),
        )
    }
}

/// Law: at most one keep-alive per data send. While the deadline is disarmed,
/// a deliverable trace without a frame publish contains no elapsed deadline
/// at all, so no keep-alive frame goes out twice without an intervening
/// gamepad-data send (which is what re-arms the deadline).
pub proof fn lemma_idle_fires_once(d: IdleDeadline, events: Seq<EngineEvent>, nows: Seq<u64>)
    requires
        d is Never,
        nows.len() == events.len(),
        idle_trace_ok(d, events, nows),
        forall|i: int| 0 <= i < events.len() ==> !(#[trigger] events[i] is FramePublished),
    ensures
        forall|i: int| 0 <= i < events.len() ==> !(#[trigger] events[i] is IdleElapsed),
    decreases events.len(),
{
    if events.len() > 0 {
        let tail = events.subrange(1, events.len() as int);
        let ntail = nows.subrange(1, nows.len() as int);
        let d1 = deadline_step(d, events[0], nows[0]);
        assert(!(events[0] is FramePublished));
        assert(!(events[0] is IdleElapsed));
        assert(d1 is Never);
        assert forall|i: int| 0 <= i < tail.len() implies !(#[trigger] tail[i] is FramePublished) by {
            assert(tail[i] == events[i + 1]);
        }
        lemma_idle_fires_once(d1, tail, ntail);
        assert forall|i: int| 0 <= i < events.len() implies !(#[trigger] events[i] is IdleElapsed) by {
            if i > 0 {
                assert(tail[i - 1] == events[i]);
            }
        }
    }
}

/// Law: exactly one keep-alive per quiet spell. Whatever the deadline holds,
/// a deliverable trace without a frame publish delivers the elapsed deadline
/// at most once: the first keep-alive disarms it and only a gamepad-data
/// send can arm it again.
pub proof fn lemma_one_keepalive_per_send(d: IdleDeadline, events: Seq<EngineEvent>, nows: Seq<u64>)
    requires
        nows.len() == events.len(),
        idle_trace_ok(d, events, nows),
        forall|i: int| 0 <= i < events.len() ==> !(#[trigger] events[i] is FramePublished),
    ensures
        forall|i: int, j: int|
            0 <= i < j < events.len() ==> !(#[trigger] events[i] is IdleElapsed
                && #[trigger] events[j] is IdleElapsed),
    decreases events.len(),
{
    if events.len() > 0 {
        let tail = events.subrange(1, events.len() as int);
        let ntail = nows.subrange(1, nows.len() as int);
        let d1 = deadline_step(d, events[0], nows[0]);
        assert forall|i: int| 0 <= i < tail.len() implies !(#[trigger] tail[i] is FramePublished) by {
            assert(tail[i] == events[i + 1]);
        }
        lemma_one_keepalive_per_send(d1, tail, ntail);
        if events[0] is IdleElapsed {
            assert(d1 is Never);
            lemma_idle_fires_once(d1, tail, ntail);
        }
        assert forall|i: int, j: int|
            0 <= i < j < events.len() implies !(#[trigger] events[i] is IdleElapsed
                && #[trigger] events[j] is IdleElapsed) by {
            if i == 0 {
                assert(tail[j - 1] == events[j]);
            } else {
                assert(tail[i - 1] == events[i]);
                assert(tail[j - 1] == events[j]);
            }
        }
    }
}

} // verus!
