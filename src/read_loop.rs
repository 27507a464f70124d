//! Decisions of the receive loop: which frames are decoded, which event a
//! receive error publishes, and when the loop stops. The caller performs the
//! receives and publishes what each step returns.
use vstd::prelude::*;
use crate::decoder::decode_spec;
use crate::session::{AAPEvent, AAPSocketInner};

verus! {

/// Phase of the receive loop.
#[derive(Clone, Copy, Debug, PartialEq, Eq, Structural)]
pub enum LoopState {
    /// The connection exists but the handshake has not been sent.
    Connecting,
    /// Frames are being received and decoded.
    Streaming,
    /// The transport has failed or been reset; nothing more is processed.
    Terminated,
}

/// How a receive on the transport failed.
#[derive(Clone, Copy, Debug, PartialEq, Eq, Structural)]
pub enum ReceiveError {
    /// The peer closed the connection in the expected way.
    ConnectionReset,
    /// Any other transport failure.
    Other,
}

/// What one receive on the transport gave.
#[derive(Clone, Debug)]
pub enum ReceiveOutcome {
    Frame(Vec<u8>),
    Failed(ReceiveError),
}

/// What the caller does after a receive error.
#[derive(Clone, Copy, Debug, PartialEq, Eq)]
pub struct ErrorStep {
    /// The event to publish, if any.
    pub event: Option<AAPEvent>,
    /// Whether the failure is to be reported to whoever supervises the session.
    pub fault: bool,
}

/// The session state and the event, if any, after a frame is received in `st`.
/// Only a streaming loop decodes frames.
pub open spec fn frame_step(st: LoopState, s: AAPSocketInner, f: Seq<u8>) -> (AAPSocketInner, Option<AAPEvent>) {
    if st == LoopState::Streaming {
        match decode_spec(f) {
            Some(e) => (s.after_event(e), Some(e)),
            None => (s, None),
        }
    } else {
        (s, None)
    }
}

/// The loop's next phase and its instructions after a receive error in `st`:
/// a loop that is still running stops and publishes `Disconnected`, and a
/// failure other than a reset is also reported as a fault.
pub open spec fn error_step(st: LoopState, err: ReceiveError) -> (LoopState, ErrorStep) {
    if st == LoopState::Terminated {
        (st, ErrorStep { event: None, fault: false })
    } else {
        (
            LoopState::Terminated,
            ErrorStep { event: Some(AAPEvent::Disconnected), fault: err == ReceiveError::Other },
        )
    }
}

/// An optional event as a sequence of zero or one events.
pub open spec fn as_seq(e: Option<AAPEvent>) -> Seq<AAPEvent> {
    match e {
        Some(x) => seq![x],
        None => Seq::empty(),
    }
}

/// Phase, session state and published events after the loop handles `outs`
/// in order, starting in phase `st` with state `s`.
pub open spec fn run(st: LoopState, s: AAPSocketInner, outs: Seq<ReceiveOutcome>) -> (
    LoopState,
    AAPSocketInner,
    Seq<AAPEvent>,
)
    decreases outs.len(),
{
    if outs.len() == 0 {
        (st, s, Seq::empty())
    } else {
        let (st1, s1, ev1) = match outs[0] {
            ReceiveOutcome::Frame(f) => {
                let (s1, e) = frame_step(st, s, f@);
                (st, s1, as_seq(e))
            },
            ReceiveOutcome::Failed(err) => {
                let (st1, step) = error_step(st, err);
                (st1, s, as_seq(step.event))
            },
        };
        let (st2, s2, ev2) = run(st1, s1, outs.drop_first());
        (st2, s2, ev1 + ev2)
    }
}

/// The receive loop of one session.
pub struct ReadLoop {
    pub state: LoopState,
}

impl ReadLoop {
    /// A loop whose handshake has not been sent yet.
    pub fn new() -> (r: ReadLoop)
        ensures
            r.state == LoopState::Connecting,
    {
        ReadLoop { state: LoopState::Connecting }
    }

    /// Marks the handshake as sent: a connecting loop starts streaming, any
    /// other phase stays as it is.
    pub fn start(&mut self)
        ensures
            final(self).state == if old(self).state == LoopState::Connecting {
                LoopState::Streaming
            } else {
                old(self).state
            },
    {
        if self.state == LoopState::Connecting {
            self.state = LoopState::Streaming;
        }
    }

    /// Whether the loop should keep receiving.
    pub fn is_running(&self) -> (r: bool)
        ensures
            r == (self.state != LoopState::Terminated),
    {
        self.state != LoopState::Terminated
    }

    /// Handles one received frame: a streaming loop decodes it into `session`
    /// and returns the event to publish; in any other phase the frame is dropped.
    pub fn on_frame(&self, session: &mut AAPSocketInner, frame: &[u8]) -> (r: Option<AAPEvent>)
        requires
            old(session).well_formed(),
        ensures
            (*final(session), r) == frame_step(self.state, *old(session), frame@),
            final(session).well_formed(),
    {
        if self.state == LoopState::Streaming {
            session.apply_frame(frame)
        } else {
            None
        }
    }

    /// Handles a receive error: the loop stops, and the first error also
    /// publishes `Disconnected`.
    pub fn on_error(&mut self, err: ReceiveError) -> (r: ErrorStep)
        ensures
            (final(self).state, r) == error_step(old(self).state, err),
            final(self).state == LoopState::Terminated,
    {
        if self.state == LoopState::Terminated {
            ErrorStep { event: None, fault: false }
        } else {
            self.state = LoopState::Terminated;
            ErrorStep { event: Some(AAPEvent::Disconnected), fault: err == ReceiveError::Other }
        }
    }
}

proof fn lemma_terminated_is_silent(s: AAPSocketInner, outs: Seq<ReceiveOutcome>)
    ensures
        run(LoopState::Terminated, s, outs) == (LoopState::Terminated, s, Seq::<AAPEvent>::empty()),
    decreases outs.len(),
{
    if outs.len() > 0 {
        lemma_terminated_is_silent(s, outs.drop_first());
        assert(Seq::<AAPEvent>::empty() + Seq::<AAPEvent>::empty() =~= Seq::<AAPEvent>::empty());
    }
}

/// After a reset of a running loop, the loop publishes exactly one
/// `Disconnected` event and nothing more, stops, and leaves the session state
/// untouched by any later frame.
pub proof fn lemma_reset_ends_session(
    st: LoopState,
    s: AAPSocketInner,
    later: Seq<ReceiveOutcome>,
)
    requires
        st != LoopState::Terminated,
    ensures
        run(st, s, seq![ReceiveOutcome::Failed(ReceiveError::ConnectionReset)] + later) == (
            LoopState::Terminated,
            s,
            seq![AAPEvent::Disconnected],
        ),
{
    let outs = seq![ReceiveOutcome::Failed(ReceiveError::ConnectionReset)] + later;
    assert(outs.drop_first() =~= later);
    lemma_terminated_is_silent(s, later);
    assert(seq![AAPEvent::Disconnected] + Seq::<AAPEvent>::empty() =~= seq![AAPEvent::Disconnected]);
}

} // verus!
