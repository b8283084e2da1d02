//! The per-connection state machine.
//!
//! The controller moves a session from `Accepted` through the handshake to
//! `Running` and finally to `Closed`, emitting the frames each transition
//! owes the client.  Running the machine over any observation sequence,
//! the first outbound frame is `Hello` and the second non-control frame is
//! `Ready`.

use vstd::prelude::*;

use crate::client::{CLOSE_ABNORMAL, CLOSE_NORMAL, CLOSE_POLICY, CLOSE_UNSUPPORTED};

verus! {

/// Seconds a fresh connection gets to send `Identify`.
pub const IDENTIFY_TIMEOUT_SECS: u64 = 5;

/// Seconds a running session may stay silent before it is torn down.
pub const CLIENT_READ_TIMEOUT_SECS: u64 = 30;

/// Where a session stands.
#[derive(Clone, Copy, PartialEq, Eq, Structural, Debug)]
pub enum SessionState {
    /// Socket accepted, upgrade in progress.
    Accepted,
    /// Upgraded; `Hello` is on its way out.
    Handshaking,
    /// Waiting for the client's `Identify`.
    AwaitingIdentify,
    /// Presence registered, queue bound, Ready being prepared.
    Establishing,
    /// Pipelines running.
    Running,
    /// Tearing down.
    Closing,
    Closed,
}

/// What the controller observes.
#[derive(Clone, Copy, PartialEq, Eq, Structural, Debug)]
pub enum SessionEvent {
    UpgradeOk,
    UpgradeFailed,
    /// The Hello frame was handed to the send queue.
    HelloSent,
    /// A valid `Identify` arrived and the token resolved to a user.
    IdentifyOk,
    IdentifyInvalidToken,
    IdentifyDecodeError,
    /// A frame other than `Identify` arrived first.
    IdentifyWrongFrame,
    /// No `Identify` within the timeout.
    IdentifyTimeout,
    /// Presence inserted, queue bound, setup-complete received.
    Established,
    EstablishFailed,
    /// The upstream pipeline forwards one event.
    Forward,
    /// The client pipeline replies to a ping.
    PongReply,
    /// Any terminal signal: client close, pipeline end, shutdown.
    Terminal { graceful: bool },
    CleanupDone,
}

/// The kind of frame a transition emits.
#[derive(Clone, Copy, PartialEq, Eq, Structural, Debug)]
pub enum FrameKind {
    Hello,
    Ready,
    Event,
    Pong,
    CloseFrame { code: u16 },
}

/// One transition of the controller: the next state and the frames the
/// transition emits, in order.  Events that do not apply to the current
/// state change nothing.
pub open spec fn step_spec(st: SessionState, ev: SessionEvent) -> (SessionState, Seq<FrameKind>) {
    match (st, ev) {
        (SessionState::Accepted, SessionEvent::UpgradeOk) => (
            SessionState::Handshaking,
            seq![FrameKind::Hello],
        ),
        (SessionState::Accepted, SessionEvent::UpgradeFailed) => (SessionState::Closed, seq![]),
        (SessionState::Handshaking, SessionEvent::HelloSent) => (
            SessionState::AwaitingIdentify,
            seq![],
        ),
        (SessionState::AwaitingIdentify, SessionEvent::IdentifyOk) => (
            SessionState::Establishing,
            seq![],
        ),
        (SessionState::AwaitingIdentify, SessionEvent::IdentifyInvalidToken) => (
            SessionState::Closing,
            seq![FrameKind::CloseFrame { code: CLOSE_UNSUPPORTED }],
        ),
        (SessionState::AwaitingIdentify, SessionEvent::IdentifyDecodeError) => (
            SessionState::Closing,
            seq![FrameKind::CloseFrame { code: CLOSE_UNSUPPORTED }],
        ),
        (SessionState::AwaitingIdentify, SessionEvent::IdentifyWrongFrame) => (
            SessionState::Closing,
            seq![FrameKind::CloseFrame { code: CLOSE_UNSUPPORTED }],
        ),
        (SessionState::AwaitingIdentify, SessionEvent::IdentifyTimeout) => (
            SessionState::Closing,
            seq![FrameKind::CloseFrame { code: CLOSE_POLICY }],
        ),
        (SessionState::Establishing, SessionEvent::Established) => (
            SessionState::Running,
            seq![FrameKind::Ready],
        ),
        (SessionState::Establishing, SessionEvent::EstablishFailed) => (
            SessionState::Closing,
            seq![FrameKind::CloseFrame { code: CLOSE_ABNORMAL }],
        ),
        (SessionState::Running, SessionEvent::Forward) => (
            SessionState::Running,
            seq![FrameKind::Event],
        ),
        (SessionState::Running, SessionEvent::PongReply) => (
            SessionState::Running,
            seq![FrameKind::Pong],
        ),
        (SessionState::Running, SessionEvent::Terminal { graceful }) => (
            SessionState::Closing,
            seq![
                FrameKind::CloseFrame {
                    code: if graceful {
                        CLOSE_NORMAL
                    } else {
                        CLOSE_ABNORMAL
                    },
                },
            ],
        ),
        (SessionState::Closing, SessionEvent::CleanupDone) => (SessionState::Closed, seq![]),
        _ => (st, seq![]),
    }
}

/// Run one transition.
pub fn step(st: SessionState, ev: SessionEvent) -> (r: (SessionState, Vec<FrameKind>))
    ensures
        (r.0, r.1@) == step_spec(st, ev),
{
    let mut out: Vec<FrameKind> = Vec::new();
    let next: SessionState = match (st, ev) {
        (SessionState::Accepted, SessionEvent::UpgradeOk) => {
            out.push(FrameKind::Hello);
            SessionState::Handshaking
        },
        (SessionState::Accepted, SessionEvent::UpgradeFailed) => SessionState::Closed,
        (SessionState::Handshaking, SessionEvent::HelloSent) => SessionState::AwaitingIdentify,
        (SessionState::AwaitingIdentify, SessionEvent::IdentifyOk) => SessionState::Establishing,
        (SessionState::AwaitingIdentify, SessionEvent::IdentifyInvalidToken) => {
            out.push(FrameKind::CloseFrame { code: CLOSE_UNSUPPORTED });
            SessionState::Closing
        },
        (SessionState::AwaitingIdentify, SessionEvent::IdentifyDecodeError) => {
            out.push(FrameKind::CloseFrame { code: CLOSE_UNSUPPORTED });
            SessionState::Closing
        },
        (SessionState::AwaitingIdentify, SessionEvent::IdentifyWrongFrame) => {
            out.push(FrameKind::CloseFrame { code: CLOSE_UNSUPPORTED });
            SessionState::Closing
        },
        (SessionState::AwaitingIdentify, SessionEvent::IdentifyTimeout) => {
            out.push(FrameKind::CloseFrame { code: CLOSE_POLICY });
            SessionState::Closing
        },
        (SessionState::Establishing, SessionEvent::Established) => {
            out.push(FrameKind::Ready);
            SessionState::Running
        },
        (SessionState::Establishing, SessionEvent::EstablishFailed) => {
            out.push(FrameKind::CloseFrame { code: CLOSE_ABNORMAL });
            SessionState::Closing
        },
        (SessionState::Running, SessionEvent::Forward) => {
            out.push(FrameKind::Event);
            SessionState::Running
        },
        (SessionState::Running, SessionEvent::PongReply) => {
            out.push(FrameKind::Pong);
            SessionState::Running
        },
        (SessionState::Running, SessionEvent::Terminal { graceful }) => {
            if graceful {
                out.push(FrameKind::CloseFrame { code: CLOSE_NORMAL });
            } else {
                out.push(FrameKind::CloseFrame { code: CLOSE_ABNORMAL });
            }
            SessionState::Closing
        },
        (SessionState::Closing, SessionEvent::CleanupDone) => SessionState::Closed,
        _ => st,
    };
    (next, out)
}

/// The machine run over a whole observation sequence, from a fresh
/// connection: final state and every frame emitted, in order.
pub open spec fn run_spec(evs: Seq<SessionEvent>) -> (SessionState, Seq<FrameKind>)
    decreases evs.len(),
{
    if evs.len() == 0 {
        (SessionState::Accepted, Seq::empty())
    } else {
        let prev = run_spec(evs.drop_last());
        let stepped = step_spec(prev.0, evs.last());
        (stepped.0, prev.1 + stepped.1)
    }
}

/// The non-control frames of an emission history: everything but close
/// frames.
pub open spec fn data_frames(out: Seq<FrameKind>) -> Seq<FrameKind>
    decreases out.len(),
{
    if out.len() == 0 {
        Seq::empty()
    } else {
        data_frames(out.drop_last()) + if out.last() is CloseFrame {
            Seq::<FrameKind>::empty()
        } else {
            seq![out.last()]
        }
    }
}

/// The states reachable with a given emission history.
spec fn run_inv(st: SessionState, out: Seq<FrameKind>) -> bool {
    let d = data_frames(out);
    &&& (out.len() > 0 ==> out[0] == FrameKind::Hello)
    &&& (d.len() > 0 ==> d[0] == FrameKind::Hello)
    &&& (d.len() > 1 ==> d[1] == FrameKind::Ready)
    &&& match st {
        SessionState::Accepted => out.len() == 0,
        SessionState::Handshaking => out.len() == 1,
        SessionState::AwaitingIdentify => out.len() == 1,
        SessionState::Establishing => out.len() == 1,
        SessionState::Running => d.len() >= 2,
        SessionState::Closing => true,
        SessionState::Closed => true,
    }
}

proof fn lemma_data_frames_push(out: Seq<FrameKind>, k: FrameKind)
    ensures
        data_frames(out + seq![k]) == data_frames(out) + if k is CloseFrame {
            Seq::<FrameKind>::empty()
        } else {
            seq![k]
        },
{
    assert((out + seq![k]).drop_last() =~= out);
    assert((out + seq![k]).last() == k);
}

proof fn lemma_run_inv(evs: Seq<SessionEvent>)
    ensures
        run_inv(run_spec(evs).0, run_spec(evs).1),
    decreases evs.len(),
{
    if evs.len() == 0 {
    } else {
        lemma_run_inv(evs.drop_last());
        let prev = run_spec(evs.drop_last());
        let stepped = step_spec(prev.0, evs.last());
        let em = stepped.1;
        if em.len() == 0 {
            assert(prev.1 + em =~= prev.1);
        } else {
            assert(em.len() == 1);
            assert(prev.1 + em =~= prev.1 + seq![em[0]]);
            lemma_data_frames_push(prev.1, em[0]);
            assert(data_frames(prev.1 + em) == data_frames(prev.1) + if em[0] is CloseFrame {
                Seq::<FrameKind>::empty()
            } else {
                seq![em[0]]
            });
        }
    }
}

/// Law: over any observation sequence, the machine's first outbound frame
/// is `Hello`, and its second non-control outbound frame is `Ready`.
pub proof fn lemma_hello_then_ready(evs: Seq<SessionEvent>)
    ensures
        run_spec(evs).1.len() > 0 ==> run_spec(evs).1[0] == FrameKind::Hello,
        data_frames(run_spec(evs).1).len() > 0 ==> data_frames(run_spec(evs).1)[0]
            == FrameKind::Hello,
        data_frames(run_spec(evs).1).len() > 1 ==> data_frames(run_spec(evs).1)[1]
            == FrameKind::Ready,
{
    lemma_run_inv(evs);
}

} // verus!
