//! The client pipeline: what one frame read from the WebSocket means.
//!
//! The I/O shell reads a frame, admits it through the rate limiter, decodes
//! it, and dispatches the decoded message here.  A `Ping` yields exactly
//! one `Pong` reply and nothing else; a presence update is applied to the
//! store and fanned out; everything else on a running session is ignored.

use vstd::prelude::*;
use vstd::string::*;

use crate::events::{
    declare_events_plan, publish_presence_change, BrokerAction, ExchangeRef, InboundMessage,
    OutboundMessage, RoutingKey,
};
use crate::model::{Presence, Status};
use crate::presence::PresenceStore;
use crate::ratelimit::{refilled, RateLimiter};

verus! {

/// Close code for unsupported data (decode failures, invalid tokens).
pub const CLOSE_UNSUPPORTED: u16 = 1003;

/// Close code for policy violations (rate limit, missing Identify).
pub const CLOSE_POLICY: u16 = 1008;

/// Close code for a graceful end.
pub const CLOSE_NORMAL: u16 = 1000;

/// Close code for internal errors while running.
pub const CLOSE_ABNORMAL: u16 = 1011;

/// Whether a frame may enter the session.
#[derive(Clone, Copy, PartialEq, Eq, Structural, Debug)]
pub enum Admission {
    /// The client closed the connection: terminate gracefully.
    Closed,
    /// Over the limit: close with `CLOSE_POLICY` and terminate.
    RateLimited,
    /// Decode and dispatch the frame.
    Admitted,
}

/// Admit one inbound frame: client close frames terminate, anything else
/// spends one rate-limit token.
pub fn admit_client_frame(limiter: &mut RateLimiter, now_ms: u64, is_close: bool) -> (r:
    Admission)
    requires
        old(limiter).wf(),
    ensures
        final (limiter).wf(),
        is_close ==> r == Admission::Closed && *final (limiter) == *old(limiter),
        !is_close ==> r == (if refilled(*old(limiter), now_ms).tokens > 0 {
            Admission::Admitted
        } else {
            Admission::RateLimited
        }),
{
    if is_close {
        Admission::Closed
    } else if limiter.check(now_ms) {
        Admission::Admitted
    } else {
        Admission::RateLimited
    }
}

/// The close frame sent when the rate limit is exceeded.
pub fn rate_limit_close() -> (r: (u16, String))
    ensures
        r.0 == CLOSE_POLICY,
        r.1@ == "Rate limit exceeded"@,
{
    (CLOSE_POLICY, String::from_str("Rate limit exceeded"))
}

/// What a decoded client message asks for.
pub enum ClientAction {
    /// Nothing; the message is ignored on a running session.
    Ignore,
    /// Reply with a single `Pong` frame on this connection.
    ReplyPong,
    /// Store the new status and fan the change out.
    SetPresence(Status),
}

/// Dispatch one decoded client message.
///
/// A `Ping` asks for exactly one `Pong` and nothing else, and nothing but
/// a `Ping` asks for one.
pub fn handle_client_message(msg: &InboundMessage) -> (r: ClientAction)
    ensures
        (msg is Ping) <==> (r is ReplyPong),
        msg matches InboundMessage::UpdatePresence { status: Some(s) } ==> r == ClientAction::SetPresence(*s),
        (r is SetPresence) ==> (msg matches InboundMessage::UpdatePresence { status: Some(s) }
            && r == ClientAction::SetPresence(*s)),
        msg matches InboundMessage::UpdatePresence { status: None } ==> r is Ignore,
        msg is Identify ==> r is Ignore,
{
    match msg {
        InboundMessage::Ping => ClientAction::ReplyPong,
        InboundMessage::UpdatePresence { status: Some(s) } => ClientAction::SetPresence(*s),
        _ => ClientAction::Ignore,
    }
}

/// Apply a presence update requested by the client: store the status and
/// plan the fan-out of the derived presence to every observer and to the
/// user itself.
pub fn apply_presence_update(
    store: &mut PresenceStore,
    user_id: u64,
    status: Status,
    observers: &Vec<u64>,
) -> (r: (Presence, Vec<BrokerAction>))
    requires
        old(store).wf(),
    ensures
        final (store).wf(),
        final (store).status_of(user_id) == status,
        forall|u: u64|
            u != user_id ==> #[trigger] final (store).status_of(u) == old(store).status_of(u),
        forall|u: u64| #[trigger] final (store).sessions_of(u) == old(store).sessions_of(u),
        r.0.user_id == user_id,
        r.0.status == status,
        r.0.custom_status is None,
        r.0.devices.bits == crate::model::devices_union(final (store).sessions_of(user_id)),
        r.0.online_since == if status != Status::Offline && final (store).sessions_of(
            user_id,
        ).len() > 0 {
            Some(final (store).sessions_of(user_id)[0].online_since)
        } else {
            None::<u64>
        },
        r.1@.len() == 2 * (observers@.len() + 1),
        forall|i: int|
            0 <= i <= observers@.len() ==> #[trigger] r.1@[2 * i] == declare_events_plan(),
        forall|i: int|
            0 <= i <= observers@.len() ==> ((#[trigger] r.1@[2 * i + 1]) matches
                BrokerAction::Publish {
                    exchange: ExchangeRef::Events,
                    routing_key: RoutingKey::User(target),
                    event: OutboundMessage::PresenceUpdate { presence: p },
                } && target == (if i < observers@.len() {
                observers@[i]
            } else {
                user_id
            }) && p@ == r.0@),
{
    store.update_presence(user_id, status);
    let presence = store.derived_presence(user_id, status);
    let actions = publish_presence_change(observers, user_id, &presence);
    (presence, actions)
}

} // verus!
