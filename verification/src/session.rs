//! One authenticated connection's identity, and the store side of
//! establishing it.

use vstd::prelude::*;

use crate::codec::ConnectionSettings;
use crate::events::{
    declare_events_plan, publish_presence_change, BrokerAction, ExchangeRef, OutboundMessage,
    RoutingKey,
};
use crate::model::{devices_union, Device, Presence, PresenceSession, PresenceSessionV, Status};
use crate::presence::PresenceStore;

verus! {

/// A lowercase hexadecimal digit.
pub open spec fn is_lower_hex(c: char) -> bool {
    ('0' <= c && c <= '9') || ('a' <= c && c <= 'f')
}

/// Relies on uuid::Uuid::new_v4 and uuid::fmt::Simple::encode_lower: a
/// fresh random UUID in simple form, 32 lowercase hexadecimal characters.
/// The value is random; only its shape holds of every outcome.
#[verifier::external_body]
fn fresh_session_id() -> (r: String)
    ensures
        r@.len() == 32,
        forall|i: int| 0 <= i < 32 ==> is_lower_hex(#[trigger] r@[i]),
{
    let id = uuid::Uuid::new_v4();
    id.as_simple().encode_lower(&mut uuid::Uuid::encode_buffer()).to_string()
}

/// Relies on chrono::Utc::now and DateTime::timestamp_millis: the wall
/// clock in milliseconds since the Unix epoch.  `Utc::now` refuses a
/// system clock set before 1970, so every reading it returns is at or
/// after the epoch; beyond that, nothing holds of the value.
#[verifier::external_body]
fn now_unix_millis() -> (r: i64)
    ensures
        r >= 0,
{
    chrono::Utc::now().timestamp_millis()
}

/// The wall clock as the gateway uses it.
pub fn current_millis() -> u64 {
    let t = now_unix_millis();
    t as u64
}

/// One WebSocket connection's session, minted at Identify.
pub struct UserSession {
    pub settings: ConnectionSettings,
    /// Cluster-unique, 32 lowercase hex characters; doubles as the name of
    /// the session's queue.
    pub session_id: String,
    pub token: String,
    pub user_id: u64,
}

impl UserSession {
    /// Mint the session for a user whose token the authentication service
    /// has already resolved.
    pub fn new(settings: ConnectionSettings, token: String, user_id: u64) -> (r: UserSession)
        ensures
            r.settings == settings,
            r.token@ == token@,
            r.user_id == user_id,
            r.session_id@.len() == 32,
            forall|i: int| 0 <= i < 32 ==> is_lower_hex(#[trigger] r.session_id@[i]),
    {
        UserSession { settings, session_id: fresh_session_id(), token, user_id }
    }

    /// The session id, as the queue name and consumer tag use it.
    pub fn get_session_id_str(&self) -> (r: &str)
        ensures
            r@ == self.session_id@,
    {
        self.session_id.as_str()
    }

    /// The Ready event for this session, carrying the observers'
    /// presences.
    pub fn get_ready_event(&self, presences: Vec<Presence>) -> (r: OutboundMessage)
        ensures
            (r matches OutboundMessage::Ready { session_id, presences: p } && session_id@
                == self.session_id@ && p == presences),
    {
        OutboundMessage::Ready { session_id: self.session_id.clone(), presences }
    }
}

/// The store side of Establishing, in order: record the session, store the
/// status, and plan the presence fan-out to every observer and the user.
pub fn establish_presence(
    store: &mut PresenceStore,
    user_id: u64,
    session_id: &String,
    device: Device,
    status: Status,
    now_ms: u64,
    observers: &Vec<u64>,
) -> (r: Vec<BrokerAction>)
    requires
        old(store).wf(),
    ensures
        final (store).wf(),
        final (store).sessions_of(user_id) == old(store).sessions_of(user_id).push(
            PresenceSessionV { session_id: session_id@, online_since: now_ms, device },
        ),
        final (store).status_of(user_id) == status,
        forall|u: u64|
            u != user_id ==> #[trigger] final (store).sessions_of(u) == old(store).sessions_of(u),
        forall|u: u64|
            u != user_id ==> #[trigger] final (store).status_of(u) == old(store).status_of(u),
        r@.len() == 2 * (observers@.len() + 1),
        forall|i: int|
            0 <= i <= observers@.len() ==> #[trigger] r@[2 * i] == declare_events_plan(),
        forall|i: int|
            0 <= i <= observers@.len() ==> ((#[trigger] r@[2 * i + 1]) matches
                BrokerAction::Publish {
                    exchange: ExchangeRef::Events,
                    routing_key: RoutingKey::User(target),
                    event: OutboundMessage::PresenceUpdate { presence: p },
                } && target == (if i < observers@.len() {
                observers@[i]
            } else {
                user_id
            }) && p@.user_id == user_id && p@.status == status && p@.custom_status is None
                && p@.devices == devices_union(final (store).sessions_of(user_id))
                && p@.online_since == (if status != Status::Offline {
                Some(final (store).sessions_of(user_id)[0].online_since)
            } else {
                None::<u64>
            })),
{
    let record = PresenceSession {
        session_id: session_id.clone(),
        online_since: now_ms,
        device,
    };
    store.insert_session(user_id, record);
    store.update_presence(user_id, status);
    let presence = store.derived_presence(user_id, status);
    publish_presence_change(observers, user_id, &presence)
}

} // verus!
