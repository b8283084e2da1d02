//! The gateway's view of protocol messages, and the broker topology
//! actions it plans.
//!
//! Broker work is described as plain `BrokerAction` values; the I/O shell
//! executes them in order against the real broker channel.  Every exchange
//! reference and routing key is symbolic here; `exchange_name` and
//! `routing_key_string` render the exact wire names.

use vstd::prelude::*;
use vstd::string::*;

use crate::model::{Device, Presence, Status};
use crate::text::{dec_str, u64_to_dec};

verus! {

/// A message from the client.
pub enum InboundMessage {
    Identify { token: String, status: Status, device: Device },
    Ping,
    UpdatePresence { status: Option<Status> },
}

/// A message towards the client, as far as the gateway reads it.  Events
/// relayed from the broker keep their full payload in the I/O shell; the
/// gateway's routing decisions only need the fields carried here.
pub enum OutboundMessage {
    Hello,
    Pong,
    Ready { session_id: String, presences: Vec<Presence> },
    PresenceUpdate { presence: Presence },
    GuildCreate { guild_id: u64 },
    GuildRemove { guild_id: u64 },
    ChannelCreateDm { channel_id: u64 },
    ChannelCreateGuild { guild_id: u64, channel_id: u64 },
    ChannelUpdateGuild { guild_id: u64, channel_id: u64 },
    ChannelDelete { channel_id: u64 },
    RoleCreate { guild_id: u64 },
    RoleUpdate { guild_id: u64 },
    MessageCreate { channel_id: u64 },
    MessageUpdate { channel_id: u64 },
    MessageDelete { channel_id: u64 },
    Other,
}

#[derive(Clone, Copy, PartialEq, Eq, Structural, Debug)]
pub enum ExchangeKind {
    Topic,
    Fanout,
}

/// An exchange, named symbolically: the shared direct-to-user exchange, or
/// a per-guild / per-DM-channel exchange named by the stringified id.
#[derive(Clone, Copy, PartialEq, Eq, Structural, Debug)]
pub enum ExchangeRef {
    Events,
    Entity(u64),
}

/// A routing key, symbolically: the fixed `all` key, one user id, or a
/// dot-joined list of user ids.
pub enum RoutingKey {
    All,
    User(u64),
    Users(Vec<u64>),
}

/// One step of broker work, to be carried out by the I/O shell against the
/// session's channel, in order.
pub enum BrokerAction {
    /// Declare the session's queue (named by the session id), auto-delete.
    DeclareSessionQueue,
    DeclareExchange { exchange: ExchangeRef, kind: ExchangeKind, durable: bool, auto_delete: bool },
    /// Bind the session's queue.
    BindSessionQueue { exchange: ExchangeRef, routing_key: RoutingKey },
    /// Remove a binding of the session's queue.
    UnbindSessionQueue { exchange: ExchangeRef, routing_key: RoutingKey },
    Publish { exchange: ExchangeRef, routing_key: RoutingKey, event: OutboundMessage },
    /// Start the consumer on the session's queue, with the standard tag.
    StartConsumer,
    CloseChannel,
}

/// The declaration of the shared, durable `events` exchange.
pub open spec fn declare_events_plan() -> BrokerAction {
    BrokerAction::DeclareExchange {
        exchange: ExchangeRef::Events,
        kind: ExchangeKind::Topic,
        durable: true,
        auto_delete: false,
    }
}

/// The actions of `subscribe`: declare the entity exchange, then bind the
/// session queue to it with the `all` key.
pub open spec fn subscribe_plan(exchange_id: u64, kind: ExchangeKind) -> Seq<BrokerAction> {
    seq![
        (BrokerAction::DeclareExchange {
            exchange: ExchangeRef::Entity(exchange_id),
            kind,
            durable: false,
            auto_delete: true,
        }),
        (BrokerAction::BindSessionQueue {
            exchange: ExchangeRef::Entity(exchange_id),
            routing_key: RoutingKey::All,
        }),
    ]
}

/// The actions of `unsubscribe`.
pub open spec fn unsubscribe_plan(exchange_id: u64) -> Seq<BrokerAction> {
    seq![
        (BrokerAction::UnbindSessionQueue {
            exchange: ExchangeRef::Entity(exchange_id),
            routing_key: RoutingKey::All,
        }),
    ]
}

/// Publish an event to one user through the shared `events` exchange.
pub fn publish_user_event(user_id: u64, event: OutboundMessage) -> (r: Vec<BrokerAction>)
    ensures
        r@ =~= seq![
            (BrokerAction::DeclareExchange {
                exchange: ExchangeRef::Events,
                kind: ExchangeKind::Topic,
                durable: true,
                auto_delete: false,
            }),
            (BrokerAction::Publish {
                exchange: ExchangeRef::Events,
                routing_key: RoutingKey::User(user_id),
                event,
            }),
        ],
{
    let mut r: Vec<BrokerAction> = Vec::new();
    r.push(
        BrokerAction::DeclareExchange {
            exchange: ExchangeRef::Events,
            kind: ExchangeKind::Topic,
            durable: true,
            auto_delete: false,
        },
    );
    r.push(
        BrokerAction::Publish {
            exchange: ExchangeRef::Events,
            routing_key: RoutingKey::User(user_id),
            event,
        },
    );
    r
}

/// Publish one event addressed to several users at once.
pub fn publish_bulk_event(user_ids: Vec<u64>, event: OutboundMessage) -> (r: Vec<BrokerAction>)
    ensures
        r@ =~= seq![
            (BrokerAction::DeclareExchange {
                exchange: ExchangeRef::Events,
                kind: ExchangeKind::Topic,
                durable: true,
                auto_delete: false,
            }),
            (BrokerAction::Publish {
                exchange: ExchangeRef::Events,
                routing_key: RoutingKey::Users(user_ids),
                event,
            }),
        ],
{
    let mut r: Vec<BrokerAction> = Vec::new();
    r.push(
        BrokerAction::DeclareExchange {
            exchange: ExchangeRef::Events,
            kind: ExchangeKind::Topic,
            durable: true,
            auto_delete: false,
        },
    );
    r.push(
        BrokerAction::Publish {
            exchange: ExchangeRef::Events,
            routing_key: RoutingKey::Users(user_ids),
            event,
        },
    );
    r
}

/// Publish an event on a guild's own exchange.
pub fn publish_guild_event(guild_id: u64, event: OutboundMessage) -> (r: Vec<BrokerAction>)
    ensures
        r@ =~= seq![
            (BrokerAction::DeclareExchange {
                exchange: ExchangeRef::Entity(guild_id),
                kind: ExchangeKind::Topic,
                durable: false,
                auto_delete: true,
            }),
            (BrokerAction::Publish {
                exchange: ExchangeRef::Entity(guild_id),
                routing_key: RoutingKey::All,
                event,
            }),
        ],
{
    let mut r: Vec<BrokerAction> = Vec::new();
    r.push(
        BrokerAction::DeclareExchange {
            exchange: ExchangeRef::Entity(guild_id),
            kind: ExchangeKind::Topic,
            durable: false,
            auto_delete: true,
        },
    );
    r.push(
        BrokerAction::Publish {
            exchange: ExchangeRef::Entity(guild_id),
            routing_key: RoutingKey::All,
            event,
        },
    );
    r
}

/// Bind the session's queue to an entity exchange, declaring the exchange
/// first so that declaration stays idempotent cluster-wide.
pub fn subscribe(exchange_id: u64, kind: ExchangeKind) -> (r: Vec<BrokerAction>)
    ensures
        r@ =~= seq![
            (BrokerAction::DeclareExchange {
                exchange: ExchangeRef::Entity(exchange_id),
                kind,
                durable: false,
                auto_delete: true,
            }),
            (BrokerAction::BindSessionQueue {
                exchange: ExchangeRef::Entity(exchange_id),
                routing_key: RoutingKey::All,
            }),
        ],
{
    let mut r: Vec<BrokerAction> = Vec::new();
    r.push(
        BrokerAction::DeclareExchange {
            exchange: ExchangeRef::Entity(exchange_id),
            kind,
            durable: false,
            auto_delete: true,
        },
    );
    r.push(
        BrokerAction::BindSessionQueue {
            exchange: ExchangeRef::Entity(exchange_id),
            routing_key: RoutingKey::All,
        },
    );
    r
}

/// Drop the session queue's binding to an entity exchange.
pub fn unsubscribe(exchange_id: u64) -> (r: Vec<BrokerAction>)
    ensures
        r@ =~= seq![
            (BrokerAction::UnbindSessionQueue {
                exchange: ExchangeRef::Entity(exchange_id),
                routing_key: RoutingKey::All,
            }),
        ],
{
    let mut r: Vec<BrokerAction> = Vec::new();
    r.push(
        BrokerAction::UnbindSessionQueue {
            exchange: ExchangeRef::Entity(exchange_id),
            routing_key: RoutingKey::All,
        },
    );
    r
}

/// Fan a presence change out to every observer, and to the user itself:
/// one `PresenceUpdate` publish per recipient, in order.
pub fn publish_presence_change(observers: &Vec<u64>, user_id: u64, presence: &Presence) -> (r:
    Vec<BrokerAction>)
    ensures
        r@.len() == 2 * (observers@.len() + 1),
        forall|i: int|
            0 <= i <= observers@.len() ==> #[trigger] r@[2 * i] == (BrokerAction::DeclareExchange {
                exchange: ExchangeRef::Events,
                kind: ExchangeKind::Topic,
                durable: true,
                auto_delete: false,
            }),
        forall|i: int|
            0 <= i <= observers@.len() ==> ((#[trigger] r@[2 * i + 1]) matches
                BrokerAction::Publish {
                    exchange: ExchangeRef::Events,
                    routing_key: RoutingKey::User(target),
                    event: OutboundMessage::PresenceUpdate { presence: p },
                } && target == (if i < observers@.len() {
                observers@[i]
            } else {
                user_id
            }) && p@ == presence@),
{
    let mut r: Vec<BrokerAction> = Vec::new();
    let mut i: usize = 0;
    while i < observers.len()
        invariant
            0 <= i <= observers@.len(),
            r@.len() == 2 * i,
            forall|k: int|
                0 <= k < i ==> #[trigger] r@[2 * k] == (BrokerAction::DeclareExchange {
                    exchange: ExchangeRef::Events,
                    kind: ExchangeKind::Topic,
                    durable: true,
                    auto_delete: false,
                }),
            forall|k: int|
                0 <= k < i ==> ((#[trigger] r@[2 * k + 1]) matches BrokerAction::Publish {
                    exchange: ExchangeRef::Events,
                    routing_key: RoutingKey::User(target),
                    event: OutboundMessage::PresenceUpdate { presence: p },
                } && target == observers@[k] && p@ == presence@),
        decreases observers@.len() - i,
    {
        r.push(
            BrokerAction::DeclareExchange {
                exchange: ExchangeRef::Events,
                kind: ExchangeKind::Topic,
                durable: true,
                auto_delete: false,
            },
        );
        r.push(
            BrokerAction::Publish {
                exchange: ExchangeRef::Events,
                routing_key: RoutingKey::User(observers[i]),
                event: OutboundMessage::PresenceUpdate { presence: presence.clone() },
            },
        );
        i = i + 1;
    }
    r.push(
        BrokerAction::DeclareExchange {
            exchange: ExchangeRef::Events,
            kind: ExchangeKind::Topic,
            durable: true,
            auto_delete: false,
        },
    );
    r.push(
        BrokerAction::Publish {
            exchange: ExchangeRef::Events,
            routing_key: RoutingKey::User(user_id),
            event: OutboundMessage::PresenceUpdate { presence: presence.clone() },
        },
    );
    r
}

/// The chars of the `events` exchange's name.
pub open spec fn events_exchange_chars() -> Seq<char> {
    seq!['e', 'v', 'e', 'n', 't', 's']
}

/// The chars of the `all` routing key.
pub open spec fn all_key_chars() -> Seq<char> {
    seq!['a', 'l', 'l']
}

/// The ids of a bulk routing key, dot-joined.
pub open spec fn joined_ids_chars(ids: Seq<u64>) -> Seq<char>
    decreases ids.len(),
{
    if ids.len() == 0 {
        Seq::empty()
    } else if ids.len() == 1 {
        dec_str(ids[0] as nat)
    } else {
        joined_ids_chars(ids.drop_last()) + seq!['.'] + dec_str(ids.last() as nat)
    }
}

/// The wire name of an exchange.
pub fn exchange_name(exchange: &ExchangeRef) -> (r: String)
    ensures
        exchange is Events ==> r@ == events_exchange_chars(),
        exchange matches ExchangeRef::Entity(id) ==> r@ == dec_str(id as nat),
{
    match exchange {
        ExchangeRef::Events => {
            proof {
                reveal_strlit("events");
            }
            let r = String::from_str("events");
            assert(r@ =~= events_exchange_chars());
            r
        },
        ExchangeRef::Entity(id) => u64_to_dec(*id),
    }
}

/// The wire form of a routing key.
pub fn routing_key_string(key: &RoutingKey) -> (r: String)
    ensures
        key is All ==> r@ == all_key_chars(),
        key matches RoutingKey::User(u) ==> r@ == dec_str(u as nat),
        key matches RoutingKey::Users(ids) ==> r@ == joined_ids_chars(ids@),
{
    match key {
        RoutingKey::All => {
            proof {
                reveal_strlit("all");
            }
            let r = String::from_str("all");
            assert(r@ =~= all_key_chars());
            r
        },
        RoutingKey::User(u) => u64_to_dec(*u),
        RoutingKey::Users(ids) => {
            proof {
                reveal_strlit(".");
            }
            let mut r = String::new();
            let mut i: usize = 0;
            while i < ids.len()
                invariant
                    0 <= i <= ids@.len(),
                    r@ == joined_ids_chars(ids@.take(i as int)),
                decreases ids@.len() - i,
            {
                if i > 0 {
                    r.append(".");
                }
                let num = u64_to_dec(ids[i]);
                r.append(num.as_str());
                proof {
                    reveal_strlit(".");
                    assert(ids@.take(i + 1).last() == ids@[i as int]);
                    if i > 0 {
                        assert(ids@.take(i + 1).drop_last() =~= ids@.take(i as int));
                    } else {
                        assert(ids@.take(i + 1).len() == 1);
                    }
                    assert(r@ =~= joined_ids_chars(ids@.take(i + 1)));
                }
                i = i + 1;
            }
            proof {
                assert(ids@.take(ids@.len() as int) =~= ids@);
            }
            r
        },
    }
}

} // verus!
