//! The upstream pipeline: what one broker delivery means for the session.
//!
//! The I/O shell decodes the delivery's payload, asks `process_delivery`
//! what to do, performs the returned broker actions, resolves a recompute
//! request against fresh guild data, and forwards the event when told to.
//! Every delivery yields exactly one verdict, and the verdict is applied
//! to the broker exactly once, when the outcome is carried out.

use vstd::prelude::*;

use crate::events::{
    subscribe, subscribe_plan, unsubscribe, unsubscribe_plan, BrokerAction, ExchangeKind,
    ExchangeRef, OutboundMessage, RoutingKey,
};
use crate::hidden::HiddenChannels;

verus! {

/// The broker's acknowledgement of one delivery.
#[derive(Clone, Copy, PartialEq, Eq, Structural, Debug)]
pub enum Verdict {
    Ack,
    Nack,
}

/// A request to refetch a guild's permission data: the whole guild after a
/// role event, or one channel of it after a channel event.
#[derive(Clone, Copy, PartialEq, Eq, Debug)]
pub struct RecomputeRequest {
    pub guild_id: u64,
    pub channel_id: Option<u64>,
}

/// What one delivery asks of the session.
pub struct DeliveryOutcome {
    /// The single acknowledgement owed to the broker for this delivery.
    pub verdict: Verdict,
    /// Tear the session down (the payload broke the broker protocol).
    pub terminate: bool,
    /// Encode the event and enqueue it for the client now.
    pub forward: bool,
    /// Refetch permissions first; forwarding is then decided by
    /// `forward_after_recompute`.
    pub recompute: Option<RecomputeRequest>,
    /// Topology maintenance to run against the broker, in order.
    pub actions: Vec<BrokerAction>,
}

/// Does `r` record exactly the decision owed to one delivery whose
/// payload decoded to `decoded`, against the hidden set `hidden`?
pub open spec fn outcome_matches(
    decoded: Option<OutboundMessage>,
    hidden: HiddenChannels,
    r: DeliveryOutcome,
) -> bool {
    &&& r.verdict == (if decoded is Some {
        Verdict::Ack
    } else {
        Verdict::Nack
    })
    &&& r.terminate == (decoded is None)
    &&& decoded is None ==> !r.forward && r.recompute is None && r.actions@ == Seq::<
        BrokerAction,
    >::empty()
    &&& decoded matches Some(ev) ==> match ev {
            OutboundMessage::GuildCreate { guild_id } => r.actions@ == subscribe_plan(
                guild_id,
                ExchangeKind::Topic,
            ) && r.forward && r.recompute is None,
            OutboundMessage::GuildRemove { guild_id } => r.actions@ == unsubscribe_plan(guild_id)
                && r.forward && r.recompute is None,
            OutboundMessage::ChannelCreateDm { channel_id } => r.actions@ == subscribe_plan(
                channel_id,
                ExchangeKind::Topic,
            ) && r.forward && r.recompute is None,
            OutboundMessage::ChannelDelete { channel_id } => r.actions@ == unsubscribe_plan(
                channel_id,
            ) && r.forward && r.recompute is None,
            OutboundMessage::ChannelCreateGuild { guild_id, channel_id } => r.actions@ == Seq::<
                BrokerAction,
            >::empty() && !r.forward && r.recompute == Some(
                RecomputeRequest { guild_id, channel_id: Some(channel_id) },
            ),
            OutboundMessage::ChannelUpdateGuild { guild_id, channel_id } => r.actions@ == Seq::<
                BrokerAction,
            >::empty() && !r.forward && r.recompute == Some(
                RecomputeRequest { guild_id, channel_id: Some(channel_id) },
            ),
            OutboundMessage::RoleCreate { guild_id } => r.actions@ == Seq::<
                BrokerAction,
            >::empty() && !r.forward && r.recompute == Some(
                RecomputeRequest { guild_id, channel_id: None },
            ),
            OutboundMessage::RoleUpdate { guild_id } => r.actions@ == Seq::<
                BrokerAction,
            >::empty() && !r.forward && r.recompute == Some(
                RecomputeRequest { guild_id, channel_id: None },
            ),
            OutboundMessage::MessageCreate { channel_id } => r.actions@ == Seq::<
                BrokerAction,
            >::empty() && r.forward == !hidden.hides(channel_id) && r.recompute is None,
            OutboundMessage::MessageUpdate { channel_id } => r.actions@ == Seq::<
                BrokerAction,
            >::empty() && r.forward == !hidden.hides(channel_id) && r.recompute is None,
            OutboundMessage::MessageDelete { channel_id } => r.actions@ == Seq::<
                BrokerAction,
            >::empty() && r.forward == !hidden.hides(channel_id) && r.recompute is None,
            _ => r.actions@ == Seq::<BrokerAction>::empty() && r.forward && r.recompute is None,
    }
}

/// Decide one broker delivery.
///
/// `decoded` is `None` when the payload did not decode as an event: the
/// delivery is rejected and the pipeline stops, since producers must only
/// publish well-formed payloads.  A decoded event is always acknowledged;
/// message events are forwarded exactly when their channel is not hidden
/// at this moment, so no hidden channel's message ever reaches the client.
/// `outcome_matches` says the whole decision.
pub fn process_delivery(decoded: Option<&OutboundMessage>, hidden: &HiddenChannels) -> (r:
    DeliveryOutcome)
    ensures
        outcome_matches(
            match decoded {
                Some(ev) => Some(*ev),
                None => None,
            },
            *hidden,
            r,
        ),
{
    match decoded {
        None => DeliveryOutcome {
            verdict: Verdict::Nack,
            terminate: true,
            forward: false,
            recompute: None,
            actions: Vec::new(),
        },
        Some(ev) => match ev {
            OutboundMessage::GuildCreate { guild_id } => DeliveryOutcome {
                verdict: Verdict::Ack,
                terminate: false,
                forward: true,
                recompute: None,
                actions: subscribe(*guild_id, ExchangeKind::Topic),
            },
            OutboundMessage::GuildRemove { guild_id } => DeliveryOutcome {
                verdict: Verdict::Ack,
                terminate: false,
                forward: true,
                recompute: None,
                actions: unsubscribe(*guild_id),
            },
            OutboundMessage::ChannelCreateDm { channel_id } => DeliveryOutcome {
                verdict: Verdict::Ack,
                terminate: false,
                forward: true,
                recompute: None,
                actions: subscribe(*channel_id, ExchangeKind::Topic),
            },
            OutboundMessage::ChannelDelete { channel_id } => DeliveryOutcome {
                verdict: Verdict::Ack,
                terminate: false,
                forward: true,
                recompute: None,
                actions: unsubscribe(*channel_id),
            },
            OutboundMessage::ChannelCreateGuild { guild_id, channel_id } => DeliveryOutcome {
                verdict: Verdict::Ack,
                terminate: false,
                forward: false,
                recompute: Some(
                    RecomputeRequest { guild_id: *guild_id, channel_id: Some(*channel_id) },
                ),
                actions: Vec::new(),
            },
            OutboundMessage::ChannelUpdateGuild { guild_id, channel_id } => DeliveryOutcome {
                verdict: Verdict::Ack,
                terminate: false,
                forward: false,
                recompute: Some(
                    RecomputeRequest { guild_id: *guild_id, channel_id: Some(*channel_id) },
                ),
                actions: Vec::new(),
            },
            OutboundMessage::RoleCreate { guild_id } => DeliveryOutcome {
                verdict: Verdict::Ack,
                terminate: false,
                forward: false,
                recompute: Some(RecomputeRequest { guild_id: *guild_id, channel_id: None }),
                actions: Vec::new(),
            },
            OutboundMessage::RoleUpdate { guild_id } => DeliveryOutcome {
                verdict: Verdict::Ack,
                terminate: false,
                forward: false,
                recompute: Some(RecomputeRequest { guild_id: *guild_id, channel_id: None }),
                actions: Vec::new(),
            },
            OutboundMessage::MessageCreate { channel_id } => DeliveryOutcome {
                verdict: Verdict::Ack,
                terminate: false,
                forward: !hidden.contains(*channel_id),
                recompute: None,
                actions: Vec::new(),
            },
            OutboundMessage::MessageUpdate { channel_id } => DeliveryOutcome {
                verdict: Verdict::Ack,
                terminate: false,
                forward: !hidden.contains(*channel_id),
                recompute: None,
                actions: Vec::new(),
            },
            OutboundMessage::MessageDelete { channel_id } => DeliveryOutcome {
                verdict: Verdict::Ack,
                terminate: false,
                forward: !hidden.contains(*channel_id),
                recompute: None,
                actions: Vec::new(),
            },
            _ => DeliveryOutcome {
                verdict: Verdict::Ack,
                terminate: false,
                forward: true,
                recompute: None,
                actions: Vec::new(),
            },
        },
    }
}

/// Once a recompute request has been resolved against the hidden set,
/// should the event that triggered it still be forwarded?  A channel event
/// is forwarded exactly when its channel ended up visible; role events are
/// always forwarded.
pub fn forward_after_recompute(hidden: &HiddenChannels, request: &RecomputeRequest) -> (r: bool)
    ensures
        r == match request.channel_id {
            Some(c) => !hidden.hides(c),
            None => true,
        },
{
    match request.channel_id {
        Some(c) => !hidden.contains(c),
        None => true,
    }
}

/// Process a run of decoded deliveries in arrival order, stopping after
/// the first one that terminates the pipeline.  Every delivery processed
/// gets exactly one outcome, the very decision `process_delivery` owes it:
/// a payload that decoded is acknowledged, an undecodable payload is
/// rejected and ends the run.
pub fn process(deliveries: &Vec<Option<OutboundMessage>>, hidden: &HiddenChannels) -> (r: Vec<
    DeliveryOutcome,
>)
    ensures
        r@.len() <= deliveries@.len(),
        forall|i: int|
            0 <= i < r@.len() ==> outcome_matches(deliveries@[i], *hidden, #[trigger] r@[i]),
        forall|i: int| 0 <= i < r@.len() - 1 ==> !(#[trigger] r@[i]).terminate,
        r@.len() < deliveries@.len() ==> r@.len() > 0 && r@[r@.len() - 1].terminate,
{
    let mut r: Vec<DeliveryOutcome> = Vec::new();
    let mut i: usize = 0;
    while i < deliveries.len()
        invariant
            0 <= i <= deliveries@.len(),
            r@.len() == i,
            forall|k: int|
                0 <= k < i ==> outcome_matches(deliveries@[k], *hidden, #[trigger] r@[k]),
            forall|k: int| 0 <= k < i ==> !(#[trigger] r@[k]).terminate,
        decreases deliveries@.len() - i,
    {
        let outcome = match &deliveries[i] {
            Some(ev) => process_delivery(Some(ev), hidden),
            None => process_delivery(None, hidden),
        };
        let stop = outcome.terminate;
        r.push(outcome);
        i = i + 1;
        if stop {
            return r;
        }
    }
    r
}

/// The actions of `upstream_setup`, in order.
pub open spec fn subscribe_all_plan(ids: Seq<u64>, kind: ExchangeKind) -> Seq<BrokerAction>
    decreases ids.len(),
{
    if ids.len() == 0 {
        Seq::empty()
    } else {
        subscribe_all_plan(ids.drop_last(), kind) + subscribe_plan(ids.last(), kind)
    }
}

pub open spec fn upstream_setup_plan(user_id: u64, guild_ids: Seq<u64>, dm_channel_ids: Seq<u64>) -> Seq<
    BrokerAction,
> {
    seq![BrokerAction::DeclareSessionQueue] + subscribe_all_plan(guild_ids, ExchangeKind::Topic)
        + subscribe_all_plan(dm_channel_ids, ExchangeKind::Topic) + seq![
        (BrokerAction::BindSessionQueue {
            exchange: ExchangeRef::Events,
            routing_key: RoutingKey::User(user_id),
        }),
        BrokerAction::StartConsumer,
    ]
}

/// Plan the session's broker setup, run once between Identify and Ready:
/// declare the session queue, subscribe every current guild and DM channel,
/// bind the direct-to-user exchange, and start the consumer.
pub fn upstream_setup(user_id: u64, guild_ids: &Vec<u64>, dm_channel_ids: &Vec<u64>) -> (r: Vec<
    BrokerAction,
>)
    ensures
        r@ == upstream_setup_plan(user_id, guild_ids@, dm_channel_ids@),
{
    let mut r: Vec<BrokerAction> = Vec::new();
    r.push(BrokerAction::DeclareSessionQueue);
    let mut i: usize = 0;
    while i < guild_ids.len()
        invariant
            0 <= i <= guild_ids@.len(),
            r@ == seq![BrokerAction::DeclareSessionQueue] + subscribe_all_plan(
                guild_ids@.take(i as int),
                ExchangeKind::Topic,
            ),
        decreases guild_ids@.len() - i,
    {
        let mut acts = subscribe(guild_ids[i], ExchangeKind::Topic);
        r.append(&mut acts);
        proof {
            assert(guild_ids@.take(i + 1).drop_last() =~= guild_ids@.take(i as int));
            assert(r@ =~= seq![BrokerAction::DeclareSessionQueue] + subscribe_all_plan(
                guild_ids@.take(i + 1),
                ExchangeKind::Topic,
            ));
        }
        i = i + 1;
    }
    proof {
        assert(guild_ids@.take(guild_ids@.len() as int) =~= guild_ids@);
    }
    let ghost after_guilds = r@;
    let mut j: usize = 0;
    while j < dm_channel_ids.len()
        invariant
            0 <= j <= dm_channel_ids@.len(),
            after_guilds == seq![BrokerAction::DeclareSessionQueue] + subscribe_all_plan(
                guild_ids@,
                ExchangeKind::Topic,
            ),
            r@ == after_guilds + subscribe_all_plan(
                dm_channel_ids@.take(j as int),
                ExchangeKind::Topic,
            ),
        decreases dm_channel_ids@.len() - j,
    {
        let mut acts = subscribe(dm_channel_ids[j], ExchangeKind::Topic);
        r.append(&mut acts);
        proof {
            assert(dm_channel_ids@.take(j + 1).drop_last() =~= dm_channel_ids@.take(j as int));
            assert(r@ =~= after_guilds + subscribe_all_plan(
                dm_channel_ids@.take(j + 1),
                ExchangeKind::Topic,
            ));
        }
        j = j + 1;
    }
    proof {
        assert(dm_channel_ids@.take(dm_channel_ids@.len() as int) =~= dm_channel_ids@);
    }
    r.push(
        BrokerAction::BindSessionQueue {
            exchange: ExchangeRef::Events,
            routing_key: RoutingKey::User(user_id),
        },
    );
    r.push(BrokerAction::StartConsumer);
    proof {
        assert(r@ =~= upstream_setup_plan(user_id, guild_ids@, dm_channel_ids@));
    }
    r
}

} // verus!
