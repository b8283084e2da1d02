use gateway::client::{
    admit_client_frame, handle_client_message, rate_limit_close, Admission, ClientAction,
    CLOSE_NORMAL, CLOSE_POLICY, CLOSE_UNSUPPORTED,
};
use gateway::codec::Frame;
use gateway::events::{BrokerAction, ExchangeKind, ExchangeRef, InboundMessage, OutboundMessage,
    RoutingKey};
use gateway::hidden::{seed_hidden_channels, ChannelPerm, GuildPerms, HiddenChannels, VIEW_CHANNEL};
use gateway::machine::{step, FrameKind, SessionEvent, SessionState};
use gateway::model::{Device, Status};
use gateway::ratelimit::RateLimiter;
use gateway::sendqueue::SendQueue;
use gateway::upstream::{
    forward_after_recompute, process, process_delivery, upstream_setup, RecomputeRequest, Verdict,
};

#[test]
fn machine_happy_path_emits_hello_then_ready() {
    let (st, out) = step(SessionState::Accepted, SessionEvent::UpgradeOk);
    assert_eq!(st, SessionState::Handshaking);
    assert_eq!(out, vec![FrameKind::Hello]);

    let (st, out) = step(st, SessionEvent::HelloSent);
    assert_eq!(st, SessionState::AwaitingIdentify);
    assert!(out.is_empty());

    let (st, out) = step(st, SessionEvent::IdentifyOk);
    assert_eq!(st, SessionState::Establishing);
    assert!(out.is_empty());

    let (st, out) = step(st, SessionEvent::Established);
    assert_eq!(st, SessionState::Running);
    assert_eq!(out, vec![FrameKind::Ready]);

    let (st, out) = step(st, SessionEvent::Forward);
    assert_eq!(st, SessionState::Running);
    assert_eq!(out, vec![FrameKind::Event]);

    let (st, out) = step(st, SessionEvent::PongReply);
    assert_eq!(st, SessionState::Running);
    assert_eq!(out, vec![FrameKind::Pong]);

    let (st, out) = step(st, SessionEvent::Terminal { graceful: true });
    assert_eq!(st, SessionState::Closing);
    assert_eq!(out, vec![FrameKind::CloseFrame { code: CLOSE_NORMAL }]);

    let (st, out) = step(st, SessionEvent::CleanupDone);
    assert_eq!(st, SessionState::Closed);
    assert!(out.is_empty());
}

#[test]
fn machine_identify_timeout_closes_with_policy_code() {
    let (st, out) = step(SessionState::AwaitingIdentify, SessionEvent::IdentifyTimeout);
    assert_eq!(st, SessionState::Closing);
    assert_eq!(out, vec![FrameKind::CloseFrame { code: CLOSE_POLICY }]);
}

#[test]
fn machine_invalid_token_closes_with_unsupported_code() {
    let (st, out) = step(SessionState::AwaitingIdentify, SessionEvent::IdentifyInvalidToken);
    assert_eq!(st, SessionState::Closing);
    assert_eq!(out, vec![FrameKind::CloseFrame { code: CLOSE_UNSUPPORTED }]);
    let (_, out) = step(SessionState::AwaitingIdentify, SessionEvent::IdentifyDecodeError);
    assert_eq!(out, vec![FrameKind::CloseFrame { code: CLOSE_UNSUPPORTED }]);
}

#[test]
fn machine_ignores_events_that_do_not_apply() {
    let (st, out) = step(SessionState::Running, SessionEvent::IdentifyOk);
    assert_eq!(st, SessionState::Running);
    assert!(out.is_empty());
    let (st, out) = step(SessionState::Accepted, SessionEvent::Forward);
    assert_eq!(st, SessionState::Accepted);
    assert!(out.is_empty());
}

#[test]
fn ping_produces_exactly_one_pong() {
    assert!(matches!(handle_client_message(&InboundMessage::Ping), ClientAction::ReplyPong));
    assert!(matches!(
        handle_client_message(&InboundMessage::UpdatePresence { status: Some(Status::Idle) }),
        ClientAction::SetPresence(Status::Idle)
    ));
    assert!(matches!(
        handle_client_message(&InboundMessage::UpdatePresence { status: None }),
        ClientAction::Ignore
    ));
    assert!(matches!(
        handle_client_message(&InboundMessage::Identify {
            token: "t".to_string(),
            status: Status::Online,
            device: Device::Desktop,
        }),
        ClientAction::Ignore
    ));
}

#[test]
fn rate_limiter_spends_and_refills_tokens() {
    let mut limiter = RateLimiter::new(3, 60, 0);
    assert!(limiter.check(0));
    assert!(limiter.check(0));
    assert!(limiter.check(0));
    assert!(!limiter.check(0));
    assert!(!limiter.check(59));
    assert!(limiter.check(60));
    assert!(!limiter.check(60));
    assert!(limiter.check(180));
    assert!(limiter.check(180));
    assert!(!limiter.check(180));
}

#[test]
fn rate_limiter_ignores_a_clock_running_backwards() {
    let mut limiter = RateLimiter::new(1, 60, 100);
    assert!(limiter.check(100));
    assert!(!limiter.check(40));
}

#[test]
fn gateway_limit_is_one_thousand_per_minute() {
    let mut limiter = RateLimiter::for_gateway(0);
    for _ in 0..1000 {
        assert!(matches!(admit_client_frame(&mut limiter, 10, false), Admission::Admitted));
    }
    assert!(matches!(admit_client_frame(&mut limiter, 10, false), Admission::RateLimited));
    let (code, reason) = rate_limit_close();
    assert_eq!(code, 1008);
    assert_eq!(reason, "Rate limit exceeded");
}

#[test]
fn close_frames_terminate_without_spending_tokens() {
    let mut limiter = RateLimiter::new(1, 60, 0);
    assert!(matches!(admit_client_frame(&mut limiter, 0, true), Admission::Closed));
    assert!(matches!(admit_client_frame(&mut limiter, 0, false), Admission::Admitted));
}

#[test]
fn send_queue_is_fifo_over_three_frames() {
    let mut q = SendQueue::new();
    q.enqueue(Frame::Text("one".to_string()));
    q.enqueue(Frame::Binary(vec![2]));
    q.enqueue(Frame::Text("three".to_string()));
    assert!(matches!(q.dequeue(), Some(Frame::Text(t)) if t == "one"));
    assert!(matches!(q.dequeue(), Some(Frame::Binary(b)) if b == vec![2]));
    assert!(matches!(q.dequeue(), Some(Frame::Text(t)) if t == "three"));
    assert!(q.dequeue().is_none());
}

#[test]
fn undecodable_delivery_is_nacked_and_terminates() {
    let hidden = HiddenChannels::new();
    let outcome = process_delivery(None, &hidden);
    assert_eq!(outcome.verdict, Verdict::Nack);
    assert!(outcome.terminate);
    assert!(!outcome.forward);
    assert!(outcome.actions.is_empty());
}

#[test]
fn hidden_channel_messages_are_acked_but_not_forwarded() {
    let mut hidden = HiddenChannels::new();
    hidden.insert(5);
    let ev = OutboundMessage::MessageCreate { channel_id: 5 };
    let outcome = process_delivery(Some(&ev), &hidden);
    assert_eq!(outcome.verdict, Verdict::Ack);
    assert!(!outcome.forward);
    assert!(!outcome.terminate);
    let ev = OutboundMessage::MessageUpdate { channel_id: 6 };
    let outcome = process_delivery(Some(&ev), &hidden);
    assert!(outcome.forward);
    let ev = OutboundMessage::MessageDelete { channel_id: 5 };
    let outcome = process_delivery(Some(&ev), &hidden);
    assert!(!outcome.forward);
}

#[test]
fn guild_create_subscribes_the_session_queue() {
    let hidden = HiddenChannels::new();
    let ev = OutboundMessage::GuildCreate { guild_id: 44 };
    let outcome = process_delivery(Some(&ev), &hidden);
    assert_eq!(outcome.verdict, Verdict::Ack);
    assert!(outcome.forward);
    assert_eq!(outcome.actions.len(), 2);
    assert!(matches!(
        outcome.actions[0],
        BrokerAction::DeclareExchange {
            exchange: ExchangeRef::Entity(44),
            kind: ExchangeKind::Topic,
            durable: false,
            auto_delete: true,
        }
    ));
    assert!(matches!(
        outcome.actions[1],
        BrokerAction::BindSessionQueue {
            exchange: ExchangeRef::Entity(44),
            routing_key: RoutingKey::All,
        }
    ));
}

#[test]
fn guild_remove_and_channel_delete_unbind() {
    let hidden = HiddenChannels::new();
    let outcome = process_delivery(Some(&OutboundMessage::GuildRemove { guild_id: 4 }), &hidden);
    assert_eq!(outcome.actions.len(), 1);
    assert!(matches!(
        outcome.actions[0],
        BrokerAction::UnbindSessionQueue { exchange: ExchangeRef::Entity(4), .. }
    ));
    let outcome =
        process_delivery(Some(&OutboundMessage::ChannelDelete { channel_id: 9 }), &hidden);
    assert!(outcome.forward);
    assert!(matches!(
        outcome.actions[0],
        BrokerAction::UnbindSessionQueue { exchange: ExchangeRef::Entity(9), .. }
    ));
}

#[test]
fn role_and_channel_events_request_a_recompute() {
    let hidden = HiddenChannels::new();
    let outcome = process_delivery(Some(&OutboundMessage::RoleCreate { guild_id: 3 }), &hidden);
    assert_eq!(outcome.recompute, Some(RecomputeRequest { guild_id: 3, channel_id: None }));
    assert!(!outcome.forward);
    let outcome = process_delivery(
        Some(&OutboundMessage::ChannelUpdateGuild { guild_id: 3, channel_id: 8 }),
        &hidden,
    );
    assert_eq!(outcome.recompute, Some(RecomputeRequest { guild_id: 3, channel_id: Some(8) }));
    assert!(forward_after_recompute(&hidden, &RecomputeRequest { guild_id: 3, channel_id: None }));
    let mut hidden = HiddenChannels::new();
    hidden.insert(8);
    assert!(!forward_after_recompute(
        &hidden,
        &RecomputeRequest { guild_id: 3, channel_id: Some(8) }
    ));
}

#[test]
fn batch_processing_stops_after_a_nack() {
    let hidden = HiddenChannels::new();
    let deliveries = vec![
        Some(OutboundMessage::Other),
        None,
        Some(OutboundMessage::Other),
    ];
    let outcomes = process(&deliveries, &hidden);
    assert_eq!(outcomes.len(), 2);
    assert_eq!(outcomes[0].verdict, Verdict::Ack);
    assert_eq!(outcomes[1].verdict, Verdict::Nack);
    assert!(outcomes[1].terminate);
}

#[test]
fn upstream_setup_plans_queue_bindings_and_consumer() {
    let actions = upstream_setup(77, &vec![1, 2], &vec![3]);
    assert_eq!(actions.len(), 9);
    assert!(matches!(actions[0], BrokerAction::DeclareSessionQueue));
    assert!(matches!(
        actions[1],
        BrokerAction::DeclareExchange { exchange: ExchangeRef::Entity(1), .. }
    ));
    assert!(matches!(
        actions[2],
        BrokerAction::BindSessionQueue { exchange: ExchangeRef::Entity(1), .. }
    ));
    assert!(matches!(
        actions[3],
        BrokerAction::DeclareExchange { exchange: ExchangeRef::Entity(2), .. }
    ));
    assert!(matches!(
        actions[5],
        BrokerAction::DeclareExchange { exchange: ExchangeRef::Entity(3), .. }
    ));
    assert!(matches!(
        actions[7],
        BrokerAction::BindSessionQueue {
            exchange: ExchangeRef::Events,
            routing_key: RoutingKey::User(77),
        }
    ));
    assert!(matches!(actions[8], BrokerAction::StartConsumer));
}

#[test]
fn hidden_set_membership_follows_permissions() {
    let mut hidden = HiddenChannels::new();
    assert!(!hidden.contains(5));
    hidden.insert(5);
    hidden.insert(5);
    assert!(hidden.contains(5));
    hidden.remove(5);
    assert!(!hidden.contains(5));
    hidden.apply_channel_perm(6, 0, false);
    assert!(hidden.contains(6));
    hidden.apply_channel_perm(6, VIEW_CHANNEL, false);
    assert!(!hidden.contains(6));
    hidden.apply_channel_perm(7, 0, true);
    assert!(!hidden.contains(7));
}

#[test]
fn seeding_skips_owned_guilds_and_hides_denied_channels() {
    let guilds = vec![
        GuildPerms {
            guild_id: 1,
            owner_id: 100,
            channels: vec![
                ChannelPerm { channel_id: 10, perms: 0 },
                ChannelPerm { channel_id: 11, perms: VIEW_CHANNEL },
            ],
        },
        GuildPerms {
            guild_id: 2,
            owner_id: 42,
            channels: vec![ChannelPerm { channel_id: 20, perms: 0 }],
        },
    ];
    let hidden = seed_hidden_channels(42, &guilds);
    assert!(hidden.contains(10));
    assert!(!hidden.contains(11));
    assert!(!hidden.contains(20));
}

#[test]
fn guild_recompute_updates_every_channel() {
    let mut hidden = HiddenChannels::new();
    hidden.insert(10);
    let guild = GuildPerms {
        guild_id: 1,
        owner_id: 100,
        channels: vec![
            ChannelPerm { channel_id: 10, perms: VIEW_CHANNEL },
            ChannelPerm { channel_id: 11, perms: 0 },
        ],
    };
    hidden.apply_guild_perms(42, &guild);
    assert!(!hidden.contains(10));
    assert!(hidden.contains(11));
}

#[test]
fn happy_path_session_scenario() {
    // Negotiate, upgrade, handshake.
    let settings = gateway::codec::ConnectionSettings::from_query("format=json");
    assert_eq!(settings.format, gateway::codec::MessageFormat::Json);
    let (st, out) = step(SessionState::Accepted, SessionEvent::UpgradeOk);
    assert_eq!(out, vec![FrameKind::Hello]);
    let (st, _) = step(st, SessionEvent::HelloSent);

    // Identify with a valid token.
    let session = gateway::session::UserSession::new(settings, "valid".to_string(), 1);
    let (st, _) = step(st, SessionEvent::IdentifyOk);

    // Establish: session recorded, status stored, Ready follows Hello.
    let mut store = gateway::presence::PresenceStore::new();
    let actions = gateway::session::establish_presence(
        &mut store,
        1,
        &session.session_id,
        Device::Desktop,
        Status::Online,
        1_000,
        &vec![],
    );
    assert_eq!(actions.len(), 2);
    let sessions = store.get_sessions(1);
    assert_eq!(sessions.len(), 1);
    assert_eq!(sessions[0].session_id, session.session_id);
    assert_eq!(store.get_presence(1), Status::Online);
    let (st, out) = step(st, SessionEvent::Established);
    assert_eq!(out, vec![FrameKind::Ready]);

    // Ping produces exactly one Pong.
    assert!(matches!(handle_client_message(&InboundMessage::Ping), ClientAction::ReplyPong));
    let (st, out) = step(st, SessionEvent::PongReply);
    assert_eq!(out, vec![FrameKind::Pong]);

    // Close: the session record and the presence key are gone.
    let (st, out) = step(st, SessionEvent::Terminal { graceful: true });
    assert_eq!(out, vec![FrameKind::CloseFrame { code: CLOSE_NORMAL }]);
    let published = store.close_session(1, &session.session_id);
    assert!(published);
    assert!(!store.any_session_exists(1));
    assert_eq!(store.get_presence(1), Status::Offline);
    let (st, _) = step(st, SessionEvent::CleanupDone);
    assert_eq!(st, SessionState::Closed);
}

#[test]
fn presence_fan_out_scenario() {
    // User 1 comes online; user 2 observes them.
    let mut store = gateway::presence::PresenceStore::new();
    let actions = gateway::session::establish_presence(
        &mut store,
        1,
        &"s1".to_string(),
        Device::Desktop,
        Status::Online,
        500,
        &vec![2],
    );
    // One PresenceUpdate for the observer, one for the user itself.
    assert_eq!(actions.len(), 4);
    match &actions[1] {
        BrokerAction::Publish {
            routing_key: RoutingKey::User(2),
            event: OutboundMessage::PresenceUpdate { presence },
            ..
        } => {
            assert_eq!(presence.user_id, 1);
            assert_eq!(presence.status, Status::Online);
            assert_eq!(presence.devices.bits, 1);
            assert_eq!(presence.online_since, Some(500));
        }
        _ => panic!("expected a presence publish to the observer"),
    }

    // Their last session closes: the observer sees them go offline.
    let published = store.close_session(1, &"s1".to_string());
    assert!(published);
    let offline = gateway::model::Presence {
        user_id: 1,
        status: Status::Offline,
        custom_status: None,
        devices: gateway::model::Devices { bits: 0 },
        online_since: None,
    };
    let actions = gateway::events::publish_presence_change(&vec![2], 1, &offline);
    match &actions[1] {
        BrokerAction::Publish {
            routing_key: RoutingKey::User(2),
            event: OutboundMessage::PresenceUpdate { presence },
            ..
        } => {
            assert_eq!(presence.status, Status::Offline);
            assert_eq!(presence.devices.bits, 0);
            assert_eq!(presence.online_since, None);
        }
        _ => panic!("expected an offline presence publish"),
    }
}
