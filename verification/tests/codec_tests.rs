use gateway::client::apply_presence_update;
use gateway::codec::{
    ConnectionSettings, DecodeStep, Frame, MessageFormat, WirePayload, DEFAULT_VERSION,
};
use gateway::error::Error;
use gateway::events::{
    exchange_name, publish_bulk_event, publish_guild_event, publish_presence_change,
    publish_user_event, routing_key_string, subscribe, unsubscribe, BrokerAction, ExchangeKind,
    ExchangeRef, OutboundMessage, RoutingKey,
};
use gateway::model::{Device, Presence, PresenceSession, Status};
use gateway::presence::PresenceStore;
use gateway::session::{current_millis, establish_presence, UserSession};
use gateway::text::{consumer_tag, parse_u8_dec, presence_key, session_key, u64_to_dec};

#[test]
fn query_negotiation_reads_version_and_format() {
    let s = ConnectionSettings::from_query("version=2&format=msgpack");
    assert_eq!(s.version, 2);
    assert_eq!(s.format, MessageFormat::MsgPack);
}

#[test]
fn query_negotiation_defaults() {
    let s = ConnectionSettings::from_query("");
    assert_eq!(s.version, DEFAULT_VERSION);
    assert_eq!(s.format, MessageFormat::Json);
    let s = ConnectionSettings::from_query("other=1");
    assert_eq!(s.version, DEFAULT_VERSION);
    assert_eq!(s.format, MessageFormat::Json);
}

#[test]
fn query_negotiation_tolerates_invalid_values() {
    assert_eq!(ConnectionSettings::from_query("version=abc").version, DEFAULT_VERSION);
    assert_eq!(ConnectionSettings::from_query("version=999").version, DEFAULT_VERSION);
    assert_eq!(ConnectionSettings::from_query("version=255").version, 255);
    assert_eq!(ConnectionSettings::from_query("format=xml").format, MessageFormat::Json);
    assert_eq!(ConnectionSettings::from_query("format=MsgPack").format, MessageFormat::MsgPack);
}

#[test]
fn query_negotiation_treats_non_ascii_queries_as_absent() {
    let s = ConnectionSettings::from_query("\u{e9}=1");
    assert_eq!(s.version, DEFAULT_VERSION);
    assert_eq!(s.format, MessageFormat::Json);
    let s = ConnectionSettings::from_query("format=msgpack&x=\u{e9}");
    assert_eq!(s.version, DEFAULT_VERSION);
    assert_eq!(s.format, MessageFormat::Json);
}

#[test]
fn format_parse_is_case_insensitive_and_total() {
    assert_eq!(MessageFormat::from_str("msgpack"), MessageFormat::MsgPack);
    assert_eq!(MessageFormat::from_str("MSGPACK"), MessageFormat::MsgPack);
    assert_eq!(MessageFormat::from_str("json"), MessageFormat::Json);
    assert_eq!(MessageFormat::from_str("anything"), MessageFormat::Json);
    assert_eq!(MessageFormat::default(), MessageFormat::Json);
}

#[test]
fn json_payloads_leave_as_text_frames() {
    let settings = ConnectionSettings { version: 1, format: MessageFormat::Json };
    let frame = settings.encode(WirePayload::Json("{\"op\":\"pong\"}".to_string()));
    assert!(matches!(frame, Frame::Text(t) if t == "{\"op\":\"pong\"}"));
}

#[test]
fn msgpack_payloads_leave_as_binary_frames() {
    let settings = ConnectionSettings { version: 1, format: MessageFormat::MsgPack };
    let frame = settings.encode(WirePayload::MsgPack(vec![0x81, 0x02]));
    assert!(matches!(frame, Frame::Binary(b) if b == vec![0x81, 0x02]));
}

#[test]
fn json_ingress_accepts_text_and_binary() {
    let settings = ConnectionSettings { version: 1, format: MessageFormat::Json };
    let step = settings.decode(Frame::Text("hi".to_string()));
    assert!(matches!(step, DecodeStep::Payload(b) if b.as_slice() == b"hi"));
    let step = settings.decode(Frame::Binary(vec![1, 2]));
    assert!(matches!(step, DecodeStep::Payload(b) if b.as_slice() == [1, 2]));
    assert!(matches!(settings.decode(Frame::Ping(vec![])), DecodeStep::Ignore));
    assert!(matches!(settings.decode(Frame::Pong(vec![])), DecodeStep::Ignore));
    assert!(matches!(settings.decode(Frame::Close(None)), DecodeStep::Ignore));
}

#[test]
fn msgpack_ingress_rejects_text_frames() {
    let settings = ConnectionSettings { version: 1, format: MessageFormat::MsgPack };
    let step = settings.decode(Frame::Text("hi".to_string()));
    assert!(
        matches!(step, DecodeStep::Close(msg) if msg == "msgpack decode: expected a binary frame")
    );
    let step = settings.decode(Frame::Binary(vec![3]));
    assert!(matches!(step, DecodeStep::Payload(b) if b.as_slice() == [3]));
}

#[test]
fn egress_frames_decode_back_to_their_payload() {
    let json = ConnectionSettings { version: 1, format: MessageFormat::Json };
    let frame = json.encode(WirePayload::Json("x".to_string()));
    assert!(matches!(json.decode(frame), DecodeStep::Payload(b) if b.as_slice() == b"x"));
    let msgpack = ConnectionSettings { version: 1, format: MessageFormat::MsgPack };
    let frame = msgpack.encode(WirePayload::MsgPack(vec![9, 8]));
    assert!(matches!(msgpack.decode(frame), DecodeStep::Payload(b) if b.as_slice() == [9, 8]));
}

#[test]
fn decimal_rendering_is_exact() {
    assert_eq!(u64_to_dec(0), "0");
    assert_eq!(u64_to_dec(7), "7");
    assert_eq!(u64_to_dec(1234567890), "1234567890");
    assert_eq!(u64_to_dec(u64::MAX), "18446744073709551615");
}

#[test]
fn byte_parsing_is_exact() {
    assert_eq!(parse_u8_dec("0"), Some(0));
    assert_eq!(parse_u8_dec("255"), Some(255));
    assert_eq!(parse_u8_dec("007"), Some(7));
    assert_eq!(parse_u8_dec("256"), None);
    assert_eq!(parse_u8_dec(""), None);
    assert_eq!(parse_u8_dec("12a"), None);
    assert_eq!(parse_u8_dec("-1"), None);
}

#[test]
fn store_keys_and_consumer_tags_are_exact() {
    assert_eq!(session_key(42), "session-42");
    assert_eq!(presence_key(42), "presence-42");
    assert_eq!(consumer_tag(5, "sid", "1.2.3.4"), "consumer-5-sid-1.2.3.4");
}

#[test]
fn exchange_names_and_routing_keys_are_exact() {
    assert_eq!(exchange_name(&ExchangeRef::Events), "events");
    assert_eq!(exchange_name(&ExchangeRef::Entity(77)), "77");
    assert_eq!(routing_key_string(&RoutingKey::All), "all");
    assert_eq!(routing_key_string(&RoutingKey::User(5)), "5");
    assert_eq!(routing_key_string(&RoutingKey::Users(vec![1, 2, 3])), "1.2.3");
    assert_eq!(routing_key_string(&RoutingKey::Users(vec![])), "");
    assert_eq!(routing_key_string(&RoutingKey::Users(vec![9])), "9");
}

#[test]
fn user_events_go_through_the_events_exchange() {
    let actions = publish_user_event(9, OutboundMessage::Pong);
    assert_eq!(actions.len(), 2);
    assert!(matches!(
        actions[0],
        BrokerAction::DeclareExchange {
            exchange: ExchangeRef::Events,
            kind: ExchangeKind::Topic,
            durable: true,
            auto_delete: false,
        }
    ));
    assert!(matches!(
        actions[1],
        BrokerAction::Publish {
            exchange: ExchangeRef::Events,
            routing_key: RoutingKey::User(9),
            event: OutboundMessage::Pong,
        }
    ));
}

#[test]
fn bulk_events_use_a_joined_routing_key() {
    let actions = publish_bulk_event(vec![1, 2], OutboundMessage::Other);
    assert!(matches!(
        &actions[1],
        BrokerAction::Publish { routing_key: RoutingKey::Users(ids), .. } if *ids == vec![1, 2]
    ));
}

#[test]
fn guild_events_use_the_guild_exchange() {
    let actions = publish_guild_event(31, OutboundMessage::Other);
    assert!(matches!(
        actions[0],
        BrokerAction::DeclareExchange {
            exchange: ExchangeRef::Entity(31),
            kind: ExchangeKind::Topic,
            durable: false,
            auto_delete: true,
        }
    ));
    assert!(matches!(
        actions[1],
        BrokerAction::Publish { exchange: ExchangeRef::Entity(31), routing_key: RoutingKey::All, .. }
    ));
}

#[test]
fn subscribe_declares_then_binds() {
    let actions = subscribe(8, ExchangeKind::Topic);
    assert_eq!(actions.len(), 2);
    assert!(matches!(
        actions[0],
        BrokerAction::DeclareExchange { exchange: ExchangeRef::Entity(8), auto_delete: true, .. }
    ));
    assert!(matches!(
        actions[1],
        BrokerAction::BindSessionQueue { exchange: ExchangeRef::Entity(8), routing_key: RoutingKey::All }
    ));
    let actions = unsubscribe(8);
    assert_eq!(actions.len(), 1);
    assert!(matches!(
        actions[0],
        BrokerAction::UnbindSessionQueue { exchange: ExchangeRef::Entity(8), routing_key: RoutingKey::All }
    ));
}

#[test]
fn presence_changes_fan_out_to_observers_and_self() {
    let presence = Presence {
        user_id: 9,
        status: Status::Online,
        custom_status: None,
        devices: gateway::model::Devices { bits: 1 },
        online_since: Some(5),
    };
    let actions = publish_presence_change(&vec![1, 2], 9, &presence);
    assert_eq!(actions.len(), 6);
    for target in [(1u64, 1usize), (2, 3), (9, 5)] {
        match &actions[target.1] {
            BrokerAction::Publish {
                exchange: ExchangeRef::Events,
                routing_key: RoutingKey::User(u),
                event: OutboundMessage::PresenceUpdate { presence: p },
            } => {
                assert_eq!(*u, target.0);
                assert_eq!(p.user_id, 9);
                assert_eq!(p.status, Status::Online);
                assert_eq!(p.devices.bits, 1);
            }
            _ => panic!("expected a presence publish"),
        }
    }
}

#[test]
fn minted_session_ids_are_simple_lowercase_hex() {
    let settings = ConnectionSettings::default();
    let a = UserSession::new(settings, "token".to_string(), 7);
    assert_eq!(a.user_id, 7);
    assert_eq!(a.token, "token");
    assert_eq!(a.session_id.len(), 32);
    assert!(a.session_id.chars().all(|c| c.is_ascii_hexdigit() && !c.is_ascii_uppercase()));
    assert_eq!(a.get_session_id_str(), a.session_id);
    let b = UserSession::new(settings, "token".to_string(), 7);
    assert_ne!(a.session_id, b.session_id);
}

#[test]
fn ready_event_carries_session_id_and_presences() {
    let session = UserSession::new(ConnectionSettings::default(), "t".to_string(), 3);
    let ready = session.get_ready_event(vec![]);
    assert!(matches!(
        ready,
        OutboundMessage::Ready { session_id, presences }
            if session_id == session.session_id && presences.is_empty()
    ));
}

#[test]
fn establishing_records_session_and_fans_presence_out() {
    let mut store = PresenceStore::new();
    let sid = "a".to_string();
    let actions = establish_presence(
        &mut store,
        7,
        &sid,
        Device::Desktop,
        Status::Online,
        1000,
        &vec![2],
    );
    assert_eq!(actions.len(), 4);
    assert!(store.any_session_exists(7));
    assert_eq!(store.get_presence(7), Status::Online);
    let first = store.get_first_session(7).unwrap();
    assert_eq!(first.session_id, "a");
    assert_eq!(first.online_since, 1000);
    assert_eq!(store.get_devices(7).bits, 1);
}

#[test]
fn presence_updates_store_then_publish() {
    let mut store = PresenceStore::new();
    store.insert_session(7, PresenceSession {
        session_id: "a".to_string(),
        online_since: 99,
        device: Device::Web,
    });
    let (presence, actions) = apply_presence_update(&mut store, 7, Status::Idle, &vec![1, 2]);
    assert_eq!(store.get_presence(7), Status::Idle);
    assert_eq!(presence.status, Status::Idle);
    assert_eq!(presence.online_since, Some(99));
    assert_eq!(presence.devices.bits, 4);
    assert_eq!(actions.len(), 6);
    let (presence, _) = apply_presence_update(&mut store, 7, Status::Offline, &vec![]);
    assert_eq!(presence.online_since, None);
    assert_eq!(store.get_presence(7), Status::Offline);
}

#[test]
fn errors_keep_severity_and_context() {
    let e = Error::ignore();
    assert!(!e.close);
    assert_eq!(e.message(), "Unknown");
    let e = Error::fatal("invalid token".to_string());
    assert!(e.close);
    assert_eq!(e.message(), "invalid token");
    let e = Error::ignore().ctx("decode failed");
    assert!(!e.close);
    assert_eq!(e.message(), "decode failed");
}

#[test]
fn the_clock_reads_after_the_epoch() {
    assert!(current_millis() > 0);
}
