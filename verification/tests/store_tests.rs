use gateway::model::{Device, PresenceSession, Status};
use gateway::presence::PresenceStore;
use gateway::store_codec::{decode_record, decode_status, encode_record, encode_status};

fn rec(sid: &str, at: u64, device: Device) -> PresenceSession {
    PresenceSession { session_id: sid.to_string(), online_since: at, device }
}

#[test]
fn insert_gives_exactly_one_record() {
    let mut store = PresenceStore::new();
    assert!(!store.any_session_exists(7));
    store.insert_session(7, rec("a", 5, Device::Desktop));
    assert!(store.any_session_exists(7));
    let sessions = store.get_sessions(7);
    assert_eq!(sessions.len(), 1);
    assert_eq!(sessions[0].session_id, "a");
    assert_eq!(sessions[0].online_since, 5);
    assert!(!store.any_session_exists(8));
}

#[test]
fn remove_clears_the_record() {
    let mut store = PresenceStore::new();
    store.insert_session(7, rec("a", 5, Device::Desktop));
    store.remove_session(7, &"a".to_string());
    assert!(!store.any_session_exists(7));
    assert_eq!(store.get_sessions(7).len(), 0);
}

#[test]
fn remove_preserves_order_of_survivors() {
    let mut store = PresenceStore::new();
    store.insert_session(7, rec("a", 1, Device::Desktop));
    store.insert_session(7, rec("b", 2, Device::Mobile));
    store.insert_session(7, rec("c", 3, Device::Web));
    store.remove_session(7, &"b".to_string());
    let sessions = store.get_sessions(7);
    assert_eq!(sessions.len(), 2);
    assert_eq!(sessions[0].session_id, "a");
    assert_eq!(sessions[1].session_id, "c");
}

#[test]
fn remove_of_absent_id_changes_nothing() {
    let mut store = PresenceStore::new();
    store.insert_session(7, rec("a", 1, Device::Desktop));
    store.remove_session(7, &"zz".to_string());
    assert_eq!(store.get_sessions(7).len(), 1);
    store.remove_session(9, &"a".to_string());
    assert_eq!(store.get_sessions(7).len(), 1);
}

#[test]
fn statuses_default_to_offline() {
    let mut store = PresenceStore::new();
    assert_eq!(store.get_presence(7), Status::Offline);
    store.update_presence(7, Status::Online);
    assert_eq!(store.get_presence(7), Status::Online);
    store.update_presence(7, Status::DoNotDisturb);
    assert_eq!(store.get_presence(7), Status::DoNotDisturb);
    store.update_presence(7, Status::Offline);
    assert_eq!(store.get_presence(7), Status::Offline);
}

#[test]
fn closing_last_session_deletes_presence() {
    let mut store = PresenceStore::new();
    store.insert_session(7, rec("a", 5, Device::Desktop));
    store.update_presence(7, Status::Online);
    let published = store.close_session(7, &"a".to_string());
    assert!(published);
    assert!(!store.any_session_exists(7));
    assert_eq!(store.get_presence(7), Status::Offline);
}

#[test]
fn closing_one_of_two_sessions_keeps_presence() {
    let mut store = PresenceStore::new();
    store.insert_session(7, rec("a", 5, Device::Desktop));
    store.insert_session(7, rec("b", 6, Device::Mobile));
    store.update_presence(7, Status::Online);
    let published = store.close_session(7, &"a".to_string());
    assert!(!published);
    assert!(store.any_session_exists(7));
    assert_eq!(store.get_presence(7), Status::Online);
}

#[test]
fn closing_when_already_offline_publishes_nothing() {
    let mut store = PresenceStore::new();
    store.insert_session(7, rec("a", 5, Device::Desktop));
    let published = store.close_session(7, &"a".to_string());
    assert!(!published);
    assert_eq!(store.get_presence(7), Status::Offline);
}

#[test]
fn devices_mask_is_union_of_session_devices() {
    let mut store = PresenceStore::new();
    assert_eq!(store.get_devices(7).bits, 0);
    store.insert_session(7, rec("a", 1, Device::Desktop));
    assert_eq!(store.get_devices(7).bits, 1);
    store.insert_session(7, rec("b", 2, Device::Mobile));
    assert_eq!(store.get_devices(7).bits, 3);
    store.insert_session(7, rec("c", 3, Device::Desktop));
    assert_eq!(store.get_devices(7).bits, 3);
    store.insert_session(7, rec("d", 4, Device::Web));
    assert_eq!(store.get_devices(7).bits, 7);
}

#[test]
fn first_session_is_the_oldest() {
    let mut store = PresenceStore::new();
    assert!(store.get_first_session(7).is_none());
    store.insert_session(7, rec("a", 11, Device::Desktop));
    store.insert_session(7, rec("b", 22, Device::Mobile));
    let first = store.get_first_session(7).unwrap();
    assert_eq!(first.session_id, "a");
    assert_eq!(first.online_since, 11);
}

#[test]
fn reset_all_empties_the_store() {
    let mut store = PresenceStore::new();
    store.insert_session(7, rec("a", 1, Device::Desktop));
    store.update_presence(7, Status::Idle);
    store.reset_all();
    assert!(!store.any_session_exists(7));
    assert_eq!(store.get_presence(7), Status::Offline);
}

#[test]
fn derived_presence_hides_online_since_when_offline() {
    let mut store = PresenceStore::new();
    store.insert_session(7, rec("a", 42, Device::Mobile));
    let online = store.derived_presence(7, Status::Online);
    assert_eq!(online.online_since, Some(42));
    assert_eq!(online.devices.bits, 2);
    assert_eq!(online.status, Status::Online);
    assert!(online.custom_status.is_none());
    let offline = store.derived_presence(7, Status::Offline);
    assert_eq!(offline.online_since, None);
}

#[test]
fn observer_presence_reads_the_stored_state() {
    let mut store = PresenceStore::new();
    store.insert_session(3, rec("s", 9, Device::Web));
    store.update_presence(3, Status::Idle);
    let p = store.observer_presence(3);
    assert_eq!(p.user_id, 3);
    assert_eq!(p.status, Status::Idle);
    assert_eq!(p.devices.bits, 4);
    assert_eq!(p.online_since, Some(9));
    let q = store.observer_presence(99);
    assert_eq!(q.status, Status::Offline);
    assert_eq!(q.online_since, None);
}

#[test]
fn record_codec_round_trips() {
    let original = rec("0123456789abcdef0123456789abcdef", 1234567890123, Device::Mobile);
    let bytes = encode_record(&original);
    let back = decode_record(&bytes).unwrap();
    assert_eq!(back.session_id, original.session_id);
    assert_eq!(back.online_since, original.online_since);
    assert_eq!(back.device, original.device);
}

#[test]
fn record_codec_layout_is_stable() {
    let bytes = encode_record(&rec("ab", 1, Device::Desktop));
    assert_eq!(bytes[0], 0);
    assert_eq!(&bytes[1..9], &[1, 0, 0, 0, 0, 0, 0, 0]);
    assert_eq!(&bytes[9..], b"ab");
    assert_eq!(encode_record(&rec("", 0, Device::Web))[0], 2);
}

#[test]
fn record_codec_rejects_malformed_bytes() {
    assert!(decode_record(&vec![]).is_none());
    assert!(decode_record(&vec![0, 1, 2, 3]).is_none());
    let mut bytes = encode_record(&rec("ab", 1, Device::Desktop));
    bytes[0] = 9;
    assert!(decode_record(&bytes).is_none());
    let mut invalid_utf8 = encode_record(&rec("", 1, Device::Desktop));
    invalid_utf8.push(0xff);
    assert!(decode_record(&invalid_utf8).is_none());
}

#[test]
fn status_codec_round_trips() {
    for status in [Status::Online, Status::Idle, Status::DoNotDisturb, Status::Offline] {
        let bytes = encode_status(status);
        assert_eq!(decode_status(&bytes), Some(status));
    }
    assert!(decode_status(&vec![]).is_none());
    assert!(decode_status(&vec![9]).is_none());
    assert!(decode_status(&vec![0, 0]).is_none());
}
