//! The compact binary encoding of the values kept in the key-value store.
//!
//! A session record is stored as one device byte, eight little-endian
//! bytes of the start time, and the UTF-8 bytes of the session id; a
//! status is stored as one byte.  The encoding is stable across
//! processes, and decoding inverts it exactly: `record_of_bytes ∘
//! record_bytes` is the identity, and encoding a decoded well-formed
//! value gives the original bytes back.

use vstd::bytes::{
    lemma_auto_spec_u64_to_from_le_bytes, spec_u64_from_le_bytes, spec_u64_to_le_bytes,
    u64_from_le_bytes, u64_to_le_bytes,
};
use vstd::prelude::*;
use vstd::string::*;
use vstd::utf8::{
    decode_utf8, decode_utf8_encode_utf8, encode_utf8, encode_utf8_decode_utf8,
    encode_utf8_valid_utf8, valid_utf8,
};

use crate::model::{Device, PresenceSession, PresenceSessionV, Status};

verus! {

/// The byte that stands for one device flavor.
pub open spec fn device_byte(d: Device) -> u8 {
    match d {
        Device::Desktop => 0,
        Device::Mobile => 1,
        Device::Web => 2,
    }
}

/// The byte that stands for one status.
pub open spec fn status_byte(s: Status) -> u8 {
    match s {
        Status::Online => 0,
        Status::Idle => 1,
        Status::DoNotDisturb => 2,
        Status::Offline => 3,
    }
}

/// The stored form of a session record.
pub open spec fn record_bytes(v: PresenceSessionV) -> Seq<u8> {
    seq![device_byte(v.device)] + spec_u64_to_le_bytes(v.online_since) + encode_utf8(v.session_id)
}

/// The record a stored byte string denotes, if it is well-formed.
pub open spec fn record_of_bytes(b: Seq<u8>) -> Option<PresenceSessionV> {
    if b.len() >= 9 && b[0] <= 2 && valid_utf8(b.subrange(9, b.len() as int)) {
        Some(
            PresenceSessionV {
                session_id: decode_utf8(b.subrange(9, b.len() as int)),
                online_since: spec_u64_from_le_bytes(b.subrange(1, 9)),
                device: if b[0] == 0 {
                    Device::Desktop
                } else if b[0] == 1 {
                    Device::Mobile
                } else {
                    Device::Web
                },
            },
        )
    } else {
        None
    }
}

/// Relies on alloc::string::String::from_utf8: builds the string a valid
/// UTF-8 byte sequence encodes, and rejects every invalid sequence.
#[verifier::external_body]
fn string_from_utf8(bytes: Vec<u8>) -> (r: Option<String>)
    ensures
        match r {
            Some(s) => valid_utf8(bytes@) && s@ == decode_utf8(bytes@),
            None => !valid_utf8(bytes@),
        },
{
    String::from_utf8(bytes).ok()
}

/// Encode a session record for the store.
pub fn encode_record(rec: &PresenceSession) -> (r: Vec<u8>)
    ensures
        r@ == record_bytes(rec@),
{
    let mut r: Vec<u8> = Vec::new();
    match rec.device {
        Device::Desktop => r.push(0u8),
        Device::Mobile => r.push(1u8),
        Device::Web => r.push(2u8),
    }
    let mut ts = u64_to_le_bytes(rec.online_since);
    r.append(&mut ts);
    let mut sid = rec.session_id.as_str().as_bytes_vec();
    r.append(&mut sid);
    proof {
        assert(r@ =~= record_bytes(rec@));
    }
    r
}

/// Decode a stored session record; `None` exactly on malformed bytes.
pub fn decode_record(bytes: &Vec<u8>) -> (r: Option<PresenceSession>)
    ensures
        match r {
            Some(rec) => record_of_bytes(bytes@) == Some(rec@),
            None => record_of_bytes(bytes@) is None,
        },
{
    if bytes.len() < 9 {
        return None;
    }
    let device: Device = if bytes[0] == 0 {
        Device::Desktop
    } else if bytes[0] == 1 {
        Device::Mobile
    } else if bytes[0] == 2 {
        Device::Web
    } else {
        return None;
    };
    let mut ts_bytes: Vec<u8> = Vec::new();
    let mut i: usize = 1;
    while i < 9
        invariant
            1 <= i <= 9,
            bytes@.len() >= 9,
            ts_bytes@ == bytes@.subrange(1, i as int),
        decreases 9 - i,
    {
        ts_bytes.push(bytes[i]);
        proof {
            assert(ts_bytes@ =~= bytes@.subrange(1, i + 1));
        }
        i = i + 1;
    }
    let online_since = u64_from_le_bytes(ts_bytes.as_slice());
    let mut sid_bytes: Vec<u8> = Vec::new();
    let mut j: usize = 9;
    while j < bytes.len()
        invariant
            9 <= j <= bytes@.len(),
            bytes@.len() >= 9,
            sid_bytes@ == bytes@.subrange(9, j as int),
        decreases bytes@.len() - j,
    {
        sid_bytes.push(bytes[j]);
        proof {
            assert(sid_bytes@ =~= bytes@.subrange(9, j + 1));
        }
        j = j + 1;
    }
    proof {
        assert(sid_bytes@ =~= bytes@.subrange(9, bytes@.len() as int));
    }
    match string_from_utf8(sid_bytes) {
        Some(session_id) => Some(PresenceSession { session_id, online_since, device }),
        None => None,
    }
}

/// Encode a status for the store.
pub fn encode_status(status: Status) -> (r: Vec<u8>)
    ensures
        r@ == seq![status_byte(status)],
{
    let mut r: Vec<u8> = Vec::new();
    match status {
        Status::Online => r.push(0u8),
        Status::Idle => r.push(1u8),
        Status::DoNotDisturb => r.push(2u8),
        Status::Offline => r.push(3u8),
    }
    proof {
        assert(r@ =~= seq![status_byte(status)]);
    }
    r
}

/// Decode a stored status; `None` exactly on malformed bytes.
pub fn decode_status(bytes: &Vec<u8>) -> (r: Option<Status>)
    ensures
        match r {
            Some(s) => bytes@ == seq![status_byte(s)],
            None => forall|s: Status| bytes@ != seq![status_byte(s)],
        },
{
    if bytes.len() != 1 {
        proof {
            assert forall|s: Status| bytes@ != seq![status_byte(s)] by {
                assert(seq![status_byte(s)].len() == 1);
            }
        }
        return None;
    }
    let r = if bytes[0] == 0 {
        Some(Status::Online)
    } else if bytes[0] == 1 {
        Some(Status::Idle)
    } else if bytes[0] == 2 {
        Some(Status::DoNotDisturb)
    } else if bytes[0] == 3 {
        Some(Status::Offline)
    } else {
        None
    };
    proof {
        if bytes@[0] > 3 {
            assert forall|s: Status| bytes@ != seq![status_byte(s)] by {
                assert(seq![status_byte(s)][0] == status_byte(s));
                assert(status_byte(s) <= 3);
            }
        } else {
            assert(bytes@ =~= seq![bytes@[0]]);
        }
    }
    r
}

/// Law: decoding an encoded record gives the record back, for every
/// record.
pub proof fn lemma_record_round_trip(v: PresenceSessionV)
    ensures
        record_of_bytes(record_bytes(v)) == Some(v),
{
    lemma_auto_spec_u64_to_from_le_bytes();
    let b = record_bytes(v);
    assert(b.len() >= 9);
    assert(b[0] == device_byte(v.device));
    assert(b.subrange(1, 9) =~= spec_u64_to_le_bytes(v.online_since));
    assert(b.subrange(9, b.len() as int) =~= encode_utf8(v.session_id));
    encode_utf8_valid_utf8(v.session_id);
    encode_utf8_decode_utf8(v.session_id);
}

/// Law: encoding a decoded record gives the original bytes back, for
/// every well-formed byte string.
pub proof fn lemma_record_bytes_round_trip(b: Seq<u8>)
    requires
        record_of_bytes(b) is Some,
    ensures
        record_bytes(record_of_bytes(b)->Some_0) == b,
{
    lemma_auto_spec_u64_to_from_le_bytes();
    let v = record_of_bytes(b)->Some_0;
    let tail = b.subrange(9, b.len() as int);
    decode_utf8_encode_utf8(tail);
    assert(b.subrange(1, 9).len() == 8);
    assert(spec_u64_to_le_bytes(spec_u64_from_le_bytes(b.subrange(1, 9))) == b.subrange(1, 9));
    assert(record_bytes(v) =~= b);
}

} // verus!
