//! Connection negotiation and the frame layer of the codec.
//!
//! The negotiated format fixes the egress frame type: JSON goes out as
//! text frames, MsgPack as binary frames.  On ingress, JSON sessions
//! accept text or binary and MsgPack sessions accept binary only; control
//! frames are skipped.  Serializing and deserializing the payload bytes is
//! the I/O shell's work.

use vstd::prelude::*;
use vstd::string::*;
use vstd::utf8::{decode_utf8, encode_utf8, encode_utf8_decode_utf8};

use crate::text::{all_dec_digits, dec_val, parse_u8_dec, is_msgpack_name, spells_msgpack};

verus! {

/// The version negotiated when the query names none, or an invalid one.
pub const DEFAULT_VERSION: u8 = 1;

/// The value of the first query parameter named `key`, as qstring decodes
/// it.
pub uninterp spec fn query_param(query: Seq<char>, key: Seq<char>) -> Option<Seq<char>>;

/// Relies on qstring::QString::from and QString::get: the decoded value of
/// the first query parameter with this name, a function of the query
/// string alone.  qstring's splitter slices the text at byte offset one,
/// which panics when a segment starts with a multi-byte character, so only
/// ASCII queries are admitted; `from_query` tests that first.
#[verifier::external_body]
fn qs_get(query: &str, key: &str) -> (r: Option<String>)
    requires
        query.is_ascii(),
    ensures
        match r {
            Some(v) => query_param(query@, key@) == Some(v@),
            None => query_param(query@, key@) is None,
        },
{
    qstring::QString::from(query).get(key).map(|v| v.to_owned())
}

/// The payload encoding of a session.
#[derive(Clone, Copy, PartialEq, Eq, Structural, Debug)]
pub enum MessageFormat {
    Json,
    MsgPack,
}

impl MessageFormat {
    /// `msgpack`, in any ASCII case, selects the binary codec; every other
    /// string falls back to JSON.  This parse never fails.
    pub fn from_str(s: &str) -> (r: MessageFormat)
        ensures
            r == if spells_msgpack(s@) {
                MessageFormat::MsgPack
            } else {
                MessageFormat::Json
            },
    {
        if is_msgpack_name(s) {
            MessageFormat::MsgPack
        } else {
            MessageFormat::Json
        }
    }
}

impl Default for MessageFormat {
    fn default() -> (r: MessageFormat)
        ensures
            r == MessageFormat::Json,
    {
        MessageFormat::Json
    }
}

/// What one connection negotiated at accept time.
#[derive(Clone, Copy, PartialEq, Eq, Structural, Debug)]
pub struct ConnectionSettings {
    pub version: u8,
    pub format: MessageFormat,
}

impl Default for ConnectionSettings {
    fn default() -> (r: ConnectionSettings)
        ensures
            r.version == DEFAULT_VERSION,
            r.format == MessageFormat::Json,
    {
        ConnectionSettings { version: DEFAULT_VERSION, format: MessageFormat::Json }
    }
}

/// A WebSocket frame, as far as the gateway reads or writes one.
pub enum Frame {
    Text(String),
    Binary(Vec<u8>),
    Ping(Vec<u8>),
    Pong(Vec<u8>),
    Close(Option<(u16, String)>),
}

/// The mathematical value of a frame.
pub enum FrameV {
    Text(Seq<char>),
    Binary(Seq<u8>),
    Ping(Seq<u8>),
    Pong(Seq<u8>),
    Close(Option<(u16, Seq<char>)>),
}

impl View for Frame {
    type V = FrameV;

    open spec fn view(&self) -> FrameV {
        match self {
            Frame::Text(t) => FrameV::Text(t@),
            Frame::Binary(b) => FrameV::Binary(b@),
            Frame::Ping(b) => FrameV::Ping(b@),
            Frame::Pong(b) => FrameV::Pong(b@),
            Frame::Close(cf) => FrameV::Close(
                match cf {
                    Some((code, reason)) => Some((*code, reason@)),
                    None => None,
                },
            ),
        }
    }
}

/// An encoded event, in the format its serializer produced.
pub enum WirePayload {
    Json(String),
    MsgPack(Vec<u8>),
}

/// The mathematical value of an encoded event.
pub enum WirePayloadV {
    Json(Seq<char>),
    MsgPack(Seq<u8>),
}

impl View for WirePayload {
    type V = WirePayloadV;

    open spec fn view(&self) -> WirePayloadV {
        match self {
            WirePayload::Json(t) => WirePayloadV::Json(t@),
            WirePayload::MsgPack(b) => WirePayloadV::MsgPack(b@),
        }
    }
}

/// Does a payload carry the encoding this format expects?
pub open spec fn payload_matches(format: MessageFormat, payload: WirePayload) -> bool {
    match payload {
        WirePayload::Json(_) => format == MessageFormat::Json,
        WirePayload::MsgPack(_) => format == MessageFormat::MsgPack,
    }
}

/// What one ingress frame means to the session.
pub enum DecodeStep {
    /// Deserialize these payload bytes.
    Payload(Vec<u8>),
    /// A control frame: skip it.
    Ignore,
    /// Tear the session down with this reason.
    Close(String),
}

/// The mathematical value of a decode step.
pub enum DecodeStepV {
    Payload(Seq<u8>),
    Ignore,
    Close(Seq<char>),
}

impl View for DecodeStep {
    type V = DecodeStepV;

    open spec fn view(&self) -> DecodeStepV {
        match self {
            DecodeStep::Payload(b) => DecodeStepV::Payload(b@),
            DecodeStep::Ignore => DecodeStepV::Ignore,
            DecodeStep::Close(reason) => DecodeStepV::Close(reason@),
        }
    }
}

/// The frame `encode` wraps a payload in: JSON as a text frame, MsgPack as
/// a binary frame.
pub open spec fn encode_spec(payload: WirePayloadV) -> FrameV {
    match payload {
        WirePayloadV::Json(t) => FrameV::Text(t),
        WirePayloadV::MsgPack(b) => FrameV::Binary(b),
    }
}

/// What `decode` makes of one ingress frame under a format: JSON sessions
/// read text and binary frames, both as bytes for the JSON decoder;
/// MsgPack sessions read binary frames only; control frames are skipped.
pub open spec fn decode_spec(format: MessageFormat, frame: FrameV) -> DecodeStepV {
    match frame {
        FrameV::Text(t) => match format {
            MessageFormat::Json => DecodeStepV::Payload(encode_utf8(t)),
            MessageFormat::MsgPack => DecodeStepV::Close(
                "msgpack decode: expected a binary frame"@,
            ),
        },
        FrameV::Binary(b) => DecodeStepV::Payload(b),
        FrameV::Ping(_) => DecodeStepV::Ignore,
        FrameV::Pong(_) => DecodeStepV::Ignore,
        FrameV::Close(_) => DecodeStepV::Ignore,
    }
}

impl ConnectionSettings {
    /// Negotiate settings from the raw query string of the upgrade
    /// request.  HTTP request targets are ASCII; a query that is not is
    /// treated like an absent one and negotiates the defaults.
    pub fn from_query(query: &str) -> (r: ConnectionSettings)
        ensures
            r.version == (if query.is_ascii() {
                match query_param(query@, "version"@) {
                    Some(v) => if v.len() > 0 && all_dec_digits(v) && dec_val(v) <= 255 {
                        dec_val(v) as u8
                    } else {
                        DEFAULT_VERSION
                    },
                    None => DEFAULT_VERSION,
                }
            } else {
                DEFAULT_VERSION
            }),
            r.format == (if query.is_ascii() {
                match query_param(query@, "format"@) {
                    Some(f) => if spells_msgpack(f) {
                        MessageFormat::MsgPack
                    } else {
                        MessageFormat::Json
                    },
                    None => MessageFormat::Json,
                }
            } else {
                MessageFormat::Json
            }),
    {
        if !query.is_ascii() {
            return ConnectionSettings { version: DEFAULT_VERSION, format: MessageFormat::Json };
        }
        let version: u8 = match qs_get(query, "version") {
            Some(v) => match parse_u8_dec(v.as_str()) {
                Some(n) => n,
                None => DEFAULT_VERSION,
            },
            None => DEFAULT_VERSION,
        };
        let format: MessageFormat = match qs_get(query, "format") {
            Some(f) => MessageFormat::from_str(f.as_str()),
            None => MessageFormat::Json,
        };
        ConnectionSettings { version, format }
    }

    /// Wrap an encoded event in the egress frame of the negotiated format:
    /// JSON payloads go out as text frames, MsgPack payloads as binary
    /// frames.
    pub fn encode(&self, payload: WirePayload) -> (r: Frame)
        requires
            payload_matches(self.format, payload),
        ensures
            r@ == encode_spec(payload@),
    {
        match payload {
            WirePayload::Json(t) => Frame::Text(t),
            WirePayload::MsgPack(b) => Frame::Binary(b),
        }
    }

    /// Classify one ingress frame.  JSON sessions read text and binary
    /// frames, both through the JSON decoder; MsgPack sessions read binary
    /// frames only, and a text frame is a protocol error.  Ping, pong and
    /// close frames are skipped at this layer.
    pub fn decode(&self, frame: Frame) -> (r: DecodeStep)
        ensures
            r@ == decode_spec(self.format, frame@),
    {
        match frame {
            Frame::Text(t) => match self.format {
                MessageFormat::Json => DecodeStep::Payload(t.as_str().as_bytes_vec()),
                MessageFormat::MsgPack => DecodeStep::Close(
                    String::from_str("msgpack decode: expected a binary frame"),
                ),
            },
            Frame::Binary(b) => DecodeStep::Payload(b),
            Frame::Ping(_) => DecodeStep::Ignore,
            Frame::Pong(_) => DecodeStep::Ignore,
            Frame::Close(_) => DecodeStep::Ignore,
        }
    }
}

/// Law: on each format's canonical egress frames — text for JSON, binary
/// for MsgPack — encoding is a right inverse of decoding at the frame
/// layer.  Such a frame decodes to exactly its payload bytes, and the
/// payload those bytes denote wraps back into the very same frame: a
/// binary frame carries its bytes, a text frame the UTF-8 encoding of its
/// text, whose decoding is the text again.
pub proof fn lemma_encode_inverts_decode(format: MessageFormat, frame: FrameV)
    requires
        format == MessageFormat::Json ==> frame is Text,
        format == MessageFormat::MsgPack ==> frame is Binary,
    ensures
        frame matches FrameV::Text(t) ==> decode_spec(format, frame) == DecodeStepV::Payload(
            encode_utf8(t),
        ) && encode_spec(WirePayloadV::Json(decode_utf8(encode_utf8(t)))) == frame,
        frame matches FrameV::Binary(b) ==> decode_spec(format, frame) == DecodeStepV::Payload(b)
            && encode_spec(WirePayloadV::MsgPack(b)) == frame,
{
    if let FrameV::Text(t) = frame {
        encode_utf8_decode_utf8(t);
    }
}

} // verus!
