//! The messages that travel over the signaling socket: how they are read
//! from JSON and written to it.

use vstd::prelude::*;
use crate::json::{
    array_of, items_value, json_array, json_member, json_parse, json_str_member, json_text,
    json_u64, json_u64_member, lemma_lookup_push, members_value, object_of,
    parse_json, print_json, str_equal, text_of, Json, JsonValue,
};

verus! {

/// A signaling message. Every message carries the time it was sent, in
/// milliseconds since the Unix epoch.
#[derive(Debug)]
pub enum SignalingMessage {
    /// The receiver greets a connection it has accepted.
    Welcome { server: String, version: String, timestamp: u64 },
    /// The device says who it is.
    DeviceInfo { name: String, ip: String, resolution: (u32, u32), timestamp: u64 },
    /// The device proposes a session.
    Offer { sdp: String, timestamp: u64 },
    /// The receiver answers the proposal.
    Answer { sdp: String, timestamp: u64 },
    /// Either side names a way to reach it.
    IceCandidate {
        candidate: String,
        sdp_mid: Option<String>,
        sdp_mline_index: Option<u16>,
        timestamp: u64,
    },
    /// Either side ends the session.
    Close { timestamp: u64 },
}

/// A [`SignalingMessage`] by the characters of its strings.
pub enum SignalingMessageView {
    Welcome { server: Seq<char>, version: Seq<char>, timestamp: u64 },
    DeviceInfo { name: Seq<char>, ip: Seq<char>, resolution: (u32, u32), timestamp: u64 },
    Offer { sdp: Seq<char>, timestamp: u64 },
    Answer { sdp: Seq<char>, timestamp: u64 },
    IceCandidate {
        candidate: Seq<char>,
        sdp_mid: Option<Seq<char>>,
        sdp_mline_index: Option<u16>,
        timestamp: u64,
    },
    Close { timestamp: u64 },
}

/// The characters of a string that may be absent.
pub open spec fn optional_text(text: Option<String>) -> Option<Seq<char>> {
    match text {
        Some(s) => Some(s@),
        None => None,
    }
}

impl View for SignalingMessage {
    type V = SignalingMessageView;

    open spec fn view(&self) -> SignalingMessageView {
        match self {
            SignalingMessage::Welcome { server, version, timestamp } => SignalingMessageView::Welcome {
                server: server@,
                version: version@,
                timestamp: *timestamp,
            },
            SignalingMessage::DeviceInfo {
                name,
                ip,
                resolution,
                timestamp,
            } => SignalingMessageView::DeviceInfo {
                name: name@,
                ip: ip@,
                resolution: *resolution,
                timestamp: *timestamp,
            },
            SignalingMessage::Offer { sdp, timestamp } => SignalingMessageView::Offer {
                sdp: sdp@,
                timestamp: *timestamp,
            },
            SignalingMessage::Answer { sdp, timestamp } => SignalingMessageView::Answer {
                sdp: sdp@,
                timestamp: *timestamp,
            },
            SignalingMessage::IceCandidate {
                candidate,
                sdp_mid,
                sdp_mline_index,
                timestamp,
            } => SignalingMessageView::IceCandidate {
                candidate: candidate@,
                sdp_mid: optional_text(*sdp_mid),
                sdp_mline_index: *sdp_mline_index,
                timestamp: *timestamp,
            },
            SignalingMessage::Close { timestamp } => SignalingMessageView::Close {
                timestamp: *timestamp,
            },
        }
    }
}

/// Why a frame of text is no signaling message. None of these ends the
/// connection: the one message is set aside.
#[derive(Debug, Clone, Copy, PartialEq, Eq, Structural)]
pub enum SignalingError {
    /// The text is not JSON.
    InvalidJson,
    /// There is no `type` member that is a string.
    MissingType,
    /// The `type` names no message of the protocol.
    UnknownType,
    /// The message needs a `data` member and has none.
    MissingData,
    /// `data` lacks a string the message cannot do without.
    MissingField,
}

/// The width a device reports where it reports none.
pub const DEFAULT_WIDTH: u32 = 1080;

/// The height a device reports where it reports none.
pub const DEFAULT_HEIGHT: u32 = 1920;

/// The time a message was sent: its `timestamp`, or zero where it has none.
pub open spec fn timestamp_of(message: JsonValue) -> u64 {
    match json_u64_member(message, "timestamp"@) {
        Some(t) => t,
        None => 0,
    }
}

/// One side of a resolution: the low 32 bits of the number given, or the
/// default where the item is no integer from zero up.
pub open spec fn dimension_of(item: JsonValue, default: u32) -> u32 {
    match json_u64(item) {
        Some(n) => (n % 0x1_0000_0000) as u32,
        None => default,
    }
}

/// The resolution a device reports: the first two items of `resolution`,
/// or 1080 by 1920 where that member is no array of two items or more.
pub open spec fn resolution_of(data: JsonValue) -> (u32, u32) {
    match json_member(data, "resolution"@) {
        Some(member) => match json_array(member) {
            Some(items) => if items.len() >= 2 {
                (dimension_of(items[0], DEFAULT_WIDTH), dimension_of(items[1], DEFAULT_HEIGHT))
            } else {
                (DEFAULT_WIDTH, DEFAULT_HEIGHT)
            },
            None => (DEFAULT_WIDTH, DEFAULT_HEIGHT),
        },
        None => (DEFAULT_WIDTH, DEFAULT_HEIGHT),
    }
}

/// A string member, or a default where it is absent or no string.
pub open spec fn text_or(found: Option<Seq<char>>, default: Seq<char>) -> Seq<char> {
    match found {
        Some(s) => s,
        None => default,
    }
}

/// The index of a media line: the low sixteen bits of the number given.
pub open spec fn mline_index_of(data: JsonValue) -> Option<u16> {
    match json_u64_member(data, "sdpMLineIndex"@) {
        Some(n) => Some((n % 0x1_0000) as u16),
        None => None,
    }
}

/// The message a `data` member holds under a given tag.
pub open spec fn decode_body(tag: Seq<char>, data: Option<JsonValue>, timestamp: u64) -> Result<
    SignalingMessageView,
    SignalingError,
> {
    if tag == "close"@ {
        Ok(SignalingMessageView::Close { timestamp })
    } else if tag == "welcome"@ || tag == "device_info"@ || tag == "offer"@ || tag
        == "webrtc_answer"@ || tag == "ice_candidate"@ {
        match data {
            None => Err(SignalingError::MissingData),
            Some(d) => if tag == "device_info"@ {
                Ok(
                    SignalingMessageView::DeviceInfo {
                        name: text_or(json_str_member(d, "name"@), "Unknown Device"@),
                        ip: text_or(json_str_member(d, "ip"@), "Unknown"@),
                        resolution: resolution_of(d),
                        timestamp,
                    },
                )
            } else if tag == "offer"@ {
                match json_str_member(d, "sdp"@) {
                    Some(sdp) => Ok(SignalingMessageView::Offer { sdp, timestamp }),
                    None => Err(SignalingError::MissingField),
                }
            } else if tag == "webrtc_answer"@ {
                match json_str_member(d, "sdp"@) {
                    Some(sdp) => Ok(SignalingMessageView::Answer { sdp, timestamp }),
                    None => Err(SignalingError::MissingField),
                }
            } else if tag == "ice_candidate"@ {
                match json_str_member(d, "candidate"@) {
                    Some(candidate) => Ok(
                        SignalingMessageView::IceCandidate {
                            candidate,
                            sdp_mid: json_str_member(d, "sdpMid"@),
                            sdp_mline_index: mline_index_of(d),
                            timestamp,
                        },
                    ),
                    None => Err(SignalingError::MissingField),
                }
            } else {
                match (json_str_member(d, "server"@), json_str_member(d, "version"@)) {
                    (Some(server), Some(version)) => Ok(
                        SignalingMessageView::Welcome { server, version, timestamp },
                    ),
                    _ => Err(SignalingError::MissingField),
                }
            },
        }
    } else {
        Err(SignalingError::UnknownType)
    }
}

/// What a JSON value is as a signaling message.
pub open spec fn decode_message(value: JsonValue) -> Result<SignalingMessageView, SignalingError> {
    match json_str_member(value, "type"@) {
        None => Err(SignalingError::MissingType),
        Some(tag) => decode_body(tag, json_member(value, "data"@), timestamp_of(value)),
    }
}

/// What a frame of text is as a signaling message.
pub open spec fn decode_frame(text: Seq<char>) -> Result<SignalingMessageView, SignalingError> {
    match json_parse(text) {
        None => Err(SignalingError::InvalidJson),
        Some(value) => decode_message(value),
    }
}

fn read_dimension(item: &Json, default: u32) -> (r: u32)
    ensures
        r == dimension_of(item@, default),
{
    match item.as_u64() {
        Some(n) => (n % 0x1_0000_0000) as u32,
        None => default,
    }
}

fn read_resolution(data: &Json) -> (r: (u32, u32))
    ensures
        r == resolution_of(data@),
{
    match data.get("resolution") {
        Some(member) => match member.as_array() {
            Some(items) => if items.len() >= 2 {
                (read_dimension(&items[0], DEFAULT_WIDTH), read_dimension(&items[1], DEFAULT_HEIGHT))
            } else {
                (DEFAULT_WIDTH, DEFAULT_HEIGHT)
            },
            None => (DEFAULT_WIDTH, DEFAULT_HEIGHT),
        },
        None => (DEFAULT_WIDTH, DEFAULT_HEIGHT),
    }
}

fn read_text<'a>(data: &'a Json, key: &str) -> (r: Option<&'a str>)
    ensures
        match r {
            Some(s) => json_str_member(data@, key@) == Some(s@),
            None => json_str_member(data@, key@) is None,
        },
{
    match data.get(key) {
        Some(member) => member.as_str(),
        None => None,
    }
}

fn read_number(data: &Json, key: &str) -> (r: Option<u64>)
    ensures
        r == json_u64_member(data@, key@),
{
    match data.get(key) {
        Some(member) => member.as_u64(),
        None => None,
    }
}

fn read_text_or(data: &Json, key: &str, default: &str) -> (r: String)
    ensures
        r@ == text_or(json_str_member(data@, key@), default@),
{
    match read_text(data, key) {
        Some(s) => s.to_owned(),
        None => default.to_owned(),
    }
}

fn read_body(tag: &str, data: Option<&Json>, timestamp: u64) -> (r: Result<
    SignalingMessage,
    SignalingError,
>)
    ensures
        match decode_body(
            tag@,
            match data {
                Some(d) => Some(d@),
                None => None,
            },
            timestamp,
        ) {
            Ok(message) => r is Ok && r->Ok_0@ == message,
            Err(e) => r is Err && r->Err_0 == e,
        },
{
    if str_equal(tag, "close") {
        return Ok(SignalingMessage::Close { timestamp });
    }
    let is_device_info = str_equal(tag, "device_info");
    let is_offer = str_equal(tag, "offer");
    let is_answer = str_equal(tag, "webrtc_answer");
    let is_candidate = str_equal(tag, "ice_candidate");
    if !(str_equal(tag, "welcome") || is_device_info || is_offer || is_answer || is_candidate) {
        return Err(SignalingError::UnknownType);
    }
    let d = match data {
        Some(d) => d,
        None => {
            return Err(SignalingError::MissingData);
        },
    };
    if is_device_info {
        Ok(
            SignalingMessage::DeviceInfo {
                name: read_text_or(d, "name", "Unknown Device"),
                ip: read_text_or(d, "ip", "Unknown"),
                resolution: read_resolution(d),
                timestamp,
            },
        )
    } else if is_offer {
        match read_text(d, "sdp") {
            Some(sdp) => Ok(SignalingMessage::Offer { sdp: sdp.to_owned(), timestamp }),
            None => Err(SignalingError::MissingField),
        }
    } else if is_answer {
        match read_text(d, "sdp") {
            Some(sdp) => Ok(SignalingMessage::Answer { sdp: sdp.to_owned(), timestamp }),
            None => Err(SignalingError::MissingField),
        }
    } else if is_candidate {
        match read_text(d, "candidate") {
            Some(candidate) => {
                let sdp_mid = match read_text(d, "sdpMid") {
                    Some(mid) => Some(mid.to_owned()),
                    None => None,
                };
                let sdp_mline_index = match read_number(d, "sdpMLineIndex") {
                    Some(n) => Some((n % 0x1_0000) as u16),
                    None => None,
                };
                Ok(
                    SignalingMessage::IceCandidate {
                        candidate: candidate.to_owned(),
                        sdp_mid,
                        sdp_mline_index,
                        timestamp,
                    },
                )
            },
            None => Err(SignalingError::MissingField),
        }
    } else {
        match (read_text(d, "server"), read_text(d, "version")) {
            (Some(server), Some(version)) => Ok(
                SignalingMessage::Welcome {
                    server: server.to_owned(),
                    version: version.to_owned(),
                    timestamp,
                },
            ),
            _ => Err(SignalingError::MissingField),
        }
    }
}

impl SignalingMessage {
    /// Reads a message from a JSON value.
    ///
    /// Fields a device may leave out take their defaults: a name, an
    /// address, a resolution of 1080 by 1920, a time of zero.
    pub fn from_json(value: &Json) -> (r: Result<SignalingMessage, SignalingError>)
        ensures
            match decode_message(value@) {
                Ok(message) => r is Ok && r->Ok_0@ == message,
                Err(e) => r is Err && r->Err_0 == e,
            },
    {
        let tag = match read_text(value, "type") {
            Some(tag) => tag,
            None => {
                return Err(SignalingError::MissingType);
            },
        };
        let timestamp = match read_number(value, "timestamp") {
            Some(t) => t,
            None => 0,
        };
        read_body(tag, value.get("data"), timestamp)
    }

    /// Reads a message from a frame of text.
    pub fn parse(text: &str) -> (r: Result<SignalingMessage, SignalingError>)
        ensures
            match decode_frame(text@) {
                Ok(message) => r is Ok && r->Ok_0@ == message,
                Err(e) => r is Err && r->Err_0 == e,
            },
    {
        match parse_json(text) {
            Some(value) => SignalingMessage::from_json(&value),
            None => Err(SignalingError::InvalidJson),
        }
    }
}

/// The frame of every message: its tag, the time it was sent and, where
/// the message has any, its data.
pub open spec fn envelope(tag: Seq<char>, timestamp: u64, data: Option<JsonValue>) -> JsonValue {
    match data {
        Some(d) => JsonValue::Object(
            seq![
                ("type"@, JsonValue::Text(tag)),
                ("timestamp"@, JsonValue::Unsigned(timestamp)),
                ("data"@, d),
            ],
        ),
        None => JsonValue::Object(
            seq![("type"@, JsonValue::Text(tag)), ("timestamp"@, JsonValue::Unsigned(timestamp))],
        ),
    }
}

/// The data of a candidate: the candidate line, then the media id and the
/// media line index where they are given.
pub open spec fn candidate_data(
    candidate: Seq<char>,
    sdp_mid: Option<Seq<char>>,
    sdp_mline_index: Option<u16>,
) -> Seq<(Seq<char>, JsonValue)> {
    let line = seq![("candidate"@, JsonValue::Text(candidate))];
    let with_mid = match sdp_mid {
        Some(mid) => line.push(("sdpMid"@, JsonValue::Text(mid))),
        None => line,
    };
    match sdp_mline_index {
        Some(index) => with_mid.push(("sdpMLineIndex"@, JsonValue::Unsigned(index as u64))),
        None => with_mid,
    }
}

/// The JSON value of a message as it goes over the socket.
pub open spec fn encode_message(message: SignalingMessageView) -> JsonValue {
    match message {
        SignalingMessageView::Welcome { server, version, timestamp } => envelope(
            "welcome"@,
            timestamp,
            Some(
                JsonValue::Object(
                    seq![
                        ("server"@, JsonValue::Text(server)),
                        ("version"@, JsonValue::Text(version)),
                    ],
                ),
            ),
        ),
        SignalingMessageView::DeviceInfo { name, ip, resolution, timestamp } => envelope(
            "device_info"@,
            timestamp,
            Some(
                JsonValue::Object(
                    seq![
                        ("name"@, JsonValue::Text(name)),
                        ("ip"@, JsonValue::Text(ip)),
                        (
                            "resolution"@,
                            JsonValue::Array(
                                seq![
                                    JsonValue::Unsigned(resolution.0 as u64),
                                    JsonValue::Unsigned(resolution.1 as u64),
                                ],
                            ),
                        ),
                    ],
                ),
            ),
        ),
        SignalingMessageView::Offer { sdp, timestamp } => envelope(
            "offer"@,
            timestamp,
            Some(JsonValue::Object(seq![("sdp"@, JsonValue::Text(sdp))])),
        ),
        SignalingMessageView::Answer { sdp, timestamp } => envelope(
            "webrtc_answer"@,
            timestamp,
            Some(
                JsonValue::Object(
                    seq![("sdp"@, JsonValue::Text(sdp)), ("type"@, JsonValue::Text("answer"@))],
                ),
            ),
        ),
        SignalingMessageView::IceCandidate {
            candidate,
            sdp_mid,
            sdp_mline_index,
            timestamp,
        } => envelope(
            "ice_candidate"@,
            timestamp,
            Some(JsonValue::Object(candidate_data(candidate, sdp_mid, sdp_mline_index))),
        ),
        SignalingMessageView::Close { timestamp } => envelope("close"@, timestamp, None),
    }
}

fn wrap(tag: &str, timestamp: u64, data: Option<Json>) -> (json: Json)
    ensures
        json@ == envelope(
            tag@,
            timestamp,
            match data {
                Some(d) => Some(d@),
                None => None,
            },
        ),
{
    let mut members: Vec<(String, Json)> = Vec::new();
    members.push(("type".to_owned(), text_of(tag)));
    members.push(("timestamp".to_owned(), Json::Unsigned(timestamp)));
    match data {
        Some(d) => {
            let ghost inner = d@;
            members.push(("data".to_owned(), d));
            proof {
                assert(members_value(members@) =~= seq![
                    ("type"@, JsonValue::Text(tag@)),
                    ("timestamp"@, JsonValue::Unsigned(timestamp)),
                    ("data"@, inner),
                ]);
            }
        },
        None => {
            proof {
                assert(members_value(members@) =~= seq![
                    ("type"@, JsonValue::Text(tag@)),
                    ("timestamp"@, JsonValue::Unsigned(timestamp)),
                ]);
            }
        },
    }
    object_of(members)
}

fn pair_of(first: u32, second: u32) -> (json: Json)
    ensures
        json@ == JsonValue::Array(
            seq![JsonValue::Unsigned(first as u64), JsonValue::Unsigned(second as u64)],
        ),
{
    let mut items: Vec<Json> = Vec::new();
    items.push(Json::Unsigned(first as u64));
    items.push(Json::Unsigned(second as u64));
    assert(items_value(items@) =~= seq![
        JsonValue::Unsigned(first as u64),
        JsonValue::Unsigned(second as u64),
    ]);
    array_of(items)
}

impl SignalingMessage {
    /// The JSON value of this message.
    pub fn to_json(&self) -> (json: Json)
        ensures
            json@ == encode_message(self@),
    {
        let mut data: Vec<(String, Json)> = Vec::new();
        match self {
            SignalingMessage::Welcome { server, version, timestamp } => {
                data.push(("server".to_owned(), text_of(server.as_str())));
                data.push(("version".to_owned(), text_of(version.as_str())));
                proof {
                    assert(members_value(data@) =~= seq![
                        ("server"@, JsonValue::Text(server@)),
                        ("version"@, JsonValue::Text(version@)),
                    ]);
                }
                wrap("welcome", *timestamp, Some(object_of(data)))
            },
            SignalingMessage::DeviceInfo { name, ip, resolution, timestamp } => {
                data.push(("name".to_owned(), text_of(name.as_str())));
                data.push(("ip".to_owned(), text_of(ip.as_str())));
                data.push(("resolution".to_owned(), pair_of(resolution.0, resolution.1)));
                proof {
                    assert(members_value(data@) =~= seq![
                        ("name"@, JsonValue::Text(name@)),
                        ("ip"@, JsonValue::Text(ip@)),
                        (
                            "resolution"@,
                            JsonValue::Array(
                                seq![
                                    JsonValue::Unsigned(resolution.0 as u64),
                                    JsonValue::Unsigned(resolution.1 as u64),
                                ],
                            ),
                        ),
                    ]);
                }
                wrap("device_info", *timestamp, Some(object_of(data)))
            },
            SignalingMessage::Offer { sdp, timestamp } => {
                data.push(("sdp".to_owned(), text_of(sdp.as_str())));
                proof {
                    assert(members_value(data@) =~= seq![("sdp"@, JsonValue::Text(sdp@))]);
                }
                wrap("offer", *timestamp, Some(object_of(data)))
            },
            SignalingMessage::Answer { sdp, timestamp } => {
                data.push(("sdp".to_owned(), text_of(sdp.as_str())));
                data.push(("type".to_owned(), text_of("answer")));
                proof {
                    assert(members_value(data@) =~= seq![
                        ("sdp"@, JsonValue::Text(sdp@)),
                        ("type"@, JsonValue::Text("answer"@)),
                    ]);
                }
                wrap("webrtc_answer", *timestamp, Some(object_of(data)))
            },
            SignalingMessage::IceCandidate { candidate, sdp_mid, sdp_mline_index, timestamp } => {
                data.push(("candidate".to_owned(), text_of(candidate.as_str())));
                match sdp_mid {
                    Some(mid) => {
                        data.push(("sdpMid".to_owned(), text_of(mid.as_str())));
                    },
                    None => {},
                }
                match sdp_mline_index {
                    Some(index) => {
                        data.push(("sdpMLineIndex".to_owned(), Json::Unsigned(*index as u64)));
                    },
                    None => {},
                }
                proof {
                    assert(members_value(data@) =~= candidate_data(
                        candidate@,
                        optional_text(*sdp_mid),
                        *sdp_mline_index,
                    ));
                }
                wrap("ice_candidate", *timestamp, Some(object_of(data)))
            },
            SignalingMessage::Close { timestamp } => wrap("close", *timestamp, None),
        }
    }

    /// The text of this message as it goes over the socket; `None` where the
    /// printer reports an error.
    pub fn to_text(&self) -> (r: Option<String>)
        ensures
            match r {
                Some(text) => json_text(encode_message(self@)) == Some(text@),
                None => json_text(encode_message(self@)) is None,
            },
    {
        let json = self.to_json();
        print_json(&json)
    }
}

/// The frame gives back what was put into it: the tag, the time and the
/// data.
proof fn lemma_envelope(tag: Seq<char>, timestamp: u64, data: Option<JsonValue>)
    ensures
        json_str_member(envelope(tag, timestamp, data), "type"@) == Some(tag),
        timestamp_of(envelope(tag, timestamp, data)) == timestamp,
        json_member(envelope(tag, timestamp, data), "data"@) == data,
{
    reveal_strlit("type");
    reveal_strlit("timestamp");
    reveal_strlit("data");
    assert("type"@.len() == 4 && "timestamp"@.len() == 9 && "data"@.len() == 4);
    assert("type"@[0] != "data"@[0]);
    let none = Seq::<(Seq<char>, JsonValue)>::empty();
    let one = none.push(("type"@, JsonValue::Text(tag)));
    let two = one.push(("timestamp"@, JsonValue::Unsigned(timestamp)));
    lemma_lookup_push(none, "type"@, JsonValue::Text(tag), "data"@);
    lemma_lookup_push(one, "timestamp"@, JsonValue::Unsigned(timestamp), "type"@);
    lemma_lookup_push(one, "timestamp"@, JsonValue::Unsigned(timestamp), "data"@);
    match data {
        Some(d) => {
            let three = two.push(("data"@, d));
            lemma_lookup_push(two, "data"@, d, "type"@);
            lemma_lookup_push(two, "data"@, d, "timestamp"@);
            assert(three =~= seq![
                ("type"@, JsonValue::Text(tag)),
                ("timestamp"@, JsonValue::Unsigned(timestamp)),
                ("data"@, d),
            ]);
        },
        None => {
            assert(two =~= seq![
                ("type"@, JsonValue::Text(tag)),
                ("timestamp"@, JsonValue::Unsigned(timestamp)),
            ]);
        },
    }
}

/// The six tags are six different strings.
proof fn lemma_tags_differ()
    ensures
        "welcome"@ != "device_info"@,
        "welcome"@ != "offer"@,
        "welcome"@ != "webrtc_answer"@,
        "welcome"@ != "ice_candidate"@,
        "welcome"@ != "close"@,
        "device_info"@ != "offer"@,
        "device_info"@ != "webrtc_answer"@,
        "device_info"@ != "ice_candidate"@,
        "device_info"@ != "close"@,
        "offer"@ != "webrtc_answer"@,
        "offer"@ != "ice_candidate"@,
        "offer"@ != "close"@,
        "webrtc_answer"@ != "ice_candidate"@,
        "webrtc_answer"@ != "close"@,
        "ice_candidate"@ != "close"@,
{
    reveal_strlit("welcome");
    reveal_strlit("device_info");
    reveal_strlit("offer");
    reveal_strlit("webrtc_answer");
    reveal_strlit("ice_candidate");
    reveal_strlit("close");
    assert("welcome"@.len() == 7);
    assert("offer"@[0] != "close"@[0]);
    assert("webrtc_answer"@[0] != "ice_candidate"@[0]);
}

/// A message that was encoded decodes to itself: nothing is lost or changed
/// on the way through JSON, whatever the message holds.
pub proof fn lemma_message_round_trip(message: SignalingMessageView)
    ensures
        decode_message(encode_message(message)) == Ok::<SignalingMessageView, SignalingError>(
            message,
        ),
{
    lemma_tags_differ();
    let none = Seq::<(Seq<char>, JsonValue)>::empty();
    match message {
        SignalingMessageView::Welcome { server, version, timestamp } => {
            reveal_strlit("server");
            reveal_strlit("version");
            assert("server"@.len() == 6 && "version"@.len() == 7);
            let one = none.push(("server"@, JsonValue::Text(server)));
            let two = one.push(("version"@, JsonValue::Text(version)));
            lemma_lookup_push(one, "version"@, JsonValue::Text(version), "server"@);
            assert(two =~= seq![
                ("server"@, JsonValue::Text(server)),
                ("version"@, JsonValue::Text(version)),
            ]);
            lemma_envelope("welcome"@, timestamp, Some(JsonValue::Object(two)));
        },
        SignalingMessageView::DeviceInfo { name, ip, resolution, timestamp } => {
            reveal_strlit("name");
            reveal_strlit("ip");
            reveal_strlit("resolution");
            assert("name"@.len() == 4 && "ip"@.len() == 2 && "resolution"@.len() == 10);
            let pair = JsonValue::Array(
                seq![
                    JsonValue::Unsigned(resolution.0 as u64),
                    JsonValue::Unsigned(resolution.1 as u64),
                ],
            );
            let one = none.push(("name"@, JsonValue::Text(name)));
            let two = one.push(("ip"@, JsonValue::Text(ip)));
            let three = two.push(("resolution"@, pair));
            lemma_lookup_push(one, "ip"@, JsonValue::Text(ip), "name"@);
            lemma_lookup_push(two, "resolution"@, pair, "name"@);
            lemma_lookup_push(two, "resolution"@, pair, "ip"@);
            assert(three =~= seq![
                ("name"@, JsonValue::Text(name)),
                ("ip"@, JsonValue::Text(ip)),
                ("resolution"@, pair),
            ]);
            lemma_envelope("device_info"@, timestamp, Some(JsonValue::Object(three)));
        },
        SignalingMessageView::Offer { sdp, timestamp } => {
            let one = none.push(("sdp"@, JsonValue::Text(sdp)));
            lemma_envelope("offer"@, timestamp, Some(JsonValue::Object(one)));
        },
        SignalingMessageView::Answer { sdp, timestamp } => {
            reveal_strlit("sdp");
            reveal_strlit("type");
            assert("sdp"@.len() == 3 && "type"@.len() == 4);
            let one = none.push(("sdp"@, JsonValue::Text(sdp)));
            let two = one.push(("type"@, JsonValue::Text("answer"@)));
            lemma_lookup_push(one, "type"@, JsonValue::Text("answer"@), "sdp"@);
            assert(two =~= seq![
                ("sdp"@, JsonValue::Text(sdp)),
                ("type"@, JsonValue::Text("answer"@)),
            ]);
            lemma_envelope("webrtc_answer"@, timestamp, Some(JsonValue::Object(two)));
        },
        SignalingMessageView::IceCandidate { candidate, sdp_mid, sdp_mline_index, timestamp } => {
            reveal_strlit("candidate");
            reveal_strlit("sdpMid");
            reveal_strlit("sdpMLineIndex");
            assert("candidate"@.len() == 9 && "sdpMid"@.len() == 6 && "sdpMLineIndex"@.len() == 13);
            let one = none.push(("candidate"@, JsonValue::Text(candidate)));
            lemma_lookup_push(none, "candidate"@, JsonValue::Text(candidate), "sdpMid"@);
            lemma_lookup_push(none, "candidate"@, JsonValue::Text(candidate), "sdpMLineIndex"@);
            let two = match sdp_mid {
                Some(mid) => one.push(("sdpMid"@, JsonValue::Text(mid))),
                None => one,
            };
            if let Some(mid) = sdp_mid {
                lemma_lookup_push(one, "sdpMid"@, JsonValue::Text(mid), "candidate"@);
                lemma_lookup_push(one, "sdpMid"@, JsonValue::Text(mid), "sdpMLineIndex"@);
            }
            let three = match sdp_mline_index {
                Some(index) => two.push(("sdpMLineIndex"@, JsonValue::Unsigned(index as u64))),
                None => two,
            };
            if let Some(index) = sdp_mline_index {
                let value = JsonValue::Unsigned(index as u64);
                lemma_lookup_push(two, "sdpMLineIndex"@, value, "candidate"@);
                lemma_lookup_push(two, "sdpMLineIndex"@, value, "sdpMid"@);
            }
            lemma_envelope("ice_candidate"@, timestamp, Some(JsonValue::Object(three)));
        },
        SignalingMessageView::Close { timestamp } => {
            lemma_envelope("close"@, timestamp, None);
        },
    }
}

} // verus!
