//! The pairing payload: what the QR artifact carries from the receiver to
//! the device that scans it.

use vstd::prelude::*;
use crate::clock::now_millis;
use crate::frame::{RenderableFrame, RenderableFrameView};
use crate::json::{
    json_member, json_parse, json_str_member, json_text, json_u64_member, member_lookup,
    members_value, object_of, parse_json, print_json, str_equal, text_of, Json, JsonValue,
};

verus! {

/// Where and how a device reaches the receiver: address, port, the token of
/// the pairing attempt, the time of issue in seconds since the Unix epoch,
/// and the protocol version.
#[derive(Debug, Clone)]
pub struct ConnectionInfo {
    pub ip_address: String,
    pub port: u16,
    pub session_token: String,
    pub timestamp: u64,
    pub version: String,
}

/// A [`ConnectionInfo`] by the characters of its strings.
pub struct ConnectionInfoView {
    pub ip_address: Seq<char>,
    pub port: u16,
    pub session_token: Seq<char>,
    pub timestamp: u64,
    pub version: Seq<char>,
}

impl View for ConnectionInfo {
    type V = ConnectionInfoView;

    open spec fn view(&self) -> ConnectionInfoView {
        ConnectionInfoView {
            ip_address: self.ip_address@,
            port: self.port,
            session_token: self.session_token@,
            timestamp: self.timestamp,
            version: self.version@,
        }
    }
}

/// Why a text is no pairing payload.
#[derive(Debug, Clone, Copy, PartialEq, Eq, Structural)]
pub enum QrDataError {
    /// The text is not JSON.
    InvalidJson,
    /// The outer `type` is not that of a pairing payload.
    NotMirrorCast,
    /// There is no `data` member.
    MissingData,
    /// `data` lacks a field, or a field has the wrong type or range.
    InvalidFormat,
    /// The address is empty.
    InvalidIpAddress,
    /// The port is zero.
    InvalidPort,
    /// The session token is empty.
    InvalidToken,
}

/// The fields of a payload's `data` member: all five present, the strings as
/// strings, the numbers as integers from zero up, the port within sixteen
/// bits.
pub open spec fn decode_fields(data: JsonValue) -> Option<ConnectionInfoView> {
    match (
        json_str_member(data, "ip_address"@),
        json_u64_member(data, "port"@),
        json_str_member(data, "session_token"@),
        json_u64_member(data, "timestamp"@),
        json_str_member(data, "version"@),
    ) {
        (Some(ip_address), Some(port), Some(session_token), Some(timestamp), Some(version)) => {
            if port <= 65535 {
                Some(
                    ConnectionInfoView {
                        ip_address,
                        port: port as u16,
                        session_token,
                        timestamp,
                        version,
                    },
                )
            } else {
                None
            }
        },
        _ => None,
    }
}

/// What a JSON value decodes to as a pairing payload: the connection
/// information it carries, or the first reason for which it is refused.
pub open spec fn decode_payload(value: JsonValue) -> Result<ConnectionInfoView, QrDataError> {
    if json_str_member(value, "type"@) != Some("mirrorcast_connection"@) {
        Err(QrDataError::NotMirrorCast)
    } else {
        match json_member(value, "data"@) {
            None => Err(QrDataError::MissingData),
            Some(data) => match decode_fields(data) {
                None => Err(QrDataError::InvalidFormat),
                Some(info) => if info.ip_address.len() == 0 {
                    Err(QrDataError::InvalidIpAddress)
                } else if info.port == 0 {
                    Err(QrDataError::InvalidPort)
                } else if info.session_token.len() == 0 {
                    Err(QrDataError::InvalidToken)
                } else {
                    Ok(info)
                },
            },
        }
    }
}

/// What a text decodes to: it must parse as JSON, and the value must decode.
pub open spec fn decode_text(text: Seq<char>) -> Result<ConnectionInfoView, QrDataError> {
    match json_parse(text) {
        None => Err(QrDataError::InvalidJson),
        Some(value) => decode_payload(value),
    }
}

/// The JSON value of a pairing payload.
pub open spec fn encode_payload(info: ConnectionInfoView) -> JsonValue {
    JsonValue::Object(
        seq![
            ("type"@, JsonValue::Text("mirrorcast_connection"@)),
            (
                "data"@,
                JsonValue::Object(
                    seq![
                        ("ip_address"@, JsonValue::Text(info.ip_address)),
                        ("port"@, JsonValue::Unsigned(info.port as u64)),
                        ("session_token"@, JsonValue::Text(info.session_token)),
                        ("timestamp"@, JsonValue::Unsigned(info.timestamp)),
                        ("version"@, JsonValue::Text(info.version)),
                    ],
                ),
            ),
        ],
    )
}

/// Connection information that a payload may carry: a non-empty address, a
/// port other than zero, a non-empty token.
pub open spec fn valid_connection_info(info: ConnectionInfoView) -> bool {
    &&& info.ip_address.len() > 0
    &&& info.port != 0
    &&& info.session_token.len() > 0
}

fn decode_data(data: &Json) -> (r: Option<ConnectionInfo>)
    ensures
        match r {
            Some(info) => decode_fields(data@) == Some(info@),
            None => decode_fields(data@) is None,
        },
{
    let ip_address = match data.get("ip_address") {
        Some(member) => match member.as_str() {
            Some(s) => s,
            None => {
                return None;
            },
        },
        None => {
            return None;
        },
    };
    let port = match data.get("port") {
        Some(member) => match member.as_u64() {
            Some(n) => n,
            None => {
                return None;
            },
        },
        None => {
            return None;
        },
    };
    let session_token = match data.get("session_token") {
        Some(member) => match member.as_str() {
            Some(s) => s,
            None => {
                return None;
            },
        },
        None => {
            return None;
        },
    };
    let timestamp = match data.get("timestamp") {
        Some(member) => match member.as_u64() {
            Some(n) => n,
            None => {
                return None;
            },
        },
        None => {
            return None;
        },
    };
    let version = match data.get("version") {
        Some(member) => match member.as_str() {
            Some(s) => s,
            None => {
                return None;
            },
        },
        None => {
            return None;
        },
    };
    if port > 65535 {
        return None;
    }
    Some(
        ConnectionInfo {
            ip_address: ip_address.to_owned(),
            port: port as u16,
            session_token: session_token.to_owned(),
            timestamp,
            version: version.to_owned(),
        },
    )
}

/// Decodes a JSON value as a pairing payload.
pub fn decode_connection_info(value: &Json) -> (r: Result<ConnectionInfo, QrDataError>)
    ensures
        match decode_payload(value@) {
            Ok(info) => r is Ok && r->Ok_0@ == info,
            Err(e) => r is Err && r->Err_0 == e,
        },
{
    let tagged = match value.get("type") {
        Some(member) => match member.as_str() {
            Some(s) => str_equal(s, "mirrorcast_connection"),
            None => false,
        },
        None => false,
    };
    if !tagged {
        return Err(QrDataError::NotMirrorCast);
    }
    let data = match value.get("data") {
        Some(member) => member,
        None => {
            return Err(QrDataError::MissingData);
        },
    };
    let info = match decode_data(data) {
        Some(info) => info,
        None => {
            return Err(QrDataError::InvalidFormat);
        },
    };
    if info.ip_address.as_str().is_empty() {
        return Err(QrDataError::InvalidIpAddress);
    }
    if info.port == 0 {
        return Err(QrDataError::InvalidPort);
    }
    if info.session_token.as_str().is_empty() {
        return Err(QrDataError::InvalidToken);
    }
    Ok(info)
}

/// Reads a pairing payload from its text.
///
/// The text must be JSON whose `type` is `mirrorcast_connection` and whose
/// `data` holds the five fields; an empty address, a port of zero and an
/// empty token are refused.
pub fn validate_qr_data(data: &str) -> (r: Result<ConnectionInfo, QrDataError>)
    ensures
        match decode_text(data@) {
            Ok(info) => r is Ok && r->Ok_0@ == info,
            Err(e) => r is Err && r->Err_0 == e,
        },
{
    match parse_json(data) {
        Some(value) => decode_connection_info(&value),
        None => Err(QrDataError::InvalidJson),
    }
}

impl ConnectionInfo {
    /// The JSON value of the payload that carries this information.
    pub fn to_json(&self) -> (json: Json)
        ensures
            json@ == encode_payload(self@),
    {
        let mut data: Vec<(String, Json)> = Vec::new();
        data.push(("ip_address".to_owned(), text_of(self.ip_address.as_str())));
        data.push(("port".to_owned(), Json::Unsigned(self.port as u64)));
        data.push(("session_token".to_owned(), text_of(self.session_token.as_str())));
        data.push(("timestamp".to_owned(), Json::Unsigned(self.timestamp)));
        data.push(("version".to_owned(), text_of(self.version.as_str())));
        let ghost inner = members_value(data@);
        let mut outer: Vec<(String, Json)> = Vec::new();
        outer.push(("type".to_owned(), text_of("mirrorcast_connection")));
        outer.push(("data".to_owned(), object_of(data)));
        proof {
            assert(inner =~= seq![
                ("ip_address"@, JsonValue::Text(self.ip_address@)),
                ("port"@, JsonValue::Unsigned(self.port as u64)),
                ("session_token"@, JsonValue::Text(self.session_token@)),
                ("timestamp"@, JsonValue::Unsigned(self.timestamp)),
                ("version"@, JsonValue::Text(self.version@)),
            ]);
            assert(members_value(outer@) =~= seq![
                ("type"@, JsonValue::Text("mirrorcast_connection"@)),
                ("data"@, JsonValue::Object(inner)),
            ]);
        }
        object_of(outer)
    }

    /// The text of the payload, as the QR artifact carries it; `None` where
    /// the printer reports an error.
    pub fn to_payload_text(&self) -> (r: Option<String>)
        ensures
            match r {
                Some(text) => json_text(encode_payload(self@)) == Some(text@),
                None => json_text(encode_payload(self@)) is None,
            },
    {
        let json = self.to_json();
        print_json(&json)
    }
}

/// Encoding and then decoding gives back the same connection information,
/// for every address and token that are not empty and every port but zero.
pub proof fn lemma_payload_round_trip(info: ConnectionInfoView)
    requires
        valid_connection_info(info),
    ensures
        decode_payload(encode_payload(info)) == Ok::<ConnectionInfoView, QrDataError>(info),
{
    reveal_strlit("type");
    reveal_strlit("data");
    reveal_strlit("ip_address");
    reveal_strlit("port");
    reveal_strlit("session_token");
    reveal_strlit("timestamp");
    reveal_strlit("version");
    reveal_with_fuel(member_lookup, 6);
    assert("type"@[0] != "data"@[0]);
    assert("ip_address"@.len() == 10);
    assert("port"@.len() == 4);
    assert("session_token"@.len() == 13);
    assert("timestamp"@.len() == 9);
}

/// Whatever an artifact is made for, a device can read: the payload of
/// every artifact decodes to the connection information it was made for.
pub proof fn lemma_issued_payload_decodes(info: ConnectionInfoView, server_port: u16)
    requires
        artifact_of(info, server_port) is Ok,
    ensures
        artifact_of(info, server_port)->Ok_0.connection_info == Some(info),
        decode_payload(encode_payload(info)) == Ok::<ConnectionInfoView, QrDataError>(info),
{
    lemma_payload_round_trip(info);
}

/// A value whose outer `type` is anything but that of a pairing payload is
/// refused, whatever else it holds.
pub proof fn lemma_foreign_type_refused(value: JsonValue)
    requires
        json_str_member(value, "type"@) != Some("mirrorcast_connection"@),
    ensures
        decode_payload(value) == Err::<ConnectionInfoView, QrDataError>(QrDataError::NotMirrorCast),
{
}

/// What decodes, is valid: a decoded address and token are never empty and a
/// decoded port is never zero.
pub proof fn lemma_decoded_is_valid(value: JsonValue)
    requires
        decode_payload(value) is Ok,
    ensures
        valid_connection_info(decode_payload(value)->Ok_0),
{
}

/// A grayscale picture: one byte of luminance per pixel, rows from the top.
#[derive(Debug, Clone)]
pub struct LumaImage {
    pub width: u32,
    pub height: u32,
    pub pixels: Vec<u8>,
}

/// A [`LumaImage`] by the sequence of its bytes.
pub struct LumaImageView {
    pub width: u32,
    pub height: u32,
    pub pixels: Seq<u8>,
}

impl View for LumaImage {
    type V = LumaImageView;

    open spec fn view(&self) -> LumaImageView {
        LumaImageView { width: self.width, height: self.height, pixels: self.pixels@ }
    }
}

/// The least side, in pixels, asked of the picture of a QR symbol.
pub const QR_MIN_SIDE: u32 = 300;

/// The greatest side, in pixels, asked of the picture of a QR symbol.
pub const QR_MAX_SIDE: u32 = 600;

/// The port offered until another is set.
pub const DEFAULT_SERVER_PORT: u16 = 8080;

/// The picture that the `qrcode` crate draws of the QR symbol for a text,
/// with the module size it picks for the two bounds; `None` where the crate
/// cannot build a symbol for the text.
pub uninterp spec fn qr_luma(text: Seq<char>, min_side: u32, max_side: u32) -> Option<
    LumaImageView,
>;

/// Draws the QR symbol of a text: `qrcode::QrCode::new`, then its renderer
/// for `image::Luma<u8>` with `min_dimensions` and `max_dimensions`, then
/// `build`. The result is the picture's width, height and raw bytes, named
/// [`qr_luma`]; a text the crate cannot encode gives `None`. The bounds on
/// the two sides keep the renderer's arithmetic and the size of the picture
/// within what `u32` and a buffer can hold.
#[verifier::external_body]
fn render_qr_luma(text: &str, min_side: u32, max_side: u32) -> (r: Option<LumaImage>)
    requires
        min_side <= 0xffff,
        max_side <= 0xffff,
    ensures
        match r {
            Some(image) => qr_luma(text@, min_side, max_side) == Some(image@),
            None => qr_luma(text@, min_side, max_side) is None,
        },
{
    let code = qrcode::QrCode::new(text).ok()?;
    let picture = code.render::<image::Luma<u8>>().min_dimensions(min_side, min_side).max_dimensions(
        max_side,
        max_side,
    ).build();
    Some(LumaImage { width: picture.width(), height: picture.height(), pixels: picture.into_raw() })
}

/// A random token: `uuid::Uuid::new_v4()` printed by `to_string`, which writes
/// the hyphenated form of 36 characters. Which token comes is left open; two
/// calls may give any two tokens. `uuid` gives up where the system has no
/// random bytes to offer.
#[verifier::external_body]
pub(crate) fn random_session_token() -> (token: String)
    ensures
        token@.len() == 36,
{
    uuid::Uuid::new_v4().to_string()
}

/// Grayscale as RGBA: each luminance three times, then an opaque alpha.
pub open spec fn luma_rgba(pixels: Seq<u8>) -> Seq<u8> {
    Seq::new(
        4 * pixels.len(),
        |i: int|
            if i % 4 == 3 {
                255u8
            } else {
                pixels[i / 4]
            },
    )
}

/// The texture of a grayscale picture: its pixels as RGBA under its own
/// dimensions.
pub open spec fn texture_of(image: LumaImageView) -> RenderableFrameView {
    RenderableFrameView {
        pixels: luma_rgba(image.pixels),
        width: image.width,
        height: image.height,
    }
}

/// Turns a grayscale picture into an RGBA texture.
pub fn luma_to_texture(image: &LumaImage) -> (r: RenderableFrame)
    ensures
        r@ == texture_of(image@),
{
    let ghost wanted = luma_rgba(image.pixels@);
    let len: usize = image.pixels.len();
    let mut rgba: Vec<u8> = Vec::new();
    let mut at: usize = 0;
    while at < len
        invariant
            len == image.pixels@.len(),
            at <= len,
            wanted == luma_rgba(image.pixels@),
            rgba@.len() == 4 * at,
            forall|k: int| 0 <= k < rgba@.len() ==> rgba@[k] == wanted[k],
        decreases len - at,
    {
        let luminance: u8 = image.pixels[at];
        rgba.push(luminance);
        rgba.push(luminance);
        rgba.push(luminance);
        rgba.push(255);
        at = at + 1;
    }
    proof {
        assert(rgba@ =~= wanted);
    }
    RenderableFrame { pixels: rgba, width: image.width, height: image.height }
}

/// Why no QR artifact could be made.
#[derive(Debug, Clone, Copy, PartialEq, Eq, Structural)]
pub enum QrGenerationError {
    /// The address or the token is empty, or the port is zero: no device
    /// could use such information, and the payload would be refused.
    InvalidConnectionInfo,
    /// The payload could not be printed as text.
    Unprintable,
    /// No QR symbol holds the payload.
    Unencodable,
}

/// The pairing artifact as a value.
pub struct QrManagerView {
    /// The connection information of the current pairing attempt.
    pub connection_info: Option<ConnectionInfoView>,
    /// The text the QR symbol carries.
    pub payload: Option<Seq<char>>,
    /// The picture of the QR symbol.
    pub image: Option<LumaImageView>,
    /// The texture made of the picture, once it was asked for.
    pub texture: Option<RenderableFrameView>,
    pub server_port: u16,
}

/// The artifact for given connection information: the payload text and the
/// picture of its QR symbol, or the reason for which there is none. There
/// is none for information that a payload may not carry.
pub open spec fn artifact_of(info: ConnectionInfoView, server_port: u16) -> Result<
    QrManagerView,
    QrGenerationError,
> {
    if !valid_connection_info(info) {
        Err(QrGenerationError::InvalidConnectionInfo)
    } else {
        artifact_of_valid(info, server_port)
    }
}

/// The artifact for connection information that a payload may carry.
pub open spec fn artifact_of_valid(info: ConnectionInfoView, server_port: u16) -> Result<
    QrManagerView,
    QrGenerationError,
> {
    match json_text(encode_payload(info)) {
        None => Err(QrGenerationError::Unprintable),
        Some(text) => match qr_luma(text, QR_MIN_SIDE, QR_MAX_SIDE) {
            None => Err(QrGenerationError::Unencodable),
            Some(image) => Ok(
                QrManagerView {
                    connection_info: Some(info),
                    payload: Some(text),
                    image: Some(image),
                    texture: None,
                    server_port,
                },
            ),
        },
    }
}

/// The connection information of a pairing attempt begun at `now_ms`
/// milliseconds since the Unix epoch.
pub open spec fn issued_info(ip_address: Seq<char>, port: u16, token: Seq<char>, now_ms: u64) -> ConnectionInfoView {
    ConnectionInfoView {
        ip_address,
        port,
        session_token: token,
        timestamp: now_ms / 1000,
        version: "1.0.0"@,
    }
}

/// Makes and keeps the QR artifact of the current pairing attempt.
pub struct QRCodeManager {
    current_qr_code: Option<(String, LumaImage)>,
    qr_texture: Option<RenderableFrame>,
    connection_info: Option<ConnectionInfo>,
    server_port: u16,
}

impl View for QRCodeManager {
    type V = QrManagerView;

    closed spec fn view(&self) -> QrManagerView {
        QrManagerView {
            connection_info: match self.connection_info {
                Some(info) => Some(info@),
                None => None,
            },
            payload: match self.current_qr_code {
                Some(code) => Some(code.0@),
                None => None,
            },
            image: match self.current_qr_code {
                Some(code) => Some(code.1@),
                None => None,
            },
            texture: match self.qr_texture {
                Some(texture) => Some(texture@),
                None => None,
            },
            server_port: self.server_port,
        }
    }
}

/// A manager with no artifact.
pub open spec fn empty_artifact(server_port: u16) -> QrManagerView {
    QrManagerView { connection_info: None, payload: None, image: None, texture: None, server_port }
}

impl QRCodeManager {
    /// A manager with no artifact, on the default port.
    pub fn new() -> (r: Self)
        ensures
            r@ == empty_artifact(DEFAULT_SERVER_PORT),
    {
        QRCodeManager {
            current_qr_code: None,
            qr_texture: None,
            connection_info: None,
            server_port: DEFAULT_SERVER_PORT,
        }
    }

    /// Makes the artifact for the given connection information and keeps it
    /// in place of the one before. Where none can be made, nothing changes.
    /// None is made for an empty address, an empty token or a port of zero.
    pub fn install(&mut self, info: ConnectionInfo) -> (r: Result<(), QrGenerationError>)
        ensures
            match artifact_of(info@, old(self)@.server_port) {
                Ok(artifact) => r is Ok && final(self)@ == artifact,
                Err(e) => r is Err && r->Err_0 == e && final(self)@ == old(self)@,
            },
    {
        if info.ip_address.as_str().is_empty() || info.port == 0
            || info.session_token.as_str().is_empty() {
            return Err(QrGenerationError::InvalidConnectionInfo);
        }
        let text = match info.to_payload_text() {
            Some(text) => text,
            None => {
                return Err(QrGenerationError::Unprintable);
            },
        };
        let image = match render_qr_luma(text.as_str(), QR_MIN_SIDE, QR_MAX_SIDE) {
            Some(image) => image,
            None => {
                return Err(QrGenerationError::Unencodable);
            },
        };
        self.current_qr_code = Some((text, image));
        self.connection_info = Some(info);
        self.qr_texture = None;
        Ok(())
    }

    /// Begins a pairing attempt with the given token at the given time: the
    /// connection information names `ip_address`, the port set, the token,
    /// the time in seconds, and version 1.0.0.
    pub fn generate_with(&mut self, ip_address: &str, token: String, now_ms: u64) -> (r: Result<
        (),
        QrGenerationError,
    >)
        ensures
            match artifact_of(
                issued_info(ip_address@, old(self)@.server_port, token@, now_ms),
                old(self)@.server_port,
            ) {
                Ok(artifact) => r is Ok && final(self)@ == artifact,
                Err(e) => r is Err && r->Err_0 == e && final(self)@ == old(self)@,
            },
    {
        let info = ConnectionInfo {
            ip_address: ip_address.to_owned(),
            port: self.server_port,
            session_token: token,
            timestamp: now_ms / 1000,
            version: "1.0.0".to_owned(),
        };
        self.install(info)
    }

    /// Begins a pairing attempt under a token drawn at random, at the time
    /// the wall clock shows. Whatever token and time come, the outcome is
    /// that of [`QRCodeManager::generate_with`] for them; the token has 36
    /// characters.
    pub fn generate_connection_qr(&mut self, ip_address: &str) -> (r: Result<
        (),
        QrGenerationError,
    >)
        ensures
            exists|token: Seq<char>, now_ms: u64|
                token.len() == 36 && match #[trigger] artifact_of(
                    issued_info(ip_address@, old(self)@.server_port, token, now_ms),
                    old(self)@.server_port,
                ) {
                    Ok(artifact) => r is Ok && final(self)@ == artifact,
                    Err(e) => r is Err && r->Err_0 == e && final(self)@ == old(self)@,
                },
    {
        let token = random_session_token();
        let now_ms = now_millis();
        self.generate_with(ip_address, token, now_ms)
    }

    /// The texture of the QR symbol, made on first use and kept; `None`
    /// where there is no artifact.
    pub fn get_qr_texture(&mut self) -> (r: Option<&RenderableFrame>)
        ensures
            final(self)@ == (QrManagerView {
                texture: match (old(self)@.texture, old(self)@.image) {
                    (None, Some(image)) => Some(texture_of(image)),
                    (kept, _) => kept,
                },
                ..old(self)@
            }),
            match r {
                Some(texture) => final(self)@.texture == Some(texture@),
                None => final(self)@.texture is None,
            },
    {
        if self.qr_texture.is_none() {
            match &self.current_qr_code {
                Some(code) => {
                    let texture = luma_to_texture(&code.1);
                    self.qr_texture = Some(texture);
                },
                None => {},
            }
        }
        self.qr_texture.as_ref()
    }

    /// The connection information of the current pairing attempt.
    pub fn get_connection_info(&self) -> (r: Option<&ConnectionInfo>)
        ensures
            match r {
                Some(info) => self@.connection_info == Some(info@),
                None => self@.connection_info is None,
            },
    {
        self.connection_info.as_ref()
    }

    /// Sets the port that later artifacts name.
    pub fn set_server_port(&mut self, port: u16)
        ensures
            final(self)@ == (QrManagerView { server_port: port, ..old(self)@ }),
    {
        self.server_port = port;
    }

    /// The port that artifacts name.
    pub fn get_server_port(&self) -> (port: u16)
        ensures
            port == self@.server_port,
    {
        self.server_port
    }

    /// Drops the artifact, so that its token is no longer on offer.
    pub fn clear(&mut self)
        ensures
            final(self)@ == empty_artifact(old(self)@.server_port),
    {
        self.current_qr_code = None;
        self.qr_texture = None;
        self.connection_info = None;
    }
}

impl Default for QRCodeManager {
    fn default() -> (r: Self)
        ensures
            r@ == empty_artifact(DEFAULT_SERVER_PORT),
    {
        QRCodeManager::new()
    }
}

} // verus!
