//! The signaling channel and the orchestrator: which connection counts,
//! what the negotiation engine is asked to do, and when the session ends.

use vstd::prelude::*;
use vstd::string::StrSliceExecFns;
use crate::app::{ConnectedDevice, ConnectedDeviceView};
use crate::frame::{VideoFormat, VideoFrame, VideoFrameView};
use crate::json::str_equal;
use crate::signaling::{
    optional_text, SignalingMessage, SignalingMessageView, DEFAULT_HEIGHT, DEFAULT_WIDTH,
};

verus! {

/// The state the negotiation engine reports of its peer connection.
#[derive(Debug, Clone, Copy, PartialEq, Eq, Structural)]
pub enum PeerConnectionState {
    New,
    Connecting,
    Connected,
    Disconnected,
    Failed,
    Closed,
}

/// What the orchestrator knows of the engine's peer connection: the state
/// last reported and the raw format negotiated for video, if any.
#[derive(Debug, Clone, Copy, PartialEq, Eq, Structural)]
pub struct PeerConnectionHandle {
    pub state: PeerConnectionState,
    pub video_track: Option<VideoFormat>,
}

/// A way to reach the device, as it came in an `ice_candidate` message.
#[derive(Debug, Clone)]
pub struct IceCandidate {
    pub candidate: String,
    pub sdp_mid: Option<String>,
    pub sdp_mline_index: Option<u16>,
}

/// An [`IceCandidate`] by the characters of its strings.
pub struct IceCandidateView {
    pub candidate: Seq<char>,
    pub sdp_mid: Option<Seq<char>>,
    pub sdp_mline_index: Option<u16>,
}

impl View for IceCandidate {
    type V = IceCandidateView;

    open spec fn view(&self) -> IceCandidateView {
        IceCandidateView {
            candidate: self.candidate@,
            sdp_mid: optional_text(self.sdp_mid),
            sdp_mline_index: self.sdp_mline_index,
        }
    }
}

/// A step the negotiation engine is asked to take. The steps of one answer
/// are carried out in order; where one fails, the rest are not attempted and
/// the failure is reported back.
#[derive(Debug)]
pub enum EngineCommand {
    /// Open a peer connection that discovers its reflexive addresses through
    /// the given servers.
    CreatePeerConnection { ice_servers: Vec<String> },
    /// Take the device's offer as the remote description.
    SetRemoteOffer { sdp: String },
    /// Make an answer, take it as the local description, and hand it back.
    CreateAnswer,
    /// Add a way to reach the device.
    AddIceCandidate { candidate: IceCandidate },
}

/// An [`EngineCommand`] by the characters of its strings.
pub enum EngineCommandView {
    CreatePeerConnection { ice_servers: Seq<Seq<char>> },
    SetRemoteOffer { sdp: Seq<char> },
    CreateAnswer,
    AddIceCandidate { candidate: IceCandidateView },
}

impl View for EngineCommand {
    type V = EngineCommandView;

    open spec fn view(&self) -> EngineCommandView {
        match self {
            EngineCommand::CreatePeerConnection {
                ice_servers,
            } => EngineCommandView::CreatePeerConnection {
                ice_servers: Seq::new(ice_servers@.len(), |i: int| ice_servers@[i]@),
            },
            EngineCommand::SetRemoteOffer { sdp } => EngineCommandView::SetRemoteOffer { sdp: sdp@ },
            EngineCommand::CreateAnswer => EngineCommandView::CreateAnswer,
            EngineCommand::AddIceCandidate { candidate } => EngineCommandView::AddIceCandidate {
                candidate: candidate@,
            },
        }
    }
}

/// The commands of a list, each by its view.
pub open spec fn commands_view(commands: Seq<EngineCommand>) -> Seq<EngineCommandView> {
    Seq::new(commands.len(), |i: int| commands[i]@)
}

/// The candidates of a list, each by its view.
pub open spec fn candidates_view(candidates: Seq<IceCandidate>) -> Seq<IceCandidateView> {
    Seq::new(candidates.len(), |i: int| candidates[i]@)
}

/// Candidates kept while no peer connection exists: no more than this many.
pub const MAX_PENDING_CANDIDATES: usize = 64;

/// The port the receiver listens on until another is set.
pub const DEFAULT_LISTEN_PORT: u16 = 8080;

/// The name under which the receiver greets a device.
pub open spec fn server_name() -> Seq<char> {
    "MirrorCast Windows"@
}

/// The protocol version the receiver speaks.
pub open spec fn server_version() -> Seq<char> {
    "1.0.0"@
}

/// The two servers through which a peer connection discovers its reflexive
/// addresses.
pub open spec fn discovery_servers() -> Seq<Seq<char>> {
    seq!["stun:stun.l.google.com:19302"@, "stun:stun1.l.google.com:19302"@]
}

/// The signaling channel and the orchestrator as a value.
pub struct SignalingView {
    pub is_listening: bool,
    pub listen_port: u16,
    /// The token on offer, if a pairing attempt is under way.
    pub session_token: Option<Seq<char>>,
    /// Whether a connection has presented the token and counts as the one
    /// connection of the session.
    pub authenticated: bool,
    /// The device of the session, once the session manager has named it.
    pub current_connection: Option<ConnectedDeviceView>,
    /// A device that has identified itself and waits for the shell.
    pub pending_device: Option<ConnectedDeviceView>,
    pub peer_connection: Option<PeerConnectionHandle>,
    /// Candidates that came before any peer connection, oldest first.
    pub pending_candidates: Seq<IceCandidateView>,
}

/// The channel before anything happened.
pub open spec fn initial_signaling() -> SignalingView {
    SignalingView {
        is_listening: false,
        listen_port: DEFAULT_LISTEN_PORT,
        session_token: None,
        authenticated: false,
        current_connection: None,
        pending_device: None,
        peer_connection: None,
        pending_candidates: Seq::empty(),
    }
}

/// The channel after its session was torn down: no token is on offer, no
/// connection counts, no device is known, the peer connection is released
/// and the candidates kept for it are gone. Listening goes on.
pub open spec fn torn_down(s: SignalingView) -> SignalingView {
    SignalingView {
        session_token: None,
        authenticated: false,
        current_connection: None,
        pending_device: None,
        peer_connection: None,
        pending_candidates: Seq::empty(),
        ..s
    }
}

/// Putting a new token on offer: whatever session there was is torn down
/// first, and from now on this token alone is the one to present.
pub open spec fn issue_token(s: SignalingView, token: Seq<char>) -> SignalingView {
    SignalingView { session_token: Some(token), ..torn_down(s) }
}

/// Whether a connection that presents `token` is accepted: it presents a
/// token at all, the token is the one on offer, and no connection has been
/// accepted for it yet.
pub open spec fn accepts(s: SignalingView, token: Seq<char>) -> bool {
    token.len() > 0 && s.session_token == Some(token) && !s.authenticated
}

/// The channel after a connection presented `token`.
pub open spec fn after_attempt(s: SignalingView, token: Seq<char>) -> SignalingView {
    if accepts(s, token) {
        SignalingView { authenticated: true, ..s }
    } else {
        s
    }
}

/// The greeting sent to an accepted connection.
pub open spec fn welcome_message(now_ms: u64) -> SignalingMessageView {
    SignalingMessageView::Welcome {
        server: server_name(),
        version: server_version(),
        timestamp: now_ms,
    }
}

/// What the receiver does about a connection attempt.
#[derive(Debug)]
pub enum ConnectionDecision {
    /// The connection is the one of the session; the greeting goes out.
    Accepted { welcome: SignalingMessage },
    /// The connection is refused; the parting message goes out and the
    /// socket is closed. The session, if any, is not touched.
    Refused { rejection: SignalingMessage },
}

/// The device a `device_info` message describes, seen at `now_ms`.
pub open spec fn device_of(
    name: Seq<char>,
    ip: Seq<char>,
    resolution: (u32, u32),
    now_ms: u64,
) -> ConnectedDeviceView {
    ConnectedDeviceView { name, ip_address: ip, connection_time: now_ms, resolution }
}

/// The steps that answer an offer: open a peer connection unless there is
/// one, take the offer, make the answer, then add the candidates that were
/// kept, oldest first.
pub open spec fn offer_commands(s: SignalingView, sdp: Seq<char>) -> Seq<EngineCommandView> {
    let opening = if s.peer_connection is None {
        seq![EngineCommandView::CreatePeerConnection { ice_servers: discovery_servers() }]
    } else {
        Seq::<EngineCommandView>::empty()
    };
    opening + seq![EngineCommandView::SetRemoteOffer { sdp }, EngineCommandView::CreateAnswer]
        + Seq::new(
        s.pending_candidates.len(),
        |i: int| EngineCommandView::AddIceCandidate { candidate: s.pending_candidates[i] },
    )
}

/// The channel after an offer: there is a peer connection, and no candidate
/// is kept back any more.
pub open spec fn after_offer(s: SignalingView) -> SignalingView {
    SignalingView {
        peer_connection: match s.peer_connection {
            Some(handle) => Some(handle),
            None => Some(PeerConnectionHandle { state: PeerConnectionState::New, video_track: None }),
        },
        pending_candidates: Seq::empty(),
        ..s
    }
}

/// What became of a candidate.
#[derive(Debug)]
pub enum IceOutcome {
    /// There is a peer connection: the candidate goes to the engine.
    Forward { candidate: IceCandidate },
    /// There is none yet: the candidate is kept for the next offer.
    Buffered,
    /// There is none yet and no room to keep the candidate.
    Dropped,
}

/// The channel after a candidate came in.
pub open spec fn after_candidate(s: SignalingView, candidate: IceCandidateView) -> SignalingView {
    if s.peer_connection is None && s.pending_candidates.len() < MAX_PENDING_CANDIDATES {
        SignalingView { pending_candidates: s.pending_candidates.push(candidate), ..s }
    } else {
        s
    }
}

/// Whether a state reported by the engine ends the session.
pub open spec fn ends_session(state: PeerConnectionState) -> bool {
    state == PeerConnectionState::Failed || state == PeerConnectionState::Closed
}

/// The channel after the engine reported a state of its peer connection.
pub open spec fn after_peer_state(s: SignalingView, state: PeerConnectionState) -> SignalingView {
    match s.peer_connection {
        None => s,
        Some(handle) => if ends_session(state) {
            torn_down(s)
        } else {
            SignalingView {
                peer_connection: Some(PeerConnectionHandle { state, ..handle }),
                ..s
            }
        },
    }
}

/// The frame made of a media sample: encoded video unless a raw format was
/// negotiated, under the resolution the device reported, and 1080 by 1920
/// where no device is known.
pub open spec fn sample_frame(s: SignalingView, payload: Seq<u8>, now_ms: u64) -> VideoFrameView {
    let resolution = match s.current_connection {
        Some(device) => device.resolution,
        None => match s.pending_device {
            Some(device) => device.resolution,
            None => (DEFAULT_WIDTH, DEFAULT_HEIGHT),
        },
    };
    VideoFrameView {
        data: payload,
        width: resolution.0,
        height: resolution.1,
        format: match s.peer_connection {
            Some(handle) => match handle.video_track {
                Some(format) => format,
                None => VideoFormat::H264,
            },
            None => VideoFormat::H264,
        },
        timestamp: now_ms,
    }
}

/// The step at which the engine refused a negotiation.
#[derive(Debug, Clone, Copy, PartialEq, Eq, Structural)]
pub enum NegotiationError {
    /// No peer connection could be opened.
    PeerConnectionRefused,
    /// The offer was refused: it is malformed or asks for a codec the
    /// receiver does not have.
    OfferRejected,
    /// No answer could be made or taken as the local description.
    AnswerFailed,
}

/// What the shell shows after a negotiation was refused.
pub open spec fn failure_status(error: NegotiationError) -> Seq<char> {
    match error {
        NegotiationError::PeerConnectionRefused => "Negotiation failed: no peer connection"@,
        NegotiationError::OfferRejected => "Negotiation failed: offer rejected"@,
        NegotiationError::AnswerFailed => "Negotiation failed: no answer"@,
    }
}

impl NegotiationError {
    /// The words in which the failure is reported to the shell.
    pub fn status(&self) -> (text: &'static str)
        ensures
            text@ == failure_status(*self),
    {
        match self {
            NegotiationError::PeerConnectionRefused => "Negotiation failed: no peer connection",
            NegotiationError::OfferRejected => "Negotiation failed: offer rejected",
            NegotiationError::AnswerFailed => "Negotiation failed: no answer",
        }
    }
}

/// The failure that a step of the engine amounts to where the engine cannot
/// carry it out: each step of an answer ends the negotiation, while a
/// candidate the engine cannot read is set aside and the negotiation goes on.
pub open spec fn failure_of(command: EngineCommandView) -> Option<NegotiationError> {
    match command {
        EngineCommandView::CreatePeerConnection { .. } => Some(
            NegotiationError::PeerConnectionRefused,
        ),
        EngineCommandView::SetRemoteOffer { .. } => Some(NegotiationError::OfferRejected),
        EngineCommandView::CreateAnswer => Some(NegotiationError::AnswerFailed),
        EngineCommandView::AddIceCandidate { .. } => None,
    }
}

impl EngineCommand {
    /// The failure this step amounts to where the engine cannot carry it
    /// out; `None` for a step whose failure does not end the negotiation.
    pub fn failure(&self) -> (r: Option<NegotiationError>)
        ensures
            r == failure_of(self@),
    {
        match self {
            EngineCommand::CreatePeerConnection { .. } => Some(
                NegotiationError::PeerConnectionRefused,
            ),
            EngineCommand::SetRemoteOffer { .. } => Some(NegotiationError::OfferRejected),
            EngineCommand::CreateAnswer => Some(NegotiationError::AnswerFailed),
            EngineCommand::AddIceCandidate { .. } => None,
        }
    }
}

/// What is to be released when a session ends.
#[derive(Debug, Clone, Copy, PartialEq, Eq, Structural)]
pub struct Teardown {
    /// A socket was accepted for the session and is to be closed.
    pub close_socket: bool,
    /// A peer connection exists and is to be released.
    pub close_peer_connection: bool,
}

/// What tearing a session down releases.
pub open spec fn teardown_of(s: SignalingView) -> Teardown {
    Teardown { close_socket: s.authenticated, close_peer_connection: s.peer_connection is Some }
}

/// Signaling and negotiation for the one device of a session.
pub struct WebRTCManager {
    is_listening: bool,
    current_connection: Option<ConnectedDevice>,
    pending_device: Option<ConnectedDevice>,
    listen_port: u16,
    session_token: Option<String>,
    authenticated: bool,
    peer_connection: Option<PeerConnectionHandle>,
    pending_candidates: Vec<IceCandidate>,
}

/// The device, by its view, of a slot that may be empty.
pub open spec fn optional_device(device: Option<ConnectedDevice>) -> Option<ConnectedDeviceView> {
    match device {
        Some(d) => Some(d@),
        None => None,
    }
}

impl View for WebRTCManager {
    type V = SignalingView;

    closed spec fn view(&self) -> SignalingView {
        SignalingView {
            is_listening: self.is_listening,
            listen_port: self.listen_port,
            session_token: optional_text(self.session_token),
            authenticated: self.authenticated,
            current_connection: optional_device(self.current_connection),
            pending_device: optional_device(self.pending_device),
            peer_connection: self.peer_connection,
            pending_candidates: candidates_view(self.pending_candidates@),
        }
    }
}

/// What handling one message asks of the caller.
#[derive(Debug)]
pub struct MessageOutcome {
    /// Steps for the negotiation engine, in order.
    pub commands: Vec<EngineCommand>,
    /// Whether the message ended the session; what there is to release.
    pub teardown: Option<Teardown>,
}

/// The channel after a message of the accepted connection was handled at
/// `now_ms`. A message that arrives while no connection is accepted, and a
/// message only the receiver sends, changes nothing.
pub open spec fn after_message(s: SignalingView, message: SignalingMessageView, now_ms: u64) -> SignalingView {
    if !s.authenticated {
        s
    } else {
        match message {
            SignalingMessageView::DeviceInfo { name, ip, resolution, .. } => SignalingView {
                pending_device: Some(device_of(name, ip, resolution, now_ms)),
                ..s
            },
            SignalingMessageView::Offer { .. } => after_offer(s),
            SignalingMessageView::IceCandidate {
                candidate,
                sdp_mid,
                sdp_mline_index,
                ..
            } => after_candidate(s, IceCandidateView { candidate, sdp_mid, sdp_mline_index }),
            SignalingMessageView::Close { .. } => torn_down(s),
            _ => s,
        }
    }
}

/// The steps a message of the accepted connection asks of the engine.
pub open spec fn message_commands(s: SignalingView, message: SignalingMessageView) -> Seq<
    EngineCommandView,
> {
    if !s.authenticated {
        Seq::empty()
    } else {
        match message {
            SignalingMessageView::Offer { sdp, .. } => offer_commands(s, sdp),
            SignalingMessageView::IceCandidate {
                candidate,
                sdp_mid,
                sdp_mline_index,
                ..
            } => if s.peer_connection is Some {
                seq![
                    EngineCommandView::AddIceCandidate {
                        candidate: IceCandidateView { candidate, sdp_mid, sdp_mline_index },
                    },
                ]
            } else {
                Seq::empty()
            },
            _ => Seq::empty(),
        }
    }
}

/// What a message of the accepted connection releases: a `close` releases
/// the session.
pub open spec fn message_teardown(s: SignalingView, message: SignalingMessageView) -> Option<
    Teardown,
> {
    if s.authenticated && message is Close {
        Some(teardown_of(s))
    } else {
        None
    }
}

impl WebRTCManager {
    /// A manager that neither listens nor offers a token.
    pub fn new() -> (r: Self)
        ensures
            r@ == initial_signaling(),
    {
        let r = WebRTCManager {
            is_listening: false,
            current_connection: None,
            pending_device: None,
            listen_port: DEFAULT_LISTEN_PORT,
            session_token: None,
            authenticated: false,
            peer_connection: None,
            pending_candidates: Vec::new(),
        };
        assert(r@.pending_candidates =~= Seq::empty());
        r
    }

    /// Notes that listening begins. Returns the port to bind, or `None`
    /// where the manager listens already and nothing is to be bound.
    pub fn start_listening(&mut self) -> (port: Option<u16>)
        ensures
            final(self)@ == (SignalingView { is_listening: true, ..old(self)@ }),
            port == if old(self)@.is_listening {
                None
            } else {
                Some(old(self)@.listen_port)
            },
    {
        if self.is_listening {
            None
        } else {
            self.is_listening = true;
            Some(self.listen_port)
        }
    }

    /// Sets the port that is bound when listening begins.
    pub fn set_listen_port(&mut self, port: u16)
        ensures
            final(self)@ == (SignalingView { listen_port: port, ..old(self)@ }),
    {
        self.listen_port = port;
    }

    /// Ends listening and, with it, the session. Where the manager does not
    /// listen, nothing changes and nothing is to be released.
    pub fn stop_listening(&mut self) -> (released: Teardown)
        ensures
            old(self)@.is_listening ==> final(self)@ == (SignalingView {
                is_listening: false,
                ..torn_down(old(self)@)
            }) && released == teardown_of(old(self)@),
            !old(self)@.is_listening ==> final(self)@ == old(self)@ && released == (Teardown {
                close_socket: false,
                close_peer_connection: false,
            }),
    {
        if !self.is_listening {
            return Teardown { close_socket: false, close_peer_connection: false };
        }
        self.is_listening = false;
        self.disconnect()
    }

    /// Ends the session: the token is withdrawn, the connection and the
    /// device are forgotten, the peer connection is released and the
    /// candidates kept for it are dropped. Returns what is to be released.
    /// Doing it again changes nothing more.
    pub fn disconnect(&mut self) -> (released: Teardown)
        ensures
            final(self)@ == torn_down(old(self)@),
            released == teardown_of(old(self)@),
    {
        let released = Teardown {
            close_socket: self.authenticated,
            close_peer_connection: self.peer_connection.is_some(),
        };
        self.session_token = None;
        self.authenticated = false;
        self.current_connection = None;
        self.pending_device = None;
        self.peer_connection = None;
        self.pending_candidates.clear();
        proof {
            assert(self@.pending_candidates =~= Seq::empty());
        }
        released
    }

    /// Releases the peer connection and drops the candidates kept for it.
    /// Returns whether there was a peer connection. May be called at any
    /// time, also where there is nothing to release.
    pub fn teardown(&mut self) -> (had_peer_connection: bool)
        ensures
            final(self)@ == (SignalingView {
                peer_connection: None,
                pending_candidates: Seq::empty(),
                ..old(self)@
            }),
            had_peer_connection == old(self)@.peer_connection is Some,
    {
        let had = self.peer_connection.is_some();
        self.peer_connection = None;
        self.pending_candidates.clear();
        proof {
            assert(self@.pending_candidates =~= Seq::empty());
        }
        had
    }

    /// Puts a token on offer. The session before, if any, is torn down, and
    /// every token issued earlier stops being accepted.
    pub fn set_session_token(&mut self, token: String)
        ensures
            final(self)@ == issue_token(old(self)@, token@),
    {
        let _ = self.disconnect();
        self.session_token = Some(token);
    }

    /// Decides on a connection that presents `token`.
    ///
    /// The connection is accepted where the token is the one on offer and no
    /// connection was accepted for it before. Every other connection is
    /// refused, which leaves the session as it is; so is a connection that
    /// presents no token, whatever is on offer.
    pub fn accept_connection(&mut self, token: &str, now_ms: u64) -> (decision: ConnectionDecision)
        ensures
            final(self)@ == after_attempt(old(self)@, token@),
            match decision {
                ConnectionDecision::Accepted { welcome } => accepts(old(self)@, token@)
                    && welcome@ == welcome_message(now_ms),
                ConnectionDecision::Refused { rejection } => !accepts(old(self)@, token@)
                    && rejection@ == (SignalingMessageView::Close { timestamp: now_ms }),
            },
    {
        let matches_offer = match &self.session_token {
            Some(offered) => !token.is_empty() && str_equal(offered.as_str(), token),
            None => false,
        };
        if matches_offer && !self.authenticated {
            self.authenticated = true;
            ConnectionDecision::Accepted {
                welcome: SignalingMessage::Welcome {
                    server: "MirrorCast Windows".to_owned(),
                    version: "1.0.0".to_owned(),
                    timestamp: now_ms,
                },
            }
        } else {
            ConnectionDecision::Refused { rejection: SignalingMessage::Close { timestamp: now_ms } }
        }
    }

    /// Notes a device that has identified itself, for the shell to take.
    pub fn handle_device_info(
        &mut self,
        name: String,
        ip: String,
        resolution: (u32, u32),
        now_ms: u64,
    )
        ensures
            final(self)@ == (SignalingView {
                pending_device: Some(device_of(name@, ip@, resolution, now_ms)),
                ..old(self)@
            }),
    {
        self.pending_device = Some(
            ConnectedDevice { name, ip_address: ip, connection_time: now_ms, resolution },
        );
    }

    /// Answers an offer: returns the steps for the engine, in order.
    ///
    /// A peer connection is opened first unless there is one, with two
    /// discovery servers. Then the offer is taken and the answer made. The
    /// candidates that were kept follow, oldest first, and are kept no more.
    pub fn handle_webrtc_offer(&mut self, sdp: String) -> (commands: Vec<EngineCommand>)
        ensures
            final(self)@ == after_offer(old(self)@),
            commands_view(commands@) == offer_commands(old(self)@, sdp@),
    {
        let ghost before = self@;
        let mut commands: Vec<EngineCommand> = Vec::new();
        if self.peer_connection.is_none() {
            let mut ice_servers: Vec<String> = Vec::new();
            ice_servers.push("stun:stun.l.google.com:19302".to_owned());
            ice_servers.push("stun:stun1.l.google.com:19302".to_owned());
            let command = EngineCommand::CreatePeerConnection { ice_servers };
            proof {
                assert(command@->CreatePeerConnection_ice_servers =~= discovery_servers());
            }
            commands.push(command);
            self.peer_connection = Some(
                PeerConnectionHandle { state: PeerConnectionState::New, video_track: None },
            );
        }
        commands.push(EngineCommand::SetRemoteOffer { sdp });
        commands.push(EngineCommand::CreateAnswer);
        let ghost head = commands_view(commands@);
        let ghost kept = before.pending_candidates;
        let mut moved: usize = 0;
        let total: usize = self.pending_candidates.len();
        while self.pending_candidates.len() > 0
            invariant
                moved + self.pending_candidates@.len() == total,
                total == kept.len(),
                candidates_view(self.pending_candidates@) == kept.subrange(
                    moved as int,
                    total as int,
                ),
                commands_view(commands@) == head + Seq::new(
                    moved as nat,
                    |i: int| EngineCommandView::AddIceCandidate { candidate: kept[i] },
                ),
                self@ == (SignalingView {
                    pending_candidates: candidates_view(self.pending_candidates@),
                    ..after_offer(before)
                }),
            decreases self.pending_candidates@.len(),
        {
            let ghost waiting = self.pending_candidates@;
            let ghost rest = candidates_view(waiting);
            let ghost sent = commands_view(commands@);
            let candidate = self.pending_candidates.remove(0);
            proof {
                assert(candidate@ == rest[0]);
                let left = self.pending_candidates@;
                assert forall|i: int| 0 <= i < left.len() implies candidates_view(left)[i]
                    == kept[moved as int + 1 + i] by {
                    assert(rest[i + 1] == waiting[i + 1]@);
                }
            }
            commands.push(EngineCommand::AddIceCandidate { candidate });
            proof {
                assert(commands_view(commands@) =~= sent.push(
                    EngineCommandView::AddIceCandidate { candidate: kept[moved as int] },
                ));
            }
            moved = moved + 1;
        }
        proof {
            assert(candidates_view(self.pending_candidates@) =~= Seq::empty());
        }
        commands
    }

    /// Takes a candidate: it goes to the engine where there is a peer
    /// connection, and is otherwise kept for the next offer, as long as there
    /// is room.
    pub fn handle_ice_candidate(&mut self, candidate: IceCandidate) -> (outcome: IceOutcome)
        ensures
            final(self)@ == after_candidate(old(self)@, candidate@),
            match outcome {
                IceOutcome::Forward { candidate: passed } => old(self)@.peer_connection is Some
                    && passed@ == candidate@,
                IceOutcome::Buffered => old(self)@.peer_connection is None
                    && old(self)@.pending_candidates.len() < MAX_PENDING_CANDIDATES,
                IceOutcome::Dropped => old(self)@.peer_connection is None
                    && old(self)@.pending_candidates.len() >= MAX_PENDING_CANDIDATES,
            },
    {
        if self.peer_connection.is_some() {
            IceOutcome::Forward { candidate }
        } else if self.pending_candidates.len() < MAX_PENDING_CANDIDATES {
            let ghost kept = candidates_view(self.pending_candidates@);
            let ghost added = candidate@;
            self.pending_candidates.push(candidate);
            proof {
                assert(candidates_view(self.pending_candidates@) =~= kept.push(added));
            }
            IceOutcome::Buffered
        } else {
            IceOutcome::Dropped
        }
    }

    /// Handles one message of the accepted connection.
    ///
    /// A device's description is noted for the shell, an offer and a
    /// candidate go to the orchestrator, and a `close` ends the session.
    pub fn handle_signaling_message(&mut self, message: SignalingMessage, now_ms: u64) -> (outcome:
        MessageOutcome)
        ensures
            final(self)@ == after_message(old(self)@, message@, now_ms),
            commands_view(outcome.commands@) == message_commands(old(self)@, message@),
            outcome.teardown == message_teardown(old(self)@, message@),
    {
        let mut commands: Vec<EngineCommand> = Vec::new();
        let mut teardown: Option<Teardown> = None;
        if self.authenticated {
            match message {
                SignalingMessage::DeviceInfo { name, ip, resolution, .. } => {
                    self.handle_device_info(name, ip, resolution, now_ms);
                },
                SignalingMessage::Offer { sdp, .. } => {
                    commands = self.handle_webrtc_offer(sdp);
                },
                SignalingMessage::IceCandidate { candidate, sdp_mid, sdp_mline_index, .. } => {
                    match self.handle_ice_candidate(
                        IceCandidate { candidate, sdp_mid, sdp_mline_index },
                    ) {
                        IceOutcome::Forward { candidate: passed } => {
                            commands.push(EngineCommand::AddIceCandidate { candidate: passed });
                        },
                        _ => {},
                    }
                },
                SignalingMessage::Close { .. } => {
                    teardown = Some(self.disconnect());
                },
                _ => {},
            }
        }
        MessageOutcome { commands, teardown }
    }

    /// The answer as it goes back to the device.
    pub fn answer_message(sdp: String, now_ms: u64) -> (message: SignalingMessage)
        ensures
            message@ == (SignalingMessageView::Answer { sdp: sdp@, timestamp: now_ms }),
    {
        SignalingMessage::Answer { sdp, timestamp: now_ms }
    }

    /// Takes note of a state the engine reports of its peer connection.
    ///
    /// `Failed` and `Closed` end the session: the return value says what is
    /// to be released. Any other state is recorded. Without a peer
    /// connection the report is stale and ignored.
    pub fn on_peer_connection_state(&mut self, state: PeerConnectionState) -> (released: Option<
        Teardown,
    >)
        ensures
            final(self)@ == after_peer_state(old(self)@, state),
            released == if old(self)@.peer_connection is Some && ends_session(state) {
                Some(teardown_of(old(self)@))
            } else {
                None
            },
    {
        match self.peer_connection {
            None => None,
            Some(handle) => {
                if state == PeerConnectionState::Failed || state == PeerConnectionState::Closed {
                    Some(self.disconnect())
                } else {
                    self.peer_connection = Some(
                        PeerConnectionHandle { state, video_track: handle.video_track },
                    );
                    None
                }
            },
        }
    }

    /// Notes the raw video format that was negotiated, or that none was.
    /// Without a peer connection nothing is noted.
    pub fn set_video_track(&mut self, format: Option<VideoFormat>)
        ensures
            final(self)@ == (SignalingView {
                peer_connection: match old(self)@.peer_connection {
                    Some(handle) => Some(PeerConnectionHandle { video_track: format, ..handle }),
                    None => None,
                },
                ..old(self)@
            }),
    {
        match self.peer_connection {
            Some(handle) => {
                self.peer_connection = Some(
                    PeerConnectionHandle { state: handle.state, video_track: format },
                );
            },
            None => {},
        }
    }

    /// Makes the frame of a media sample that arrived at `now_ms`.
    pub fn media_frame(&self, payload: Vec<u8>, now_ms: u64) -> (frame: VideoFrame)
        ensures
            frame@ == sample_frame(self@, payload@, now_ms),
    {
        let resolution = match &self.current_connection {
            Some(device) => device.resolution,
            None => match &self.pending_device {
                Some(device) => device.resolution,
                None => (DEFAULT_WIDTH, DEFAULT_HEIGHT),
            },
        };
        let format = match self.peer_connection {
            Some(handle) => match handle.video_track {
                Some(format) => format,
                None => VideoFormat::H264,
            },
            None => VideoFormat::H264,
        };
        VideoFrame {
            data: payload,
            width: resolution.0,
            height: resolution.1,
            format,
            timestamp: now_ms,
        }
    }

    /// Hands the device that has identified itself to the shell, once. It is
    /// for the session manager to say whether it becomes the device of the
    /// session.
    pub fn get_pending_connection(&mut self) -> (device: Option<ConnectedDevice>)
        ensures
            optional_device(device) == old(self)@.pending_device,
            final(self)@ == (SignalingView { pending_device: None, ..old(self)@ }),
    {
        self.pending_device.take()
    }

    /// Notes the device of the session: its resolution is the one that
    /// frames are made under from now on.
    pub fn set_connected_device(&mut self, device: ConnectedDevice)
        ensures
            final(self)@ == (SignalingView { current_connection: Some(device@), ..old(self)@ }),
    {
        self.current_connection = Some(device);
    }

    /// Whether a device is connected: it is known to the shell and a peer
    /// connection exists.
    pub fn is_connected(&self) -> (r: bool)
        ensures
            r == (self@.current_connection is Some && self@.peer_connection is Some),
    {
        self.current_connection.is_some() && self.peer_connection.is_some()
    }

    /// The device of the session.
    pub fn get_connected_device(&self) -> (device: Option<&ConnectedDevice>)
        ensures
            match device {
                Some(d) => self@.current_connection == Some(d@),
                None => self@.current_connection is None,
            },
    {
        self.current_connection.as_ref()
    }

    /// Whether the manager listens for connections.
    pub fn is_listening(&self) -> (r: bool)
        ensures
            r == self@.is_listening,
    {
        self.is_listening
    }

    /// The engine's peer connection as the orchestrator knows it.
    pub fn peer_connection(&self) -> (handle: Option<PeerConnectionHandle>)
        ensures
            handle == self@.peer_connection,
    {
        self.peer_connection
    }
}

impl Default for WebRTCManager {
    fn default() -> (r: Self)
        ensures
            r@ == initial_signaling(),
    {
        WebRTCManager::new()
    }
}

/// Something that happens to the signaling channel.
pub enum SignalingEvent {
    /// A token is put on offer.
    Issue { token: Seq<char> },
    /// A connection presents a token.
    Attempt { token: Seq<char> },
    /// A message of the accepted connection arrives.
    Message { message: SignalingMessageView, now_ms: u64 },
    /// The engine reports a state of its peer connection.
    PeerState { state: PeerConnectionState },
    /// The shell takes the device that identified itself.
    TakeDevice,
    /// The device of the session is noted.
    ConnectedDevice { device: ConnectedDeviceView },
    /// The session is ended.
    Disconnect,
    /// A device's description is noted.
    Device { device: ConnectedDeviceView },
    /// An offer is answered.
    Offer,
    /// A candidate is taken.
    Candidate { candidate: IceCandidateView },
    /// The peer connection is released.
    Teardown,
    /// The negotiated video format is noted.
    VideoTrack { format: Option<VideoFormat> },
    /// Another port is set.
    Port { port: u16 },
    /// Listening begins.
    StartListening,
    /// Listening ends.
    StopListening,
}

/// The channel after an event.
pub open spec fn signaling_step(s: SignalingView, event: SignalingEvent) -> SignalingView {
    match event {
        SignalingEvent::Issue { token } => issue_token(s, token),
        SignalingEvent::Attempt { token } => after_attempt(s, token),
        SignalingEvent::Message { message, now_ms } => after_message(s, message, now_ms),
        SignalingEvent::PeerState { state } => after_peer_state(s, state),
        SignalingEvent::TakeDevice => SignalingView { pending_device: None, ..s },
        SignalingEvent::ConnectedDevice { device } => SignalingView {
            current_connection: Some(device),
            ..s
        },
        SignalingEvent::Disconnect => torn_down(s),
        SignalingEvent::Device { device } => SignalingView { pending_device: Some(device), ..s },
        SignalingEvent::Offer => after_offer(s),
        SignalingEvent::Candidate { candidate } => after_candidate(s, candidate),
        SignalingEvent::Teardown => SignalingView {
            peer_connection: None,
            pending_candidates: Seq::empty(),
            ..s
        },
        SignalingEvent::VideoTrack { format } => SignalingView {
            peer_connection: match s.peer_connection {
                Some(handle) => Some(PeerConnectionHandle { video_track: format, ..handle }),
                None => None,
            },
            ..s
        },
        SignalingEvent::Port { port } => SignalingView { listen_port: port, ..s },
        SignalingEvent::StartListening => SignalingView { is_listening: true, ..s },
        SignalingEvent::StopListening => if s.is_listening {
            SignalingView { is_listening: false, ..torn_down(s) }
        } else {
            s
        },
    }
}

/// The channel after a history of events, first to last.
pub open spec fn signaling_run(s: SignalingView, events: Seq<SignalingEvent>) -> SignalingView
    decreases events.len(),
{
    if events.len() == 0 {
        s
    } else {
        signaling_step(signaling_run(s, events.drop_last()), events.last())
    }
}

/// The token that a history issued last, if it issued any.
pub open spec fn last_issued(events: Seq<SignalingEvent>) -> Option<Seq<char>>
    decreases events.len(),
{
    if events.len() == 0 {
        None
    } else {
        match events.last() {
            SignalingEvent::Issue { token } => Some(token),
            _ => last_issued(events.drop_last()),
        }
    }
}

/// Whatever has happened since the channel was created, the token on offer,
/// if there is one, is the token issued last.
pub proof fn lemma_offer_is_latest(events: Seq<SignalingEvent>)
    ensures
        signaling_run(initial_signaling(), events).session_token is Some ==> signaling_run(
            initial_signaling(),
            events,
        ).session_token == last_issued(events),
    decreases events.len(),
{
    if events.len() > 0 {
        lemma_offer_is_latest(events.drop_last());
    }
}

/// Token invariant: after any history, a connection that presents a token
/// other than the one issued last is refused, also where the token it
/// presents was on offer earlier; and the refusal leaves the channel as it
/// was.
pub proof fn lemma_superseded_token_refused(events: Seq<SignalingEvent>, presented: Seq<char>)
    requires
        last_issued(events) != Some(presented),
    ensures
        !accepts(signaling_run(initial_signaling(), events), presented),
        after_attempt(signaling_run(initial_signaling(), events), presented) == signaling_run(
            initial_signaling(),
            events,
        ),
{
    lemma_offer_is_latest(events);
}

/// A token is good for one connection: right after it was issued it is
/// accepted, unless it is empty, and once a connection was accepted for it,
/// it is refused.
pub proof fn lemma_token_accepted_once(s: SignalingView, token: Seq<char>)
    requires
        token.len() > 0,
    ensures
        accepts(issue_token(s, token), token),
        !accepts(after_attempt(issue_token(s, token), token), token),
{
}

/// Tearing down is idempotent, and after it no token is accepted.
pub proof fn lemma_torn_down(s: SignalingView, presented: Seq<char>)
    ensures
        torn_down(torn_down(s)) == torn_down(s),
        !accepts(torn_down(s), presented),
{
}

/// Candidates that come before any peer connection are not lost: as long as
/// there is room each is kept, in order of arrival, and the next offer hands
/// every one of them to the engine, after the answer is made.
pub proof fn lemma_early_candidates_replayed(
    s: SignalingView,
    candidate: IceCandidateView,
    sdp: Seq<char>,
)
    requires
        s.peer_connection is None,
        s.pending_candidates.len() < MAX_PENDING_CANDIDATES,
    ensures
        after_candidate(s, candidate).pending_candidates == s.pending_candidates.push(candidate),
        offer_commands(after_candidate(s, candidate), sdp) == offer_commands(s, sdp).push(
            EngineCommandView::AddIceCandidate { candidate },
        ),
        after_offer(after_candidate(s, candidate)).pending_candidates.len() == 0,
{
}

/// Where the parameter that begins at `from` ends: at the next `&`, or at
/// the end of the query.
pub open spec fn parameter_end(query: Seq<char>, from: int) -> int
    decreases query.len() - from,
{
    if from >= query.len() {
        query.len() as int
    } else if query[from] == '&' {
        from
    } else {
        parameter_end(query, from + 1)
    }
}

/// The value of the first parameter named `token` among those that begin at
/// `from` or later; empty where there is none.
pub open spec fn token_from(query: Seq<char>, from: int) -> Seq<char>
    decreases query.len() - from,
    via token_from_terminates
{
    if from < 0 || from > query.len() {
        Seq::empty()
    } else {
        let end = parameter_end(query, from);
        if end - from >= 6 && query.subrange(from, from + 6) == "token="@ {
            query.subrange(from + 6, end)
        } else if end >= query.len() {
            Seq::empty()
        } else {
            token_from(query, end + 1)
        }
    }
}

/// A parameter ends no earlier than it begins and no later than the query.
pub proof fn lemma_parameter_end_bounds(query: Seq<char>, from: int)
    requires
        0 <= from <= query.len(),
    ensures
        from <= parameter_end(query, from) <= query.len(),
    decreases query.len() - from,
{
    if from < query.len() && query[from] != '&' {
        lemma_parameter_end_bounds(query, from + 1);
    }
}

#[via_fn]
proof fn token_from_terminates(query: Seq<char>, from: int) {
    if 0 <= from <= query.len() {
        lemma_parameter_end_bounds(query, from);
    }
}

/// The token that a request presents: the value of the first parameter named
/// `token` in its query, where parameters are set apart by `&`; empty where
/// the query names no token.
pub open spec fn presented_token_of(query: Seq<char>) -> Seq<char> {
    token_from(query, 0)
}

fn chars_of(text: &str) -> (chars: Vec<char>)
    ensures
        chars@ == text@,
{
    let mut chars: Vec<char> = Vec::new();
    for c in it: text.chars()
        invariant
            it.seq() == text@,
            chars@ == it.seq().take(it.index() as int),
    {
        chars.push(c);
    }
    chars
}

fn find_parameter_end(chars: &Vec<char>, from: usize) -> (end: usize)
    requires
        from <= chars@.len(),
    ensures
        end == parameter_end(chars@, from as int),
        from <= end <= chars@.len(),
{
    let mut at: usize = from;
    while at < chars.len() && chars[at] != '&'
        invariant
            from <= at <= chars@.len(),
            parameter_end(chars@, from as int) == parameter_end(chars@, at as int),
        decreases chars@.len() - at,
    {
        at = at + 1;
    }
    at
}

fn names_token(chars: &Vec<char>, from: usize, end: usize) -> (r: bool)
    requires
        from <= end <= chars@.len(),
    ensures
        r == (end - from >= 6 && chars@.subrange(from as int, from + 6) == "token="@),
{
    proof {
        reveal_strlit("token=");
    }
    if end - from < 6 {
        return false;
    }
    let r = chars[from] == 't' && chars[from + 1] == 'o' && chars[from + 2] == 'k' && chars[from
        + 3] == 'e' && chars[from + 4] == 'n' && chars[from + 5] == '=';
    proof {
        let prefix = chars@.subrange(from as int, from + 6);
        if r {
            assert(prefix =~= "token="@);
        } else {
            assert(prefix[0] == chars@[from as int]);
            assert(prefix[1] == chars@[from + 1]);
            assert(prefix[2] == chars@[from + 2]);
            assert(prefix[3] == chars@[from + 3]);
            assert(prefix[4] == chars@[from + 4]);
            assert(prefix[5] == chars@[from + 5]);
        }
    }
    r
}

/// Reads the token that a device presents from the query of the request that
/// opens its connection.
///
/// The token comes with the request, before any message: the query names it
/// as `token=...`, set apart from other parameters by `&`. A query that
/// names no token presents the empty token, which no session accepts.
pub fn presented_token(query: &str) -> (token: &str)
    ensures
        token@ == presented_token_of(query@),
{
    let chars = chars_of(query);
    let len: usize = chars.len();
    let mut from: usize = 0;
    loop
        invariant
            chars@ == query@,
            len == chars@.len(),
            from <= len,
            presented_token_of(query@) == token_from(query@, from as int),
        decreases len - from,
    {
        let end = find_parameter_end(&chars, from);
        if names_token(&chars, from, end) {
            return query.substring_char(from + 6, end);
        }
        if end >= len {
            return query.substring_char(len, len);
        }
        from = end + 1;
    }
}

} // verus!
