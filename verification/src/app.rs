//! The session manager: the one place that says whether a device is paired.

use vstd::prelude::*;
use vstd::string::StringExecFns;
use crate::clock::now_millis;
use crate::frame::{RenderableFrame, VideoFormat};
use crate::qr::{
    artifact_of, empty_artifact, issued_info, random_session_token, texture_of, ConnectionInfo,
    QRCodeManager, QrGenerationError, QrManagerView, DEFAULT_SERVER_PORT,
};
use crate::renderer::{
    bump, drained, initial_pipeline, lemma_drain, lemma_restart_invariant,
    lemma_submit_invariant, pipeline_invariant, restarted, submitted, PipelineView,
    VideoRenderer, DEFAULT_QUEUE_CAPACITY,
};
use crate::ui::ConnectionState;
use crate::signaling::{decode_frame, SignalingError, SignalingMessage, SignalingMessageView};
use crate::webrtc::{
    accepts, after_attempt, after_message, after_peer_state, commands_view, ends_session,
    failure_of, failure_status, initial_signaling, issue_token, message_commands, message_teardown,
    sample_frame, teardown_of, torn_down, welcome_message, ConnectionDecision, EngineCommand,
    EngineCommandView, NegotiationError, PeerConnectionHandle, PeerConnectionState, SignalingView, Teardown,
    WebRTCManager,
};

verus! {

/// The screen the shell shows.
#[derive(Debug, Clone, Copy, PartialEq, Eq, Structural)]
pub enum AppView {
    Home,
    Connecting,
    Streaming,
    Settings,
}

/// The picture quality asked of the device.
#[derive(Debug, Clone, Copy, PartialEq, Eq, Structural)]
pub enum VideoQuality {
    Low,
    Medium,
    High,
    Auto,
}

/// A device that has identified itself: its name, its address, the time it
/// connected in milliseconds since the Unix epoch, and the resolution it
/// reports.
#[derive(Debug)]
pub struct ConnectedDevice {
    pub name: String,
    pub ip_address: String,
    pub connection_time: u64,
    pub resolution: (u32, u32),
}

/// A [`ConnectedDevice`] by the characters of its strings.
pub struct ConnectedDeviceView {
    pub name: Seq<char>,
    pub ip_address: Seq<char>,
    pub connection_time: u64,
    pub resolution: (u32, u32),
}

impl View for ConnectedDevice {
    type V = ConnectedDeviceView;

    open spec fn view(&self) -> ConnectedDeviceView {
        ConnectedDeviceView {
            name: self.name@,
            ip_address: self.ip_address@,
            connection_time: self.connection_time,
            resolution: self.resolution,
        }
    }
}

impl Clone for ConnectedDevice {
    fn clone(&self) -> (r: ConnectedDevice)
        ensures
            r@ == self@,
    {
        ConnectedDevice {
            name: self.name.clone(),
            ip_address: self.ip_address.clone(),
            connection_time: self.connection_time,
            resolution: self.resolution,
        }
    }
}

/// The session as a value: the three components and what the shell shows.
pub struct SessionView {
    pub qr: QrManagerView,
    pub signaling: SignalingView,
    pub pipeline: PipelineView,
    pub connection_state: ConnectionState,
    pub current_view: AppView,
    pub status_message: Seq<char>,
    pub quality_setting: VideoQuality,
    pub auto_accept_connections: bool,
    pub connected_device_info: Option<ConnectedDeviceView>,
    /// The number of the session: it moves with every pairing attempt, and
    /// what is bound to an earlier number is set aside.
    pub generation: u64,
}

/// The session before anything happened: idle, on the home screen.
pub open spec fn initial_session() -> SessionView {
    SessionView {
        qr: empty_artifact(DEFAULT_SERVER_PORT),
        signaling: initial_signaling(),
        pipeline: initial_pipeline(DEFAULT_QUEUE_CAPACITY as nat),
        connection_state: ConnectionState::Disconnected,
        current_view: AppView::Home,
        status_message: "Ready to accept connections"@,
        quality_setting: VideoQuality::High,
        auto_accept_connections: true,
        connected_device_info: None,
        generation: 0,
    }
}

/// The session after a pairing attempt began with the given artifact: the
/// session before is torn down, the artifact's token alone is on offer, the
/// pipeline starts over, and the session has a new number.
pub open spec fn begun(s: SessionView, artifact: QrManagerView) -> SessionView {
    SessionView {
        qr: artifact,
        signaling: issue_token(
            s.signaling,
            match artifact.connection_info {
                Some(info) => info.session_token,
                None => Seq::empty(),
            },
        ),
        pipeline: restarted(s.pipeline),
        connection_state: ConnectionState::WaitingForConnection,
        current_view: AppView::Home,
        status_message: "Waiting for device to scan QR code..."@,
        connected_device_info: None,
        generation: bump(s.generation),
        ..s
    }
}

/// The session after a pairing attempt under the given address, token and
/// time: begun where an artifact can be made, and unchanged where not.
pub open spec fn after_begin_pairing(
    s: SessionView,
    ip_address: Seq<char>,
    token: Seq<char>,
    now_ms: u64,
) -> SessionView {
    match artifact_of(
        issued_info(ip_address, s.qr.server_port, token, now_ms),
        s.qr.server_port,
    ) {
        Ok(artifact) => begun(s, artifact),
        Err(_) => s,
    }
}

/// The session after a device identified itself: connected, where a device
/// was waited for, and the device is that of the session and of its channel;
/// unchanged in every other state.
pub open spec fn identified(s: SessionView, device: ConnectedDeviceView) -> SessionView {
    if s.connection_state == ConnectionState::WaitingForConnection {
        SessionView {
            signaling: SignalingView { current_connection: Some(device), ..s.signaling },
            connection_state: ConnectionState::Connected,
            current_view: AppView::Streaming,
            status_message: "Connected to "@ + device.name,
            connected_device_info: Some(device),
            ..s
        }
    } else {
        s
    }
}

/// The session after it was ended for a stated reason: idle, on the home
/// screen, with no device, no token on offer and no artifact.
pub open spec fn ended_with(s: SessionView, status: Seq<char>) -> SessionView {
    SessionView {
        qr: empty_artifact(s.qr.server_port),
        signaling: torn_down(s.signaling),
        connection_state: ConnectionState::Disconnected,
        current_view: AppView::Home,
        status_message: status,
        connected_device_info: None,
        ..s
    }
}

/// The session after a disconnect.
pub open spec fn ended(s: SessionView) -> SessionView {
    ended_with(s, "Disconnected"@)
}

/// The session with another port: for the artifacts to come and for the
/// listener.
pub open spec fn with_port(s: SessionView, port: u16) -> SessionView {
    SessionView {
        qr: QrManagerView { server_port: port, ..s.qr },
        signaling: SignalingView { listen_port: port, ..s.signaling },
        ..s
    }
}

/// The session once the texture of the QR symbol was asked for: it is made
/// of the symbol's picture unless it was made before.
pub open spec fn with_texture(s: SessionView) -> SessionView {
    SessionView {
        qr: QrManagerView {
            texture: match (s.qr.texture, s.qr.image) {
                (None, Some(image)) => Some(texture_of(image)),
                (kept, _) => kept,
            },
            ..s.qr
        },
        ..s
    }
}

/// The session with listening switched on or off.
pub open spec fn listening(s: SessionView, on: bool) -> SessionView {
    SessionView { signaling: SignalingView { is_listening: on, ..s.signaling }, ..s }
}

/// The session after listening was ended: the session is over and nothing
/// listens any more. Where nothing listened, nothing changes.
pub open spec fn after_stop_listening(s: SessionView) -> SessionView {
    if s.signaling.is_listening {
        listening(ended(s), false)
    } else {
        s
    }
}

/// Whether something bound to session number `generation` still belongs to
/// the session: there is a session, and it has that number.
pub open spec fn is_current(s: SessionView, generation: u64) -> bool {
    s.connection_state != ConnectionState::Disconnected && generation == s.generation
}

/// The session after a connection presented a token.
pub open spec fn after_connection_attempt(s: SessionView, token: Seq<char>) -> SessionView {
    SessionView { signaling: after_attempt(s.signaling, token), ..s }
}

/// The session after a message bound to `generation` arrived: unchanged
/// where the message is stale; ended where the message closes the session.
pub open spec fn after_signaling_message(
    s: SessionView,
    generation: u64,
    message: SignalingMessageView,
    now_ms: u64,
) -> SessionView {
    if !is_current(s, generation) {
        s
    } else if message_teardown(s.signaling, message) is Some {
        ended(s)
    } else {
        SessionView { signaling: after_message(s.signaling, message, now_ms), ..s }
    }
}

/// The session after the engine reported a state of its peer connection.
pub open spec fn after_engine_state(
    s: SessionView,
    generation: u64,
    state: PeerConnectionState,
) -> SessionView {
    if !is_current(s, generation) {
        s
    } else if s.signaling.peer_connection is Some && ends_session(state) {
        ended(s)
    } else {
        SessionView { signaling: after_peer_state(s.signaling, state), ..s }
    }
}

/// The session after something bound to `generation` ended it for a stated
/// reason: the engine refused the negotiation, or the socket was closed.
pub open spec fn after_failure(s: SessionView, generation: u64, status: Seq<char>) -> SessionView {
    if is_current(s, generation) {
        ended_with(s, status)
    } else {
        s
    }
}

/// The session after the engine could not carry out a step bound to
/// `generation`: ended where the step is one whose failure ends the
/// negotiation, unchanged where it is not.
pub open spec fn after_command_failure(
    s: SessionView,
    generation: u64,
    command: EngineCommandView,
) -> SessionView {
    match failure_of(command) {
        Some(error) => after_failure(s, generation, failure_status(error)),
        None => s,
    }
}

/// What the caller does after a step of the engine failed.
#[derive(Debug, Clone, Copy, PartialEq, Eq, Structural)]
pub enum CommandFailure {
    /// The step is set aside; the steps after it are carried out.
    GoOn,
    /// The negotiation is over: no further step is carried out, and what the
    /// session held is to be released. Nothing is held where the report was
    /// stale.
    Abort { released: Option<Teardown> },
}

/// The session after a track was negotiated for the session numbered
/// `generation`: the format is noted with the peer connection, if there is
/// one.
pub open spec fn after_track(s: SessionView, generation: u64, format: Option<VideoFormat>) -> SessionView {
    if is_current(s, generation) {
        SessionView {
            signaling: SignalingView {
                peer_connection: match s.signaling.peer_connection {
                    Some(handle) => Some(PeerConnectionHandle { video_track: format, ..handle }),
                    None => None,
                },
                ..s.signaling
            },
            ..s
        }
    } else {
        s
    }
}

/// The session after a media sample bound to `generation`: the frame made
/// of it is offered to the pipeline, unless the sample is stale.
pub open spec fn after_media_sample(
    s: SessionView,
    generation: u64,
    payload: Seq<u8>,
    now_ms: u64,
) -> SessionView {
    if is_current(s, generation) {
        SessionView {
            pipeline: submitted(s.pipeline, sample_frame(s.signaling, payload, now_ms), now_ms),
            ..s
        }
    } else {
        s
    }
}

/// The session after the shell took its turn: a device that identified
/// itself is taken from the channel and, where one was waited for, becomes
/// the device of the session; every queued frame is converted. A device that
/// identifies itself while another is connected is set aside.
pub open spec fn after_poll(s: SessionView) -> SessionView {
    let noticed = match s.signaling.pending_device {
        Some(device) => identified(
            SessionView {
                signaling: SignalingView { pending_device: None, ..s.signaling },
                ..s
            },
            device,
        ),
        None => s,
    };
    SessionView { pipeline: drained(noticed.pipeline), ..noticed }
}

/// What holds of the session at all times.
///
/// The artifact names the port that is listened on, and the device of the
/// channel is the device of the session. Idle means that nothing
/// is on offer and nothing is held: no token, no accepted connection, no
/// peer connection, no device, no artifact. While there is a session, the
/// token of its artifact is the token the channel goes by. Waiting means
/// that no device is known yet, connected that one is.
pub open spec fn session_invariant(s: SessionView) -> bool {
    &&& pipeline_invariant(s.pipeline)
    &&& s.qr.server_port == s.signaling.listen_port
    &&& s.signaling.current_connection == s.connected_device_info
    &&& s.connection_state == ConnectionState::Disconnected ==> {
        &&& s.signaling.session_token is None
        &&& !s.signaling.authenticated
        &&& s.signaling.peer_connection is None
        &&& s.signaling.pending_candidates.len() == 0
        &&& s.signaling.pending_device is None
        &&& s.signaling.current_connection is None
        &&& s.connected_device_info is None
        &&& s.qr.connection_info is None
    }
    &&& s.connection_state != ConnectionState::Disconnected ==> {
        &&& s.qr.connection_info is Some
        &&& s.signaling.session_token == Some(s.qr.connection_info->Some_0.session_token)
    }
    &&& s.connection_state == ConnectionState::WaitingForConnection
        ==> s.connected_device_info is None
    &&& s.connection_state == ConnectionState::Connected ==> s.connected_device_info is Some
}

/// What a signaling message asks of the caller.
#[derive(Debug)]
pub struct SignalOutcome {
    /// Steps for the negotiation engine, in order.
    pub commands: Vec<EngineCommand>,
    /// What is to be released, where the message ended the session.
    pub teardown: Option<Teardown>,
    /// Why the frame was set aside, where it was no message.
    pub anomaly: Option<SignalingError>,
}

/// The session manager: it alone says whether a device is paired.
pub struct MirrorCastApp {
    qr_manager: QRCodeManager,
    webrtc_manager: WebRTCManager,
    video_renderer: VideoRenderer,
    connection_state: ConnectionState,
    current_view: AppView,
    status_message: String,
    quality_setting: VideoQuality,
    auto_accept_connections: bool,
    connected_device_info: Option<ConnectedDevice>,
    generation: u64,
}

impl View for MirrorCastApp {
    type V = SessionView;

    closed spec fn view(&self) -> SessionView {
        SessionView {
            qr: self.qr_manager@,
            signaling: self.webrtc_manager@,
            pipeline: self.video_renderer@,
            connection_state: self.connection_state,
            current_view: self.current_view,
            status_message: self.status_message@,
            quality_setting: self.quality_setting,
            auto_accept_connections: self.auto_accept_connections,
            connected_device_info: match self.connected_device_info {
                Some(device) => Some(device@),
                None => None,
            },
            generation: self.generation,
        }
    }
}

impl MirrorCastApp {
    /// A session manager in the idle state.
    pub fn new() -> (r: Self)
        ensures
            r@ == initial_session(),
            session_invariant(r@),
    {
        MirrorCastApp {
            qr_manager: QRCodeManager::new(),
            webrtc_manager: WebRTCManager::new(),
            video_renderer: VideoRenderer::new(),
            connection_state: ConnectionState::Disconnected,
            current_view: AppView::Home,
            status_message: "Ready to accept connections".to_owned(),
            quality_setting: VideoQuality::High,
            auto_accept_connections: true,
            connected_device_info: None,
            generation: 0,
        }
    }

    /// Begins a pairing attempt under the given token at the given time, and
    /// returns the connection information the artifact carries.
    ///
    /// The session before, if any, is torn down and its token is refused
    /// from now on. Where no artifact can be made, nothing changes.
    pub fn begin_pairing(&mut self, ip_address: &str, token: String, now_ms: u64) -> (r: Result<
        ConnectionInfo,
        QrGenerationError,
    >)
        ensures
            final(self)@ == after_begin_pairing(old(self)@, ip_address@, token@, now_ms),
            match artifact_of(
                issued_info(ip_address@, old(self)@.qr.server_port, token@, now_ms),
                old(self)@.qr.server_port,
            ) {
                Ok(artifact) => r is Ok && Some(r->Ok_0@) == artifact.connection_info,
                Err(e) => r is Err && r->Err_0 == e,
            },
    {
        let issued = token.clone();
        match self.qr_manager.generate_with(ip_address, token, now_ms) {
            Ok(()) => {},
            Err(e) => {
                return Err(e);
            },
        }
        let info = ConnectionInfo {
            ip_address: ip_address.to_owned(),
            port: self.qr_manager.get_server_port(),
            session_token: issued.clone(),
            timestamp: now_ms / 1000,
            version: "1.0.0".to_owned(),
        };
        self.webrtc_manager.set_session_token(issued);
        self.video_renderer.reset();
        self.connection_state = ConnectionState::WaitingForConnection;
        self.current_view = AppView::Home;
        self.status_message = "Waiting for device to scan QR code...".to_owned();
        self.connected_device_info = None;
        if self.generation < u64::MAX {
            self.generation = self.generation + 1;
        }
        Ok(info)
    }

    /// Begins a pairing attempt under a token drawn at random, at the time
    /// the wall clock shows. Whatever token and time come, the outcome is
    /// that of [`MirrorCastApp::begin_pairing`] for them.
    pub fn generate_qr_code(&mut self, ip_address: &str) -> (r: Result<(), QrGenerationError>)
        ensures
            exists|token: Seq<char>, now_ms: u64|
                token.len() == 36 && final(self)@ == #[trigger] after_begin_pairing(
                    old(self)@,
                    ip_address@,
                    token,
                    now_ms,
                ) && match artifact_of(
                    issued_info(ip_address@, old(self)@.qr.server_port, token, now_ms),
                    old(self)@.qr.server_port,
                ) {
                    Ok(_) => r is Ok,
                    Err(e) => r is Err && r->Err_0 == e,
                },
    {
        let token = random_session_token();
        let now_ms = now_millis();
        match self.begin_pairing(ip_address, token, now_ms) {
            Ok(_) => Ok(()),
            Err(e) => Err(e),
        }
    }

    /// Takes notice of a device that has identified itself.
    ///
    /// Where a device was waited for, the session is connected to it.
    /// In every other state nothing changes, and `false` is returned.
    pub fn handle_connection(&mut self, device_info: ConnectedDevice) -> (connected: bool)
        ensures
            final(self)@ == identified(old(self)@, device_info@),
            connected == (old(self)@.connection_state == ConnectionState::WaitingForConnection),
    {
        if self.connection_state == ConnectionState::WaitingForConnection {
            self.webrtc_manager.set_connected_device(device_info.clone());
            self.connection_state = ConnectionState::Connected;
            self.current_view = AppView::Streaming;
            self.status_message = "Connected to ".to_owned().concat(device_info.name.as_str());
            self.connected_device_info = Some(device_info);
            true
        } else {
            false
        }
    }

    fn end_session(&mut self, status: String) -> (released: Teardown)
        ensures
            final(self)@ == ended_with(old(self)@, status@),
            released == teardown_of(old(self)@.signaling),
    {
        let released = self.webrtc_manager.disconnect();
        self.qr_manager.clear();
        self.connection_state = ConnectionState::Disconnected;
        self.current_view = AppView::Home;
        self.connected_device_info = None;
        self.status_message = status;
        released
    }

    /// Ends the session from any state, and returns what is to be released.
    /// Doing it again changes nothing more.
    pub fn disconnect(&mut self) -> (released: Teardown)
        ensures
            final(self)@ == ended(old(self)@),
            released == teardown_of(old(self)@.signaling),
    {
        self.end_session("Disconnected".to_owned())
    }

    /// Decides on a connection that presents `token`: accepted where the
    /// token is the one on offer and no connection was accepted for it
    /// before, refused otherwise. A refusal leaves the session as it is.
    pub fn on_connection_attempt(&mut self, token: &str, now_ms: u64) -> (decision:
        ConnectionDecision)
        ensures
            final(self)@ == after_connection_attempt(old(self)@, token@),
            match decision {
                ConnectionDecision::Accepted { welcome } => accepts(
                    old(self)@.signaling,
                    token@,
                ) && welcome@ == welcome_message(now_ms),
                ConnectionDecision::Refused { rejection } => !accepts(
                    old(self)@.signaling,
                    token@,
                ) && rejection@ == (SignalingMessageView::Close { timestamp: now_ms })
                    && final(self)@ == old(self)@,
            },
    {
        self.webrtc_manager.accept_connection(token, now_ms)
    }

    /// Handles a message that came over a connection bound to session
    /// number `generation`. A stale message changes nothing.
    pub fn on_signaling_message(
        &mut self,
        generation: u64,
        message: SignalingMessage,
        now_ms: u64,
    ) -> (outcome: SignalOutcome)
        ensures
            final(self)@ == after_signaling_message(old(self)@, generation, message@, now_ms),
            outcome.anomaly is None,
            is_current(old(self)@, generation) ==> commands_view(outcome.commands@)
                == message_commands(old(self)@.signaling, message@) && outcome.teardown
                == message_teardown(old(self)@.signaling, message@),
            !is_current(old(self)@, generation) ==> outcome.commands@.len() == 0
                && outcome.teardown is None,
    {
        if self.connection_state == ConnectionState::Disconnected || generation != self.generation {
            return SignalOutcome { commands: Vec::new(), teardown: None, anomaly: None };
        }
        let handled = self.webrtc_manager.handle_signaling_message(message, now_ms);
        if handled.teardown.is_some() {
            let _ = self.end_session("Disconnected".to_owned());
        }
        SignalOutcome { commands: handled.commands, teardown: handled.teardown, anomaly: None }
    }

    /// Handles a frame of text that came over a connection bound to session
    /// number `generation`.
    ///
    /// Text that is no message is set aside and reported as an anomaly; the
    /// session and the connection go on.
    pub fn on_signaling_frame(&mut self, generation: u64, text: &str, now_ms: u64) -> (outcome:
        SignalOutcome)
        ensures
            match decode_frame(text@) {
                Ok(message) => final(self)@ == after_signaling_message(
                    old(self)@,
                    generation,
                    message,
                    now_ms,
                ) && outcome.anomaly is None,
                Err(e) => final(self)@ == old(self)@ && outcome.anomaly == Some(e)
                    && outcome.commands@.len() == 0 && outcome.teardown is None,
            },
    {
        match SignalingMessage::parse(text) {
            Ok(message) => self.on_signaling_message(generation, message, now_ms),
            Err(e) => SignalOutcome { commands: Vec::new(), teardown: None, anomaly: Some(e) },
        }
    }

    /// Takes the answer the engine made and returns the message that carries
    /// it to the device; `None` where the answer is stale.
    pub fn on_answer_created(&self, generation: u64, sdp: String, now_ms: u64) -> (reply: Option<
        SignalingMessage,
    >)
        ensures
            match reply {
                Some(message) => is_current(self@, generation) && message@ == (
                SignalingMessageView::Answer { sdp: sdp@, timestamp: now_ms }),
                None => !is_current(self@, generation),
            },
    {
        if self.connection_state == ConnectionState::Disconnected || generation != self.generation {
            None
        } else {
            Some(WebRTCManager::answer_message(sdp, now_ms))
        }
    }

    /// Takes note that the engine refused the negotiation: the pairing has
    /// failed, the session is idle again, and the status says at which step.
    /// Returns what is to be released; `None` where the report is stale.
    pub fn on_negotiation_failed(&mut self, generation: u64, error: NegotiationError) -> (released:
        Option<Teardown>)
        ensures
            final(self)@ == after_failure(old(self)@, generation, failure_status(error)),
            released == if is_current(old(self)@, generation) {
                Some(teardown_of(old(self)@.signaling))
            } else {
                None
            },
    {
        if self.connection_state == ConnectionState::Disconnected || generation != self.generation {
            None
        } else {
            Some(self.end_session(error.status().to_owned()))
        }
    }

    /// Takes note that the engine could not carry out `command`, a step it
    /// was asked to take for session number `generation`.
    ///
    /// A step of the answer that fails ends the negotiation: the session is
    /// idle again, the status says at which step, and the caller carries out
    /// no further step. A candidate that fails is set aside and the caller
    /// goes on.
    pub fn on_command_failed(&mut self, generation: u64, command: &EngineCommand) -> (outcome:
        CommandFailure)
        ensures
            final(self)@ == after_command_failure(old(self)@, generation, command@),
            outcome == match failure_of(command@) {
                None => CommandFailure::GoOn,
                Some(_) => CommandFailure::Abort {
                    released: if is_current(old(self)@, generation) {
                        Some(teardown_of(old(self)@.signaling))
                    } else {
                        None
                    },
                },
            },
    {
        match command.failure() {
            Some(error) => CommandFailure::Abort {
                released: self.on_negotiation_failed(generation, error),
            },
            None => CommandFailure::GoOn,
        }
    }

    /// Takes note that the socket of the session was closed by the device.
    /// Returns what is to be released; `None` where the report is stale.
    pub fn on_socket_closed(&mut self, generation: u64) -> (released: Option<Teardown>)
        ensures
            final(self)@ == after_failure(old(self)@, generation, "Disconnected"@),
            released == if is_current(old(self)@, generation) {
                Some(teardown_of(old(self)@.signaling))
            } else {
                None
            },
    {
        if self.connection_state == ConnectionState::Disconnected || generation != self.generation {
            None
        } else {
            Some(self.end_session("Disconnected".to_owned()))
        }
    }

    /// Takes note of a state the engine reports of its peer connection.
    /// `Failed` and `Closed` end the session.
    pub fn on_peer_connection_state(&mut self, generation: u64, state: PeerConnectionState) -> (released:
        Option<Teardown>)
        ensures
            final(self)@ == after_engine_state(old(self)@, generation, state),
            released == if is_current(old(self)@, generation)
                && old(self)@.signaling.peer_connection is Some && ends_session(state) {
                Some(teardown_of(old(self)@.signaling))
            } else {
                None
            },
    {
        if self.connection_state == ConnectionState::Disconnected || generation != self.generation {
            return None;
        }
        let released = self.webrtc_manager.on_peer_connection_state(state);
        if released.is_some() {
            let _ = self.end_session("Disconnected".to_owned());
        }
        released
    }

    /// Notes the raw video format negotiated for the track that bears the
    /// media, or that none was and the samples stay encoded. A stale report
    /// changes nothing.
    pub fn on_track_negotiated(&mut self, generation: u64, format: Option<VideoFormat>)
        ensures
            final(self)@ == after_track(old(self)@, generation, format),
    {
        if self.connection_state != ConnectionState::Disconnected && generation == self.generation {
            self.webrtc_manager.set_video_track(format);
        }
    }

    /// Offers the frame of a media sample to the pipeline, without waiting.
    /// Returns whether the frame was queued: not where the sample is stale,
    /// and not where the queue is full.
    pub fn on_media_sample(&mut self, generation: u64, payload: Vec<u8>, now_ms: u64) -> (queued:
        bool)
        ensures
            final(self)@ == after_media_sample(old(self)@, generation, payload@, now_ms),
            queued == (is_current(old(self)@, generation) && old(self)@.pipeline.queue.len()
                < old(self)@.pipeline.capacity),
    {
        if self.connection_state == ConnectionState::Disconnected || generation != self.generation {
            return false;
        }
        let frame = self.webrtc_manager.media_frame(payload, now_ms);
        self.video_renderer.submit_frame(frame, now_ms)
    }

    /// The shell's turn: a device that has identified itself is taken notice
    /// of, and every queued frame is converted.
    pub fn update_connection_state(&mut self)
        ensures
            final(self)@ == after_poll(old(self)@),
    {
        match self.webrtc_manager.get_pending_connection() {
            Some(device) => {
                let _ = self.handle_connection(device);
            },
            None => {},
        }
        self.video_renderer.update();
    }

    /// The state of the session.
    pub fn connection_state(&self) -> (state: ConnectionState)
        ensures
            state == self@.connection_state,
    {
        self.connection_state
    }

    /// The device of the session.
    pub fn connected_device(&self) -> (device: Option<&ConnectedDevice>)
        ensures
            match device {
                Some(d) => self@.connected_device_info == Some(d@),
                None => self@.connected_device_info is None,
            },
    {
        self.connected_device_info.as_ref()
    }

    /// The number of the session, for binding what belongs to it.
    pub fn session_generation(&self) -> (generation: u64)
        ensures
            generation == self@.generation,
    {
        self.generation
    }

    /// What the shell shows as status.
    pub fn status_message(&self) -> (status: &str)
        ensures
            status@ == self@.status_message,
    {
        self.status_message.as_str()
    }

    /// The screen the shell shows.
    pub fn current_view(&self) -> (view: AppView)
        ensures
            view == self@.current_view,
    {
        self.current_view
    }

    /// Shows another screen.
    pub fn set_current_view(&mut self, view: AppView)
        ensures
            final(self)@ == (SessionView { current_view: view, ..old(self)@ }),
    {
        self.current_view = view;
    }

    /// The picture quality asked of the device.
    pub fn quality_setting(&self) -> (quality: VideoQuality)
        ensures
            quality == self@.quality_setting,
    {
        self.quality_setting
    }

    /// Asks the device for another picture quality.
    pub fn set_quality_setting(&mut self, quality: VideoQuality)
        ensures
            final(self)@ == (SessionView { quality_setting: quality, ..old(self)@ }),
    {
        self.quality_setting = quality;
    }

    /// Whether devices connect without being confirmed by the user.
    pub fn auto_accept_connections(&self) -> (enabled: bool)
        ensures
            enabled == self@.auto_accept_connections,
    {
        self.auto_accept_connections
    }

    /// Says whether devices connect without being confirmed by the user.
    pub fn set_auto_accept_connections(&mut self, enabled: bool)
        ensures
            final(self)@ == (SessionView { auto_accept_connections: enabled, ..old(self)@ }),
    {
        self.auto_accept_connections = enabled;
    }

    /// The texture of the QR symbol of the pairing attempt under way, made on
    /// first use and kept.
    pub fn qr_texture(&mut self) -> (r: Option<&RenderableFrame>)
        ensures
            final(self)@ == with_texture(old(self)@),
            match r {
                Some(texture) => final(self)@.qr.texture == Some(texture@),
                None => final(self)@.qr.texture is None,
            },
    {
        self.qr_manager.get_qr_texture()
    }

    /// Sets the port that later artifacts name and that is bound when
    /// listening begins.
    pub fn set_server_port(&mut self, port: u16)
        ensures
            final(self)@ == with_port(old(self)@, port),
    {
        self.qr_manager.set_server_port(port);
        self.webrtc_manager.set_listen_port(port);
    }

    /// Notes that listening begins. Returns the port to bind, or `None`
    /// where the receiver listens already and nothing is to be bound.
    pub fn start_listening(&mut self) -> (port: Option<u16>)
        ensures
            final(self)@ == listening(old(self)@, true),
            port == if old(self)@.signaling.is_listening {
                None
            } else {
                Some(old(self)@.signaling.listen_port)
            },
    {
        self.webrtc_manager.start_listening()
    }

    /// Ends listening, and with it the session, as where the port could not
    /// be bound. Where the receiver does not listen, nothing changes.
    pub fn stop_listening(&mut self) -> (released: Teardown)
        ensures
            final(self)@ == after_stop_listening(old(self)@),
            released == if old(self)@.signaling.is_listening {
                teardown_of(old(self)@.signaling)
            } else {
                Teardown { close_socket: false, close_peer_connection: false }
            },
    {
        if !self.webrtc_manager.is_listening() {
            return Teardown { close_socket: false, close_peer_connection: false };
        }
        let released = self.end_session("Disconnected".to_owned());
        let _ = self.webrtc_manager.stop_listening();
        released
    }

    /// The connection information of the pairing attempt under way.
    pub fn connection_info(&self) -> (r: Option<&ConnectionInfo>)
        ensures
            match r {
                Some(info) => self@.qr.connection_info == Some(info@),
                None => self@.qr.connection_info is None,
            },
    {
        self.qr_manager.get_connection_info()
    }

    /// The frame pipeline.
    pub fn video_renderer(&self) -> (r: &VideoRenderer)
        ensures
            r@ == self@.pipeline,
    {
        &self.video_renderer
    }
}

/// Something that happens to the session.
pub enum SessionEvent {
    /// The shell asks for a pairing attempt.
    BeginPairing { ip_address: Seq<char>, token: Seq<char>, now_ms: u64 },
    /// A device that identified itself is taken notice of.
    DeviceIdentified { device: ConnectedDeviceView },
    /// The shell asks to disconnect.
    Disconnect,
    /// A connection presents a token.
    ConnectionAttempt { token: Seq<char> },
    /// A message arrives.
    Message { generation: u64, message: SignalingMessageView, now_ms: u64 },
    /// The engine reports a state of its peer connection.
    PeerState { generation: u64, state: PeerConnectionState },
    /// The engine refuses the negotiation.
    NegotiationFailed { generation: u64, error: NegotiationError },
    /// The engine cannot carry out a step.
    CommandFailed { generation: u64, command: EngineCommandView },
    /// The device closes the socket.
    SocketClosed { generation: u64 },
    /// A track is negotiated.
    TrackNegotiated { generation: u64, format: Option<VideoFormat> },
    /// A media sample arrives.
    MediaSample { generation: u64, payload: Seq<u8>, now_ms: u64 },
    /// The shell takes its turn.
    Poll,
    /// Another port is set.
    SetPort { port: u16 },
    /// Listening begins.
    StartListening,
    /// Listening ends.
    StopListening,
    /// The shell shows another screen.
    ShowView { view: AppView },
    /// Another picture quality is asked for.
    SetQuality { quality: VideoQuality },
    /// It is said whether devices connect unconfirmed.
    SetAutoAccept { enabled: bool },
    /// The texture of the QR symbol is asked for.
    MakeTexture,
}

/// The session after an event.
pub open spec fn session_step(s: SessionView, event: SessionEvent) -> SessionView {
    match event {
        SessionEvent::BeginPairing { ip_address, token, now_ms } => after_begin_pairing(
            s,
            ip_address,
            token,
            now_ms,
        ),
        SessionEvent::DeviceIdentified { device } => identified(s, device),
        SessionEvent::Disconnect => ended(s),
        SessionEvent::ConnectionAttempt { token } => after_connection_attempt(s, token),
        SessionEvent::Message { generation, message, now_ms } => after_signaling_message(
            s,
            generation,
            message,
            now_ms,
        ),
        SessionEvent::PeerState { generation, state } => after_engine_state(s, generation, state),
        SessionEvent::NegotiationFailed { generation, error } => after_failure(
            s,
            generation,
            failure_status(error),
        ),
        SessionEvent::CommandFailed { generation, command } => after_command_failure(
            s,
            generation,
            command,
        ),
        SessionEvent::SocketClosed { generation } => after_failure(s, generation, "Disconnected"@),
        SessionEvent::TrackNegotiated { generation, format } => after_track(s, generation, format),
        SessionEvent::MediaSample { generation, payload, now_ms } => after_media_sample(
            s,
            generation,
            payload,
            now_ms,
        ),
        SessionEvent::Poll => after_poll(s),
        SessionEvent::SetPort { port } => with_port(s, port),
        SessionEvent::StartListening => listening(s, true),
        SessionEvent::StopListening => after_stop_listening(s),
        SessionEvent::ShowView { view } => SessionView { current_view: view, ..s },
        SessionEvent::SetQuality { quality } => SessionView { quality_setting: quality, ..s },
        SessionEvent::SetAutoAccept { enabled } => SessionView {
            auto_accept_connections: enabled,
            ..s
        },
        SessionEvent::MakeTexture => with_texture(s),
    }
}

/// The session after a history of events, first to last.
pub open spec fn session_run(s: SessionView, events: Seq<SessionEvent>) -> SessionView
    decreases events.len(),
{
    if events.len() == 0 {
        s
    } else {
        session_step(session_run(s, events.drop_last()), events.last())
    }
}

/// Every event keeps the invariant.
pub proof fn lemma_step_keeps_invariant(s: SessionView, event: SessionEvent)
    requires
        session_invariant(s),
    ensures
        session_invariant(session_step(s, event)),
{
    match event {
        SessionEvent::BeginPairing { ip_address, token, now_ms } => {
            lemma_pairing_keeps_invariant(s, ip_address, token, now_ms);
        },
        SessionEvent::Message { generation, message, now_ms } => {
            lemma_message_keeps_invariant(s, generation, message, now_ms);
        },
        SessionEvent::PeerState { generation, state } => {
            lemma_engine_state_keeps_invariant(s, generation, state);
        },
        SessionEvent::NegotiationFailed { generation, error } => {
            lemma_failure_keeps_invariant(s, generation, failure_status(error));
        },
        SessionEvent::CommandFailed { generation, command } => {
            if let Some(error) = failure_of(command) {
                lemma_failure_keeps_invariant(s, generation, failure_status(error));
            }
        },
        SessionEvent::SocketClosed { generation } => {
            lemma_failure_keeps_invariant(s, generation, "Disconnected"@);
        },
        SessionEvent::Disconnect => {
            lemma_end_keeps_invariant(s, "Disconnected"@);
        },
        SessionEvent::StopListening => {
            lemma_end_keeps_invariant(s, "Disconnected"@);
        },
        SessionEvent::MediaSample { generation, payload, now_ms } => {
            lemma_submit_invariant(
                s.pipeline,
                sample_frame(s.signaling, payload, now_ms),
                now_ms,
            );
        },
        SessionEvent::Poll => {
            lemma_poll_keeps_invariant(s);
        },
        _ => {},
    }
}

/// Ending the session keeps the invariant.
proof fn lemma_end_keeps_invariant(s: SessionView, status: Seq<char>)
    requires
        session_invariant(s),
    ensures
        session_invariant(ended_with(s, status)),
{
}

/// A failure bound to a session keeps the invariant.
proof fn lemma_failure_keeps_invariant(s: SessionView, generation: u64, status: Seq<char>)
    requires
        session_invariant(s),
    ensures
        session_invariant(after_failure(s, generation, status)),
{
    lemma_end_keeps_invariant(s, status);
}

/// A pairing attempt keeps the invariant.
proof fn lemma_pairing_keeps_invariant(
    s: SessionView,
    ip_address: Seq<char>,
    token: Seq<char>,
    now_ms: u64,
)
    requires
        session_invariant(s),
    ensures
        session_invariant(after_begin_pairing(s, ip_address, token, now_ms)),
{
    lemma_restart_invariant(s.pipeline);
}

/// A message keeps the invariant.
proof fn lemma_message_keeps_invariant(
    s: SessionView,
    generation: u64,
    message: SignalingMessageView,
    now_ms: u64,
)
    requires
        session_invariant(s),
    ensures
        session_invariant(after_signaling_message(s, generation, message, now_ms)),
{
    lemma_end_keeps_invariant(s, "Disconnected"@);
}

/// A report of the engine keeps the invariant.
proof fn lemma_engine_state_keeps_invariant(
    s: SessionView,
    generation: u64,
    state: PeerConnectionState,
)
    requires
        session_invariant(s),
    ensures
        session_invariant(after_engine_state(s, generation, state)),
{
    lemma_end_keeps_invariant(s, "Disconnected"@);
}

/// The shell's turn keeps the invariant.
proof fn lemma_poll_keeps_invariant(s: SessionView)
    requires
        session_invariant(s),
    ensures
        session_invariant(after_poll(s)),
{
    let taken = SessionView {
        signaling: SignalingView { pending_device: None, ..s.signaling },
        ..s
    };
    let noticed = match s.signaling.pending_device {
        Some(device) => identified(taken, device),
        None => s,
    };
    assert(session_invariant(noticed));
    lemma_drain(noticed.pipeline);
}

/// The invariant holds after any history: the session is in exactly one
/// state, and what each state promises of tokens, devices and connections
/// is true of it.
pub proof fn lemma_session_invariant(events: Seq<SessionEvent>)
    ensures
        session_invariant(session_run(initial_session(), events)),
    decreases events.len(),
{
    if events.len() > 0 {
        lemma_session_invariant(events.drop_last());
        lemma_step_keeps_invariant(
            session_run(initial_session(), events.drop_last()),
            events.last(),
        );
    }
}

/// Only the token of the artifact on show opens a session: where a
/// connection is accepted, there is a pairing attempt under way, and the
/// token presented is the one its artifact carries.
pub proof fn lemma_accepted_token_is_on_show(s: SessionView, presented: Seq<char>)
    requires
        session_invariant(s),
        accepts(s.signaling, presented),
    ensures
        s.connection_state != ConnectionState::Disconnected,
        s.qr.connection_info is Some,
        s.qr.connection_info->Some_0.session_token == presented,
{
}

/// From the idle state only a pairing attempt leads away: after any other
/// event the session is idle still. A device that identifies itself while
/// the session is idle changes nothing at all.
pub proof fn lemma_idle_leaves_by_pairing_only(s: SessionView, event: SessionEvent)
    requires
        session_invariant(s),
        s.connection_state == ConnectionState::Disconnected,
        !(event is BeginPairing),
    ensures
        session_step(s, event).connection_state == ConnectionState::Disconnected,
        event is DeviceIdentified ==> session_step(s, event) == s,
{
}

/// A device is taken notice of only while one is waited for: in any other
/// state the report changes nothing.
pub proof fn lemma_identified_elsewhere_is_no_op(s: SessionView, device: ConnectedDeviceView)
    requires
        s.connection_state != ConnectionState::WaitingForConnection,
    ensures
        identified(s, device) == s,
{
}

/// A device that identifies itself while another is connected is set aside:
/// the shell's turn changes neither the device of the session nor that of
/// the channel, so frames keep the resolution of the device that came first.
pub proof fn lemma_late_device_is_set_aside(s: SessionView, payload: Seq<u8>, now_ms: u64)
    requires
        session_invariant(s),
        s.connection_state == ConnectionState::Connected,
    ensures
        after_poll(s).connection_state == ConnectionState::Connected,
        after_poll(s).connected_device_info == s.connected_device_info,
        after_poll(s).signaling.current_connection == s.signaling.current_connection,
        after_poll(s).signaling.pending_device is None,
        sample_frame(after_poll(s).signaling, payload, now_ms).width
            == s.connected_device_info->Some_0.resolution.0,
        sample_frame(after_poll(s).signaling, payload, now_ms).height
            == s.connected_device_info->Some_0.resolution.1,
{
}

/// Disconnecting leads to the idle state from every state, forgets the
/// device, and is idempotent.
pub proof fn lemma_disconnect(s: SessionView)
    ensures
        ended(s).connection_state == ConnectionState::Disconnected,
        ended(s).connected_device_info is None,
        ended(ended(s)) == ended(s),
{
}

/// What is bound to an earlier session is set aside: once a pairing attempt
/// has begun, a message, a report of the engine and a media sample that
/// carry the number of the session before change nothing.
pub proof fn lemma_stale_events_ignored(
    s: SessionView,
    ip_address: Seq<char>,
    token: Seq<char>,
    now_ms: u64,
    event: SessionEvent,
)
    requires
        s.generation < u64::MAX,
        artifact_of(
            issued_info(ip_address, s.qr.server_port, token, now_ms),
            s.qr.server_port,
        ) is Ok,
        match event {
            SessionEvent::Message { generation, .. } => generation == s.generation,
            SessionEvent::PeerState { generation, .. } => generation == s.generation,
            SessionEvent::NegotiationFailed { generation, .. } => generation == s.generation,
            SessionEvent::CommandFailed { generation, .. } => generation == s.generation,
            SessionEvent::SocketClosed { generation } => generation == s.generation,
            SessionEvent::TrackNegotiated { generation, .. } => generation == s.generation,
            SessionEvent::MediaSample { generation, .. } => generation == s.generation,
            _ => false,
        },
    ensures
        session_step(after_begin_pairing(s, ip_address, token, now_ms), event)
            == after_begin_pairing(s, ip_address, token, now_ms),
{
}

/// A pairing attempt supersedes the one before: the token of the new
/// artifact is accepted, and any other token is refused, also the one that
/// was on offer until now.
pub proof fn lemma_pairing_supersedes(
    s: SessionView,
    ip_address: Seq<char>,
    token: Seq<char>,
    now_ms: u64,
    presented: Seq<char>,
)
    requires
        artifact_of(
            issued_info(ip_address, s.qr.server_port, token, now_ms),
            s.qr.server_port,
        ) is Ok,
    ensures
        accepts(
            after_begin_pairing(s, ip_address, token, now_ms).signaling,
            presented,
        ) <==> presented == token,
{
}

} // verus!
