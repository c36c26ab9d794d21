use mirrorcast::app::{AppView, CommandFailure, ConnectedDevice, MirrorCastApp, VideoQuality};
use mirrorcast::frame::VideoFormat;
use mirrorcast::qr::{validate_qr_data, QrGenerationError};
use mirrorcast::signaling::{SignalingError, SignalingMessage};
use mirrorcast::ui::{AppTheme, Color, ConnectionState};
use mirrorcast::webrtc::{
    presented_token, ConnectionDecision, EngineCommand, IceCandidate, IceOutcome, NegotiationError,
    PeerConnectionHandle, PeerConnectionState, Teardown, WebRTCManager, MAX_PENDING_CANDIDATES,
};

const DEVICE_INFO: &str =
    r#"{"type":"device_info","timestamp":1,"data":{"name":"Pixel","ip":"10.0.0.5","resolution":[1080,2400]}}"#;

fn candidate(line: &str) -> IceCandidate {
    IceCandidate { candidate: line.to_string(), sdp_mid: None, sdp_mline_index: Some(0) }
}

fn paired() -> (MirrorCastApp, u64) {
    let mut app = MirrorCastApp::new();
    let info = app.begin_pairing("192.168.1.2", "token-1".to_string(), 5_000).unwrap();
    assert!(matches!(
        app.on_connection_attempt(&info.session_token, 5_001),
        ConnectionDecision::Accepted { .. }
    ));
    let generation = app.session_generation();
    (app, generation)
}

#[test]
fn test_webrtc_manager_creation() {
    let manager = WebRTCManager::new();
    assert!(!manager.is_listening());
    assert!(!manager.is_connected());
    assert!(manager.get_connected_device().is_none());
}

#[test]
fn test_peer_connection_state() {
    let pc = PeerConnectionHandle {
        state: PeerConnectionState::New,
        video_track: None,
    };
    assert_eq!(pc.state, PeerConnectionState::New);
}

#[test]
fn new_session_is_idle() {
    let app = MirrorCastApp::new();
    assert_eq!(app.connection_state(), ConnectionState::Disconnected);
    assert_eq!(app.current_view(), AppView::Home);
    assert_eq!(app.status_message(), "Ready to accept connections");
    assert!(app.connected_device().is_none());
    assert!(app.connection_info().is_none());
    assert_eq!(app.session_generation(), 0);
}

#[test]
fn device_that_connects_with_the_token_is_paired_and_disconnect_forgets_it() {
    let mut app = MirrorCastApp::new();
    let info = app.begin_pairing("192.168.1.2", "token-1".to_string(), 5_000).unwrap();
    assert_eq!(app.connection_state(), ConnectionState::WaitingForConnection);
    assert_eq!(app.status_message(), "Waiting for device to scan QR code...");
    assert_eq!(info.session_token, "token-1");
    assert_eq!(info.ip_address, "192.168.1.2");
    assert_eq!(info.port, 8080);
    assert_eq!(info.timestamp, 5);

    match app.on_connection_attempt("token-1", 5_100) {
        ConnectionDecision::Accepted { welcome } => {
            assert_eq!(
                welcome.to_text().unwrap(),
                r#"{"data":{"server":"MirrorCast Windows","version":"1.0.0"},"timestamp":5100,"type":"welcome"}"#
            );
        }
        other => panic!("unexpected decision: {:?}", other),
    }
    let generation = app.session_generation();
    let outcome = app.on_signaling_frame(generation, DEVICE_INFO, 5_200);
    assert!(outcome.anomaly.is_none());
    assert!(outcome.commands.is_empty());
    assert!(outcome.teardown.is_none());
    assert_eq!(app.connection_state(), ConnectionState::WaitingForConnection);

    app.update_connection_state();
    assert_eq!(app.connection_state(), ConnectionState::Connected);
    assert_eq!(app.current_view(), AppView::Streaming);
    assert_eq!(app.status_message(), "Connected to Pixel");
    let device = app.connected_device().unwrap();
    assert_eq!(device.name, "Pixel");
    assert_eq!(device.ip_address, "10.0.0.5");
    assert_eq!(device.resolution, (1080, 2400));
    assert_eq!(device.connection_time, 5_200);

    let released = app.disconnect();
    assert_eq!(released, Teardown { close_socket: true, close_peer_connection: false });
    assert_eq!(app.connection_state(), ConnectionState::Disconnected);
    assert_eq!(app.current_view(), AppView::Home);
    assert_eq!(app.status_message(), "Disconnected");
    assert!(app.connected_device().is_none());
    assert!(app.connection_info().is_none());
}

#[test]
fn idle_session_ignores_a_device() {
    let mut app = MirrorCastApp::new();
    let device = ConnectedDevice {
        name: "Pixel".to_string(),
        ip_address: "10.0.0.5".to_string(),
        connection_time: 0,
        resolution: (1080, 2400),
    };
    assert!(!app.handle_connection(device.clone()));
    assert_eq!(app.connection_state(), ConnectionState::Disconnected);
    assert_eq!(app.status_message(), "Ready to accept connections");
    assert!(app.connected_device().is_none());

    // while connected, a second report changes nothing either
    let (mut app, _) = paired();
    assert!(app.handle_connection(device.clone()));
    let other = ConnectedDevice { name: "Other".to_string(), ..device };
    assert!(!app.handle_connection(other));
    assert_eq!(app.connected_device().unwrap().name, "Pixel");
}

#[test]
fn idle_session_stays_idle_under_every_other_event() {
    let mut app = MirrorCastApp::new();
    assert!(matches!(app.on_connection_attempt("anything", 1), ConnectionDecision::Refused { .. }));
    assert!(matches!(app.on_connection_attempt("", 1), ConnectionDecision::Refused { .. }));
    let outcome = app.on_signaling_frame(0, DEVICE_INFO, 2);
    assert!(outcome.commands.is_empty() && outcome.teardown.is_none() && outcome.anomaly.is_none());
    assert_eq!(app.on_peer_connection_state(0, PeerConnectionState::Failed), None);
    assert_eq!(app.on_negotiation_failed(0, NegotiationError::OfferRejected), None);
    assert_eq!(app.on_socket_closed(0), None);
    assert!(!app.on_media_sample(0, vec![1, 2, 3], 3));
    assert!(app.on_answer_created(0, "v=0".to_string(), 4).is_none());
    app.update_connection_state();
    assert_eq!(app.disconnect(), Teardown { close_socket: false, close_peer_connection: false });
    assert_eq!(app.connection_state(), ConnectionState::Disconnected);
    assert!(app.connected_device().is_none());
}

#[test]
fn superseded_token_is_refused() {
    let mut app = MirrorCastApp::new();
    app.begin_pairing("192.168.1.2", "old-token".to_string(), 1_000).unwrap();
    app.begin_pairing("192.168.1.2", "new-token".to_string(), 2_000).unwrap();
    match app.on_connection_attempt("old-token", 2_100) {
        ConnectionDecision::Refused { rejection } => {
            assert_eq!(rejection.to_text().unwrap(), r#"{"timestamp":2100,"type":"close"}"#);
        }
        other => panic!("unexpected decision: {:?}", other),
    }
    assert_eq!(app.connection_state(), ConnectionState::WaitingForConnection);
    assert!(matches!(app.on_connection_attempt("new-token", 2_200), ConnectionDecision::Accepted { .. }));
    // the token is good for one connection
    assert!(matches!(app.on_connection_attempt("new-token", 2_300), ConnectionDecision::Refused { .. }));
    // and for none after the session ended
    app.disconnect();
    assert!(matches!(app.on_connection_attempt("new-token", 2_400), ConnectionDecision::Refused { .. }));
}

#[test]
fn generated_token_pairs_and_its_payload_decodes() {
    let mut app = MirrorCastApp::new();
    assert!(app.generate_qr_code("192.168.1.2").is_ok());
    assert_eq!(app.connection_state(), ConnectionState::WaitingForConnection);
    let info = app.connection_info().unwrap().clone();
    assert_eq!(info.session_token.len(), 36);
    let decoded = validate_qr_data(&info.to_payload_text().unwrap()).unwrap();
    assert_eq!(decoded.session_token, info.session_token);
    assert!(matches!(
        app.on_connection_attempt(&decoded.session_token, 1),
        ConnectionDecision::Accepted { .. }
    ));
}

#[test]
fn pairing_again_tears_the_session_down() {
    let (mut app, generation) = paired();
    app.on_signaling_frame(generation, DEVICE_INFO, 10);
    app.update_connection_state();
    assert_eq!(app.connection_state(), ConnectionState::Connected);
    app.begin_pairing("192.168.1.2", "token-2".to_string(), 20_000).unwrap();
    assert_eq!(app.connection_state(), ConnectionState::WaitingForConnection);
    assert!(app.connected_device().is_none());
    assert_eq!(app.session_generation(), generation + 1);
    // what belongs to the session before is set aside
    let stale = app.on_signaling_frame(generation, r#"{"type":"close"}"#, 21_000);
    assert!(stale.teardown.is_none());
    assert!(!app.on_media_sample(generation, vec![0; 4], 21_000));
    assert_eq!(app.on_socket_closed(generation), None);
    assert_eq!(app.connection_state(), ConnectionState::WaitingForConnection);
}

#[test]
fn malformed_frames_are_set_aside_and_the_session_goes_on() {
    let (mut app, generation) = paired();
    assert_eq!(app.on_signaling_frame(generation, "{", 1).anomaly, Some(SignalingError::InvalidJson));
    assert_eq!(
        app.on_signaling_frame(generation, r#"{"type":"dance"}"#, 2).anomaly,
        Some(SignalingError::UnknownType)
    );
    assert_eq!(
        app.on_signaling_frame(generation, r#"{"type":"offer","data":{}}"#, 3).anomaly,
        Some(SignalingError::MissingField)
    );
    assert_eq!(app.connection_state(), ConnectionState::WaitingForConnection);
    app.on_signaling_frame(generation, DEVICE_INFO, 4);
    app.update_connection_state();
    assert_eq!(app.connection_state(), ConnectionState::Connected);
}

#[test]
fn offer_opens_a_peer_connection_and_replays_early_candidates() {
    let (mut app, generation) = paired();
    let early = r#"{"type":"ice_candidate","data":{"candidate":"early-1","sdpMid":"0","sdpMLineIndex":0}}"#;
    assert!(app.on_signaling_frame(generation, early, 1).commands.is_empty());
    let early = r#"{"type":"ice_candidate","data":{"candidate":"early-2"}}"#;
    assert!(app.on_signaling_frame(generation, early, 2).commands.is_empty());

    let offer = r#"{"type":"offer","data":{"sdp":"v=0"}}"#;
    let commands = app.on_signaling_frame(generation, offer, 3).commands;
    assert_eq!(commands.len(), 5);
    match &commands[0] {
        EngineCommand::CreatePeerConnection { ice_servers } => {
            assert_eq!(
                ice_servers,
                &vec!["stun:stun.l.google.com:19302".to_string(), "stun:stun1.l.google.com:19302".to_string()]
            );
        }
        other => panic!("unexpected command: {:?}", other),
    }
    assert!(matches!(&commands[1], EngineCommand::SetRemoteOffer { sdp } if sdp == "v=0"));
    assert!(matches!(&commands[2], EngineCommand::CreateAnswer));
    match &commands[3] {
        EngineCommand::AddIceCandidate { candidate } => {
            assert_eq!(candidate.candidate, "early-1");
            assert_eq!(candidate.sdp_mid.as_deref(), Some("0"));
            assert_eq!(candidate.sdp_mline_index, Some(0));
        }
        other => panic!("unexpected command: {:?}", other),
    }
    assert!(matches!(&commands[4], EngineCommand::AddIceCandidate { candidate } if candidate.candidate == "early-2"));

    // a later candidate goes straight to the engine
    let late = r#"{"type":"ice_candidate","data":{"candidate":"late"}}"#;
    let commands = app.on_signaling_frame(generation, late, 4).commands;
    assert_eq!(commands.len(), 1);
    assert!(matches!(&commands[0], EngineCommand::AddIceCandidate { candidate } if candidate.candidate == "late"));

    // a second offer reuses the peer connection and has nothing to replay
    let commands = app.on_signaling_frame(generation, offer, 5).commands;
    assert_eq!(commands.len(), 2);
    assert!(matches!(&commands[0], EngineCommand::SetRemoteOffer { .. }));

    let reply = app.on_answer_created(generation, "v=0 answer".to_string(), 6).unwrap();
    assert_eq!(
        reply.to_text().unwrap(),
        r#"{"data":{"sdp":"v=0 answer","type":"answer"},"timestamp":6,"type":"webrtc_answer"}"#
    );
}

#[test]
fn candidates_are_kept_up_to_the_cap() {
    let mut manager = WebRTCManager::new();
    for i in 0..MAX_PENDING_CANDIDATES {
        assert!(matches!(manager.handle_ice_candidate(candidate(&format!("c{}", i))), IceOutcome::Buffered));
    }
    assert!(matches!(manager.handle_ice_candidate(candidate("late")), IceOutcome::Dropped));
    let commands = manager.handle_webrtc_offer("v=0".to_string());
    assert_eq!(commands.len(), 3 + MAX_PENDING_CANDIDATES);
    assert!(matches!(&commands[3], EngineCommand::AddIceCandidate { candidate } if candidate.candidate == "c0"));
    assert!(matches!(commands.last().unwrap(), EngineCommand::AddIceCandidate { candidate } if candidate.candidate == "c63"));
    assert!(matches!(manager.handle_ice_candidate(candidate("x")), IceOutcome::Forward { .. }));
}

#[test]
fn teardown_is_idempotent() {
    let mut manager = WebRTCManager::new();
    assert!(!manager.teardown());
    manager.handle_ice_candidate(candidate("kept"));
    manager.handle_webrtc_offer("v=0".to_string());
    assert!(manager.peer_connection().is_some());
    assert!(manager.teardown());
    assert!(!manager.teardown());
    assert!(manager.peer_connection().is_none());
    // nothing is kept for replay after a teardown
    assert_eq!(manager.handle_webrtc_offer("v=0".to_string()).len(), 3);
}

#[test]
fn failed_engine_state_ends_the_session() {
    for state in [PeerConnectionState::Failed, PeerConnectionState::Closed] {
        let (mut app, generation) = paired();
        app.on_signaling_frame(generation, DEVICE_INFO, 1);
        app.update_connection_state();
        app.on_signaling_frame(generation, r#"{"type":"offer","data":{"sdp":"v=0"}}"#, 2);
        assert_eq!(app.on_peer_connection_state(generation, PeerConnectionState::Connecting), None);
        assert_eq!(app.on_peer_connection_state(generation, PeerConnectionState::Connected), None);
        assert_eq!(app.connection_state(), ConnectionState::Connected);
        assert_eq!(
            app.on_peer_connection_state(generation, state),
            Some(Teardown { close_socket: true, close_peer_connection: true })
        );
        assert_eq!(app.connection_state(), ConnectionState::Disconnected);
        assert!(app.connected_device().is_none());
    }
}

#[test]
fn refused_negotiation_reverts_to_idle() {
    let (mut app, generation) = paired();
    app.on_signaling_frame(generation, r#"{"type":"offer","data":{"sdp":"garbage"}}"#, 1);
    assert_eq!(
        app.on_negotiation_failed(generation, NegotiationError::OfferRejected),
        Some(Teardown { close_socket: true, close_peer_connection: true })
    );
    assert_eq!(app.connection_state(), ConnectionState::Disconnected);
    assert_eq!(app.status_message(), "Negotiation failed: offer rejected");
    assert_eq!(app.on_negotiation_failed(generation, NegotiationError::AnswerFailed), None);
    assert_eq!(NegotiationError::PeerConnectionRefused.status(), "Negotiation failed: no peer connection");
    assert_eq!(NegotiationError::AnswerFailed.status(), "Negotiation failed: no answer");
}

#[test]
fn close_message_and_closed_socket_end_the_session() {
    let (mut app, generation) = paired();
    let outcome = app.on_signaling_frame(generation, r#"{"type":"close"}"#, 1);
    assert_eq!(outcome.teardown, Some(Teardown { close_socket: true, close_peer_connection: false }));
    assert_eq!(app.connection_state(), ConnectionState::Disconnected);

    let (mut app, generation) = paired();
    assert_eq!(
        app.on_socket_closed(generation),
        Some(Teardown { close_socket: true, close_peer_connection: false })
    );
    assert_eq!(app.connection_state(), ConnectionState::Disconnected);
    assert_eq!(app.status_message(), "Disconnected");
}

#[test]
fn media_samples_become_frames_of_the_session() {
    let (mut app, generation) = paired();
    app.on_signaling_frame(
        generation,
        r#"{"type":"device_info","data":{"name":"Pixel","resolution":[4,2]}}"#,
        1,
    );
    app.update_connection_state();
    assert!(app.on_media_sample(generation, vec![0, 0, 0, 1, 103], 100));
    assert!(!app.on_media_sample(generation + 1, vec![9], 101));
    assert_eq!(app.video_renderer().queued_frames(), 1);
    app.update_connection_state();
    // no decoder: a gray placeholder of the reported size
    let picture = app.video_renderer().get_current_frame().unwrap();
    assert_eq!((picture.width, picture.height), (4, 2));
    assert_eq!(picture.pixels, vec![128u8; 32]);
    assert_eq!(app.video_renderer().get_statistics().frames_received, 1);
}

#[test]
fn negotiated_raw_format_tags_the_frames() {
    let mut manager = WebRTCManager::new();
    assert_eq!(manager.media_frame(vec![1], 5).format, VideoFormat::H264);
    manager.handle_webrtc_offer("v=0".to_string());
    manager.set_video_track(Some(VideoFormat::YUV420P));
    let frame = manager.media_frame(vec![1, 2], 6);
    assert_eq!(frame.format, VideoFormat::YUV420P);
    assert_eq!((frame.width, frame.height), (1080, 1920));
    assert_eq!(frame.data, vec![1, 2]);
    assert_eq!(frame.timestamp, 6);
    assert_eq!(
        manager.peer_connection(),
        Some(PeerConnectionHandle { state: PeerConnectionState::New, video_track: Some(VideoFormat::YUV420P) })
    );
}

#[test]
fn raw_track_of_the_session_is_converted() {
    let (mut app, generation) = paired();
    app.on_signaling_frame(
        generation,
        r#"{"type":"device_info","data":{"name":"Pixel","resolution":[2,2]}}"#,
        1,
    );
    app.update_connection_state();
    app.on_signaling_frame(generation, r#"{"type":"offer","data":{"sdp":"v=0"}}"#, 2);
    app.on_track_negotiated(generation + 1, Some(VideoFormat::RGB24));
    app.on_track_negotiated(generation, Some(VideoFormat::YUV420P));
    assert!(app.on_media_sample(generation, vec![128; 6], 3));
    app.update_connection_state();
    let picture = app.video_renderer().get_current_frame().unwrap();
    assert_eq!(picture.pixels, [128u8, 128, 128, 255].repeat(4));
}

#[test]
fn second_device_while_connected_is_set_aside() {
    let (mut app, generation) = paired();
    app.on_signaling_frame(generation, DEVICE_INFO, 10);
    app.update_connection_state();
    let second = r#"{"type":"device_info","data":{"name":"Other","ip":"10.0.0.9","resolution":[4,2]}}"#;
    app.on_signaling_frame(generation, second, 20);
    app.update_connection_state();
    assert_eq!(app.connection_state(), ConnectionState::Connected);
    assert_eq!(app.connected_device().unwrap().name, "Pixel");
    // frames keep the resolution of the device that came first
    assert!(app.on_media_sample(generation, vec![1, 2, 3], 30));
    app.update_connection_state();
    let picture = app.video_renderer().get_current_frame().unwrap();
    assert_eq!((picture.width, picture.height), (1080, 2400));
    // a third report changes nothing either, and nothing waits for the next session
    app.on_signaling_frame(generation, second, 40);
    app.begin_pairing("192.168.1.2", "token-2".to_string(), 50_000).unwrap();
    app.update_connection_state();
    assert_eq!(app.connection_state(), ConnectionState::WaitingForConnection);
    assert!(app.connected_device().is_none());
}

#[test]
fn connection_without_a_token_is_refused() {
    let mut manager = WebRTCManager::new();
    assert!(matches!(manager.accept_connection("", 1), ConnectionDecision::Refused { .. }));
    manager.set_session_token(String::new());
    assert!(matches!(manager.accept_connection("", 2), ConnectionDecision::Refused { .. }));
    manager.set_session_token("t".to_string());
    assert!(matches!(manager.accept_connection("", 3), ConnectionDecision::Refused { .. }));
    assert!(matches!(manager.accept_connection("t", 4), ConnectionDecision::Accepted { .. }));
}

#[test]
fn pairing_under_unusable_information_changes_nothing() {
    let mut app = MirrorCastApp::new();
    assert_eq!(
        app.begin_pairing("192.168.1.2", String::new(), 1_000).err(),
        Some(QrGenerationError::InvalidConnectionInfo)
    );
    assert_eq!(
        app.begin_pairing("", "token".to_string(), 1_000).err(),
        Some(QrGenerationError::InvalidConnectionInfo)
    );
    app.set_server_port(0);
    assert_eq!(
        app.generate_qr_code("192.168.1.2"),
        Err(QrGenerationError::InvalidConnectionInfo)
    );
    assert_eq!(app.connection_state(), ConnectionState::Disconnected);
    assert_eq!(app.session_generation(), 0);
    assert!(app.connection_info().is_none());
    assert!(matches!(app.on_connection_attempt("", 2_000), ConnectionDecision::Refused { .. }));
}

#[test]
fn token_is_read_from_the_query_of_the_request() {
    assert_eq!(presented_token("token=abc"), "abc");
    assert_eq!(presented_token("a=1&token=abc&b=2"), "abc");
    assert_eq!(presented_token("token=first&token=second"), "first");
    assert_eq!(presented_token("token=a=b"), "a=b");
    assert_eq!(presented_token("token="), "");
    assert_eq!(presented_token("token=&token=x"), "");
    assert_eq!(presented_token(""), "");
    assert_eq!(presented_token("&&"), "");
    assert_eq!(presented_token("token"), "");
    assert_eq!(presented_token("xtoken=abc"), "");
    assert_eq!(presented_token("Token=abc"), "");
    assert_eq!(presented_token("a=token=abc"), "");
    assert_eq!(presented_token("a=1&&token=d\u{e9}j\u{e0}&"), "d\u{e9}j\u{e0}");
    assert_eq!(presented_token("t\u{f6}ken=1&token=\u{1f600}"), "\u{1f600}");

    let mut app = MirrorCastApp::new();
    let info = app.begin_pairing("192.168.1.2", "token-1".to_string(), 5_000).unwrap();
    let query = format!("v=1&token={}", info.session_token);
    assert!(matches!(
        app.on_connection_attempt(presented_token(&query), 5_001),
        ConnectionDecision::Accepted { .. }
    ));
}

#[test]
fn failed_step_of_the_answer_ends_the_negotiation_and_a_failed_candidate_does_not() {
    let (mut app, generation) = paired();
    app.on_signaling_frame(generation, r#"{"type":"ice_candidate","data":{"candidate":"early"}}"#, 1);
    let commands = app
        .on_signaling_frame(generation, r#"{"type":"offer","data":{"sdp":"v=0"}}"#, 2)
        .commands;
    assert_eq!(commands[0].failure(), Some(NegotiationError::PeerConnectionRefused));
    assert_eq!(commands[1].failure(), Some(NegotiationError::OfferRejected));
    assert_eq!(commands[2].failure(), Some(NegotiationError::AnswerFailed));
    assert_eq!(commands[3].failure(), None);

    assert_eq!(app.on_command_failed(generation, &commands[3]), CommandFailure::GoOn);
    assert_eq!(app.connection_state(), ConnectionState::WaitingForConnection);
    assert_eq!(
        app.on_command_failed(generation, &commands[1]),
        CommandFailure::Abort {
            released: Some(Teardown { close_socket: true, close_peer_connection: true })
        }
    );
    assert_eq!(app.connection_state(), ConnectionState::Disconnected);
    assert_eq!(app.status_message(), "Negotiation failed: offer rejected");
    // a stale report still stops the caller, with nothing to release
    assert_eq!(
        app.on_command_failed(generation, &commands[2]),
        CommandFailure::Abort { released: None }
    );
    assert_eq!(app.status_message(), "Negotiation failed: offer rejected");
}

#[test]
fn pipeline_starts_over_with_each_session() {
    let (mut app, generation) = paired();
    for i in 0..9 {
        app.on_media_sample(generation, vec![i], i as u64);
    }
    assert_eq!(app.video_renderer().get_statistics().frame_drops, 1);
    app.begin_pairing("192.168.1.2", "token-2".to_string(), 9_000).unwrap();
    let statistics = app.video_renderer().get_statistics();
    assert_eq!(statistics.frame_drops, 0);
    assert_eq!(statistics.frames_received, 0);
    assert_eq!(app.video_renderer().queued_frames(), 0);
}

#[test]
fn listening_is_started_once() {
    let mut manager = WebRTCManager::new();
    assert_eq!(manager.start_listening(), Some(8080));
    assert!(manager.is_listening());
    assert_eq!(manager.start_listening(), None);
    manager.set_session_token("t".to_string());
    assert!(matches!(manager.accept_connection("t", 1), ConnectionDecision::Accepted { .. }));
    assert_eq!(manager.stop_listening(), Teardown { close_socket: true, close_peer_connection: false });
    assert!(!manager.is_listening());
    assert_eq!(manager.stop_listening(), Teardown { close_socket: false, close_peer_connection: false });
    assert!(matches!(manager.accept_connection("t", 2), ConnectionDecision::Refused { .. }));
}

#[test]
fn pending_device_is_handed_over_once() {
    let mut manager = WebRTCManager::new();
    manager.set_session_token("t".to_string());
    manager.accept_connection("t", 1);
    let message = SignalingMessage::parse(DEVICE_INFO).unwrap();
    manager.handle_signaling_message(message, 77);
    let device = manager.get_pending_connection().unwrap();
    assert_eq!(device.name, "Pixel");
    assert_eq!(device.connection_time, 77);
    assert!(manager.get_pending_connection().is_none());
    assert!(manager.get_connected_device().is_none());
    manager.set_connected_device(device);
    assert_eq!(manager.get_connected_device().unwrap().name, "Pixel");
    assert!(!manager.is_connected());
    manager.handle_webrtc_offer("v=0".to_string());
    assert!(manager.is_connected());
}

#[test]
fn messages_before_acceptance_change_nothing() {
    let mut manager = WebRTCManager::new();
    manager.set_session_token("t".to_string());
    let outcome = manager.handle_signaling_message(SignalingMessage::parse(DEVICE_INFO).unwrap(), 1);
    assert!(outcome.commands.is_empty() && outcome.teardown.is_none());
    assert!(manager.get_pending_connection().is_none());
    let offer = SignalingMessage::Offer { sdp: "v=0".to_string(), timestamp: 0 };
    assert!(manager.handle_signaling_message(offer, 2).commands.is_empty());
    assert!(manager.peer_connection().is_none());
}

#[test]
fn themes_have_their_colors() {
    let dark = AppTheme::dark();
    assert_eq!(dark.primary_color, Color { r: 103, g: 80, b: 164, a: 255 });
    assert_eq!(dark.background_color, Color::from_rgb(30, 30, 40));
    assert_eq!(dark.text_color, Color::from_rgb(255, 255, 255));
    let light = AppTheme::light();
    assert_eq!(light.background_color, Color::from_rgb(255, 255, 255));
    assert_eq!(light.text_color, Color::from_rgb(0, 0, 0));
    assert_eq!(light.accent_color, Color::from_rgb(76, 175, 80));
    assert_eq!(AppTheme::default(), dark);
    assert_ne!(VideoQuality::Low, VideoQuality::Auto);
}

#[test]
fn view_can_be_changed() {
    let mut app = MirrorCastApp::new();
    app.set_current_view(AppView::Settings);
    assert_eq!(app.current_view(), AppView::Settings);
    assert_eq!(app.connection_state(), ConnectionState::Disconnected);
}
