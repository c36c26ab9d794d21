use mirrorcast::json::Json;
use mirrorcast::signaling::{SignalingError, SignalingMessage, DEFAULT_HEIGHT, DEFAULT_WIDTH};

fn parse(text: &str) -> SignalingMessage {
    SignalingMessage::parse(text).unwrap()
}

fn error(text: &str) -> SignalingError {
    SignalingMessage::parse(text).err().unwrap()
}

#[test]
fn device_info_is_read() {
    let text = r#"{"type":"device_info","timestamp":1700000000123,
        "data":{"name":"Pixel","ip":"10.0.0.5","resolution":[1080,2400]}}"#;
    match parse(text) {
        SignalingMessage::DeviceInfo { name, ip, resolution, timestamp } => {
            assert_eq!(name, "Pixel");
            assert_eq!(ip, "10.0.0.5");
            assert_eq!(resolution, (1080, 2400));
            assert_eq!(timestamp, 1700000000123);
        }
        other => panic!("unexpected message: {:?}", other),
    }
}

#[test]
fn device_info_takes_defaults() {
    match parse(r#"{"type":"device_info","data":{}}"#) {
        SignalingMessage::DeviceInfo { name, ip, resolution, timestamp } => {
            assert_eq!(name, "Unknown Device");
            assert_eq!(ip, "Unknown");
            assert_eq!(resolution, (1080, 1920));
            assert_eq!((DEFAULT_WIDTH, DEFAULT_HEIGHT), (1080, 1920));
            assert_eq!(timestamp, 0);
        }
        other => panic!("unexpected message: {:?}", other),
    }
}

#[test]
fn device_info_with_odd_fields_takes_defaults_for_them() {
    let resolution = |data: &str| match parse(&format!("{{\"type\":\"device_info\",\"data\":{}}}", data)) {
        SignalingMessage::DeviceInfo { resolution, .. } => resolution,
        other => panic!("unexpected message: {:?}", other),
    };
    assert_eq!(resolution(r#"{"resolution":[720]}"#), (1080, 1920));
    assert_eq!(resolution(r#"{"resolution":"big"}"#), (1080, 1920));
    assert_eq!(resolution(r#"{"resolution":[720,"x"]}"#), (720, 1920));
    assert_eq!(resolution(r#"{"resolution":[-1,1280.5]}"#), (1080, 1920));
    assert_eq!(resolution(r#"{"resolution":[720,1280,3]}"#), (720, 1280));
    // a number beyond 32 bits keeps its low 32 bits
    assert_eq!(resolution(r#"{"resolution":[4294967296,4294968576]}"#), (0, 1280));
    assert_eq!(resolution("7"), (1080, 1920));
    match parse(r#"{"type":"device_info","data":{"name":5,"ip":null}}"#) {
        SignalingMessage::DeviceInfo { name, ip, .. } => {
            assert_eq!(name, "Unknown Device");
            assert_eq!(ip, "Unknown");
        }
        other => panic!("unexpected message: {:?}", other),
    }
}

#[test]
fn offer_is_read() {
    match parse(r#"{"type":"offer","timestamp":5,"data":{"sdp":"v=0"}}"#) {
        SignalingMessage::Offer { sdp, timestamp } => {
            assert_eq!(sdp, "v=0");
            assert_eq!(timestamp, 5);
        }
        other => panic!("unexpected message: {:?}", other),
    }
}

#[test]
fn answer_is_read() {
    match parse(r#"{"type":"webrtc_answer","data":{"sdp":"v=0","type":"answer"}}"#) {
        SignalingMessage::Answer { sdp, timestamp } => {
            assert_eq!(sdp, "v=0");
            assert_eq!(timestamp, 0);
        }
        other => panic!("unexpected message: {:?}", other),
    }
}

#[test]
fn candidate_is_read() {
    let text = r#"{"type":"ice_candidate","data":{"candidate":"candidate:1 1 UDP 1 10.0.0.5 9 typ host","sdpMid":"0","sdpMLineIndex":2}}"#;
    match parse(text) {
        SignalingMessage::IceCandidate { candidate, sdp_mid, sdp_mline_index, timestamp } => {
            assert_eq!(candidate, "candidate:1 1 UDP 1 10.0.0.5 9 typ host");
            assert_eq!(sdp_mid.as_deref(), Some("0"));
            assert_eq!(sdp_mline_index, Some(2));
            assert_eq!(timestamp, 0);
        }
        other => panic!("unexpected message: {:?}", other),
    }
    match parse(r#"{"type":"ice_candidate","data":{"candidate":"c","sdpMLineIndex":65537}}"#) {
        SignalingMessage::IceCandidate { sdp_mid, sdp_mline_index, .. } => {
            assert_eq!(sdp_mid, None);
            assert_eq!(sdp_mline_index, Some(1));
        }
        other => panic!("unexpected message: {:?}", other),
    }
}

#[test]
fn welcome_and_close_are_read() {
    match parse(r#"{"type":"welcome","timestamp":9,"data":{"server":"s","version":"v"}}"#) {
        SignalingMessage::Welcome { server, version, timestamp } => {
            assert_eq!((server.as_str(), version.as_str(), timestamp), ("s", "v", 9));
        }
        other => panic!("unexpected message: {:?}", other),
    }
    assert!(matches!(parse(r#"{"type":"close"}"#), SignalingMessage::Close { timestamp: 0 }));
    assert!(matches!(
        parse(r#"{"type":"close","timestamp":4,"data":1}"#),
        SignalingMessage::Close { timestamp: 4 }
    ));
}

#[test]
fn each_anomaly_has_its_error() {
    assert_eq!(error("{"), SignalingError::InvalidJson);
    assert_eq!(error(""), SignalingError::InvalidJson);
    assert_eq!(error("{}"), SignalingError::MissingType);
    assert_eq!(error(r#"{"type":5}"#), SignalingError::MissingType);
    assert_eq!(error("[]"), SignalingError::MissingType);
    assert_eq!(error(r#"{"type":"hello","data":{}}"#), SignalingError::UnknownType);
    assert_eq!(error(r#"{"type":"webrtc_offer","data":{"sdp":"v=0"}}"#), SignalingError::UnknownType);
    assert_eq!(error(r#"{"type":"answer","data":{"sdp":"v=0"}}"#), SignalingError::UnknownType);
    assert_eq!(error(r#"{"type":"device_info"}"#), SignalingError::MissingData);
    assert_eq!(error(r#"{"type":"offer"}"#), SignalingError::MissingData);
    assert_eq!(error(r#"{"type":"ice_candidate"}"#), SignalingError::MissingData);
    assert_eq!(error(r#"{"type":"offer","data":{}}"#), SignalingError::MissingField);
    assert_eq!(error(r#"{"type":"offer","data":{"sdp":1}}"#), SignalingError::MissingField);
    assert_eq!(error(r#"{"type":"webrtc_answer","data":{}}"#), SignalingError::MissingField);
    assert_eq!(error(r#"{"type":"ice_candidate","data":{"sdpMid":"0"}}"#), SignalingError::MissingField);
    assert_eq!(error(r#"{"type":"welcome","data":{"server":"s"}}"#), SignalingError::MissingField);
}

#[test]
fn welcome_text_has_the_documented_shape() {
    let message = SignalingMessage::Welcome {
        server: "MirrorCast Windows".to_string(),
        version: "1.0.0".to_string(),
        timestamp: 42,
    };
    assert_eq!(
        message.to_text().unwrap(),
        r#"{"data":{"server":"MirrorCast Windows","version":"1.0.0"},"timestamp":42,"type":"welcome"}"#
    );
}

#[test]
fn answer_text_has_the_documented_shape() {
    let message = SignalingMessage::Answer { sdp: "v=0\r\n".to_string(), timestamp: 7 };
    assert_eq!(
        message.to_text().unwrap(),
        r#"{"data":{"sdp":"v=0\r\n","type":"answer"},"timestamp":7,"type":"webrtc_answer"}"#
    );
}

#[test]
fn close_text_has_no_data() {
    let message = SignalingMessage::Close { timestamp: 1 };
    assert_eq!(message.to_text().unwrap(), r#"{"timestamp":1,"type":"close"}"#);
}

#[test]
fn every_message_round_trips_through_text() {
    let messages = vec![
        SignalingMessage::Welcome { server: "s".to_string(), version: "1".to_string(), timestamp: 1 },
        SignalingMessage::DeviceInfo {
            name: "Pixel \"7\"".to_string(),
            ip: "10.0.0.5".to_string(),
            resolution: (1080, 2400),
            timestamp: 2,
        },
        SignalingMessage::DeviceInfo {
            name: String::new(),
            ip: String::new(),
            resolution: (u32::MAX, 0),
            timestamp: u64::MAX,
        },
        SignalingMessage::Offer { sdp: "v=0\r\no=- 1 2 IN IP4 0.0.0.0\r\n".to_string(), timestamp: 3 },
        SignalingMessage::Answer { sdp: "v=0".to_string(), timestamp: 4 },
        SignalingMessage::IceCandidate {
            candidate: "candidate:1".to_string(),
            sdp_mid: Some("video".to_string()),
            sdp_mline_index: Some(65535),
            timestamp: 5,
        },
        SignalingMessage::IceCandidate {
            candidate: String::new(),
            sdp_mid: None,
            sdp_mline_index: Some(0),
            timestamp: 6,
        },
        SignalingMessage::IceCandidate {
            candidate: "c".to_string(),
            sdp_mid: Some(String::new()),
            sdp_mline_index: None,
            timestamp: 7,
        },
        SignalingMessage::IceCandidate {
            candidate: "c".to_string(),
            sdp_mid: None,
            sdp_mline_index: None,
            timestamp: 8,
        },
        SignalingMessage::Close { timestamp: 9 },
    ];
    for message in &messages {
        let text = message.to_text().unwrap();
        let back = SignalingMessage::parse(&text).unwrap();
        assert_eq!(format!("{:?}", back), format!("{:?}", message));
        let again = SignalingMessage::from_json(&message.to_json()).unwrap();
        assert_eq!(format!("{:?}", again), format!("{:?}", message));
    }
}

#[test]
fn numbers_of_every_kind_are_read() {
    let text = r#"{"type":"device_info","timestamp":1.5,"data":{"resolution":[7,-3],"name":"n"}}"#;
    match parse(text) {
        SignalingMessage::DeviceInfo { resolution, timestamp, .. } => {
            assert_eq!(resolution, (7, 1920));
            assert_eq!(timestamp, 0);
        }
        other => panic!("unexpected message: {:?}", other),
    }
}

#[test]
fn json_members_are_found_as_the_parser_finds_them() {
    let value = Json::Object(vec![
        ("a".to_string(), Json::Unsigned(1)),
        ("b".to_string(), Json::Text("x".to_string())),
        ("a".to_string(), Json::Unsigned(2)),
        ("c".to_string(), Json::Array(vec![Json::Null, Json::Bool(true)])),
        ("d".to_string(), Json::Signed(-4)),
        ("e".to_string(), Json::Float("1.5".to_string())),
    ]);
    assert_eq!(value.get("a").and_then(|v| v.as_u64()), Some(2));
    assert_eq!(value.get("b").and_then(|v| v.as_str()), Some("x"));
    assert_eq!(value.get("c").and_then(|v| v.as_array()).map(|a| a.len()), Some(2));
    assert_eq!(value.get("d").and_then(|v| v.as_u64()), None);
    assert_eq!(value.get("e").and_then(|v| v.as_u64()), None);
    assert!(value.get("z").is_none());
    assert!(value.get("").is_none());
    assert!(Json::Unsigned(1).get("a").is_none());
    assert!(Json::Array(vec![]).get("a").is_none());
    assert_eq!(Json::Text("t".to_string()).as_u64(), None);
    assert_eq!(Json::Unsigned(3).as_str(), None);
    assert!(Json::Null.as_array().is_none());
}
