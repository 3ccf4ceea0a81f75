use std::io::Write;
use bilive_danmaku::json::JsonValue;
use bilive_danmaku::packet::{Auth, Data, FrameError, Operation, RawPacket};

fn be32(x: u32) -> [u8; 4] {
    [(x >> 24) as u8, (x >> 16) as u8, (x >> 8) as u8, x as u8]
}

fn frame_bytes(total: u32, tag: u16, opcode: u32, payload: &[u8]) -> Vec<u8> {
    let mut out = Vec::new();
    out.extend_from_slice(&be32(total));
    out.extend_from_slice(&[0u8, 16u8]);
    out.extend_from_slice(&[(tag >> 8) as u8, tag as u8]);
    out.extend_from_slice(&be32(opcode));
    out.extend_from_slice(&be32(1));
    out.extend_from_slice(payload);
    out
}

#[test]
fn round_trip_opcode_and_payload() {
    let payload = b"payload bytes".to_vec();
    let built = RawPacket::build(Operation::Auth, payload.clone());
    let wire = built.ser();
    let parsed = RawPacket::from_buffer(&wire).expect("short buffer");
    assert_eq!(parsed.total_size, 16 + payload.len() as u32);
    assert_eq!(parsed.header_size, 16);
    assert_eq!(parsed.codec_tag, 1);
    assert_eq!(parsed.opcode, Operation::Auth.code());
    assert_eq!(parsed.sequence, 1);
    assert_eq!(parsed.payload, payload);
    assert!(matches!(Operation::from_code(parsed.opcode), Some(Operation::Auth)));
}

#[test]
fn round_trip_every_opcode() {
    let ops = [
        Operation::Handshake,
        Operation::HandshakeReply,
        Operation::Heartbeat,
        Operation::HeartbeatReply,
        Operation::SendMsg,
        Operation::SendMsgReply,
        Operation::DisconnectReply,
        Operation::Auth,
        Operation::AuthReply,
        Operation::ProtoReady,
        Operation::ProtoFinish,
        Operation::ChangeRoom,
        Operation::ChangeRoomReply,
        Operation::Register,
        Operation::RegisterReply,
        Operation::Unregister,
        Operation::UnregisterReply,
    ];
    for (i, op) in ops.iter().enumerate() {
        assert_eq!(op.code(), i as u32);
        let wire = RawPacket::build(*op, vec![0xAB]).ser();
        let parsed = RawPacket::from_buffer(&wire).unwrap();
        assert_eq!(Operation::from_code(parsed.opcode), Some(*op));
        assert_eq!(parsed.payload, vec![0xAB]);
    }
    assert_eq!(Operation::from_code(17), None);
}

#[test]
fn header_parsing_json_payload() {
    let body = br#"{"code":0}"#;
    assert_eq!(body.len(), 10);
    let wire = frame_bytes(26, 0, 5, body);
    let packet = RawPacket::from_buffer(&wire).unwrap();
    assert_eq!(packet.total_size, 26);
    assert_eq!(packet.header_size, 16);
    assert_eq!(packet.codec_tag, 0);
    let datas = packet.get_datas();
    assert_eq!(datas.len(), 1);
    match &datas[0] {
        Data::Json(v) => {
            let expected =
                JsonValue::Object(vec![("code".to_string(), JsonValue::UInt(0))]);
            assert_eq!(*v, expected);
        }
        other => panic!("expected a Json payload, got {:?}", other),
    }
}

#[test]
fn malformed_json_payload_is_discarded() {
    let wire = frame_bytes(16 + 3, 0, 5, b"{x}");
    let datas = RawPacket::from_buffer(&wire).unwrap().get_datas();
    assert_eq!(datas.len(), 0);
}

#[test]
fn counter_decode() {
    let wire = frame_bytes(20, 1, 3, &[0x00, 0x00, 0x30, 0x39]);
    let datas = RawPacket::from_buffer(&wire).unwrap().get_datas();
    assert_eq!(datas.len(), 1);
    match datas[0] {
        Data::Popularity(n) => assert_eq!(n, 12345),
        ref other => panic!("expected a counter payload, got {:?}", other),
    }
}

#[test]
fn short_counter_payload_is_discarded() {
    let wire = frame_bytes(19, 1, 3, &[0x00, 0x30, 0x39]);
    let datas = RawPacket::from_buffer(&wire).unwrap().get_datas();
    assert_eq!(datas.len(), 0);
}

#[test]
fn legacy_deflate_is_an_explicit_stub() {
    let wire = frame_bytes(18, 2, 3, &[1, 2]);
    let datas = RawPacket::from_buffer(&wire).unwrap().get_datas();
    assert_eq!(datas.len(), 1);
    assert!(matches!(datas[0], Data::Deflate));
}

#[test]
fn unknown_codec_tag_yields_nothing() {
    let wire = frame_bytes(18, 9, 3, &[1, 2]);
    let datas = RawPacket::from_buffer(&wire).unwrap().get_datas();
    assert_eq!(datas.len(), 0);
}

#[test]
fn short_buffer_is_a_framing_error() {
    let err = RawPacket::from_buffer(&[0u8; 15]).unwrap_err();
    assert_eq!(err, FrameError::ShortHeader);
}

#[test]
fn brotli_container_two_frames_in_order() {
    let json_body = br#"{"cmd":"WATCHED_CHANGE","data":{"num":5}}"#;
    let frame1 = frame_bytes(16 + json_body.len() as u32, 0, 5, json_body);
    let frame2 = frame_bytes(20, 1, 3, &[0, 0, 0, 7]);
    let mut concat = frame1.clone();
    concat.extend_from_slice(&frame2);

    let mut compressed: Vec<u8> = Vec::new();
    {
        let mut w = brotli::CompressorWriter::new(&mut compressed, 4096, 5, 22);
        w.write_all(&concat).unwrap();
    }

    let container = frame_bytes(16 + compressed.len() as u32, 3, 5, &compressed);
    let datas = RawPacket::from_buffer(&container).unwrap().get_datas();
    assert_eq!(datas.len(), 2);
    assert!(matches!(datas[0], Data::Json(_)));
    match datas[1] {
        Data::Popularity(n) => assert_eq!(n, 7),
        ref other => panic!("expected the counter second, got {:?}", other),
    }
}

#[test]
fn corrupt_brotli_container_yields_nothing() {
    let wire = frame_bytes(20, 3, 5, &[0xFF, 0xFE, 0xFD, 0xFC]);
    let datas = RawPacket::from_buffer(&wire).unwrap().get_datas();
    assert_eq!(datas.len(), 0);
}

#[test]
fn heartbeat_frame_shape() {
    let hb = RawPacket::heartbeat();
    assert_eq!(hb.total_size, 31);
    assert_eq!(hb.header_size, 16);
    assert_eq!(hb.codec_tag, 1);
    assert_eq!(hb.opcode, Operation::Heartbeat.code());
    assert_eq!(hb.payload, b"[object Object]".to_vec());
    let wire = hb.ser();
    assert_eq!(wire.len(), 31);
    assert_eq!(&wire[16..], b"[object Object]");
}

#[test]
fn auth_payload_json_bytes() {
    let auth = Auth::new(1, 2, Some("token-a".to_string()));
    assert_eq!(auth.protover, 3);
    assert_eq!(auth.auth_type, 2);
    let bytes = auth.ser();
    assert_eq!(
        bytes,
        br#"{"uid":1,"roomid":2,"protover":3,"platform":"web","type":2,"key":"token-a"}"#
            .to_vec()
    );
}

#[test]
fn auth_payload_without_key_is_null() {
    let auth = Auth::new(42, 510, None);
    let bytes = auth.ser();
    assert_eq!(
        bytes,
        br#"{"uid":42,"roomid":510,"protover":3,"platform":"web","type":2,"key":null}"#
            .to_vec()
    );
}

#[test]
fn auth_payload_escapes_the_key() {
    let auth = Auth::new(0, 1, Some("a\"b\\c\nd".to_string()));
    let bytes = auth.ser();
    let text = String::from_utf8(bytes).unwrap();
    assert_eq!(
        text,
        "{\"uid\":0,\"roomid\":1,\"protover\":3,\"platform\":\"web\",\"type\":2,\"key\":\"a\\\"b\\\\c\\u000ad\"}"
    );
    let parsed: serde_json::Value = serde_json::from_str(&text).unwrap();
    assert_eq!(parsed["key"].as_str().unwrap(), "a\"b\\c\nd");
}

#[test]
fn split_frames_rejects_truncation() {
    let frame = frame_bytes(20, 1, 3, &[0, 0, 0, 7]);
    let mut two = frame.clone();
    two.extend_from_slice(&frame[..10]);
    // A container whose decompressed bytes end mid-frame decodes to
    // nothing rather than to a partial list.
    let mut compressed: Vec<u8> = Vec::new();
    {
        let mut w = brotli::CompressorWriter::new(&mut compressed, 4096, 5, 22);
        w.write_all(&two).unwrap();
    }
    let container = frame_bytes(16 + compressed.len() as u32, 3, 5, &compressed);
    let datas = RawPacket::from_buffer(&container).unwrap().get_datas();
    assert_eq!(datas.len(), 0);
}

#[test]
fn auth_payload_renders_negative_numbers() {
    let mut auth = Auth::new(3, 4, None);
    auth.protover = -7;
    let bytes = auth.ser();
    assert_eq!(
        bytes,
        br#"{"uid":3,"roomid":4,"protover":-7,"platform":"web","type":2,"key":null}"#.to_vec()
    );
}
