use bilive_danmaku::connection::{
    auth_frame, classify_auth_reply, EventBuffer, WsConnectError, WsMessage, HEARTBEAT_SECS,
};
use bilive_danmaku::event::{
    lib_version, Event, EventData, EventMeta, EventSource, StopLiveEvent,
};
use bilive_danmaku::packet::{Auth, FrameError, Operation, RawPacket};

fn meta_for_room(room_id: u64) -> EventMeta {
    EventMeta::with_source(EventSource {
        room_id,
        url: "wss://a.example:443/sub".to_string(),
    })
}

#[test]
fn envelope_carries_the_build_version() {
    let m = EventMeta::new();
    assert_eq!(m.lib_version, lib_version());
    assert!(m.source.is_none());
    let m = meta_for_room(510);
    assert_eq!(m.lib_version, lib_version());
    assert_eq!(m.source.unwrap().room_id, 510);
    let m: EventMeta = Default::default();
    assert!(m.source.is_none());
}

#[test]
fn is_stop_live_checks_the_source_room() {
    let stop = EventData::StopLiveEvent(StopLiveEvent { room_id_list: vec![1, 510, 9] });
    let hit = Event { data: stop.clone(), meta: meta_for_room(510) };
    assert!(hit.is_stop_live());
    let miss = Event { data: stop.clone(), meta: meta_for_room(2) };
    assert!(!miss.is_stop_live());
    let unsourced = Event { data: stop, meta: EventMeta::new() };
    assert!(!unsourced.is_stop_live());
}

#[test]
fn auth_frame_wraps_the_payload() {
    let auth = Auth::new(1, 510, Some("k".to_string()));
    let payload = auth.ser();
    let frame = auth_frame(&auth).expect("payload fits a frame");
    assert_eq!(frame.len(), 16 + payload.len());
    let parsed = RawPacket::from_buffer(&frame).unwrap();
    assert_eq!(parsed.opcode, Operation::Auth.code());
    assert_eq!(parsed.codec_tag, 1);
    assert_eq!(parsed.payload, payload);
}

#[test]
fn auth_reply_classification() {
    assert_eq!(
        classify_auth_reply(Some(WsMessage::Binary(vec![1, 2]))).unwrap(),
        vec![1, 2]
    );
    assert!(matches!(
        classify_auth_reply(Some(WsMessage::Text("no".to_string()))),
        Err(WsConnectError::AuthFailed)
    ));
    assert!(matches!(
        classify_auth_reply(Some(WsMessage::Close)),
        Err(WsConnectError::AuthFailed)
    ));
    assert!(matches!(classify_auth_reply(None), Err(WsConnectError::UnexpecedEnd)));
}

#[test]
fn heartbeat_period_is_thirty_seconds() {
    assert_eq!(HEARTBEAT_SECS, 30);
}

fn frame_bytes(tag: u16, opcode: u32, payload: &[u8]) -> Vec<u8> {
    RawPacket {
        total_size: 16 + payload.len() as u32,
        header_size: 16,
        codec_tag: tag,
        opcode,
        sequence: 1,
        payload: payload.to_vec(),
    }
    .ser()
}

#[test]
fn buffer_ingests_a_frame_and_hands_events_out_in_order() {
    let mut buf = EventBuffer::new();
    assert!(buf.pop_event().is_none());

    let meta = meta_for_room(510);
    let json = br#"{"cmd":"WATCHED_CHANGE","data":{"num":41}}"#;
    buf.ingest_frame(&frame_bytes(0, 5, json), &meta).unwrap();
    let counter = frame_bytes(1, 3, &[0, 0, 0, 9]);
    buf.ingest_frame(&counter, &meta).unwrap();

    match buf.pop_event() {
        Some(Event { data: EventData::WatchedUpdateEvent(e), meta }) => {
            assert_eq!(e.num, 41);
            assert_eq!(meta.source.unwrap().room_id, 510);
        }
        other => panic!("expected the watched update first, got {:?}", other),
    }
    match buf.pop_event() {
        Some(Event { data: EventData::PopularityUpdateEvent(e), .. }) => {
            assert_eq!(e.popularity, 9);
        }
        other => panic!("expected the counter second, got {:?}", other),
    }
    assert!(buf.pop_event().is_none());
}

#[test]
fn buffer_drops_noise_and_keeps_running() {
    let mut buf = EventBuffer::new();
    let meta = EventMeta::new();
    // An ignored tag and malformed JSON yield nothing but are not
    // fatal.
    buf.ingest_frame(&frame_bytes(0, 5, br#"{"cmd":"NOTICE_MSG"}"#), &meta).unwrap();
    buf.ingest_frame(&frame_bytes(0, 5, b"not json"), &meta).unwrap();
    assert!(buf.pop_event().is_none());
    // A short buffer is the one framing fault.
    assert_eq!(buf.ingest_frame(&[0u8; 10], &meta), Err(FrameError::ShortHeader));
}

#[test]
fn build_version_string() {
    assert_eq!(lib_version(), "0.1.0");
}
