use bilive_danmaku::json::json_parse;
use bilive_danmaku::room::{ConnectError, Connector, Host, parse_danmu_info, parse_room_play_info};

fn parse(text: &str) -> bilive_danmaku::json::JsonValue {
    json_parse(text.as_bytes()).expect("json parse error")
}

#[test]
fn wss_url_shape() {
    let host = Host { host: "broadcastlv.example.com".to_string(), wss_port: 443 };
    assert_eq!(host.wss(), "wss://broadcastlv.example.com:443/sub");
    let host = Host { host: "h".to_string(), wss_port: 2245 };
    assert_eq!(host.wss(), "wss://h:2245/sub");
}

#[test]
fn room_play_info_canonical_id() {
    let v = parse(r#"{"code": 0, "data": {"room_id": 510, "uid": 67141}}"#);
    assert_eq!(parse_room_play_info(&v).unwrap(), Some(510));

    // Without a data block the asked-for id stands.
    let v = parse(r#"{"code": 0, "data": null}"#);
    assert_eq!(parse_room_play_info(&v).unwrap(), None);
    let v = parse(r#"{"code": 0}"#);
    assert_eq!(parse_room_play_info(&v).unwrap(), None);

    // A data block of the wrong shape is a fault, named.
    let v = parse(r#"{"data": {"room_id": "ten"}}"#);
    assert_eq!(parse_room_play_info(&v).unwrap_err(), "room_id");
    let v = parse(r#"{"data": 5}"#);
    assert_eq!(parse_room_play_info(&v).unwrap_err(), "data");
}

#[test]
fn danmu_info_token_and_hosts() {
    let v = parse(
        r#"{
        "code": 0,
        "data": {
            "token": "room-token-1",
            "host_list": [
                {"host": "a.example", "port": 2243, "wss_port": 443, "ws_port": 2244},
                {"host": "b.example", "wss_port": 2245}
            ]
        }
    }"#,
    );
    let (token, hosts) = parse_danmu_info(&v).unwrap();
    assert_eq!(token, "room-token-1");
    assert_eq!(hosts.len(), 2);
    assert_eq!(hosts[0].host, "a.example");
    assert_eq!(hosts[0].wss_port, 443);
    assert_eq!(hosts[1].host, "b.example");
    assert_eq!(hosts[1].wss_port, 2245);
}

#[test]
fn danmu_info_faults_are_named() {
    let v = parse(r#"{"code": 0}"#);
    assert_eq!(parse_danmu_info(&v).unwrap_err(), "data");
    let v = parse(r#"{"data": {"host_list": []}}"#);
    assert_eq!(parse_danmu_info(&v).unwrap_err(), "token");
    let v = parse(r#"{"data": {"token": "t"}}"#);
    assert_eq!(parse_danmu_info(&v).unwrap_err(), "host_list");
    let v = parse(r#"{"data": {"token": "t", "host_list": [{"host": "x", "wss_port": 70000}]}}"#);
    assert_eq!(parse_danmu_info(&v).unwrap_err(), "wss_port");
}

fn two_host_connector() -> Connector {
    Connector::from_resolved(
        510,
        0,
        "k".to_string(),
        vec![
            Host { host: "bad.example".to_string(), wss_port: 443 },
            Host { host: "good.example".to_string(), wss_port: 443 },
        ],
    )
}

#[test]
fn failover_succeeds_on_the_second_host() {
    let mut c = two_host_connector();
    // The attempt starts at the first host ...
    let first = c.first_host().unwrap();
    assert_eq!(first, 0);
    assert_eq!(c.host_list[first].host, "bad.example");
    // ... that attempt fails, so the engine advances ...
    let second = c.next_host(first).unwrap();
    assert_eq!(second, 1);
    // ... and the second attempt is made against the good host.
    let used = c.use_host(second).unwrap();
    assert_eq!(used, "good.example");
    assert_eq!(c.host_index, 1);
    // Had the second host failed as well, the connect would be over.
    assert!(matches!(c.next_host(second), Err(ConnectError::HandshakeError)));
}

#[test]
fn empty_host_list_is_terminal() {
    let c = Connector::from_resolved(1, 0, "k".to_string(), Vec::new());
    assert!(matches!(c.first_host(), Err(ConnectError::HostListIsEmpty)));
}

#[test]
fn use_host_rejects_out_of_range() {
    let mut c = two_host_connector();
    assert_eq!(c.use_host(5), Err(2));
    assert_eq!(c.host_index, 0);
}
