use bilive_danmaku::cmd::{BlindGiftInfo, Cmd, CmdDeserError, medal_filter};
use bilive_danmaku::event::EventData;
use bilive_danmaku::json::{json_parse, JsonValue};
use bilive_danmaku::model::{CoinType, FansMedal, User};

fn parse(text: &str) -> JsonValue {
    json_parse(text.as_bytes()).expect("json parse error")
}

#[test]
fn super_chat_test() {
    let json = r#"{
        "cmd": "SUPER_CHAT_MESSAGE",
        "data": {
            "medal_info": {"anchor_roomid": 7, "guard_level": 2, "medal_level": 11, "medal_name": "m"},
            "message": "hello there",
            "price": 30,
            "uid": 99,
            "user_info": {"uname": "alice", "face": "face-url"}
        }
    }"#;
    let cmd = Cmd::deser(parse(json)).expect("cmd deser error");
    match &cmd {
        Cmd::SuperChatMessage { medal_info, message, price, uid, user_info } => {
            assert_eq!(message, "hello there");
            assert_eq!(*price, 30);
            assert_eq!(*uid, 99);
            assert_eq!(user_info.uname, "alice");
            assert_eq!(user_info.face, "face-url");
            let m = medal_info.as_ref().unwrap();
            assert_eq!(m.medal_level, 11);
        }
        other => panic!("expected a super chat, got {:?}", other),
    }
    match cmd.into_event() {
        Some(EventData::SuperChatEvent(e)) => {
            assert_eq!(e.user.uid, 99);
            assert_eq!(e.user.face.as_deref(), Some("face-url"));
            assert_eq!(e.message_jpn, None);
        }
        other => panic!("expected a super chat event, got {:?}", other),
    }
}

#[test]
fn send_gift_test() {
    let json = r#"{
        "cmd": "SEND_GIFT",
        "data": {
            "action": "feeds",
            "uid": 3,
            "uname": "bob",
            "face": "bf",
            "medal_info": null,
            "giftName": "fish",
            "giftId": 12,
            "num": 2,
            "price": 100,
            "coin_type": "gold",
            "total_coin": 200,
            "blind_gift": {
                "gift_action": "opens",
                "original_gift_id": 77,
                "original_gift_name": "box"
            }
        }
    }"#;
    let cmd = Cmd::deser(parse(json)).expect("cmd deser error");
    match &cmd {
        Cmd::SendGift { action, user, coin_type, total_coin, blind_gift, .. } => {
            assert_eq!(action, "feeds");
            assert_eq!(user.uname, "bob");
            assert_eq!(*coin_type, CoinType::Gold);
            assert_eq!(*total_coin, 200);
            assert!(blind_gift.is_some());
        }
        other => panic!("expected a gift, got {:?}", other),
    }
    match cmd.into_event() {
        Some(EventData::GiftEvent(e)) => {
            let blind = e.blindbox.expect("blind box half missing");
            assert_eq!(blind.action, "opens");
            assert_eq!(blind.gift_id, 77);
            assert_eq!(blind.gift_name, "box");
            assert_eq!(e.gift.gift_name, "fish");
            assert_eq!(e.gift.coin_count, 200);
        }
        other => panic!("expected a gift event, got {:?}", other),
    }
}

#[test]
fn stop_list_test() {
    let json = r#"{"cmd": "STOP_LIVE_ROOM_LIST", "data": {"room_id_list": [5, 6, 7]}}"#;
    let cmd = Cmd::deser(parse(json)).expect("cmd deser error");
    match &cmd {
        Cmd::StopLiveRoomList { room_id_list } => {
            assert_eq!(room_id_list, &vec![5, 6, 7]);
        }
        other => panic!("expected a stop-live list, got {:?}", other),
    }
    match cmd.into_event() {
        Some(EventData::StopLiveEvent(e)) => assert_eq!(e.room_id_list, vec![5, 6, 7]),
        other => panic!("expected a stop-live event, got {:?}", other),
    }
}

fn danmu_json(medal_level: u64) -> String {
    format!(
        r#"{{
            "cmd": "DANMU_MSG",
            "info": [
                [0, 1, 25, 16777215, 1, 0, 0, "", 0, 0, 4, "", null, null],
                "hello danmaku",
                [42, "carol", 0, 0, 0, 10000, 1, ""],
                [{}, "fans", 1, 777, 2, "", 0, 0, 0, 0, 3]
            ]
        }}"#,
        medal_level
    )
}

#[test]
fn danmu_msg_positional_decode() {
    let cmd = Cmd::deser(parse(&danmu_json(21))).expect("cmd deser error");
    match &cmd {
        Cmd::DanmuMsg { danmaku_type, fans_medal, user, message, emoticon } => {
            assert_eq!(*danmaku_type, 4);
            assert_eq!(message, "hello danmaku");
            assert_eq!(user.uid, 42);
            assert_eq!(user.uname, "carol");
            assert!(emoticon.is_none());
            let m = fans_medal.as_ref().unwrap();
            assert_eq!(m.medal_level, 21);
            assert_eq!(m.medal_name, "fans");
            assert_eq!(m.anchor_roomid, 777);
            assert_eq!(m.guard_level, 3);
        }
        other => panic!("expected a danmaku, got {:?}", other),
    }
}

#[test]
fn danmu_msg_zero_level_medal_is_normalized_away() {
    let cmd = Cmd::deser(parse(&danmu_json(0))).expect("cmd deser error");
    match &cmd {
        Cmd::DanmuMsg { fans_medal, .. } => {
            // The wire decoder keeps the level-zero medal ...
            assert_eq!(fans_medal.as_ref().unwrap().medal_level, 0);
        }
        other => panic!("expected a danmaku, got {:?}", other),
    }
    // ... and the event mapping normalizes it to absent.
    match cmd.into_event() {
        Some(EventData::DanmakuEvent(e)) => assert!(e.fans_medal.is_none()),
        other => panic!("expected a danmaku event, got {:?}", other),
    }
}

#[test]
fn danmu_msg_emoticon_decode() {
    let json = r#"{
        "cmd": "DANMU_MSG",
        "info": [
            [0, 1, 25, 0, 1, 0, 0, "", 0, 0, 1, "", null,
             {"emoticon_unique": "upower_x", "height": 60, "width": 183, "url": "http://e/x.png"}],
            "[sticker]",
            [9, "dave"],
            []
        ]
    }"#;
    let cmd = Cmd::deser(parse(json)).expect("cmd deser error");
    match cmd.into_event() {
        Some(EventData::DanmakuEvent(e)) => {
            assert!(e.fans_medal.is_none());
            match e.message {
                bilive_danmaku::model::DanmakuMessage::Emoticon { emoticon, alt_message } => {
                    assert_eq!(emoticon.unique_id, "upower_x");
                    assert_eq!(emoticon.height, 60);
                    assert_eq!(emoticon.width, 183);
                    assert_eq!(emoticon.url, "http://e/x.png");
                    assert_eq!(alt_message, "[sticker]");
                }
                other => panic!("expected an emoticon body, got {:?}", other),
            }
        }
        other => panic!("expected a danmaku event, got {:?}", other),
    }
}

#[test]
fn danmu_msg_missing_message_is_a_protocol_fault() {
    let json = r#"{"cmd": "DANMU_MSG", "info": [[0,0,0,0,0,0,0,"",0,0,4], 7, [1, "x"], []]}"#;
    match Cmd::deser(parse(json)) {
        Err(CmdDeserError::CannotDeser { field, .. }) => assert_eq!(field, "info[1]"),
        other => panic!("expected a shape fault, got {:?}", other),
    }
}

#[test]
fn untagged_message() {
    match Cmd::deser(parse(r#"{"info": []}"#)) {
        Err(CmdDeserError::Untagged { .. }) => {}
        other => panic!("expected untagged, got {:?}", other),
    }
    match Cmd::deser(parse("[1, 2]")) {
        Err(CmdDeserError::Untagged { .. }) => {}
        other => panic!("expected untagged, got {:?}", other),
    }
}

#[test]
fn ignored_tags_are_not_errors_in_shape() {
    match Cmd::deser(parse(r#"{"cmd": "NOTICE_MSG", "data": 5}"#)) {
        Err(CmdDeserError::Ignored { tag }) => assert_eq!(tag, "NOTICE_MSG"),
        other => panic!("expected ignored, got {:?}", other),
    }
}

#[test]
fn unknown_tag_is_malformed() {
    match Cmd::deser(parse(r#"{"cmd": "SOMETHING_ELSE", "data": {}}"#)) {
        Err(CmdDeserError::CannotDeser { field, .. }) => assert_eq!(field, "cmd"),
        other => panic!("expected malformed, got {:?}", other),
    }
}

#[test]
fn missing_data_is_malformed() {
    match Cmd::deser(parse(r#"{"cmd": "WATCHED_CHANGE"}"#)) {
        Err(CmdDeserError::CannotDeser { field, .. }) => assert_eq!(field, "data"),
        other => panic!("expected malformed, got {:?}", other),
    }
}

#[test]
fn missing_field_is_named() {
    match Cmd::deser(parse(r#"{"cmd": "WATCHED_CHANGE", "data": {"other": 1}}"#)) {
        Err(CmdDeserError::CannotDeser { field, .. }) => assert_eq!(field, "num"),
        other => panic!("expected malformed, got {:?}", other),
    }
}

#[test]
fn interact_word_normalizes_zero_level_medal() {
    let json = r#"{
        "cmd": "INTERACT_WORD",
        "data": {
            "uid": 8,
            "uname": "erin",
            "fans_medal": {"anchor_roomid": 1, "guard_level": 0, "medal_level": 0, "medal_name": "z"}
        }
    }"#;
    let cmd = Cmd::deser(parse(json)).expect("cmd deser error");
    match cmd.into_event() {
        Some(EventData::EnterRoomEvent(e)) => {
            assert_eq!(e.user.uname, "erin");
            assert!(e.fans_medal.is_none());
        }
        other => panic!("expected an enter-room event, got {:?}", other),
    }
}

#[test]
fn guard_level_defaults_when_absent() {
    let json = r#"{
        "cmd": "INTERACT_WORD",
        "data": {
            "uid": 8,
            "uname": "erin",
            "fans_medal": {"anchor_roomid": 1, "medal_level": 9, "medal_name": "z"}
        }
    }"#;
    let cmd = Cmd::deser(parse(json)).expect("cmd deser error");
    match &cmd {
        Cmd::InteractWord { fans_medal, .. } => {
            let m = fans_medal.as_ref().unwrap();
            assert_eq!(m.guard_level, 0);
            assert_eq!(m.medal_level, 9);
        }
        other => panic!("expected interact word, got {:?}", other),
    }
}

#[test]
fn guard_buy_maps_to_event() {
    let json = r#"{
        "cmd": "GUARD_BUY",
        "data": {"gift_id": 3, "gift_name": "g", "guard_level": 2, "price": 1980,
                 "num": 1, "uid": 5, "username": "frank"}
    }"#;
    let cmd = Cmd::deser(parse(json)).expect("cmd deser error");
    match cmd.into_event() {
        Some(EventData::GuardBuyEvent(e)) => {
            assert_eq!(e.level, 2);
            assert_eq!(e.price, 1980);
            assert_eq!(e.user.uname, "frank");
            assert_eq!(e.user.face, None);
        }
        other => panic!("expected a guard-buy event, got {:?}", other),
    }
}

#[test]
fn hot_rank_commands_map_to_events() {
    let changed = r#"{"cmd": "HOT_RANK_CHANGED_V2",
        "data": {"area_name": "a", "rank": 4, "rank_desc": "d"}}"#;
    match Cmd::deser(parse(changed)).unwrap().into_event() {
        Some(EventData::HotRankChangedEvent(e)) => {
            assert_eq!(e.area, "a");
            assert_eq!(e.rank, 4);
            assert_eq!(e.description, "d");
        }
        other => panic!("expected hot-rank change, got {:?}", other),
    }
    let settled = r#"{"cmd": "HOT_RANK_SETTLEMENT_V2",
        "data": {"area_name": "a", "rank": 2, "uname": "u", "face": "f"}}"#;
    match Cmd::deser(parse(settled)).unwrap().into_event() {
        Some(EventData::HotRankSettlementEvent(e)) => {
            assert_eq!(e.rank, 2);
            assert_eq!(e.uname, "u");
        }
        other => panic!("expected hot-rank settlement, got {:?}", other),
    }
}

#[test]
fn quiet_commands_map_to_no_event() {
    let rank = r#"{"cmd": "ONLINE_RANK_COUNT", "data": {"count": 12}}"#;
    assert!(Cmd::deser(parse(rank)).unwrap().into_event().is_none());
    let empty = r#"{"cmd": "ENTRY_EFFECT"}"#;
    assert!(Cmd::deser(parse(empty)).unwrap().into_event().is_none());
    let top3 = r#"{"cmd": "ONLINE_RANK_TOP3",
        "data": {"dmscore": 1, "list": [{"msg": "m", "rank": 1}]}}"#;
    assert!(Cmd::deser(parse(top3)).unwrap().into_event().is_none());
}

#[test]
fn medal_filter_drops_level_zero_only() {
    let zero = FansMedal {
        anchor_roomid: 1,
        guard_level: 3,
        medal_level: 0,
        medal_name: "m".to_string(),
    };
    assert_eq!(medal_filter(Some(zero)), None);
    let live = FansMedal {
        anchor_roomid: 1,
        guard_level: 3,
        medal_level: 8,
        medal_name: "m".to_string(),
    };
    assert_eq!(medal_filter(Some(live.clone())), Some(live));
    assert_eq!(medal_filter(None), None);
}

#[test]
fn blind_gift_info_moves_into_gift_type() {
    let cmd = Cmd::SendGift {
        action: "feeds".to_string(),
        user: User { uid: 1, uname: "u".to_string(), face: None },
        medal_info: None,
        gift_name: "fish".to_string(),
        gift_id: 2,
        num: 1,
        price: 10,
        coin_type: CoinType::Silver,
        total_coin: 10,
        blind_gift: Some(BlindGiftInfo {
            gift_action: "reveals".to_string(),
            original_gift_id: 9,
            original_gift_name: "mystery".to_string(),
        }),
    };
    match cmd.into_event() {
        Some(EventData::GiftEvent(e)) => {
            assert_eq!(e.blindbox.unwrap().action, "reveals");
            assert_eq!(e.gift.coin_type, CoinType::Silver);
        }
        other => panic!("expected a gift event, got {:?}", other),
    }
}
