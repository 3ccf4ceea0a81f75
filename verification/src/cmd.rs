//! The command grammar: the JSON messages the upstream service sends,
//! dispatched on their `"cmd"` tag into a closed command union, plus
//! the bespoke positional-array decoder for `DANMU_MSG`, and the total
//! mapping from commands to domain events.

use vstd::prelude::*;

verus! {

use crate::json::{JsonValue, spec_obj_get, obj_get};
use crate::model::{CoinType, DanmakuMessage, Emoticon, FansMedal, SuperChatUser, User};
use crate::text::str_eq;

// ---------------------------------------------------------------------------
// The command union
// ---------------------------------------------------------------------------

/// One entry of the online-rank top-three list.
#[derive(Debug, Clone, PartialEq)]
pub struct OnlineRankTop3ListItem {
    pub msg: String,
    pub rank: u64,
}

/// The visible half of a blind-box gift purchase.
#[derive(Debug, Clone, PartialEq)]
pub struct BlindGiftInfo {
    pub gift_action: String,
    pub original_gift_id: u64,
    pub original_gift_name: String,
}

/// A recognized upstream command. Parsed from the JSON `"cmd"` tag
/// and the keyed `"data"` object, except `DanmuMsg`, which the
/// upstream encodes as a heterogeneous positional array.
#[derive(Debug, Clone, PartialEq)]
pub enum Cmd {
    ComboSend {
        action: String,
        batch_combo_num: u64,
        combo_total_coin: u64,
        gift_name: String,
        gift_id: u64,
        user: User,
    },
    CommonNoticeDanmaku {},
    EntryEffect {},
    GuardBuy {
        gift_id: u64,
        gift_name: String,
        guard_level: u64,
        price: u64,
        num: u64,
        uid: u64,
        username: String,
    },
    HotBuyNum {},
    HotRankChangedV2 {
        area_name: String,
        rank: u64,
        rank_desc: String,
    },
    HotRankSettlementV2 {
        area_name: String,
        rank: u64,
        uname: String,
        face: String,
    },
    LiveInteractiveGame {},
    OnlineRankV2 {},
    OnlineRankTop3 {
        dmscore: u64,
        list: Vec<OnlineRankTop3ListItem>,
    },
    PopularityRedPocketStart {},
    RoomRealTimeMessageUpdate {
        fans: u64,
        fans_club: u64,
        red_notice: i64,
        roomid: u64,
    },
    UserToastMsg {},
    StopLiveRoomList {
        room_id_list: Vec<u64>,
    },
    InteractWord {
        fans_medal: Option<FansMedal>,
        user: User,
    },
    WatchedChange {
        num: u64,
    },
    OnlineRankCount {
        count: u64,
    },
    DanmuMsg {
        danmaku_type: u64,
        fans_medal: Option<FansMedal>,
        user: User,
        message: String,
        emoticon: Option<Emoticon>,
    },
    SendGift {
        action: String,
        user: User,
        medal_info: Option<FansMedal>,
        gift_name: String,
        gift_id: u64,
        num: u64,
        price: u64,
        coin_type: CoinType,
        total_coin: u64,
        blind_gift: Option<BlindGiftInfo>,
    },
    SuperChatMessage {
        medal_info: Option<FansMedal>,
        message: String,
        price: u64,
        uid: u64,
        user_info: SuperChatUser,
    },
    SuperChatMessageJpn {
        medal_info: Option<FansMedal>,
        message: String,
        message_jpn: String,
        price: u64,
        uid: u64,
        user_info: SuperChatUser,
    },
}

/// Why a JSON message yielded no command.
#[derive(Debug)]
pub enum CmdDeserError {
    /// The tag was recognized but the shape was not: the original
    /// value is carried for diagnosing upstream drift, together with
    /// the field or offset that failed.
    CannotDeser { value: JsonValue, field: String },
    /// The value has no string `"cmd"` field.
    Untagged { value: JsonValue },
    /// The tag is on the fixed ignore list: expected noise, not an
    /// error.
    Ignored { tag: String },
    /// Any other fault, described in words.
    Custom { text: String },
}

// ---------------------------------------------------------------------------
// Field readers, as mathematics
// ---------------------------------------------------------------------------

/// A required unsigned field: the number, or the key that failed.
pub open spec fn s_req_u64(fs: Seq<(String, JsonValue)>, key: Seq<char>) -> Result<u64, Seq<char>> {
    match spec_obj_get(fs, key) {
        Some(JsonValue::UInt(u)) => Ok(u),
        _ => Err(key),
    }
}

/// A required signed field: an unsigned number within range or a
/// negative integer, or the key that failed.
pub open spec fn s_req_i64(fs: Seq<(String, JsonValue)>, key: Seq<char>) -> Result<i64, Seq<char>> {
    match spec_obj_get(fs, key) {
        Some(JsonValue::UInt(u)) => if u <= i64::MAX as u64 {
            Ok(u as i64)
        } else {
            Err(key)
        },
        Some(JsonValue::NegInt(i)) => Ok(i),
        _ => Err(key),
    }
}

/// A required string field: the string, or the key that failed.
pub open spec fn s_req_str(fs: Seq<(String, JsonValue)>, key: Seq<char>) -> Result<
    String,
    Seq<char>,
> {
    match spec_obj_get(fs, key) {
        Some(JsonValue::Str(s)) => Ok(s),
        _ => Err(key),
    }
}

/// An optional string field: absent and `null` are `None`; anything
/// else must be a string.
pub open spec fn s_opt_str(fs: Seq<(String, JsonValue)>, key: Seq<char>) -> Result<
    Option<String>,
    Seq<char>,
> {
    match spec_obj_get(fs, key) {
        None => Ok(None),
        Some(JsonValue::Null) => Ok(None),
        Some(JsonValue::Str(s)) => Ok(Some(s)),
        Some(_) => Err(key),
    }
}

/// A fan medal read from an object: `anchor_roomid`, `medal_level`
/// and `medal_name` are required; `guard_level` defaults to 0 when
/// absent.
pub open spec fn s_medal_fields(fs: Seq<(String, JsonValue)>) -> Option<FansMedal> {
    let guard = match spec_obj_get(fs, "guard_level"@) {
        None => Some(0u64),
        Some(JsonValue::UInt(u)) => Some(u),
        Some(_) => None,
    };
    match (s_req_u64(fs, "anchor_roomid"@), s_req_u64(fs, "medal_level"@), s_req_str(
        fs,
        "medal_name"@,
    ), guard) {
        (Ok(anchor_roomid), Ok(medal_level), Ok(medal_name), Some(guard_level)) => Some(
            FansMedal { anchor_roomid, guard_level, medal_level, medal_name },
        ),
        _ => None,
    }
}

/// An optional fan-medal field: absent and `null` are `None`; anything
/// else must be a well-shaped medal object.
pub open spec fn s_opt_medal(fs: Seq<(String, JsonValue)>, key: Seq<char>) -> Result<
    Option<FansMedal>,
    Seq<char>,
> {
    match spec_obj_get(fs, key) {
        None => Ok(None),
        Some(JsonValue::Null) => Ok(None),
        Some(JsonValue::Object(mfs)) => match s_medal_fields(mfs@) {
            Some(m) => Ok(Some(m)),
            None => Err(key),
        },
        Some(_) => Err(key),
    }
}

/// A user read from the fields of the surrounding object itself:
/// `uid`, `uname`, and an optional `face`.
pub open spec fn s_user_flat(fs: Seq<(String, JsonValue)>) -> Result<User, Seq<char>> {
    match s_req_u64(fs, "uid"@) {
        Err(f) => Err(f),
        Ok(uid) => match s_req_str(fs, "uname"@) {
            Err(f) => Err(f),
            Ok(uname) => match s_opt_str(fs, "face"@) {
                Err(f) => Err(f),
                Ok(face) => Ok(User { uid, uname, face }),
            },
        },
    }
}

/// A user read from a nested object under `key`.
pub open spec fn s_user_at(fs: Seq<(String, JsonValue)>, key: Seq<char>) -> Result<
    User,
    Seq<char>,
> {
    match spec_obj_get(fs, key) {
        Some(JsonValue::Object(ufs)) => s_user_flat(ufs@),
        _ => Err(key),
    }
}

/// A super-chat sender block under `key`: `uname` and `face`.
pub open spec fn s_sc_user(fs: Seq<(String, JsonValue)>, key: Seq<char>) -> Result<
    SuperChatUser,
    Seq<char>,
> {
    match spec_obj_get(fs, key) {
        Some(JsonValue::Object(ufs)) => match (s_req_str(ufs@, "uname"@), s_req_str(
            ufs@,
            "face"@,
        )) {
            (Ok(uname), Ok(face)) => Ok(SuperChatUser { uname, face }),
            _ => Err(key),
        },
        _ => Err(key),
    }
}

/// The optional blind-box block under `blind_gift`: absent and `null`
/// are `None`; anything else must hold `gift_action`,
/// `original_gift_id` and `original_gift_name`.
pub open spec fn s_blind(fs: Seq<(String, JsonValue)>) -> Result<
    Option<BlindGiftInfo>,
    Seq<char>,
> {
    match spec_obj_get(fs, "blind_gift"@) {
        None => Ok(None),
        Some(JsonValue::Null) => Ok(None),
        Some(JsonValue::Object(bfs)) => match (s_req_str(bfs@, "gift_action"@), s_req_u64(
            bfs@,
            "original_gift_id"@,
        ), s_req_str(bfs@, "original_gift_name"@)) {
            (Ok(gift_action), Ok(original_gift_id), Ok(original_gift_name)) => Ok(
                Some(BlindGiftInfo { gift_action, original_gift_id, original_gift_name }),
            ),
            _ => Err("blind_gift"@),
        },
        Some(_) => Err("blind_gift"@),
    }
}

/// The coin type under `key`: the string `silver` or `gold`.
pub open spec fn s_coin_type(fs: Seq<(String, JsonValue)>, key: Seq<char>) -> Result<
    CoinType,
    Seq<char>,
> {
    match spec_obj_get(fs, key) {
        Some(JsonValue::Str(s)) => if s@ == "silver"@ {
            Ok(CoinType::Silver)
        } else if s@ == "gold"@ {
            Ok(CoinType::Gold)
        } else {
            Err(key)
        },
        _ => Err(key),
    }
}

/// A run of unsigned numbers: `None` if any entry is not one.
pub open spec fn s_u64_seq(items: Seq<JsonValue>) -> Option<Seq<u64>>
    decreases items.len(),
{
    if items.len() == 0 {
        Some(seq![])
    } else {
        match items[0] {
            JsonValue::UInt(u) => match s_u64_seq(items.drop_first()) {
                Some(rest) => Some(seq![u] + rest),
                None => None,
            },
            _ => None,
        }
    }
}

/// A run of rank-list entries, each an object with `msg` and `rank`:
/// `None` if any entry is not one.
pub open spec fn s_rank_items(items: Seq<JsonValue>) -> Option<Seq<OnlineRankTop3ListItem>>
    decreases items.len(),
{
    if items.len() == 0 {
        Some(seq![])
    } else {
        let head = match items[0] {
            JsonValue::Object(ifs) => match (s_req_str(ifs@, "msg"@), s_req_u64(ifs@, "rank"@)) {
                (Ok(msg), Ok(rank)) => Some(OnlineRankTop3ListItem { msg, rank }),
                _ => None,
            },
            _ => None,
        };
        match head {
            None => None,
            Some(item) => match s_rank_items(items.drop_first()) {
                Some(rest) => Some(seq![item] + rest),
                None => None,
            },
        }
    }
}

// ---------------------------------------------------------------------------
// The grammar, as mathematics
// ---------------------------------------------------------------------------

/// An emoticon as contracts see it: the strings at view level, since
/// absent emoticon attributes default to fresh empty strings.
pub ghost struct EmoticonModel {
    pub unique_id: Seq<char>,
    pub height: u64,
    pub width: u64,
    pub url: Seq<char>,
}

/// The view of an emoticon.
pub open spec fn emoticon_model(e: Emoticon) -> EmoticonModel {
    EmoticonModel { unique_id: e.unique_id@, height: e.height, width: e.width, url: e.url@ }
}

/// The view of an optional emoticon.
pub open spec fn opt_emoticon_model(e: Option<Emoticon>) -> Option<EmoticonModel> {
    match e {
        None => None,
        Some(x) => Some(emoticon_model(x)),
    }
}

/// What the positional `DANMU_MSG` decoder yields.
pub ghost struct DanmuModel {
    pub danmaku_type: u64,
    pub fans_medal: Option<FansMedal>,
    pub user: User,
    pub message: String,
    pub emoticon: Option<EmoticonModel>,
}

/// What parsing a tagged JSON message yields: a command, one of the
/// dedicated forms for commands that allocate (a fresh list, a
/// defaulted emoticon string), an ignored tag, a missing tag, or the
/// field that failed.
pub ghost enum CmdOutcome {
    Parsed(Cmd),
    ParsedStopLive(Seq<u64>),
    ParsedRankTop3(u64, Seq<OnlineRankTop3ListItem>),
    ParsedDanmu(DanmuModel),
    Ignored(Seq<char>),
    Untagged,
    Malformed(Seq<char>),
}

/// Folds a per-variant result into an outcome.
pub open spec fn s_outcome(r: Result<Cmd, Seq<char>>) -> CmdOutcome {
    match r {
        Ok(c) => CmdOutcome::Parsed(c),
        Err(f) => CmdOutcome::Malformed(f),
    }
}

/// The `"data"` object's fields, if the message has one.
pub open spec fn s_data_fields(fs: Seq<(String, JsonValue)>) -> Option<Seq<(String, JsonValue)>> {
    match spec_obj_get(fs, "data"@) {
        Some(JsonValue::Object(dfs)) => Some(dfs@),
        _ => None,
    }
}

/// `COMBO_SEND`: gift combo progress, with a nested `user` object.
pub open spec fn s_p_combo_send(dfs: Seq<(String, JsonValue)>) -> Result<Cmd, Seq<char>> {
    match (s_req_str(dfs, "action"@), s_req_u64(dfs, "batch_combo_num"@), s_req_u64(
        dfs,
        "combo_total_coin"@,
    ), s_req_str(dfs, "gift_name"@), s_req_u64(dfs, "gift_id"@)) {
        (Ok(action), Ok(batch_combo_num), Ok(combo_total_coin), Ok(gift_name), Ok(gift_id)) => {
            match s_user_at(dfs, "user"@) {
                Ok(user) => Ok(
                    Cmd::ComboSend {
                        action,
                        batch_combo_num,
                        combo_total_coin,
                        gift_name,
                        gift_id,
                        user,
                    },
                ),
                Err(f) => Err(f),
            }
        },
        (Err(f), _, _, _, _) => Err(f),
        (_, Err(f), _, _, _) => Err(f),
        (_, _, Err(f), _, _) => Err(f),
        (_, _, _, Err(f), _) => Err(f),
        (_, _, _, _, Err(f)) => Err(f),
    }
}

/// `GUARD_BUY`: a paid-subscription purchase.
pub open spec fn s_p_guard_buy(dfs: Seq<(String, JsonValue)>) -> Result<Cmd, Seq<char>> {
    match (s_req_u64(dfs, "gift_id"@), s_req_str(dfs, "gift_name"@), s_req_u64(
        dfs,
        "guard_level"@,
    ), s_req_u64(dfs, "price"@), s_req_u64(dfs, "num"@), s_req_u64(dfs, "uid"@), s_req_str(
        dfs,
        "username"@,
    )) {
        (Ok(gift_id), Ok(gift_name), Ok(guard_level), Ok(price), Ok(num), Ok(uid), Ok(username)) =>
            Ok(Cmd::GuardBuy { gift_id, gift_name, guard_level, price, num, uid, username }),
        (Err(f), _, _, _, _, _, _) => Err(f),
        (_, Err(f), _, _, _, _, _) => Err(f),
        (_, _, Err(f), _, _, _, _) => Err(f),
        (_, _, _, Err(f), _, _, _) => Err(f),
        (_, _, _, _, Err(f), _, _) => Err(f),
        (_, _, _, _, _, Err(f), _) => Err(f),
        (_, _, _, _, _, _, Err(f)) => Err(f),
    }
}

/// `HOT_RANK_CHANGED_V2`: the room's hot rank moved.
pub open spec fn s_p_hot_rank_changed(dfs: Seq<(String, JsonValue)>) -> Result<Cmd, Seq<char>> {
    match (s_req_str(dfs, "area_name"@), s_req_u64(dfs, "rank"@), s_req_str(dfs, "rank_desc"@)) {
        (Ok(area_name), Ok(rank), Ok(rank_desc)) => Ok(
            Cmd::HotRankChangedV2 { area_name, rank, rank_desc },
        ),
        (Err(f), _, _) => Err(f),
        (_, Err(f), _) => Err(f),
        (_, _, Err(f)) => Err(f),
    }
}

/// `HOT_RANK_SETTLEMENT_V2`: a hot-rank settlement notice.
pub open spec fn s_p_hot_rank_settlement(dfs: Seq<(String, JsonValue)>) -> Result<
    Cmd,
    Seq<char>,
> {
    match (s_req_str(dfs, "area_name"@), s_req_u64(dfs, "rank"@), s_req_str(dfs, "uname"@),
    s_req_str(dfs, "face"@)) {
        (Ok(area_name), Ok(rank), Ok(uname), Ok(face)) => Ok(
            Cmd::HotRankSettlementV2 { area_name, rank, uname, face },
        ),
        (Err(f), _, _, _) => Err(f),
        (_, Err(f), _, _) => Err(f),
        (_, _, Err(f), _) => Err(f),
        (_, _, _, Err(f)) => Err(f),
    }
}

/// `ONLINE_RANK_TOP3`: the top-three list, at view level since the
/// list is freshly allocated.
pub open spec fn s_p_rank_top3(dfs: Seq<(String, JsonValue)>) -> Result<
    (u64, Seq<OnlineRankTop3ListItem>),
    Seq<char>,
> {
    match s_req_u64(dfs, "dmscore"@) {
        Err(f) => Err(f),
        Ok(dmscore) => match spec_obj_get(dfs, "list"@) {
            Some(JsonValue::Array(items)) => match s_rank_items(items@) {
                Some(list) => Ok((dmscore, list)),
                None => Err("list"@),
            },
            _ => Err("list"@),
        },
    }
}

/// `ROOM_REAL_TIME_MESSAGE_UPDATE`: fan counters.
pub open spec fn s_p_room_update(dfs: Seq<(String, JsonValue)>) -> Result<Cmd, Seq<char>> {
    match (s_req_u64(dfs, "fans"@), s_req_u64(dfs, "fans_club"@), s_req_i64(dfs, "red_notice"@),
    s_req_u64(dfs, "roomid"@)) {
        (Ok(fans), Ok(fans_club), Ok(red_notice), Ok(roomid)) => Ok(
            Cmd::RoomRealTimeMessageUpdate { fans, fans_club, red_notice, roomid },
        ),
        (Err(f), _, _, _) => Err(f),
        (_, Err(f), _, _) => Err(f),
        (_, _, Err(f), _) => Err(f),
        (_, _, _, Err(f)) => Err(f),
    }
}

/// `STOP_LIVE_ROOM_LIST`: the room ids, at view level since the list
/// is freshly allocated.
pub open spec fn s_p_stop_live(dfs: Seq<(String, JsonValue)>) -> Result<Seq<u64>, Seq<char>> {
    match spec_obj_get(dfs, "room_id_list"@) {
        Some(JsonValue::Array(items)) => match s_u64_seq(items@) {
            Some(ids) => Ok(ids),
            None => Err("room_id_list"@),
        },
        _ => Err("room_id_list"@),
    }
}

/// `INTERACT_WORD`: a room-enter notice, the user's fields flattened
/// into the data object.
pub open spec fn s_p_interact_word(dfs: Seq<(String, JsonValue)>) -> Result<Cmd, Seq<char>> {
    match s_opt_medal(dfs, "fans_medal"@) {
        Err(f) => Err(f),
        Ok(fans_medal) => match s_user_flat(dfs) {
            Err(f) => Err(f),
            Ok(user) => Ok(Cmd::InteractWord { fans_medal, user }),
        },
    }
}

/// `WATCHED_CHANGE`: the watched counter.
pub open spec fn s_p_watched_change(dfs: Seq<(String, JsonValue)>) -> Result<Cmd, Seq<char>> {
    match s_req_u64(dfs, "num"@) {
        Ok(num) => Ok(Cmd::WatchedChange { num }),
        Err(f) => Err(f),
    }
}

/// `ONLINE_RANK_COUNT`: the online-rank counter.
pub open spec fn s_p_rank_count(dfs: Seq<(String, JsonValue)>) -> Result<Cmd, Seq<char>> {
    match s_req_u64(dfs, "count"@) {
        Ok(count) => Ok(Cmd::OnlineRankCount { count }),
        Err(f) => Err(f),
    }
}

/// `SEND_GIFT`: a gift purchase, the user's fields flattened, with
/// the optional blind-box block.
pub open spec fn s_p_send_gift(dfs: Seq<(String, JsonValue)>) -> Result<Cmd, Seq<char>> {
    match (s_req_str(dfs, "action"@), s_user_flat(dfs), s_opt_medal(dfs, "medal_info"@)) {
        (Ok(action), Ok(user), Ok(medal_info)) => {
            match (s_req_str(dfs, "giftName"@), s_req_u64(dfs, "giftId"@), s_req_u64(dfs, "num"@),
            s_req_u64(dfs, "price"@)) {
                (Ok(gift_name), Ok(gift_id), Ok(num), Ok(price)) => {
                    match (s_coin_type(dfs, "coin_type"@), s_req_u64(dfs, "total_coin"@), s_blind(
                        dfs,
                    )) {
                        (Ok(coin_type), Ok(total_coin), Ok(blind_gift)) => Ok(
                            Cmd::SendGift {
                                action,
                                user,
                                medal_info,
                                gift_name,
                                gift_id,
                                num,
                                price,
                                coin_type,
                                total_coin,
                                blind_gift,
                            },
                        ),
                        (Err(f), _, _) => Err(f),
                        (_, Err(f), _) => Err(f),
                        (_, _, Err(f)) => Err(f),
                    }
                },
                (Err(f), _, _, _) => Err(f),
                (_, Err(f), _, _) => Err(f),
                (_, _, Err(f), _) => Err(f),
                (_, _, _, Err(f)) => Err(f),
            }
        },
        (Err(f), _, _) => Err(f),
        (_, Err(f), _) => Err(f),
        (_, _, Err(f)) => Err(f),
    }
}

/// `SUPER_CHAT_MESSAGE`: a paid highlighted message.
pub open spec fn s_p_super_chat(dfs: Seq<(String, JsonValue)>) -> Result<Cmd, Seq<char>> {
    match (s_opt_medal(dfs, "medal_info"@), s_req_str(dfs, "message"@), s_req_u64(dfs, "price"@),
    s_req_u64(dfs, "uid"@), s_sc_user(dfs, "user_info"@)) {
        (Ok(medal_info), Ok(message), Ok(price), Ok(uid), Ok(user_info)) => Ok(
            Cmd::SuperChatMessage { medal_info, message, price, uid, user_info },
        ),
        (Err(f), _, _, _, _) => Err(f),
        (_, Err(f), _, _, _) => Err(f),
        (_, _, Err(f), _, _) => Err(f),
        (_, _, _, Err(f), _) => Err(f),
        (_, _, _, _, Err(f)) => Err(f),
    }
}

/// `SUPER_CHAT_MESSAGE_JPN`: the variant with a Japanese translation.
pub open spec fn s_p_super_chat_jpn(dfs: Seq<(String, JsonValue)>) -> Result<Cmd, Seq<char>> {
    match (s_opt_medal(dfs, "medal_info"@), s_req_str(dfs, "message"@), s_req_str(
        dfs,
        "message_jpn"@,
    ), s_req_u64(dfs, "price"@), s_req_u64(dfs, "uid"@), s_sc_user(dfs, "user_info"@)) {
        (Ok(medal_info), Ok(message), Ok(message_jpn), Ok(price), Ok(uid), Ok(user_info)) => Ok(
            Cmd::SuperChatMessageJpn { medal_info, message, message_jpn, price, uid, user_info },
        ),
        (Err(f), _, _, _, _, _) => Err(f),
        (_, Err(f), _, _, _, _) => Err(f),
        (_, _, Err(f), _, _, _) => Err(f),
        (_, _, _, Err(f), _, _) => Err(f),
        (_, _, _, _, Err(f), _) => Err(f),
        (_, _, _, _, _, Err(f)) => Err(f),
    }
}

/// The `DANMU_MSG` positional decoder: message text at index 1 of
/// `info`; sender id and name at index 2; the fan-medal quad at index
/// 3, all four slots required for a medal to be present; the
/// danmaku-type flag at index 10 of index 0; the optional emoticon
/// object at index 13 of index 0, its attributes defaulting when
/// absent. Missing or mistyped required slots are a
/// protocol-compatibility fault named after the offset.
pub open spec fn s_p_danmu(fs: Seq<(String, JsonValue)>) -> Result<DanmuModel, Seq<char>> {
    match spec_obj_get(fs, "info"@) {
        Some(JsonValue::Array(info)) => {
            let infos = info@;
            match (s_arr_str(infos, 1), s_idx_arr(infos, 2), s_idx_arr(infos, 0)) {
                (Some(message), Some(user), Some(zero)) => {
                    match (s_arr_u64(user, 0), s_arr_str(user, 1), s_arr_u64(zero, 10)) {
                        (Some(uid), Some(name), Some(danmaku_type)) => Ok(
                            DanmuModel {
                                danmaku_type,
                                fans_medal: s_danmu_medal(s_at(infos, 3)),
                                user: User { uid, uname: name, face: None },
                                message,
                                emoticon: s_danmu_emoticon(s_at(zero, 13)),
                            },
                        ),
                        (None, _, _) => Err("info[2][0]"@),
                        (_, None, _) => Err("info[2][1]"@),
                        (_, _, None) => Err("info[0][10]"@),
                    }
                },
                (None, _, _) => Err("info[1]"@),
                (_, None, _) => Err("info[2]"@),
                (_, _, None) => Err("info[0]"@),
            }
        },
        _ => Err("info"@),
    }
}

/// The element of a run at `i`, `null` out of bounds.
pub open spec fn s_at(items: Seq<JsonValue>, i: int) -> JsonValue {
    if 0 <= i < items.len() {
        items[i]
    } else {
        JsonValue::Null
    }
}

/// The string at `i`, if there is one.
pub open spec fn s_arr_str(items: Seq<JsonValue>, i: int) -> Option<String> {
    match s_at(items, i) {
        JsonValue::Str(s) => Some(s),
        _ => None,
    }
}

/// The number at `i`, if there is one.
pub open spec fn s_arr_u64(items: Seq<JsonValue>, i: int) -> Option<u64> {
    match s_at(items, i) {
        JsonValue::UInt(u) => Some(u),
        _ => None,
    }
}

/// The array at `i`, if there is one.
pub open spec fn s_idx_arr(items: Seq<JsonValue>, i: int) -> Option<Seq<JsonValue>> {
    match s_at(items, i) {
        JsonValue::Array(a) => Some(a@),
        _ => None,
    }
}

/// The medal quad of a `DANMU_MSG`: level at 0, name at 1, the
/// medal's room at 3, the guard tier at 10; all four present yields a
/// medal, anything else none.
pub open spec fn s_danmu_medal(fm: JsonValue) -> Option<FansMedal> {
    match fm {
        JsonValue::Array(items) => {
            match (s_arr_u64(items@, 0), s_arr_str(items@, 1), s_arr_u64(items@, 3), s_arr_u64(
                items@,
                10,
            )) {
                (Some(medal_level), Some(medal_name), Some(anchor_roomid), Some(guard_level)) =>
                    Some(FansMedal { anchor_roomid, guard_level, medal_level, medal_name }),
                _ => None,
            }
        },
        _ => None,
    }
}

/// The emoticon object of a `DANMU_MSG`, when index 13 of index 0 is
/// an object: each attribute defaults when absent or mistyped.
pub open spec fn s_danmu_emoticon(v: JsonValue) -> Option<EmoticonModel> {
    match v {
        JsonValue::Object(efs) => Some(
            EmoticonModel {
                unique_id: (match spec_obj_get(efs@, "emoticon_unique"@) {
                    Some(JsonValue::Str(s)) => s@,
                    _ => Seq::empty(),
                }),
                height: (match spec_obj_get(efs@, "height"@) {
                    Some(JsonValue::UInt(u)) => u,
                    _ => 0u64,
                }),
                width: (match spec_obj_get(efs@, "width"@) {
                    Some(JsonValue::UInt(u)) => u,
                    _ => 0u64,
                }),
                url: (match spec_obj_get(efs@, "url"@) {
                    Some(JsonValue::Str(s)) => s@,
                    _ => Seq::empty(),
                }),
            },
        ),
        _ => None,
    }
}

/// Whether the tag is on the fixed ignore list.
pub open spec fn s_ignored_tag(tag: Seq<char>) -> bool {
    ||| tag == "NOTICE_MSG"@
    ||| tag == "WIDGET_BANNER"@
    ||| tag == "HOT_RANK_CHANGED"@
    ||| tag == "HOT_RANK_SETTLEMENT"@
}

/// The recognized commands that carry nothing: their tag alone makes
/// the command, whether or not a `data` object came along.
pub open spec fn s_empty_cmd(tag: Seq<char>) -> Option<Cmd> {
    if tag == "COMMON_NOTICE_DANMAKU"@ {
        Some(Cmd::CommonNoticeDanmaku {  })
    } else if tag == "ENTRY_EFFECT"@ {
        Some(Cmd::EntryEffect {  })
    } else if tag == "HOT_BUY_NUM"@ {
        Some(Cmd::HotBuyNum {  })
    } else if tag == "LIVE_INTERACTIVE_GAME"@ {
        Some(Cmd::LiveInteractiveGame {  })
    } else if tag == "ONLINE_RANK_V2"@ {
        Some(Cmd::OnlineRankV2 {  })
    } else if tag == "POPULARITY_RED_POCKET_START"@ {
        Some(Cmd::PopularityRedPocketStart {  })
    } else if tag == "USER_TOAST_MSG"@ {
        Some(Cmd::UserToastMsg {  })
    } else {
        None
    }
}

/// Dispatch on a message's tag, the `"data"` fields extracted for the
/// keyed shapes.
pub open spec fn s_dispatch(fs: Seq<(String, JsonValue)>, tag: Seq<char>) -> CmdOutcome {
    if s_ignored_tag(tag) {
        CmdOutcome::Ignored(tag)
    } else if tag == "DANMU_MSG"@ {
        match s_p_danmu(fs) {
            Ok(m) => CmdOutcome::ParsedDanmu(m),
            Err(f) => CmdOutcome::Malformed(f),
        }
    } else if s_empty_cmd(tag) is Some {
        CmdOutcome::Parsed(s_empty_cmd(tag)->Some_0)
    } else if tag == "STOP_LIVE_ROOM_LIST"@ {
        match s_data_fields(fs) {
            None => CmdOutcome::Malformed("data"@),
            Some(dfs) => match s_p_stop_live(dfs) {
                Ok(ids) => CmdOutcome::ParsedStopLive(ids),
                Err(f) => CmdOutcome::Malformed(f),
            },
        }
    } else if tag == "ONLINE_RANK_TOP3"@ {
        match s_data_fields(fs) {
            None => CmdOutcome::Malformed("data"@),
            Some(dfs) => match s_p_rank_top3(dfs) {
                Ok((dmscore, list)) => CmdOutcome::ParsedRankTop3(dmscore, list),
                Err(f) => CmdOutcome::Malformed(f),
            },
        }
    } else if s_keyed_tag(tag) {
        match s_data_fields(fs) {
            None => CmdOutcome::Malformed("data"@),
            Some(dfs) => if tag == "COMBO_SEND"@ {
                s_outcome(s_p_combo_send(dfs))
            } else if tag == "GUARD_BUY"@ {
                s_outcome(s_p_guard_buy(dfs))
            } else if tag == "HOT_RANK_CHANGED_V2"@ {
                s_outcome(s_p_hot_rank_changed(dfs))
            } else if tag == "HOT_RANK_SETTLEMENT_V2"@ {
                s_outcome(s_p_hot_rank_settlement(dfs))
            } else if tag == "ROOM_REAL_TIME_MESSAGE_UPDATE"@ {
                s_outcome(s_p_room_update(dfs))
            } else if tag == "INTERACT_WORD"@ {
                s_outcome(s_p_interact_word(dfs))
            } else if tag == "WATCHED_CHANGE"@ {
                s_outcome(s_p_watched_change(dfs))
            } else if tag == "ONLINE_RANK_COUNT"@ {
                s_outcome(s_p_rank_count(dfs))
            } else if tag == "SEND_GIFT"@ {
                s_outcome(s_p_send_gift(dfs))
            } else if tag == "SUPER_CHAT_MESSAGE"@ {
                s_outcome(s_p_super_chat(dfs))
            } else {
                s_outcome(s_p_super_chat_jpn(dfs))
            },
        }
    } else {
        CmdOutcome::Malformed("cmd"@)
    }
}

/// The tags decoded against a keyed `"data"` object.
pub open spec fn s_keyed_tag(tag: Seq<char>) -> bool {
    ||| tag == "COMBO_SEND"@
    ||| tag == "GUARD_BUY"@
    ||| tag == "HOT_RANK_CHANGED_V2"@
    ||| tag == "HOT_RANK_SETTLEMENT_V2"@
    ||| tag == "ROOM_REAL_TIME_MESSAGE_UPDATE"@
    ||| tag == "INTERACT_WORD"@
    ||| tag == "WATCHED_CHANGE"@
    ||| tag == "ONLINE_RANK_COUNT"@
    ||| tag == "SEND_GIFT"@
    ||| tag == "SUPER_CHAT_MESSAGE"@
    ||| tag == "SUPER_CHAT_MESSAGE_JPN"@
}

/// What parsing a JSON message yields: `Untagged` without a string
/// `"cmd"` field, otherwise the dispatch on that tag.
pub open spec fn spec_cmd_deser(val: JsonValue) -> CmdOutcome {
    match val {
        JsonValue::Object(fields) => match spec_obj_get(fields@, "cmd"@) {
            Some(JsonValue::Str(tag)) => s_dispatch(fields@, tag@),
            _ => CmdOutcome::Untagged,
        },
        _ => CmdOutcome::Untagged,
    }
}

// ---------------------------------------------------------------------------
// Field readers
// ---------------------------------------------------------------------------

fn take_req_u64(fs: &Vec<(String, JsonValue)>, key: &str) -> (r: Result<u64, String>)
    ensures
        match r {
            Ok(u) => s_req_u64(fs@, key@) == Ok::<u64, Seq<char>>(u),
            Err(e) => s_req_u64(fs@, key@) == Err::<u64, Seq<char>>(e@),
        },
{
    match obj_get(fs, key) {
        Some(JsonValue::UInt(u)) => Ok(*u),
        _ => Err(key.to_owned()),
    }
}

fn take_req_i64(fs: &Vec<(String, JsonValue)>, key: &str) -> (r: Result<i64, String>)
    ensures
        match r {
            Ok(u) => s_req_i64(fs@, key@) == Ok::<i64, Seq<char>>(u),
            Err(e) => s_req_i64(fs@, key@) == Err::<i64, Seq<char>>(e@),
        },
{
    match obj_get(fs, key) {
        Some(JsonValue::UInt(u)) => if *u <= 0x7fff_ffff_ffff_ffffu64 {
            Ok(*u as i64)
        } else {
            Err(key.to_owned())
        },
        Some(JsonValue::NegInt(i)) => Ok(*i),
        _ => Err(key.to_owned()),
    }
}

fn take_req_str(fs: &Vec<(String, JsonValue)>, key: &str) -> (r: Result<String, String>)
    ensures
        match r {
            Ok(s) => s_req_str(fs@, key@) == Ok::<String, Seq<char>>(s),
            Err(e) => s_req_str(fs@, key@) == Err::<String, Seq<char>>(e@),
        },
{
    match obj_get(fs, key) {
        Some(JsonValue::Str(s)) => Ok(s.clone()),
        _ => Err(key.to_owned()),
    }
}

fn take_opt_str(fs: &Vec<(String, JsonValue)>, key: &str) -> (r: Result<Option<String>, String>)
    ensures
        match r {
            Ok(s) => s_opt_str(fs@, key@) == Ok::<Option<String>, Seq<char>>(s),
            Err(e) => s_opt_str(fs@, key@) == Err::<Option<String>, Seq<char>>(e@),
        },
{
    match obj_get(fs, key) {
        None => Ok(None),
        Some(JsonValue::Null) => Ok(None),
        Some(JsonValue::Str(s)) => Ok(Some(s.clone())),
        Some(_) => Err(key.to_owned()),
    }
}

fn parse_medal_fields(fs: &Vec<(String, JsonValue)>) -> (r: Option<FansMedal>)
    ensures
        r == s_medal_fields(fs@),
{
    let guard_level = match obj_get(fs, "guard_level") {
        None => 0u64,
        Some(JsonValue::UInt(u)) => *u,
        Some(_) => {
            return None;
        },
    };
    let anchor_roomid = match take_req_u64(fs, "anchor_roomid") {
        Ok(v) => v,
        Err(_) => {
            return None;
        },
    };
    let medal_level = match take_req_u64(fs, "medal_level") {
        Ok(v) => v,
        Err(_) => {
            return None;
        },
    };
    let medal_name = match take_req_str(fs, "medal_name") {
        Ok(v) => v,
        Err(_) => {
            return None;
        },
    };
    Some(FansMedal { anchor_roomid, guard_level, medal_level, medal_name })
}

fn take_opt_medal(fs: &Vec<(String, JsonValue)>, key: &str) -> (r: Result<
    Option<FansMedal>,
    String,
>)
    ensures
        match r {
            Ok(m) => s_opt_medal(fs@, key@) == Ok::<Option<FansMedal>, Seq<char>>(m),
            Err(e) => s_opt_medal(fs@, key@) == Err::<Option<FansMedal>, Seq<char>>(e@),
        },
{
    match obj_get(fs, key) {
        None => Ok(None),
        Some(JsonValue::Null) => Ok(None),
        Some(JsonValue::Object(mfs)) => match parse_medal_fields(mfs) {
            Some(m) => Ok(Some(m)),
            None => Err(key.to_owned()),
        },
        Some(_) => Err(key.to_owned()),
    }
}

fn take_user_flat(fs: &Vec<(String, JsonValue)>) -> (r: Result<User, String>)
    ensures
        match r {
            Ok(u) => s_user_flat(fs@) == Ok::<User, Seq<char>>(u),
            Err(e) => s_user_flat(fs@) == Err::<User, Seq<char>>(e@),
        },
{
    let uid = match take_req_u64(fs, "uid") {
        Ok(v) => v,
        Err(e) => {
            return Err(e);
        },
    };
    let uname = match take_req_str(fs, "uname") {
        Ok(v) => v,
        Err(e) => {
            return Err(e);
        },
    };
    let face = match take_opt_str(fs, "face") {
        Ok(v) => v,
        Err(e) => {
            return Err(e);
        },
    };
    Ok(User { uid, uname, face })
}

fn take_user_at(fs: &Vec<(String, JsonValue)>, key: &str) -> (r: Result<User, String>)
    ensures
        match r {
            Ok(u) => s_user_at(fs@, key@) == Ok::<User, Seq<char>>(u),
            Err(e) => s_user_at(fs@, key@) == Err::<User, Seq<char>>(e@),
        },
{
    match obj_get(fs, key) {
        Some(JsonValue::Object(ufs)) => take_user_flat(ufs),
        _ => Err(key.to_owned()),
    }
}

fn take_sc_user(fs: &Vec<(String, JsonValue)>, key: &str) -> (r: Result<SuperChatUser, String>)
    ensures
        match r {
            Ok(u) => s_sc_user(fs@, key@) == Ok::<SuperChatUser, Seq<char>>(u),
            Err(e) => s_sc_user(fs@, key@) == Err::<SuperChatUser, Seq<char>>(e@),
        },
{
    match obj_get(fs, key) {
        Some(JsonValue::Object(ufs)) => {
            let uname = match take_req_str(ufs, "uname") {
                Ok(v) => v,
                Err(_) => {
                    return Err(key.to_owned());
                },
            };
            let face = match take_req_str(ufs, "face") {
                Ok(v) => v,
                Err(_) => {
                    return Err(key.to_owned());
                },
            };
            Ok(SuperChatUser { uname, face })
        },
        _ => Err(key.to_owned()),
    }
}

fn take_blind(fs: &Vec<(String, JsonValue)>) -> (r: Result<Option<BlindGiftInfo>, String>)
    ensures
        match r {
            Ok(b) => s_blind(fs@) == Ok::<Option<BlindGiftInfo>, Seq<char>>(b),
            Err(e) => s_blind(fs@) == Err::<Option<BlindGiftInfo>, Seq<char>>(e@),
        },
{
    match obj_get(fs, "blind_gift") {
        None => Ok(None),
        Some(JsonValue::Null) => Ok(None),
        Some(JsonValue::Object(bfs)) => {
            let gift_action = match take_req_str(bfs, "gift_action") {
                Ok(v) => v,
                Err(_) => {
                    return Err("blind_gift".to_owned());
                },
            };
            let original_gift_id = match take_req_u64(bfs, "original_gift_id") {
                Ok(v) => v,
                Err(_) => {
                    return Err("blind_gift".to_owned());
                },
            };
            let original_gift_name = match take_req_str(bfs, "original_gift_name") {
                Ok(v) => v,
                Err(_) => {
                    return Err("blind_gift".to_owned());
                },
            };
            Ok(Some(BlindGiftInfo { gift_action, original_gift_id, original_gift_name }))
        },
        Some(_) => Err("blind_gift".to_owned()),
    }
}

fn take_coin_type(fs: &Vec<(String, JsonValue)>, key: &str) -> (r: Result<CoinType, String>)
    ensures
        match r {
            Ok(c) => s_coin_type(fs@, key@) == Ok::<CoinType, Seq<char>>(c),
            Err(e) => s_coin_type(fs@, key@) == Err::<CoinType, Seq<char>>(e@),
        },
{
    match obj_get(fs, key) {
        Some(JsonValue::Str(s)) => {
            if str_eq(s.as_str(), "silver") {
                Ok(CoinType::Silver)
            } else if str_eq(s.as_str(), "gold") {
                Ok(CoinType::Gold)
            } else {
                Err(key.to_owned())
            }
        },
        _ => Err(key.to_owned()),
    }
}

fn parse_u64_items(items: &Vec<JsonValue>) -> (r: Option<Vec<u64>>)
    ensures
        match r {
            Some(v) => s_u64_seq(items@) == Some(v@),
            None => s_u64_seq(items@) is None,
        },
{
    let mut out: Vec<u64> = Vec::new();
    let n = items.len();
    let mut i: usize = 0;
    proof {
        assert(items@.skip(0) =~= items@);
    }
    while i < n
        invariant
            n == items@.len(),
            i <= n,
            (match s_u64_seq(items@.skip(i as int)) {
                Some(rest) => s_u64_seq(items@) == Some(out@ + rest),
                None => s_u64_seq(items@) is None,
            }),
        decreases n - i,
    {
        proof {
            let tail = items@.skip(i as int);
            assert(tail[0] == items@[i as int]);
            assert(tail.drop_first() =~= items@.skip(i + 1));
        }
        match &items[i] {
            JsonValue::UInt(u) => {
                out.push(*u);
                proof {
                    match s_u64_seq(items@.skip(i + 1)) {
                        Some(rest) => {
                            assert(out@ + rest =~= out@.drop_last() + (seq![items@[i as int]->UInt_0]
                                + rest));
                        },
                        None => {},
                    }
                }
            },
            _ => {
                return None;
            },
        }
        i = i + 1;
    }
    proof {
        assert(items@.skip(n as int) =~= Seq::<JsonValue>::empty());
        assert(out@ + Seq::<u64>::empty() =~= out@);
    }
    Some(out)
}

fn parse_rank_items(items: &Vec<JsonValue>) -> (r: Option<Vec<OnlineRankTop3ListItem>>)
    ensures
        match r {
            Some(v) => s_rank_items(items@) == Some(v@),
            None => s_rank_items(items@) is None,
        },
{
    let mut out: Vec<OnlineRankTop3ListItem> = Vec::new();
    let n = items.len();
    let mut i: usize = 0;
    proof {
        assert(items@.skip(0) =~= items@);
    }
    while i < n
        invariant
            n == items@.len(),
            i <= n,
            (match s_rank_items(items@.skip(i as int)) {
                Some(rest) => s_rank_items(items@) == Some(out@ + rest),
                None => s_rank_items(items@) is None,
            }),
        decreases n - i,
    {
        proof {
            let tail = items@.skip(i as int);
            assert(tail[0] == items@[i as int]);
            assert(tail.drop_first() =~= items@.skip(i + 1));
        }
        let item = match &items[i] {
            JsonValue::Object(ifs) => {
                let msg = match take_req_str(ifs, "msg") {
                    Ok(v) => v,
                    Err(_) => {
                        return None;
                    },
                };
                let rank = match take_req_u64(ifs, "rank") {
                    Ok(v) => v,
                    Err(_) => {
                        return None;
                    },
                };
                OnlineRankTop3ListItem { msg, rank }
            },
            _ => {
                return None;
            },
        };
        let ghost prev = out@;
        out.push(item);
        proof {
            match s_rank_items(items@.skip(i + 1)) {
                Some(rest) => {
                    assert(out@ + rest =~= prev + (seq![item] + rest));
                },
                None => {},
            }
        }
        i = i + 1;
    }
    proof {
        assert(items@.skip(n as int) =~= Seq::<JsonValue>::empty());
        assert(out@ + Seq::<OnlineRankTop3ListItem>::empty() =~= out@);
    }
    Some(out)
}

// ---------------------------------------------------------------------------
// Per-variant parsers
// ---------------------------------------------------------------------------

fn p_combo_send(dfs: &Vec<(String, JsonValue)>) -> (r: Result<Cmd, String>)
    ensures
        match r {
            Ok(c) => s_p_combo_send(dfs@) == Ok::<Cmd, Seq<char>>(c),
            Err(e) => s_p_combo_send(dfs@) == Err::<Cmd, Seq<char>>(e@),
        },
{
    let action = match take_req_str(dfs, "action") {
        Ok(v) => v,
        Err(e) => {
            return Err(e);
        },
    };
    let batch_combo_num = match take_req_u64(dfs, "batch_combo_num") {
        Ok(v) => v,
        Err(e) => {
            return Err(e);
        },
    };
    let combo_total_coin = match take_req_u64(dfs, "combo_total_coin") {
        Ok(v) => v,
        Err(e) => {
            return Err(e);
        },
    };
    let gift_name = match take_req_str(dfs, "gift_name") {
        Ok(v) => v,
        Err(e) => {
            return Err(e);
        },
    };
    let gift_id = match take_req_u64(dfs, "gift_id") {
        Ok(v) => v,
        Err(e) => {
            return Err(e);
        },
    };
    let user = match take_user_at(dfs, "user") {
        Ok(v) => v,
        Err(e) => {
            return Err(e);
        },
    };
    Ok(Cmd::ComboSend { action, batch_combo_num, combo_total_coin, gift_name, gift_id, user })
}

fn p_guard_buy(dfs: &Vec<(String, JsonValue)>) -> (r: Result<Cmd, String>)
    ensures
        match r {
            Ok(c) => s_p_guard_buy(dfs@) == Ok::<Cmd, Seq<char>>(c),
            Err(e) => s_p_guard_buy(dfs@) == Err::<Cmd, Seq<char>>(e@),
        },
{
    let gift_id = match take_req_u64(dfs, "gift_id") {
        Ok(v) => v,
        Err(e) => {
            return Err(e);
        },
    };
    let gift_name = match take_req_str(dfs, "gift_name") {
        Ok(v) => v,
        Err(e) => {
            return Err(e);
        },
    };
    let guard_level = match take_req_u64(dfs, "guard_level") {
        Ok(v) => v,
        Err(e) => {
            return Err(e);
        },
    };
    let price = match take_req_u64(dfs, "price") {
        Ok(v) => v,
        Err(e) => {
            return Err(e);
        },
    };
    let num = match take_req_u64(dfs, "num") {
        Ok(v) => v,
        Err(e) => {
            return Err(e);
        },
    };
    let uid = match take_req_u64(dfs, "uid") {
        Ok(v) => v,
        Err(e) => {
            return Err(e);
        },
    };
    let username = match take_req_str(dfs, "username") {
        Ok(v) => v,
        Err(e) => {
            return Err(e);
        },
    };
    Ok(Cmd::GuardBuy { gift_id, gift_name, guard_level, price, num, uid, username })
}

fn p_hot_rank_changed(dfs: &Vec<(String, JsonValue)>) -> (r: Result<Cmd, String>)
    ensures
        match r {
            Ok(c) => s_p_hot_rank_changed(dfs@) == Ok::<Cmd, Seq<char>>(c),
            Err(e) => s_p_hot_rank_changed(dfs@) == Err::<Cmd, Seq<char>>(e@),
        },
{
    let area_name = match take_req_str(dfs, "area_name") {
        Ok(v) => v,
        Err(e) => {
            return Err(e);
        },
    };
    let rank = match take_req_u64(dfs, "rank") {
        Ok(v) => v,
        Err(e) => {
            return Err(e);
        },
    };
    let rank_desc = match take_req_str(dfs, "rank_desc") {
        Ok(v) => v,
        Err(e) => {
            return Err(e);
        },
    };
    Ok(Cmd::HotRankChangedV2 { area_name, rank, rank_desc })
}

fn p_hot_rank_settlement(dfs: &Vec<(String, JsonValue)>) -> (r: Result<Cmd, String>)
    ensures
        match r {
            Ok(c) => s_p_hot_rank_settlement(dfs@) == Ok::<Cmd, Seq<char>>(c),
            Err(e) => s_p_hot_rank_settlement(dfs@) == Err::<Cmd, Seq<char>>(e@),
        },
{
    let area_name = match take_req_str(dfs, "area_name") {
        Ok(v) => v,
        Err(e) => {
            return Err(e);
        },
    };
    let rank = match take_req_u64(dfs, "rank") {
        Ok(v) => v,
        Err(e) => {
            return Err(e);
        },
    };
    let uname = match take_req_str(dfs, "uname") {
        Ok(v) => v,
        Err(e) => {
            return Err(e);
        },
    };
    let face = match take_req_str(dfs, "face") {
        Ok(v) => v,
        Err(e) => {
            return Err(e);
        },
    };
    Ok(Cmd::HotRankSettlementV2 { area_name, rank, uname, face })
}

fn p_rank_top3(dfs: &Vec<(String, JsonValue)>) -> (r: Result<Cmd, String>)
    ensures
        match r {
            Ok(c) => c matches Cmd::OnlineRankTop3 { dmscore, list } && s_p_rank_top3(dfs@)
                == Ok::<(u64, Seq<OnlineRankTop3ListItem>), Seq<char>>((dmscore, list@)),
            Err(e) => s_p_rank_top3(dfs@) == Err::<(u64, Seq<OnlineRankTop3ListItem>), Seq<char>>(
                e@,
            ),
        },
{
    let dmscore = match take_req_u64(dfs, "dmscore") {
        Ok(v) => v,
        Err(e) => {
            return Err(e);
        },
    };
    match obj_get(dfs, "list") {
        Some(JsonValue::Array(items)) => match parse_rank_items(items) {
            Some(list) => Ok(Cmd::OnlineRankTop3 { dmscore, list }),
            None => Err("list".to_owned()),
        },
        _ => Err("list".to_owned()),
    }
}

fn p_room_update(dfs: &Vec<(String, JsonValue)>) -> (r: Result<Cmd, String>)
    ensures
        match r {
            Ok(c) => s_p_room_update(dfs@) == Ok::<Cmd, Seq<char>>(c),
            Err(e) => s_p_room_update(dfs@) == Err::<Cmd, Seq<char>>(e@),
        },
{
    let fans = match take_req_u64(dfs, "fans") {
        Ok(v) => v,
        Err(e) => {
            return Err(e);
        },
    };
    let fans_club = match take_req_u64(dfs, "fans_club") {
        Ok(v) => v,
        Err(e) => {
            return Err(e);
        },
    };
    let red_notice = match take_req_i64(dfs, "red_notice") {
        Ok(v) => v,
        Err(e) => {
            return Err(e);
        },
    };
    let roomid = match take_req_u64(dfs, "roomid") {
        Ok(v) => v,
        Err(e) => {
            return Err(e);
        },
    };
    Ok(Cmd::RoomRealTimeMessageUpdate { fans, fans_club, red_notice, roomid })
}

fn p_stop_live(dfs: &Vec<(String, JsonValue)>) -> (r: Result<Cmd, String>)
    ensures
        match r {
            Ok(c) => c matches Cmd::StopLiveRoomList { room_id_list } && s_p_stop_live(dfs@)
                == Ok::<Seq<u64>, Seq<char>>(room_id_list@),
            Err(e) => s_p_stop_live(dfs@) == Err::<Seq<u64>, Seq<char>>(e@),
        },
{
    match obj_get(dfs, "room_id_list") {
        Some(JsonValue::Array(items)) => match parse_u64_items(items) {
            Some(room_id_list) => Ok(Cmd::StopLiveRoomList { room_id_list }),
            None => Err("room_id_list".to_owned()),
        },
        _ => Err("room_id_list".to_owned()),
    }
}

fn p_interact_word(dfs: &Vec<(String, JsonValue)>) -> (r: Result<Cmd, String>)
    ensures
        match r {
            Ok(c) => s_p_interact_word(dfs@) == Ok::<Cmd, Seq<char>>(c),
            Err(e) => s_p_interact_word(dfs@) == Err::<Cmd, Seq<char>>(e@),
        },
{
    let fans_medal = match take_opt_medal(dfs, "fans_medal") {
        Ok(v) => v,
        Err(e) => {
            return Err(e);
        },
    };
    let user = match take_user_flat(dfs) {
        Ok(v) => v,
        Err(e) => {
            return Err(e);
        },
    };
    Ok(Cmd::InteractWord { fans_medal, user })
}

fn p_watched_change(dfs: &Vec<(String, JsonValue)>) -> (r: Result<Cmd, String>)
    ensures
        match r {
            Ok(c) => s_p_watched_change(dfs@) == Ok::<Cmd, Seq<char>>(c),
            Err(e) => s_p_watched_change(dfs@) == Err::<Cmd, Seq<char>>(e@),
        },
{
    match take_req_u64(dfs, "num") {
        Ok(num) => Ok(Cmd::WatchedChange { num }),
        Err(e) => Err(e),
    }
}

fn p_rank_count(dfs: &Vec<(String, JsonValue)>) -> (r: Result<Cmd, String>)
    ensures
        match r {
            Ok(c) => s_p_rank_count(dfs@) == Ok::<Cmd, Seq<char>>(c),
            Err(e) => s_p_rank_count(dfs@) == Err::<Cmd, Seq<char>>(e@),
        },
{
    match take_req_u64(dfs, "count") {
        Ok(count) => Ok(Cmd::OnlineRankCount { count }),
        Err(e) => Err(e),
    }
}

fn p_send_gift(dfs: &Vec<(String, JsonValue)>) -> (r: Result<Cmd, String>)
    ensures
        match r {
            Ok(c) => s_p_send_gift(dfs@) == Ok::<Cmd, Seq<char>>(c),
            Err(e) => s_p_send_gift(dfs@) == Err::<Cmd, Seq<char>>(e@),
        },
{
    let action = match take_req_str(dfs, "action") {
        Ok(v) => v,
        Err(e) => {
            return Err(e);
        },
    };
    let user = match take_user_flat(dfs) {
        Ok(v) => v,
        Err(e) => {
            return Err(e);
        },
    };
    let medal_info = match take_opt_medal(dfs, "medal_info") {
        Ok(v) => v,
        Err(e) => {
            return Err(e);
        },
    };
    let gift_name = match take_req_str(dfs, "giftName") {
        Ok(v) => v,
        Err(e) => {
            return Err(e);
        },
    };
    let gift_id = match take_req_u64(dfs, "giftId") {
        Ok(v) => v,
        Err(e) => {
            return Err(e);
        },
    };
    let num = match take_req_u64(dfs, "num") {
        Ok(v) => v,
        Err(e) => {
            return Err(e);
        },
    };
    let price = match take_req_u64(dfs, "price") {
        Ok(v) => v,
        Err(e) => {
            return Err(e);
        },
    };
    let coin_type = match take_coin_type(dfs, "coin_type") {
        Ok(v) => v,
        Err(e) => {
            return Err(e);
        },
    };
    let total_coin = match take_req_u64(dfs, "total_coin") {
        Ok(v) => v,
        Err(e) => {
            return Err(e);
        },
    };
    let blind_gift = match take_blind(dfs) {
        Ok(v) => v,
        Err(e) => {
            return Err(e);
        },
    };
    Ok(
        Cmd::SendGift {
            action,
            user,
            medal_info,
            gift_name,
            gift_id,
            num,
            price,
            coin_type,
            total_coin,
            blind_gift,
        },
    )
}

fn p_super_chat(dfs: &Vec<(String, JsonValue)>) -> (r: Result<Cmd, String>)
    ensures
        match r {
            Ok(c) => s_p_super_chat(dfs@) == Ok::<Cmd, Seq<char>>(c),
            Err(e) => s_p_super_chat(dfs@) == Err::<Cmd, Seq<char>>(e@),
        },
{
    let medal_info = match take_opt_medal(dfs, "medal_info") {
        Ok(v) => v,
        Err(e) => {
            return Err(e);
        },
    };
    let message = match take_req_str(dfs, "message") {
        Ok(v) => v,
        Err(e) => {
            return Err(e);
        },
    };
    let price = match take_req_u64(dfs, "price") {
        Ok(v) => v,
        Err(e) => {
            return Err(e);
        },
    };
    let uid = match take_req_u64(dfs, "uid") {
        Ok(v) => v,
        Err(e) => {
            return Err(e);
        },
    };
    let user_info = match take_sc_user(dfs, "user_info") {
        Ok(v) => v,
        Err(e) => {
            return Err(e);
        },
    };
    Ok(Cmd::SuperChatMessage { medal_info, message, price, uid, user_info })
}

fn p_super_chat_jpn(dfs: &Vec<(String, JsonValue)>) -> (r: Result<Cmd, String>)
    ensures
        match r {
            Ok(c) => s_p_super_chat_jpn(dfs@) == Ok::<Cmd, Seq<char>>(c),
            Err(e) => s_p_super_chat_jpn(dfs@) == Err::<Cmd, Seq<char>>(e@),
        },
{
    let medal_info = match take_opt_medal(dfs, "medal_info") {
        Ok(v) => v,
        Err(e) => {
            return Err(e);
        },
    };
    let message = match take_req_str(dfs, "message") {
        Ok(v) => v,
        Err(e) => {
            return Err(e);
        },
    };
    let message_jpn = match take_req_str(dfs, "message_jpn") {
        Ok(v) => v,
        Err(e) => {
            return Err(e);
        },
    };
    let price = match take_req_u64(dfs, "price") {
        Ok(v) => v,
        Err(e) => {
            return Err(e);
        },
    };
    let uid = match take_req_u64(dfs, "uid") {
        Ok(v) => v,
        Err(e) => {
            return Err(e);
        },
    };
    let user_info = match take_sc_user(dfs, "user_info") {
        Ok(v) => v,
        Err(e) => {
            return Err(e);
        },
    };
    Ok(Cmd::SuperChatMessageJpn { medal_info, message, message_jpn, price, uid, user_info })
}

// ---------------------------------------------------------------------------
// The positional decoder
// ---------------------------------------------------------------------------

fn arr_u64(items: &Vec<JsonValue>, i: usize) -> (r: Option<u64>)
    ensures
        r == s_arr_u64(items@, i as int),
{
    if i < items.len() {
        match &items[i] {
            JsonValue::UInt(u) => Some(*u),
            _ => None,
        }
    } else {
        None
    }
}

fn arr_str(items: &Vec<JsonValue>, i: usize) -> (r: Option<String>)
    ensures
        r == s_arr_str(items@, i as int),
{
    if i < items.len() {
        match &items[i] {
            JsonValue::Str(s) => Some(s.clone()),
            _ => None,
        }
    } else {
        None
    }
}

fn arr_arr<'a>(items: &'a Vec<JsonValue>, i: usize) -> (r: Option<&'a Vec<JsonValue>>)
    ensures
        match r {
            Some(a) => s_idx_arr(items@, i as int) == Some(a@),
            None => s_idx_arr(items@, i as int) is None,
        },
{
    if i < items.len() {
        match &items[i] {
            JsonValue::Array(a) => Some(a),
            _ => None,
        }
    } else {
        None
    }
}

fn danmu_medal(items: &Vec<JsonValue>, i: usize) -> (r: Option<FansMedal>)
    ensures
        r == s_danmu_medal(s_at(items@, i as int)),
{
    if i < items.len() {
        match &items[i] {
            JsonValue::Array(m) => {
                let medal_level = match arr_u64(m, 0) {
                    Some(v) => v,
                    None => {
                        return None;
                    },
                };
                let medal_name = match arr_str(m, 1) {
                    Some(v) => v,
                    None => {
                        return None;
                    },
                };
                let anchor_roomid = match arr_u64(m, 3) {
                    Some(v) => v,
                    None => {
                        return None;
                    },
                };
                let guard_level = match arr_u64(m, 10) {
                    Some(v) => v,
                    None => {
                        return None;
                    },
                };
                Some(FansMedal { anchor_roomid, guard_level, medal_level, medal_name })
            },
            _ => None,
        }
    } else {
        None
    }
}

fn danmu_emoticon(items: &Vec<JsonValue>, i: usize) -> (r: Option<Emoticon>)
    ensures
        opt_emoticon_model(r) == s_danmu_emoticon(s_at(items@, i as int)),
{
    if i < items.len() {
        match &items[i] {
            JsonValue::Object(efs) => {
                let unique_id = match obj_get(efs, "emoticon_unique") {
                    Some(JsonValue::Str(s)) => s.clone(),
                    _ => String::new(),
                };
                let height = match obj_get(efs, "height") {
                    Some(JsonValue::UInt(u)) => *u,
                    _ => 0u64,
                };
                let width = match obj_get(efs, "width") {
                    Some(JsonValue::UInt(u)) => *u,
                    _ => 0u64,
                };
                let url = match obj_get(efs, "url") {
                    Some(JsonValue::Str(s)) => s.clone(),
                    _ => String::new(),
                };
                Some(Emoticon { unique_id, height, width, url })
            },
            _ => None,
        }
    } else {
        None
    }
}

fn parse_danmu(fs: &Vec<(String, JsonValue)>) -> (r: Result<Cmd, String>)
    ensures
        match r {
            Ok(c) => c matches Cmd::DanmuMsg { danmaku_type, fans_medal, user, message, emoticon }
                && s_p_danmu(fs@) == Ok::<DanmuModel, Seq<char>>(
                DanmuModel {
                    danmaku_type,
                    fans_medal,
                    user,
                    message,
                    emoticon: opt_emoticon_model(emoticon),
                },
            ),
            Err(e) => s_p_danmu(fs@) == Err::<DanmuModel, Seq<char>>(e@),
        },
{
    let info = match obj_get(fs, "info") {
        Some(JsonValue::Array(a)) => a,
        _ => {
            return Err("info".to_owned());
        },
    };
    let message = match arr_str(info, 1) {
        Some(v) => v,
        None => {
            return Err("info[1]".to_owned());
        },
    };
    let user_arr = match arr_arr(info, 2) {
        Some(v) => v,
        None => {
            return Err("info[2]".to_owned());
        },
    };
    let zero_arr = match arr_arr(info, 0) {
        Some(v) => v,
        None => {
            return Err("info[0]".to_owned());
        },
    };
    let uid = match arr_u64(user_arr, 0) {
        Some(v) => v,
        None => {
            return Err("info[2][0]".to_owned());
        },
    };
    let name = match arr_str(user_arr, 1) {
        Some(v) => v,
        None => {
            return Err("info[2][1]".to_owned());
        },
    };
    let danmaku_type = match arr_u64(zero_arr, 10) {
        Some(v) => v,
        None => {
            return Err("info[0][10]".to_owned());
        },
    };
    let fans_medal = danmu_medal(info, 3);
    let emoticon = danmu_emoticon(zero_arr, 13);
    Ok(
        Cmd::DanmuMsg {
            danmaku_type,
            fans_medal,
            user: User { uid, uname: name, face: None },
            message,
            emoticon,
        },
    )
}

// ---------------------------------------------------------------------------
// Parsing a whole message
// ---------------------------------------------------------------------------

/// The outcome a command stands for: the dedicated forms for the
/// commands that allocate, the plain form for the rest.
pub open spec fn cmd_outcome_of(c: Cmd) -> CmdOutcome {
    match c {
        Cmd::StopLiveRoomList { room_id_list } => CmdOutcome::ParsedStopLive(room_id_list@),
        Cmd::OnlineRankTop3 { dmscore, list } => CmdOutcome::ParsedRankTop3(dmscore, list@),
        Cmd::DanmuMsg { danmaku_type, fans_medal, user, message, emoticon } =>
            CmdOutcome::ParsedDanmu(
            DanmuModel {
                danmaku_type,
                fans_medal,
                user,
                message,
                emoticon: opt_emoticon_model(emoticon),
            },
        ),
        _ => CmdOutcome::Parsed(c),
    }
}

/// How a parse error accounts for the outcome: an ignored tag, a
/// missing tag with the original value carried, or the failing field
/// with the original value carried. The `Custom` variant never comes
/// out of parsing.
pub open spec fn spec_cmd_err_ok(v: JsonValue, e: CmdDeserError) -> bool {
    match e {
        CmdDeserError::Ignored { tag } => spec_cmd_deser(v) == CmdOutcome::Ignored(tag@),
        CmdDeserError::Untagged { value } => spec_cmd_deser(v) is Untagged && value == v,
        CmdDeserError::CannotDeser { value, field } => spec_cmd_deser(v) == CmdOutcome::Malformed(
            field@,
        ) && value == v,
        CmdDeserError::Custom { .. } => false,
    }
}

enum ParseStep {
    Done(Cmd),
    Skipped(String),
    NoTag,
    Bad(String),
}

fn deser_steps(val: &JsonValue) -> (r: ParseStep)
    ensures
        match r {
            ParseStep::Done(c) => spec_cmd_deser(*val) == cmd_outcome_of(c),
            ParseStep::Skipped(tag) => spec_cmd_deser(*val) == CmdOutcome::Ignored(tag@),
            ParseStep::NoTag => spec_cmd_deser(*val) is Untagged,
            ParseStep::Bad(f) => spec_cmd_deser(*val) == CmdOutcome::Malformed(f@),
        },
{
    let fields = match val {
        JsonValue::Object(fs) => fs,
        _ => {
            return ParseStep::NoTag;
        },
    };
    let tag_owned = match obj_get(fields, "cmd") {
        Some(JsonValue::Str(s)) => s.clone(),
        _ => {
            return ParseStep::NoTag;
        },
    };
    let tag = tag_owned.as_str();
    if str_eq(tag, "NOTICE_MSG") || str_eq(tag, "WIDGET_BANNER") || str_eq(tag, "HOT_RANK_CHANGED")
        || str_eq(tag, "HOT_RANK_SETTLEMENT") {
        return ParseStep::Skipped(tag_owned);
    }
    if str_eq(tag, "DANMU_MSG") {
        return match parse_danmu(fields) {
            Ok(c) => ParseStep::Done(c),
            Err(f) => ParseStep::Bad(f),
        };
    }
    if str_eq(tag, "COMMON_NOTICE_DANMAKU") {
        return ParseStep::Done(Cmd::CommonNoticeDanmaku {  });
    }
    if str_eq(tag, "ENTRY_EFFECT") {
        return ParseStep::Done(Cmd::EntryEffect {  });
    }
    if str_eq(tag, "HOT_BUY_NUM") {
        return ParseStep::Done(Cmd::HotBuyNum {  });
    }
    if str_eq(tag, "LIVE_INTERACTIVE_GAME") {
        return ParseStep::Done(Cmd::LiveInteractiveGame {  });
    }
    if str_eq(tag, "ONLINE_RANK_V2") {
        return ParseStep::Done(Cmd::OnlineRankV2 {  });
    }
    if str_eq(tag, "POPULARITY_RED_POCKET_START") {
        return ParseStep::Done(Cmd::PopularityRedPocketStart {  });
    }
    if str_eq(tag, "USER_TOAST_MSG") {
        return ParseStep::Done(Cmd::UserToastMsg {  });
    }
    if str_eq(tag, "STOP_LIVE_ROOM_LIST") {
        let dfs = match obj_get(fields, "data") {
            Some(JsonValue::Object(d)) => d,
            _ => {
                return ParseStep::Bad("data".to_owned());
            },
        };
        return match p_stop_live(dfs) {
            Ok(c) => ParseStep::Done(c),
            Err(f) => ParseStep::Bad(f),
        };
    }
    if str_eq(tag, "ONLINE_RANK_TOP3") {
        let dfs = match obj_get(fields, "data") {
            Some(JsonValue::Object(d)) => d,
            _ => {
                return ParseStep::Bad("data".to_owned());
            },
        };
        return match p_rank_top3(dfs) {
            Ok(c) => ParseStep::Done(c),
            Err(f) => ParseStep::Bad(f),
        };
    }
    let keyed = str_eq(tag, "COMBO_SEND") || str_eq(tag, "GUARD_BUY") || str_eq(
        tag,
        "HOT_RANK_CHANGED_V2",
    ) || str_eq(tag, "HOT_RANK_SETTLEMENT_V2") || str_eq(tag, "ROOM_REAL_TIME_MESSAGE_UPDATE")
        || str_eq(tag, "INTERACT_WORD") || str_eq(tag, "WATCHED_CHANGE") || str_eq(
        tag,
        "ONLINE_RANK_COUNT",
    ) || str_eq(tag, "SEND_GIFT") || str_eq(tag, "SUPER_CHAT_MESSAGE") || str_eq(
        tag,
        "SUPER_CHAT_MESSAGE_JPN",
    );
    if !keyed {
        return ParseStep::Bad("cmd".to_owned());
    }
    let dfs = match obj_get(fields, "data") {
        Some(JsonValue::Object(d)) => d,
        _ => {
            return ParseStep::Bad("data".to_owned());
        },
    };
    let parsed: Result<Cmd, String> = if str_eq(tag, "COMBO_SEND") {
        p_combo_send(dfs)
    } else if str_eq(tag, "GUARD_BUY") {
        p_guard_buy(dfs)
    } else if str_eq(tag, "HOT_RANK_CHANGED_V2") {
        p_hot_rank_changed(dfs)
    } else if str_eq(tag, "HOT_RANK_SETTLEMENT_V2") {
        p_hot_rank_settlement(dfs)
    } else if str_eq(tag, "ROOM_REAL_TIME_MESSAGE_UPDATE") {
        p_room_update(dfs)
    } else if str_eq(tag, "INTERACT_WORD") {
        p_interact_word(dfs)
    } else if str_eq(tag, "WATCHED_CHANGE") {
        p_watched_change(dfs)
    } else if str_eq(tag, "ONLINE_RANK_COUNT") {
        p_rank_count(dfs)
    } else if str_eq(tag, "SEND_GIFT") {
        p_send_gift(dfs)
    } else if str_eq(tag, "SUPER_CHAT_MESSAGE") {
        p_super_chat(dfs)
    } else {
        p_super_chat_jpn(dfs)
    };
    match parsed {
        Ok(c) => ParseStep::Done(c),
        Err(f) => ParseStep::Bad(f),
    }
}

impl Cmd {
    /// Parses one upstream JSON message: `Untagged` without a string
    /// `"cmd"` field; `Ignored` for the fixed noise tags; the bespoke
    /// positional decoder for `DANMU_MSG`; a keyed decode against the
    /// known shapes for everything else, `CannotDeser` naming the
    /// failing field and carrying the original value otherwise.
    pub fn deser(val: JsonValue) -> (r: Result<Cmd, CmdDeserError>)
        ensures
            match r {
                Ok(c) => spec_cmd_deser(val) == cmd_outcome_of(c),
                Err(e) => spec_cmd_err_ok(val, e),
            },
    {
        match deser_steps(&val) {
            ParseStep::Done(c) => Ok(c),
            ParseStep::Skipped(tag) => Err(CmdDeserError::Ignored { tag }),
            ParseStep::NoTag => Err(CmdDeserError::Untagged { value: val }),
            ParseStep::Bad(field) => Err(CmdDeserError::CannotDeser { value: val, field }),
        }
    }
}

// ---------------------------------------------------------------------------
// Commands to events
// ---------------------------------------------------------------------------

/// Zero-level medals stand for "no medal" and are normalized to
/// absent.
pub open spec fn spec_medal_filter(fans_medal: Option<FansMedal>) -> Option<FansMedal> {
    match fans_medal {
        Some(fm) => if fm.medal_level == 0 {
            None
        } else {
            Some(fm)
        },
        None => None,
    }
}

/// Zero-level medals stand for "no medal" and are normalized to
/// absent.
pub fn medal_filter(fans_medal: Option<FansMedal>) -> (r: Option<FansMedal>)
    ensures
        r == spec_medal_filter(fans_medal),
{
    match fans_medal {
        Some(fm) => if fm.medal_level == 0 {
            None
        } else {
            Some(fm)
        },
        None => None,
    }
}

/// The total, pure mapping from commands to domain events: each
/// event-bearing command yields exactly one event, with fan-medal
/// normalization applied uniformly here; the commands with no
/// externally useful effect yield none. A blind-box gift's visible
/// half is split into the event's `blindbox` field.
pub open spec fn spec_into_event(c: Cmd) -> Option<crate::event::EventData> {
    match c {
        Cmd::InteractWord { fans_medal, user } => Some(
            crate::event::EventData::EnterRoomEvent(
                crate::event::EnterRoomEvent { user, fans_medal: spec_medal_filter(fans_medal) },
            ),
        ),
        Cmd::DanmuMsg { danmaku_type, fans_medal, user, message, emoticon } => match emoticon {
            Some(emo) => Some(
                crate::event::EventData::DanmakuEvent(
                    crate::event::DanmakuEvent {
                        flag: danmaku_type,
                        message: DanmakuMessage::Emoticon { emoticon: emo, alt_message: message },
                        user,
                        fans_medal: spec_medal_filter(fans_medal),
                    },
                ),
            ),
            None => Some(
                crate::event::EventData::DanmakuEvent(
                    crate::event::DanmakuEvent {
                        flag: danmaku_type,
                        message: DanmakuMessage::Plain { message },
                        user,
                        fans_medal: spec_medal_filter(fans_medal),
                    },
                ),
            ),
        },
        Cmd::SuperChatMessage { uid, medal_info, message, price, user_info } => Some(
            crate::event::EventData::SuperChatEvent(
                crate::event::SuperChatEvent {
                    user: User { uid, uname: user_info.uname, face: Some(user_info.face) },
                    fans_medal: spec_medal_filter(medal_info),
                    price,
                    message,
                    message_jpn: None,
                },
            ),
        ),
        Cmd::SuperChatMessageJpn { uid, medal_info, message, message_jpn, price, user_info } =>
            Some(
            crate::event::EventData::SuperChatEvent(
                crate::event::SuperChatEvent {
                    user: User { uid, uname: user_info.uname, face: Some(user_info.face) },
                    fans_medal: spec_medal_filter(medal_info),
                    price,
                    message,
                    message_jpn: Some(message_jpn),
                },
            ),
        ),
        Cmd::WatchedChange { num } => Some(
            crate::event::EventData::WatchedUpdateEvent(crate::event::WatchedUpdateEvent { num }),
        ),
        Cmd::SendGift {
            action,
            user,
            medal_info,
            gift_name,
            gift_id,
            num,
            price,
            coin_type,
            total_coin,
            blind_gift,
        } => Some(
            crate::event::EventData::GiftEvent(
                crate::event::GiftEvent {
                    user,
                    fans_medal: spec_medal_filter(medal_info),
                    blindbox: (match blind_gift {
                        Some(b) => Some(
                            crate::model::GiftType {
                                action: b.gift_action,
                                gift_id: b.original_gift_id,
                                gift_name: b.original_gift_name,
                            },
                        ),
                        None => None,
                    }),
                    gift: crate::model::Gift {
                        action,
                        num,
                        gift_name,
                        gift_id,
                        price,
                        coin_type,
                        coin_count: total_coin,
                    },
                },
            ),
        ),
        Cmd::HotRankChangedV2 { area_name, rank, rank_desc } => Some(
            crate::event::EventData::HotRankChangedEvent(
                crate::event::HotRankChangedEvent {
                    area: area_name,
                    rank,
                    description: rank_desc,
                },
            ),
        ),
        Cmd::HotRankSettlementV2 { area_name, rank, uname, face } => Some(
            crate::event::EventData::HotRankSettlementEvent(
                crate::event::HotRankSettlementEvent { uname, face, area: area_name, rank },
            ),
        ),
        Cmd::GuardBuy { gift_id, gift_name, guard_level, price, num, uid, username } => Some(
            crate::event::EventData::GuardBuyEvent(
                crate::event::GuardBuyEvent {
                    level: guard_level,
                    price,
                    user: User { uname: username, uid, face: None },
                },
            ),
        ),
        Cmd::StopLiveRoomList { room_id_list } => Some(
            crate::event::EventData::StopLiveEvent(crate::event::StopLiveEvent { room_id_list }),
        ),
        _ => None,
    }
}

impl Cmd {
    /// Folds the command into its domain event, if it carries one.
    pub fn into_event(self) -> (r: Option<crate::event::EventData>)
        ensures
            r == spec_into_event(self),
    {
        match self {
            Cmd::InteractWord { fans_medal, user } => Some(
                crate::event::EventData::EnterRoomEvent(
                    crate::event::EnterRoomEvent { user, fans_medal: medal_filter(fans_medal) },
                ),
            ),
            Cmd::DanmuMsg { danmaku_type, fans_medal, user, message, emoticon } => match emoticon {
                Some(emo) => Some(
                    crate::event::EventData::DanmakuEvent(
                        crate::event::DanmakuEvent {
                            flag: danmaku_type,
                            message: DanmakuMessage::Emoticon {
                                emoticon: emo,
                                alt_message: message,
                            },
                            user,
                            fans_medal: medal_filter(fans_medal),
                        },
                    ),
                ),
                None => Some(
                    crate::event::EventData::DanmakuEvent(
                        crate::event::DanmakuEvent {
                            flag: danmaku_type,
                            message: DanmakuMessage::Plain { message },
                            user,
                            fans_medal: medal_filter(fans_medal),
                        },
                    ),
                ),
            },
            Cmd::SuperChatMessage { uid, medal_info, message, price, user_info } => Some(
                crate::event::EventData::SuperChatEvent(
                    crate::event::SuperChatEvent {
                        user: User { uid, uname: user_info.uname, face: Some(user_info.face) },
                        fans_medal: medal_filter(medal_info),
                        price,
                        message,
                        message_jpn: None,
                    },
                ),
            ),
            Cmd::SuperChatMessageJpn { uid, medal_info, message, message_jpn, price, user_info } =>
                Some(
                crate::event::EventData::SuperChatEvent(
                    crate::event::SuperChatEvent {
                        user: User { uid, uname: user_info.uname, face: Some(user_info.face) },
                        fans_medal: medal_filter(medal_info),
                        price,
                        message,
                        message_jpn: Some(message_jpn),
                    },
                ),
            ),
            Cmd::WatchedChange { num } => Some(
                crate::event::EventData::WatchedUpdateEvent(
                    crate::event::WatchedUpdateEvent { num },
                ),
            ),
            Cmd::SendGift {
                action,
                user,
                medal_info,
                gift_name,
                gift_id,
                num,
                price,
                coin_type,
                total_coin,
                blind_gift,
            } => Some(
                crate::event::EventData::GiftEvent(
                    crate::event::GiftEvent {
                        user,
                        fans_medal: medal_filter(medal_info),
                        blindbox: (match blind_gift {
                            Some(b) => Some(
                                crate::model::GiftType {
                                    action: b.gift_action,
                                    gift_id: b.original_gift_id,
                                    gift_name: b.original_gift_name,
                                },
                            ),
                            None => None,
                        }),
                        gift: crate::model::Gift {
                            action,
                            num,
                            gift_name,
                            gift_id,
                            price,
                            coin_type,
                            coin_count: total_coin,
                        },
                    },
                ),
            ),
            Cmd::HotRankChangedV2 { area_name, rank, rank_desc } => Some(
                crate::event::EventData::HotRankChangedEvent(
                    crate::event::HotRankChangedEvent {
                        area: area_name,
                        rank,
                        description: rank_desc,
                    },
                ),
            ),
            Cmd::HotRankSettlementV2 { area_name, rank, uname, face } => Some(
                crate::event::EventData::HotRankSettlementEvent(
                    crate::event::HotRankSettlementEvent { uname, face, area: area_name, rank },
                ),
            ),
            Cmd::GuardBuy { gift_id, gift_name, guard_level, price, num, uid, username } => Some(
                crate::event::EventData::GuardBuyEvent(
                    crate::event::GuardBuyEvent {
                        level: guard_level,
                        price,
                        user: User { uname: username, uid, face: None },
                    },
                ),
            ),
            Cmd::StopLiveRoomList { room_id_list } => Some(
                crate::event::EventData::StopLiveEvent(
                    crate::event::StopLiveEvent { room_id_list },
                ),
            ),
            _ => None,
        }
    }
}

/// A danmaku whose medal slot carries level zero yields an event with
/// no medal at all: the zero level is normalized to absent, never
/// passed through.
pub proof fn lemma_danmu_zero_medal_absent(
    danmaku_type: u64,
    fm: FansMedal,
    user: User,
    message: String,
    emoticon: Option<Emoticon>,
)
    requires
        fm.medal_level == 0,
    ensures
        ({
            let e = spec_into_event(
                Cmd::DanmuMsg { danmaku_type, fans_medal: Some(fm), user, message, emoticon },
            );
            e matches Some(crate::event::EventData::DanmakuEvent(d)) && d.fans_medal is None
        }),
{
}

} // verus!
