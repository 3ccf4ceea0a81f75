//! Value objects carried inside domain events: users, fan medals,
//! gifts and danmaku message bodies.

use vstd::prelude::*;

verus! {

/// An emoticon danmaku's image: its unique id, URL and pixel size.
#[derive(Debug, Clone, PartialEq)]
pub struct Emoticon {
    pub unique_id: String,
    pub height: u64,
    pub width: u64,
    pub url: String,
}

/// A viewer's loyalty badge. `guard_level` 1, 2 and 3 are the paid
/// tiers, 0 is none; `anchor_roomid` is the room the medal belongs to.
#[derive(Debug, Clone, PartialEq)]
pub struct FansMedal {
    pub anchor_roomid: u64,
    pub guard_level: u64,
    pub medal_level: u64,
    pub medal_name: String,
}

/// A viewer: numeric id, name, and avatar URL when known.
#[derive(Debug, Clone, PartialEq)]
pub struct User {
    pub uid: u64,
    pub uname: String,
    pub face: Option<String>,
}

/// The sender block of a super-chat message.
#[derive(Debug, Clone, PartialEq)]
pub struct SuperChatUser {
    pub uname: String,
    pub face: String,
}

/// Which currency paid for a gift.
#[derive(Debug, Clone, Copy, PartialEq, Eq, Structural)]
pub enum CoinType {
    Silver,
    Gold,
}

/// A gift purchase: currency, total coins, display action and name,
/// gift id, count and unit price.
#[derive(Debug, Clone, PartialEq)]
pub struct Gift {
    pub coin_type: CoinType,
    pub coin_count: u64,
    pub action: String,
    pub gift_name: String,
    pub gift_id: u64,
    pub num: u64,
    pub price: u64,
}

/// A gift's identity alone, used for the visible half of a blind-box
/// purchase.
#[derive(Debug, Clone, PartialEq)]
pub struct GiftType {
    pub action: String,
    pub gift_name: String,
    pub gift_id: u64,
}

/// A danmaku message body: plain text, or an emoticon with its
/// textual stand-in.
#[derive(Debug, Clone, PartialEq)]
pub enum DanmakuMessage {
    Plain { message: String },
    Emoticon { emoticon: Emoticon, alt_message: String },
}

} // verus!
