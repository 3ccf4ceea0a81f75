//! The domain event union, its metadata envelope, and the content
//! hash the deduplication hub keys on.

use vstd::prelude::*;

verus! {

use crate::model::{DanmakuMessage, Emoticon, FansMedal, Gift, GiftType, User};
use crate::packet::{spec_u32_be, push_u32_be};
use crate::text::{push_bytes, push_str_bytes, spec_str_bytes};
use vstd::wrapping::u64_specs;
use vstd::string::StringExecFns;

// ---------------------------------------------------------------------------
// Events
// ---------------------------------------------------------------------------

/// A chat message. The first bit of `flag` marks a lottery danmaku;
/// bits two to four carry the guard tier.
#[derive(Debug, Clone, PartialEq)]
pub struct DanmakuEvent {
    pub flag: u64,
    pub message: DanmakuMessage,
    pub user: User,
    pub fans_medal: Option<FansMedal>,
}

/// A viewer entered the room.
#[derive(Debug, Clone, PartialEq)]
pub struct EnterRoomEvent {
    pub user: User,
    pub fans_medal: Option<FansMedal>,
}

/// A blind-box gift, with the visible gift type split out.
#[derive(Debug, Clone, PartialEq)]
pub struct BlindboxGiftEvent {
    pub user: User,
    pub fans_medal: Option<FansMedal>,
    pub blindbox_gift_type: GiftType,
    pub gift: Gift,
}

/// A gift purchase; `blindbox` holds the visible half of a blind-box
/// purchase when the wire payload indicated one.
#[derive(Debug, Clone, PartialEq)]
pub struct GiftEvent {
    pub user: User,
    pub fans_medal: Option<FansMedal>,
    pub blindbox: Option<GiftType>,
    pub gift: Gift,
}

/// A paid-subscription ("guard") purchase.
#[derive(Debug, Clone, PartialEq)]
pub struct GuardBuyEvent {
    pub level: u64,
    pub price: u64,
    pub user: User,
}

/// A paid highlighted message, with an optional Japanese translation.
#[derive(Debug, Clone, PartialEq)]
pub struct SuperChatEvent {
    pub user: User,
    pub fans_medal: Option<FansMedal>,
    pub price: u64,
    pub message: String,
    pub message_jpn: Option<String>,
}

/// The "watched" counter changed.
#[derive(Debug, Clone, PartialEq)]
pub struct WatchedUpdateEvent {
    pub num: u64,
}

/// The room's popularity counter, from a counter frame.
#[derive(Debug, Clone, PartialEq)]
pub struct PopularityUpdateEvent {
    pub popularity: u32,
}

/// A guard entered the room.
#[derive(Debug, Clone, PartialEq)]
pub struct GuardEnterRoomEvent {
    pub user: User,
}

/// The room's hot rank changed.
#[derive(Debug, Clone, PartialEq)]
pub struct HotRankChangedEvent {
    pub area: String,
    pub rank: u64,
    pub description: String,
}

/// A hot-rank settlement notice.
#[derive(Debug, Clone, PartialEq)]
pub struct HotRankSettlementEvent {
    pub uname: String,
    pub face: String,
    pub area: String,
    pub rank: u64,
}

/// The online-rank count changed.
#[derive(Debug, Clone, PartialEq)]
pub struct OnlineRankCountEvent {
    pub count: u64,
}

/// Rooms that stopped their live stream.
#[derive(Debug, Clone, PartialEq)]
pub struct StopLiveEvent {
    pub room_id_list: Vec<u64>,
}

/// The closed union of domain events this library emits.
#[derive(Debug, Clone, PartialEq)]
pub enum EventData {
    DanmakuEvent(DanmakuEvent),
    EnterRoomEvent(EnterRoomEvent),
    BlindboxGiftEvent(BlindboxGiftEvent),
    GiftEvent(GiftEvent),
    GuardBuyEvent(GuardBuyEvent),
    SuperChatEvent(SuperChatEvent),
    WatchedUpdateEvent(WatchedUpdateEvent),
    PopularityUpdateEvent(PopularityUpdateEvent),
    GuardEnterRoomEvent(GuardEnterRoomEvent),
    HotRankChangedEvent(HotRankChangedEvent),
    HotRankSettlementEvent(HotRankSettlementEvent),
    OnlineRankCountEvent(OnlineRankCountEvent),
    StopLiveEvent(StopLiveEvent),
}

// ---------------------------------------------------------------------------
// Envelope
// ---------------------------------------------------------------------------

/// Where an event was observed: the room and the transport URL.
#[derive(Debug, Clone, PartialEq)]
pub struct EventSource {
    pub room_id: u64,
    pub url: String,
}

/// An event's envelope: the version string of the build that decoded
/// it, the source it was observed on, and a millisecond timestamp.
/// Consumers reject events whose `lib_version` differs from their own
/// build's, since differently-versioned producers may disagree on
/// event shape.
#[derive(Debug, Clone, PartialEq)]
pub struct EventMeta {
    pub lib_version: String,
    pub source: Option<EventSource>,
    pub time: i64,
}

/// A domain event together with its envelope.
#[derive(Debug, Clone, PartialEq)]
pub struct Event {
    pub data: EventData,
    pub meta: EventMeta,
}

/// The version string stamped on every event this build decodes.
pub open spec fn spec_lib_version() -> Seq<char> {
    "0.1.0"@
}

/// The version string stamped on every event this build decodes.
pub fn lib_version() -> (s: String)
    ensures
        s@ == spec_lib_version(),
{
    String::from_str("0.1.0")
}

/// Relies on `chrono::Utc::now` and `DateTime::timestamp_millis` for
/// the wall clock; nothing is assumed of the value.
#[verifier::external_body]
fn now_millis() -> i64 {
    chrono::Utc::now().timestamp_millis()
}

impl EventMeta {
    /// A fresh envelope: this build's version, no source, the current
    /// time.
    pub fn new() -> (m: EventMeta)
        ensures
            m.lib_version@ == spec_lib_version(),
            m.source is None,
    {
        EventMeta { lib_version: lib_version(), source: None, time: now_millis() }
    }

    /// A fresh envelope carrying the given source.
    pub fn with_source(source: EventSource) -> (m: EventMeta)
        ensures
            m.lib_version@ == spec_lib_version(),
            m.source == Some(source),
    {
        EventMeta { lib_version: lib_version(), source: Some(source), time: now_millis() }
    }
}

impl Default for EventMeta {
    /// The same envelope `new` builds.
    fn default() -> (m: EventMeta)
        ensures
            m.lib_version@ == spec_lib_version(),
            m.source is None,
    {
        EventMeta::new()
    }
}

/// Whether the event says the stream of its own source room stopped.
pub open spec fn spec_is_stop_live(e: Event) -> bool {
    match e.data {
        EventData::StopLiveEvent(s) => match e.meta.source {
            Some(src) => s.room_id_list@.contains(src.room_id),
            None => false,
        },
        _ => false,
    }
}

fn contains_u64(v: &Vec<u64>, x: u64) -> (r: bool)
    ensures
        r == v@.contains(x),
{
    let n = v.len();
    let mut i: usize = 0;
    while i < n
        invariant
            n == v@.len(),
            i <= n,
            forall|j: int| 0 <= j < i ==> v@[j] != x,
        decreases n - i,
    {
        if v[i] == x {
            return true;
        }
        i = i + 1;
    }
    false
}

impl Event {
    /// True exactly when this is a stop-live notice that names the
    /// room the event was observed on.
    pub fn is_stop_live(&self) -> (r: bool)
        ensures
            r == spec_is_stop_live(*self),
    {
        if let EventData::StopLiveEvent(s) = &self.data {
            if let Some(source) = &self.meta.source {
                return contains_u64(&s.room_id_list, source.room_id);
            }
        }
        false
    }
}

// ---------------------------------------------------------------------------
// Content hash
// ---------------------------------------------------------------------------
//
// The deduplication hub keys on a hash of the event's domain payload
// alone, never its envelope, so that the same content observed via
// two sources (at two timestamps) hashes alike. The payload is put
// into a canonical byte form and hashed with 64-bit FNV-1a; both
// steps are the library's own and fully verified.

/// Eight big-endian bytes of a `u64`.
pub open spec fn spec_enc_u64(x: u64) -> Seq<u8> {
    spec_u32_be((x >> 32) as u32) + spec_u32_be((x & 0xffff_ffff) as u32)
}

fn push_enc_u64(out: &mut Vec<u8>, x: u64)
    ensures
        final(out)@ == old(out)@ + spec_enc_u64(x),
{
    push_u32_be(out, (x >> 32) as u32);
    push_u32_be(out, (x & 0xffff_ffff) as u32);
    assert(out@ =~= old(out)@ + spec_enc_u64(x));
}

/// A string in the canonical form: byte length, then UTF-8 bytes.
pub open spec fn spec_enc_str(s: Seq<char>) -> Seq<u8> {
    spec_enc_u64(vstd::utf8::encode_utf8(s).len() as u64) + vstd::utf8::encode_utf8(s)
}

fn push_enc_str(out: &mut Vec<u8>, s: &str)
    ensures
        final(out)@ == old(out)@ + spec_enc_str(s@),
{
    let b = s.as_bytes();
    push_enc_u64(out, b.len() as u64);
    push_bytes(out, b);
    assert(out@ =~= old(out)@ + spec_enc_str(s@));
}

/// An optional string: 0, or 1 and the string.
pub open spec fn spec_enc_opt_str(s: Option<Seq<char>>) -> Seq<u8> {
    match s {
        None => seq![0u8],
        Some(x) => seq![1u8] + spec_enc_str(x),
    }
}

fn push_enc_opt_str(out: &mut Vec<u8>, s: &Option<String>)
    ensures
        final(out)@ == old(out)@ + spec_enc_opt_str(crate::packet::spec_opt_str(*s)),
{
    match s {
        None => {
            out.push(0u8);
        },
        Some(x) => {
            out.push(1u8);
            push_enc_str(out, x.as_str());
        },
    }
    assert(out@ =~= old(out)@ + spec_enc_opt_str(crate::packet::spec_opt_str(*s)));
}

/// A user in the canonical form.
pub open spec fn spec_enc_user(u: User) -> Seq<u8> {
    spec_enc_u64(u.uid) + spec_enc_str(u.uname@) + spec_enc_opt_str(
        crate::packet::spec_opt_str(u.face),
    )
}

fn push_enc_user(out: &mut Vec<u8>, u: &User)
    ensures
        final(out)@ == old(out)@ + spec_enc_user(*u),
{
    push_enc_u64(out, u.uid);
    push_enc_str(out, u.uname.as_str());
    push_enc_opt_str(out, &u.face);
    assert(out@ =~= old(out)@ + spec_enc_user(*u));
}

/// A fan medal in the canonical form.
pub open spec fn spec_enc_medal(m: FansMedal) -> Seq<u8> {
    spec_enc_u64(m.anchor_roomid) + spec_enc_u64(m.guard_level) + spec_enc_u64(m.medal_level)
        + spec_enc_str(m.medal_name@)
}

/// An optional fan medal: 0, or 1 and the medal.
pub open spec fn spec_enc_opt_medal(m: Option<FansMedal>) -> Seq<u8> {
    match m {
        None => seq![0u8],
        Some(x) => seq![1u8] + spec_enc_medal(x),
    }
}

fn push_enc_opt_medal(out: &mut Vec<u8>, m: &Option<FansMedal>)
    ensures
        final(out)@ == old(out)@ + spec_enc_opt_medal(*m),
{
    match m {
        None => {
            out.push(0u8);
        },
        Some(x) => {
            out.push(1u8);
            push_enc_u64(out, x.anchor_roomid);
            push_enc_u64(out, x.guard_level);
            push_enc_u64(out, x.medal_level);
            push_enc_str(out, x.medal_name.as_str());
        },
    }
    assert(out@ =~= old(out)@ + spec_enc_opt_medal(*m));
}

/// A gift in the canonical form; the coin type is one byte.
pub open spec fn spec_enc_gift(g: Gift) -> Seq<u8> {
    seq![
        (match g.coin_type {
            crate::model::CoinType::Silver => 0u8,
            crate::model::CoinType::Gold => 1u8,
        }),
    ] + spec_enc_u64(g.coin_count) + spec_enc_str(g.action@) + spec_enc_str(g.gift_name@)
        + spec_enc_u64(g.gift_id) + spec_enc_u64(g.num) + spec_enc_u64(g.price)
}

fn push_enc_gift(out: &mut Vec<u8>, g: &Gift)
    ensures
        final(out)@ == old(out)@ + spec_enc_gift(*g),
{
    match g.coin_type {
        crate::model::CoinType::Silver => out.push(0u8),
        crate::model::CoinType::Gold => out.push(1u8),
    }
    push_enc_u64(out, g.coin_count);
    push_enc_str(out, g.action.as_str());
    push_enc_str(out, g.gift_name.as_str());
    push_enc_u64(out, g.gift_id);
    push_enc_u64(out, g.num);
    push_enc_u64(out, g.price);
    assert(out@ =~= old(out)@ + spec_enc_gift(*g));
}

/// A gift type in the canonical form.
pub open spec fn spec_enc_gift_type(g: GiftType) -> Seq<u8> {
    spec_enc_str(g.action@) + spec_enc_str(g.gift_name@) + spec_enc_u64(g.gift_id)
}

fn push_enc_gift_type(out: &mut Vec<u8>, g: &GiftType)
    ensures
        final(out)@ == old(out)@ + spec_enc_gift_type(*g),
{
    push_enc_str(out, g.action.as_str());
    push_enc_str(out, g.gift_name.as_str());
    push_enc_u64(out, g.gift_id);
    assert(out@ =~= old(out)@ + spec_enc_gift_type(*g));
}

/// An optional gift type: 0, or 1 and the gift type.
pub open spec fn spec_enc_opt_gift_type(g: Option<GiftType>) -> Seq<u8> {
    match g {
        None => seq![0u8],
        Some(x) => seq![1u8] + spec_enc_gift_type(x),
    }
}

fn push_enc_opt_gift_type(out: &mut Vec<u8>, g: &Option<GiftType>)
    ensures
        final(out)@ == old(out)@ + spec_enc_opt_gift_type(*g),
{
    match g {
        None => {
            out.push(0u8);
        },
        Some(x) => {
            out.push(1u8);
            push_enc_gift_type(out, x);
        },
    }
    assert(out@ =~= old(out)@ + spec_enc_opt_gift_type(*g));
}

/// A message body in the canonical form: 0 and the text, or 1 and the
/// emoticon with its stand-in text.
pub open spec fn spec_enc_danmaku(m: DanmakuMessage) -> Seq<u8> {
    match m {
        DanmakuMessage::Plain { message } => seq![0u8] + spec_enc_str(message@),
        DanmakuMessage::Emoticon { emoticon, alt_message } => seq![1u8] + spec_enc_str(
            emoticon.unique_id@,
        ) + spec_enc_u64(emoticon.height) + spec_enc_u64(emoticon.width) + spec_enc_str(
            emoticon.url@,
        ) + spec_enc_str(alt_message@),
    }
}

fn push_enc_danmaku(out: &mut Vec<u8>, m: &DanmakuMessage)
    ensures
        final(out)@ == old(out)@ + spec_enc_danmaku(*m),
{
    match m {
        DanmakuMessage::Plain { message } => {
            out.push(0u8);
            push_enc_str(out, message.as_str());
        },
        DanmakuMessage::Emoticon { emoticon, alt_message } => {
            out.push(1u8);
            push_enc_str(out, emoticon.unique_id.as_str());
            push_enc_u64(out, emoticon.height);
            push_enc_u64(out, emoticon.width);
            push_enc_str(out, emoticon.url.as_str());
            push_enc_str(out, alt_message.as_str());
        },
    }
    assert(out@ =~= old(out)@ + spec_enc_danmaku(*m));
}

/// A run of room ids in the canonical form: the count, then each id.
pub open spec fn spec_enc_u64_seq(s: Seq<u64>) -> Seq<u8>
    decreases s.len(),
{
    if s.len() == 0 {
        Seq::empty()
    } else {
        spec_enc_u64(s[0]) + spec_enc_u64_seq(s.drop_first())
    }
}

fn push_enc_u64_vec(out: &mut Vec<u8>, v: &Vec<u64>)
    ensures
        final(out)@ == old(out)@ + spec_enc_u64(v@.len() as u64) + spec_enc_u64_seq(v@),
{
    push_enc_u64(out, v.len() as u64);
    let ghost mark = out@;
    let n = v.len();
    let mut i: usize = 0;
    proof {
        assert(v@.skip(0) =~= v@);
    }
    while i < n
        invariant
            n == v@.len(),
            i <= n,
            out@ + spec_enc_u64_seq(v@.skip(i as int)) == mark + spec_enc_u64_seq(v@),
        decreases n - i,
    {
        let ghost prev = out@;
        push_enc_u64(out, v[i]);
        proof {
            let tail = v@.skip(i as int);
            assert(tail[0] == v@[i as int]);
            assert(tail.drop_first() =~= v@.skip(i + 1));
            assert((prev + spec_enc_u64(v@[i as int])) + spec_enc_u64_seq(v@.skip(i + 1)) =~= prev
                + (spec_enc_u64(v@[i as int]) + spec_enc_u64_seq(v@.skip(i + 1))));
        }
        i = i + 1;
    }
    proof {
        assert(v@.skip(n as int) =~= Seq::<u64>::empty());
        assert(out@ + Seq::<u8>::empty() =~= out@);
        assert(out@ =~= old(out)@ + spec_enc_u64(v@.len() as u64) + spec_enc_u64_seq(v@));
    }
}

/// The canonical byte form of an event's domain payload: one tag byte
/// for the variant, then its fields, strings length-prefixed.
pub open spec fn spec_event_bytes(d: EventData) -> Seq<u8> {
    match d {
        EventData::DanmakuEvent(e) => seq![1u8] + spec_enc_u64(e.flag) + spec_enc_danmaku(e.message)
            + spec_enc_user(e.user) + spec_enc_opt_medal(e.fans_medal),
        EventData::EnterRoomEvent(e) => seq![2u8] + spec_enc_user(e.user) + spec_enc_opt_medal(
            e.fans_medal,
        ),
        EventData::BlindboxGiftEvent(e) => seq![3u8] + spec_enc_user(e.user) + spec_enc_opt_medal(
            e.fans_medal,
        ) + spec_enc_gift_type(e.blindbox_gift_type) + spec_enc_gift(e.gift),
        EventData::GiftEvent(e) => seq![4u8] + spec_enc_user(e.user) + spec_enc_opt_medal(
            e.fans_medal,
        ) + spec_enc_opt_gift_type(e.blindbox) + spec_enc_gift(e.gift),
        EventData::GuardBuyEvent(e) => seq![5u8] + spec_enc_u64(e.level) + spec_enc_u64(e.price)
            + spec_enc_user(e.user),
        EventData::SuperChatEvent(e) => seq![6u8] + spec_enc_user(e.user) + spec_enc_opt_medal(
            e.fans_medal,
        ) + spec_enc_u64(e.price) + spec_enc_str(e.message@) + spec_enc_opt_str(
            crate::packet::spec_opt_str(e.message_jpn),
        ),
        EventData::WatchedUpdateEvent(e) => seq![7u8] + spec_enc_u64(e.num),
        EventData::PopularityUpdateEvent(e) => seq![8u8] + spec_u32_be(e.popularity),
        EventData::GuardEnterRoomEvent(e) => seq![9u8] + spec_enc_user(e.user),
        EventData::HotRankChangedEvent(e) => seq![10u8] + spec_enc_str(e.area@) + spec_enc_u64(
            e.rank,
        ) + spec_enc_str(e.description@),
        EventData::HotRankSettlementEvent(e) => seq![11u8] + spec_enc_str(e.uname@) + spec_enc_str(
            e.face@,
        ) + spec_enc_str(e.area@) + spec_enc_u64(e.rank),
        EventData::OnlineRankCountEvent(e) => seq![12u8] + spec_enc_u64(e.count),
        EventData::StopLiveEvent(e) => seq![13u8] + spec_enc_u64(e.room_id_list@.len() as u64)
            + spec_enc_u64_seq(e.room_id_list@),
    }
}

/// The canonical byte form of an event's domain payload.
pub fn event_bytes(d: &EventData) -> (out: Vec<u8>)
    ensures
        out@ == spec_event_bytes(*d),
{
    let mut out: Vec<u8> = Vec::new();
    match d {
        EventData::DanmakuEvent(e) => {
            out.push(1u8);
            push_enc_u64(&mut out, e.flag);
            push_enc_danmaku(&mut out, &e.message);
            push_enc_user(&mut out, &e.user);
            push_enc_opt_medal(&mut out, &e.fans_medal);
        },
        EventData::EnterRoomEvent(e) => {
            out.push(2u8);
            push_enc_user(&mut out, &e.user);
            push_enc_opt_medal(&mut out, &e.fans_medal);
        },
        EventData::BlindboxGiftEvent(e) => {
            out.push(3u8);
            push_enc_user(&mut out, &e.user);
            push_enc_opt_medal(&mut out, &e.fans_medal);
            push_enc_gift_type(&mut out, &e.blindbox_gift_type);
            push_enc_gift(&mut out, &e.gift);
        },
        EventData::GiftEvent(e) => {
            out.push(4u8);
            push_enc_user(&mut out, &e.user);
            push_enc_opt_medal(&mut out, &e.fans_medal);
            push_enc_opt_gift_type(&mut out, &e.blindbox);
            push_enc_gift(&mut out, &e.gift);
        },
        EventData::GuardBuyEvent(e) => {
            out.push(5u8);
            push_enc_u64(&mut out, e.level);
            push_enc_u64(&mut out, e.price);
            push_enc_user(&mut out, &e.user);
        },
        EventData::SuperChatEvent(e) => {
            out.push(6u8);
            push_enc_user(&mut out, &e.user);
            push_enc_opt_medal(&mut out, &e.fans_medal);
            push_enc_u64(&mut out, e.price);
            push_enc_str(&mut out, e.message.as_str());
            push_enc_opt_str(&mut out, &e.message_jpn);
        },
        EventData::WatchedUpdateEvent(e) => {
            out.push(7u8);
            push_enc_u64(&mut out, e.num);
        },
        EventData::PopularityUpdateEvent(e) => {
            out.push(8u8);
            push_u32_be(&mut out, e.popularity);
        },
        EventData::GuardEnterRoomEvent(e) => {
            out.push(9u8);
            push_enc_user(&mut out, &e.user);
        },
        EventData::HotRankChangedEvent(e) => {
            out.push(10u8);
            push_enc_str(&mut out, e.area.as_str());
            push_enc_u64(&mut out, e.rank);
            push_enc_str(&mut out, e.description.as_str());
        },
        EventData::HotRankSettlementEvent(e) => {
            out.push(11u8);
            push_enc_str(&mut out, e.uname.as_str());
            push_enc_str(&mut out, e.face.as_str());
            push_enc_str(&mut out, e.area.as_str());
            push_enc_u64(&mut out, e.rank);
        },
        EventData::OnlineRankCountEvent(e) => {
            out.push(12u8);
            push_enc_u64(&mut out, e.count);
        },
        EventData::StopLiveEvent(e) => {
            out.push(13u8);
            push_enc_u64_vec(&mut out, &e.room_id_list);
        },
    }
    assert(out@ =~= spec_event_bytes(*d));
    out
}

/// The FNV-1a offset basis.
pub const FNV_OFFSET: u64 = 0xcbf2_9ce4_8422_2325;

/// The FNV-1a prime.
pub const FNV_PRIME: u64 = 0x0000_0100_0000_01b3;

/// One FNV-1a step: fold a byte in, multiply by the prime modulo
/// two to the sixty-fourth.
pub open spec fn spec_fnv1a_step(h: u64, b: u8) -> u64 {
    u64_specs::wrapping_mul(h ^ (b as u64), FNV_PRIME)
}

/// FNV-1a folded over a byte run from the state `h`.
pub open spec fn spec_fnv1a_at(bytes: Seq<u8>, h: u64) -> u64
    decreases bytes.len(),
{
    if bytes.len() == 0 {
        h
    } else {
        spec_fnv1a_at(bytes.drop_first(), spec_fnv1a_step(h, bytes[0]))
    }
}

/// The 64-bit FNV-1a hash of a byte run.
pub open spec fn spec_fnv1a(bytes: Seq<u8>) -> u64 {
    spec_fnv1a_at(bytes, FNV_OFFSET)
}

/// The 64-bit FNV-1a hash of a byte run.
pub fn fnv1a(bytes: &[u8]) -> (h: u64)
    ensures
        h == spec_fnv1a(bytes@),
{
    let n = bytes.len();
    let mut h: u64 = FNV_OFFSET;
    let mut i: usize = 0;
    proof {
        assert(bytes@.skip(0) =~= bytes@);
    }
    while i < n
        invariant
            n == bytes@.len(),
            i <= n,
            spec_fnv1a_at(bytes@.skip(i as int), h) == spec_fnv1a(bytes@),
        decreases n - i,
    {
        proof {
            let tail = bytes@.skip(i as int);
            assert(tail[0] == bytes@[i as int]);
            assert(tail.drop_first() =~= bytes@.skip(i + 1));
        }
        h = (h ^ (bytes[i] as u64)).wrapping_mul(FNV_PRIME);
        i = i + 1;
    }
    h
}

/// The hash the deduplication hub keys on: FNV-1a over the canonical
/// byte form of the domain payload alone. Envelopes, and so
/// timestamps, never enter the hash.
pub open spec fn spec_content_hash(d: EventData) -> u64 {
    spec_fnv1a(spec_event_bytes(d))
}

/// The hash the deduplication hub keys on.
pub fn content_hash(d: &EventData) -> (h: u64)
    ensures
        h == spec_content_hash(*d),
{
    let bytes = event_bytes(d);
    fnv1a(bytes.as_slice())
}

} // verus!
