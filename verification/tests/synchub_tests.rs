use bilive_danmaku::event::{
    content_hash, lib_version, Event, EventData, EventMeta, WatchedUpdateEvent,
};
use bilive_danmaku::synchub::SyncHub;

fn watched(num: u64) -> EventData {
    EventData::WatchedUpdateEvent(WatchedUpdateEvent { num })
}

fn event_at(num: u64, time: i64) -> Event {
    Event {
        data: watched(num),
        meta: EventMeta { lib_version: lib_version(), source: None, time },
    }
}

fn stale_event(num: u64) -> Event {
    Event {
        data: watched(num),
        meta: EventMeta { lib_version: "0.0.9-other".to_string(), source: None, time: 5 },
    }
}

#[test]
fn content_hash_ignores_the_envelope() {
    let a = event_at(7, 100);
    let b = event_at(7, 999);
    assert_eq!(content_hash(&a.data), content_hash(&b.data));
    let c = event_at(8, 100);
    assert_ne!(content_hash(&a.data), content_hash(&c.data));
}

#[test]
fn dedup_two_channels_either_order() {
    let mut hub = SyncHub::new(lib_version());
    let ch0 = hub.add_channel();
    let ch1 = hub.add_channel();

    // Identical content arrives on both channels with different
    // timestamps: the first one in is forwarded, the second is not.
    assert!(hub.offer(ch0, event_at(1, 10)).is_some());
    assert!(hub.offer(ch1, event_at(1, 20)).is_none());

    // The same check with the channel order swapped, on new content.
    assert!(hub.offer(ch1, event_at(2, 30)).is_some());
    assert!(hub.offer(ch0, event_at(2, 40)).is_none());
}

#[test]
fn dedup_window_evicts_after_128_entries() {
    let mut hub = SyncHub::new(lib_version());
    let ch = hub.add_channel();

    // The original content goes in first and is forwarded.
    assert!(hub.offer(ch, event_at(0, 0)).is_some());
    // A repeat inside the window is suppressed.
    assert!(hub.offer(ch, event_at(0, 1)).is_none());

    // 128 further distinct contents slide the original out of the
    // 128-entry window.
    for i in 1..=128u64 {
        assert!(hub.offer(ch, event_at(i, i as i64)).is_some());
    }

    // The 129th distinct hash evicted the original: it counts as new
    // again.
    assert!(hub.offer(ch, event_at(0, 999)).is_some());
}

#[test]
fn version_mismatch_is_never_forwarded() {
    let mut hub = SyncHub::new(lib_version());
    let ch = hub.add_channel();

    // A stale-version event is dropped outright, however novel.
    assert!(hub.offer(ch, stale_event(3)).is_none());
    // And it was not recorded either: the same content under the
    // right version is still new.
    assert!(hub.offer(ch, event_at(3, 1)).is_some());
    // A stale repeat of recorded content is also dropped.
    assert!(hub.offer(ch, stale_event(3)).is_none());
}

#[test]
fn push_records_in_every_channel() {
    let mut hub = SyncHub::new(lib_version());
    let ch0 = hub.add_channel();
    let _ch1 = hub.add_channel();
    let ch2 = hub.add_channel();

    assert!(hub.push(ch0, event_at(5, 0)).is_some());
    // Whatever channel the repeat arrives on, it is already known.
    assert!(hub.push(ch2, event_at(5, 1)).is_none());
}

#[test]
fn remove_channel_hands_back_the_memory() {
    let mut hub = SyncHub::new(lib_version());
    let ch0 = hub.add_channel();
    let ch1 = hub.add_channel();
    assert_ne!(ch0, ch1);
    assert!(hub.remove_channel(ch0).is_some());
    assert!(hub.remove_channel(ch0).is_none());
    assert!(hub.remove_channel(ch1).is_some());
}

#[test]
fn reset_all_forgets_everything() {
    let mut hub = SyncHub::new(lib_version());
    let ch = hub.add_channel();
    assert!(hub.offer(ch, event_at(9, 0)).is_some());
    assert!(hub.offer(ch, event_at(9, 1)).is_none());
    hub.reset_all();
    // After a reset the same content is new again.
    assert!(hub.offer(ch, event_at(9, 2)).is_some());
}

#[test]
fn merge_clears_memory_and_keeps_all_channels() {
    let mut left = SyncHub::new(lib_version());
    let l0 = left.add_channel();
    assert!(left.offer(l0, event_at(4, 0)).is_some());

    let mut right = SyncHub::new(lib_version());
    let r0 = right.add_channel();
    assert!(right.offer(r0, event_at(4, 1)).is_some());

    let mut merged = left.merge(right);
    // Merged channels must not retain stale per-hub hash state:
    // content both hubs had seen is new to the merged hub.
    assert!(merged.offer(l0, event_at(4, 2)).is_some());
    assert!(merged.offer(l0, event_at(4, 3)).is_none());
}
