//! The synchronization hub: merges several redundant upstream event
//! streams into one, suppressing exact repeats by content hash and
//! discarding events from differently-versioned producers.
//!
//! The hub owns one bounded memory per registered channel: a sliding
//! window of the last 128 content hashes and a parallel membership
//! set. A pushed event is forwarded exactly when at least one
//! channel's memory reports its hash as new; the hash is recorded in
//! every channel's memory either way.

use vstd::prelude::*;

verus! {

use crate::event::{Event, spec_content_hash, content_hash};
use crate::text::str_eq;
use std::collections::HashSet;
use std::collections::VecDeque;

broadcast use vstd::std_specs::hash::group_hash_axioms;

/// How many hashes one channel's memory holds.
pub const MEMORY_SIZE: usize = 128;

/// One channel's dedup memory: the sliding window of hashes in
/// arrival order, and the membership set beside it.
#[derive(Debug)]
pub struct SyncChannel {
    id: u64,
    window: VecDeque<u64>,
    seen: HashSet<u64>,
}

/// The window after a hash is recorded: appended, and the oldest
/// entry dropped once the memory is over its bound.
pub open spec fn spec_window_after(w: Seq<u64>, h: u64) -> Seq<u64> {
    if w.len() < MEMORY_SIZE {
        w.push(h)
    } else {
        w.push(h).drop_first()
    }
}

/// The membership set after a hash is recorded: the hash added, and
/// the evicted window entry removed once the memory is over its
/// bound.
pub open spec fn spec_seen_after(w: Seq<u64>, s: Set<u64>, h: u64) -> Set<u64> {
    if w.len() < MEMORY_SIZE {
        s.insert(h)
    } else {
        s.insert(h).remove(w[0])
    }
}

impl SyncChannel {
    /// The channel's id.
    pub closed spec fn chan_id(self) -> u64 {
        self.id
    }

    /// The hash window, oldest first.
    pub closed spec fn spec_window(self) -> Seq<u64> {
        self.window@
    }

    /// The membership set.
    pub closed spec fn seen_set(self) -> Set<u64> {
        self.seen@
    }

    /// A fresh channel memory.
    pub fn new(id: u64) -> (c: SyncChannel)
        ensures
            c.chan_id() == id,
            c.spec_window() == Seq::<u64>::empty(),
            c.seen_set() == Set::<u64>::empty(),
    {
        SyncChannel { id, window: VecDeque::new(), seen: HashSet::new() }
    }

    /// Records a hash in this channel's memory and reports whether it
    /// was new to it. The window always takes the hash; once the
    /// window is over its bound, the oldest hash leaves both the
    /// window and the set.
    pub fn pull(&mut self, _id: u64, hash: u64) -> (is_new: bool)
        ensures
            is_new == !old(self).seen_set().contains(hash),
            final(self).chan_id() == old(self).chan_id(),
            final(self).spec_window() == spec_window_after(old(self).spec_window(), hash),
            final(self).seen_set() == spec_seen_after(
                old(self).spec_window(),
                old(self).seen_set(),
                hash,
            ),
    {
        self.window.push_back(hash);
        let is_new = self.seen.insert(hash);
        if self.window.len() > MEMORY_SIZE {
            let evicted = self.window.pop_front();
            match evicted {
                Some(x) => {
                    self.seen.remove(&x);
                },
                None => {},
            }
        }
        proof {
            assert(final(self).spec_window() =~= spec_window_after(
                old(self).spec_window(),
                hash,
            ));
        }
        is_new
    }

    fn reset(&mut self)
        ensures
            final(self).chan_id() == old(self).chan_id(),
            final(self).spec_window() == Seq::<u64>::empty(),
            final(self).seen_set() == Set::<u64>::empty(),
    {
        self.window.clear();
        self.seen.clear();
    }
}

// ---------------------------------------------------------------------------
// The hub
// ---------------------------------------------------------------------------

/// All channel memories stepped by one recorded hash: ids kept, each
/// window and set advanced.
pub open spec fn spec_channels_after_push(
    pre: Seq<SyncChannel>,
    post: Seq<SyncChannel>,
    h: u64,
) -> bool {
    &&& post.len() == pre.len()
    &&& forall|i: int|
        0 <= i < pre.len() ==> {
            &&& (#[trigger] post[i]).chan_id() == pre[i].chan_id()
            &&& post[i].spec_window() == spec_window_after(pre[i].spec_window(), h)
            &&& post[i].seen_set() == spec_seen_after(
                pre[i].spec_window(),
                pre[i].seen_set(),
                h,
            )
        }
}

/// Whether at least one channel's memory lacks the hash: exactly when
/// a push of an event with that hash is forwarded.
pub open spec fn spec_some_new(pre: Seq<SyncChannel>, h: u64) -> bool {
    exists|i: int| 0 <= i < pre.len() && !(#[trigger] pre[i]).seen_set().contains(h)
}

/// The first position holding the channel with the given id.
pub open spec fn spec_find_channel(chans: Seq<SyncChannel>, id: u64) -> Option<int>
    decreases chans.len(),
{
    if chans.len() == 0 {
        None
    } else if chans[0].chan_id() == id {
        Some(0)
    } else {
        match spec_find_channel(chans.drop_first(), id) {
            Some(j) => Some(j + 1),
            None => None,
        }
    }
}

/// The hub: its build version, the registered channel memories, and
/// the next fresh channel id.
#[derive(Debug)]
pub struct SyncHub {
    next_id: u64,
    version: String,
    channels: Vec<SyncChannel>,
}

impl SyncHub {
    /// The version string this hub accepts events from.
    pub closed spec fn hub_version(self) -> Seq<char> {
        self.version@
    }

    /// The registered channel memories, in registration order.
    pub closed spec fn chans(self) -> Seq<SyncChannel> {
        self.channels@
    }

    /// The next id a registered channel gets.
    pub closed spec fn next_id_spec(self) -> u64 {
        self.next_id
    }

    /// Well-formed: channel ids are distinct, and all below the next
    /// fresh id.
    pub open spec fn wf(self) -> bool {
        &&& forall|i: int, j: int|
            0 <= i < j < self.chans().len() ==> (#[trigger] self.chans()[i]).chan_id() != (
            #[trigger] self.chans()[j]).chan_id()
        &&& forall|i: int|
            0 <= i < self.chans().len() ==> (#[trigger] self.chans()[i]).chan_id()
                < self.next_id_spec()
    }

    /// An empty hub that accepts events stamped with `version`.
    pub fn new(version: String) -> (hub: SyncHub)
        ensures
            hub.wf(),
            hub.hub_version() == version@,
            hub.chans() == Seq::<SyncChannel>::empty(),
            hub.next_id_spec() == 0,
    {
        SyncHub { next_id: 0, version, channels: Vec::new() }
    }

    /// The id the next registered channel would get. Registration is
    /// possible while this is below `u64::MAX`.
    pub fn next_channel_id(&self) -> (id: u64)
        ensures
            id == self.next_id_spec(),
    {
        self.next_id
    }

    /// Hands out the next fresh channel id.
    pub fn next_id(&mut self) -> (id: u64)
        requires
            old(self).next_id_spec() < u64::MAX,
        ensures
            id == old(self).next_id_spec(),
            final(self).next_id_spec() == old(self).next_id_spec() + 1,
            final(self).chans() == old(self).chans(),
            final(self).hub_version() == old(self).hub_version(),
    {
        let id = self.next_id;
        self.next_id = self.next_id + 1;
        id
    }

    /// Registers a channel: a fresh memory under a fresh id.
    pub fn add_channel(&mut self) -> (id: u64)
        requires
            old(self).wf(),
            old(self).next_id_spec() < u64::MAX,
        ensures
            final(self).wf(),
            id == old(self).next_id_spec(),
            final(self).chans().len() == old(self).chans().len() + 1,
            final(self).chans()[final(self).chans().len() - 1].chan_id() == id,
            final(self).chans()[final(self).chans().len() - 1].spec_window()
                == Seq::<u64>::empty(),
            final(self).chans()[final(self).chans().len() - 1].seen_set() == Set::<u64>::empty(),
            forall|i: int|
                0 <= i < old(self).chans().len() ==> final(self).chans()[i] == old(self).chans()[i],
            final(self).hub_version() == old(self).hub_version(),
            final(self).next_id_spec() == old(self).next_id_spec() + 1,
    {
        let id = self.next_id();
        let chan = SyncChannel::new(id);
        self.channels.push(chan);
        id
    }

    /// Removes the channel with the given id, handing its memory
    /// back; without one, nothing changes.
    pub fn remove_channel(&mut self, id: u64) -> (r: Option<SyncChannel>)
        ensures
            match r {
                Some(ch) => {
                    &&& spec_find_channel(old(self).chans(), id) matches Some(j) && ch == old(self).chans()[j] && final(self).chans() == old(self).chans().remove(j)
                },
                None => {
                    &&& spec_find_channel(old(self).chans(), id) is None
                    &&& final(self).chans() == old(self).chans()
                },
            },
            final(self).hub_version() == old(self).hub_version(),
            final(self).next_id_spec() == old(self).next_id_spec(),
            old(self).wf() ==> final(self).wf(),
    {
        let n = self.channels.len();
        let mut i: usize = 0;
        proof {
            assert(self.channels@.skip(0) =~= self.channels@);
        }
        while i < n
            invariant
                *self == *old(self),
                n == self.channels@.len(),
                i <= n,
                (match spec_find_channel(self.channels@.skip(i as int), id) {
                    Some(j) => spec_find_channel(self.channels@, id) == Some(j + i),
                    None => spec_find_channel(self.channels@, id) is None,
                }),
                forall|k: int|
                    0 <= k < i ==> (#[trigger] self.channels@[k]).chan_id() != id,
            decreases n - i,
        {
            proof {
                let tail = self.channels@.skip(i as int);
                assert(tail[0] == self.channels@[i as int]);
                assert(tail.drop_first() =~= self.channels@.skip(i + 1));
            }
            if self.channels[i].id == id {
                let ghost pre = self.channels@;
                let ch = self.channels.remove(i);
                proof {
                    let newc = self.channels@;
                    pre.remove_ensures(i as int);
                    if old(self).wf() {
                        assert forall|a: int, b: int|
                            0 <= a < b < newc.len() implies (#[trigger] newc[a]).chan_id() != (
                        #[trigger] newc[b]).chan_id() by {
                            let av: int = if a < i { a } else { a + 1 };
                            let bv: int = if b < i { b } else { b + 1 };
                            assert(newc[a] == pre[av]);
                            assert(newc[b] == pre[bv]);
                        }
                        assert forall|a: int|
                            0 <= a < newc.len() implies (#[trigger] newc[a]).chan_id()
                            < self.next_id by {
                            let av: int = if a < i { a } else { a + 1 };
                            assert(newc[a] == pre[av]);
                        }
                    }
                }
                return Some(ch);
            }
            i = i + 1;
        }
        proof {
            assert(self.channels@.skip(n as int) =~= Seq::<SyncChannel>::empty());
        }
        None
    }

    /// Clears every channel's memory; ids and order are kept.
    pub fn reset_all(&mut self)
        ensures
            final(self).chans().len() == old(self).chans().len(),
            forall|i: int|
                0 <= i < old(self).chans().len() ==> {
                    &&& (#[trigger] final(self).chans()[i]).chan_id() == old(self).chans()[i].chan_id()
                    &&& final(self).chans()[i].spec_window() == Seq::<u64>::empty()
                    &&& final(self).chans()[i].seen_set() == Set::<u64>::empty()
                },
            final(self).hub_version() == old(self).hub_version(),
            final(self).next_id_spec() == old(self).next_id_spec(),
            old(self).wf() ==> final(self).wf(),
    {
        let n = self.channels.len();
        let mut i: usize = 0;
        let mut rebuilt: Vec<SyncChannel> = Vec::new();
        while i < n
            invariant
                n == self.channels@.len(),
                i <= n,
                rebuilt@.len() == i,
                self.channels@ == old(self).chans(),
                forall|k: int|
                    0 <= k < i ==> {
                        &&& (#[trigger] rebuilt@[k]).chan_id() == old(self).chans()[k].chan_id()
                        &&& rebuilt@[k].spec_window() == Seq::<u64>::empty()
                        &&& rebuilt@[k].seen_set() == Set::<u64>::empty()
                    },
            decreases n - i,
        {
            rebuilt.push(SyncChannel::new(self.channels[i].id));
            i = i + 1;
        }
        self.channels = rebuilt;
    }

    /// Hashes the event's domain payload, records the hash in every
    /// channel's memory, and forwards the event exactly when at least
    /// one channel reports the hash as new.
    pub fn push(&mut self, id: u64, event: Event) -> (r: Option<Event>)
        ensures
            spec_channels_after_push(
                old(self).chans(),
                final(self).chans(),
                spec_content_hash(event.data),
            ),
            r == (if spec_some_new(old(self).chans(), spec_content_hash(event.data)) {
                Some(event)
            } else {
                Option::<Event>::None
            }),
            final(self).hub_version() == old(self).hub_version(),
            final(self).next_id_spec() == old(self).next_id_spec(),
            old(self).wf() ==> final(self).wf(),
    {
        let h = content_hash(&event.data);
        let n = self.channels.len();
        let mut i: usize = 0;
        let mut fresh = false;
        while i < n
            invariant
                n == self.channels@.len(),
                n == old(self).chans().len(),
                i <= n,
                self.next_id == old(self).next_id_spec(),
                self.version@ == old(self).hub_version(),
                h == spec_content_hash(event.data),
                forall|k: int|
                    i <= k < n ==> (#[trigger] self.channels@[k]) == old(self).chans()[k],
                forall|k: int|
                    0 <= k < i ==> {
                        &&& (#[trigger] self.channels@[k]).chan_id() == old(self).chans()[k].chan_id()
                        &&& self.channels@[k].spec_window() == spec_window_after(
                            old(self).chans()[k].spec_window(),
                            h,
                        )
                        &&& self.channels@[k].seen_set() == spec_seen_after(
                            old(self).chans()[k].spec_window(),
                            old(self).chans()[k].seen_set(),
                            h,
                        )
                    },
                fresh == exists|k: int|
                    0 <= k < i && !(#[trigger] old(self).chans()[k]).seen_set().contains(h),
            decreases n - i,
        {
            let mut ch = self.channels.remove(i);
            let is_new = ch.pull(id, h);
            self.channels.insert(i, ch);
            proof {
                if is_new {
                    assert(!(old(self).chans()[i as int]).seen_set().contains(h));
                }
            }
            fresh = fresh || is_new;
            i = i + 1;
        }
        if fresh {
            Some(event)
        } else {
            None
        }
    }

    /// The hub's acceptance rule for one ready event: an event whose
    /// recorded version differs from the hub's own is discarded
    /// outright, never forwarded and never recorded; a matching event
    /// goes through the dedup push.
    pub fn offer(&mut self, id: u64, event: Event) -> (r: Option<Event>)
        ensures
            event.meta.lib_version@ != old(self).hub_version() ==> r is None && *final(self)
                == *old(self),
            event.meta.lib_version@ == old(self).hub_version() ==> {
                &&& spec_channels_after_push(
                    old(self).chans(),
                    final(self).chans(),
                    spec_content_hash(event.data),
                )
                &&& r == (if spec_some_new(old(self).chans(), spec_content_hash(event.data)) {
                    Some(event)
                } else {
                    Option::<Event>::None
                })
                &&& final(self).hub_version() == old(self).hub_version()
                &&& final(self).next_id_spec() == old(self).next_id_spec()
            },
            old(self).wf() ==> final(self).wf(),
    {
        if !str_eq(event.meta.lib_version.as_str(), self.version.as_str()) {
            return None;
        }
        self.push(id, event)
    }

    /// Combines two hubs: the receiver's channels keep their ids, the
    /// other's channels are re-registered under fresh ids, and every
    /// memory is cleared, so no stale per-hub hash state survives the
    /// merge.
    pub fn merge(self, other: SyncHub) -> (r: SyncHub)
        requires
            self.wf(),
            self.next_id_spec() + other.chans().len() <= u64::MAX,
        ensures
            r.wf(),
            r.hub_version() == self.hub_version(),
            r.chans().len() == self.chans().len() + other.chans().len(),
            forall|i: int|
                0 <= i < self.chans().len() ==> (#[trigger] r.chans()[i]).chan_id()
                    == self.chans()[i].chan_id(),
            forall|i: int|
                0 <= i < r.chans().len() ==> (#[trigger] r.chans()[i]).spec_window()
                    == Seq::<u64>::empty() && r.chans()[i].seen_set() == Set::<u64>::empty(),
    {
        let mut hub = self;
        let mut rest = other.channels;
        let ghost extra = rest@.len();
        while rest.len() > 0
            invariant
                hub.wf(),
                hub.next_id_spec() + rest@.len() <= u64::MAX,
                hub.hub_version() == self.hub_version(),
                hub.chans().len() + rest@.len() == self.chans().len() + extra,
                hub.chans().len() >= self.chans().len(),
                forall|i: int|
                    0 <= i < self.chans().len() ==> (#[trigger] hub.chans()[i]).chan_id()
                        == self.chans()[i].chan_id(),
                forall|i: int|
                    0 <= i < self.chans().len() ==> (#[trigger] hub.chans()[i]) == self.chans()[i],
                forall|i: int|
                    self.chans().len() <= i < hub.chans().len() ==> (#[trigger] hub.chans()[i]).spec_window() == Seq::<u64>::empty() && hub.chans()[i].seen_set()
                        == Set::<u64>::empty(),
            decreases rest@.len(),
        {
            let _dropped = rest.remove(0);
            let id = hub.next_id();
            let chan = SyncChannel::new(id);
            hub.channels.push(chan);
        }
        hub.reset_all();
        hub
    }
}

// ---------------------------------------------------------------------------
// Deduplication laws
// ---------------------------------------------------------------------------

/// Sync Hub dedup: where no registered channel remembers a hash, a
/// push of an event carrying it is forwarded; and right after that
/// push every channel holds the hash, so the identical content pushed
/// again, from any source, is suppressed.
pub proof fn lemma_push_then_duplicate_suppressed(
    pre: Seq<SyncChannel>,
    post: Seq<SyncChannel>,
    h: u64,
)
    requires
        pre.len() > 0,
        forall|i: int|
            0 <= i < pre.len() ==> !(#[trigger] pre[i]).seen_set().contains(h) && !pre[i].spec_window().contains(h),
        spec_channels_after_push(pre, post, h),
    ensures
        spec_some_new(pre, h),
        !spec_some_new(post, h),
{
    assert(!pre[0].seen_set().contains(h));
    assert forall|i: int| 0 <= i < post.len() implies (#[trigger] post[i]).seen_set().contains(h)
    by {
        let w = pre[i].spec_window();
        if w.len() >= MEMORY_SIZE {
            assert(w.contains(w[0]));
        }
    }
}

/// Sync Hub eviction: a channel whose window holds its full bound of
/// distinct hashes drops the oldest one from both halves of its
/// memory when yet another hash comes in, so that oldest content
/// counts as new again.
pub proof fn lemma_eviction_frees_oldest(w: Seq<u64>, s: Set<u64>, h: u64)
    requires
        w.len() == MEMORY_SIZE,
        forall|k: int| 0 <= k < w.len() ==> (#[trigger] w[k]) != h,
        forall|k: int| 1 <= k < w.len() ==> (#[trigger] w[k]) != w[0],
    ensures
        !spec_seen_after(w, s, h).contains(w[0]),
        forall|k: int|
            0 <= k < spec_window_after(w, h).len() ==> (#[trigger] spec_window_after(w, h)[k])
                != w[0],
{
    let wa = spec_window_after(w, h);
    assert(wa =~= w.push(h).drop_first());
    assert forall|k: int| 0 <= k < wa.len() implies (#[trigger] wa[k]) != w[0] by {
        assert(wa[k] == w.push(h)[k + 1]);
    }
}

} // verus!
