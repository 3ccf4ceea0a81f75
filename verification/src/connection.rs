//! The connection engine's verifiable half: the handshake frame and
//! its reply check, and the receive loop's pending-event buffer. The
//! sockets, task spawning and timers around these live outside the
//! library; they hand frames in as plain bytes and take events back.

use vstd::prelude::*;

verus! {

use crate::event::{Event, EventMeta};
use crate::packet::{
    Auth, Data, DataDisposition, EventParseError, FrameError, FrameModel, MAX_NEST, Operation,
    RawPacket, spec_auth_payload, spec_data_disposition, spec_data_event_ok, spec_frame_bytes,
    spec_frame_from, spec_opt_str, spec_packet_datas,
};
use std::collections::VecDeque;

/// The fixed heartbeat period, in seconds: one heartbeat frame is
/// sent on this period for the lifetime of a connection.
pub const HEARTBEAT_SECS: u64 = 30;

/// Why the WebSocket handshake failed.
#[derive(Debug, Clone)]
pub enum WsConnectError {
    /// The transport reported a fault, in words.
    WsError(String),
    /// The stream ended before the authentication reply arrived.
    UnexpecedEnd,
    /// The authentication reply was not a binary frame.
    AuthFailed,
    /// The socket could not be opened.
    FailToConnect,
    /// The authentication frame could not be sent.
    FailToSendAuth,
    /// No authentication reply arrived.
    FailToAuth,
}

/// Why a live event stream ended. There is no normal exhaustion for
/// a live connection: every end is one of these.
#[derive(Debug, Clone)]
pub enum EventStreamError {
    /// The peer closed the connection.
    ConnectionClosed,
    /// The transport reported a fault, in words.
    WsError(String),
}

/// A transport message as the engine classifies it.
#[derive(Debug)]
pub enum WsMessage {
    /// A binary frame: the only kind the protocol speaks.
    Binary(Vec<u8>),
    /// A text frame, unexpected on this protocol.
    Text(String),
    /// A close frame.
    Close,
    /// Anything else (ping, pong, fragments).
    Other,
}

/// The authentication frame sent right after the socket opens: the
/// serialized auth payload wrapped in a frame with the `Auth` opcode.
/// `None` only if the payload cannot fit a frame's 32-bit length.
pub fn auth_frame(auth: &Auth) -> (r: Option<Vec<u8>>)
    ensures
        ({
            let payload = spec_auth_payload(
                auth.uid,
                auth.roomid,
                auth.protover,
                auth.platform@,
                auth.auth_type,
                spec_opt_str(auth.key),
            );
            match r {
                Some(bytes) => 16 + payload.len() <= u32::MAX && bytes@ == spec_frame_bytes(
                    FrameModel {
                        total_size: (16 + payload.len()) as u32,
                        header_size: 16u16,
                        codec_tag: 1u16,
                        opcode: Operation::Auth.spec_code(),
                        sequence: 1u32,
                        payload: payload,
                    },
                ),
                None => 16 + payload.len() > u32::MAX,
            }
        }),
{
    let payload = auth.ser();
    if payload.len() > (u32::MAX - 16) as usize {
        return None;
    }
    let p = RawPacket::build(Operation::Auth, payload);
    Some(p.ser())
}

/// What the handshake requires of the first reply: a binary frame
/// carries the authentication answer; a missing reply means the
/// stream ended early; anything else fails the authentication.
pub fn classify_auth_reply(reply: Option<WsMessage>) -> (r: Result<Vec<u8>, WsConnectError>)
    ensures
        match reply {
            Some(WsMessage::Binary(b)) => r == Ok::<Vec<u8>, WsConnectError>(b),
            Some(_) => r matches Err(WsConnectError::AuthFailed),
            None => r matches Err(WsConnectError::UnexpecedEnd),
        },
{
    match reply {
        Some(WsMessage::Binary(b)) => Ok(b),
        Some(_) => Err(WsConnectError::AuthFailed),
        None => Err(WsConnectError::UnexpecedEnd),
    }
}

// ---------------------------------------------------------------------------
// The pending-event buffer
// ---------------------------------------------------------------------------

/// The payload units of a frame that yield an event, in order.
pub open spec fn spec_kept_units(datas: Seq<Data>) -> Seq<Data> {
    datas.filter(|d: Data| spec_data_disposition(d) == DataDisposition::Event)
}

proof fn lemma_kept_units_step(s: Seq<Data>, d: Data)
    ensures
        spec_kept_units(s.push(d)) == (if spec_data_disposition(d) == DataDisposition::Event {
            spec_kept_units(s).push(d)
        } else {
            spec_kept_units(s)
        }),
{
    reveal(Seq::filter);
    assert(s.push(d).drop_last() =~= s);
    assert(s.push(d).last() == d);
}

fn clone_meta(m: &EventMeta) -> (r: EventMeta)
    ensures
        r == *m,
{
    EventMeta {
        lib_version: m.lib_version.clone(),
        source: (match &m.source {
            Some(s) => Some(
                crate::event::EventSource { room_id: s.room_id, url: s.url.clone() },
            ),
            None => None,
        }),
        time: m.time,
    }
}

/// The receive loop's pending-event FIFO: one inbound frame commonly
/// decodes to several domain events, which are handed out one poll at
/// a time.
#[derive(Debug)]
pub struct EventBuffer {
    queue: VecDeque<Event>,
}

impl EventBuffer {
    /// The queued events, oldest first.
    pub closed spec fn pending(self) -> Seq<Event> {
        self.queue@
    }

    /// An empty buffer.
    pub fn new() -> (b: EventBuffer)
        ensures
            b.pending() == Seq::<Event>::empty(),
    {
        EventBuffer { queue: VecDeque::new() }
    }

    /// Hands out the oldest pending event, if any.
    pub fn pop_event(&mut self) -> (r: Option<Event>)
        ensures
            match r {
                Some(e) => old(self).pending().len() > 0 && e == old(self).pending()[0] && final(self).pending() == old(self).pending().drop_first(),
                None => old(self).pending().len() == 0 && final(self).pending() == old(self).pending(),
            },
    {
        let r = self.queue.pop_front();
        proof {
            if old(self).pending().len() > 0 {
                assert(final(self).pending() =~= old(self).pending().drop_first());
            }
        }
        r
    }

    /// Decodes one inbound binary frame and appends every event it
    /// yields, in the order the frame produced them, each under the
    /// given envelope. Payload units that carry no event (noise
    /// commands, malformed messages, the legacy-deflate limitation)
    /// are dropped; a buffer too short for a frame header is the one
    /// fault, and leaves the pending queue unchanged.
    pub fn ingest_frame(&mut self, buffer: &[u8], meta: &EventMeta) -> (r: Result<
        (),
        FrameError,
    >)
        ensures
            match r {
                Ok(_) => buffer@.len() >= 16 && ({
                    let kept = spec_kept_units(
                        spec_packet_datas(spec_frame_from(buffer@), MAX_NEST as nat),
                    );
                    let oldq = old(self).pending();
                    &&& final(self).pending().len() == oldq.len() + kept.len()
                    &&& forall|k: int|
                        0 <= k < oldq.len() ==> final(self).pending()[k] == oldq[k]
                    &&& forall|k: int|
                        0 <= k < kept.len() ==> spec_data_event_ok(
                            kept[k],
                            (#[trigger] final(self).pending()[oldq.len() + k]).data,
                        ) && final(self).pending()[oldq.len() + k].meta == *meta
                }),
                Err(e) => buffer@.len() < 16 && e == FrameError::ShortHeader && final(self).pending() == old(self).pending(),
            },
    {
        let packet = match RawPacket::from_buffer(buffer) {
            Ok(p) => p,
            Err(e) => {
                return Err(e);
            },
        };
        let mut datas = packet.get_datas();
        let ghost dseq = datas@;
        let ghost oldq = self.queue@;
        let mut i: usize = 0;
        let n = datas.len();
        proof {
            assert(dseq.take(0) =~= Seq::<Data>::empty());
            assert(spec_kept_units(Seq::<Data>::empty()) =~= Seq::<Data>::empty());
            assert(dseq.skip(0) =~= dseq);
        }
        while i < n
            invariant
                n == dseq.len(),
                i <= n,
                datas@ == dseq.skip(i as int),
                oldq == old(self).pending(),
                self.queue@.len() == oldq.len() + spec_kept_units(dseq.take(i as int)).len(),
                forall|k: int| 0 <= k < oldq.len() ==> self.queue@[k] == oldq[k],
                forall|k: int|
                    0 <= k < spec_kept_units(dseq.take(i as int)).len() ==> spec_data_event_ok(
                        spec_kept_units(dseq.take(i as int))[k],
                        (#[trigger] self.queue@[oldq.len() + k]).data,
                    ) && self.queue@[oldq.len() + k].meta == *meta,
            decreases n - i,
        {
            proof {
                assert(datas@[0] == dseq[i as int]);
            }
            let d = datas.remove(0);
            let ghost kept_pre = spec_kept_units(dseq.take(i as int));
            proof {
                assert(dseq.take(i + 1) =~= dseq.take(i as int).push(dseq[i as int]));
                lemma_kept_units_step(dseq.take(i as int), dseq[i as int]);
            }
            match d.into_event_data() {
                Ok(Some(edata)) => {
                    self.queue.push_back(Event { data: edata, meta: clone_meta(meta) });
                    proof {
                        assert(spec_kept_units(dseq.take(i + 1)) =~= kept_pre.push(
                            dseq[i as int],
                        ));
                    }
                },
                Ok(None) => {
                    proof {
                        assert(spec_kept_units(dseq.take(i + 1)) =~= kept_pre);
                    }
                },
                Err(_) => {
                    proof {
                        assert(spec_kept_units(dseq.take(i + 1)) =~= kept_pre);
                    }
                },
            }
            proof {
                assert(datas@ =~= dseq.skip(i + 1));
            }
            i = i + 1;
        }
        proof {
            assert(dseq.take(n as int) =~= dseq);
        }
        Ok(())
    }
}

} // verus!
