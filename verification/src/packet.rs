//! The binary frame layer: a 16-byte big-endian header followed by a
//! payload, the closed set of protocol opcodes, and the multi-codec
//! payload decoder (raw JSON, 32-bit counter, legacy deflate stub, and
//! the brotli container of concatenated frames).

use vstd::prelude::*;

verus! {

use crate::json::{JsonValue, spec_json_parse, json_parse};

// ---------------------------------------------------------------------------
// Big-endian byte order
// ---------------------------------------------------------------------------

/// The two big-endian bytes of a `u16`.
pub open spec fn spec_u16_be(x: u16) -> Seq<u8> {
    seq![((x >> 8) & 0xff) as u8, (x & 0xff) as u8]
}

/// The `u16` read from two big-endian bytes.
pub open spec fn spec_u16_from_be(s: Seq<u8>) -> u16
    recommends
        s.len() == 2,
{
    ((s[0] as u16) << 8) | (s[1] as u16)
}

/// The four big-endian bytes of a `u32`.
pub open spec fn spec_u32_be(x: u32) -> Seq<u8> {
    seq![
        ((x >> 24) & 0xff) as u8,
        ((x >> 16) & 0xff) as u8,
        ((x >> 8) & 0xff) as u8,
        (x & 0xff) as u8,
    ]
}

/// The `u32` read from four big-endian bytes.
pub open spec fn spec_u32_from_be(s: Seq<u8>) -> u32
    recommends
        s.len() == 4,
{
    ((s[0] as u32) << 24) | ((s[1] as u32) << 16) | ((s[2] as u32) << 8) | (s[3] as u32)
}

/// Reading back the two bytes of a `u16` yields the `u16`.
pub proof fn lemma_u16_be_round_trip(x: u16)
    ensures
        spec_u16_from_be(spec_u16_be(x)) == x,
{
    let s = spec_u16_be(x);
    assert((x >> 8) & 0xff < 256 && x & 0xff < 256) by (bit_vector);
    assert(s[0] == ((x >> 8) & 0xff) as u8 && s[1] == (x & 0xff) as u8);
    assert(((((x >> 8) & 0xff) as u8 as u16) << 8) | ((x & 0xff) as u8 as u16) == x)
        by (bit_vector);
}

/// Reading back the four bytes of a `u32` yields the `u32`.
pub proof fn lemma_u32_be_round_trip(x: u32)
    ensures
        spec_u32_from_be(spec_u32_be(x)) == x,
{
    let s = spec_u32_be(x);
    assert(s[0] == ((x >> 24) & 0xff) as u8 && s[1] == ((x >> 16) & 0xff) as u8 && s[2] == ((x
        >> 8) & 0xff) as u8 && s[3] == (x & 0xff) as u8);
    assert(((((x >> 24) & 0xff) as u8 as u32) << 24) | ((((x >> 16) & 0xff) as u8 as u32) << 16) | (
    (((x >> 8) & 0xff) as u8 as u32) << 8) | ((x & 0xff) as u8 as u32) == x) by (bit_vector);
}

/// Appends the two big-endian bytes of `x` to `out`.
pub fn push_u16_be(out: &mut Vec<u8>, x: u16)
    ensures
        final(out)@ == old(out)@ + spec_u16_be(x),
{
    out.push(((x >> 8) & 0xff) as u8);
    out.push((x & 0xff) as u8);
    assert(out@ =~= old(out)@ + spec_u16_be(x));
}

/// Appends the four big-endian bytes of `x` to `out`.
pub fn push_u32_be(out: &mut Vec<u8>, x: u32)
    ensures
        final(out)@ == old(out)@ + spec_u32_be(x),
{
    out.push(((x >> 24) & 0xff) as u8);
    out.push(((x >> 16) & 0xff) as u8);
    out.push(((x >> 8) & 0xff) as u8);
    out.push((x & 0xff) as u8);
    assert(out@ =~= old(out)@ + spec_u32_be(x));
}

/// Reads a big-endian `u16` at offset `off`.
pub fn read_u16_be(b: &[u8], off: usize) -> (x: u16)
    requires
        off + 2 <= b@.len(),
    ensures
        x == spec_u16_from_be(b@.subrange(off as int, off + 2)),
{
    let x = (((b[off] as u16) << 8) as u16) | (b[off + 1] as u16);
    proof {
        let s = b@.subrange(off as int, off + 2);
        assert(s[0] == b@[off as int] && s[1] == b@[off + 1]);
    }
    x
}

/// Reads a big-endian `u32` at offset `off`.
pub fn read_u32_be(b: &[u8], off: usize) -> (x: u32)
    requires
        off + 4 <= b@.len(),
    ensures
        x == spec_u32_from_be(b@.subrange(off as int, off + 4)),
{
    let x = (((b[off] as u32) << 24) as u32) | (((b[off + 1] as u32) << 16) as u32) | (((b[off
        + 2] as u32) << 8) as u32) | (b[off + 3] as u32);
    proof {
        let s = b@.subrange(off as int, off + 4);
        assert(s[0] == b@[off as int] && s[1] == b@[off + 1] && s[2] == b@[off + 2] && s[3] == b@[
            off + 3]);
    }
    x
}

// ---------------------------------------------------------------------------
// Operations
// ---------------------------------------------------------------------------

/// The protocol's opcodes. Only `Auth` and `Heartbeat` are ever sent
/// by this client; the rest are recognized on receipt.
#[derive(Debug, Clone, Copy, PartialEq, Eq, Structural)]
pub enum Operation {
    Handshake,
    HandshakeReply,
    Heartbeat,
    HeartbeatReply,
    SendMsg,
    SendMsgReply,
    DisconnectReply,
    Auth,
    AuthReply,
    ProtoReady,
    ProtoFinish,
    ChangeRoom,
    ChangeRoomReply,
    Register,
    RegisterReply,
    Unregister,
    UnregisterReply,
}

impl Operation {
    /// The wire number of this opcode.
    pub open spec fn spec_code(self) -> u32 {
        match self {
            Operation::Handshake => 0,
            Operation::HandshakeReply => 1,
            Operation::Heartbeat => 2,
            Operation::HeartbeatReply => 3,
            Operation::SendMsg => 4,
            Operation::SendMsgReply => 5,
            Operation::DisconnectReply => 6,
            Operation::Auth => 7,
            Operation::AuthReply => 8,
            Operation::ProtoReady => 9,
            Operation::ProtoFinish => 10,
            Operation::ChangeRoom => 11,
            Operation::ChangeRoomReply => 12,
            Operation::Register => 13,
            Operation::RegisterReply => 14,
            Operation::Unregister => 15,
            Operation::UnregisterReply => 16,
        }
    }

    /// The wire number of this opcode.
    pub fn code(self) -> (c: u32)
        ensures
            c == self.spec_code(),
    {
        match self {
            Operation::Handshake => 0,
            Operation::HandshakeReply => 1,
            Operation::Heartbeat => 2,
            Operation::HeartbeatReply => 3,
            Operation::SendMsg => 4,
            Operation::SendMsgReply => 5,
            Operation::DisconnectReply => 6,
            Operation::Auth => 7,
            Operation::AuthReply => 8,
            Operation::ProtoReady => 9,
            Operation::ProtoFinish => 10,
            Operation::ChangeRoom => 11,
            Operation::ChangeRoomReply => 12,
            Operation::Register => 13,
            Operation::RegisterReply => 14,
            Operation::Unregister => 15,
            Operation::UnregisterReply => 16,
        }
    }

    /// The opcode a wire number stands for, if any.
    pub open spec fn spec_from_code(c: u32) -> Option<Operation> {
        if c == 0 { Some(Operation::Handshake) }
        else if c == 1 { Some(Operation::HandshakeReply) }
        else if c == 2 { Some(Operation::Heartbeat) }
        else if c == 3 { Some(Operation::HeartbeatReply) }
        else if c == 4 { Some(Operation::SendMsg) }
        else if c == 5 { Some(Operation::SendMsgReply) }
        else if c == 6 { Some(Operation::DisconnectReply) }
        else if c == 7 { Some(Operation::Auth) }
        else if c == 8 { Some(Operation::AuthReply) }
        else if c == 9 { Some(Operation::ProtoReady) }
        else if c == 10 { Some(Operation::ProtoFinish) }
        else if c == 11 { Some(Operation::ChangeRoom) }
        else if c == 12 { Some(Operation::ChangeRoomReply) }
        else if c == 13 { Some(Operation::Register) }
        else if c == 14 { Some(Operation::RegisterReply) }
        else if c == 15 { Some(Operation::Unregister) }
        else if c == 16 { Some(Operation::UnregisterReply) }
        else { None }
    }

    /// The opcode a wire number stands for, if any.
    pub fn from_code(c: u32) -> (op: Option<Operation>)
        ensures
            op == Operation::spec_from_code(c),
    {
        if c == 0 { Some(Operation::Handshake) }
        else if c == 1 { Some(Operation::HandshakeReply) }
        else if c == 2 { Some(Operation::Heartbeat) }
        else if c == 3 { Some(Operation::HeartbeatReply) }
        else if c == 4 { Some(Operation::SendMsg) }
        else if c == 5 { Some(Operation::SendMsgReply) }
        else if c == 6 { Some(Operation::DisconnectReply) }
        else if c == 7 { Some(Operation::Auth) }
        else if c == 8 { Some(Operation::AuthReply) }
        else if c == 9 { Some(Operation::ProtoReady) }
        else if c == 10 { Some(Operation::ProtoFinish) }
        else if c == 11 { Some(Operation::ChangeRoom) }
        else if c == 12 { Some(Operation::ChangeRoomReply) }
        else if c == 13 { Some(Operation::Register) }
        else if c == 14 { Some(Operation::RegisterReply) }
        else if c == 15 { Some(Operation::Unregister) }
        else if c == 16 { Some(Operation::UnregisterReply) }
        else { None }
    }

    /// Every opcode's wire number reads back as that opcode.
    pub proof fn lemma_code_round_trip(self)
        ensures
            Operation::spec_from_code(self.spec_code()) == Some(self),
    {
    }
}

// ---------------------------------------------------------------------------
// Frames
// ---------------------------------------------------------------------------

/// A frame's fields as mathematics: what `RawPacket` looks like in
/// contracts.
pub ghost struct FrameModel {
    pub total_size: u32,
    pub header_size: u16,
    pub codec_tag: u16,
    pub opcode: u32,
    pub sequence: u32,
    pub payload: Seq<u8>,
}

/// One protocol frame: a 16-byte header and the payload bytes.
///
/// `total_size` counts the header; `codec_tag` selects how the payload
/// is to be read; `opcode` maps to an `Operation`; `sequence` is
/// carried but never interpreted.
#[derive(Debug, Clone)]
pub struct RawPacket {
    pub total_size: u32,
    pub header_size: u16,
    pub codec_tag: u16,
    pub opcode: u32,
    pub sequence: u32,
    pub payload: Vec<u8>,
}

impl View for RawPacket {
    type V = FrameModel;

    open spec fn view(&self) -> FrameModel {
        FrameModel {
            total_size: self.total_size,
            header_size: self.header_size,
            codec_tag: self.codec_tag,
            opcode: self.opcode,
            sequence: self.sequence,
            payload: self.payload@,
        }
    }
}

/// The 16 header bytes of a frame, big-endian throughout.
pub open spec fn spec_header_bytes(f: FrameModel) -> Seq<u8> {
    spec_u32_be(f.total_size) + spec_u16_be(f.header_size) + spec_u16_be(f.codec_tag)
        + spec_u32_be(f.opcode) + spec_u32_be(f.sequence)
}

/// A frame on the wire: header bytes then payload bytes.
pub open spec fn spec_frame_bytes(f: FrameModel) -> Seq<u8> {
    spec_header_bytes(f) + f.payload
}

/// The frame read from a buffer that holds at least a header: fields
/// from the first 16 bytes, payload from everything after them.
pub open spec fn spec_frame_from(b: Seq<u8>) -> FrameModel
    recommends
        b.len() >= 16,
{
    FrameModel {
        total_size: spec_u32_from_be(b.subrange(0, 4)),
        header_size: spec_u16_from_be(b.subrange(4, 6)),
        codec_tag: spec_u16_from_be(b.subrange(6, 8)),
        opcode: spec_u32_from_be(b.subrange(8, 12)),
        sequence: spec_u32_from_be(b.subrange(12, 16)),
        payload: b.skip(16),
    }
}

/// A framing fault: the wire bytes cannot be split into frames.
#[derive(Debug, Clone, Copy, PartialEq, Eq, Structural)]
pub enum FrameError {
    /// The buffer ends before a full 16-byte header.
    ShortHeader,
    /// A frame's declared `total_size` is below the header length or
    /// runs past the end of the buffer.
    BadLength,
}

impl RawPacket {
    /// The canned heartbeat frame, sent on a fixed period; its payload
    /// is the fixed literal the upstream service expects.
    pub fn heartbeat() -> (p: RawPacket)
        ensures
            p@.total_size == 31,
            p@.header_size == 16,
            p@.codec_tag == 1,
            p@.opcode == Operation::Heartbeat.spec_code(),
            p@.sequence == 1,
            p@.payload == crate::text::spec_str_bytes("[object Object]"@),
    {
        let mut payload: Vec<u8> = Vec::new();
        crate::text::push_str_bytes(&mut payload, "[object Object]");
        RawPacket {
            total_size: 31,
            header_size: 16,
            codec_tag: 1,
            opcode: 2,
            sequence: 1,
            payload,
        }
    }

    /// Builds an outbound frame around a payload: header length 16,
    /// codec tag 1 (the convention for client-authored frames), the
    /// given opcode, sequence 1.
    pub fn build(op: Operation, data: Vec<u8>) -> (p: RawPacket)
        requires
            16 + data@.len() <= u32::MAX,
        ensures
            p@ == (FrameModel {
                total_size: (16 + data@.len()) as u32,
                header_size: 16u16,
                codec_tag: 1u16,
                opcode: op.spec_code(),
                sequence: 1u32,
                payload: data@,
            }),
    {
        let total_size = (16 + data.len()) as u32;
        RawPacket {
            total_size,
            header_size: 16,
            codec_tag: 1,
            opcode: op.code(),
            sequence: 1,
            payload: data,
        }
    }

    /// Serializes the frame: the 16 big-endian header bytes, then the
    /// payload bytes.
    pub fn ser(&self) -> (out: Vec<u8>)
        ensures
            out@ == spec_frame_bytes(self@),
    {
        let mut out: Vec<u8> = Vec::new();
        push_u32_be(&mut out, self.total_size);
        push_u16_be(&mut out, self.header_size);
        push_u16_be(&mut out, self.codec_tag);
        push_u32_be(&mut out, self.opcode);
        push_u32_be(&mut out, self.sequence);
        crate::text::push_bytes(&mut out, self.payload.as_slice());
        assert(out@ =~= spec_frame_bytes(self@));
        out
    }

    /// Reads one frame from a buffer: the header from the first 16
    /// bytes, the payload from everything after them. Fails exactly
    /// when the buffer cannot hold a header.
    pub fn from_buffer(buffer: &[u8]) -> (r: Result<RawPacket, FrameError>)
        ensures
            match r {
                Ok(p) => buffer@.len() >= 16 && p@ == spec_frame_from(buffer@),
                Err(e) => buffer@.len() < 16 && e == FrameError::ShortHeader,
            },
    {
        if buffer.len() < 16 {
            return Err(FrameError::ShortHeader);
        }
        let total_size = read_u32_be(buffer, 0);
        let header_size = read_u16_be(buffer, 4);
        let codec_tag = read_u16_be(buffer, 6);
        let opcode = read_u32_be(buffer, 8);
        let sequence = read_u32_be(buffer, 12);
        let rest = vstd::slice::slice_subrange(buffer, 16, buffer.len());
        let payload = vstd::slice::slice_to_vec(rest);
        let p = RawPacket { total_size, header_size, codec_tag, opcode, sequence, payload };
        proof {
            assert(buffer@.subrange(16, buffer@.len() as int) =~= buffer@.skip(16));
        }
        Ok(p)
    }
}

/// Splitting a buffer into complete frames, each self-describing via
/// its `total_size`: `None` when a header is cut short, a frame claims
/// less than a header, or a frame runs past the end.
pub open spec fn spec_split_frames(b: Seq<u8>) -> Option<Seq<FrameModel>>
    decreases b.len(),
{
    if b.len() == 0 {
        Some(seq![])
    } else if b.len() < 16 {
        None
    } else {
        let total = spec_u32_from_be(b.subrange(0, 4));
        if total < 16 || total > b.len() {
            None
        } else {
            let head = spec_frame_from(b.take(total as int));
            match spec_split_frames(b.skip(total as int)) {
                Some(rest) => Some(seq![head] + rest),
                None => None,
            }
        }
    }
}

impl RawPacket {
    /// Splits a buffer that concatenates complete frames, advancing by
    /// each frame's own `total_size` until the buffer is exhausted.
    pub fn from_buffers(buffer: &[u8]) -> (r: Result<Vec<RawPacket>, FrameError>)
        ensures
            match r {
                Ok(ps) => spec_split_frames(buffer@) == Some(
                    Seq::new(ps@.len(), |i: int| ps@[i]@),
                ),
                Err(_) => spec_split_frames(buffer@) is None,
            },
    {
        let mut packets: Vec<RawPacket> = Vec::new();
        let mut pos: usize = 0;
        let ghost whole = spec_split_frames(buffer@);
        proof {
            assert(buffer@.skip(0) =~= buffer@);
            if whole is Some {
                assert(Seq::new(packets@.len(), |i: int| packets@[i]@) + whole->Some_0
                    =~= whole->Some_0);
            }
        }
        while pos < buffer.len()
            invariant
                pos <= buffer@.len(),
                whole == spec_split_frames(buffer@),
                (match spec_split_frames(buffer@.skip(pos as int)) {
                    Some(rest) => whole == Some(Seq::new(packets@.len(), |i: int| packets@[i]@) + rest),
                    None => whole is None,
                }),
            decreases buffer@.len() - pos,
        {
            let remaining = buffer.len() - pos;
            if remaining < 16 {
                return Err(FrameError::ShortHeader);
            }
            let total32 = read_u32_be(buffer, pos);
            proof {
                assert(buffer@.subrange(pos as int, pos + 4) =~= buffer@.skip(pos as int).subrange(
                    0,
                    4,
                ));
            }
            if total32 < 16 {
                return Err(FrameError::BadLength);
            }
            let total = total32 as usize;
            if total > remaining {
                return Err(FrameError::BadLength);
            }
            let header_size = read_u16_be(buffer, pos + 4);
            let codec_tag = read_u16_be(buffer, pos + 6);
            let opcode = read_u32_be(buffer, pos + 8);
            let sequence = read_u32_be(buffer, pos + 12);
            let body = vstd::slice::slice_subrange(buffer, pos + 16, pos + total);
            let payload = vstd::slice::slice_to_vec(body);
            let p = RawPacket { total_size: total32, header_size, codec_tag, opcode, sequence, payload };
            proof {
                let tail = buffer@.skip(pos as int);
                let cut = tail.take(total as int);
                assert(cut.subrange(0, 4) =~= buffer@.subrange(pos as int, pos + 4));
                assert(cut.subrange(4, 6) =~= buffer@.subrange(pos + 4, pos + 6));
                assert(cut.subrange(6, 8) =~= buffer@.subrange(pos + 6, pos + 8));
                assert(cut.subrange(8, 12) =~= buffer@.subrange(pos + 8, pos + 12));
                assert(cut.subrange(12, 16) =~= buffer@.subrange(pos + 12, pos + 16));
                assert(cut.skip(16) =~= buffer@.subrange(pos + 16, pos + total));
                assert(p@ == spec_frame_from(cut));
                assert(tail.skip(total as int) =~= buffer@.skip(pos + total));
            }
            packets.push(p);
            pos = pos + total;
            proof {
                let ps = Seq::new(packets@.len(), |i: int| packets@[i]@);
                let prev = ps.drop_last();
                assert(prev =~= Seq::new(prev.len(), |i: int| packets@.drop_last()[i]@));
                match spec_split_frames(buffer@.skip(pos as int)) {
                    Some(rest) => {
                        assert(ps + rest =~= prev + (seq![p@] + rest));
                    },
                    None => {},
                }
            }
        }
        proof {
            assert(buffer@.skip(pos as int) =~= Seq::<u8>::empty());
            assert(Seq::new(packets@.len(), |i: int| packets@[i]@) + Seq::<FrameModel>::empty()
                =~= Seq::new(packets@.len(), |i: int| packets@[i]@));
        }
        Ok(packets)
    }
}

// ---------------------------------------------------------------------------
// Payload decoding
// ---------------------------------------------------------------------------

/// One decoded payload unit of a frame.
#[derive(Debug)]
pub enum Data {
    /// A parsed JSON document (codec tag 0).
    Json(JsonValue),
    /// The current "watching" count (codec tag 1).
    Popularity(u32),
    /// The legacy deflate codec (tag 2), recognized but not decoded:
    /// an explicit limitation carried over from the protocol.
    Deflate,
}

/// What the outside brotli decoder returns on the given bytes: `None`
/// when the stream is not a valid brotli stream, otherwise the
/// decompressed bytes. The result is a function of the bytes alone.
pub uninterp spec fn spec_brotli_inflate(bytes: Seq<u8>) -> Option<Seq<u8>>;

/// Relies on `brotli::Decompressor` (the `brotli` crate's stream
/// reader): decompresses a complete brotli stream, deterministically
/// in the bytes alone, and fails exactly on invalid streams.
#[verifier::external_body]
fn brotli_inflate(bytes: &[u8]) -> (r: Option<Vec<u8>>)
    ensures
        match r {
            Some(v) => spec_brotli_inflate(bytes@) == Some(v@),
            None => spec_brotli_inflate(bytes@) is None,
        },
{
    let mut out: Vec<u8> = Vec::new();
    let mut dec = brotli::Decompressor::new(bytes, 4096);
    match std::io::Read::read_to_end(&mut dec, &mut out) {
        Ok(_) => Some(out),
        Err(_) => None,
    }
}

/// How deep nested brotli containers are followed. The live protocol
/// nests one level; the cap is defensive.
pub const MAX_NEST: usize = 8;

/// The payload units of one frame, by codec tag: a parsed JSON
/// document (tag 0, nothing on malformed text), the big-endian counter
/// from the first four payload bytes (tag 1, nothing on a short
/// payload), the undecoded legacy-deflate marker (tag 2), and, for the
/// brotli container (tag 3), the units of every frame in the
/// decompressed concatenation, in order, to `depth` levels; nothing on
/// an unknown tag, a failed decompression, a malformed concatenation,
/// or exhausted depth.
pub open spec fn spec_packet_datas(f: FrameModel, depth: nat) -> Seq<Data>
    decreases depth, 0nat,
{
    if f.codec_tag == 0 {
        match spec_json_parse(f.payload) {
            Some(v) => seq![Data::Json(v)],
            None => seq![],
        }
    } else if f.codec_tag == 1 {
        if f.payload.len() >= 4 {
            seq![Data::Popularity(spec_u32_from_be(f.payload.subrange(0, 4)))]
        } else {
            seq![]
        }
    } else if f.codec_tag == 2 {
        seq![Data::Deflate]
    } else if f.codec_tag == 3 {
        if depth == 0 {
            seq![]
        } else {
            match spec_brotli_inflate(f.payload) {
                Some(bytes) => match spec_split_frames(bytes) {
                    Some(frames) => spec_frames_datas(frames, (depth - 1) as nat),
                    None => seq![],
                },
                None => seq![],
            }
        }
    } else {
        seq![]
    }
}

/// The concatenated payload units of a run of frames.
pub open spec fn spec_frames_datas(frames: Seq<FrameModel>, depth: nat) -> Seq<Data>
    decreases depth, frames.len() + 1,
{
    if frames.len() == 0 {
        seq![]
    } else {
        spec_packet_datas(frames[0], depth) + spec_frames_datas(frames.drop_first(), depth)
    }
}

impl RawPacket {
    /// Decodes the frame's payload into its units, dispatching on the
    /// codec tag and following brotli containers `MAX_NEST` levels
    /// deep.
    pub fn get_datas(self) -> (datas: Vec<Data>)
        ensures
            datas@ == spec_packet_datas(self@, MAX_NEST as nat),
    {
        self.datas_nested(MAX_NEST)
    }

    fn datas_nested(&self, depth: usize) -> (datas: Vec<Data>)
        ensures
            datas@ == spec_packet_datas(self@, depth as nat),
        decreases depth,
    {
        let mut out: Vec<Data> = Vec::new();
        if self.codec_tag == 0 {
            match json_parse(self.payload.as_slice()) {
                Some(v) => {
                    out.push(Data::Json(v));
                    assert(out@ =~= spec_packet_datas(self@, depth as nat));
                },
                None => {
                    assert(out@ =~= spec_packet_datas(self@, depth as nat));
                },
            }
            out
        } else if self.codec_tag == 1 {
            if self.payload.len() >= 4 {
                let n = read_u32_be(self.payload.as_slice(), 0);
                out.push(Data::Popularity(n));
            }
            assert(out@ =~= spec_packet_datas(self@, depth as nat));
            out
        } else if self.codec_tag == 2 {
            out.push(Data::Deflate);
            assert(out@ =~= spec_packet_datas(self@, depth as nat));
            out
        } else if self.codec_tag == 3 {
            if depth == 0 {
                assert(out@ =~= spec_packet_datas(self@, depth as nat));
                return out;
            }
            match brotli_inflate(self.payload.as_slice()) {
                None => {
                    assert(out@ =~= spec_packet_datas(self@, depth as nat));
                    out
                },
                Some(bytes) => {
                    match RawPacket::from_buffers(bytes.as_slice()) {
                        Err(_) => {
                            assert(out@ =~= spec_packet_datas(self@, depth as nat));
                            out
                        },
                        Ok(frames) => {
                            let ghost models = Seq::new(frames@.len(), |i: int| frames@[i]@);
                            let ghost d = (depth - 1) as nat;
                            let n = frames.len();
                            let mut k: usize = 0;
                            proof {
                                assert(models.skip(0) =~= models);
                            }
                            while k < n
                                invariant
                                    n == frames@.len(),
                                    k <= n,
                                    models == Seq::new(frames@.len(), |i: int| frames@[i]@),
                                    depth >= 1,
                                    d == (depth - 1) as nat,
                                    out@ + spec_frames_datas(models.skip(k as int), d)
                                        == spec_frames_datas(models, d),
                                decreases n - k,
                            {
                                let fr: &RawPacket = &frames[k];
                                let mut sub = fr.datas_nested(depth - 1);
                                let ghost subv = sub@;
                                let ghost prev = out@;
                                out.append(&mut sub);
                                proof {
                                    let tail = models.skip(k as int);
                                    assert(tail[0] == models[k as int]);
                                    assert(tail.drop_first() =~= models.skip(k + 1));
                                    assert(out@ =~= prev + subv);
                                    assert((prev + subv) + spec_frames_datas(
                                        models.skip(k + 1),
                                        d,
                                    ) =~= prev + (subv + spec_frames_datas(models.skip(k + 1), d)));
                                }
                                k = k + 1;
                            }
                            proof {
                                assert(models.skip(n as int) =~= Seq::<FrameModel>::empty());
                                assert(out@ + Seq::<Data>::empty() =~= out@);
                            }
                            out
                        },
                    }
                },
            }
        } else {
            assert(out@ =~= spec_packet_datas(self@, depth as nat));
            out
        }
    }
}

/// Brotli container order: a container frame's payload units are the
/// units of the frames inside its decompressed bytes, in order; in
/// particular a container of exactly two frames yields the first
/// frame's units followed by the second's.
pub proof fn lemma_container_units_in_order(f: FrameModel, frames: Seq<FrameModel>, depth: nat)
    requires
        f.codec_tag == 3,
        depth >= 1,
        spec_brotli_inflate(f.payload) matches Some(bytes) && spec_split_frames(bytes) == Some(
            frames,
        ),
    ensures
        spec_packet_datas(f, depth) == spec_frames_datas(frames, (depth - 1) as nat),
        frames.len() == 2 ==> spec_packet_datas(f, depth) == spec_packet_datas(
            frames[0],
            (depth - 1) as nat,
        ) + spec_packet_datas(frames[1], (depth - 1) as nat),
{
    let d = (depth - 1) as nat;
    if frames.len() == 2 {
        assert(frames.drop_first() =~= seq![frames[1]]);
        assert(frames.drop_first().drop_first() =~= Seq::<FrameModel>::empty());
        assert(spec_frames_datas(Seq::<FrameModel>::empty(), d) =~= Seq::<Data>::empty());
        assert(spec_frames_datas(seq![frames[1]], d) =~= spec_packet_datas(frames[1], d)
            + Seq::<Data>::empty());
        assert(spec_packet_datas(frames[1], d) + Seq::<Data>::empty() =~= spec_packet_datas(
            frames[1],
            d,
        ));
    }
}

// ---------------------------------------------------------------------------
// Payload units to events
// ---------------------------------------------------------------------------

/// Why a payload unit yielded no event.
#[derive(Debug)]
pub enum EventParseError {
    /// The JSON message could not be read as a known command.
    CmdDeserError(crate::cmd::CmdDeserError),
    /// The unit came through the undecoded legacy-deflate path.
    DeflateMessage,
}

/// What becomes of one payload unit: a domain event, nothing (a
/// recognized command with no externally useful effect), a
/// command-grammar fault, or the legacy-deflate limitation.
pub ghost enum DataDisposition {
    Event,
    Nothing,
    ParseFail,
    DeflateFail,
}

/// The disposition of a payload unit.
pub open spec fn spec_data_disposition(d: Data) -> DataDisposition {
    match d {
        Data::Popularity(_) => DataDisposition::Event,
        Data::Deflate => DataDisposition::DeflateFail,
        Data::Json(v) => match crate::cmd::spec_cmd_deser(v) {
            crate::cmd::CmdOutcome::Parsed(c) => if crate::cmd::spec_into_event(c) is Some {
                DataDisposition::Event
            } else {
                DataDisposition::Nothing
            },
            crate::cmd::CmdOutcome::ParsedStopLive(_) => DataDisposition::Event,
            crate::cmd::CmdOutcome::ParsedRankTop3(_, _) => DataDisposition::Nothing,
            crate::cmd::CmdOutcome::ParsedDanmu(_) => DataDisposition::Event,
            _ => DataDisposition::ParseFail,
        },
    }
}

/// How the event a payload unit yields relates to the unit: exact,
/// up to the fresh allocations the decode makes (the stop-live list,
/// a defaulted emoticon attribute).
pub open spec fn spec_data_event_ok(d: Data, e: crate::event::EventData) -> bool {
    match d {
        Data::Popularity(p) => e == crate::event::EventData::PopularityUpdateEvent(
            crate::event::PopularityUpdateEvent { popularity: p },
        ),
        Data::Deflate => false,
        Data::Json(v) => match crate::cmd::spec_cmd_deser(v) {
            crate::cmd::CmdOutcome::Parsed(c) => crate::cmd::spec_into_event(c) == Some(e),
            crate::cmd::CmdOutcome::ParsedStopLive(ids) => e matches
                crate::event::EventData::StopLiveEvent(s) && s.room_id_list@ == ids,
            crate::cmd::CmdOutcome::ParsedDanmu(m) => e matches
                crate::event::EventData::DanmakuEvent(dv) && dv.flag == m.danmaku_type && dv.user
                == m.user && dv.fans_medal == crate::cmd::spec_medal_filter(m.fans_medal) && (
            match m.emoticon {
                None => dv.message == crate::model::DanmakuMessage::Plain { message: m.message },
                Some(em) => dv.message matches crate::model::DanmakuMessage::Emoticon {
                    emoticon,
                    alt_message,
                } && crate::cmd::emoticon_model(emoticon) == em && alt_message == m.message,
            }),
            _ => false,
        },
    }
}

impl Data {
    /// Folds the payload unit into its domain event: a JSON unit goes
    /// through the command grammar and the command-to-event mapping,
    /// a counter unit becomes a popularity update, and the
    /// legacy-deflate unit reports its limitation.
    pub fn into_event_data(self) -> (r: Result<
        Option<crate::event::EventData>,
        EventParseError,
    >)
        ensures
            match r {
                Ok(Some(e)) => spec_data_disposition(self) == DataDisposition::Event
                    && spec_data_event_ok(self, e),
                Ok(None) => spec_data_disposition(self) == DataDisposition::Nothing,
                Err(EventParseError::DeflateMessage) => spec_data_disposition(self)
                    == DataDisposition::DeflateFail,
                Err(EventParseError::CmdDeserError(err)) => spec_data_disposition(self)
                    == DataDisposition::ParseFail && (self matches Data::Json(v)
                    && crate::cmd::spec_cmd_err_ok(v, err)),
            },
    {
        match self {
            Data::Json(v) => match crate::cmd::Cmd::deser(v) {
                Ok(cmd) => Ok(cmd.into_event()),
                Err(e) => Err(EventParseError::CmdDeserError(e)),
            },
            Data::Popularity(popularity) => Ok(
                Some(
                    crate::event::EventData::PopularityUpdateEvent(
                        crate::event::PopularityUpdateEvent { popularity },
                    ),
                ),
            ),
            Data::Deflate => Err(EventParseError::DeflateMessage),
        }
    }
}

// ---------------------------------------------------------------------------
// Authentication payload
// ---------------------------------------------------------------------------

/// The outbound authentication payload, sent as JSON bytes inside a
/// frame with opcode `Auth`. `protover` is 3 and `auth_type` is 2 for
/// this client; `key` carries the short-lived room token.
#[derive(Debug, Clone)]
pub struct Auth {
    pub uid: u64,
    pub roomid: u64,
    pub protover: i32,
    pub platform: &'static str,
    pub auth_type: i32,
    pub key: Option<String>,
}

/// The views of an optional string.
pub open spec fn spec_opt_str(key: Option<String>) -> Option<Seq<char>> {
    match key {
        Some(k) => Some(k@),
        None => None,
    }
}

/// The authentication payload as JSON bytes:
/// `{"uid":U,"roomid":R,"protover":P,"platform":"L","type":T,"key":K}`
/// with numbers in decimal, strings escaped, and `K` either a quoted
/// escaped string or `null`.
pub open spec fn spec_auth_payload(
    uid: u64,
    roomid: u64,
    protover: i32,
    platform: Seq<char>,
    auth_type: i32,
    key: Option<Seq<char>>,
) -> Seq<u8> {
    crate::text::spec_str_bytes("{\"uid\":"@) + crate::text::spec_dec_u64(uid)
        + crate::text::spec_str_bytes(",\"roomid\":"@) + crate::text::spec_dec_u64(roomid)
        + crate::text::spec_str_bytes(",\"protover\":"@) + crate::text::spec_dec_i64(
        protover as i64,
    ) + crate::text::spec_str_bytes(",\"platform\":\""@) + crate::text::spec_json_escape(
        vstd::utf8::encode_utf8(platform),
    ) + crate::text::spec_str_bytes("\",\"type\":"@) + crate::text::spec_dec_i64(auth_type as i64)
        + crate::text::spec_str_bytes(",\"key\":"@) + (match key {
        Some(k) => seq![0x22u8] + crate::text::spec_json_escape(vstd::utf8::encode_utf8(k))
            + seq![0x22u8],
        None => crate::text::spec_str_bytes("null"@),
    }) + seq![0x7du8]
}

impl Auth {
    /// The payload this client authenticates with: protocol version 3,
    /// platform "web", type 2, and the given identity and token.
    pub fn new(uid: u64, roomid: u64, key: Option<String>) -> (a: Auth)
        ensures
            a.uid == uid,
            a.roomid == roomid,
            a.protover == 3,
            a.platform@ == "web"@,
            a.auth_type == 2,
            a.key == key,
    {
        Auth { uid, roomid, protover: 3, platform: "web", auth_type: 2, key }
    }

    /// Serializes the payload as JSON bytes.
    pub fn ser(&self) -> (out: Vec<u8>)
        ensures
            out@ == spec_auth_payload(
                self.uid,
                self.roomid,
                self.protover,
                self.platform@,
                self.auth_type,
                spec_opt_str(self.key),
            ),
    {
        let mut out: Vec<u8> = Vec::new();
        crate::text::push_str_bytes(&mut out, "{\"uid\":");
        crate::text::push_dec_u64(&mut out, self.uid);
        crate::text::push_str_bytes(&mut out, ",\"roomid\":");
        crate::text::push_dec_u64(&mut out, self.roomid);
        crate::text::push_str_bytes(&mut out, ",\"protover\":");
        crate::text::push_dec_i64(&mut out, self.protover as i64);
        crate::text::push_str_bytes(&mut out, ",\"platform\":\"");
        crate::text::push_json_escaped(&mut out, self.platform.as_bytes());
        crate::text::push_str_bytes(&mut out, "\",\"type\":");
        crate::text::push_dec_i64(&mut out, self.auth_type as i64);
        crate::text::push_str_bytes(&mut out, ",\"key\":");
        match &self.key {
            Some(k) => {
                out.push(0x22);
                crate::text::push_json_escaped(&mut out, k.as_str().as_bytes());
                out.push(0x22);
            },
            None => {
                crate::text::push_str_bytes(&mut out, "null");
            },
        }
        out.push(0x7d);
        assert(out@ =~= spec_auth_payload(
            self.uid,
            self.roomid,
            self.protover,
            self.platform@,
            self.auth_type,
            spec_opt_str(self.key),
        ));
        out
    }
}

// ---------------------------------------------------------------------------
// Round trip
// ---------------------------------------------------------------------------

/// Parsing a frame's wire bytes yields the frame back.
pub proof fn lemma_frame_bytes_parse(f: FrameModel)
    ensures
        spec_frame_bytes(f).len() == 16 + f.payload.len(),
        spec_frame_from(spec_frame_bytes(f)) == f,
{
    let b = spec_frame_bytes(f);
    assert(b.subrange(0, 4) =~= spec_u32_be(f.total_size));
    assert(b.subrange(4, 6) =~= spec_u16_be(f.header_size));
    assert(b.subrange(6, 8) =~= spec_u16_be(f.codec_tag));
    assert(b.subrange(8, 12) =~= spec_u32_be(f.opcode));
    assert(b.subrange(12, 16) =~= spec_u32_be(f.sequence));
    assert(b.skip(16) =~= f.payload);
    lemma_u32_be_round_trip(f.total_size);
    lemma_u16_be_round_trip(f.header_size);
    lemma_u16_be_round_trip(f.codec_tag);
    lemma_u32_be_round_trip(f.opcode);
    lemma_u32_be_round_trip(f.sequence);
}

/// Round trip: decoding the serialization of an outbound frame built
/// around any opcode and payload recovers that opcode and that payload
/// exactly.
pub proof fn lemma_serialize_decode_round_trip(op: Operation, payload: Seq<u8>)
    requires
        16 + payload.len() <= u32::MAX,
    ensures
        ({
            let f = FrameModel {
                total_size: (16 + payload.len()) as u32,
                header_size: 16u16,
                codec_tag: 1u16,
                opcode: op.spec_code(),
                sequence: 1u32,
                payload: payload,
            };
            let parsed = spec_frame_from(spec_frame_bytes(f));
            &&& parsed == f
            &&& Operation::spec_from_code(parsed.opcode) == Some(op)
            &&& parsed.payload == payload
        }),
{
    let f = FrameModel {
        total_size: (16 + payload.len()) as u32,
        header_size: 16u16,
        codec_tag: 1u16,
        opcode: op.spec_code(),
        sequence: 1u32,
        payload: payload,
    };
    lemma_frame_bytes_parse(f);
    op.lemma_code_round_trip();
}

} // verus!
