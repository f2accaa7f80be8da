//! The framing codec, and the wire form of connection identifiers.
//!
//! A frame is an 8-byte little-endian length followed by exactly that many
//! payload bytes.  The payload is opaque here; agreeing on its encoding is
//! the caller's business.

use vstd::prelude::*;

use crate::connection::ConnectionId;

verus! {

/// A connection identifier in wire form: its sixteen bytes, most
/// significant first.  Only for sending over the network.
#[derive(Clone, Copy, Debug, PartialEq, Eq, Hash)]
pub struct NetUuid(pub [u8; 16]);

/// The sixteen big-endian bytes of an identifier's value.
pub open spec fn u128_be_bytes(n: u128) -> Seq<u8> {
    seq![
        ((n >> 120) & 0xff) as u8,
        ((n >> 112) & 0xff) as u8,
        ((n >> 104) & 0xff) as u8,
        ((n >> 96) & 0xff) as u8,
        ((n >> 88) & 0xff) as u8,
        ((n >> 80) & 0xff) as u8,
        ((n >> 72) & 0xff) as u8,
        ((n >> 64) & 0xff) as u8,
        ((n >> 56) & 0xff) as u8,
        ((n >> 48) & 0xff) as u8,
        ((n >> 40) & 0xff) as u8,
        ((n >> 32) & 0xff) as u8,
        ((n >> 24) & 0xff) as u8,
        ((n >> 16) & 0xff) as u8,
        ((n >> 8) & 0xff) as u8,
        (n & 0xff) as u8,
    ]
}

/// The value sixteen big-endian bytes denote.
#[verifier::opaque]
pub open spec fn be_bytes_u128(b: Seq<u8>) -> u128
    recommends
        b.len() == 16,
{
    (((b[0] as u128) << 120) | ((b[1] as u128) << 112) | ((b[2] as u128) << 104) | ((b[3] as u128)
        << 96) | ((b[4] as u128) << 88) | ((b[5] as u128) << 80) | ((b[6] as u128) << 72) | ((b[7]
        as u128) << 64) | ((b[8] as u128) << 56) | ((b[9] as u128) << 48) | ((b[10] as u128) << 40)
        | ((b[11] as u128) << 32) | ((b[12] as u128) << 24) | ((b[13] as u128) << 16) | ((b[14]
        as u128) << 8) | (b[15] as u128)) as u128
}

/// Reading the big-endian bytes of an identifier gives the identifier
/// back.
pub proof fn lemma_be_round_trip(n: u128)
    ensures
        be_bytes_u128(u128_be_bytes(n)) == n,
{
    reveal(be_bytes_u128);
    assert((((((n >> 120) & 0xff) as u8) as u128) << 120 | ((((n >> 112) & 0xff) as u8) as u128)
        << 112 | ((((n >> 104) & 0xff) as u8) as u128) << 104 | ((((n >> 96) & 0xff) as u8)
        as u128) << 96 | ((((n >> 88) & 0xff) as u8) as u128) << 88 | ((((n >> 80) & 0xff) as u8)
        as u128) << 80 | ((((n >> 72) & 0xff) as u8) as u128) << 72 | ((((n >> 64) & 0xff) as u8)
        as u128) << 64 | ((((n >> 56) & 0xff) as u8) as u128) << 56 | ((((n >> 48) & 0xff) as u8)
        as u128) << 48 | ((((n >> 40) & 0xff) as u8) as u128) << 40 | ((((n >> 32) & 0xff) as u8)
        as u128) << 32 | ((((n >> 24) & 0xff) as u8) as u128) << 24 | ((((n >> 16) & 0xff) as u8)
        as u128) << 16 | ((((n >> 8) & 0xff) as u8) as u128) << 8 | (((n & 0xff) as u8) as u128))
        == n) by (bit_vector);
}

impl NetUuid {
    /// The wire form of a connection identifier.
    pub fn from_id(id: ConnectionId) -> (r: NetUuid)
        ensures
            r.0@ == u128_be_bytes(id.bits),
    {
        let n = id.bits;
        proof {
            assert(((n >> 120) & 0xff) < 256 && ((n >> 112) & 0xff) < 256 && ((n >> 104) & 0xff)
                < 256 && ((n >> 96) & 0xff) < 256 && ((n >> 88) & 0xff) < 256 && ((n >> 80) & 0xff)
                < 256 && ((n >> 72) & 0xff) < 256 && ((n >> 64) & 0xff) < 256 && ((n >> 56) & 0xff)
                < 256 && ((n >> 48) & 0xff) < 256 && ((n >> 40) & 0xff) < 256 && ((n >> 32) & 0xff)
                < 256 && ((n >> 24) & 0xff) < 256 && ((n >> 16) & 0xff) < 256 && ((n >> 8) & 0xff)
                < 256 && (n & 0xff) < 256) by (bit_vector);
        }
        let bytes: [u8; 16] = [
            ((n >> 120) & 0xff) as u8,
            ((n >> 112) & 0xff) as u8,
            ((n >> 104) & 0xff) as u8,
            ((n >> 96) & 0xff) as u8,
            ((n >> 88) & 0xff) as u8,
            ((n >> 80) & 0xff) as u8,
            ((n >> 72) & 0xff) as u8,
            ((n >> 64) & 0xff) as u8,
            ((n >> 56) & 0xff) as u8,
            ((n >> 48) & 0xff) as u8,
            ((n >> 40) & 0xff) as u8,
            ((n >> 32) & 0xff) as u8,
            ((n >> 24) & 0xff) as u8,
            ((n >> 16) & 0xff) as u8,
            ((n >> 8) & 0xff) as u8,
            (n & 0xff) as u8,
        ];
        proof {
            assert(bytes@ =~= u128_be_bytes(n));
        }
        NetUuid(bytes)
    }

    /// The connection identifier these wire bytes denote.
    pub fn into_id(self) -> (r: ConnectionId)
        ensures
            r.bits == be_bytes_u128(self.0@),
    {
        proof {
            reveal(be_bytes_u128);
        }
        let b = &self.0;
        ConnectionId {
            bits: ((b[0] as u128) << 120) | ((b[1] as u128) << 112) | ((b[2] as u128) << 104) | ((
            b[3] as u128) << 96) | ((b[4] as u128) << 88) | ((b[5] as u128) << 80) | ((b[6]
                as u128) << 72) | ((b[7] as u128) << 64) | ((b[8] as u128) << 56) | ((b[9] as u128)
                << 48) | ((b[10] as u128) << 40) | ((b[11] as u128) << 32) | ((b[12] as u128)
                << 24) | ((b[13] as u128) << 16) | ((b[14] as u128) << 8) | (b[15] as u128),
        }
    }
}

/// An error of the framing layer: the input ends before one whole frame
/// has arrived.  The transport treats this as a disconnect condition.
#[derive(Clone, Copy, Debug, PartialEq, Eq, Structural)]
pub enum FrameError {
    Incomplete,
}

/// The 8-byte little-endian encoding of a length.
pub open spec fn u64_le_bytes(n: u64) -> Seq<u8> {
    seq![
        (n & 0xff) as u8,
        ((n >> 8) & 0xff) as u8,
        ((n >> 16) & 0xff) as u8,
        ((n >> 24) & 0xff) as u8,
        ((n >> 32) & 0xff) as u8,
        ((n >> 40) & 0xff) as u8,
        ((n >> 48) & 0xff) as u8,
        ((n >> 56) & 0xff) as u8,
    ]
}

/// The length an 8-byte little-endian header denotes.
#[verifier::opaque]
pub open spec fn le_bytes_u64(b: Seq<u8>) -> u64
    recommends
        b.len() == 8,
{
    ((b[0] as u64) | ((b[1] as u64) << 8) | ((b[2] as u64) << 16) | ((b[3] as u64) << 24)
        | ((b[4] as u64) << 32) | ((b[5] as u64) << 40) | ((b[6] as u64) << 48)
        | ((b[7] as u64) << 56)) as u64
}

/// Reading the little-endian bytes of a length gives that length back.
pub proof fn lemma_le_round_trip(n: u64)
    ensures
        le_bytes_u64(u64_le_bytes(n)) == n,
{
    reveal(le_bytes_u64);
    assert(((((n & 0xff) as u8) as u64) | ((((n >> 8) & 0xff) as u8) as u64) << 8 | ((((n >> 16)
        & 0xff) as u8) as u64) << 16 | ((((n >> 24) & 0xff) as u8) as u64) << 24 | ((((n >> 32)
        & 0xff) as u8) as u64) << 32 | ((((n >> 40) & 0xff) as u8) as u64) << 40 | ((((n >> 48)
        & 0xff) as u8) as u64) << 48 | ((((n >> 56) & 0xff) as u8) as u64) << 56) == n)
        by (bit_vector);
}

/// One whole frame: the length header followed by the payload.
pub open spec fn frame_of(payload: Seq<u8>) -> Seq<u8>
    recommends
        payload.len() <= u64::MAX,
{
    u64_le_bytes(payload.len() as u64) + payload
}

/// What decoding a buffer yields: the first frame's payload, or
/// `Incomplete` when the buffer ends before one whole frame.  Bytes after
/// the first frame are left for the next decode.
pub open spec fn decode_spec(buf: Seq<u8>) -> Result<Seq<u8>, FrameError> {
    if buf.len() < 8 {
        Err(FrameError::Incomplete)
    } else {
        let n = le_bytes_u64(buf.subrange(0, 8)) as int;
        if buf.len() - 8 < n {
            Err(FrameError::Incomplete)
        } else {
            Ok(buf.subrange(8, 8 + n))
        }
    }
}

/// Encodes one payload as a frame.
pub fn encode(payload: &Vec<u8>) -> (frame: Vec<u8>)
    ensures
        frame@ == frame_of(payload@),
{
    let n = payload.len() as u64;
    proof {
        assert((n & 0xff) < 256 && ((n >> 8) & 0xff) < 256 && ((n >> 16) & 0xff) < 256 && ((n
            >> 24) & 0xff) < 256 && ((n >> 32) & 0xff) < 256 && ((n >> 40) & 0xff) < 256 && ((n
            >> 48) & 0xff) < 256 && ((n >> 56) & 0xff) < 256) by (bit_vector);
    }
    let mut frame: Vec<u8> = Vec::new();
    frame.push((n & 0xff) as u8);
    frame.push(((n >> 8) & 0xff) as u8);
    frame.push(((n >> 16) & 0xff) as u8);
    frame.push(((n >> 24) & 0xff) as u8);
    frame.push(((n >> 32) & 0xff) as u8);
    frame.push(((n >> 40) & 0xff) as u8);
    frame.push(((n >> 48) & 0xff) as u8);
    frame.push(((n >> 56) & 0xff) as u8);
    assert(frame@ =~= u64_le_bytes(n));
    let mut i: usize = 0;
    while i < payload.len()
        invariant
            i <= payload@.len(),
            frame@ == u64_le_bytes(n) + payload@.subrange(0, i as int),
        decreases payload@.len() - i,
    {
        frame.push(payload[i]);
        proof {
            assert(frame@ =~= u64_le_bytes(n) + payload@.subrange(0, i + 1));
        }
        i = i + 1;
    }
    proof {
        assert(payload@.subrange(0, payload@.len() as int) =~= payload@);
    }
    frame
}

/// Reads the length the frame header at `start` denotes.
pub fn header_at(buf: &Vec<u8>, start: usize) -> (n: u64)
    requires
        start + 8 <= buf@.len(),
    ensures
        n == le_bytes_u64(buf@.subrange(start as int, start as int + 8)),
{
    let total = buf.len();
    proof {
        reveal(le_bytes_u64);
        assert(start + 8 <= total);
    }
    (buf[start] as u64) | ((buf[start + 1] as u64) << 8) | ((buf[start + 2] as u64) << 16) | ((
    buf[start + 3] as u64) << 24) | ((buf[start + 4] as u64) << 32) | ((buf[start + 5] as u64)
        << 40) | ((buf[start + 6] as u64) << 48) | ((buf[start + 7] as u64) << 56)
}

/// Reads the length a frame header denotes.
pub fn parse_header(h: &Vec<u8>) -> (n: u64)
    requires
        h@.len() >= 8,
    ensures
        n == le_bytes_u64(h@.subrange(0, 8)),
{
    header_at(h, 0)
}

/// Decodes the first frame of a buffer.
pub fn decode(buf: &Vec<u8>) -> (r: Result<Vec<u8>, FrameError>)
    ensures
        match r {
            Ok(payload) => decode_spec(buf@) == Ok::<Seq<u8>, FrameError>(payload@),
            Err(e) => decode_spec(buf@) == Err::<Seq<u8>, FrameError>(e),
        },
{
    if buf.len() < 8 {
        return Err(FrameError::Incomplete);
    }
    let n = parse_header(buf);
    let remaining = buf.len() - 8;
    if (remaining as u64) < n {
        return Err(FrameError::Incomplete);
    }
    let count = n as usize;
    let len = buf.len();
    let mut payload: Vec<u8> = Vec::new();
    let mut i: usize = 0;
    while i < count
        invariant
            i <= count,
            count + 8 <= len,
            len == buf@.len(),
            payload@ == buf@.subrange(8, 8 + i as int),
        decreases count - i,
    {
        payload.push(buf[8 + i]);
        proof {
            assert(payload@ =~= buf@.subrange(8, 8 + (i + 1)));
        }
        i = i + 1;
    }
    Ok(payload)
}

/// Every payload of the sequence fits behind a length header.
pub open spec fn wire_ok(msgs: Seq<Seq<u8>>) -> bool {
    forall|i: int| 0 <= i < msgs.len() ==> #[trigger] msgs[i].len() <= u64::MAX
}

/// The byte stream the write loop produces for a sequence of payloads:
/// their frames, one after the other.
pub open spec fn frames_of(msgs: Seq<Seq<u8>>) -> Seq<u8>
    decreases msgs.len(),
{
    if msgs.len() == 0 {
        Seq::empty()
    } else {
        frame_of(msgs[0]) + frames_of(msgs.drop_first())
    }
}

/// What the read loop recovers from a byte stream: the payloads of its
/// frames, in stream order, or nothing when the stream is not a whole
/// number of frames.
pub open spec fn decode_all(buf: Seq<u8>) -> Option<Seq<Seq<u8>>>
    decreases buf.len(),
{
    if buf.len() == 0 {
        Some(Seq::empty())
    } else if buf.len() < 8 {
        None
    } else {
        let n = le_bytes_u64(buf.subrange(0, 8)) as int;
        if buf.len() - 8 < n {
            None
        } else {
            match decode_all(buf.subrange(8 + n, buf.len() as int)) {
                Some(rest) => Some(seq![buf.subrange(8, 8 + n)] + rest),
                None => None,
            }
        }
    }
}

/// Round trip: decoding an encoded payload gives the payload back.
pub proof fn lemma_frame_round_trip(payload: Seq<u8>)
    requires
        payload.len() <= u64::MAX,
    ensures
        decode_spec(frame_of(payload)) == Ok::<Seq<u8>, FrameError>(payload),
{
    let n = payload.len() as u64;
    lemma_le_round_trip(n);
    let buf = frame_of(payload);
    assert(buf.subrange(0, 8) =~= u64_le_bytes(n));
    assert(buf.subrange(8, 8 + n as int) =~= payload);
}

/// Splits a whole byte stream into its frames' payloads: exactly what
/// the sender framed, in the order the frames stand in the stream, or
/// nothing when the stream is not a whole number of frames.
pub fn decode_stream(buf: &Vec<u8>) -> (r: Option<Vec<Vec<u8>>>)
    ensures
        match r {
            Some(msgs) => decode_all(buf@) == Some(msgs.deep_view()),
            None => decode_all(buf@) is None,
        },
{
    let len = buf.len();
    let mut offset: usize = 0;
    let mut msgs: Vec<Vec<u8>> = Vec::new();
    proof {
        assert(buf@.subrange(0, len as int) =~= buf@);
        assert(msgs.deep_view() =~= Seq::<Seq<u8>>::empty());
        if decode_all(buf@) is Some {
            assert(Seq::<Seq<u8>>::empty() + decode_all(buf@)->Some_0 =~= decode_all(
                buf@,
            )->Some_0);
        }
    }
    while offset < len
        invariant
            offset <= len,
            len == buf@.len(),
            decode_all(buf@) == match decode_all(buf@.subrange(offset as int, len as int)) {
                Some(rest) => Some(msgs.deep_view() + rest),
                None => None::<Seq<Seq<u8>>>,
            },
        decreases len - offset,
    {
        let ghost suffix = buf@.subrange(offset as int, len as int);
        if len - offset < 8 {
            assert(decode_all(suffix) is None);
            return None;
        }
        let n = header_at(buf, offset);
        proof {
            assert(suffix.subrange(0, 8) =~= buf@.subrange(offset as int, offset as int + 8));
        }
        let remaining = len - offset - 8;
        if (remaining as u64) < n {
            assert(decode_all(suffix) is None);
            return None;
        }
        let count = n as usize;
        let mut payload: Vec<u8> = Vec::new();
        let mut i: usize = 0;
        while i < count
            invariant
                i <= count,
                offset + 8 + count <= len,
                len == buf@.len(),
                payload@ == buf@.subrange(offset + 8, offset + 8 + i as int),
            decreases count - i,
        {
            payload.push(buf[offset + 8 + i]);
            proof {
                assert(payload@ =~= buf@.subrange(offset + 8, offset + 8 + (i + 1)));
            }
            i = i + 1;
        }
        let next = offset + 8 + count;
        proof {
            let ghost tail = buf@.subrange(next as int, len as int);
            assert(suffix.subrange(8, 8 + n as int) =~= buf@.subrange(
                offset + 8,
                offset + 8 + n as int,
            ));
            assert(suffix.subrange(8 + n as int, suffix.len() as int) =~= tail);
            assert(decode_all(suffix) == match decode_all(tail) {
                Some(rest) => Some(seq![payload@] + rest),
                None => None::<Seq<Seq<u8>>>,
            });
        }
        let ghost before = msgs.deep_view();
        let ghost prev = msgs@;
        let ghost payload_snapshot = payload@;
        msgs.push(payload);
        proof {
            assert forall|k: int|
                0 <= k < msgs.deep_view().len() implies #[trigger] msgs.deep_view()[k]
                == before.push(payload_snapshot)[k] by {
                if k < prev.len() {
                    assert(msgs@[k] == prev[k]);
                } else {
                    assert(msgs@[k].deep_view() =~= payload_snapshot);
                }
            }
            assert(msgs.deep_view() =~= before.push(payload_snapshot));
            assert(before.push(payload_snapshot) =~= before + seq![payload_snapshot]);
            let ghost tail = buf@.subrange(next as int, len as int);
            if decode_all(tail) is Some {
                let rest = decode_all(tail)->Some_0;
                assert(before + (seq![payload@] + rest) =~= (before + seq![payload@]) + rest);
            }
        }
        offset = next;
    }
    proof {
        assert(buf@.subrange(offset as int, len as int) =~= Seq::<u8>::empty());
        assert(decode_all(Seq::<u8>::empty()) == Some(Seq::<Seq<u8>>::empty()));
        assert(msgs.deep_view() + Seq::<Seq<u8>>::empty() =~= msgs.deep_view());
    }
    Some(msgs)
}

/// Decoding a stream that starts with one whole frame peels that frame
/// off and goes on with the rest of the stream.
#[verifier::spinoff_prover]
proof fn lemma_decode_one(head: Seq<u8>, tail: Seq<u8>)
    requires
        head.len() <= u64::MAX,
    ensures
        decode_all(frame_of(head) + tail) == match decode_all(tail) {
            Some(rest) => Some(seq![head] + rest),
            None => None::<Seq<Seq<u8>>>,
        },
{
    let n = head.len() as int;
    let buf = frame_of(head) + tail;
    lemma_le_round_trip(head.len() as u64);
    assert(buf.len() == 8 + n + tail.len());
    assert(buf.subrange(0, 8) =~= u64_le_bytes(head.len() as u64));
    assert(le_bytes_u64(buf.subrange(0, 8)) == head.len() as u64);
    assert(buf.subrange(8, 8 + n) =~= head);
    assert(buf.subrange(8 + n, buf.len() as int) =~= tail);
}

/// Per-direction order: the byte stream built from a sequence of payloads
/// decodes back to exactly those payloads, in the order they were sent.
#[verifier::spinoff_prover]
pub proof fn lemma_stream_fifo(msgs: Seq<Seq<u8>>)
    requires
        wire_ok(msgs),
    ensures
        decode_all(frames_of(msgs)) == Some(msgs),
    decreases msgs.len(),
{
    if msgs.len() == 0 {
        assert(frames_of(msgs) =~= Seq::<u8>::empty());
    } else {
        let head = msgs[0];
        let rest = msgs.drop_first();
        assert forall|i: int| 0 <= i < rest.len() implies #[trigger] rest[i].len()
            <= u64::MAX by {
            assert(rest[i] == msgs[i + 1]);
        }
        lemma_stream_fifo(rest);
        lemma_decode_one(head, frames_of(rest));
        assert(seq![head] + rest =~= msgs);
    }
}

} // verus!
